//! The gear-state machine: a counter bounded to the gears of the gearbox.

use vstd::prelude::*;

verus! {

/// The lowest gear of the gearbox.
pub const LOWEST_GEAR: u8 = 1;

/// The highest gear of the gearbox.
pub const HIGHEST_GEAR: u8 = 6;

/// The gear a gearbox is in when a session starts.
pub const INITIAL_GEAR: u8 = 3;

/// Whether `g` is one of the gears of the gearbox.
pub open spec fn is_gear(g: int) -> bool {
    LOWEST_GEAR <= g <= HIGHEST_GEAR
}

/// Whether a shift in the given direction changes gear `g`.
pub open spec fn can_shift(g: int, is_downshift: bool) -> bool {
    if is_downshift {
        g > LOWEST_GEAR
    } else {
        g < HIGHEST_GEAR
    }
}

/// The gear that follows `g` after one shift request in the given direction:
/// one step down or up, or `g` itself at the end of the range.
pub open spec fn gear_after_shift(g: int, is_downshift: bool) -> int {
    if !can_shift(g, is_downshift) {
        g
    } else if is_downshift {
        g - 1
    } else {
        g + 1
    }
}

/// The gear reached from `g` after `n` shift requests in one direction.
pub open spec fn gear_after_shifts(g: int, is_downshift: bool, n: nat) -> int
    decreases n,
{
    if n == 0 {
        g
    } else {
        gear_after_shift(gear_after_shifts(g, is_downshift, (n - 1) as nat), is_downshift)
    }
}

/// What a shift request did.
#[derive(Clone, Copy, PartialEq, Eq, Debug)]
pub enum ShiftOutcome {
    /// The gear changed; `gear` is the new gear.
    Shifted { is_downshift: bool, gear: u8 },
    /// The gearbox was already at the end of its range in that direction;
    /// `gear` is the unchanged gear.
    BoundaryReached { is_downshift: bool, gear: u8 },
}

/// The outcome of a shift request made in gear `g`.
pub open spec fn shift_outcome(g: int, is_downshift: bool) -> ShiftOutcome {
    if can_shift(g, is_downshift) {
        ShiftOutcome::Shifted { is_downshift, gear: gear_after_shift(g, is_downshift) as u8 }
    } else {
        ShiftOutcome::BoundaryReached { is_downshift, gear: g as u8 }
    }
}

/// The current gear of the gearbox, always between `LOWEST_GEAR` and
/// `HIGHEST_GEAR`.
#[derive(Clone, Copy, PartialEq, Eq, Debug)]
pub struct GearState {
    current_gear: u8,
}

impl GearState {
    #[verifier::type_invariant]
    closed spec fn in_range(self) -> bool {
        is_gear(self.current_gear as int)
    }

    /// The gear this state stands for.
    pub closed spec fn gear(self) -> int {
        self.current_gear as int
    }

    /// A gearbox in the initial gear.
    pub fn new() -> (state: Self)
        ensures
            state.gear() == INITIAL_GEAR,
    {
        GearState { current_gear: INITIAL_GEAR }
    }

    /// A gearbox in the given gear, if the gearbox has that gear.
    pub fn in_gear(gear: u8) -> (state: Option<Self>)
        ensures
            is_gear(gear as int) ==> state.is_some() && state.unwrap().gear() == gear,
            !is_gear(gear as int) ==> state.is_none(),
    {
        if LOWEST_GEAR <= gear && gear <= HIGHEST_GEAR {
            Some(GearState { current_gear: gear })
        } else {
            None
        }
    }

    /// The current gear.
    pub fn current_gear(&self) -> (gear: u8)
        ensures
            gear == self.gear(),
            is_gear(gear as int),
    {
        proof {
            use_type_invariant(self);
        }
        self.current_gear
    }

    /// Handles one shift request: moves one gear in the given direction
    /// unless the gearbox is already at the end of its range.
    pub fn shift(&mut self, is_downshift: bool) -> (outcome: ShiftOutcome)
        ensures
            final(self).gear() == gear_after_shift(old(self).gear(), is_downshift),
            outcome == shift_outcome(old(self).gear(), is_downshift),
    {
        proof {
            use_type_invariant(&*self);
        }
        if is_downshift {
            if self.current_gear > LOWEST_GEAR {
                self.current_gear = self.current_gear - 1;
                ShiftOutcome::Shifted { is_downshift, gear: self.current_gear }
            } else {
                ShiftOutcome::BoundaryReached { is_downshift, gear: self.current_gear }
            }
        } else {
            if self.current_gear < HIGHEST_GEAR {
                self.current_gear = self.current_gear + 1;
                ShiftOutcome::Shifted { is_downshift, gear: self.current_gear }
            } else {
                ShiftOutcome::BoundaryReached { is_downshift, gear: self.current_gear }
            }
        }
    }

    /// Requests the next higher gear.
    pub fn upshift(&mut self) -> (outcome: ShiftOutcome)
        ensures
            final(self).gear() == gear_after_shift(old(self).gear(), false),
            outcome == shift_outcome(old(self).gear(), false),
    {
        self.shift(false)
    }

    /// Requests the next lower gear.
    pub fn downshift(&mut self) -> (outcome: ShiftOutcome)
        ensures
            final(self).gear() == gear_after_shift(old(self).gear(), true),
            outcome == shift_outcome(old(self).gear(), true),
    {
        self.shift(true)
    }
}

impl Default for GearState {
    /// A gearbox in the initial gear.
    fn default() -> (state: Self)
        ensures
            state.gear() == INITIAL_GEAR,
    {
        GearState::new()
    }
}

/// A shift request never leaves the range of gears.
pub proof fn lemma_shift_stays_in_range(g: int, is_downshift: bool)
    requires
        is_gear(g),
    ensures
        is_gear(gear_after_shift(g, is_downshift)),
{
}

/// A shift request changes the gear exactly when it does not meet the end
/// of the range, and then by one step.
pub proof fn lemma_shift_moves_one_step_or_none(g: int, is_downshift: bool)
    requires
        is_gear(g),
    ensures
        can_shift(g, is_downshift) <==> gear_after_shift(g, is_downshift) != g,
        !is_downshift ==> g <= gear_after_shift(g, is_downshift) <= g + 1,
        is_downshift ==> g - 1 <= gear_after_shift(g, is_downshift) <= g,
{
}

/// A downshift takes back an upshift that changed the gear, and an upshift
/// takes back a downshift that changed the gear.
pub proof fn lemma_opposite_shift_undoes(g: int, is_downshift: bool)
    requires
        is_gear(g),
        can_shift(g, is_downshift),
    ensures
        gear_after_shift(gear_after_shift(g, is_downshift), !is_downshift) == g,
{
}

/// After `n` downshift requests the gearbox is `n` gears lower, but never
/// below the lowest gear: further requests at the floor change nothing.
pub proof fn lemma_repeated_downshifts(g: int, n: nat)
    requires
        is_gear(g),
    ensures
        gear_after_shifts(g, true, n) == if g - n >= LOWEST_GEAR {
            g - n
        } else {
            LOWEST_GEAR as int
        },
    decreases n,
{
    if n > 0 {
        lemma_repeated_downshifts(g, (n - 1) as nat);
    }
}

/// After `n` upshift requests the gearbox is `n` gears higher, but never
/// above the highest gear: further requests at the ceiling change nothing.
pub proof fn lemma_repeated_upshifts(g: int, n: nat)
    requires
        is_gear(g),
    ensures
        gear_after_shifts(g, false, n) == if g + n <= HIGHEST_GEAR {
            g + n
        } else {
            HIGHEST_GEAR as int
        },
    decreases n,
{
    if n > 0 {
        lemma_repeated_upshifts(g, (n - 1) as nat);
    }
}

} // verus!
