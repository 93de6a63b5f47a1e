//! The static parameters of the simulated vehicle.
//!
//! Torque is held in thousandths of a pound-foot and power in thousandths of
//! a horsepower, so that three decimal places of a reading survive.

use vstd::prelude::*;
use crate::rumble::{intensity, shift_intensity, Intensity};

verus! {

/// How many units of a `Vehicle` field make one pound-foot or one
/// horsepower.
pub const UNITS_PER_WHOLE: u32 = 1000;

/// The torque that intensities are normalised against: 1000 lb-ft.
pub const MAX_TORQUE: u32 = 1_000_000;

/// The torque assumed when no usable reading is given: 300 lb-ft.
pub const DEFAULT_TORQUE: u32 = 300_000;

/// The power assumed when no usable reading is given: 400 HP.
pub const DEFAULT_HORSEPOWER: u32 = 400_000;

/// The parameters of a vehicle. They are set once and stay as they are for
/// the length of a session.
#[derive(Clone, Copy, PartialEq, Eq, Debug)]
pub struct Vehicle {
    /// Torque, in thousandths of a pound-foot.
    pub torque: u32,
    /// Power, in thousandths of a horsepower. It is shown to the user and
    /// plays no part in the rumble model.
    pub horsepower: u32,
    /// The torque that stands for an intensity of one, before the gain of
    /// the shift direction is applied. Same unit as `torque`.
    pub max_torque: u32,
}

/// The reading if there is one, and the fallback if there is none.
pub open spec fn reading_or(reading: Option<u32>, fallback: u32) -> u32 {
    match reading {
        Some(value) => value,
        None => fallback,
    }
}

impl Vehicle {
    /// The normalisation torque is positive, so that the torque fraction is
    /// defined.
    pub open spec fn wf(self) -> bool {
        self.max_torque > 0
    }

    /// A vehicle with the given torque and power, normalised against
    /// `MAX_TORQUE`.
    pub fn new(torque: u32, horsepower: u32) -> (vehicle: Self)
        ensures
            vehicle == (Vehicle { torque, horsepower, max_torque: MAX_TORQUE }),
            vehicle.wf(),
    {
        Vehicle { torque, horsepower, max_torque: MAX_TORQUE }
    }

    /// A vehicle from two readings that may each be missing: a missing
    /// torque counts as `DEFAULT_TORQUE`, a missing power as
    /// `DEFAULT_HORSEPOWER`.
    pub fn from_readings(torque: Option<u32>, horsepower: Option<u32>) -> (vehicle: Self)
        ensures
            vehicle == (Vehicle {
                torque: reading_or(torque, DEFAULT_TORQUE),
                horsepower: reading_or(horsepower, DEFAULT_HORSEPOWER),
                max_torque: MAX_TORQUE,
            }),
            vehicle.wf(),
    {
        let torque: u32 = match torque {
            Some(value) => value,
            None => DEFAULT_TORQUE,
        };
        let horsepower: u32 = match horsepower {
            Some(value) => value,
            None => DEFAULT_HORSEPOWER,
        };
        Vehicle::new(torque, horsepower)
    }

    /// The rumble intensity of a shift of this vehicle in the given
    /// direction.
    pub fn calculate_rumble_intensity(&self, is_downshift: bool) -> (result: Intensity)
        requires
            self.wf(),
        ensures
            result == shift_intensity(self.torque, self.max_torque, is_downshift),
            result.wf(),
    {
        intensity(self.torque, self.max_torque, is_downshift)
    }
}

} // verus!
