//! The rumble model: how hard and how long the actuators pulse on a shift.
//!
//! An intensity is an exact fraction between zero and one. It is the
//! vehicle's torque as a share of the normalisation maximum, scaled by a gain
//! that depends on the shift direction, and saturated at one. The two
//! actuator magnitudes are that fraction of the full 16-bit scale, rounded to
//! the nearest integer with halves rounded up.

use vstd::prelude::*;
use vstd::arithmetic::div_mod::{
    lemma_div_is_ordered,
    lemma_fundamental_div_mod,
    lemma_mod_pos_bound,
};

verus! {

/// The magnitude that drives an actuator at full strength.
pub const FULL_MAGNITUDE: u16 = 65535;

/// Gain of a downshift pulse, in tenths: a downshift is 30% stronger than
/// the bare torque fraction.
pub const DOWNSHIFT_GAIN_TENTHS: u64 = 13;

/// Gain of an upshift pulse, in tenths: an upshift is 20% lighter than the
/// bare torque fraction.
pub const UPSHIFT_GAIN_TENTHS: u64 = 8;

/// Share of the intensity that the weak actuator runs at, in tenths.
pub const WEAK_SHARE_TENTHS: u64 = 7;

/// The weak actuator's magnitude at full intensity: seven tenths of
/// `FULL_MAGNITUDE`, rounded.
pub const FULL_WEAK_MAGNITUDE: u16 = 45875;

/// Length of a downshift pulse in milliseconds.
pub const DOWNSHIFT_PULSE_MS: u32 = 200;

/// Length of an upshift pulse in milliseconds.
pub const UPSHIFT_PULSE_MS: u32 = 150;

/// A rumble intensity: the fraction `numerator / denominator`, which lies
/// between zero and one when the value is well formed.
#[derive(Clone, Copy, PartialEq, Eq, Debug)]
pub struct Intensity {
    pub numerator: u64,
    pub denominator: u64,
}

/// The command for one pulse of the two actuators.
#[derive(Clone, Copy, PartialEq, Eq, Debug)]
pub struct RumbleCommand {
    pub strong_magnitude: u16,
    pub weak_magnitude: u16,
    pub duration_ms: u32,
}

/// The gain of a shift in the given direction, in tenths.
pub open spec fn gain_tenths(is_downshift: bool) -> int {
    if is_downshift {
        DOWNSHIFT_GAIN_TENTHS as int
    } else {
        UPSHIFT_GAIN_TENTHS as int
    }
}

/// The numerator, over the denominator `b`, of the non-negative fraction
/// `a / b` saturated at one.
pub open spec fn clamped_numerator(a: int, b: int) -> int {
    if a <= b {
        a
    } else {
        b
    }
}

/// The intensity of a shift: `gain * torque / max_torque` saturated at one,
/// held as a fraction over ten times `max_torque`.
pub open spec fn shift_intensity(torque: u32, max_torque: u32, is_downshift: bool) -> Intensity {
    Intensity {
        numerator: clamped_numerator(gain_tenths(is_downshift) * torque, 10 * max_torque) as u64,
        denominator: (10 * max_torque) as u64,
    }
}

/// The integer nearest to `a / b`, halves rounded up, for `a >= 0` and
/// `b > 0`.
pub open spec fn round_div(a: int, b: int) -> int {
    (2 * a + b) / (2 * b)
}

/// The length in milliseconds of the pulse for a shift in the given
/// direction.
pub open spec fn pulse_duration(is_downshift: bool) -> u32 {
    if is_downshift {
        DOWNSHIFT_PULSE_MS
    } else {
        UPSHIFT_PULSE_MS
    }
}

/// The pulse that a shift of the given intensity and direction calls for.
pub open spec fn rumble_command(intensity: Intensity, is_downshift: bool) -> RumbleCommand {
    RumbleCommand {
        strong_magnitude: intensity.spec_strong_magnitude() as u16,
        weak_magnitude: intensity.spec_weak_magnitude() as u16,
        duration_ms: pulse_duration(is_downshift),
    }
}

impl Intensity {
    /// The fraction is defined and lies between zero and one.
    pub open spec fn wf(self) -> bool {
        0 < self.denominator && self.numerator <= self.denominator
    }

    /// This intensity is the fraction `a / b`.
    pub open spec fn equals_fraction(self, a: int, b: int) -> bool {
        self.numerator * b == a * self.denominator
    }

    /// This intensity is one.
    pub open spec fn is_full(self) -> bool {
        self.numerator == self.denominator
    }

    /// `magnitude` is the integer nearest to this intensity's share of
    /// `FULL_MAGNITUDE`: it is at most one half above it and less than one
    /// half below it.
    pub open spec fn rounds_to_strong(self, magnitude: int) -> bool {
        &&& 2 * (self.denominator * magnitude - FULL_MAGNITUDE * self.numerator)
            <= self.denominator
        &&& 2 * (FULL_MAGNITUDE * self.numerator - self.denominator * magnitude)
            < self.denominator
    }

    /// `magnitude` is the integer nearest to seven tenths of this
    /// intensity's share of `FULL_MAGNITUDE`.
    pub open spec fn rounds_to_weak(self, magnitude: int) -> bool {
        &&& 2 * (10 * (self.denominator * magnitude) - WEAK_SHARE_TENTHS * FULL_MAGNITUDE
            * self.numerator) <= 10 * self.denominator
        &&& 2 * (WEAK_SHARE_TENTHS * FULL_MAGNITUDE * self.numerator - 10 * (self.denominator
            * magnitude)) < 10 * self.denominator
    }

    /// The strong actuator's magnitude: the intensity as a share of
    /// `FULL_MAGNITUDE`, rounded to the nearest integer.
    pub open spec fn spec_strong_magnitude(self) -> int {
        round_div(FULL_MAGNITUDE * self.numerator, self.denominator as int)
    }

    /// The weak actuator's magnitude: seven tenths of the intensity as a
    /// share of `FULL_MAGNITUDE`, rounded to the nearest integer.
    pub open spec fn spec_weak_magnitude(self) -> int {
        round_div(WEAK_SHARE_TENTHS * FULL_MAGNITUDE * self.numerator, 10 * self.denominator)
    }

    /// The fraction `numerator / denominator`, saturated at one.
    pub fn clamped(numerator: u64, denominator: u64) -> (result: Self)
        requires
            denominator > 0,
        ensures
            result.wf(),
            result.numerator == clamped_numerator(numerator as int, denominator as int),
            result.denominator == denominator,
    {
        if numerator <= denominator {
            Intensity { numerator, denominator }
        } else {
            Intensity { numerator: denominator, denominator }
        }
    }

    /// The magnitude to drive the strong actuator with.
    pub fn strong_magnitude(&self) -> (magnitude: u16)
        requires
            self.wf(),
        ensures
            magnitude == self.spec_strong_magnitude(),
            self.rounds_to_strong(magnitude as int),
    {
        let numerator: u128 = self.numerator as u128;
        let denominator: u128 = self.denominator as u128;
        let scaled: u128 = (FULL_MAGNITUDE as u128) * numerator;
        proof {
            lemma_round_div_at_most(65535 * numerator, denominator as int, 65535);
            lemma_round_div_is_nearest(65535 * numerator, denominator as int);
        }
        let rounded: u128 = round_ratio(scaled, denominator);
        rounded as u16
    }

    /// The magnitude to drive the weak actuator with.
    pub fn weak_magnitude(&self) -> (magnitude: u16)
        requires
            self.wf(),
        ensures
            magnitude == self.spec_weak_magnitude(),
            self.rounds_to_weak(magnitude as int),
    {
        let numerator: u128 = self.numerator as u128;
        let denominator: u128 = self.denominator as u128;
        let share: u128 = (WEAK_SHARE_TENTHS as u128) * (FULL_MAGNITUDE as u128);
        let scaled: u128 = share * numerator;
        proof {
            assert(WEAK_SHARE_TENTHS * FULL_MAGNITUDE * self.numerator == 458745 * numerator);
            lemma_round_div_at_most(458745 * numerator, 10 * denominator, 45875);
            lemma_round_div_is_nearest(458745 * numerator, 10 * denominator);
            let rounded = round_div(458745 * numerator, 10 * denominator);
            assert((10 * denominator) * rounded == 10 * (denominator * rounded))
                by (nonlinear_arith);
        }
        let rounded: u128 = round_ratio(scaled, 10 * denominator);
        rounded as u16
    }
}

impl RumbleCommand {
    /// This command is the pulse for a shift of the given intensity and
    /// direction: its magnitudes are the nearest integers to the intensity's
    /// share, and to seven tenths of that share, of `FULL_MAGNITUDE`, and it
    /// lasts as long as pulses in that direction do.
    pub open spec fn is_pulse_for(self, intensity: Intensity, is_downshift: bool) -> bool {
        &&& intensity.rounds_to_strong(self.strong_magnitude as int)
        &&& intensity.rounds_to_weak(self.weak_magnitude as int)
        &&& self.duration_ms == pulse_duration(is_downshift)
    }

    /// The weak magnitude is seven tenths of the strong magnitude, up to
    /// the rounding of the two: ten times the one and seven times the other
    /// differ by at most eight.
    pub open spec fn weak_is_seventy_percent_of_strong(self) -> bool {
        -8 <= 10 * self.weak_magnitude - 7 * self.strong_magnitude <= 8
    }

    /// The pulse for a shift of the given intensity and direction.
    pub fn for_shift(intensity: Intensity, is_downshift: bool) -> (command: Self)
        requires
            intensity.wf(),
        ensures
            command == rumble_command(intensity, is_downshift),
            command.is_pulse_for(intensity, is_downshift),
            command.weak_is_seventy_percent_of_strong(),
    {
        proof {
            lemma_weak_is_seventy_percent_of_strong(intensity);
        }
        RumbleCommand {
            strong_magnitude: intensity.strong_magnitude(),
            weak_magnitude: intensity.weak_magnitude(),
            duration_ms: pulse_duration_ms(is_downshift),
        }
    }
}

/// The rumble intensity of a shift for a vehicle that delivers `torque`,
/// normalised against `max_torque` (both in the same unit).
pub fn intensity(torque: u32, max_torque: u32, is_downshift: bool) -> (result: Intensity)
    requires
        max_torque > 0,
    ensures
        result == shift_intensity(torque, max_torque, is_downshift),
        result.wf(),
        gain_tenths(is_downshift) * torque <= 10 * max_torque ==> result.equals_fraction(
            gain_tenths(is_downshift) * torque,
            10 * max_torque,
        ),
        gain_tenths(is_downshift) * torque > 10 * max_torque ==> result.is_full(),
{
    let scaled: u64 = if is_downshift {
        DOWNSHIFT_GAIN_TENTHS * (torque as u64)
    } else {
        UPSHIFT_GAIN_TENTHS * (torque as u64)
    };
    Intensity::clamped(scaled, 10 * (max_torque as u64))
}

/// The length in milliseconds of the pulse for a shift in the given
/// direction. It does not depend on the intensity.
pub fn pulse_duration_ms(is_downshift: bool) -> (duration: u32)
    ensures
        duration == pulse_duration(is_downshift),
{
    if is_downshift {
        DOWNSHIFT_PULSE_MS
    } else {
        UPSHIFT_PULSE_MS
    }
}

/// Decides what to send to a device after a shift: the pulse for the shift
/// if the device supports force feedback, and nothing if it does not.
pub fn trigger_rumble(intensity: Intensity, is_downshift: bool, ff_supported: bool) -> (command:
    Option<RumbleCommand>)
    requires
        intensity.wf(),
    ensures
        ff_supported ==> command == Some(rumble_command(intensity, is_downshift))
            && command.unwrap().is_pulse_for(intensity, is_downshift)
            && command.unwrap().weak_is_seventy_percent_of_strong(),
        !ff_supported ==> command.is_none(),
{
    if ff_supported {
        Some(RumbleCommand::for_shift(intensity, is_downshift))
    } else {
        None
    }
}

/// `a / b` rounded to the nearest integer, halves rounded up.
fn round_ratio(a: u128, b: u128) -> (rounded: u128)
    requires
        b > 0,
        2 * a + b <= u128::MAX,
        2 * b <= u128::MAX,
    ensures
        rounded == round_div(a as int, b as int),
{
    (2 * a + b) / (2 * b)
}

proof fn lemma_div_sandwich(x: int, d: int)
    requires
        0 <= x,
        0 < d,
    ensures
        d * (x / d) <= x < d * (x / d) + d,
{
    lemma_fundamental_div_mod(x, d);
    lemma_mod_pos_bound(x, d);
}

proof fn lemma_round_div_at_most(a: int, b: int, k: int)
    requires
        0 <= a,
        0 < b,
        2 * a + b < 2 * b * (k + 1),
    ensures
        0 <= round_div(a, b) <= k,
{
    lemma_round_div_is_nearest(a, b);
    let q = round_div(a, b);
    assert(q <= k) by (nonlinear_arith)
        requires
            0 < b,
            2 * (b * q - a) <= b,
            2 * a + b < 2 * b * (k + 1),
    ;
}

/// `round_div(a, b)` is a nearest integer to `a / b`: it differs from the
/// fraction by at most one half, and by less than one half from above.
pub proof fn lemma_round_div_is_nearest(a: int, b: int)
    requires
        0 <= a,
        0 < b,
    ensures
        0 <= round_div(a, b),
        2 * (b * round_div(a, b) - a) <= b,
        2 * (a - b * round_div(a, b)) < b,
{
    let q = round_div(a, b);
    lemma_div_sandwich(2 * a + b, 2 * b);
    assert((2 * b) * q == 2 * (b * q)) by (nonlinear_arith);
    assert(0 <= q) by (nonlinear_arith)
        requires
            0 < b,
            0 <= a,
            2 * a + b < 2 * (b * q) + 2 * b,
    ;
}

/// The intensity of a shift is the torque fraction times the gain of the
/// direction (1.3 down, 0.8 up), saturated at one.
pub proof fn lemma_intensity_is_clamped_scaled_fraction(
    torque: u32,
    max_torque: u32,
    is_downshift: bool,
)
    requires
        max_torque > 0,
    ensures
        ({
            let i = shift_intensity(torque, max_torque, is_downshift);
            let g = gain_tenths(is_downshift);
            &&& g * torque <= 10 * max_torque ==> i.equals_fraction(g * torque, 10 * max_torque)
            &&& g * torque > 10 * max_torque ==> i.is_full()
        }),
{
}

/// The intensity of a shift lies between zero and one, however far the
/// torque exceeds the normalisation maximum.
pub proof fn lemma_intensity_in_unit_range(torque: u32, max_torque: u32, is_downshift: bool)
    requires
        max_torque > 0,
    ensures
        shift_intensity(torque, max_torque, is_downshift).wf(),
{
}

/// The rounded magnitudes are the nearest integers to the exact shares.
pub proof fn lemma_magnitudes_are_nearest(intensity: Intensity)
    requires
        intensity.wf(),
    ensures
        intensity.rounds_to_strong(intensity.spec_strong_magnitude()),
        intensity.rounds_to_weak(intensity.spec_weak_magnitude()),
{
    let n = intensity.numerator as int;
    let d = intensity.denominator as int;
    lemma_round_div_is_nearest(65535 * n, d);
    lemma_round_div_is_nearest(458745 * n, 10 * d);
    let w = round_div(458745 * n, 10 * d);
    assert((10 * d) * w == 10 * (d * w)) by (nonlinear_arith);
}

/// Only one integer is nearest in that sense: a magnitude that rounds the
/// exact share is the rounded magnitude.
pub proof fn lemma_nearest_magnitudes_are_unique(intensity: Intensity, strong: int, weak: int)
    requires
        intensity.wf(),
    ensures
        intensity.rounds_to_strong(strong) ==> strong == intensity.spec_strong_magnitude(),
        intensity.rounds_to_weak(weak) ==> weak == intensity.spec_weak_magnitude(),
{
    lemma_magnitudes_are_nearest(intensity);
    let d = intensity.denominator as int;
    if intensity.rounds_to_strong(strong) {
        let s = intensity.spec_strong_magnitude();
        assert(d * (strong - s) == d * strong - d * s) by (nonlinear_arith);
        assert(strong == s) by (nonlinear_arith)
            requires
                0 < d,
                -d < d * (strong - s) < d,
        ;
    }
    if intensity.rounds_to_weak(weak) {
        let w = intensity.spec_weak_magnitude();
        assert(d * (weak - w) == d * weak - d * w) by (nonlinear_arith);
        assert(weak == w) by (nonlinear_arith)
            requires
                0 < d,
                -d < d * (weak - w) < d,
        ;
    }
}

/// Both magnitudes fit the actuators' scale, and the weak one never exceeds
/// seven tenths of the scale, rounded.
pub proof fn lemma_magnitudes_in_range(intensity: Intensity)
    requires
        intensity.wf(),
    ensures
        0 <= intensity.spec_strong_magnitude() <= FULL_MAGNITUDE,
        0 <= intensity.spec_weak_magnitude() <= FULL_WEAK_MAGNITUDE,
{
    assert(WEAK_SHARE_TENTHS * FULL_MAGNITUDE * intensity.numerator == 458745
        * intensity.numerator);
    lemma_round_div_at_most(65535 * intensity.numerator, intensity.denominator as int, 65535);
    lemma_round_div_at_most(458745 * intensity.numerator, 10 * intensity.denominator, 45875);
}

/// The weak magnitude is seventy percent of the strong magnitude, up to the
/// rounding of the two: ten times the weak one and seven times the strong
/// one differ by at most eight.
pub proof fn lemma_weak_is_seventy_percent_of_strong(intensity: Intensity)
    requires
        intensity.wf(),
    ensures
        -8 <= 10 * intensity.spec_weak_magnitude() - 7 * intensity.spec_strong_magnitude() <= 8,
{
    let n: int = 65535 * intensity.numerator;
    let d: int = intensity.denominator as int;
    let s = round_div(n, d);
    let w = round_div(7 * n, 10 * d);
    assert(WEAK_SHARE_TENTHS * FULL_MAGNITUDE * intensity.numerator == 458745
        * intensity.numerator);
    lemma_round_div_is_nearest(n, d);
    lemma_round_div_is_nearest(7 * n, 10 * d);
    assert((10 * d) * w == 10 * (d * w)) by (nonlinear_arith);
    let k = 10 * w - 7 * s;
    assert(d * k == 10 * (d * w) - 7 * (d * s)) by (nonlinear_arith)
        requires
            k == 10 * w - 7 * s,
    ;
    assert(-8 <= k <= 8) by (nonlinear_arith)
        requires
            0 < d,
            -17 * d < 2 * (d * k) < 17 * d,
    ;
}

/// More torque never gives a lighter pulse, and at the same torque a
/// downshift is never lighter than an upshift: the intensities are ordered
/// as the torques and the gains are.
pub proof fn lemma_intensity_is_monotone(
    lower_torque: u32,
    higher_torque: u32,
    max_torque: u32,
    is_downshift: bool,
)
    requires
        max_torque > 0,
        lower_torque <= higher_torque,
    ensures
        shift_intensity(lower_torque, max_torque, is_downshift).numerator <= shift_intensity(
            higher_torque,
            max_torque,
            is_downshift,
        ).numerator,
        shift_intensity(lower_torque, max_torque, false).numerator <= shift_intensity(
            lower_torque,
            max_torque,
            true,
        ).numerator,
{
    let low = lower_torque as int;
    let high = higher_torque as int;
    assert(gain_tenths(true) * low == 13 * low && gain_tenths(true) * high == 13 * high);
    assert(gain_tenths(false) * low == 8 * low && gain_tenths(false) * high == 8 * high);
}

/// Of two intensities over the same denominator, the one with the larger
/// numerator has the larger magnitudes, or the same.
pub proof fn lemma_magnitudes_are_monotone(lighter: Intensity, stronger: Intensity)
    requires
        lighter.wf(),
        stronger.wf(),
        lighter.denominator == stronger.denominator,
        lighter.numerator <= stronger.numerator,
    ensures
        lighter.spec_strong_magnitude() <= stronger.spec_strong_magnitude(),
        lighter.spec_weak_magnitude() <= stronger.spec_weak_magnitude(),
{
    let d = lighter.denominator as int;
    let low = lighter.numerator as int;
    let high = stronger.numerator as int;
    assert(FULL_MAGNITUDE * lighter.numerator == 65535 * low);
    assert(FULL_MAGNITUDE * stronger.numerator == 65535 * high);
    assert(WEAK_SHARE_TENTHS * FULL_MAGNITUDE * lighter.numerator == 458745 * low);
    assert(WEAK_SHARE_TENTHS * FULL_MAGNITUDE * stronger.numerator == 458745 * high);
    lemma_div_is_ordered(2 * (65535 * low) + d, 2 * (65535 * high) + d, 2 * d);
    lemma_div_is_ordered(2 * (458745 * low) + 10 * d, 2 * (458745 * high) + 10 * d, 2 * (10 * d));
}

} // verus!
