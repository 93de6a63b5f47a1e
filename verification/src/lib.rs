//! Haptic feedback for a simulated sequential gearbox.
//!
//! - `gear`: the gear counter, bounded to the gears of the gearbox.
//! - `rumble`: the intensity of a shift pulse as an exact fraction, and the
//!   actuator command derived from it.
//! - `vehicle`: the torque and power a session is set up with.
//! - `input`: buttons, the controls bound to them, and device events.
//! - `session`: the dispatch of device events to the gearbox and the
//!   actuators.
//!
//! The library decides and computes; it performs no input or output. All
//! arithmetic is integer arithmetic, and every function is verified against
//! the contract written on it.

pub mod gear;
pub mod input;
pub mod rumble;
pub mod session;
pub mod vehicle;
