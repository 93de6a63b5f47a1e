use shift_haptics::input::{control_for, Button, Control, Event, EventKind};
use shift_haptics::rumble::{intensity, Intensity};
use shift_haptics::vehicle::{
    Vehicle, DEFAULT_HORSEPOWER, DEFAULT_TORQUE, MAX_TORQUE, UNITS_PER_WHOLE,
};

#[test]
fn vehicle_constants_are_in_thousandths() {
    assert_eq!(UNITS_PER_WHOLE, 1000);
    assert_eq!(MAX_TORQUE, 1000 * UNITS_PER_WHOLE);
    assert_eq!(DEFAULT_TORQUE, 300 * UNITS_PER_WHOLE);
    assert_eq!(DEFAULT_HORSEPOWER, 400 * UNITS_PER_WHOLE);
}

#[test]
fn new_vehicle_is_normalised_against_max_torque() {
    let vehicle = Vehicle::new(350_500, 420_000);
    assert_eq!(
        vehicle,
        Vehicle { torque: 350_500, horsepower: 420_000, max_torque: 1_000_000 }
    );
}

#[test]
fn missing_readings_fall_back_to_defaults() {
    assert_eq!(
        Vehicle::from_readings(None, None),
        Vehicle { torque: 300_000, horsepower: 400_000, max_torque: 1_000_000 }
    );
    assert_eq!(
        Vehicle::from_readings(Some(512_000), None),
        Vehicle { torque: 512_000, horsepower: 400_000, max_torque: 1_000_000 }
    );
    assert_eq!(
        Vehicle::from_readings(None, Some(95_500)),
        Vehicle { torque: 300_000, horsepower: 95_500, max_torque: 1_000_000 }
    );
    assert_eq!(
        Vehicle::from_readings(Some(0), Some(0)),
        Vehicle { torque: 0, horsepower: 0, max_torque: 1_000_000 }
    );
}

#[test]
fn vehicle_intensity_is_the_intensity_of_its_torque() {
    let vehicle = Vehicle::new(500_000, 400_000);
    assert_eq!(
        vehicle.calculate_rumble_intensity(true),
        Intensity { numerator: 6_500_000, denominator: 10_000_000 }
    );
    assert_eq!(
        vehicle.calculate_rumble_intensity(false),
        Intensity { numerator: 4_000_000, denominator: 10_000_000 }
    );
    assert_eq!(vehicle.calculate_rumble_intensity(true), intensity(500_000, 1_000_000, true));
    let hand_made = Vehicle { torque: 1200, horsepower: 0, max_torque: 1000 };
    assert_eq!(
        hand_made.calculate_rumble_intensity(false),
        Intensity { numerator: 9600, denominator: 10000 }
    );
    assert_eq!(
        hand_made.calculate_rumble_intensity(true),
        Intensity { numerator: 10000, denominator: 10000 }
    );
}

#[test]
fn horsepower_plays_no_part_in_the_intensity() {
    let weak_engine = Vehicle::new(300_000, 1);
    let strong_engine = Vehicle::new(300_000, 4_000_000);
    assert_eq!(
        weak_engine.calculate_rumble_intensity(true),
        strong_engine.calculate_rumble_intensity(true)
    );
    assert_eq!(
        weak_engine.calculate_rumble_intensity(false),
        strong_engine.calculate_rumble_intensity(false)
    );
}

#[test]
fn default_vehicle_intensities() {
    let vehicle = Vehicle::from_readings(None, None);
    // 1.3 * 0.3 = 0.39, 0.8 * 0.3 = 0.24
    assert_eq!(
        vehicle.calculate_rumble_intensity(true),
        Intensity { numerator: 3_900_000, denominator: 10_000_000 }
    );
    assert_eq!(
        vehicle.calculate_rumble_intensity(false),
        Intensity { numerator: 2_400_000, denominator: 10_000_000 }
    );
}

#[test]
fn three_buttons_are_bound() {
    assert_eq!(control_for(Button::West), Some(Control::Downshift));
    assert_eq!(control_for(Button::East), Some(Control::Upshift));
    assert_eq!(control_for(Button::Start), Some(Control::Exit));
}

#[test]
fn other_buttons_are_unbound() {
    let unbound = [
        Button::South,
        Button::North,
        Button::C,
        Button::Z,
        Button::LeftTrigger,
        Button::LeftTrigger2,
        Button::RightTrigger,
        Button::RightTrigger2,
        Button::Select,
        Button::Mode,
        Button::LeftThumb,
        Button::RightThumb,
        Button::DPadUp,
        Button::DPadDown,
        Button::DPadLeft,
        Button::DPadRight,
        Button::Unknown,
    ];
    for &button in unbound.iter() {
        assert_eq!(control_for(button), None);
    }
}

#[test]
fn events_are_plain_values() {
    let event = Event { device: 4u32, kind: EventKind::ButtonPressed(Button::West) };
    let copy = event;
    assert_eq!(event, copy);
    assert_ne!(event, Event { device: 5u32, kind: EventKind::ButtonPressed(Button::West) });
    assert_ne!(event, Event { device: 4u32, kind: EventKind::Connected });
}
