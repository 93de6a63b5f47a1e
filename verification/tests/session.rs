use shift_haptics::input::{Button, Event, EventKind};
use shift_haptics::rumble::{trigger_rumble, Intensity, RumbleCommand};
use shift_haptics::session::{Probe, Reaction, Session, StartError};
use shift_haptics::vehicle::Vehicle;

const PAD: u32 = 11;
const OTHER_PAD: u32 = 22;

fn press(button: Button) -> Event<u32> {
    Event { device: PAD, kind: EventKind::ButtonPressed(button) }
}

fn downshift() -> Event<u32> {
    press(Button::West)
}

fn upshift() -> Event<u32> {
    press(Button::East)
}

fn exit() -> Event<u32> {
    press(Button::Start)
}

fn connected(device: u32) -> Event<u32> {
    Event { device, kind: EventKind::Connected }
}

fn disconnected(device: u32) -> Event<u32> {
    Event { device, kind: EventKind::Disconnected }
}

fn started(torque: u32) -> Session<u32> {
    match Session::start(Vehicle::new(torque, 400_000), Probe::Devices(vec![PAD])) {
        Ok(session) => session,
        Err(error) => panic!("session did not start: {:?}", error),
    }
}

fn value(intensity: Intensity) -> f64 {
    intensity.numerator as f64 / intensity.denominator as f64
}

#[test]
fn session_starts_in_third_on_the_first_device() {
    let vehicle = Vehicle::new(300_000, 400_000);
    let session = Session::start(vehicle, Probe::Devices(vec![PAD, OTHER_PAD]));
    assert!(session.is_ok());
    let session = match session {
        Ok(session) => session,
        Err(_) => unreachable!(),
    };
    assert_eq!(session.current_gear(), 3);
    assert_eq!(session.active_device(), Some(PAD));
    assert_eq!(session.vehicle(), vehicle);
}

#[test]
fn no_device_at_startup_means_no_session() {
    let vehicle = Vehicle::new(300_000, 400_000);
    let result = Session::<u32>::start(vehicle, Probe::Devices(Vec::new()));
    assert!(matches!(result, Err(StartError::NoDevice)));
}

#[test]
fn unavailable_subsystem_means_no_session() {
    let vehicle = Vehicle::new(300_000, 400_000);
    let result = Session::<u32>::start(vehicle, Probe::Unavailable);
    assert!(matches!(result, Err(StartError::SubsystemUnavailable)));
}

#[test]
fn downshift_from_third_at_half_torque() {
    let mut session = started(500_000);
    let reaction = session.handle(downshift());
    assert_eq!(
        reaction,
        Reaction::Shifted {
            device: PAD,
            is_downshift: true,
            gear: 2,
            intensity: Intensity { numerator: 6_500_000, denominator: 10_000_000 },
        }
    );
    assert_eq!(session.current_gear(), 2);
    match reaction {
        Reaction::Shifted { intensity, .. } => assert_eq!(value(intensity), 0.65),
        _ => unreachable!(),
    }
}

#[test]
fn upshift_from_sixth_above_max_torque() {
    let mut session = started(1_200_000);
    session.handle(upshift());
    session.handle(upshift());
    session.handle(upshift());
    assert_eq!(session.current_gear(), 6);
    let reaction = session.handle(upshift());
    assert_eq!(reaction, Reaction::BoundaryReached { is_downshift: false, gear: 6 });
    assert_eq!(session.current_gear(), 6);
    let intensity = session.vehicle().calculate_rumble_intensity(false);
    assert_eq!(intensity, Intensity { numerator: 9_600_000, denominator: 10_000_000 });
    assert_eq!(value(intensity), 0.96);
}

#[test]
fn downshift_from_first_gives_a_boundary_notice() {
    let mut session = started(300_000);
    session.handle(downshift());
    session.handle(downshift());
    assert_eq!(session.current_gear(), 1);
    let reaction = session.handle(downshift());
    assert_eq!(reaction, Reaction::BoundaryReached { is_downshift: true, gear: 1 });
    assert_eq!(session.current_gear(), 1);
}

#[test]
fn upshift_reports_the_upshift_intensity() {
    let mut session = started(500_000);
    let reaction = session.handle(upshift());
    assert_eq!(
        reaction,
        Reaction::Shifted {
            device: PAD,
            is_downshift: false,
            gear: 4,
            intensity: Intensity { numerator: 4_000_000, denominator: 10_000_000 },
        }
    );
}

#[test]
fn shifted_reaction_leads_to_the_pulse() {
    let mut session = started(500_000);
    match session.handle(downshift()) {
        Reaction::Shifted { device, is_downshift, intensity, .. } => {
            assert_eq!(device, PAD);
            assert_eq!(
                trigger_rumble(intensity, is_downshift, true),
                Some(RumbleCommand {
                    strong_magnitude: 42598,
                    weak_magnitude: 29818,
                    duration_ms: 200,
                })
            );
            assert_eq!(trigger_rumble(intensity, is_downshift, false), None);
        },
        other => panic!("unexpected reaction {:?}", other),
    }
}

#[test]
fn disconnected_session_ignores_shift_presses() {
    let mut session = started(500_000);
    assert_eq!(session.handle(disconnected(PAD)), Reaction::DeviceDisconnected);
    assert_eq!(session.active_device(), None);
    assert_eq!(session.handle(downshift()), Reaction::Ignored);
    assert_eq!(session.handle(upshift()), Reaction::Ignored);
    assert_eq!(session.handle(upshift()), Reaction::Ignored);
    assert_eq!(session.current_gear(), 3);
    assert_eq!(session.active_device(), None);
}

#[test]
fn reconnection_resumes_shifting_without_replaying_presses() {
    let mut session = started(500_000);
    session.handle(disconnected(PAD));
    session.handle(downshift());
    session.handle(downshift());
    let reaction = session.handle(connected(OTHER_PAD));
    assert_eq!(reaction, Reaction::DeviceConnected { device: OTHER_PAD });
    assert_eq!(session.active_device(), Some(OTHER_PAD));
    assert_eq!(session.current_gear(), 3);
    let reaction = session.handle(downshift());
    assert_eq!(
        reaction,
        Reaction::Shifted {
            device: OTHER_PAD,
            is_downshift: true,
            gear: 2,
            intensity: Intensity { numerator: 6_500_000, denominator: 10_000_000 },
        }
    );
}

#[test]
fn any_disconnection_clears_the_active_device() {
    let mut session = started(500_000);
    assert_eq!(session.handle(disconnected(OTHER_PAD)), Reaction::DeviceDisconnected);
    assert_eq!(session.active_device(), None);
}

#[test]
fn connection_replaces_the_active_device() {
    let mut session = started(500_000);
    assert_eq!(
        session.handle(connected(OTHER_PAD)),
        Reaction::DeviceConnected { device: OTHER_PAD }
    );
    assert_eq!(session.active_device(), Some(OTHER_PAD));
}

#[test]
fn pulses_go_to_the_active_device_whoever_pressed() {
    let mut session = started(500_000);
    let foreign = Event { device: OTHER_PAD, kind: EventKind::ButtonPressed(Button::East) };
    match session.handle(foreign) {
        Reaction::Shifted { device, gear, .. } => {
            assert_eq!(device, PAD);
            assert_eq!(gear, 4);
        },
        other => panic!("unexpected reaction {:?}", other),
    }
}

#[test]
fn exit_is_requested_by_start_with_or_without_a_device() {
    let mut session = started(500_000);
    assert_eq!(session.handle(exit()), Reaction::Exit);
    assert_eq!(session.current_gear(), 3);
    session.handle(disconnected(PAD));
    assert_eq!(session.handle(exit()), Reaction::Exit);
}

#[test]
fn unbound_buttons_and_other_events_are_ignored() {
    let mut session = started(500_000);
    assert_eq!(session.handle(press(Button::South)), Reaction::Ignored);
    assert_eq!(session.handle(press(Button::DPadUp)), Reaction::Ignored);
    assert_eq!(session.handle(press(Button::Unknown)), Reaction::Ignored);
    assert_eq!(
        session.handle(Event { device: PAD, kind: EventKind::Other }),
        Reaction::Ignored
    );
    assert_eq!(session.current_gear(), 3);
    assert_eq!(session.active_device(), Some(PAD));
}

#[test]
fn upshift_and_downshift_methods_match_the_button_presses() {
    let mut by_method = started(500_000);
    let mut by_event = started(500_000);
    assert_eq!(by_method.upshift(), by_event.handle(upshift()));
    assert_eq!(by_method.downshift(), by_event.handle(downshift()));
    assert_eq!(by_method.shift(true), by_event.handle(downshift()));
    assert_eq!(by_method.current_gear(), by_event.current_gear());
    assert_eq!(by_method.current_gear(), 2);
}

#[test]
fn vehicle_never_changes_during_a_session() {
    let mut session = started(512_345);
    let before = session.vehicle();
    let events = [
        upshift(),
        downshift(),
        disconnected(PAD),
        connected(OTHER_PAD),
        press(Button::North),
        exit(),
        upshift(),
    ];
    for &event in events.iter() {
        session.handle(event);
        assert_eq!(session.vehicle(), before);
    }
}

#[test]
fn drain_handles_events_in_order() {
    let mut session = started(500_000);
    let reactions = session.drain(&vec![upshift(), upshift(), press(Button::South), downshift()]);
    assert_eq!(reactions.len(), 4);
    assert_eq!(
        reactions[0],
        Reaction::Shifted {
            device: PAD,
            is_downshift: false,
            gear: 4,
            intensity: Intensity { numerator: 4_000_000, denominator: 10_000_000 },
        }
    );
    assert_eq!(
        reactions[1],
        Reaction::Shifted {
            device: PAD,
            is_downshift: false,
            gear: 5,
            intensity: Intensity { numerator: 4_000_000, denominator: 10_000_000 },
        }
    );
    assert_eq!(reactions[2], Reaction::Ignored);
    assert_eq!(
        reactions[3],
        Reaction::Shifted {
            device: PAD,
            is_downshift: true,
            gear: 4,
            intensity: Intensity { numerator: 6_500_000, denominator: 10_000_000 },
        }
    );
    assert_eq!(session.current_gear(), 4);
}

#[test]
fn drain_stops_at_the_exit_request() {
    let mut session = started(500_000);
    let reactions = session.drain(&vec![downshift(), exit(), downshift(), disconnected(PAD)]);
    assert_eq!(reactions.len(), 2);
    assert!(matches!(reactions[0], Reaction::Shifted { gear: 2, .. }));
    assert_eq!(reactions[1], Reaction::Exit);
    assert_eq!(session.current_gear(), 2);
    assert_eq!(session.active_device(), Some(PAD));
}

#[test]
fn drain_of_nothing_does_nothing() {
    let mut session = started(500_000);
    let reactions = session.drain(&Vec::new());
    assert!(reactions.is_empty());
    assert_eq!(session.current_gear(), 3);
    assert_eq!(session.active_device(), Some(PAD));
}

#[test]
fn drain_matches_handling_one_by_one() {
    let events = vec![
        upshift(),
        upshift(),
        upshift(),
        upshift(),
        disconnected(PAD),
        downshift(),
        connected(OTHER_PAD),
        downshift(),
        press(Button::Select),
        downshift(),
    ];
    let mut batch = started(770_000);
    let mut single = started(770_000);
    let reactions = batch.drain(&events);
    assert_eq!(reactions.len(), events.len());
    for (index, &event) in events.iter().enumerate() {
        assert_eq!(reactions[index], single.handle(event));
    }
    assert_eq!(batch.current_gear(), single.current_gear());
    assert_eq!(batch.active_device(), single.active_device());
}

#[test]
fn drain_without_a_device_shifts_nothing() {
    let mut session = started(500_000);
    session.handle(upshift());
    session.handle(disconnected(PAD));
    let reactions = session.drain(&vec![
        downshift(),
        upshift(),
        press(Button::South),
        disconnected(OTHER_PAD),
        downshift(),
    ]);
    assert_eq!(reactions.len(), 5);
    for reaction in reactions.iter() {
        assert!(!matches!(reaction, Reaction::Shifted { .. }));
        assert!(!matches!(reaction, Reaction::BoundaryReached { .. }));
    }
    assert_eq!(session.current_gear(), 4);
    assert_eq!(session.active_device(), None);
}

#[test]
fn every_shifted_intensity_is_a_fraction_of_one() {
    for &torque in [0u32, 1, 300_000, 1_000_000, 5_000_000, u32::MAX].iter() {
        let mut session = started(torque);
        for &event in [upshift(), downshift(), downshift(), upshift()].iter() {
            match session.handle(event) {
                Reaction::Shifted { intensity, .. } => {
                    assert!(intensity.denominator > 0);
                    assert!(intensity.numerator <= intensity.denominator);
                },
                other => panic!("unexpected reaction {:?}", other),
            }
        }
    }
}
