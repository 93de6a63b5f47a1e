//! The session: one gearbox, one vehicle and at most one active device, and
//! the dispatch of device events to them.
//!
//! The session decides; it performs no input or output. Its caller polls the
//! device subsystem, hands each event to `Session::handle` (or a batch of
//! queued events to `Session::drain`) and carries out the reaction that
//! comes back.

use vstd::prelude::*;
use crate::gear::{can_shift, gear_after_shift, is_gear, GearState, ShiftOutcome, INITIAL_GEAR};
use crate::input::{control_for, control_of, Control, Event, EventKind};
use crate::rumble::{shift_intensity, Intensity};
use crate::vehicle::Vehicle;

verus! {

/// What a look at the device subsystem found at startup.
#[derive(Debug)]
pub enum Probe<H> {
    /// The subsystem could not be started.
    Unavailable,
    /// The subsystem runs; these are the connected devices, in the order
    /// in which it lists them.
    Devices(Vec<H>),
}

/// Why a session did not start.
#[derive(Clone, Copy, PartialEq, Eq, Debug)]
pub enum StartError {
    /// The device subsystem could not be started.
    SubsystemUnavailable,
    /// No device is connected.
    NoDevice,
}

/// What the caller is to do after an event.
#[derive(PartialEq, Eq, Debug)]
pub enum Reaction<H> {
    /// The gear changed to `gear`. The caller asks `device` whether it
    /// supports force feedback and lets `trigger_rumble` decide on the pulse
    /// of the given intensity.
    Shifted { device: H, is_downshift: bool, gear: u8, intensity: Intensity },
    /// A shift was requested at the end of the range; the gear is still
    /// `gear`. The caller tells the user.
    BoundaryReached { is_downshift: bool, gear: u8 },
    /// `device` is now the active device.
    DeviceConnected { device: H },
    /// There is no active device any more.
    DeviceDisconnected,
    /// The user asked to leave; the caller stops polling.
    Exit,
    /// Nothing to do.
    Ignored,
}

impl<H: Copy> Clone for Reaction<H> {
    fn clone(&self) -> (copy: Self)
        ensures
            copy == *self,
    {
        *self
    }
}

impl<H: Copy> Copy for Reaction<H> {

}

/// The state of a session as the contracts see it.
pub struct SessionView<H> {
    pub vehicle: Vehicle,
    pub gear: int,
    pub active_device: Option<H>,
}

/// Where a run over a batch of events ended.
pub struct Trace<H> {
    /// The state after the last event that was handled.
    pub state: SessionView<H>,
    /// The reactions to the events that were handled, in their order.
    pub reactions: Seq<Reaction<H>>,
    /// Whether the run ended on an exit request.
    pub exited: bool,
}

/// A session. The vehicle never changes, the gear only through shift
/// requests, the active device only through connection events.
#[derive(Debug)]
pub struct Session<H> {
    vehicle: Vehicle,
    gear: GearState,
    active_device: Option<H>,
}

/// The state a session starts in: the initial gear, and the given device
/// active.
pub open spec fn initial_state<H>(vehicle: Vehicle, device: H) -> SessionView<H> {
    SessionView { vehicle, gear: INITIAL_GEAR as int, active_device: Some(device) }
}

/// Whether a session starts, and in which state: it starts on the first
/// device listed, and does not start without a running subsystem or without
/// a device.
pub open spec fn start_outcome<H>(vehicle: Vehicle, probe: Probe<H>) -> Result<
    SessionView<H>,
    StartError,
> {
    match probe {
        Probe::Unavailable => Err(StartError::SubsystemUnavailable),
        Probe::Devices(devices) => if devices@.len() == 0 {
            Err(StartError::NoDevice)
        } else {
            Ok(initial_state(vehicle, devices@[0]))
        },
    }
}

/// The state after a shift request: with an active device the gearbox
/// handles the request, without one nothing changes.
pub open spec fn state_after_shift<H>(s: SessionView<H>, is_downshift: bool) -> SessionView<H> {
    match s.active_device {
        Some(_) => SessionView { gear: gear_after_shift(s.gear, is_downshift), ..s },
        None => s,
    }
}

/// The reaction to a shift request: with an active device, a shift with the
/// vehicle's intensity for that direction or a boundary notice; without one,
/// nothing.
pub open spec fn reaction_to_shift<H>(s: SessionView<H>, is_downshift: bool) -> Reaction<H> {
    match s.active_device {
        Some(device) => if can_shift(s.gear, is_downshift) {
            Reaction::Shifted {
                device,
                is_downshift,
                gear: gear_after_shift(s.gear, is_downshift) as u8,
                intensity: shift_intensity(s.vehicle.torque, s.vehicle.max_torque, is_downshift),
            }
        } else {
            Reaction::BoundaryReached { is_downshift, gear: s.gear as u8 }
        },
        None => Reaction::Ignored,
    }
}

/// The state after an event.
pub open spec fn next_state<H>(s: SessionView<H>, event: Event<H>) -> SessionView<H> {
    match event.kind {
        EventKind::ButtonPressed(button) => match control_of(button) {
            Some(Control::Downshift) => state_after_shift(s, true),
            Some(Control::Upshift) => state_after_shift(s, false),
            Some(Control::Exit) => s,
            None => s,
        },
        EventKind::Connected => SessionView { active_device: Some(event.device), ..s },
        EventKind::Disconnected => SessionView { active_device: None, ..s },
        EventKind::Other => s,
    }
}

/// The reaction to an event.
pub open spec fn reaction_to<H>(s: SessionView<H>, event: Event<H>) -> Reaction<H> {
    match event.kind {
        EventKind::ButtonPressed(button) => match control_of(button) {
            Some(Control::Downshift) => reaction_to_shift(s, true),
            Some(Control::Upshift) => reaction_to_shift(s, false),
            Some(Control::Exit) => Reaction::Exit,
            None => Reaction::Ignored,
        },
        EventKind::Connected => Reaction::DeviceConnected { device: event.device },
        EventKind::Disconnected => Reaction::DeviceDisconnected,
        EventKind::Other => Reaction::Ignored,
    }
}

/// A run over a batch of events: each is handled in turn, up to and
/// including the first exit request; what follows it is not looked at.
pub open spec fn run<H>(start: SessionView<H>, events: Seq<Event<H>>) -> Trace<H>
    decreases events.len(),
{
    if events.len() == 0 {
        Trace { state: start, reactions: Seq::empty(), exited: false }
    } else {
        let before = run(start, events.drop_last());
        if before.exited {
            before
        } else {
            Trace {
                state: next_state(before.state, events.last()),
                reactions: before.reactions.push(reaction_to(before.state, events.last())),
                exited: reaction_to(before.state, events.last()) is Exit,
            }
        }
    }
}

impl<H> View for Session<H> {
    type V = SessionView<H>;

    closed spec fn view(&self) -> SessionView<H> {
        SessionView {
            vehicle: self.vehicle,
            gear: self.gear.gear(),
            active_device: self.active_device,
        }
    }
}

impl<H> Session<H> {
    #[verifier::type_invariant]
    closed spec fn vehicle_is_valid(self) -> bool {
        self.vehicle.wf()
    }
}

impl<H: Copy> Session<H> {
    /// Starts a session for `vehicle` on what the probe found.
    pub fn start(vehicle: Vehicle, probe: Probe<H>) -> (result: Result<Self, StartError>)
        requires
            vehicle.wf(),
        ensures
            match result {
                Ok(session) => start_outcome(vehicle, probe) == Ok::<SessionView<H>, StartError>(
                    session@,
                ),
                Err(error) => start_outcome(vehicle, probe) == Err::<SessionView<H>, StartError>(
                    error,
                ),
            },
    {
        match probe {
            Probe::Unavailable => Err(StartError::SubsystemUnavailable),
            Probe::Devices(devices) => {
                if devices.len() == 0 {
                    Err(StartError::NoDevice)
                } else {
                    Ok(
                        Session {
                            vehicle,
                            gear: GearState::new(),
                            active_device: Some(devices[0]),
                        },
                    )
                }
            },
        }
    }

    /// The vehicle of this session.
    pub fn vehicle(&self) -> (vehicle: Vehicle)
        ensures
            vehicle == self@.vehicle,
            vehicle.wf(),
    {
        proof {
            use_type_invariant(self);
        }
        self.vehicle
    }

    /// The gear the gearbox is in.
    pub fn current_gear(&self) -> (gear: u8)
        ensures
            gear == self@.gear,
            is_gear(gear as int),
    {
        self.gear.current_gear()
    }

    /// The device that input is taken from and pulses are sent to, if there
    /// is one.
    pub fn active_device(&self) -> (device: Option<H>)
        ensures
            device == self@.active_device,
    {
        self.active_device
    }

    /// Handles a shift request.
    pub fn shift(&mut self, is_downshift: bool) -> (reaction: Reaction<H>)
        ensures
            final(self)@ == state_after_shift(old(self)@, is_downshift),
            reaction == reaction_to_shift(old(self)@, is_downshift),
            reaction matches Reaction::Shifted { intensity, .. } ==> intensity.wf(),
    {
        proof {
            use_type_invariant(&*self);
        }
        match self.active_device {
            None => Reaction::Ignored,
            Some(device) => {
                let mut gear = self.gear;
                let outcome = gear.shift(is_downshift);
                self.gear = gear;
                match outcome {
                    ShiftOutcome::Shifted { is_downshift, gear } => {
                        let intensity = self.vehicle.calculate_rumble_intensity(is_downshift);
                        Reaction::Shifted { device, is_downshift, gear, intensity }
                    },
                    ShiftOutcome::BoundaryReached { is_downshift, gear } => {
                        Reaction::BoundaryReached { is_downshift, gear }
                    },
                }
            },
        }
    }

    /// Handles a request for the next higher gear.
    pub fn upshift(&mut self) -> (reaction: Reaction<H>)
        ensures
            final(self)@ == state_after_shift(old(self)@, false),
            reaction == reaction_to_shift(old(self)@, false),
            reaction matches Reaction::Shifted { intensity, .. } ==> intensity.wf(),
    {
        self.shift(false)
    }

    /// Handles a request for the next lower gear.
    pub fn downshift(&mut self) -> (reaction: Reaction<H>)
        ensures
            final(self)@ == state_after_shift(old(self)@, true),
            reaction == reaction_to_shift(old(self)@, true),
            reaction matches Reaction::Shifted { intensity, .. } ==> intensity.wf(),
    {
        self.shift(true)
    }

    /// Handles one event of the device subsystem.
    pub fn handle(&mut self, event: Event<H>) -> (reaction: Reaction<H>)
        ensures
            final(self)@ == next_state(old(self)@, event),
            reaction == reaction_to(old(self)@, event),
            reaction matches Reaction::Shifted { intensity, .. } ==> intensity.wf(),
    {
        proof {
            use_type_invariant(&*self);
        }
        match event.kind {
            EventKind::ButtonPressed(button) => match control_for(button) {
                Some(Control::Downshift) => self.shift(true),
                Some(Control::Upshift) => self.shift(false),
                Some(Control::Exit) => Reaction::Exit,
                None => Reaction::Ignored,
            },
            EventKind::Connected => {
                self.active_device = Some(event.device);
                Reaction::DeviceConnected { device: event.device }
            },
            EventKind::Disconnected => {
                self.active_device = None;
                Reaction::DeviceDisconnected
            },
            EventKind::Other => Reaction::Ignored,
        }
    }

    /// Handles a batch of queued events in their order, up to and including
    /// the first exit request, and returns the reactions to those that were
    /// handled. The run ended on an exit request exactly if the last
    /// reaction is `Reaction::Exit`.
    pub fn drain(&mut self, events: &Vec<Event<H>>) -> (reactions: Vec<Reaction<H>>)
        ensures
            final(self)@ == run(old(self)@, events@).state,
            reactions@ == run(old(self)@, events@).reactions,
            forall|i: int|
                0 <= i < reactions.len() ==> (#[trigger] reactions[i] matches Reaction::Shifted {
                    intensity,
                    ..
                } ==> intensity.wf()),
    {
        let ghost start = self@;
        let mut reactions: Vec<Reaction<H>> = Vec::new();
        let mut exited = false;
        let mut handled: usize = 0;
        while handled < events.len() && !exited
            invariant
                handled <= events.len(),
                run(start, events@.take(handled as int)) == (Trace {
                    state: self@,
                    reactions: reactions@,
                    exited,
                }),
                forall|i: int|
                    0 <= i < reactions.len() ==> (#[trigger] reactions[i] matches Reaction::Shifted {
                        intensity,
                        ..
                    } ==> intensity.wf()),
            decreases events.len() - handled,
        {
            let reaction = self.handle(events[handled]);
            proof {
                let prefix = events@.take(handled as int + 1);
                assert(prefix.drop_last() == events@.take(handled as int));
                assert(prefix.last() == events@[handled as int]);
            }
            exited = matches!(reaction, Reaction::Exit);
            reactions.push(reaction);
            handled = handled + 1;
        }
        proof {
            lemma_run_stops_at_exit(start, events@, handled as int);
        }
        reactions
    }
}

/// Once a run has met an exit request, further events change nothing: the
/// run over the whole batch ends where the run over the prefix up to the
/// request ended.
pub proof fn lemma_run_stops_at_exit<H>(start: SessionView<H>, events: Seq<Event<H>>, n: int)
    requires
        0 <= n <= events.len(),
        run(start, events.take(n)).exited || n == events.len(),
    ensures
        run(start, events) == run(start, events.take(n)),
    decreases events.len(),
{
    if n == events.len() {
        assert(events.take(n) == events);
    } else {
        assert(events.drop_last().take(n) == events.take(n));
        lemma_run_stops_at_exit(start, events.drop_last(), n);
    }
}

/// No event changes the vehicle, and none takes the gear out of the range of
/// the gearbox.
pub proof fn lemma_event_keeps_vehicle_and_range<H>(s: SessionView<H>, event: Event<H>)
    requires
        is_gear(s.gear),
    ensures
        next_state(s, event).vehicle == s.vehicle,
        is_gear(next_state(s, event).gear),
{
}

/// The gear changes exactly on the events that are answered with
/// `Reaction::Shifted`, and then to the gear that the reaction names.
pub proof fn lemma_gear_changes_exactly_when_shifted<H>(s: SessionView<H>, event: Event<H>)
    requires
        is_gear(s.gear),
    ensures
        reaction_to(s, event) is Shifted <==> next_state(s, event).gear != s.gear,
        reaction_to(s, event) matches Reaction::Shifted { gear, device, .. } ==> gear
            == next_state(s, event).gear && s.active_device == Some(device),
        reaction_to(s, event) matches Reaction::BoundaryReached { gear, .. } ==> gear == s.gear,
{
}

/// While no device is active, an event that is not a connection neither
/// changes the gear nor asks for a pulse or a notice, and leaves the session
/// without a device.
pub proof fn lemma_no_device_no_shift<H>(s: SessionView<H>, event: Event<H>)
    requires
        s.active_device is None,
        event.kind != EventKind::Connected,
    ensures
        next_state(s, event) == s,
        reaction_to(s, event) !is Shifted,
        reaction_to(s, event) !is BoundaryReached,
{
}

/// A connection makes the event's device the active one, a disconnection
/// leaves none, and no other event touches the active device.
pub proof fn lemma_active_device_follows_connections<H>(s: SessionView<H>, event: Event<H>)
    ensures
        next_state(s, event).active_device == match event.kind {
            EventKind::Connected => Some(event.device),
            EventKind::Disconnected => None,
            _ => s.active_device,
        },
{
}

/// A run handles a prefix of the batch: there is one reaction for each
/// event handled, only the last reaction can be an exit, and it is one
/// exactly if the run ended on an exit request.
pub proof fn lemma_run_shape<H>(start: SessionView<H>, events: Seq<Event<H>>)
    ensures
        run(start, events).reactions.len() <= events.len(),
        !run(start, events).exited ==> run(start, events).reactions.len() == events.len(),
        run(start, events).exited <==> run(start, events).reactions.len() > 0 && run(
            start,
            events,
        ).reactions.last() is Exit,
        forall|i: int|
            0 <= i < run(start, events).reactions.len() - 1 ==> #[trigger] run(
                start,
                events,
            ).reactions[i] !is Exit,
    decreases events.len(),
{
    if events.len() > 0 {
        lemma_run_shape(start, events.drop_last());
    }
}

/// A run changes neither the vehicle nor the validity of the gear.
pub proof fn lemma_run_keeps_vehicle_and_range<H>(start: SessionView<H>, events: Seq<Event<H>>)
    requires
        is_gear(start.gear),
    ensures
        run(start, events).state.vehicle == start.vehicle,
        is_gear(run(start, events).state.gear),
    decreases events.len(),
{
    if events.len() > 0 {
        lemma_run_keeps_vehicle_and_range(start, events.drop_last());
    }
}

/// From a disconnection until the next connection, nothing shifts: a run
/// that starts without an active device and meets no connection leaves the
/// state as it was, and none of its reactions is a shift or a boundary
/// notice.
pub proof fn lemma_run_without_device<H>(start: SessionView<H>, events: Seq<Event<H>>)
    requires
        start.active_device is None,
        forall|i: int| 0 <= i < events.len() ==> (#[trigger] events[i]).kind != EventKind::Connected,
    ensures
        run(start, events).state == start,
        forall|i: int|
            0 <= i < run(start, events).reactions.len() ==> {
                &&& #[trigger] run(start, events).reactions[i] !is Shifted
                &&& run(start, events).reactions[i] !is BoundaryReached
            },
    decreases events.len(),
{
    if events.len() > 0 {
        let before = events.drop_last();
        assert forall|i: int| 0 <= i < before.len() implies (#[trigger] before[i]).kind
            != EventKind::Connected by {
            assert(before[i] == events[i]);
        }
        lemma_run_without_device(start, before);
        lemma_no_device_no_shift(start, events.last());
    }
}

} // verus!
