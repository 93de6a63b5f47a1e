//! Controller input as the dispatcher sees it: buttons, the controls they
//! are bound to, and device events.

use vstd::prelude::*;

verus! {

/// A button of a game controller, named by its place on the pad.
#[derive(Clone, Copy, PartialEq, Eq, Debug)]
pub enum Button {
    South,
    East,
    North,
    West,
    C,
    Z,
    LeftTrigger,
    LeftTrigger2,
    RightTrigger,
    RightTrigger2,
    Select,
    Start,
    Mode,
    LeftThumb,
    RightThumb,
    DPadUp,
    DPadDown,
    DPadLeft,
    DPadRight,
    Unknown,
}

/// What a button press asks the session to do.
#[derive(Clone, Copy, PartialEq, Eq, Debug)]
pub enum Control {
    Downshift,
    Upshift,
    Exit,
}

/// What happened on a device.
#[derive(Clone, Copy, PartialEq, Eq, Debug)]
pub enum EventKind {
    /// A button went down.
    ButtonPressed(Button),
    /// The device was plugged in.
    Connected,
    /// The device was unplugged.
    Disconnected,
    /// Anything else: a release, an axis movement, a repeated press.
    Other,
}

/// An event of the device subsystem, tagged with the handle of the device
/// it came from.
#[derive(PartialEq, Eq, Debug)]
pub struct Event<H> {
    pub device: H,
    pub kind: EventKind,
}

impl<H: Copy> Clone for Event<H> {
    fn clone(&self) -> (copy: Self)
        ensures
            copy == *self,
    {
        *self
    }
}

impl<H: Copy> Copy for Event<H> {

}

/// The control a button is bound to: the west button shifts down, the east
/// button shifts up, start exits, and no other button is bound.
pub open spec fn control_of(button: Button) -> Option<Control> {
    match button {
        Button::West => Some(Control::Downshift),
        Button::East => Some(Control::Upshift),
        Button::Start => Some(Control::Exit),
        _ => None,
    }
}

/// The control a button is bound to, if any.
pub fn control_for(button: Button) -> (control: Option<Control>)
    ensures
        control == control_of(button),
{
    match button {
        Button::West => Some(Control::Downshift),
        Button::East => Some(Control::Upshift),
        Button::Start => Some(Control::Exit),
        _ => None,
    }
}

} // verus!
