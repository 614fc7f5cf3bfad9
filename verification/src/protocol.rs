//! Messages exchanged between the driver and its clients.
use vstd::prelude::*;

use crate::state::JoystickState;

verus! {

/// A command sent by a client to the controller.
#[derive(Clone, Copy, Debug, PartialEq, Eq, Structural)]
pub enum ClientCommand {
    LedSet { r: u8, g: u8, b: u8 },
    RumbleStart,
    RumbleStop,
    /// `length` counts steps of 10 ms (1 means 10 ms, 255 means 2550 ms).
    RumbleBurst { length: u8 },
}

/// A change of the controller's state reported to the clients.
///
/// A joystick position is carried as the controller sent it (see
/// [`JoystickState`]); the axis values are derived from it where they are
/// shown to a client.
#[derive(Clone, Copy, Debug, PartialEq, Eq, Structural)]
pub enum ClientUpdate {
    Connected,
    Disconnected,
    BatteryStatusChanged { charge: u8 },
    ButtonADown,
    ButtonAUp,
    ButtonBDown,
    ButtonBUp,
    ButtonMenuDown,
    ButtonMenuUp,
    JoystickMoved { stick: JoystickState },
}

} // verus!
