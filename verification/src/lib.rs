//! Host-side driver logic for the DIY motion controller: the driver's model
//! of the controller and the decoding of its notifications, the decisions of
//! the tasks that connect it to the clients, and the virtual gamepad that
//! mirrors it.
pub mod ble;
pub mod bus;
pub mod gamepad;
pub mod history;
pub mod mock;
pub mod protocol;
pub mod state;
pub mod ws;

pub use protocol::{ClientCommand, ClientUpdate};
pub use state::{ButtonState, ControllerState, JoystickState};
