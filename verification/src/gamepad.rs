//! The virtual gamepad that mirrors the controller: its button flags, and
//! what each update does to it.
use vstd::prelude::*;

use crate::protocol::ClientUpdate;
use crate::state::JoystickState;

verus! {

/// XInput button flag of the start button, which the menu button drives.
pub const XBUTTON_START: u16 = 0x0010;

/// XInput button flag of the A button.
pub const XBUTTON_A: u16 = 0x1000;

/// XInput button flag of the B button.
pub const XBUTTON_B: u16 = 0x2000;

/// The XInput button flags of a gamepad, one bit per button.
#[derive(Clone, Copy, Debug, PartialEq, Eq, Structural)]
pub struct GamepadButtons {
    pub raw: u16,
}

/// The flags `raw` with those of `button` set when `pressed`, cleared
/// otherwise.
pub open spec fn apply_button(raw: u16, button: u16, pressed: bool) -> u16 {
    if pressed {
        raw | button
    } else {
        raw & !button
    }
}

/// Setting and testing button flags.
pub trait GamepadButtonsExt {
    /// Sets the flags of `button` when `pressed`, clears them otherwise.
    fn update(&mut self, button: u16, pressed: bool);

    /// Whether any flag of `button` is set.
    fn is_pressed(&mut self, button: u16) -> bool;
}

impl GamepadButtonsExt for GamepadButtons {
    fn update(&mut self, button: u16, pressed: bool)
        ensures
            final(self).raw == apply_button(old(self).raw, button, pressed),
    {
        if pressed {
            self.raw = self.raw | button;
        } else {
            self.raw = self.raw & !button;
        }
    }

    fn is_pressed(&mut self, button: u16) -> (r: bool)
        ensures
            r == (old(self).raw & button > 0),
            *final(self) == *old(self),
    {
        (self.raw & button) > 0
    }
}

/// After a button's flags are set it reads as pressed, after they are
/// cleared it reads as released, and in both cases the flags of every
/// button that shares no bit with it keep their state.
pub proof fn lemma_update_then_is_pressed(raw: u16, button: u16, other: u16)
    requires
        button != 0,
        button & other == 0,
    ensures
        (raw | button) & button > 0,
        (raw & !button) & button == 0,
        (raw | button) & other == raw & other,
        (raw & !button) & other == raw & other,
{
    assert((raw | button) & button > 0) by (bit_vector)
        requires button != 0;
    assert((raw & !button) & button == 0) by (bit_vector);
    assert((raw | button) & other == raw & other) by (bit_vector)
        requires button & other == 0;
    assert((raw & !button) & other == raw & other) by (bit_vector)
        requires button & other == 0;
}

/// What the virtual gamepad does for an update.
#[derive(Clone, Copy, Debug, PartialEq, Eq, Structural)]
pub enum GamepadAction {
    /// Plug the virtual gamepad in and wait until it is ready.
    Plugin,
    /// Unplug the virtual gamepad.
    Unplug,
    /// Move the right thumb stick to this position.
    RightThumb { stick: JoystickState },
    /// Set (`pressed`) or clear these button flags.
    Button { button: u16, pressed: bool },
    /// Nothing.
    Ignore,
}

/// What the virtual gamepad does for an update: connection changes plug it
/// in or out, the joystick drives the right thumb stick, buttons A and B
/// drive A and B, the menu button drives start, and the battery level is
/// not shown.
pub open spec fn gamepad_action(update: ClientUpdate) -> GamepadAction {
    match update {
        ClientUpdate::Connected => GamepadAction::Plugin,
        ClientUpdate::Disconnected => GamepadAction::Unplug,
        ClientUpdate::JoystickMoved { stick } => GamepadAction::RightThumb { stick },
        ClientUpdate::ButtonADown => GamepadAction::Button { button: XBUTTON_A, pressed: true },
        ClientUpdate::ButtonAUp => GamepadAction::Button { button: XBUTTON_A, pressed: false },
        ClientUpdate::ButtonBDown => GamepadAction::Button { button: XBUTTON_B, pressed: true },
        ClientUpdate::ButtonBUp => GamepadAction::Button { button: XBUTTON_B, pressed: false },
        ClientUpdate::ButtonMenuDown => GamepadAction::Button { button: XBUTTON_START, pressed: true },
        ClientUpdate::ButtonMenuUp => GamepadAction::Button { button: XBUTTON_START, pressed: false },
        ClientUpdate::BatteryStatusChanged { charge: _ } => GamepadAction::Ignore,
    }
}

/// Maps an update to what the virtual gamepad does (see [`gamepad_action`]).
pub fn gamepad_action_for_update(update: &ClientUpdate) -> (action: GamepadAction)
    ensures
        action == gamepad_action(*update),
        *update is ButtonADown ==> action == (GamepadAction::Button { button: 0x1000, pressed: true }),
        *update is ButtonAUp ==> action == (GamepadAction::Button { button: 0x1000, pressed: false }),
        *update is ButtonBDown ==> action == (GamepadAction::Button { button: 0x2000, pressed: true }),
        *update is ButtonBUp ==> action == (GamepadAction::Button { button: 0x2000, pressed: false }),
        *update is ButtonMenuDown ==> action == (GamepadAction::Button { button: 0x0010, pressed: true }),
        *update is ButtonMenuUp ==> action == (GamepadAction::Button { button: 0x0010, pressed: false }),
{
    match update {
        ClientUpdate::Connected => GamepadAction::Plugin,
        ClientUpdate::Disconnected => GamepadAction::Unplug,
        ClientUpdate::JoystickMoved { stick } => GamepadAction::RightThumb { stick: *stick },
        ClientUpdate::ButtonADown => GamepadAction::Button { button: XBUTTON_A, pressed: true },
        ClientUpdate::ButtonAUp => GamepadAction::Button { button: XBUTTON_A, pressed: false },
        ClientUpdate::ButtonBDown => GamepadAction::Button { button: XBUTTON_B, pressed: true },
        ClientUpdate::ButtonBUp => GamepadAction::Button { button: XBUTTON_B, pressed: false },
        ClientUpdate::ButtonMenuDown => GamepadAction::Button {
            button: XBUTTON_START,
            pressed: true,
        },
        ClientUpdate::ButtonMenuUp => GamepadAction::Button { button: XBUTTON_START, pressed: false },
        ClientUpdate::BatteryStatusChanged { charge: _ } => GamepadAction::Ignore,
    }
}

/// Each controller button drives its own XInput flag: A the A flag
/// (0x1000), B the B flag (0x2000), menu the start flag (0x0010); a down
/// event sets the flag and an up event clears it; and no other update
/// touches a button flag.
pub proof fn lemma_each_button_drives_its_own_flag(update: ClientUpdate)
    ensures
        gamepad_action(update) matches GamepadAction::Button { button, pressed } ==> {
            &&& (button == 0x1000u16) == (update is ButtonADown || update is ButtonAUp)
            &&& (button == 0x2000u16) == (update is ButtonBDown || update is ButtonBUp)
            &&& (button == 0x0010u16) == (update is ButtonMenuDown || update is ButtonMenuUp)
            &&& pressed == (update is ButtonADown || update is ButtonBDown
                || update is ButtonMenuDown)
        },
        (gamepad_action(update) is Button) == (update is ButtonADown || update is ButtonAUp
            || update is ButtonBDown || update is ButtonBUp || update is ButtonMenuDown
            || update is ButtonMenuUp),
{
}

/// The virtual gamepad mirrors the controller's buttons: after the action
/// for a button update is applied to any button flags, that button reads as
/// pressed exactly when the update says it went down, and the flags of the
/// other two mirrored buttons are left as they were.
pub proof fn lemma_button_update_mirrored(raw: u16, update: ClientUpdate)
    ensures
        gamepad_action(update) matches GamepadAction::Button { button, pressed } ==> {
            let after = apply_button(raw, button, pressed);
            &&& (after & button > 0) == pressed
            &&& pressed == (update is ButtonADown || update is ButtonBDown
                || update is ButtonMenuDown)
            &&& forall|other: u16|
                (other == XBUTTON_A || other == XBUTTON_B || other == XBUTTON_START) && other
                    != button ==> #[trigger] (apply_button(raw, button, pressed) & other) == raw & other
        },
{
    if let GamepadAction::Button { button, pressed } = gamepad_action(update) {
        assert forall|other: u16|
            (other == XBUTTON_A || other == XBUTTON_B || other == XBUTTON_START) && other
                != button implies button & other == 0 by {
            assert(0x1000u16 & 0x2000u16 == 0 && 0x1000u16 & 0x0010u16 == 0 && 0x2000u16
                & 0x0010u16 == 0 && 0x2000u16 & 0x1000u16 == 0 && 0x0010u16 & 0x1000u16 == 0
                && 0x0010u16 & 0x2000u16 == 0) by (bit_vector);
        }
        assert forall|other: u16|
            (other == XBUTTON_A || other == XBUTTON_B || other == XBUTTON_START) && other
                != button implies #[trigger] (apply_button(raw, button, pressed) & other) == raw & other by {
            lemma_update_then_is_pressed(raw, button, other);
        }
        assert(button & 0u16 == 0) by (bit_vector);
        lemma_update_then_is_pressed(raw, button, 0);
    }
}

} // verus!
