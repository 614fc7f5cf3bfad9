//! Simulated controller input, for running the driver without a controller.
use vstd::prelude::*;

use crate::protocol::ClientUpdate;
use crate::state::{
    button_bit_state, button_updates, classic_next_view, classic_updates, decode_classic_controls,
    initial_view, reading_stick, with_buttons, ButtonState, ControllerState, ControllerView,
};

verus! {

/// The button byte after `b`: counts up through 0..=7 and wraps to 0.
pub open spec fn next_button_byte(b: u8) -> u8 {
    if b >= 7 {
        0
    } else {
        (b + 1) as u8
    }
}

/// The button byte after `n` steps from `b`.
pub open spec fn button_byte_after(b: u8, n: nat) -> u8
    decreases n,
{
    if n == 0 {
        b
    } else {
        next_button_byte(button_byte_after(b, (n - 1) as nat))
    }
}

/// The simulated button byte counts modulo 8: after `n` steps from a byte in
/// `0..=7` it is `(b + n) % 8`, so it comes back every eight steps.
pub proof fn lemma_button_byte_counts_mod_8(b: u8, n: nat)
    requires
        b <= 7,
    ensures
        button_byte_after(b, n) == (b + n) % 8,
        button_byte_after(b, 8) == b,
{
    lemma_button_byte_after_mod_8(b, n);
    lemma_button_byte_after_mod_8(b, 8);
}

proof fn lemma_button_byte_after_mod_8(b: u8, n: nat)
    requires
        b <= 7,
    ensures
        button_byte_after(b, n) == (b + n) % 8,
    decreases n,
{
    if n > 0 {
        lemma_button_byte_after_mod_8(b, (n - 1) as nat);
    }
}

/// The simulated buttons follow the controller's encoding: a step to button
/// byte `b` reports, and leads to, what a classic-controls notification with
/// button byte `b` and an unmoved joystick would.
pub proof fn lemma_fiddler_matches_notification(m: ControllerView, value: Seq<u8>, b: u8)
    requires
        value.len() == 6,
        value[4] == b,
        reading_stick(decode_classic_controls(value)) == m.joystick,
    ensures
        button_updates(
            m,
            button_bit_state(b, 1u8),
            button_bit_state(b, 2u8),
            button_bit_state(b, 4u8),
        ) == classic_updates(m, decode_classic_controls(value)),
        with_buttons(m, button_bit_state(b, 1u8), button_bit_state(b, 2u8), button_bit_state(b, 4u8))
            == classic_next_view(m, decode_classic_controls(value)),
{
    assert(classic_updates(m, decode_classic_controls(value)) =~= button_updates(
        m,
        button_bit_state(b, 1u8),
        button_bit_state(b, 2u8),
        button_bit_state(b, 4u8),
    ));
}

/// Presses the buttons in turn: a counter runs through the button bytes
/// 1, 2, ..., 7, 0, 1, ... and each step reports the buttons as that byte
/// encodes them (a clear bit is a held button).
pub struct ButtonFiddler {
    button_byte: u8,
    controller_state: ControllerState,
}

impl ButtonFiddler {
    #[verifier::type_invariant]
    spec fn byte_in_range(self) -> bool {
        self.button_byte <= 7
    }

    /// The current button byte.
    pub closed spec fn button_byte(self) -> u8 {
        self.button_byte
    }

    /// The buttons as last reported.
    pub closed spec fn controller(self) -> ControllerView {
        self.controller_state@
    }

    /// Starts at button byte 0, every button released.
    pub fn new() -> (r: Self)
        ensures
            r.button_byte() == 0,
            r.controller() == initial_view(),
    {
        ButtonFiddler { button_byte: 0, controller_state: ControllerState::new() }
    }

    /// Moves to the next button byte and returns the updates for the buttons
    /// whose state this changes.
    pub fn tick(&mut self) -> (r: Vec<ClientUpdate>)
        ensures
            final(self).button_byte() == next_button_byte(old(self).button_byte()),
            final(self).controller() == with_buttons(
                old(self).controller(),
                button_bit_state(final(self).button_byte(), 1u8),
                button_bit_state(final(self).button_byte(), 2u8),
                button_bit_state(final(self).button_byte(), 4u8),
            ),
            r@ == button_updates(
                old(self).controller(),
                button_bit_state(final(self).button_byte(), 1u8),
                button_bit_state(final(self).button_byte(), 2u8),
                button_bit_state(final(self).button_byte(), 4u8),
            ),
    {
        proof {
            use_type_invariant(&*self);
        }
        let mut button_byte: u8 = self.button_byte + 1;
        if button_byte > 0b111 {
            button_byte = 0;
        }
        let button_a: bool = (button_byte & 1u8) == 0;
        let button_b: bool = (button_byte & 2u8) == 0;
        let button_menu: bool = (button_byte & 4u8) == 0;
        let mut controller_state = self.controller_state;
        let updates = controller_state.update_buttons(
            ButtonState::from(button_a),
            ButtonState::from(button_b),
            ButtonState::from(button_menu),
        );
        *self = ButtonFiddler { button_byte, controller_state };
        updates
    }
}

/// The battery level after one drain step: 8 less, wrapping below 0.
pub open spec fn drained(status: u8) -> u8 {
    if status >= 8 {
        (status - 8) as u8
    } else {
        (status + 248) as u8
    }
}

/// The battery level after `k` drain steps from `status`.
pub open spec fn drained_times(status: u8, k: nat) -> u8
    decreases k,
{
    if k == 0 {
        status
    } else {
        drained(drained_times(status, (k - 1) as nat))
    }
}

/// After `k` drain steps the level is `status - 8 k` taken modulo 256; from
/// the full 255 the steps give 247, 239, ..., 7, then 255 again.
pub proof fn lemma_drained_after_steps(status: u8, k: nat)
    ensures
        drained_times(status, k) as int == (status - 8 * k) % 256,
    decreases k,
{
    if k > 0 {
        lemma_drained_after_steps(status, (k - 1) as nat);
        let before = drained_times(status, (k - 1) as nat);
        assert(drained(before) as int == (before - 8) % 256);
        vstd::arithmetic::div_mod::lemma_sub_mod_noop(status - 8 * (k - 1), 8, 256);
    }
}

/// Drains the battery: each step lowers the level by 8, wrapping below 0,
/// and reports the new level.
pub struct BatteryDrain {
    status: u8,
}

impl BatteryDrain {
    /// The current battery level.
    pub closed spec fn status(self) -> u8 {
        self.status
    }

    /// Starts full, at 255.
    pub fn new() -> (r: Self)
        ensures
            r.status() == 255,
    {
        BatteryDrain { status: 255 }
    }

    /// Lowers the level and reports it.
    pub fn tick(&mut self) -> (r: Vec<ClientUpdate>)
        ensures
            final(self).status() == drained(old(self).status()),
            r@ == seq![ClientUpdate::BatteryStatusChanged { charge: drained(old(self).status()) }],
    {
        self.status = self.status.wrapping_sub(8);
        vec![ClientUpdate::BatteryStatusChanged { charge: self.status }]
    }
}

} // verus!
