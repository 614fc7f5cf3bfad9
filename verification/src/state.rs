//! The driver's picture of the controller, and how notifications change it.
use vstd::prelude::*;

use crate::protocol::ClientUpdate;

verus! {

/// Whether a button is released (`UP`) or held (`DOWN`).
#[derive(Clone, Copy, Debug, PartialEq, Eq, Structural)]
pub enum ButtonState {
    UP,
    DOWN,
}

/// A held button is `DOWN`, a released one `UP`.
pub open spec fn button_state_of(pressed: bool) -> ButtonState {
    if pressed {
        ButtonState::DOWN
    } else {
        ButtonState::UP
    }
}

impl From<bool> for ButtonState {
    fn from(pressed: bool) -> (r: Self) {
        match pressed {
            true => ButtonState::DOWN,
            false => ButtonState::UP,
        }
    }
}

impl vstd::std_specs::convert::FromSpecImpl<bool> for ButtonState {
    open spec fn obeys_from_spec() -> bool {
        true
    }

    open spec fn from_spec(pressed: bool) -> Self {
        button_state_of(pressed)
    }
}

/// The joystick's position.
///
/// The controller sends each axis packed into 16 bits: a raw value `raw`
/// stands for the axis value `raw / 65535 * 2 - 1`, that is
/// `unpacked_numerator(raw) / 65535`, which lies in `[-1, 1]`. Before the
/// first reading the driver assumes the joystick `Centered` at `(0, 0)`,
/// a position that no packed reading denotes.
#[derive(Clone, Copy, Debug, PartialEq, Eq, Structural)]
pub enum JoystickState {
    Centered,
    Packed { raw_x: u16, raw_y: u16 },
}

/// Numerator over 65535 of the axis value that a packed axis reading denotes.
pub open spec fn unpacked_numerator(raw: u16) -> int {
    2 * raw - 65535
}

/// Every packed axis reading denotes a value in `[-1, 1]`, and none denotes 0.
pub proof fn lemma_unpacked_axis_in_unit_range(raw: u16)
    ensures
        -65535 <= unpacked_numerator(raw) <= 65535,
        unpacked_numerator(raw) != 0,
{
}

impl JoystickState {
    /// The position assumed before the first reading.
    pub fn new() -> (r: Self)
        ensures
            r == JoystickState::Centered,
    {
        JoystickState::Centered
    }

    /// The position given by the two packed axis readings.
    pub fn from_raw_f16s(raw_x: u16, raw_y: u16) -> (r: Self)
        ensures
            r == (JoystickState::Packed { raw_x, raw_y }),
    {
        JoystickState::Packed { raw_x, raw_y }
    }

    /// The position with each axis clamped to `[-1, 1]`. Packed readings
    /// already lie in that range (`lemma_unpacked_axis_in_unit_range`) and
    /// `Centered` is `(0, 0)`, so the position comes back unchanged.
    pub fn clamped(&mut self) -> (r: Self)
        ensures
            r == *old(self),
            *final(self) == *old(self),
    {
        *self
    }
}

impl From<JoystickState> for ClientUpdate {
    fn from(stick: JoystickState) -> (r: Self) {
        ClientUpdate::JoystickMoved { stick }
    }
}

impl vstd::std_specs::convert::FromSpecImpl<JoystickState> for ClientUpdate {
    open spec fn obeys_from_spec() -> bool {
        true
    }

    open spec fn from_spec(stick: JoystickState) -> Self {
        ClientUpdate::JoystickMoved { stick }
    }
}

/// What the driver knows of the controller.
#[derive(Clone, Copy, Debug, PartialEq, Eq, Structural)]
pub struct ControllerState {
    battery_level: u8,
    joystick_state: JoystickState,
    button_a_state: ButtonState,
    button_b_state: ButtonState,
    button_menu_state: ButtonState,
}

/// The contents of a [`ControllerState`].
pub struct ControllerView {
    pub battery_level: u8,
    pub joystick: JoystickState,
    pub button_a: ButtonState,
    pub button_b: ButtonState,
    pub button_menu: ButtonState,
}

impl View for ControllerState {
    type V = ControllerView;

    closed spec fn view(&self) -> ControllerView {
        ControllerView {
            battery_level: self.battery_level,
            joystick: self.joystick_state,
            button_a: self.button_a_state,
            button_b: self.button_b_state,
            button_menu: self.button_menu_state,
        }
    }
}

/// A fresh state: full battery, joystick centered, every button released.
pub open spec fn initial_view() -> ControllerView {
    ControllerView {
        battery_level: 255,
        joystick: JoystickState::Centered,
        button_a: ButtonState::UP,
        button_b: ButtonState::UP,
        button_menu: ButtonState::UP,
    }
}

/// The update reported when a button goes from `old` to `new`: none if it
/// did not change, else `down` or `up` after its new state.
pub open spec fn transition(
    old: ButtonState,
    new: ButtonState,
    down: ClientUpdate,
    up: ClientUpdate,
) -> Option<ClientUpdate> {
    if old == new {
        None
    } else if new == ButtonState::DOWN {
        Some(down)
    } else {
        Some(up)
    }
}

pub open spec fn option_seq(o: Option<ClientUpdate>) -> Seq<ClientUpdate> {
    match o {
        Some(u) => seq![u],
        None => seq![],
    }
}

pub open spec fn transition_a(old: ButtonState, new: ButtonState) -> Option<ClientUpdate> {
    transition(old, new, ClientUpdate::ButtonADown, ClientUpdate::ButtonAUp)
}

pub open spec fn transition_b(old: ButtonState, new: ButtonState) -> Option<ClientUpdate> {
    transition(old, new, ClientUpdate::ButtonBDown, ClientUpdate::ButtonBUp)
}

pub open spec fn transition_menu(old: ButtonState, new: ButtonState) -> Option<ClientUpdate> {
    transition(old, new, ClientUpdate::ButtonMenuDown, ClientUpdate::ButtonMenuUp)
}

/// The updates for moving the buttons of `m` to `a`, `b` and `menu`, in the
/// order A, B, menu, one for each button that changes.
pub open spec fn button_updates(
    m: ControllerView,
    a: ButtonState,
    b: ButtonState,
    menu: ButtonState,
) -> Seq<ClientUpdate> {
    option_seq(transition_a(m.button_a, a)) + option_seq(transition_b(m.button_b, b))
        + option_seq(transition_menu(m.button_menu, menu))
}

pub open spec fn with_buttons(
    m: ControllerView,
    a: ButtonState,
    b: ButtonState,
    menu: ButtonState,
) -> ControllerView {
    ControllerView {
        battery_level: m.battery_level,
        joystick: m.joystick,
        button_a: a,
        button_b: b,
        button_menu: menu,
    }
}

pub open spec fn with_joystick(m: ControllerView, stick: JoystickState) -> ControllerView {
    ControllerView {
        battery_level: m.battery_level,
        joystick: stick,
        button_a: m.button_a,
        button_b: m.button_b,
        button_menu: m.button_menu,
    }
}

impl ControllerState {
    /// A fresh state (see [`initial_view`]).
    pub fn new() -> (r: Self)
        ensures
            r@ == initial_view(),
    {
        ControllerState {
            battery_level: 255,
            joystick_state: JoystickState::new(),
            button_a_state: ButtonState::UP,
            button_b_state: ButtonState::UP,
            button_menu_state: ButtonState::UP,
        }
    }

    /// Sets the joystick's position and returns the update that reports it.
    pub fn set_joystick(&mut self, stick: JoystickState) -> (r: ClientUpdate)
        ensures
            final(self)@ == with_joystick(old(self)@, stick),
            r == (ClientUpdate::JoystickMoved { stick }),
    {
        self.joystick_state = stick;
        ClientUpdate::from(self.joystick_state)
    }

    /// Moves the buttons to the given states and returns the updates for
    /// those that changed, in the order A, B, menu.
    pub fn update_buttons(
        &mut self,
        button_a: ButtonState,
        button_b: ButtonState,
        button_menu: ButtonState,
    ) -> (r: Vec<ClientUpdate>)
        ensures
            final(self)@ == with_buttons(old(self)@, button_a, button_b, button_menu),
            r@ == button_updates(old(self)@, button_a, button_b, button_menu),
    {
        let ghost m = self@;
        let mut updates: Vec<ClientUpdate> = Vec::new();

        let ua = self.button_a_state_transition(button_a);
        if let Some(update) = ua {
            updates.push(update);
        }
        assert(updates@ =~= option_seq(transition_a(m.button_a, button_a)));
        let ub = self.button_b_state_transition(button_b);
        if let Some(update) = ub {
            updates.push(update);
        }
        assert(updates@ =~= option_seq(transition_a(m.button_a, button_a)) + option_seq(
            transition_b(m.button_b, button_b),
        ));
        let um = self.button_menu_state_transition(button_menu);
        if let Some(update) = um {
            updates.push(update);
        }
        assert(updates@ =~= button_updates(m, button_a, button_b, button_menu));
        updates
    }

    fn button_a_state_transition(&mut self, new_value: ButtonState) -> (r: Option<ClientUpdate>)
        ensures
            final(self)@ == with_buttons(old(self)@, new_value, old(self)@.button_b, old(self)@.button_menu),
            r == transition_a(old(self)@.button_a, new_value),
    {
        if self.button_a_state != new_value {
            self.button_a_state = new_value;
            match new_value {
                ButtonState::DOWN => Some(ClientUpdate::ButtonADown),
                ButtonState::UP => Some(ClientUpdate::ButtonAUp),
            }
        } else {
            None
        }
    }

    fn button_b_state_transition(&mut self, new_value: ButtonState) -> (r: Option<ClientUpdate>)
        ensures
            final(self)@ == with_buttons(old(self)@, old(self)@.button_a, new_value, old(self)@.button_menu),
            r == transition_b(old(self)@.button_b, new_value),
    {
        if self.button_b_state != new_value {
            self.button_b_state = new_value;
            match new_value {
                ButtonState::DOWN => Some(ClientUpdate::ButtonBDown),
                ButtonState::UP => Some(ClientUpdate::ButtonBUp),
            }
        } else {
            None
        }
    }

    fn button_menu_state_transition(&mut self, new_value: ButtonState) -> (r: Option<ClientUpdate>)
        ensures
            final(self)@ == with_buttons(old(self)@, old(self)@.button_a, old(self)@.button_b, new_value),
            r == transition_menu(old(self)@.button_menu, new_value),
    {
        if self.button_menu_state != new_value {
            self.button_menu_state = new_value;
            match new_value {
                ButtonState::DOWN => Some(ClientUpdate::ButtonMenuDown),
                ButtonState::UP => Some(ClientUpdate::ButtonMenuUp),
            }
        } else {
            None
        }
    }
}


/// The readings carried by one notification of the classic-controls
/// characteristic.
pub struct ClassicControls {
    pub raw_x: u16,
    pub raw_y: u16,
    pub button_a: ButtonState,
    pub button_b: ButtonState,
    pub button_menu: ButtonState,
}

/// The little-endian 16-bit value of the bytes `lo`, `hi`.
pub open spec fn le_u16(lo: u8, hi: u8) -> u16 {
    (lo + 256 * hi) as u16
}

/// A button is held when its bit in the button byte is clear.
pub open spec fn button_bit_state(button_byte: u8, mask: u8) -> ButtonState {
    button_state_of(button_byte & mask == 0)
}

/// Decodes the six bytes of a classic-controls notification: the joystick's
/// x and y axes as little-endian 16-bit values in bytes 0..2 and 2..4, and
/// the buttons in byte 4, A in bit 0, B in bit 1 and menu in bit 2, each
/// held when its bit is clear. Byte 5 is not read.
pub open spec fn decode_classic_controls(value: Seq<u8>) -> ClassicControls {
    ClassicControls {
        raw_x: le_u16(value[0], value[1]),
        raw_y: le_u16(value[2], value[3]),
        button_a: button_bit_state(value[4], 1u8),
        button_b: button_bit_state(value[4], 2u8),
        button_menu: button_bit_state(value[4], 4u8),
    }
}

/// The joystick position of a reading.
pub open spec fn reading_stick(c: ClassicControls) -> JoystickState {
    JoystickState::Packed { raw_x: c.raw_x, raw_y: c.raw_y }
}

/// The updates a reading causes in state `m`: `JoystickMoved` first if the
/// position differs from the known one, then the button updates.
pub open spec fn classic_updates(m: ControllerView, c: ClassicControls) -> Seq<ClientUpdate> {
    let stick = reading_stick(c);
    let moved = if stick != m.joystick {
        seq![ClientUpdate::JoystickMoved { stick }]
    } else {
        seq![]
    };
    moved + button_updates(m, c.button_a, c.button_b, c.button_menu)
}

/// The state after a reading: its position and button states, the battery
/// level kept.
pub open spec fn classic_next_view(m: ControllerView, c: ClassicControls) -> ControllerView {
    ControllerView {
        battery_level: m.battery_level,
        joystick: reading_stick(c),
        button_a: c.button_a,
        button_b: c.button_b,
        button_menu: c.button_menu,
    }
}

/// Reads the six-byte value of the classic-controls characteristic, brings
/// `controller_state` up to date with it, and returns the updates that this
/// causes, or `None` when nothing changed.
pub fn build_classic_control_updates(
    controller_state: &mut ControllerState,
    value: &Vec<u8>,
) -> (r: Option<Vec<ClientUpdate>>)
    requires
        value.len() == 6,
    ensures
        final(controller_state)@ == classic_next_view(
            old(controller_state)@,
            decode_classic_controls(value@),
        ),
        r is None <==> classic_updates(old(controller_state)@, decode_classic_controls(value@)).len()
            == 0,
        r matches Some(updates) ==> updates@ == classic_updates(
            old(controller_state)@,
            decode_classic_controls(value@),
        ),
        final(controller_state)@.joystick matches JoystickState::Packed { raw_x, raw_y } && raw_x
            == value@[0] + 256 * value@[1] && raw_y == value@[2] + 256 * value@[3],
        r matches Some(updates) ==> forall|i: int|
            0 <= i < updates.len() && #[trigger] updates@[i] is JoystickMoved ==> updates@[i]
                == (ClientUpdate::JoystickMoved { stick: final(controller_state)@.joystick }),
        (old(controller_state)@.joystick != final(controller_state)@.joystick) <==> (r matches Some(
            updates,
        ) && updates@[0] is JoystickMoved),
{
    proof {
        lemma_joystick_update_carries_reading(controller_state@, value@);
    }
    let ghost m = controller_state@;
    let ghost c = decode_classic_controls(value@);
    let raw_x: u16 = value[0] as u16 + (value[1] as u16) * 256;
    let raw_y: u16 = value[2] as u16 + (value[3] as u16) * 256;

    let button_byte: u8 = value[4];
    let button_a: bool = (button_byte & 1u8) == 0;
    let button_b: bool = (button_byte & 2u8) == 0;
    let button_menu: bool = (button_byte & 4u8) == 0;

    let mut updates: Vec<ClientUpdate> = Vec::new();

    let mut reading = JoystickState::from_raw_f16s(raw_x, raw_y);
    let joystick_data_read = reading.clamped();
    assert(joystick_data_read == reading_stick(c));
    if joystick_data_read != controller_state.joystick_state {
        let update: ClientUpdate = controller_state.set_joystick(joystick_data_read);
        updates.push(update);
    }
    let ghost m2 = controller_state@;
    assert(m2 == with_joystick(m, reading_stick(c)));
    let mut button_updates_vec = controller_state.update_buttons(
        ButtonState::from(button_a),
        ButtonState::from(button_b),
        ButtonState::from(button_menu),
    );
    updates.append(&mut button_updates_vec);
    assert(updates@ =~= classic_updates(m, c));

    if updates.is_empty() {
        None
    } else {
        Some(updates)
    }
}


/// A reading stores the position it carries: the little-endian axis values
/// in bytes 0..2 and 2..4. It reports the joystick exactly when that position
/// differs from the stored one, then as its first update, and every
/// `JoystickMoved` it reports carries that position.
pub proof fn lemma_joystick_update_carries_reading(m: ControllerView, value: Seq<u8>)
    requires
        value.len() == 6,
    ensures
        ({
            let updates = classic_updates(m, decode_classic_controls(value));
            let stored = classic_next_view(m, decode_classic_controls(value)).joystick;
            &&& stored matches JoystickState::Packed { raw_x, raw_y } && raw_x == value[0] + 256
                * value[1] && raw_y == value[2] + 256 * value[3]
            &&& forall|i: int|
                0 <= i < updates.len() && #[trigger] updates[i] is JoystickMoved ==> updates[i]
                    == (ClientUpdate::JoystickMoved { stick: stored })
            &&& (m.joystick != stored) <==> (updates.len() > 0 && updates[0] is JoystickMoved)
        }),
{
    let c = decode_classic_controls(value);
    let buttons = button_updates(m, c.button_a, c.button_b, c.button_menu);
    assert(forall|i: int| 0 <= i < buttons.len() ==> !(#[trigger] buttons[i] is JoystickMoved));
}

/// Moving the buttons to the states they already have reports nothing.
pub proof fn lemma_unchanged_buttons_report_nothing(
    m: ControllerView,
    a: ButtonState,
    b: ButtonState,
    menu: ButtonState,
)
    ensures
        button_updates(with_buttons(m, a, b, menu), a, b, menu).len() == 0,
        with_buttons(with_buttons(m, a, b, menu), a, b, menu) == with_buttons(m, a, b, menu),
{
    assert(button_updates(with_buttons(m, a, b, menu), a, b, menu) =~= seq![]);
}

/// A reading that repeats the last one reports nothing and leaves the state
/// as it is.
pub proof fn lemma_repeated_reading_reports_nothing(m: ControllerView, c: ClassicControls)
    ensures
        classic_updates(classic_next_view(m, c), c).len() == 0,
        classic_next_view(classic_next_view(m, c), c) == classic_next_view(m, c),
{
    assert(classic_updates(classic_next_view(m, c), c) =~= seq![]);
}

/// While the joystick is still `Centered`, every reading reports a
/// `JoystickMoved` to the reading's position first, so it never reports
/// nothing.
pub proof fn lemma_first_reading_reports_joystick(m: ControllerView, c: ClassicControls)
    requires
        m.joystick == JoystickState::Centered,
    ensures
        classic_updates(m, c).len() >= 1,
        classic_updates(m, c)[0] == (ClientUpdate::JoystickMoved { stick: reading_stick(c) }),
{
}

/// A reading reports exactly one update for each part of the state that it
/// changes: the position and each of the three buttons.
pub proof fn lemma_one_update_per_change(m: ControllerView, c: ClassicControls)
    ensures
        classic_updates(m, c).len() == (if reading_stick(c) != m.joystick { 1int } else { 0 })
            + (if c.button_a != m.button_a { 1int } else { 0 })
            + (if c.button_b != m.button_b { 1int } else { 0 })
            + (if c.button_menu != m.button_menu { 1int } else { 0 }),
{
}

/// Only the three low bits of the button byte matter: setting any of the
/// other bits changes no button's state.
pub proof fn lemma_high_button_bits_ignored(button_byte: u8, other_bits: u8)
    requires
        other_bits & 7u8 == 0,
    ensures
        button_bit_state(button_byte | other_bits, 1u8) == button_bit_state(button_byte, 1u8),
        button_bit_state(button_byte | other_bits, 2u8) == button_bit_state(button_byte, 2u8),
        button_bit_state(button_byte | other_bits, 4u8) == button_bit_state(button_byte, 4u8),
{
    assert((button_byte | other_bits) & 1u8 == button_byte & 1u8) by (bit_vector)
        requires other_bits & 7u8 == 0;
    assert((button_byte | other_bits) & 2u8 == button_byte & 2u8) by (bit_vector)
        requires other_bits & 7u8 == 0;
    assert((button_byte | other_bits) & 4u8 == button_byte & 4u8) by (bit_vector)
        requires other_bits & 7u8 == 0;
}

} // verus!
