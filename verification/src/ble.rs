//! The controller's side of the driver: which characteristics it uses, what
//! their notifications mean, and what the Bluetooth task does on each event.
use vstd::prelude::*;

use crate::protocol::{ClientCommand, ClientUpdate};
use crate::state::{
    build_classic_control_updates, classic_next_view, classic_updates, decode_classic_controls,
    initial_view, ControllerState, ControllerView,
};

verus! {

/// The service that the controller advertises.
pub const DIYMOTIONCONTROLLER_SERVICE_UUID: u128 = 0x21aa4893_f368_46b5_977e_cdfc93555aaf;

/// The characteristic that notifies joystick and button readings.
pub const CLASSIC_CONTROL_CHARACTERISTIC_UUID: u128 = 0x0385fe9d_56a6_40a4_b055_9b610cfcfe0c;

/// The characteristic that takes LED and rumble feedback.
pub const FEEDBACK_CHARACTERISTIC_UUID: u128 = 0x2f99ce60_cafe_4e44_9633_5bb3aea5d6c1;

/// Characteristic property bit: the value can be read.
pub const CHAR_PROP_READ: u8 = 0x02;

/// Characteristic property bit: the value can be notified.
pub const CHAR_PROP_NOTIFY: u8 = 0x10;

/// The local name under which the controller advertises itself.
pub open spec fn motion_controller_name() -> Seq<char> {
    "DIYMotionController"@
}

/// Errors of the Bluetooth task.
#[derive(Clone, Copy, Debug, PartialEq, Eq, Structural)]
pub enum BLETaskError {
    UnexpectedError,
}

/// Whether a peripheral with this advertised local name is the controller.
pub fn is_motion_controller(local_name: &Option<String>) -> (r: bool)
    ensures
        r == (local_name matches Some(name) && name@ == motion_controller_name()),
{
    match local_name {
        Some(name) => {
            let expected: String = "DIYMotionController".to_owned();
            proof {
                reveal_strlit("DIYMotionController");
            }
            *name == expected
        },
        None => false,
    }
}

/// Whether a characteristic with these property bits can be read or notified.
pub fn has_read_or_notify(properties: u8) -> (r: bool)
    ensures
        r == (properties & (CHAR_PROP_READ | CHAR_PROP_NOTIFY) != 0),
{
    (properties & (CHAR_PROP_READ | CHAR_PROP_NOTIFY)) != 0
}

/// Whether the driver subscribes to a characteristic: it must be readable or
/// notifiable, and be the classic-controls or the feedback characteristic.
pub fn is_subscribeable(properties: u8, uuid: u128) -> (r: bool)
    ensures
        r == (properties & (CHAR_PROP_READ | CHAR_PROP_NOTIFY) != 0 && (uuid
            == CLASSIC_CONTROL_CHARACTERISTIC_UUID || uuid == FEEDBACK_CHARACTERISTIC_UUID)),
{
    has_read_or_notify(properties) && (uuid == CLASSIC_CONTROL_CHARACTERISTIC_UUID || uuid
        == FEEDBACK_CHARACTERISTIC_UUID)
}

/// The index of the first characteristic with the given UUID, if any.
pub fn find_characteristic(uuids: &Vec<u128>, target: u128) -> (r: Option<usize>)
    ensures
        r matches Some(i) ==> i < uuids.len() && uuids@[i as int] == target && forall|j: int|
            0 <= j < i ==> uuids@[j] != target,
        r is None ==> forall|j: int| 0 <= j < uuids.len() ==> uuids@[j] != target,
{
    let mut i: usize = 0;
    while i < uuids.len()
        invariant
            i <= uuids.len(),
            forall|j: int| 0 <= j < i ==> uuids@[j] != target,
        decreases uuids.len() - i,
    {
        if uuids[i] == target {
            return Some(i);
        }
        i = i + 1;
    }
    None
}

/// Rumble mode byte: stop rumbling.
pub const RUMBLE_STOP: u8 = 0;

/// Rumble mode byte: start rumbling until stopped.
pub const RUMBLE_START: u8 = 1;

/// Rumble mode byte: rumble for a given time.
pub const RUMBLE_BURST: u8 = 2;

/// The value written to the feedback characteristic for a command. An LED
/// colour is the three bytes `r`, `g`, `b`; a rumble command is two bytes,
/// its mode (`RUMBLE_STOP`, `RUMBLE_START` or `RUMBLE_BURST`) and the burst's
/// length in steps of 10 ms (0 for stop and start), so the two kinds differ
/// in length.
pub open spec fn feedback_bytes(command: ClientCommand) -> Seq<u8> {
    match command {
        ClientCommand::LedSet { r, g, b } => seq![r, g, b],
        ClientCommand::RumbleStop => seq![RUMBLE_STOP, 0u8],
        ClientCommand::RumbleStart => seq![RUMBLE_START, 0u8],
        ClientCommand::RumbleBurst { length } => seq![RUMBLE_BURST, length],
    }
}

/// The value written to the feedback characteristic for a command (see
/// [`feedback_bytes`]).
pub fn feedback_value_for_command(command: &ClientCommand) -> (write: Vec<u8>)
    ensures
        write@ == feedback_bytes(*command),
{
    match command {
        ClientCommand::LedSet { r, g, b } => vec![*r, *g, *b],
        ClientCommand::RumbleStop => vec![RUMBLE_STOP, 0u8],
        ClientCommand::RumbleStart => vec![RUMBLE_START, 0u8],
        ClientCommand::RumbleBurst { length } => vec![RUMBLE_BURST, *length],
    }
}

/// Different commands are written as different values, so the controller can
/// tell every command from every other.
pub proof fn lemma_feedback_bytes_distinguish_commands(c1: ClientCommand, c2: ClientCommand)
    requires
        feedback_bytes(c1) == feedback_bytes(c2),
    ensures
        c1 == c2,
{
    let v1 = feedback_bytes(c1);
    let v2 = feedback_bytes(c2);
    assert(v1.len() == v2.len());
    assert(v1[0] == v2[0]);
    if v1.len() == 3 {
        assert(v1[1] == v2[1] && v1[2] == v2[2]);
    } else {
        assert(v1[1] == v2[1]);
    }
}

/// Turns a notification into the updates it causes: a notification of the
/// classic-controls characteristic is read into `controller_state` (see
/// [`build_classic_control_updates`]); one of any other characteristic
/// changes nothing and reports nothing.
pub fn pack_client_updates_for_ble_notification(
    controller_state: &mut ControllerState,
    uuid: u128,
    value: Vec<u8>,
) -> (r: Option<Vec<ClientUpdate>>)
    requires
        uuid == CLASSIC_CONTROL_CHARACTERISTIC_UUID ==> value.len() == 6,
    ensures
        uuid == CLASSIC_CONTROL_CHARACTERISTIC_UUID ==> {
            &&& final(controller_state)@ == classic_next_view(
                old(controller_state)@,
                decode_classic_controls(value@),
            )
            &&& (r is None <==> classic_updates(
                old(controller_state)@,
                decode_classic_controls(value@),
            ).len() == 0)
            &&& (r matches Some(updates) ==> updates@ == classic_updates(
                old(controller_state)@,
                decode_classic_controls(value@),
            ))
        },
        uuid != CLASSIC_CONTROL_CHARACTERISTIC_UUID ==> r is None && final(controller_state)@
            == old(controller_state)@,
{
    if uuid == CLASSIC_CONTROL_CHARACTERISTIC_UUID {
        build_classic_control_updates(controller_state, &value)
    } else {
        None
    }
}

/// An event seen by the Bluetooth task.
pub enum BleEvent {
    /// The task has connected to the controller; `connected` is whether the
    /// controller reports the connection as up.
    Connected { connected: bool },
    /// A client sent a command.
    Command { command: ClientCommand },
    /// The controller notified a new value of a characteristic.
    Notification { uuid: u128, value: Vec<u8> },
    /// No event came for a while; `connected` is whether the controller
    /// still reports the connection as up.
    Timeout { connected: bool },
}

/// What the Bluetooth task does in answer to an event.
pub enum BleAction {
    /// Send these updates to the clients.
    Broadcast { updates: Vec<ClientUpdate> },
    /// Write this value to this characteristic of the controller.
    Write { characteristic: u128, value: Vec<u8> },
    /// Nothing.
    Idle,
}

/// Whether an event may be handed to [`BleSession::step`]: a classic-controls
/// notification must carry six bytes.
pub open spec fn ble_event_ok(event: BleEvent) -> bool {
    event matches BleEvent::Notification { uuid, value } ==> (uuid
        == CLASSIC_CONTROL_CHARACTERISTIC_UUID ==> value.len() == 6)
}

/// The decisions of the Bluetooth task, with the controller state they keep.
pub struct BleSession {
    controller_state: ControllerState,
}

impl View for BleSession {
    type V = ControllerView;

    closed spec fn view(&self) -> ControllerView {
        self.controller_state@
    }
}

impl BleSession {
    /// A session that knows nothing of the controller yet.
    pub fn new() -> (r: Self)
        ensures
            r@ == initial_view(),
    {
        BleSession { controller_state: ControllerState::new() }
    }

    /// Handles one event: announces a connection that is up, writes every
    /// command to the feedback characteristic, reports the updates that a
    /// notification causes, and reports a lost connection on a timeout.
    pub fn step(&mut self, event: BleEvent) -> (action: BleAction)
        requires
            ble_event_ok(event),
        ensures
            match event {
                BleEvent::Connected { connected } => {
                    &&& final(self)@ == old(self)@
                    &&& connected ==> (action matches BleAction::Broadcast { updates } && updates@
                        == seq![ClientUpdate::Connected])
                    &&& !connected ==> action is Idle
                },
                BleEvent::Command { command } => {
                    &&& final(self)@ == old(self)@
                    &&& action matches BleAction::Write { characteristic, value }
                    &&& characteristic == FEEDBACK_CHARACTERISTIC_UUID
                    &&& value@ == feedback_bytes(command)
                },
                BleEvent::Notification { uuid, value } => {
                    &&& uuid == CLASSIC_CONTROL_CHARACTERISTIC_UUID ==> {
                        let updates = classic_updates(old(self)@, decode_classic_controls(value@));
                        &&& final(self)@ == classic_next_view(
                            old(self)@,
                            decode_classic_controls(value@),
                        )
                        &&& updates.len() == 0 ==> action is Idle
                        &&& updates.len() != 0 ==> (action matches BleAction::Broadcast {
                            updates: sent,
                        } && sent@ == updates)
                    }
                    &&& uuid != CLASSIC_CONTROL_CHARACTERISTIC_UUID ==> final(self)@ == old(
                        self,
                    )@ && action is Idle
                },
                BleEvent::Timeout { connected } => {
                    &&& final(self)@ == old(self)@
                    &&& !connected ==> (action matches BleAction::Broadcast { updates } && updates@
                        == seq![ClientUpdate::Disconnected])
                    &&& connected ==> action is Idle
                },
            },
    {
        match event {
            BleEvent::Connected { connected } => {
                if connected {
                    BleAction::Broadcast { updates: vec![ClientUpdate::Connected] }
                } else {
                    BleAction::Idle
                }
            },
            BleEvent::Command { command } => {
                BleAction::Write {
                    characteristic: FEEDBACK_CHARACTERISTIC_UUID,
                    value: feedback_value_for_command(&command),
                }
            },
            BleEvent::Notification { uuid, value } => {
                match pack_client_updates_for_ble_notification(
                    &mut self.controller_state,
                    uuid,
                    value,
                ) {
                    Some(chain) => BleAction::Broadcast { updates: chain },
                    None => BleAction::Idle,
                }
            },
            BleEvent::Timeout { connected } => {
                if !connected {
                    BleAction::Broadcast { updates: vec![ClientUpdate::Disconnected] }
                } else {
                    BleAction::Idle
                }
            },
        }
    }
}

} // verus!
