use dmc::ble::{
    RUMBLE_BURST, RUMBLE_START, RUMBLE_STOP, find_characteristic, feedback_value_for_command, has_read_or_notify, is_motion_controller,
    is_subscribeable, pack_client_updates_for_ble_notification, BLETaskError, BleAction, BleEvent,
    BleSession, CHAR_PROP_NOTIFY, CHAR_PROP_READ, CLASSIC_CONTROL_CHARACTERISTIC_UUID,
    DIYMOTIONCONTROLLER_SERVICE_UUID, FEEDBACK_CHARACTERISTIC_UUID,
};
use dmc::bus::{plan_broadcast, SenderUtils};
use dmc::gamepad::{
    gamepad_action_for_update, GamepadAction, GamepadButtons, GamepadButtonsExt, XBUTTON_A,
    XBUTTON_B, XBUTTON_START,
};
use dmc::mock::{BatteryDrain, ButtonFiddler};
use dmc::state::build_classic_control_updates;
use dmc::ws::{handle_websocket_event, WebSocketTaskError, WsAction, WsEvent};
use dmc::{ButtonState, ClientCommand, ClientUpdate, ControllerState, JoystickState};

fn packed(raw_x: u16, raw_y: u16) -> ClientUpdate {
    ClientUpdate::JoystickMoved { stick: JoystickState::Packed { raw_x, raw_y } }
}

#[test]
fn it_works() {
    let result = 2 + 2;
    assert_eq!(result, 4);
}

#[test]
fn button_state_from_bool() {
    assert_eq!(ButtonState::from(true), ButtonState::DOWN);
    assert_eq!(ButtonState::from(false), ButtonState::UP);
    let held: ButtonState = true.into();
    assert_eq!(held, ButtonState::DOWN);
}

#[test]
fn joystick_state_constructors() {
    assert_eq!(JoystickState::new(), JoystickState::Centered);
    let mut stick = JoystickState::from_raw_f16s(1, 65535);
    assert_eq!(stick, JoystickState::Packed { raw_x: 1, raw_y: 65535 });
    assert_eq!(stick.clamped(), stick);
    assert_eq!(ClientUpdate::from(stick), packed(1, 65535));
}

#[test]
fn first_reading_reports_joystick_only() {
    let mut state = ControllerState::new();
    let value = vec![0x34, 0x12, 0x78, 0x56, 0x07, 0x00];
    let updates = build_classic_control_updates(&mut state, &value);
    assert_eq!(updates, Some(vec![packed(0x1234, 0x5678)]));
}

#[test]
fn repeated_reading_reports_nothing() {
    let mut state = ControllerState::new();
    let value = vec![0x00, 0x80, 0xff, 0x7f, 0x07, 0x42];
    assert_eq!(build_classic_control_updates(&mut state, &value), Some(vec![packed(0x8000, 0x7fff)]));
    let after_first = state;
    assert_eq!(build_classic_control_updates(&mut state, &value), None);
    assert_eq!(state, after_first);
}

#[test]
fn buttons_are_active_low() {
    let mut state = ControllerState::new();
    let value = vec![0, 0, 0, 0, 0x00, 0];
    assert_eq!(
        build_classic_control_updates(&mut state, &value),
        Some(vec![
            packed(0, 0),
            ClientUpdate::ButtonADown,
            ClientUpdate::ButtonBDown,
            ClientUpdate::ButtonMenuDown,
        ])
    );
    let value = vec![0, 0, 0, 0, 0x05, 0];
    assert_eq!(
        build_classic_control_updates(&mut state, &value),
        Some(vec![ClientUpdate::ButtonAUp, ClientUpdate::ButtonMenuUp])
    );
    let value = vec![0, 0, 0, 0, 0xfd, 0];
    assert_eq!(build_classic_control_updates(&mut state, &value), None);
    let value = vec![1, 0, 0, 0, 0x02, 0];
    assert_eq!(
        build_classic_control_updates(&mut state, &value),
        Some(vec![
            packed(1, 0),
            ClientUpdate::ButtonADown,
            ClientUpdate::ButtonBUp,
            ClientUpdate::ButtonMenuDown,
        ])
    );
}

#[test]
fn update_buttons_reports_changes_in_order() {
    let mut state = ControllerState::new();
    assert_eq!(state.update_buttons(ButtonState::UP, ButtonState::UP, ButtonState::UP), vec![]);
    assert_eq!(
        state.update_buttons(ButtonState::DOWN, ButtonState::UP, ButtonState::DOWN),
        vec![ClientUpdate::ButtonADown, ClientUpdate::ButtonMenuDown]
    );
    assert_eq!(
        state.update_buttons(ButtonState::UP, ButtonState::DOWN, ButtonState::DOWN),
        vec![ClientUpdate::ButtonAUp, ClientUpdate::ButtonBDown]
    );
    assert_eq!(
        state.update_buttons(ButtonState::UP, ButtonState::DOWN, ButtonState::DOWN),
        vec![]
    );
}

#[test]
fn set_joystick_reports_position() {
    let mut state = ControllerState::new();
    let stick = JoystickState::Packed { raw_x: 7, raw_y: 9 };
    assert_eq!(state.set_joystick(stick), packed(7, 9));
    let value = vec![7, 0, 9, 0, 0x07, 0];
    assert_eq!(build_classic_control_updates(&mut state, &value), None);
}

#[test]
fn notification_of_other_characteristic_is_ignored() {
    let mut state = ControllerState::new();
    let before = state;
    let r = pack_client_updates_for_ble_notification(
        &mut state,
        FEEDBACK_CHARACTERISTIC_UUID,
        vec![1, 2, 3],
    );
    assert_eq!(r, None);
    assert_eq!(state, before);
    let r = pack_client_updates_for_ble_notification(
        &mut state,
        CLASSIC_CONTROL_CHARACTERISTIC_UUID,
        vec![2, 0, 3, 0, 0x07, 0],
    );
    assert_eq!(r, Some(vec![packed(2, 3)]));
}

#[test]
fn uuids_match_the_firmware() {
    assert_eq!(DIYMOTIONCONTROLLER_SERVICE_UUID, 0x21aa4893_f368_46b5_977e_cdfc93555aaf);
    assert_eq!(CLASSIC_CONTROL_CHARACTERISTIC_UUID, 0x0385fe9d_56a6_40a4_b055_9b610cfcfe0c);
    assert_eq!(FEEDBACK_CHARACTERISTIC_UUID, 0x2f99ce60_cafe_4e44_9633_5bb3aea5d6c1);
}

#[test]
fn subscribeable_characteristics() {
    assert!(has_read_or_notify(CHAR_PROP_READ));
    assert!(has_read_or_notify(CHAR_PROP_NOTIFY | 0x08));
    assert!(!has_read_or_notify(0x08 | 0x04 | 0x01));
    assert!(is_subscribeable(CHAR_PROP_NOTIFY, CLASSIC_CONTROL_CHARACTERISTIC_UUID));
    assert!(is_subscribeable(CHAR_PROP_READ, FEEDBACK_CHARACTERISTIC_UUID));
    assert!(!is_subscribeable(0x08, FEEDBACK_CHARACTERISTIC_UUID));
    assert!(!is_subscribeable(0xff, DIYMOTIONCONTROLLER_SERVICE_UUID));
}

#[test]
fn find_characteristic_takes_first_match() {
    let uuids = vec![5u128, 7, 9, 7];
    assert_eq!(find_characteristic(&uuids, 7), Some(1));
    assert_eq!(find_characteristic(&uuids, 5), Some(0));
    assert_eq!(find_characteristic(&uuids, 8), None);
    assert_eq!(find_characteristic(&vec![], 8), None);
}

#[test]
fn feedback_for_commands() {
    assert_eq!(
        feedback_value_for_command(&ClientCommand::LedSet { r: 32, g: 16, b: 8 }),
        vec![32, 16, 8]
    );
    assert_eq!(feedback_value_for_command(&ClientCommand::RumbleStart), vec![RUMBLE_START, 0]);
    assert_eq!(feedback_value_for_command(&ClientCommand::RumbleStop), vec![RUMBLE_STOP, 0]);
    assert_eq!(
        feedback_value_for_command(&ClientCommand::RumbleBurst { length: 50 }),
        vec![RUMBLE_BURST, 50]
    );
    assert_eq!((RUMBLE_STOP, RUMBLE_START, RUMBLE_BURST), (0, 1, 2));
}

#[test]
fn motion_controller_is_found_by_name() {
    assert!(is_motion_controller(&Some(String::from("DIYMotionController"))));
    assert!(!is_motion_controller(&Some(String::from("DIYMotionControllers"))));
    assert!(!is_motion_controller(&Some(String::from("diymotioncontroller"))));
    assert!(!is_motion_controller(&None));
}

fn broadcast_of(action: BleAction) -> Option<Vec<ClientUpdate>> {
    match action {
        BleAction::Broadcast { updates } => Some(updates),
        _ => None,
    }
}

#[test]
fn ble_session_decisions() {
    let mut session = BleSession::new();
    assert_eq!(
        broadcast_of(session.step(BleEvent::Connected { connected: true })),
        Some(vec![ClientUpdate::Connected])
    );
    assert!(matches!(session.step(BleEvent::Connected { connected: false }), BleAction::Idle));
    match session.step(BleEvent::Command { command: ClientCommand::LedSet { r: 1, g: 2, b: 3 } }) {
        BleAction::Write { characteristic, value } => {
            assert_eq!(characteristic, FEEDBACK_CHARACTERISTIC_UUID);
            assert_eq!(value, vec![1, 2, 3]);
        }
        _ => panic!("expected a write"),
    }
    match session.step(BleEvent::Command { command: ClientCommand::RumbleBurst { length: 7 } }) {
        BleAction::Write { characteristic, value } => {
            assert_eq!(characteristic, FEEDBACK_CHARACTERISTIC_UUID);
            assert_eq!(value, vec![2, 7]);
        }
        _ => panic!("expected a write"),
    }
    let note = vec![0x10, 0x00, 0x20, 0x00, 0x06, 0x00];
    assert_eq!(
        broadcast_of(session.step(BleEvent::Notification {
            uuid: CLASSIC_CONTROL_CHARACTERISTIC_UUID,
            value: note.clone(),
        })),
        Some(vec![packed(0x10, 0x20), ClientUpdate::ButtonADown])
    );
    assert!(matches!(
        session.step(BleEvent::Notification { uuid: CLASSIC_CONTROL_CHARACTERISTIC_UUID, value: note }),
        BleAction::Idle
    ));
    assert!(matches!(
        session.step(BleEvent::Notification { uuid: 1, value: vec![] }),
        BleAction::Idle
    ));
    assert!(matches!(session.step(BleEvent::Timeout { connected: true }), BleAction::Idle));
    assert_eq!(
        broadcast_of(session.step(BleEvent::Timeout { connected: false })),
        Some(vec![ClientUpdate::Disconnected])
    );
    assert_eq!(BLETaskError::UnexpectedError, BLETaskError::UnexpectedError);
}

#[test]
fn websocket_event_decisions() {
    match handle_websocket_event(WsEvent::Updates { updates: vec![ClientUpdate::ButtonAUp] }) {
        WsAction::SendUpdates { updates } => assert_eq!(updates, vec![ClientUpdate::ButtonAUp]),
        _ => panic!("expected a send"),
    }
    assert!(matches!(handle_websocket_event(WsEvent::UpdatesMissed), WsAction::Continue));
    assert!(matches!(
        handle_websocket_event(WsEvent::SendFailed),
        WsAction::Finish { result: Err(WebSocketTaskError::UnexpectedError) }
    ));
    assert!(matches!(
        handle_websocket_event(WsEvent::Command { command: ClientCommand::RumbleStop }),
        WsAction::Forward { command: ClientCommand::RumbleStop }
    ));
    assert!(matches!(handle_websocket_event(WsEvent::Close), WsAction::Finish { result: Ok(()) }));
    assert!(matches!(handle_websocket_event(WsEvent::OtherMessage), WsAction::Continue));
    assert!(matches!(
        handle_websocket_event(WsEvent::ConnectionClosed),
        WsAction::Finish { result: Ok(()) }
    ));
    assert!(matches!(
        handle_websocket_event(WsEvent::ProtocolError),
        WsAction::Finish { result: Ok(()) }
    ));
    assert!(matches!(handle_websocket_event(WsEvent::OtherError), WsAction::Abort));
}

#[test]
fn gamepad_buttons_set_and_clear() {
    let mut buttons = GamepadButtons { raw: 0 };
    buttons.update(XBUTTON_A, true);
    assert_eq!(buttons.raw, 0x1000);
    assert!(buttons.is_pressed(XBUTTON_A));
    assert!(!buttons.is_pressed(XBUTTON_B));
    buttons.update(XBUTTON_START, true);
    assert_eq!(buttons.raw, 0x1010);
    buttons.update(XBUTTON_A, false);
    assert_eq!(buttons.raw, 0x0010);
    assert!(!buttons.is_pressed(XBUTTON_A));
    assert!(buttons.is_pressed(XBUTTON_START));
}

#[test]
fn gamepad_actions_for_updates() {
    assert_eq!(gamepad_action_for_update(&ClientUpdate::Connected), GamepadAction::Plugin);
    assert_eq!(gamepad_action_for_update(&ClientUpdate::Disconnected), GamepadAction::Unplug);
    assert_eq!(
        gamepad_action_for_update(&packed(3, 4)),
        GamepadAction::RightThumb { stick: JoystickState::Packed { raw_x: 3, raw_y: 4 } }
    );
    assert_eq!(
        gamepad_action_for_update(&ClientUpdate::ButtonBDown),
        GamepadAction::Button { button: 0x2000, pressed: true }
    );
    assert_eq!(
        gamepad_action_for_update(&ClientUpdate::ButtonMenuUp),
        GamepadAction::Button { button: 0x0010, pressed: false }
    );
    assert_eq!(
        gamepad_action_for_update(&ClientUpdate::BatteryStatusChanged { charge: 3 }),
        GamepadAction::Ignore
    );
}

#[test]
fn button_fiddler_cycles() {
    let mut fiddler = ButtonFiddler::new();
    assert_eq!(fiddler.tick(), vec![ClientUpdate::ButtonBDown, ClientUpdate::ButtonMenuDown]);
    assert_eq!(fiddler.tick(), vec![ClientUpdate::ButtonADown, ClientUpdate::ButtonBUp]);
    assert_eq!(fiddler.tick(), vec![ClientUpdate::ButtonAUp]);
    for _ in 0..4 {
        fiddler.tick();
    }
    assert_eq!(
        fiddler.tick(),
        vec![ClientUpdate::ButtonADown, ClientUpdate::ButtonBDown, ClientUpdate::ButtonMenuDown]
    );
    assert_eq!(fiddler.tick(), vec![ClientUpdate::ButtonAUp]);
}

#[test]
fn battery_drain_wraps() {
    let mut battery = BatteryDrain::new();
    assert_eq!(battery.tick(), vec![ClientUpdate::BatteryStatusChanged { charge: 247 }]);
    for _ in 0..29 {
        battery.tick();
    }
    assert_eq!(battery.tick(), vec![ClientUpdate::BatteryStatusChanged { charge: 7 }]);
    assert_eq!(battery.tick(), vec![ClientUpdate::BatteryStatusChanged { charge: 255 }]);
}

#[test]
fn broadcast_only_with_listeners() {
    assert_eq!(plan_broadcast(1, vec![ClientUpdate::Connected]), Some(vec![ClientUpdate::Connected]));
    assert_eq!(plan_broadcast(0, vec![ClientUpdate::Connected]), None);
    let (tx, rx) = tokio::sync::broadcast::channel::<Vec<ClientUpdate>>(4);
    drop(rx);
    assert_eq!(tx.broadcast_update(ClientUpdate::Connected).unwrap(), 0);
    let mut rx = tx.subscribe();
    assert_eq!(tx.broadcast_updates(vec![ClientUpdate::ButtonAUp]).unwrap(), 1);
    assert_eq!(rx.try_recv().unwrap(), vec![ClientUpdate::ButtonAUp]);
    assert_eq!(tx.broadcast_update(ClientUpdate::Disconnected).unwrap(), 1);
    assert_eq!(rx.try_recv().unwrap(), vec![ClientUpdate::Disconnected]);
}

#[test]
fn high_button_bits_are_ignored() {
    for byte in 0u8..8 {
        let mut plain = ControllerState::new();
        let mut noisy = ControllerState::new();
        let a = build_classic_control_updates(&mut plain, &vec![0, 0, 0, 0, byte, 0]);
        let b = build_classic_control_updates(&mut noisy, &vec![0, 0, 0, 0, byte | 0xf8, 0]);
        assert_eq!(a, b);
        assert_eq!(plain, noisy);
    }
}

#[test]
fn fiddler_matches_notifications() {
    let mut fiddler = ButtonFiddler::new();
    let mut state = ControllerState::new();
    assert_eq!(state.set_joystick(JoystickState::Packed { raw_x: 0, raw_y: 0 }), packed(0, 0));
    for step in 1u8..=16 {
        let byte = step % 8;
        let from_fiddler = fiddler.tick();
        let from_notification = build_classic_control_updates(&mut state, &vec![0, 0, 0, 0, byte, 0]);
        assert_eq!(from_notification.unwrap_or_default(), from_fiddler);
    }
}

fn check_alternation(events: &[ClientUpdate], down: ClientUpdate, up: ClientUpdate, held: bool) {
    let mine: Vec<ClientUpdate> = events.iter().copied().filter(|u| *u == down || *u == up).collect();
    for (i, u) in mine.iter().enumerate() {
        assert_eq!(*u, if i % 2 == 0 { down } else { up });
    }
    assert_eq!(held, mine.len() % 2 == 1);
}

#[test]
fn button_events_alternate_over_a_run() {
    let mut state = ControllerState::new();
    let mut history: Vec<ClientUpdate> = Vec::new();
    let bytes = [0x07u8, 0x06, 0x06, 0x00, 0x05, 0x07, 0x03, 0x01, 0x02, 0x07];
    for (i, byte) in bytes.iter().enumerate() {
        if let Some(updates) =
            build_classic_control_updates(&mut state, &vec![i as u8, 0, 0, 0, *byte, 0])
        {
            history.extend(updates);
        }
        if i % 3 == 0 {
            history.extend(state.update_buttons(ButtonState::UP, ButtonState::DOWN, ButtonState::UP));
        }
        history.push(state.set_joystick(JoystickState::Centered));
        history.extend(state.update_buttons(ButtonState::UP, ButtonState::UP, ButtonState::UP));
        check_alternation(&history, ClientUpdate::ButtonADown, ClientUpdate::ButtonAUp, false);
        check_alternation(&history, ClientUpdate::ButtonBDown, ClientUpdate::ButtonBUp, false);
        check_alternation(&history, ClientUpdate::ButtonMenuDown, ClientUpdate::ButtonMenuUp, false);
    }
}

#[test]
fn battery_level_after_k_steps() {
    let mut battery = BatteryDrain::new();
    for k in 1..=70i64 {
        let expected = (255 - 8 * k).rem_euclid(256) as u8;
        assert_eq!(battery.tick(), vec![ClientUpdate::BatteryStatusChanged { charge: expected }]);
    }
}

#[test]
fn rumble_commands_are_written_distinctly() {
    let commands = [
        ClientCommand::LedSet { r: 0, g: 0, b: 0 },
        ClientCommand::LedSet { r: 2, g: 0, b: 0 },
        ClientCommand::RumbleStart,
        ClientCommand::RumbleStop,
        ClientCommand::RumbleBurst { length: 0 },
        ClientCommand::RumbleBurst { length: 1 },
    ];
    for (i, c1) in commands.iter().enumerate() {
        for (j, c2) in commands.iter().enumerate() {
            assert_eq!(feedback_value_for_command(c1) == feedback_value_for_command(c2), i == j);
        }
    }
}
