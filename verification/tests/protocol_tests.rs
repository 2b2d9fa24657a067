use anne_key::protocol::{BleOp, KeyboardOp, LedOp, MacroOp, MsgType, SystemOp};

#[test]
fn msgtype_round_trip() {
    let mut buffer: [u8; 5] = [255; 5];
    let e = MsgType::Error;
    let f = MsgType::FwInfo;
    buffer[0] = e.to_u8();
    buffer[4] = f.to_u8();
    assert_eq!(Some(e), MsgType::from_u8(buffer[0]));
    assert_eq!(Some(f), MsgType::from_u8(buffer[4]));
    assert_eq!(buffer, [1, 255, 255, 255, 10]);
    assert!(MsgType::from_u8(buffer[2]).is_none());
}

#[test]
fn msg_type_values() {
    assert_eq!(MsgType::Reserved.to_u8(), 0);
    assert_eq!(MsgType::System.to_u8(), 2);
    assert_eq!(MsgType::Ble.to_u8(), 6);
    assert_eq!(MsgType::Keyboard.to_u8(), 7);
    assert_eq!(MsgType::Led.to_u8(), 9);
    assert_eq!(MsgType::CustomKey.to_u8(), 13);
    assert!(MsgType::from_u8(14).is_none());
}

#[test]
fn ble_ack_symmetry() {
    let pairs = [
        (BleOp::On, BleOp::AckOn),
        (BleOp::Off, BleOp::AckOff),
        (BleOp::SaveHost, BleOp::AckSaveHost),
        (BleOp::ConnectHost, BleOp::AckConnectHost),
        (BleOp::DeleteHost, BleOp::AckDeleteHost),
        (BleOp::HostListQuery, BleOp::AckHostListQuery),
        (BleOp::Broadcast, BleOp::AckBroadcast),
        (BleOp::Battery, BleOp::AckBattery),
        (BleOp::CurrentHostQuery, BleOp::AckCurrentHostQuery),
        (BleOp::LegacyMode, BleOp::AckLegacyMode),
    ];
    for (op, ack) in pairs {
        assert_eq!(ack.to_u8(), op.to_u8() | 0x80);
    }
}

#[test]
fn keyboard_led_system_macro_ack_symmetry() {
    assert_eq!(
        KeyboardOp::AckKeyReport.to_u8(),
        KeyboardOp::KeyReport.to_u8() | 0x80
    );
    assert_eq!(
        KeyboardOp::AckUpUserLayout.to_u8(),
        KeyboardOp::UpUserLayout.to_u8() | 0x80
    );
    assert_eq!(LedOp::AckThemeMode.to_u8(), LedOp::ThemeMode.to_u8() | 0x80);
    assert_eq!(
        LedOp::AckSetIndividualKeys.to_u8(),
        LedOp::SetIndividualKeys.to_u8() | 0x80
    );
    assert_eq!(SystemOp::AckGetId.to_u8(), SystemOp::GetId.to_u8() | 0x80);
    assert_eq!(
        SystemOp::AckIsSyncCode.to_u8(),
        SystemOp::IsSyncCode.to_u8() | 0x80
    );
    assert_eq!(MacroOp::AckSyncMacro.to_u8(), MacroOp::SyncMacro.to_u8() | 0x80);
}

#[test]
fn ack_wakeup_is_the_exception() {
    assert_eq!(BleOp::AckWakeup.to_u8(), 170);
    // 170 = 42 | 0x80, and no operation uses code 42, so the wakeup
    // acknowledgement pairs with no request.
    assert!(BleOp::from_u8(42).is_none());
}

#[test]
fn op_values_match_the_wire() {
    assert_eq!(BleOp::On.to_u8(), 1);
    assert_eq!(BleOp::LegacyMode.to_u8(), 12);
    assert_eq!(BleOp::Pair.to_u8(), 13);
    assert_eq!(BleOp::Disconnect.to_u8(), 14);
    assert_eq!(KeyboardOp::KeyReport.to_u8(), 1);
    assert_eq!(LedOp::ConfigCmd.to_u8(), 5);
    assert_eq!(LedOp::Key.to_u8(), 7);
    assert_eq!(LedOp::GetThemeId.to_u8(), 12);
    assert_eq!(SystemOp::IsSyncCode.to_u8(), 8);
    assert_eq!(SystemOp::SetSyncCode.to_u8(), 9);
    assert_eq!(MacroOp::SyncMacro.to_u8(), 5);
}
