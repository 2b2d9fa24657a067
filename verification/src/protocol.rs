//! Wire protocol spoken with the two companion MCUs.
//!
//! Every frame is `[msg_type, 1 + |data|, operation, data...]`.  Replies from
//! the companion MCUs carry the operation code with the top bit set; the only
//! exception is the Bluetooth wakeup acknowledgement, which uses the fixed
//! code 170.

use vstd::prelude::*;

verus! {

/// A decoded frame: message kind, operation code and payload.
pub struct Message {
    pub msg_type: MsgType,
    pub operation: u8,
    pub data: Vec<u8>,
}

/// Message kinds, one per protocol family.
#[derive(Copy, Clone, PartialEq, Eq, Structural, Debug)]
pub enum MsgType {
    Reserved,
    Error,
    System,
    Ack,
    Reboot,
    Macro,
    Ble,
    Keyboard,
    Keyup,
    Led,
    FwInfo,
    FwUp,
    CustomLed,
    CustomKey,
}

/// The numeric code of a reply to operation `op`.
pub open spec fn spec_ack_for(op: u8) -> u8 {
    op | 0x80
}

/// On-wire value of each message kind.
pub open spec fn msg_type_value(t: MsgType) -> u8 {
    match t {
        MsgType::Reserved => 0,
        MsgType::Error => 1,
        MsgType::System => 2,
        MsgType::Ack => 3,
        MsgType::Reboot => 4,
        MsgType::Macro => 5,
        MsgType::Ble => 6,
        MsgType::Keyboard => 7,
        MsgType::Keyup => 8,
        MsgType::Led => 9,
        MsgType::FwInfo => 10,
        MsgType::FwUp => 11,
        MsgType::CustomLed => 12,
        MsgType::CustomKey => 13,
    }
}

/// The message kind a byte decodes to, if any.
pub open spec fn spec_msg_type_from(v: u8) -> Option<MsgType> {
    if v == 0 {
        Some(MsgType::Reserved)
    } else if v == 1 {
        Some(MsgType::Error)
    } else if v == 2 {
        Some(MsgType::System)
    } else if v == 3 {
        Some(MsgType::Ack)
    } else if v == 4 {
        Some(MsgType::Reboot)
    } else if v == 5 {
        Some(MsgType::Macro)
    } else if v == 6 {
        Some(MsgType::Ble)
    } else if v == 7 {
        Some(MsgType::Keyboard)
    } else if v == 8 {
        Some(MsgType::Keyup)
    } else if v == 9 {
        Some(MsgType::Led)
    } else if v == 10 {
        Some(MsgType::FwInfo)
    } else if v == 11 {
        Some(MsgType::FwUp)
    } else if v == 12 {
        Some(MsgType::CustomLed)
    } else if v == 13 {
        Some(MsgType::CustomKey)
    } else {
        None
    }
}

impl MsgType {
    pub fn to_u8(self) -> (r: u8)
        ensures
            r == msg_type_value(self),
    {
        match self {
            MsgType::Reserved => 0,
            MsgType::Error => 1,
            MsgType::System => 2,
            MsgType::Ack => 3,
            MsgType::Reboot => 4,
            MsgType::Macro => 5,
            MsgType::Ble => 6,
            MsgType::Keyboard => 7,
            MsgType::Keyup => 8,
            MsgType::Led => 9,
            MsgType::FwInfo => 10,
            MsgType::FwUp => 11,
            MsgType::CustomLed => 12,
            MsgType::CustomKey => 13,
        }
    }

    pub fn from_u8(v: u8) -> (r: Option<MsgType>)
        ensures
            r == spec_msg_type_from(v),
    {
        match v {
            0 => Some(MsgType::Reserved),
            1 => Some(MsgType::Error),
            2 => Some(MsgType::System),
            3 => Some(MsgType::Ack),
            4 => Some(MsgType::Reboot),
            5 => Some(MsgType::Macro),
            6 => Some(MsgType::Ble),
            7 => Some(MsgType::Keyboard),
            8 => Some(MsgType::Keyup),
            9 => Some(MsgType::Led),
            10 => Some(MsgType::FwInfo),
            11 => Some(MsgType::FwUp),
            12 => Some(MsgType::CustomLed),
            13 => Some(MsgType::CustomKey),
            _ => None,
        }
    }
}

/// Encoding a message kind and decoding the byte gives the kind back.
pub proof fn lemma_msg_type_round_trip(t: MsgType)
    ensures
        spec_msg_type_from(msg_type_value(t)) == Some(t),
{
}

/// Bluetooth-link operations.
#[derive(Copy, Clone, PartialEq, Eq, Structural, Debug)]
pub enum BleOp {
    Reserved,
    AckReserved,
    On,
    AckOn,
    Off,
    AckOff,
    SaveHost,
    AckSaveHost,
    ConnectHost,
    AckConnectHost,
    DeleteHost,
    AckDeleteHost,
    HostListQuery,
    AckHostListQuery,
    Broadcast,
    AckBroadcast,
    Battery,
    AckBattery,
    AckOk,
    AckAckOk,
    AckFail,
    AckAckFail,
    CurrentHostQuery,
    AckCurrentHostQuery,
    LegacyMode,
    AckLegacyMode,
    Pair,
    Disconnect,
    AckWakeup,
}

pub open spec fn ble_op_value(op: BleOp) -> u8 {
    match op {
        BleOp::Reserved => 0,
        BleOp::AckReserved => 128,
        BleOp::On => 1,
        BleOp::AckOn => 129,
        BleOp::Off => 2,
        BleOp::AckOff => 130,
        BleOp::SaveHost => 3,
        BleOp::AckSaveHost => 131,
        BleOp::ConnectHost => 4,
        BleOp::AckConnectHost => 132,
        BleOp::DeleteHost => 5,
        BleOp::AckDeleteHost => 133,
        BleOp::HostListQuery => 6,
        BleOp::AckHostListQuery => 134,
        BleOp::Broadcast => 7,
        BleOp::AckBroadcast => 135,
        BleOp::Battery => 8,
        BleOp::AckBattery => 136,
        BleOp::AckOk => 9,
        BleOp::AckAckOk => 137,
        BleOp::AckFail => 10,
        BleOp::AckAckFail => 138,
        BleOp::CurrentHostQuery => 11,
        BleOp::AckCurrentHostQuery => 139,
        BleOp::LegacyMode => 12,
        BleOp::AckLegacyMode => 140,
        BleOp::Pair => 13,
        BleOp::Disconnect => 14,
        BleOp::AckWakeup => 170,
    }
}

/// The reply operation paired with `op`, where the protocol defines one.
pub open spec fn ble_ack_of(op: BleOp) -> Option<BleOp> {
    match op {
        BleOp::Reserved => Some(BleOp::AckReserved),
        BleOp::On => Some(BleOp::AckOn),
        BleOp::Off => Some(BleOp::AckOff),
        BleOp::SaveHost => Some(BleOp::AckSaveHost),
        BleOp::ConnectHost => Some(BleOp::AckConnectHost),
        BleOp::DeleteHost => Some(BleOp::AckDeleteHost),
        BleOp::HostListQuery => Some(BleOp::AckHostListQuery),
        BleOp::Broadcast => Some(BleOp::AckBroadcast),
        BleOp::Battery => Some(BleOp::AckBattery),
        BleOp::AckOk => Some(BleOp::AckAckOk),
        BleOp::AckFail => Some(BleOp::AckAckFail),
        BleOp::CurrentHostQuery => Some(BleOp::AckCurrentHostQuery),
        BleOp::LegacyMode => Some(BleOp::AckLegacyMode),
        _ => None,
    }
}

impl BleOp {
    pub fn to_u8(self) -> (r: u8)
        ensures
            r == ble_op_value(self),
    {
        match self {
            BleOp::Reserved => 0,
            BleOp::AckReserved => 128,
            BleOp::On => 1,
            BleOp::AckOn => 129,
            BleOp::Off => 2,
            BleOp::AckOff => 130,
            BleOp::SaveHost => 3,
            BleOp::AckSaveHost => 131,
            BleOp::ConnectHost => 4,
            BleOp::AckConnectHost => 132,
            BleOp::DeleteHost => 5,
            BleOp::AckDeleteHost => 133,
            BleOp::HostListQuery => 6,
            BleOp::AckHostListQuery => 134,
            BleOp::Broadcast => 7,
            BleOp::AckBroadcast => 135,
            BleOp::Battery => 8,
            BleOp::AckBattery => 136,
            BleOp::AckOk => 9,
            BleOp::AckAckOk => 137,
            BleOp::AckFail => 10,
            BleOp::AckAckFail => 138,
            BleOp::CurrentHostQuery => 11,
            BleOp::AckCurrentHostQuery => 139,
            BleOp::LegacyMode => 12,
            BleOp::AckLegacyMode => 140,
            BleOp::Pair => 13,
            BleOp::Disconnect => 14,
            BleOp::AckWakeup => 170,
        }
    }

    pub fn from_u8(v: u8) -> (r: Option<BleOp>)
        ensures
            r == spec_ble_op_from(v),
    {
        match v {
            0 => Some(BleOp::Reserved),
            128 => Some(BleOp::AckReserved),
            1 => Some(BleOp::On),
            129 => Some(BleOp::AckOn),
            2 => Some(BleOp::Off),
            130 => Some(BleOp::AckOff),
            3 => Some(BleOp::SaveHost),
            131 => Some(BleOp::AckSaveHost),
            4 => Some(BleOp::ConnectHost),
            132 => Some(BleOp::AckConnectHost),
            5 => Some(BleOp::DeleteHost),
            133 => Some(BleOp::AckDeleteHost),
            6 => Some(BleOp::HostListQuery),
            134 => Some(BleOp::AckHostListQuery),
            7 => Some(BleOp::Broadcast),
            135 => Some(BleOp::AckBroadcast),
            8 => Some(BleOp::Battery),
            136 => Some(BleOp::AckBattery),
            9 => Some(BleOp::AckOk),
            137 => Some(BleOp::AckAckOk),
            10 => Some(BleOp::AckFail),
            138 => Some(BleOp::AckAckFail),
            11 => Some(BleOp::CurrentHostQuery),
            139 => Some(BleOp::AckCurrentHostQuery),
            12 => Some(BleOp::LegacyMode),
            140 => Some(BleOp::AckLegacyMode),
            13 => Some(BleOp::Pair),
            14 => Some(BleOp::Disconnect),
            170 => Some(BleOp::AckWakeup),
            _ => None,
        }
    }
}

pub open spec fn spec_ble_op_from(v: u8) -> Option<BleOp> {
    if v == 0 {
        Some(BleOp::Reserved)
    } else if v == 128 {
        Some(BleOp::AckReserved)
    } else if v == 1 {
        Some(BleOp::On)
    } else if v == 129 {
        Some(BleOp::AckOn)
    } else if v == 2 {
        Some(BleOp::Off)
    } else if v == 130 {
        Some(BleOp::AckOff)
    } else if v == 3 {
        Some(BleOp::SaveHost)
    } else if v == 131 {
        Some(BleOp::AckSaveHost)
    } else if v == 4 {
        Some(BleOp::ConnectHost)
    } else if v == 132 {
        Some(BleOp::AckConnectHost)
    } else if v == 5 {
        Some(BleOp::DeleteHost)
    } else if v == 133 {
        Some(BleOp::AckDeleteHost)
    } else if v == 6 {
        Some(BleOp::HostListQuery)
    } else if v == 134 {
        Some(BleOp::AckHostListQuery)
    } else if v == 7 {
        Some(BleOp::Broadcast)
    } else if v == 135 {
        Some(BleOp::AckBroadcast)
    } else if v == 8 {
        Some(BleOp::Battery)
    } else if v == 136 {
        Some(BleOp::AckBattery)
    } else if v == 9 {
        Some(BleOp::AckOk)
    } else if v == 137 {
        Some(BleOp::AckAckOk)
    } else if v == 10 {
        Some(BleOp::AckFail)
    } else if v == 138 {
        Some(BleOp::AckAckFail)
    } else if v == 11 {
        Some(BleOp::CurrentHostQuery)
    } else if v == 139 {
        Some(BleOp::AckCurrentHostQuery)
    } else if v == 12 {
        Some(BleOp::LegacyMode)
    } else if v == 140 {
        Some(BleOp::AckLegacyMode)
    } else if v == 13 {
        Some(BleOp::Pair)
    } else if v == 14 {
        Some(BleOp::Disconnect)
    } else if v == 170 {
        Some(BleOp::AckWakeup)
    } else {
        None
    }
}

/// Keyboard-family operations.
#[derive(Copy, Clone, PartialEq, Eq, Structural, Debug)]
pub enum KeyboardOp {
    Reserved,
    AckReserved,
    KeyReport,
    AckKeyReport,
    DownloadUserLayout,
    AckDownloadUserLayout,
    SetLayoutId,
    AckSetLayoutId,
    GetLayoutId,
    AckGetLayoutId,
    UpUserLayout,
    AckUpUserLayout,
}

pub open spec fn keyboard_op_value(op: KeyboardOp) -> u8 {
    match op {
        KeyboardOp::Reserved => 0,
        KeyboardOp::AckReserved => 128,
        KeyboardOp::KeyReport => 1,
        KeyboardOp::AckKeyReport => 129,
        KeyboardOp::DownloadUserLayout => 2,
        KeyboardOp::AckDownloadUserLayout => 130,
        KeyboardOp::SetLayoutId => 3,
        KeyboardOp::AckSetLayoutId => 131,
        KeyboardOp::GetLayoutId => 4,
        KeyboardOp::AckGetLayoutId => 132,
        KeyboardOp::UpUserLayout => 5,
        KeyboardOp::AckUpUserLayout => 133,
    }
}

pub open spec fn keyboard_ack_of(op: KeyboardOp) -> Option<KeyboardOp> {
    match op {
        KeyboardOp::Reserved => Some(KeyboardOp::AckReserved),
        KeyboardOp::KeyReport => Some(KeyboardOp::AckKeyReport),
        KeyboardOp::DownloadUserLayout => Some(KeyboardOp::AckDownloadUserLayout),
        KeyboardOp::SetLayoutId => Some(KeyboardOp::AckSetLayoutId),
        KeyboardOp::GetLayoutId => Some(KeyboardOp::AckGetLayoutId),
        KeyboardOp::UpUserLayout => Some(KeyboardOp::AckUpUserLayout),
        _ => None,
    }
}

pub open spec fn spec_keyboard_op_from(v: u8) -> Option<KeyboardOp> {
    if v == 0 {
        Some(KeyboardOp::Reserved)
    } else if v == 128 {
        Some(KeyboardOp::AckReserved)
    } else if v == 1 {
        Some(KeyboardOp::KeyReport)
    } else if v == 129 {
        Some(KeyboardOp::AckKeyReport)
    } else if v == 2 {
        Some(KeyboardOp::DownloadUserLayout)
    } else if v == 130 {
        Some(KeyboardOp::AckDownloadUserLayout)
    } else if v == 3 {
        Some(KeyboardOp::SetLayoutId)
    } else if v == 131 {
        Some(KeyboardOp::AckSetLayoutId)
    } else if v == 4 {
        Some(KeyboardOp::GetLayoutId)
    } else if v == 132 {
        Some(KeyboardOp::AckGetLayoutId)
    } else if v == 5 {
        Some(KeyboardOp::UpUserLayout)
    } else if v == 133 {
        Some(KeyboardOp::AckUpUserLayout)
    } else {
        None
    }
}

impl KeyboardOp {
    pub fn to_u8(self) -> (r: u8)
        ensures
            r == keyboard_op_value(self),
    {
        match self {
            KeyboardOp::Reserved => 0,
            KeyboardOp::AckReserved => 128,
            KeyboardOp::KeyReport => 1,
            KeyboardOp::AckKeyReport => 129,
            KeyboardOp::DownloadUserLayout => 2,
            KeyboardOp::AckDownloadUserLayout => 130,
            KeyboardOp::SetLayoutId => 3,
            KeyboardOp::AckSetLayoutId => 131,
            KeyboardOp::GetLayoutId => 4,
            KeyboardOp::AckGetLayoutId => 132,
            KeyboardOp::UpUserLayout => 5,
            KeyboardOp::AckUpUserLayout => 133,
        }
    }

    pub fn from_u8(v: u8) -> (r: Option<KeyboardOp>)
        ensures
            r == spec_keyboard_op_from(v),
    {
        match v {
            0 => Some(KeyboardOp::Reserved),
            128 => Some(KeyboardOp::AckReserved),
            1 => Some(KeyboardOp::KeyReport),
            129 => Some(KeyboardOp::AckKeyReport),
            2 => Some(KeyboardOp::DownloadUserLayout),
            130 => Some(KeyboardOp::AckDownloadUserLayout),
            3 => Some(KeyboardOp::SetLayoutId),
            131 => Some(KeyboardOp::AckSetLayoutId),
            4 => Some(KeyboardOp::GetLayoutId),
            132 => Some(KeyboardOp::AckGetLayoutId),
            5 => Some(KeyboardOp::UpUserLayout),
            133 => Some(KeyboardOp::AckUpUserLayout),
            _ => None,
        }
    }
}

/// LED-family operations.
#[derive(Copy, Clone, PartialEq, Eq, Structural, Debug)]
pub enum LedOp {
    Reserved,
    AckReserved,
    ThemeMode,
    AckThemeMode,
    ThemeSwitch,
    AckThemeSwitch,
    UserStaticTheme,
    AckUserStaticTheme,
    BleConfig,
    AckBleConfig,
    ConfigCmd,
    AckConfigCmd,
    Music,
    AckMusic,
    Key,
    AckKey,
    GetUsedThemeId,
    AckGetUsedThemeId,
    GetUserStaticTheme,
    AckGetUserStaticTheme,
    GetUserStaticCrcId,
    AckGetUserStaticCrcId,
    SetIndividualKeys,
    AckSetIndividualKeys,
    GetThemeId,
}

pub open spec fn led_op_value(op: LedOp) -> u8 {
    match op {
        LedOp::Reserved => 0,
        LedOp::AckReserved => 128,
        LedOp::ThemeMode => 1,
        LedOp::AckThemeMode => 129,
        LedOp::ThemeSwitch => 2,
        LedOp::AckThemeSwitch => 130,
        LedOp::UserStaticTheme => 3,
        LedOp::AckUserStaticTheme => 131,
        LedOp::BleConfig => 4,
        LedOp::AckBleConfig => 132,
        LedOp::ConfigCmd => 5,
        LedOp::AckConfigCmd => 133,
        LedOp::Music => 6,
        LedOp::AckMusic => 134,
        LedOp::Key => 7,
        LedOp::AckKey => 135,
        LedOp::GetUsedThemeId => 8,
        LedOp::AckGetUsedThemeId => 136,
        LedOp::GetUserStaticTheme => 9,
        LedOp::AckGetUserStaticTheme => 137,
        LedOp::GetUserStaticCrcId => 10,
        LedOp::AckGetUserStaticCrcId => 138,
        LedOp::SetIndividualKeys => 11,
        LedOp::AckSetIndividualKeys => 139,
        LedOp::GetThemeId => 12,
    }
}

pub open spec fn led_ack_of(op: LedOp) -> Option<LedOp> {
    match op {
        LedOp::Reserved => Some(LedOp::AckReserved),
        LedOp::ThemeMode => Some(LedOp::AckThemeMode),
        LedOp::ThemeSwitch => Some(LedOp::AckThemeSwitch),
        LedOp::UserStaticTheme => Some(LedOp::AckUserStaticTheme),
        LedOp::BleConfig => Some(LedOp::AckBleConfig),
        LedOp::ConfigCmd => Some(LedOp::AckConfigCmd),
        LedOp::Music => Some(LedOp::AckMusic),
        LedOp::Key => Some(LedOp::AckKey),
        LedOp::GetUsedThemeId => Some(LedOp::AckGetUsedThemeId),
        LedOp::GetUserStaticTheme => Some(LedOp::AckGetUserStaticTheme),
        LedOp::GetUserStaticCrcId => Some(LedOp::AckGetUserStaticCrcId),
        LedOp::SetIndividualKeys => Some(LedOp::AckSetIndividualKeys),
        _ => None,
    }
}

pub open spec fn spec_led_op_from(v: u8) -> Option<LedOp> {
    if v == 0 {
        Some(LedOp::Reserved)
    } else if v == 128 {
        Some(LedOp::AckReserved)
    } else if v == 1 {
        Some(LedOp::ThemeMode)
    } else if v == 129 {
        Some(LedOp::AckThemeMode)
    } else if v == 2 {
        Some(LedOp::ThemeSwitch)
    } else if v == 130 {
        Some(LedOp::AckThemeSwitch)
    } else if v == 3 {
        Some(LedOp::UserStaticTheme)
    } else if v == 131 {
        Some(LedOp::AckUserStaticTheme)
    } else if v == 4 {
        Some(LedOp::BleConfig)
    } else if v == 132 {
        Some(LedOp::AckBleConfig)
    } else if v == 5 {
        Some(LedOp::ConfigCmd)
    } else if v == 133 {
        Some(LedOp::AckConfigCmd)
    } else if v == 6 {
        Some(LedOp::Music)
    } else if v == 134 {
        Some(LedOp::AckMusic)
    } else if v == 7 {
        Some(LedOp::Key)
    } else if v == 135 {
        Some(LedOp::AckKey)
    } else if v == 8 {
        Some(LedOp::GetUsedThemeId)
    } else if v == 136 {
        Some(LedOp::AckGetUsedThemeId)
    } else if v == 9 {
        Some(LedOp::GetUserStaticTheme)
    } else if v == 137 {
        Some(LedOp::AckGetUserStaticTheme)
    } else if v == 10 {
        Some(LedOp::GetUserStaticCrcId)
    } else if v == 138 {
        Some(LedOp::AckGetUserStaticCrcId)
    } else if v == 11 {
        Some(LedOp::SetIndividualKeys)
    } else if v == 139 {
        Some(LedOp::AckSetIndividualKeys)
    } else if v == 12 {
        Some(LedOp::GetThemeId)
    } else {
        None
    }
}

impl LedOp {
    pub fn to_u8(self) -> (r: u8)
        ensures
            r == led_op_value(self),
    {
        match self {
            LedOp::Reserved => 0,
            LedOp::AckReserved => 128,
            LedOp::ThemeMode => 1,
            LedOp::AckThemeMode => 129,
            LedOp::ThemeSwitch => 2,
            LedOp::AckThemeSwitch => 130,
            LedOp::UserStaticTheme => 3,
            LedOp::AckUserStaticTheme => 131,
            LedOp::BleConfig => 4,
            LedOp::AckBleConfig => 132,
            LedOp::ConfigCmd => 5,
            LedOp::AckConfigCmd => 133,
            LedOp::Music => 6,
            LedOp::AckMusic => 134,
            LedOp::Key => 7,
            LedOp::AckKey => 135,
            LedOp::GetUsedThemeId => 8,
            LedOp::AckGetUsedThemeId => 136,
            LedOp::GetUserStaticTheme => 9,
            LedOp::AckGetUserStaticTheme => 137,
            LedOp::GetUserStaticCrcId => 10,
            LedOp::AckGetUserStaticCrcId => 138,
            LedOp::SetIndividualKeys => 11,
            LedOp::AckSetIndividualKeys => 139,
            LedOp::GetThemeId => 12,
        }
    }

    pub fn from_u8(v: u8) -> (r: Option<LedOp>)
        ensures
            r == spec_led_op_from(v),
    {
        match v {
            0 => Some(LedOp::Reserved),
            128 => Some(LedOp::AckReserved),
            1 => Some(LedOp::ThemeMode),
            129 => Some(LedOp::AckThemeMode),
            2 => Some(LedOp::ThemeSwitch),
            130 => Some(LedOp::AckThemeSwitch),
            3 => Some(LedOp::UserStaticTheme),
            131 => Some(LedOp::AckUserStaticTheme),
            4 => Some(LedOp::BleConfig),
            132 => Some(LedOp::AckBleConfig),
            5 => Some(LedOp::ConfigCmd),
            133 => Some(LedOp::AckConfigCmd),
            6 => Some(LedOp::Music),
            134 => Some(LedOp::AckMusic),
            7 => Some(LedOp::Key),
            135 => Some(LedOp::AckKey),
            8 => Some(LedOp::GetUsedThemeId),
            136 => Some(LedOp::AckGetUsedThemeId),
            9 => Some(LedOp::GetUserStaticTheme),
            137 => Some(LedOp::AckGetUserStaticTheme),
            10 => Some(LedOp::GetUserStaticCrcId),
            138 => Some(LedOp::AckGetUserStaticCrcId),
            11 => Some(LedOp::SetIndividualKeys),
            139 => Some(LedOp::AckSetIndividualKeys),
            12 => Some(LedOp::GetThemeId),
            _ => None,
        }
    }
}

/// System-family operations.
#[derive(Copy, Clone, PartialEq, Eq, Structural, Debug)]
pub enum SystemOp {
    Reserved,
    AckReserved,
    GetId,
    AckGetId,
    IsSyncCode,
    AckIsSyncCode,
    SetSyncCode,
    AckSetSyncCode,
}

pub open spec fn system_op_value(op: SystemOp) -> u8 {
    match op {
        SystemOp::Reserved => 0,
        SystemOp::AckReserved => 128,
        SystemOp::GetId => 1,
        SystemOp::AckGetId => 129,
        SystemOp::IsSyncCode => 8,
        SystemOp::AckIsSyncCode => 136,
        SystemOp::SetSyncCode => 9,
        SystemOp::AckSetSyncCode => 137,
    }
}

pub open spec fn system_ack_of(op: SystemOp) -> Option<SystemOp> {
    match op {
        SystemOp::Reserved => Some(SystemOp::AckReserved),
        SystemOp::GetId => Some(SystemOp::AckGetId),
        SystemOp::IsSyncCode => Some(SystemOp::AckIsSyncCode),
        SystemOp::SetSyncCode => Some(SystemOp::AckSetSyncCode),
        _ => None,
    }
}

pub open spec fn spec_system_op_from(v: u8) -> Option<SystemOp> {
    if v == 0 {
        Some(SystemOp::Reserved)
    } else if v == 128 {
        Some(SystemOp::AckReserved)
    } else if v == 1 {
        Some(SystemOp::GetId)
    } else if v == 129 {
        Some(SystemOp::AckGetId)
    } else if v == 8 {
        Some(SystemOp::IsSyncCode)
    } else if v == 136 {
        Some(SystemOp::AckIsSyncCode)
    } else if v == 9 {
        Some(SystemOp::SetSyncCode)
    } else if v == 137 {
        Some(SystemOp::AckSetSyncCode)
    } else {
        None
    }
}

impl SystemOp {
    pub fn to_u8(self) -> (r: u8)
        ensures
            r == system_op_value(self),
    {
        match self {
            SystemOp::Reserved => 0,
            SystemOp::AckReserved => 128,
            SystemOp::GetId => 1,
            SystemOp::AckGetId => 129,
            SystemOp::IsSyncCode => 8,
            SystemOp::AckIsSyncCode => 136,
            SystemOp::SetSyncCode => 9,
            SystemOp::AckSetSyncCode => 137,
        }
    }

    pub fn from_u8(v: u8) -> (r: Option<SystemOp>)
        ensures
            r == spec_system_op_from(v),
    {
        match v {
            0 => Some(SystemOp::Reserved),
            128 => Some(SystemOp::AckReserved),
            1 => Some(SystemOp::GetId),
            129 => Some(SystemOp::AckGetId),
            8 => Some(SystemOp::IsSyncCode),
            136 => Some(SystemOp::AckIsSyncCode),
            9 => Some(SystemOp::SetSyncCode),
            137 => Some(SystemOp::AckSetSyncCode),
            _ => None,
        }
    }
}

/// Macro-family operations.
#[derive(Copy, Clone, PartialEq, Eq, Structural, Debug)]
pub enum MacroOp {
    Reserved,
    AckReserved,
    SyncMacro,
    AckSyncMacro,
}

pub open spec fn macro_op_value(op: MacroOp) -> u8 {
    match op {
        MacroOp::Reserved => 0,
        MacroOp::AckReserved => 128,
        MacroOp::SyncMacro => 5,
        MacroOp::AckSyncMacro => 133,
    }
}

pub open spec fn macro_ack_of(op: MacroOp) -> Option<MacroOp> {
    match op {
        MacroOp::Reserved => Some(MacroOp::AckReserved),
        MacroOp::SyncMacro => Some(MacroOp::AckSyncMacro),
        _ => None,
    }
}

pub open spec fn spec_macro_op_from(v: u8) -> Option<MacroOp> {
    if v == 0 {
        Some(MacroOp::Reserved)
    } else if v == 128 {
        Some(MacroOp::AckReserved)
    } else if v == 5 {
        Some(MacroOp::SyncMacro)
    } else if v == 133 {
        Some(MacroOp::AckSyncMacro)
    } else {
        None
    }
}

impl MacroOp {
    pub fn to_u8(self) -> (r: u8)
        ensures
            r == macro_op_value(self),
    {
        match self {
            MacroOp::Reserved => 0,
            MacroOp::AckReserved => 128,
            MacroOp::SyncMacro => 5,
            MacroOp::AckSyncMacro => 133,
        }
    }

    pub fn from_u8(v: u8) -> (r: Option<MacroOp>)
        ensures
            r == spec_macro_op_from(v),
    {
        match v {
            0 => Some(MacroOp::Reserved),
            128 => Some(MacroOp::AckReserved),
            5 => Some(MacroOp::SyncMacro),
            133 => Some(MacroOp::AckSyncMacro),
            _ => None,
        }
    }
}

/// `op | 0x80` equals `op + 128` for codes below 128.
proof fn lemma_ack_or_is_add(op: u8)
    by (bit_vector)
    requires
        op < 128,
    ensures
        (op | 0x80) == op + 128,
{
}

/// Ack symmetry: wherever the protocol pairs an operation with a reply, the
/// reply's code is the operation's code with the top bit set.
pub proof fn lemma_ble_ack_symmetry(op: BleOp)
    ensures
        ble_ack_of(op) matches Some(ack) ==> ble_op_value(ack) == spec_ack_for(ble_op_value(op)),
{
    if ble_ack_of(op) is Some {
        lemma_ack_or_is_add(ble_op_value(op));
    }
}

/// The wakeup acknowledgement is the documented exception to ack symmetry:
/// its code is the fixed value 170, which pairs with no request operation.
pub proof fn lemma_ack_wakeup_exception()
    ensures
        ble_op_value(BleOp::AckWakeup) == 170,
        forall|op: BleOp| ble_ack_of(op) != Some(BleOp::AckWakeup),
{
    assert forall|op: BleOp| ble_ack_of(op) != Some(BleOp::AckWakeup) by {
        lemma_ble_ack_symmetry(op);
        if ble_ack_of(op) matches Some(ack) {
            lemma_ack_or_is_add(ble_op_value(op));
        }
    }
}

pub proof fn lemma_keyboard_ack_symmetry(op: KeyboardOp)
    ensures
        keyboard_ack_of(op) matches Some(ack) ==> keyboard_op_value(ack) == spec_ack_for(
            keyboard_op_value(op),
        ),
{
    if keyboard_ack_of(op) is Some {
        lemma_ack_or_is_add(keyboard_op_value(op));
    }
}

pub proof fn lemma_led_ack_symmetry(op: LedOp)
    ensures
        led_ack_of(op) matches Some(ack) ==> led_op_value(ack) == spec_ack_for(led_op_value(op)),
{
    if led_ack_of(op) is Some {
        lemma_ack_or_is_add(led_op_value(op));
    }
}

pub proof fn lemma_system_ack_symmetry(op: SystemOp)
    ensures
        system_ack_of(op) matches Some(ack) ==> system_op_value(ack) == spec_ack_for(
            system_op_value(op),
        ),
{
    if system_ack_of(op) is Some {
        lemma_ack_or_is_add(system_op_value(op));
    }
}

pub proof fn lemma_macro_ack_symmetry(op: MacroOp)
    ensures
        macro_ack_of(op) matches Some(ack) ==> macro_op_value(ack) == spec_ack_for(
            macro_op_value(op),
        ),
{
    if macro_ack_of(op) is Some {
        lemma_ack_or_is_add(macro_op_value(op));
    }
}

/// What a filled receive buffer decodes to: the message kind from byte 0, the
/// operation from byte 2, and `buffer[1] - 1` payload bytes from byte 3 on.
/// Frames with an unknown kind byte or a zero length byte decode to nothing.
pub open spec fn spec_parse(b: Seq<u8>) -> Option<(MsgType, u8, Seq<u8>)> {
    if b.len() >= 3 && b[1] >= 1 && 2 + b[1] <= b.len() {
        match spec_msg_type_from(b[0]) {
            Some(t) => Some((t, b[2], b.subrange(3, 2 + b[1] as int))),
            None => None,
        }
    } else {
        None
    }
}

impl Message {
    /// Decode a filled receive buffer into a message.
    pub fn parse(buffer: &Vec<u8>) -> (r: Option<Message>)
        requires
            buffer@.len() >= 3,
            2 + buffer@[1] <= buffer@.len(),
        ensures
            match r {
                Some(m) => spec_parse(buffer@) == Some((m.msg_type, m.operation, m.data@)),
                None => spec_parse(buffer@) is None,
            },
    {
        let len_byte = buffer[1];
        if len_byte < 1 {
            return None;
        }
        match MsgType::from_u8(buffer[0]) {
            None => None,
            Some(t) => {
                let mut data: Vec<u8> = Vec::new();
                let end: usize = 2 + len_byte as usize;
                let mut i: usize = 3;
                while i < end
                    invariant
                        3 <= i <= end,
                        end == 2 + buffer@[1],
                        end <= buffer@.len(),
                        data@ == buffer@.subrange(3, i as int),
                    decreases end - i,
                {
                    data.push(buffer[i]);
                    proof {
                        assert(data@ =~= buffer@.subrange(3, i + 1));
                    }
                    i = i + 1;
                }
                proof {
                    assert(data@ =~= buffer@.subrange(3, 2 + buffer@[1] as int));
                }
                Some(Message { msg_type: t, operation: buffer[2], data })
            },
        }
    }
}

} // verus!
