//! The four compile-time key layouts: base, two function layers, and the
//! Bluetooth control layer.  Cells are listed row-major in scan order, so the
//! cell for a key sits at its `KeyIndex` position.

use vstd::prelude::*;
use crate::action::{Action, action_wf};
use crate::keycodes::KeyCode;

verus! {

/// Number of matrix rows.
pub const ROWS: usize = 5;

/// Number of matrix columns.
pub const COLUMNS: usize = 14;

/// Number of layouts stacked in the layer table.
pub const NUM_LAYERS: u8 = 4;

/// Index of the momentary function layer.
pub const LAYER_FN: u8 = 1;

/// Index of the second (LED) function layer.
pub const LAYER_FN2: u8 = 2;

/// Index of the Bluetooth control layer.
pub const LAYER_BT: u8 = 3;

/// The base layer: plain keys, with the two momentary layer keys.
pub open spec fn spec_base_action(key: int) -> Action {
    if key == 0 {
        Action::Key(KeyCode::Escape)
    } else if key == 1 {
        Action::Key(KeyCode::N1)
    } else if key == 2 {
        Action::Key(KeyCode::N2)
    } else if key == 3 {
        Action::Key(KeyCode::N3)
    } else if key == 4 {
        Action::Key(KeyCode::N4)
    } else if key == 5 {
        Action::Key(KeyCode::N5)
    } else if key == 6 {
        Action::Key(KeyCode::N6)
    } else if key == 7 {
        Action::Key(KeyCode::N7)
    } else if key == 8 {
        Action::Key(KeyCode::N8)
    } else if key == 9 {
        Action::Key(KeyCode::N9)
    } else if key == 10 {
        Action::Key(KeyCode::N0)
    } else if key == 11 {
        Action::Key(KeyCode::Minus)
    } else if key == 12 {
        Action::Key(KeyCode::Equal)
    } else if key == 13 {
        Action::Key(KeyCode::BSpace)
    } else if key == 14 {
        Action::Key(KeyCode::Tab)
    } else if key == 15 {
        Action::Key(KeyCode::Q)
    } else if key == 16 {
        Action::Key(KeyCode::W)
    } else if key == 17 {
        Action::Key(KeyCode::E)
    } else if key == 18 {
        Action::Key(KeyCode::R)
    } else if key == 19 {
        Action::Key(KeyCode::T)
    } else if key == 20 {
        Action::Key(KeyCode::Y)
    } else if key == 21 {
        Action::Key(KeyCode::U)
    } else if key == 22 {
        Action::Key(KeyCode::I)
    } else if key == 23 {
        Action::Key(KeyCode::O)
    } else if key == 24 {
        Action::Key(KeyCode::P)
    } else if key == 25 {
        Action::Key(KeyCode::LBracket)
    } else if key == 26 {
        Action::Key(KeyCode::RBracket)
    } else if key == 27 {
        Action::Key(KeyCode::BSlash)
    } else if key == 28 {
        Action::Key(KeyCode::Capslock)
    } else if key == 29 {
        Action::Key(KeyCode::A)
    } else if key == 30 {
        Action::Key(KeyCode::S)
    } else if key == 31 {
        Action::Key(KeyCode::D)
    } else if key == 32 {
        Action::Key(KeyCode::F)
    } else if key == 33 {
        Action::Key(KeyCode::G)
    } else if key == 34 {
        Action::Key(KeyCode::H)
    } else if key == 35 {
        Action::Key(KeyCode::J)
    } else if key == 36 {
        Action::Key(KeyCode::K)
    } else if key == 37 {
        Action::Key(KeyCode::L)
    } else if key == 38 {
        Action::Key(KeyCode::SColon)
    } else if key == 39 {
        Action::Key(KeyCode::Quote)
    } else if key == 40 {
        Action::Key(KeyCode::No)
    } else if key == 41 {
        Action::Key(KeyCode::Enter)
    } else if key == 42 {
        Action::Key(KeyCode::LShift)
    } else if key == 43 {
        Action::Key(KeyCode::Z)
    } else if key == 44 {
        Action::Key(KeyCode::X)
    } else if key == 45 {
        Action::Key(KeyCode::C)
    } else if key == 46 {
        Action::Key(KeyCode::V)
    } else if key == 47 {
        Action::Key(KeyCode::B)
    } else if key == 48 {
        Action::Key(KeyCode::N)
    } else if key == 49 {
        Action::Key(KeyCode::M)
    } else if key == 50 {
        Action::Key(KeyCode::Comma)
    } else if key == 51 {
        Action::Key(KeyCode::Dot)
    } else if key == 52 {
        Action::Key(KeyCode::Slash)
    } else if key == 53 {
        Action::Key(KeyCode::No)
    } else if key == 54 {
        Action::Key(KeyCode::No)
    } else if key == 55 {
        Action::Key(KeyCode::RShift)
    } else if key == 56 {
        Action::Key(KeyCode::LCtrl)
    } else if key == 57 {
        Action::Key(KeyCode::LMeta)
    } else if key == 58 {
        Action::Key(KeyCode::LAlt)
    } else if key == 59 {
        Action::Key(KeyCode::No)
    } else if key == 60 {
        Action::Key(KeyCode::No)
    } else if key == 61 {
        Action::Key(KeyCode::Space)
    } else if key == 62 {
        Action::Key(KeyCode::No)
    } else if key == 63 {
        Action::Key(KeyCode::No)
    } else if key == 64 {
        Action::Key(KeyCode::No)
    } else if key == 65 {
        Action::Key(KeyCode::No)
    } else if key == 66 {
        Action::Key(KeyCode::RAlt)
    } else if key == 67 {
        Action::LayerMomentary(LAYER_FN)
    } else if key == 68 {
        Action::LayerMomentary(LAYER_FN2)
    } else if key == 69 {
        Action::Key(KeyCode::RCtrl)
    } else {
        Action::Nop
    }
}

pub fn base_action(key: u8) -> (a: Action)
    ensures
        a == spec_base_action(key as int),
        action_wf(a),
{
    match key {
        0 => Action::Key(KeyCode::Escape),
        1 => Action::Key(KeyCode::N1),
        2 => Action::Key(KeyCode::N2),
        3 => Action::Key(KeyCode::N3),
        4 => Action::Key(KeyCode::N4),
        5 => Action::Key(KeyCode::N5),
        6 => Action::Key(KeyCode::N6),
        7 => Action::Key(KeyCode::N7),
        8 => Action::Key(KeyCode::N8),
        9 => Action::Key(KeyCode::N9),
        10 => Action::Key(KeyCode::N0),
        11 => Action::Key(KeyCode::Minus),
        12 => Action::Key(KeyCode::Equal),
        13 => Action::Key(KeyCode::BSpace),
        14 => Action::Key(KeyCode::Tab),
        15 => Action::Key(KeyCode::Q),
        16 => Action::Key(KeyCode::W),
        17 => Action::Key(KeyCode::E),
        18 => Action::Key(KeyCode::R),
        19 => Action::Key(KeyCode::T),
        20 => Action::Key(KeyCode::Y),
        21 => Action::Key(KeyCode::U),
        22 => Action::Key(KeyCode::I),
        23 => Action::Key(KeyCode::O),
        24 => Action::Key(KeyCode::P),
        25 => Action::Key(KeyCode::LBracket),
        26 => Action::Key(KeyCode::RBracket),
        27 => Action::Key(KeyCode::BSlash),
        28 => Action::Key(KeyCode::Capslock),
        29 => Action::Key(KeyCode::A),
        30 => Action::Key(KeyCode::S),
        31 => Action::Key(KeyCode::D),
        32 => Action::Key(KeyCode::F),
        33 => Action::Key(KeyCode::G),
        34 => Action::Key(KeyCode::H),
        35 => Action::Key(KeyCode::J),
        36 => Action::Key(KeyCode::K),
        37 => Action::Key(KeyCode::L),
        38 => Action::Key(KeyCode::SColon),
        39 => Action::Key(KeyCode::Quote),
        40 => Action::Key(KeyCode::No),
        41 => Action::Key(KeyCode::Enter),
        42 => Action::Key(KeyCode::LShift),
        43 => Action::Key(KeyCode::Z),
        44 => Action::Key(KeyCode::X),
        45 => Action::Key(KeyCode::C),
        46 => Action::Key(KeyCode::V),
        47 => Action::Key(KeyCode::B),
        48 => Action::Key(KeyCode::N),
        49 => Action::Key(KeyCode::M),
        50 => Action::Key(KeyCode::Comma),
        51 => Action::Key(KeyCode::Dot),
        52 => Action::Key(KeyCode::Slash),
        53 => Action::Key(KeyCode::No),
        54 => Action::Key(KeyCode::No),
        55 => Action::Key(KeyCode::RShift),
        56 => Action::Key(KeyCode::LCtrl),
        57 => Action::Key(KeyCode::LMeta),
        58 => Action::Key(KeyCode::LAlt),
        59 => Action::Key(KeyCode::No),
        60 => Action::Key(KeyCode::No),
        61 => Action::Key(KeyCode::Space),
        62 => Action::Key(KeyCode::No),
        63 => Action::Key(KeyCode::No),
        64 => Action::Key(KeyCode::No),
        65 => Action::Key(KeyCode::No),
        66 => Action::Key(KeyCode::RAlt),
        67 => Action::LayerMomentary(LAYER_FN),
        68 => Action::LayerMomentary(LAYER_FN2),
        69 => Action::Key(KeyCode::RCtrl),
        _ => Action::Nop,
    }
}

/// The function layer: F-row, navigation, LED cycling, Bluetooth layer latch, reset.
pub open spec fn spec_fn_action(key: int) -> Action {
    if key == 0 {
        Action::Key(KeyCode::Grave)
    } else if key == 1 {
        Action::Key(KeyCode::F1)
    } else if key == 2 {
        Action::Key(KeyCode::F2)
    } else if key == 3 {
        Action::Key(KeyCode::F3)
    } else if key == 4 {
        Action::Key(KeyCode::F4)
    } else if key == 5 {
        Action::Key(KeyCode::F5)
    } else if key == 6 {
        Action::Key(KeyCode::F6)
    } else if key == 7 {
        Action::Key(KeyCode::F7)
    } else if key == 8 {
        Action::Key(KeyCode::F8)
    } else if key == 9 {
        Action::Key(KeyCode::F9)
    } else if key == 10 {
        Action::Key(KeyCode::F10)
    } else if key == 11 {
        Action::Key(KeyCode::F11)
    } else if key == 12 {
        Action::Key(KeyCode::F12)
    } else if key == 13 {
        Action::Transparent
    } else if key == 14 {
        Action::Transparent
    } else if key == 15 {
        Action::Transparent
    } else if key == 16 {
        Action::Key(KeyCode::Up)
    } else if key == 17 {
        Action::Transparent
    } else if key == 18 {
        Action::LedToggle
    } else if key == 19 {
        Action::LedNextAnimationSpeed
    } else if key == 20 {
        Action::LedNextBrightness
    } else if key == 21 {
        Action::LedNextTheme
    } else if key == 22 {
        Action::Key(KeyCode::Up)
    } else if key == 23 {
        Action::Key(KeyCode::Scrolllock)
    } else if key == 24 {
        Action::Key(KeyCode::Pause)
    } else if key == 25 {
        Action::Key(KeyCode::Home)
    } else if key == 26 {
        Action::Key(KeyCode::End)
    } else if key == 27 {
        Action::Key(KeyCode::PScreen)
    } else if key == 28 {
        Action::Transparent
    } else if key == 29 {
        Action::Key(KeyCode::Left)
    } else if key == 30 {
        Action::Key(KeyCode::Down)
    } else if key == 31 {
        Action::Key(KeyCode::Right)
    } else if key == 32 {
        Action::Transparent
    } else if key == 33 {
        Action::Transparent
    } else if key == 34 {
        Action::Transparent
    } else if key == 35 {
        Action::Key(KeyCode::Left)
    } else if key == 36 {
        Action::Key(KeyCode::Down)
    } else if key == 37 {
        Action::Key(KeyCode::Right)
    } else if key == 38 {
        Action::Key(KeyCode::PgUp)
    } else if key == 39 {
        Action::Key(KeyCode::PgDown)
    } else if key == 40 {
        Action::Key(KeyCode::No)
    } else if key == 41 {
        Action::Transparent
    } else if key == 42 {
        Action::Transparent
    } else if key == 43 {
        Action::Transparent
    } else if key == 44 {
        Action::Transparent
    } else if key == 45 {
        Action::Transparent
    } else if key == 46 {
        Action::Transparent
    } else if key == 47 {
        Action::LayerOn(LAYER_BT)
    } else if key == 48 {
        Action::Transparent
    } else if key == 49 {
        Action::Transparent
    } else if key == 50 {
        Action::Transparent
    } else if key == 51 {
        Action::Key(KeyCode::Insert)
    } else if key == 52 {
        Action::Key(KeyCode::Delete)
    } else if key == 53 {
        Action::Key(KeyCode::No)
    } else if key == 54 {
        Action::Key(KeyCode::No)
    } else if key == 55 {
        Action::Transparent
    } else if key == 56 {
        Action::Transparent
    } else if key == 57 {
        Action::Transparent
    } else if key == 58 {
        Action::Transparent
    } else if key == 59 {
        Action::Key(KeyCode::No)
    } else if key == 60 {
        Action::Key(KeyCode::No)
    } else if key == 61 {
        Action::Reset
    } else if key == 62 {
        Action::Key(KeyCode::No)
    } else if key == 63 {
        Action::Key(KeyCode::No)
    } else if key == 64 {
        Action::Key(KeyCode::No)
    } else if key == 65 {
        Action::Key(KeyCode::No)
    } else if key == 66 {
        Action::Transparent
    } else if key == 67 {
        Action::Transparent
    } else if key == 68 {
        Action::Transparent
    } else if key == 69 {
        Action::Transparent
    } else {
        Action::Nop
    }
}

pub fn fn_action(key: u8) -> (a: Action)
    ensures
        a == spec_fn_action(key as int),
        action_wf(a),
{
    match key {
        0 => Action::Key(KeyCode::Grave),
        1 => Action::Key(KeyCode::F1),
        2 => Action::Key(KeyCode::F2),
        3 => Action::Key(KeyCode::F3),
        4 => Action::Key(KeyCode::F4),
        5 => Action::Key(KeyCode::F5),
        6 => Action::Key(KeyCode::F6),
        7 => Action::Key(KeyCode::F7),
        8 => Action::Key(KeyCode::F8),
        9 => Action::Key(KeyCode::F9),
        10 => Action::Key(KeyCode::F10),
        11 => Action::Key(KeyCode::F11),
        12 => Action::Key(KeyCode::F12),
        13 => Action::Transparent,
        14 => Action::Transparent,
        15 => Action::Transparent,
        16 => Action::Key(KeyCode::Up),
        17 => Action::Transparent,
        18 => Action::LedToggle,
        19 => Action::LedNextAnimationSpeed,
        20 => Action::LedNextBrightness,
        21 => Action::LedNextTheme,
        22 => Action::Key(KeyCode::Up),
        23 => Action::Key(KeyCode::Scrolllock),
        24 => Action::Key(KeyCode::Pause),
        25 => Action::Key(KeyCode::Home),
        26 => Action::Key(KeyCode::End),
        27 => Action::Key(KeyCode::PScreen),
        28 => Action::Transparent,
        29 => Action::Key(KeyCode::Left),
        30 => Action::Key(KeyCode::Down),
        31 => Action::Key(KeyCode::Right),
        32 => Action::Transparent,
        33 => Action::Transparent,
        34 => Action::Transparent,
        35 => Action::Key(KeyCode::Left),
        36 => Action::Key(KeyCode::Down),
        37 => Action::Key(KeyCode::Right),
        38 => Action::Key(KeyCode::PgUp),
        39 => Action::Key(KeyCode::PgDown),
        40 => Action::Key(KeyCode::No),
        41 => Action::Transparent,
        42 => Action::Transparent,
        43 => Action::Transparent,
        44 => Action::Transparent,
        45 => Action::Transparent,
        46 => Action::Transparent,
        47 => Action::LayerOn(LAYER_BT),
        48 => Action::Transparent,
        49 => Action::Transparent,
        50 => Action::Transparent,
        51 => Action::Key(KeyCode::Insert),
        52 => Action::Key(KeyCode::Delete),
        53 => Action::Key(KeyCode::No),
        54 => Action::Key(KeyCode::No),
        55 => Action::Transparent,
        56 => Action::Transparent,
        57 => Action::Transparent,
        58 => Action::Transparent,
        59 => Action::Key(KeyCode::No),
        60 => Action::Key(KeyCode::No),
        61 => Action::Reset,
        62 => Action::Key(KeyCode::No),
        63 => Action::Key(KeyCode::No),
        64 => Action::Key(KeyCode::No),
        65 => Action::Key(KeyCode::No),
        66 => Action::Transparent,
        67 => Action::Transparent,
        68 => Action::Transparent,
        69 => Action::Transparent,
        _ => Action::Nop,
    }
}

/// The second function layer: direct LED controls.
pub open spec fn spec_fn2_action(key: int) -> Action {
    if key == 0 {
        Action::LedOff
    } else if key == 1 {
        Action::LedOn
    } else if key == 2 {
        Action::LedNextTheme
    } else if key == 3 {
        Action::LedNextAnimationSpeed
    } else if key == 4 {
        Action::LedNextBrightness
    } else if key == 5 {
        Action::Transparent
    } else if key == 6 {
        Action::Transparent
    } else if key == 7 {
        Action::Transparent
    } else if key == 8 {
        Action::Transparent
    } else if key == 9 {
        Action::Transparent
    } else if key == 10 {
        Action::Transparent
    } else if key == 11 {
        Action::Transparent
    } else if key == 12 {
        Action::Transparent
    } else if key == 13 {
        Action::Transparent
    } else if key == 14 {
        Action::Transparent
    } else if key == 15 {
        Action::Transparent
    } else if key == 16 {
        Action::Transparent
    } else if key == 17 {
        Action::Transparent
    } else if key == 18 {
        Action::Transparent
    } else if key == 19 {
        Action::Transparent
    } else if key == 20 {
        Action::Transparent
    } else if key == 21 {
        Action::Transparent
    } else if key == 22 {
        Action::Transparent
    } else if key == 23 {
        Action::Transparent
    } else if key == 24 {
        Action::Transparent
    } else if key == 25 {
        Action::Transparent
    } else if key == 26 {
        Action::Transparent
    } else if key == 27 {
        Action::Transparent
    } else if key == 28 {
        Action::Transparent
    } else if key == 29 {
        Action::Transparent
    } else if key == 30 {
        Action::Transparent
    } else if key == 31 {
        Action::Transparent
    } else if key == 32 {
        Action::Transparent
    } else if key == 33 {
        Action::Transparent
    } else if key == 34 {
        Action::Transparent
    } else if key == 35 {
        Action::Transparent
    } else if key == 36 {
        Action::Transparent
    } else if key == 37 {
        Action::Transparent
    } else if key == 38 {
        Action::Transparent
    } else if key == 39 {
        Action::Transparent
    } else if key == 40 {
        Action::Key(KeyCode::No)
    } else if key == 41 {
        Action::Transparent
    } else if key == 42 {
        Action::Transparent
    } else if key == 43 {
        Action::Transparent
    } else if key == 44 {
        Action::Transparent
    } else if key == 45 {
        Action::Transparent
    } else if key == 46 {
        Action::Transparent
    } else if key == 47 {
        Action::Transparent
    } else if key == 48 {
        Action::Transparent
    } else if key == 49 {
        Action::Transparent
    } else if key == 50 {
        Action::Transparent
    } else if key == 51 {
        Action::Transparent
    } else if key == 52 {
        Action::Transparent
    } else if key == 53 {
        Action::Transparent
    } else if key == 54 {
        Action::Transparent
    } else if key == 55 {
        Action::Transparent
    } else if key == 56 {
        Action::Transparent
    } else if key == 57 {
        Action::Transparent
    } else if key == 58 {
        Action::Transparent
    } else if key == 59 {
        Action::Key(KeyCode::No)
    } else if key == 60 {
        Action::Key(KeyCode::No)
    } else if key == 61 {
        Action::Transparent
    } else if key == 62 {
        Action::Key(KeyCode::No)
    } else if key == 63 {
        Action::Key(KeyCode::No)
    } else if key == 64 {
        Action::Key(KeyCode::No)
    } else if key == 65 {
        Action::Key(KeyCode::No)
    } else if key == 66 {
        Action::Transparent
    } else if key == 67 {
        Action::Transparent
    } else if key == 68 {
        Action::Transparent
    } else if key == 69 {
        Action::Transparent
    } else {
        Action::Nop
    }
}

pub fn fn2_action(key: u8) -> (a: Action)
    ensures
        a == spec_fn2_action(key as int),
        action_wf(a),
{
    match key {
        0 => Action::LedOff,
        1 => Action::LedOn,
        2 => Action::LedNextTheme,
        3 => Action::LedNextAnimationSpeed,
        4 => Action::LedNextBrightness,
        5 => Action::Transparent,
        6 => Action::Transparent,
        7 => Action::Transparent,
        8 => Action::Transparent,
        9 => Action::Transparent,
        10 => Action::Transparent,
        11 => Action::Transparent,
        12 => Action::Transparent,
        13 => Action::Transparent,
        14 => Action::Transparent,
        15 => Action::Transparent,
        16 => Action::Transparent,
        17 => Action::Transparent,
        18 => Action::Transparent,
        19 => Action::Transparent,
        20 => Action::Transparent,
        21 => Action::Transparent,
        22 => Action::Transparent,
        23 => Action::Transparent,
        24 => Action::Transparent,
        25 => Action::Transparent,
        26 => Action::Transparent,
        27 => Action::Transparent,
        28 => Action::Transparent,
        29 => Action::Transparent,
        30 => Action::Transparent,
        31 => Action::Transparent,
        32 => Action::Transparent,
        33 => Action::Transparent,
        34 => Action::Transparent,
        35 => Action::Transparent,
        36 => Action::Transparent,
        37 => Action::Transparent,
        38 => Action::Transparent,
        39 => Action::Transparent,
        40 => Action::Key(KeyCode::No),
        41 => Action::Transparent,
        42 => Action::Transparent,
        43 => Action::Transparent,
        44 => Action::Transparent,
        45 => Action::Transparent,
        46 => Action::Transparent,
        47 => Action::Transparent,
        48 => Action::Transparent,
        49 => Action::Transparent,
        50 => Action::Transparent,
        51 => Action::Transparent,
        52 => Action::Transparent,
        53 => Action::Transparent,
        54 => Action::Transparent,
        55 => Action::Transparent,
        56 => Action::Transparent,
        57 => Action::Transparent,
        58 => Action::Transparent,
        59 => Action::Key(KeyCode::No),
        60 => Action::Key(KeyCode::No),
        61 => Action::Transparent,
        62 => Action::Key(KeyCode::No),
        63 => Action::Key(KeyCode::No),
        64 => Action::Key(KeyCode::No),
        65 => Action::Key(KeyCode::No),
        66 => Action::Transparent,
        67 => Action::Transparent,
        68 => Action::Transparent,
        69 => Action::Transparent,
        _ => Action::Nop,
    }
}

/// The Bluetooth layer: host slots, link mode and broadcast controls.
pub open spec fn spec_bt_action(key: int) -> Action {
    if key == 0 {
        Action::LayerOff(LAYER_BT)
    } else if key == 1 {
        Action::BtConnectHost(1)
    } else if key == 2 {
        Action::BtConnectHost(2)
    } else if key == 3 {
        Action::BtConnectHost(3)
    } else if key == 4 {
        Action::BtConnectHost(4)
    } else if key == 5 {
        Action::Transparent
    } else if key == 6 {
        Action::Transparent
    } else if key == 7 {
        Action::Transparent
    } else if key == 8 {
        Action::Transparent
    } else if key == 9 {
        Action::Transparent
    } else if key == 10 {
        Action::BtToggleLegacyMode
    } else if key == 11 {
        Action::BtOff
    } else if key == 12 {
        Action::BtBroadcast
    } else if key == 13 {
        Action::BtOn
    } else if key == 14 {
        Action::Transparent
    } else if key == 15 {
        Action::BtSaveHost(1)
    } else if key == 16 {
        Action::BtSaveHost(2)
    } else if key == 17 {
        Action::BtSaveHost(3)
    } else if key == 18 {
        Action::BtSaveHost(4)
    } else if key == 19 {
        Action::Transparent
    } else if key == 20 {
        Action::Transparent
    } else if key == 21 {
        Action::Transparent
    } else if key == 22 {
        Action::Transparent
    } else if key == 23 {
        Action::Transparent
    } else if key == 24 {
        Action::Transparent
    } else if key == 25 {
        Action::Transparent
    } else if key == 26 {
        Action::Transparent
    } else if key == 27 {
        Action::Transparent
    } else if key == 28 {
        Action::Transparent
    } else if key == 29 {
        Action::BtDeleteHost(1)
    } else if key == 30 {
        Action::BtDeleteHost(2)
    } else if key == 31 {
        Action::BtDeleteHost(3)
    } else if key == 32 {
        Action::BtDeleteHost(4)
    } else if key == 33 {
        Action::Transparent
    } else if key == 34 {
        Action::Transparent
    } else if key == 35 {
        Action::Transparent
    } else if key == 36 {
        Action::Transparent
    } else if key == 37 {
        Action::Transparent
    } else if key == 38 {
        Action::Transparent
    } else if key == 39 {
        Action::Transparent
    } else if key == 40 {
        Action::Key(KeyCode::No)
    } else if key == 41 {
        Action::Transparent
    } else if key == 42 {
        Action::Transparent
    } else if key == 43 {
        Action::Transparent
    } else if key == 44 {
        Action::Transparent
    } else if key == 45 {
        Action::Transparent
    } else if key == 46 {
        Action::Transparent
    } else if key == 47 {
        Action::LayerOff(LAYER_BT)
    } else if key == 48 {
        Action::Transparent
    } else if key == 49 {
        Action::Transparent
    } else if key == 50 {
        Action::Transparent
    } else if key == 51 {
        Action::Transparent
    } else if key == 52 {
        Action::Transparent
    } else if key == 53 {
        Action::Transparent
    } else if key == 54 {
        Action::Transparent
    } else if key == 55 {
        Action::Transparent
    } else if key == 56 {
        Action::BtHostListQuery
    } else if key == 57 {
        Action::Transparent
    } else if key == 58 {
        Action::Transparent
    } else if key == 59 {
        Action::Key(KeyCode::No)
    } else if key == 60 {
        Action::Key(KeyCode::No)
    } else if key == 61 {
        Action::Transparent
    } else if key == 62 {
        Action::Key(KeyCode::No)
    } else if key == 63 {
        Action::Key(KeyCode::No)
    } else if key == 64 {
        Action::Key(KeyCode::No)
    } else if key == 65 {
        Action::Key(KeyCode::No)
    } else if key == 66 {
        Action::Transparent
    } else if key == 67 {
        Action::Transparent
    } else if key == 68 {
        Action::Transparent
    } else if key == 69 {
        Action::Transparent
    } else {
        Action::Nop
    }
}

pub fn bt_action(key: u8) -> (a: Action)
    ensures
        a == spec_bt_action(key as int),
        action_wf(a),
{
    match key {
        0 => Action::LayerOff(LAYER_BT),
        1 => Action::BtConnectHost(1),
        2 => Action::BtConnectHost(2),
        3 => Action::BtConnectHost(3),
        4 => Action::BtConnectHost(4),
        5 => Action::Transparent,
        6 => Action::Transparent,
        7 => Action::Transparent,
        8 => Action::Transparent,
        9 => Action::Transparent,
        10 => Action::BtToggleLegacyMode,
        11 => Action::BtOff,
        12 => Action::BtBroadcast,
        13 => Action::BtOn,
        14 => Action::Transparent,
        15 => Action::BtSaveHost(1),
        16 => Action::BtSaveHost(2),
        17 => Action::BtSaveHost(3),
        18 => Action::BtSaveHost(4),
        19 => Action::Transparent,
        20 => Action::Transparent,
        21 => Action::Transparent,
        22 => Action::Transparent,
        23 => Action::Transparent,
        24 => Action::Transparent,
        25 => Action::Transparent,
        26 => Action::Transparent,
        27 => Action::Transparent,
        28 => Action::Transparent,
        29 => Action::BtDeleteHost(1),
        30 => Action::BtDeleteHost(2),
        31 => Action::BtDeleteHost(3),
        32 => Action::BtDeleteHost(4),
        33 => Action::Transparent,
        34 => Action::Transparent,
        35 => Action::Transparent,
        36 => Action::Transparent,
        37 => Action::Transparent,
        38 => Action::Transparent,
        39 => Action::Transparent,
        40 => Action::Key(KeyCode::No),
        41 => Action::Transparent,
        42 => Action::Transparent,
        43 => Action::Transparent,
        44 => Action::Transparent,
        45 => Action::Transparent,
        46 => Action::Transparent,
        47 => Action::LayerOff(LAYER_BT),
        48 => Action::Transparent,
        49 => Action::Transparent,
        50 => Action::Transparent,
        51 => Action::Transparent,
        52 => Action::Transparent,
        53 => Action::Transparent,
        54 => Action::Transparent,
        55 => Action::Transparent,
        56 => Action::BtHostListQuery,
        57 => Action::Transparent,
        58 => Action::Transparent,
        59 => Action::Key(KeyCode::No),
        60 => Action::Key(KeyCode::No),
        61 => Action::Transparent,
        62 => Action::Key(KeyCode::No),
        63 => Action::Key(KeyCode::No),
        64 => Action::Key(KeyCode::No),
        65 => Action::Key(KeyCode::No),
        66 => Action::Transparent,
        67 => Action::Transparent,
        68 => Action::Transparent,
        69 => Action::Transparent,
        _ => Action::Nop,
    }
}

/// The layer table: the cell of layout `layer` at position `key`.
pub open spec fn spec_layout_action(layer: int, key: int) -> Action {
    if layer == 0 {
        spec_base_action(key)
    } else if layer == 1 {
        spec_fn_action(key)
    } else if layer == 2 {
        spec_fn2_action(key)
    } else if layer == 3 {
        spec_bt_action(key)
    } else {
        Action::Nop
    }
}

pub fn layout_action(layer: u8, key: u8) -> (a: Action)
    requires
        layer < NUM_LAYERS,
    ensures
        a == spec_layout_action(layer as int, key as int),
        action_wf(a),
{
    match layer {
        0 => base_action(key),
        1 => fn_action(key),
        2 => fn2_action(key),
        _ => bt_action(key),
    }
}

} // verus!
