//! What a key does: every layout cell holds one `Action`.

use vstd::prelude::*;
use crate::keycodes::KeyCode;

verus! {

/// One layout cell.  `Transparent` defers to the next active layer below;
/// `Reset` reboots the MCU (into DFU mode when Escape is also held).
#[derive(Copy, Clone, PartialEq, Eq, Structural, Debug)]
pub enum Action {
    Nop,
    Reset,
    Transparent,
    Key(KeyCode),
    LayerMomentary(u8),
    LayerToggle(u8),
    LayerOn(u8),
    LayerOff(u8),
    LedOn,
    LedOff,
    LedToggle,
    LedNextTheme,
    LedNextBrightness,
    LedNextAnimationSpeed,
    LedTheme(u8),
    BtOn,
    BtOff,
    BtSaveHost(u8),
    BtConnectHost(u8),
    BtDeleteHost(u8),
    BtBroadcast,
    BtLegacyMode(bool),
    BtToggleLegacyMode,
    BtHostListQuery,
}

/// Layer operations must name one of the eight layer bits.
pub open spec fn action_wf(a: Action) -> bool {
    match a {
        Action::LayerMomentary(l) => l < 8,
        Action::LayerToggle(l) => l < 8,
        Action::LayerOn(l) => l < 8,
        Action::LayerOff(l) => l < 8,
        _ => true,
    }
}

impl KeyCode {
    /// Lets layout tables list a bare key code where an action is expected.
    pub fn to_action(self) -> (a: Action)
        ensures
            a == Action::Key(self),
    {
        Action::Key(self)
    }
}

impl Action {
    /// Identity, the counterpart of `KeyCode::to_action`.
    pub fn to_action(self) -> (a: Action)
        ensures
            a == self,
    {
        self
    }
}

} // verus!
