//! Global hotkeys: which of the two registered hotkeys an event is about,
//! and whether it was pressed or released.

use vstd::prelude::*;

verus! {

/// Hotkey event types.
#[derive(Debug, Clone, Copy, PartialEq, Eq, Structural)]
pub enum HotkeyEvent {
    RecordPressed,
    RecordReleased,
    ShortcutPressed,
    ShortcutReleased,
}

/// The ids of the registered hotkeys: recording (Alt+Space) and AI
/// shortcuts (Ctrl+Shift+R).
#[derive(Debug, Clone, Copy, PartialEq, Eq)]
pub struct HotkeyIds {
    pub record_hotkey_id: u32,
    pub shortcut_hotkey_id: u32,
}

/// The event for a hotkey id and state.
pub open spec fn classify_spec(ids: HotkeyIds, id: u32, pressed: bool) -> Option<HotkeyEvent> {
    if id == ids.record_hotkey_id {
        Some(if pressed { HotkeyEvent::RecordPressed } else { HotkeyEvent::RecordReleased })
    } else if id == ids.shortcut_hotkey_id {
        Some(if pressed { HotkeyEvent::ShortcutPressed } else { HotkeyEvent::ShortcutReleased })
    } else {
        None
    }
}

impl HotkeyIds {
    /// The event that a raw hotkey event (`id`, pressed or released) means;
    /// `None` for a hotkey that is not ours.
    pub fn classify(&self, id: u32, pressed: bool) -> (r: Option<HotkeyEvent>)
        ensures
            r == classify_spec(*self, id, pressed),
    {
        if id == self.record_hotkey_id {
            Some(if pressed { HotkeyEvent::RecordPressed } else { HotkeyEvent::RecordReleased })
        } else if id == self.shortcut_hotkey_id {
            Some(if pressed { HotkeyEvent::ShortcutPressed } else { HotkeyEvent::ShortcutReleased })
        } else {
            None
        }
    }
}

} // verus!
