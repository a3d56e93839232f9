//! The application's event loop decisions: what a hotkey or a tray menu
//! choice leads to, and what becomes of a finished transcription.

use vstd::prelude::*;
use crate::ai_shortcuts::ShortcutAction;
use crate::hotkey::HotkeyEvent;
use crate::tray::TrayItem;
use crate::text::{is_blank, trim_seq};

verus! {

/// What the application does next.
#[derive(Debug, Clone, Copy, PartialEq, Eq, Structural)]
pub enum AppAction {
    Nothing,
    StartRecording,
    StopAndTranscribe,
    RunShortcut(ShortcutAction),
    OpenSettings,
    Quit,
}

/// The application's control state.
#[derive(Debug, Clone, Copy, PartialEq, Eq)]
pub struct AppState {
    /// A recording is under way.
    pub is_recording: bool,
    /// The event loop keeps going.
    pub running: bool,
}

/// The action for a hotkey event in a state.
pub open spec fn hotkey_action_spec(s: AppState, e: HotkeyEvent) -> AppAction {
    match e {
        HotkeyEvent::RecordPressed => if !s.is_recording {
            AppAction::StartRecording
        } else {
            AppAction::Nothing
        },
        HotkeyEvent::RecordReleased => if s.is_recording {
            AppAction::StopAndTranscribe
        } else {
            AppAction::Nothing
        },
        HotkeyEvent::ShortcutPressed => AppAction::RunShortcut(ShortcutAction::FixGrammar),
        HotkeyEvent::ShortcutReleased => AppAction::Nothing,
    }
}

impl AppState {
    /// Not recording, running.
    pub fn new() -> (s: AppState)
        ensures
            !s.is_recording,
            s.running,
    {
        AppState { is_recording: false, running: true }
    }

    /// The reaction to a hotkey: pressing the record hotkey starts a
    /// recording when none is under way, releasing it stops the recording
    /// under way and transcribes it; the shortcut hotkey runs "Fix Grammar".
    /// Stopping clears the recording flag at once; starting sets it only once
    /// the recording has started (see [`AppState::recording_started`]).
    pub fn handle_hotkey_event(&mut self, event: HotkeyEvent) -> (a: AppAction)
        ensures
            a == hotkey_action_spec(*old(self), event),
            final(self).running == old(self).running,
            final(self).is_recording == (old(self).is_recording && a != AppAction::StopAndTranscribe),
    {
        match event {
            HotkeyEvent::RecordPressed => {
                if !self.is_recording {
                    AppAction::StartRecording
                } else {
                    AppAction::Nothing
                }
            },
            HotkeyEvent::RecordReleased => {
                if self.is_recording {
                    self.is_recording = false;
                    AppAction::StopAndTranscribe
                } else {
                    AppAction::Nothing
                }
            },
            HotkeyEvent::ShortcutPressed => AppAction::RunShortcut(ShortcutAction::FixGrammar),
            HotkeyEvent::ShortcutReleased => AppAction::Nothing,
        }
    }

    /// Records that a recording has started.
    pub fn recording_started(&mut self)
        ensures
            final(self).is_recording,
            final(self).running == old(self).running,
    {
        self.is_recording = true;
    }

    /// The reaction to a tray menu choice: Quit ends the loop, Settings
    /// opens the configuration file.
    pub fn handle_menu(&mut self, item: TrayItem) -> (a: AppAction)
        ensures
            item == TrayItem::Quit ==> a == AppAction::Quit && !final(self).running,
            item == TrayItem::Settings ==> a == AppAction::OpenSettings && final(self).running
                == old(self).running,
            final(self).is_recording == old(self).is_recording,
    {
        match item {
            TrayItem::Quit => {
                self.running = false;
                AppAction::Quit
            },
            TrayItem::Settings => AppAction::OpenSettings,
        }
    }
}

/// The text to type after a transcription: none when it failed or came back
/// blank.
pub fn text_to_type(result: Result<String, String>) -> (r: Option<String>)
    ensures
        match result {
            Ok(t) => if trim_seq(t@).len() == 0 {
                r is None
            } else {
                r == Some(t)
            },
            Err(_) => r is None,
        },
{
    match result {
        Ok(t) => {
            if is_blank(t.as_str()) {
                None
            } else {
                Some(t)
            }
        },
        Err(_) => None,
    }
}

} // verus!
