use ottex::ai_shortcuts::ShortcutAction;
use ottex::control::{text_to_type, AppAction, AppState};
use ottex::hotkey::{HotkeyEvent, HotkeyIds};
use ottex::tray::{icon_rgba, pixel_on, TrayItem};
use ottex::{EngineConfig, OttexEngine, OttexError};
use ottex::audio::RecordedAudio;
use ottex::config::QuantizationMode;

#[test]
fn hotkey_classification() {
    let ids = HotkeyIds { record_hotkey_id: 7, shortcut_hotkey_id: 9 };
    assert_eq!(ids.classify(7, true), Some(HotkeyEvent::RecordPressed));
    assert_eq!(ids.classify(7, false), Some(HotkeyEvent::RecordReleased));
    assert_eq!(ids.classify(9, true), Some(HotkeyEvent::ShortcutPressed));
    assert_eq!(ids.classify(9, false), Some(HotkeyEvent::ShortcutReleased));
    assert_eq!(ids.classify(8, true), None);
}

#[test]
fn hotkey_actions() {
    let mut s = AppState::new();
    assert_eq!(s.handle_hotkey_event(HotkeyEvent::RecordReleased), AppAction::Nothing);
    assert_eq!(s.handle_hotkey_event(HotkeyEvent::RecordPressed), AppAction::StartRecording);
    s.recording_started();
    assert_eq!(s.handle_hotkey_event(HotkeyEvent::RecordPressed), AppAction::Nothing);
    assert_eq!(s.handle_hotkey_event(HotkeyEvent::RecordReleased), AppAction::StopAndTranscribe);
    assert!(!s.is_recording);
    assert_eq!(s.handle_hotkey_event(HotkeyEvent::ShortcutPressed), AppAction::RunShortcut(ShortcutAction::FixGrammar));
    assert_eq!(s.handle_hotkey_event(HotkeyEvent::ShortcutReleased), AppAction::Nothing);
}

#[test]
fn menu_actions() {
    let mut s = AppState::new();
    assert_eq!(s.handle_menu(TrayItem::Settings), AppAction::OpenSettings);
    assert!(s.running);
    assert_eq!(s.handle_menu(TrayItem::Quit), AppAction::Quit);
    assert!(!s.running);
}

#[test]
fn typing_decision() {
    assert_eq!(text_to_type(Ok("hi".to_string())), Some("hi".to_string()));
    assert_eq!(text_to_type(Ok(" \n".to_string())), None);
    assert_eq!(text_to_type(Err("failed".to_string())), None);
}

#[test]
fn icon() {
    let rgba = icon_rgba();
    assert_eq!(rgba.len(), 32 * 32 * 4);
    let px = |x: usize, y: usize| &rgba[(y * 32 + x) * 4..(y * 32 + x) * 4 + 4];
    assert_eq!(px(16, 12), &[255, 255, 255, 255]);
    assert_eq!(px(0, 0), &[0, 0, 0, 0]);
    assert_eq!(px(16, 26), &[255, 255, 255, 255]);
    assert_eq!(px(9, 29), &[255, 255, 255, 255]);
    assert_eq!(px(8, 29), &[0, 0, 0, 0]);
    // the ellipse's extreme points are inside
    assert!(pixel_on(16, 0));
    assert!(pixel_on(8, 12));
    assert!(pixel_on(24, 12));
    assert!(!pixel_on(25, 12));
}

fn engine() -> OttexEngine {
    OttexEngine::new(EngineConfig {
        whisper_repo_id: "openai/whisper-large-v3".to_string(),
        whisper_revision: "main".to_string(),
    })
}

#[test]
fn engine_recording() {
    let mut e = engine();
    assert_eq!(e.stop_recording(), Err(OttexError::RecordingFailed("No active recording".to_string())));
    assert_eq!(e.start_recording(), Ok(()));
    assert_eq!(e.stop_recording(), Ok(()));
}

#[test]
fn engine_recorded_audio() {
    assert_eq!(
        OttexEngine::recorded_audio(None).unwrap_err(),
        OttexError::RecordingFailed("Recording thread crashed".to_string())
    );
    let quiet = RecordedAudio { samples: vec![1; 2000], sample_rate: 16000, channels: 1 };
    assert!(OttexEngine::recorded_audio(Some(Ok(quiet))).unwrap().is_none());
    let loud = RecordedAudio { samples: vec![2000; 2000], sample_rate: 16000, channels: 1 };
    assert!(OttexEngine::recorded_audio(Some(Ok(loud))).unwrap().is_some());
}

#[test]
fn engine_model_and_text() {
    let e = engine();
    let c = e.whisper_model_config();
    assert_eq!(c.model_cache_dir, "~/.cache/ottex/models");
    assert_eq!(c.repo_id, "openai/whisper-large-v3");
    assert_eq!(c.revision, "main");
    assert_eq!(c.quantization, QuantizationMode::F32);
    assert_eq!(e.type_text("  ".to_string()), None);
    assert_eq!(e.type_text("Hi".to_string()), Some("Hi".to_string()));
    assert_eq!(
        OttexEngine::model_load_failed("no network").message(),
        "Setup failed: Whisper Error: no network"
    );
    assert_eq!(OttexError::GeneralError("x".to_string()).message(), "General error: x");
    assert_eq!(OttexError::InferenceFailed("y".to_string()).message(), "Inference failed: y");
    assert_eq!(OttexError::RecordingFailed("z".to_string()).message(), "Recording failed: z");
}
