use ottex::config::Config;

#[test]
fn test_default_config_values() {
    let config = Config::default();
    assert_eq!(config.transcription.provider, "embedded");
    assert_eq!(config.transcription.local_url, "http://localhost:1234/v1");
    assert_eq!(config.transcription.language, "en-US");
    assert_eq!(config.hotkeys.record, "Alt+Space");
    assert_eq!(config.hotkeys.ai_shortcut, "Ctrl+Shift+R");
    assert_eq!(config.ai_shortcuts.provider, "lmstudio");
    assert_eq!(config.ai_shortcuts.model, "qwen3-8b");
}

#[test]
fn test_validation_default_no_warnings_for_local() {
    let config = Config::default();
    let warnings = config.validate();
    // Default config uses local providers: no API key warnings
    assert!(!warnings.iter().any(|w| w.contains("No API key")));
}

#[test]
fn test_validation_cloud_warns_about_keys() {
    let mut config = Config::default();
    config.transcription.provider = "openai".to_string();
    config.ai_shortcuts.provider = "openai".to_string();
    let warnings = config.validate();
    assert!(warnings.iter().any(|w| w.contains("No API key")));
}

#[test]
fn test_validation_invalid_provider() {
    let mut config = Config::default();
    config.transcription.provider = "invalid".to_string();
    let warnings = config.validate();
    assert!(warnings
        .iter()
        .any(|w| w.contains("Unknown transcription provider")));
}

#[test]
fn test_get_transcription_api_key() {
    let mut config = Config::default();
    // the default provider is local: no key needed
    assert!(config.get_transcription_api_key().is_none());

    // Switch to openai provider
    config.transcription.provider = "openai".to_string();
    assert!(config.get_transcription_api_key().is_none());

    config.transcription.openai_api_key = "sk-test".to_string();
    assert_eq!(config.get_transcription_api_key(), Some("sk-test"));
}

#[test]
fn test_get_ai_shortcut_api_key_fallback() {
    let mut config = Config::default();
    // Switch to openai to test key resolution
    config.ai_shortcuts.provider = "openai".to_string();
    config.transcription.openai_api_key = "sk-shared".to_string();
    // Should fall back to transcription key
    assert_eq!(config.get_ai_shortcut_api_key(), Some("sk-shared"));

    // Dedicated key takes priority
    config.ai_shortcuts.api_key = "sk-dedicated".to_string();
    assert_eq!(config.get_ai_shortcut_api_key(), Some("sk-dedicated"));
}

use ottex::config::{
    config_dir_from, default_model_cache_dir, join_path, model_cache_dir_from, AiShortcutConfig, HotkeyConfig,
    LocalModelConfig, QuantizationMode, TranscriptionConfig, TranscriptionStrategy,
};

#[test]
fn validation_messages() {
    let mut config = Config::default();
    config.transcription.provider = "invalid".to_string();
    config.ai_shortcuts.provider = "bogus".to_string();
    let warnings = config.validate();
    assert_eq!(
        warnings,
        vec![
            "Unknown transcription provider 'invalid', expected one of [\"embedded\", \"lmstudio\", \"google\", \"openai\", \"openrouter\"]".to_string(),
            "Unknown AI shortcuts provider 'bogus', expected one of [\"lmstudio\", \"openai\", \"openrouter\"]".to_string(),
            "No API key configured for transcription provider 'invalid'".to_string(),
            "No API key configured for AI shortcuts provider 'bogus'".to_string(),
        ]
    );
}

#[test]
fn validation_default_is_clean() {
    assert!(Config::default().validate().is_empty());
}

#[test]
fn validation_with_keys_is_clean() {
    let mut config = Config::default();
    config.transcription.provider = "google".to_string();
    config.transcription.google_api_key = "g".to_string();
    config.ai_shortcuts.provider = "openrouter".to_string();
    config.transcription.openrouter_api_key = "r".to_string();
    assert!(config.validate().is_empty());
    config.transcription.google_api_key = String::new();
    assert_eq!(
        config.validate(),
        vec!["No API key configured for transcription provider 'google'".to_string()]
    );
}

#[test]
fn transcription_keys_per_provider() {
    let mut config = Config::default();
    config.transcription.google_api_key = "g".to_string();
    config.transcription.openai_api_key = "o".to_string();
    config.transcription.openrouter_api_key = "r".to_string();
    for (p, k) in [("google", Some("g")), ("openai", Some("o")), ("openrouter", Some("r")), ("lmstudio", None), ("embedded", None), ("other", None)] {
        config.transcription.provider = p.to_string();
        assert_eq!(config.get_transcription_api_key(), k);
    }
}

#[test]
fn ai_keys_per_provider() {
    let mut config = Config::default();
    config.transcription.openrouter_api_key = "r".to_string();
    config.ai_shortcuts.provider = "openrouter".to_string();
    assert_eq!(config.get_ai_shortcut_api_key(), Some("r"));
    config.ai_shortcuts.provider = "lmstudio".to_string();
    assert_eq!(config.get_ai_shortcut_api_key(), None);
    config.ai_shortcuts.provider = "openai".to_string();
    assert_eq!(config.get_ai_shortcut_api_key(), None);
}

#[test]
fn default_parts() {
    assert_eq!(TranscriptionStrategy::default(), TranscriptionStrategy::EmbeddedFirst);
    assert_eq!(QuantizationMode::default(), QuantizationMode::F32);
    let m = LocalModelConfig::default();
    assert_eq!(m.repo_id, "openai/whisper-large-v3-turbo");
    assert_eq!(m.revision, "main");
    assert_eq!(m.temperature_bits, 0);
    assert!(m.model_cache_dir.ends_with("models"));
    let t = TranscriptionConfig::default();
    assert_eq!(t.local_model, "qwen3-asr-1.7b");
    assert!(t.google_api_key.is_empty());
    let h = HotkeyConfig::default();
    assert_eq!(h.record, "Alt+Space");
    let a = AiShortcutConfig::default();
    assert_eq!(a.local_url, "http://localhost:1234/v1");
    assert!(a.api_key.is_empty());
}

#[test]
fn paths() {
    assert_eq!(join_path("/home/u/.config/ottex", "config.toml"), "/home/u/.config/ottex/config.toml");
    assert_eq!(join_path("/tmp/", "models"), "/tmp/models");
    assert_eq!(join_path("", "models"), "models");
    assert_eq!(model_cache_dir_from(None), "~/.cache/ottex/models");
    assert_eq!(model_cache_dir_from(Some("/c/ottex".to_string())), "/c/ottex/models");
    let d = default_model_cache_dir();
    assert!(d.ends_with("/models"));
    if let Ok(p) = Config::config_path() {
        assert!(p.ends_with("/config.toml"));
    }
}

#[test]
fn config_dir_choice() {
    assert_eq!(config_dir_from(Some("/home/u/.config/ottex".to_string())), Ok("/home/u/.config/ottex".to_string()));
    assert_eq!(config_dir_from(None), Err("Failed to get project directories".to_string()));
}

#[test]
fn directory_names() {
    assert_eq!(ottex::config::project_names(), ("com", "ottex", "Ottex"));
}
