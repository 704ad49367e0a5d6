use linglisten::config::{
    default_model_config, default_transcript_config, model_config_from_setting,
    transcript_config_from_setting, StoredModelSetting, StoredTranscriptSetting,
};
use linglisten::desktop::{
    folder_to_open, get_notification_settings, load_onboarding_status, opener_program, Platform,
};
use linglisten::engines::{ParallelProcessor, ModelMetadataCache, ParakeetEngine, WhisperEngine, DEFAULT_CONTEXT_SIZE};
use std::time::Duration;

fn s(x: &str) -> String {
    x.to_string()
}

#[test]
fn default_transcript_settings() {
    let c = default_transcript_config();
    assert_eq!(c.provider, "openaiCompatible");
    assert_eq!(c.model, "qwen3-asr-1.7b");
    assert_eq!(c.language, Some(s("zh")));
    assert_eq!(c.endpoint, Some(s("http://127.0.0.1:8765")));
    assert_eq!(c.api_key, None);
    assert_eq!(c.openai_compatible_endpoint, Some(s("http://127.0.0.1:8765")));
    assert_eq!(c.openai_compatible_api_key, None);
    let d = transcript_config_from_setting(&None);
    assert_eq!(d.provider, c.provider);
    assert_eq!(d.endpoint, c.endpoint);
}

#[test]
fn stored_transcript_settings() {
    let stored = StoredTranscriptSetting {
        provider: s("openaiCompatible"),
        model: s("whisper-1"),
        openai_compatible_endpoint: Some(s("http://10.0.0.2:9000")),
        openai_compatible_api_key: Some(s("k")),
    };
    let c = transcript_config_from_setting(&Some(stored));
    assert_eq!(c.model, "whisper-1");
    assert_eq!(c.language, Some(s("zh")));
    assert_eq!(c.endpoint, Some(s("http://10.0.0.2:9000")));
    assert_eq!(c.openai_compatible_endpoint, Some(s("http://10.0.0.2:9000")));
    assert_eq!(c.api_key, None);
    assert_eq!(c.openai_compatible_api_key, Some(s("k")));
}

#[test]
fn model_settings() {
    let d = default_model_config();
    assert_eq!((d.provider.as_str(), d.model.as_str()), ("qwen3-asr", "qwen3-asr-1.7b"));
    let c = model_config_from_setting(&Some(StoredModelSetting { provider: s("ollama"), model: s("llama3") }));
    assert_eq!((c.provider.as_str(), c.model.as_str()), ("ollama", "llama3"));
    let c = model_config_from_setting(&None);
    assert_eq!(c.provider, "qwen3-asr");
}

#[test]
fn notifications_and_onboarding() {
    let n = get_notification_settings();
    assert!(n.recording_notifications && n.time_based_reminders && n.meeting_reminders);
    assert!(n.respect_do_not_disturb && n.notification_sound);
    assert!(!n.system_permission_granted);
    let o = load_onboarding_status();
    assert!(o.completed);
    assert!(o.step.is_none());
}

#[test]
fn opening_folders() {
    assert_eq!(opener_program(Platform::MacOs), Some(s("open")));
    assert_eq!(opener_program(Platform::Windows), Some(s("explorer")));
    assert_eq!(opener_program(Platform::Linux), Some(s("xdg-open")));
    assert_eq!(opener_program(Platform::Other), None);
    assert_eq!(folder_to_open(&Some(Some(s("/tmp/m")))), Some(s("/tmp/m")));
    assert_eq!(folder_to_open(&Some(None)), None);
    assert_eq!(folder_to_open(&None), None);
}

#[test]
fn disabled_engines() {
    let p = ParakeetEngine::new();
    assert!(p.get_current_model().is_none());
    assert!(p.unload_model());
    assert_eq!(p.is_model_loaded(), Ok(false));
    assert_eq!(p.load_model("tdt"), Ok(false));
    let w = WhisperEngine::new();
    assert!(w.get_current_model().is_none());
    assert!(w.unload_model());
    assert_eq!(w.is_model_loaded(), Ok(false));
    assert_eq!(w.load_model("large-v3"), Ok(false));
}

#[test]
fn metadata_cache() {
    let c = ModelMetadataCache::new(Duration::from_secs(300));
    assert!(c.get_model_info("m").is_none());
    assert_eq!(c.get_or_fetch("m", None).unwrap().context_size, DEFAULT_CONTEXT_SIZE);
    assert_eq!(DEFAULT_CONTEXT_SIZE, 4096);
    assert!(c.refresh("http://x").is_ok());
}

#[test]
fn parallel_processor_is_a_plain_marker() {
    let p = ParallelProcessor;
    let q = p;
    let _ = (p, q);
}
