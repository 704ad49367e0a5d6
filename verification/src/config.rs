//! Transcription and model settings, with the defaults that stand in when
//! nothing is stored, and the records that the frontend exchanges.
use vstd::prelude::*;

verus! {

/// Transcript configuration used by the audio pipeline.
#[derive(Debug, Clone)]
pub struct TranscriptConfig {
    pub provider: String,
    pub model: String,
    pub language: Option<String>,
    pub endpoint: Option<String>,
    pub api_key: Option<String>,
    pub openai_compatible_endpoint: Option<String>,
    pub openai_compatible_api_key: Option<String>,
}

/// Model configuration used by the audio pipeline.
#[derive(Debug, Clone)]
pub struct ModelConfig {
    pub provider: String,
    pub model: String,
}

/// One hit of a transcript search.
#[derive(Debug, Clone)]
pub struct TranscriptSearchResult {
    pub id: String,
    pub title: String,
    pub match_context: String,
    pub timestamp: String,
}

/// The answer to saving a meeting: the identifier it was stored under.
#[derive(Debug, Clone)]
pub struct SaveMeetingResponse {
    pub meeting_id: String,
}

/// The transcript setting as the settings store holds it.
#[derive(Debug)]
pub struct StoredTranscriptSetting {
    pub provider: String,
    pub model: String,
    pub openai_compatible_endpoint: Option<String>,
    pub openai_compatible_api_key: Option<String>,
}

/// The model setting as the settings store holds it.
#[derive(Debug)]
pub struct StoredModelSetting {
    pub provider: String,
    pub model: String,
}

/// The view of an optional string.
pub open spec fn opt_view(o: Option<String>) -> Option<Seq<char>> {
    match o {
        Some(s) => Some(s@),
        None => None,
    }
}

/// The local qwen3-asr server's address.
pub open spec fn local_asr_endpoint() -> Seq<char> {
    "http://127.0.0.1:8765"@
}

/// The transcript configuration that stands when none is stored: the local
/// qwen3-asr server through its OpenAI-compatible API, in Chinese.
pub open spec fn is_default_transcript_config(c: TranscriptConfig) -> bool {
    &&& c.provider@ == "openaiCompatible"@
    &&& c.model@ == "qwen3-asr-1.7b"@
    &&& opt_view(c.language) == Some("zh"@)
    &&& opt_view(c.endpoint) == Some(local_asr_endpoint())
    &&& c.api_key is None
    &&& opt_view(c.openai_compatible_endpoint) == Some(local_asr_endpoint())
    &&& c.openai_compatible_api_key is None
}

/// The model configuration that stands when none is stored.
pub open spec fn is_default_model_config(c: ModelConfig) -> bool {
    &&& c.provider@ == "qwen3-asr"@
    &&& c.model@ == "qwen3-asr-1.7b"@
}

fn some_string(s: &str) -> (r: Option<String>)
    ensures
        opt_view(r) == Some(s@),
{
    Some(String::from_str(s))
}

fn clone_opt(o: &Option<String>) -> (r: Option<String>)
    ensures
        opt_view(r) == opt_view(*o),
{
    match o {
        Some(s) => Some(s.clone()),
        None => None,
    }
}

/// The default transcript configuration (qwen3-asr on the local server).
pub fn default_transcript_config() -> (c: TranscriptConfig)
    ensures
        is_default_transcript_config(c),
{
    TranscriptConfig {
        provider: String::from_str("openaiCompatible"),
        model: String::from_str("qwen3-asr-1.7b"),
        language: some_string("zh"),
        endpoint: some_string("http://127.0.0.1:8765"),
        api_key: None,
        openai_compatible_endpoint: some_string("http://127.0.0.1:8765"),
        openai_compatible_api_key: None,
    }
}

/// The transcript configuration to hand out: the stored setting if there is
/// one (its endpoint serves as both endpoints, the language is Chinese, and
/// no general API key is given), else the default.
pub fn transcript_config_from_setting(stored: &Option<StoredTranscriptSetting>) -> (c:
    TranscriptConfig)
    ensures
        stored is None ==> is_default_transcript_config(c),
        stored matches Some(s) ==> {
            &&& c.provider@ == s.provider@
            &&& c.model@ == s.model@
            &&& opt_view(c.language) == Some("zh"@)
            &&& opt_view(c.endpoint) == opt_view(s.openai_compatible_endpoint)
            &&& c.api_key is None
            &&& opt_view(c.openai_compatible_endpoint) == opt_view(s.openai_compatible_endpoint)
            &&& opt_view(c.openai_compatible_api_key) == opt_view(s.openai_compatible_api_key)
        },
{
    match stored {
        Some(s) => TranscriptConfig {
            provider: s.provider.clone(),
            model: s.model.clone(),
            language: some_string("zh"),
            endpoint: clone_opt(&s.openai_compatible_endpoint),
            api_key: None,
            openai_compatible_endpoint: clone_opt(&s.openai_compatible_endpoint),
            openai_compatible_api_key: clone_opt(&s.openai_compatible_api_key),
        },
        None => default_transcript_config(),
    }
}

/// The default model configuration.
pub fn default_model_config() -> (c: ModelConfig)
    ensures
        is_default_model_config(c),
{
    ModelConfig { provider: String::from_str("qwen3-asr"), model: String::from_str("qwen3-asr-1.7b") }
}

/// The model configuration to hand out: the stored setting if there is one,
/// else the default.
pub fn model_config_from_setting(stored: &Option<StoredModelSetting>) -> (c: ModelConfig)
    ensures
        stored is None ==> is_default_model_config(c),
        stored matches Some(s) ==> c.provider@ == s.provider@ && c.model@ == s.model@,
{
    match stored {
        Some(s) => ModelConfig { provider: s.provider.clone(), model: s.model.clone() },
        None => default_model_config(),
    }
}

} // verus!
