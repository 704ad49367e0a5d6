//! The local speech engines, which are switched off in favour of the
//! qwen3-asr bridge, and the metadata cache of language models.
use vstd::prelude::*;

use crate::json::JsonValue;

verus! {

/// The local Parakeet engine; it holds no model and loads none.
#[derive(Debug, Clone, Copy)]
pub struct ParakeetEngine;

impl ParakeetEngine {
    pub fn new() -> (e: Self) {
        ParakeetEngine
    }

    /// No model is current.
    pub fn get_current_model(&self) -> (r: Option<String>)
        ensures
            r is None,
    {
        None
    }

    /// Unloading always succeeds, there being nothing loaded.
    pub fn unload_model(&self) -> (r: bool)
        ensures
            r,
    {
        true
    }

    /// No model is loaded.
    pub fn is_model_loaded(&self) -> (r: Result<bool, String>)
        ensures
            r matches Ok(loaded) && !loaded,
    {
        Ok(false)
    }

    /// Loading is declined: no model gets loaded.
    pub fn load_model(&self, _model: &str) -> (r: Result<bool, String>)
        ensures
            r matches Ok(loaded) && !loaded,
    {
        Ok(false)
    }
}

/// The local Whisper engine; it holds no model and loads none.
#[derive(Debug, Clone, Copy)]
pub struct WhisperEngine;

impl WhisperEngine {
    pub fn new() -> (e: Self) {
        WhisperEngine
    }

    /// No model is current.
    pub fn get_current_model(&self) -> (r: Option<String>)
        ensures
            r is None,
    {
        None
    }

    /// Unloading always succeeds, there being nothing loaded.
    pub fn unload_model(&self) -> (r: bool)
        ensures
            r,
    {
        true
    }

    /// No model is loaded.
    pub fn is_model_loaded(&self) -> (r: Result<bool, String>)
        ensures
            r matches Ok(loaded) && !loaded,
    {
        Ok(false)
    }

    /// Loading is declined: no model gets loaded.
    pub fn load_model(&self, _model: &str) -> (r: Result<bool, String>)
        ensures
            r matches Ok(loaded) && !loaded,
    {
        Ok(false)
    }
}

/// The parallel transcription processor, which is switched off; it holds nothing.
#[derive(Debug, Clone, Copy)]
pub struct ParallelProcessor;

/// The context size reported for every model.
pub const DEFAULT_CONTEXT_SIZE: usize = 4096;

/// Metadata of a language model.
#[derive(Debug, Clone, Copy)]
pub struct ModelMetadata {
    pub context_size: usize,
}

/// A cache of language-model metadata that fetches nothing: every model
/// gets the default context size.
pub struct ModelMetadataCache {
    _ttl: std::time::Duration,
}

impl ModelMetadataCache {
    /// How long entries would live.
    pub closed spec fn ttl(&self) -> std::time::Duration {
        self._ttl
    }

    /// A cache whose entries would live for `ttl`.
    pub fn new(ttl: std::time::Duration) -> (c: Self)
        ensures
            c.ttl() == ttl,
    {
        ModelMetadataCache { _ttl: ttl }
    }

    /// Cached information on `model`: none is kept.
    pub fn get_model_info(&self, _model: &str) -> (r: Option<JsonValue>)
        ensures
            r is None,
    {
        None
    }

    /// The metadata of `model`: the default context size.
    pub fn get_or_fetch(&self, _model: &str, _endpoint: Option<&str>) -> (r: Result<
        ModelMetadata,
        String,
    >)
        ensures
            r matches Ok(m) && m.context_size == DEFAULT_CONTEXT_SIZE,
    {
        Ok(ModelMetadata { context_size: DEFAULT_CONTEXT_SIZE })
    }

    /// Refreshing from `_url` has nothing to do.
    pub fn refresh(&self, _url: &str) -> (r: Result<(), String>)
        ensures
            r is Ok,
    {
        Ok(())
    }
}

} // verus!
