//! The verified core of the LingListen meeting recorder: WAV encoding of the
//! audio that is sent for transcription, the requests to and replies from
//! OpenAI-compatible and qwen3-asr servers, the lifecycle decisions of the
//! local ASR server, and the settings that the frontend reads and writes.
use vstd::prelude::*;

pub mod asr;
pub mod config;
pub mod desktop;
pub mod engines;
pub mod json;
pub mod openai;
pub mod permissions;
pub mod text;
pub mod wav;
