//! The bridge to the local qwen3-asr server: its routes, what its replies
//! mean, and the decisions of starting it and waiting until it is ready.
use vstd::prelude::*;

use crate::json::{JsonValue, string_field};
use crate::text::{trim_ws, decimal, trim, decimal_string};

verus! {

// ---------------------------------------------------------------------------
// Client
// ---------------------------------------------------------------------------

/// The services of the ASR server.
#[derive(Debug, Clone, Copy, PartialEq, Eq, Structural)]
pub enum AsrRoute {
    Status,
    Load,
    Unload,
    Language,
    Transcriptions,
    Models,
}

pub open spec fn route_path(route: AsrRoute) -> Seq<char> {
    match route {
        AsrRoute::Status => "/v1/asr/status"@,
        AsrRoute::Load => "/v1/asr/load"@,
        AsrRoute::Unload => "/v1/asr/unload"@,
        AsrRoute::Language => "/v1/asr/language"@,
        AsrRoute::Transcriptions => "/v1/audio/transcriptions"@,
        AsrRoute::Models => "/v1/models"@,
    }
}

/// The URL of `route` on the ASR server at `base_url` (taken as it is).
pub fn asr_url(base_url: &str, route: AsrRoute) -> (url: String)
    ensures
        url@ == base_url@ + route_path(route),
{
    let mut url = String::from_str(base_url);
    match route {
        AsrRoute::Status => url.append("/v1/asr/status"),
        AsrRoute::Load => url.append("/v1/asr/load"),
        AsrRoute::Unload => url.append("/v1/asr/unload"),
        AsrRoute::Language => url.append("/v1/asr/language"),
        AsrRoute::Transcriptions => url.append("/v1/audio/transcriptions"),
        AsrRoute::Models => url.append("/v1/models"),
    }
    url
}

/// The model that the ASR server is asked to transcribe with.
pub fn asr_model_name() -> (name: String)
    ensures
        name@ == "qwen3-asr-1.7b"@,
{
    String::from_str("qwen3-asr-1.7b")
}

/// The JSON body that sets the default transcription language: `{"language": language}`.
pub fn language_request_body(language: &str) -> (body: JsonValue)
    ensures
        body matches JsonValue::Object(members) && members@.len() == 1 && members@[0].0@
            == "language"@ && (members@[0].1 matches JsonValue::String(l) && l@ == language@),
        string_field(body, "language"@) == Some(language@),
{
    let mut members: Vec<(String, JsonValue)> = Vec::new();
    members.push((String::from_str("language"), JsonValue::String(String::from_str(language))));
    JsonValue::Object(members)
}

/// The detail of a failed model load: the trimmed body and the status, or
/// the status alone when the body is blank.
pub open spec fn load_failure_detail(status: Seq<char>, body: Seq<char>) -> Seq<char> {
    if trim_ws(body).len() == 0 {
        "HTTP "@ + status + " (empty response body)"@
    } else {
        trim_ws(body) + " (HTTP "@ + status + ")"@
    }
}

/// The message of a non-2xx reply of the ASR server on `route`, given the
/// reply's status and body as text.
pub open spec fn asr_failure(route: AsrRoute, status: Seq<char>, body: Seq<char>) -> Seq<char> {
    match route {
        AsrRoute::Status => "ASR status request failed: "@ + status,
        AsrRoute::Load => "ASR load_model failed: "@ + load_failure_detail(status, body),
        AsrRoute::Unload => "ASR unload_model failed: "@ + body,
        AsrRoute::Language => "ASR set_language failed: "@ + body,
        AsrRoute::Transcriptions => "ASR transcribe failed: "@ + body,
        AsrRoute::Models => "ASR list_models failed: "@ + status,
    }
}

/// The message of a non-2xx reply of the ASR server on `route`.
pub fn asr_failure_message(route: AsrRoute, status: &str, body: &str) -> (m: String)
    ensures
        m@ == asr_failure(route, status@, body@),
{
    match route {
        AsrRoute::Status => {
            let mut m = String::from_str("ASR status request failed: ");
            m.append(status);
            m
        },
        AsrRoute::Load => {
            let trimmed = trim(body);
            let mut m = String::from_str("ASR load_model failed: ");
            if trimmed.as_str().unicode_len() == 0 {
                m.append("HTTP ");
                m.append(status);
                m.append(" (empty response body)");
            } else {
                m.append(trimmed.as_str());
                m.append(" (HTTP ");
                m.append(status);
                m.append(")");
            }
            m
        },
        AsrRoute::Unload => {
            let mut m = String::from_str("ASR unload_model failed: ");
            m.append(body);
            m
        },
        AsrRoute::Language => {
            let mut m = String::from_str("ASR set_language failed: ");
            m.append(body);
            m
        },
        AsrRoute::Transcriptions => {
            let mut m = String::from_str("ASR transcribe failed: ");
            m.append(body);
            m
        },
        AsrRoute::Models => {
            let mut m = String::from_str("ASR list_models failed: ");
            m.append(status);
            m
        },
    }
}

/// The transcribed text of a reply of the ASR server: its string `text`
/// member, or an error if there is none.
pub fn asr_transcript_text(body: &JsonValue) -> (r: Result<String, String>)
    ensures
        string_field(*body, "text"@) matches Some(t) ==> (r matches Ok(s) && s@ == t),
        string_field(*body, "text"@) is None ==> (r matches Err(m) && m@
            == "Missing 'text' field in ASR response"@),
{
    match crate::json::get_string(body, "text") {
        Some(t) => Ok(t),
        None => Err(String::from_str("Missing 'text' field in ASR response")),
    }
}

// ---------------------------------------------------------------------------
// Server process
// ---------------------------------------------------------------------------

/// The port that the local ASR server listens on.
pub const ASR_PORT: u16 = 8765;

/// How long to wait for a stopping server before killing it, in seconds.
pub const STOP_GRACE_SECS: u64 = 5;

/// How long the server gets to become ready after it is spawned, in seconds.
pub const READY_TIMEOUT_SECS: u64 = 60;

/// The pause between two readiness probes, in milliseconds.
pub const PROBE_INTERVAL_MILLIS: u64 = 500;

/// How long one readiness probe may take, in seconds.
pub const PROBE_TIMEOUT_SECS: u64 = 2;

/// The base URL of a server on this machine at `port`.
pub open spec fn local_base_url(port: u16) -> Seq<char> {
    "http://127.0.0.1:"@ + decimal(port as nat)
}

/// The base URL of the ASR server on this machine at `port`.
pub fn local_base_url_of(port: u16) -> (url: String)
    ensures
        url@ == local_base_url(port),
{
    let mut url = String::from_str("http://127.0.0.1:");
    let p = decimal_string(port as u64);
    url.append(p.as_str());
    url
}

/// The URL that tells whether the ASR server at `port` is up.
pub fn status_probe_url(port: u16) -> (url: String)
    ensures
        url@ == local_base_url(port) + route_path(AsrRoute::Status),
{
    let base = local_base_url_of(port);
    asr_url(base.as_str(), AsrRoute::Status)
}

/// The environment that the ASR server is started with: its port, and
/// Chinese as its default language.
pub fn server_environment(port: u16) -> (env: Vec<(String, String)>)
    ensures
        env@.len() == 2,
        env@[0].0@ == "ASR_PORT"@ && env@[0].1@ == decimal(port as nat),
        env@[1].0@ == "ASR_LANG"@ && env@[1].1@ == "zh"@,
{
    let mut env: Vec<(String, String)> = Vec::new();
    env.push((String::from_str("ASR_PORT"), decimal_string(port as u64)));
    env.push((String::from_str("ASR_LANG"), String::from_str("zh")));
    env
}

/// The position of the first candidate path that exists, if any.
pub fn select_candidate(exists: &Vec<bool>) -> (r: Option<usize>)
    ensures
        r matches Some(i) ==> i < exists@.len() && exists@[i as int] && forall|j: int|
            0 <= j < i ==> !exists@[j],
        r is None ==> forall|j: int| 0 <= j < exists@.len() ==> !exists@[j],
{
    let mut i: usize = 0;
    while i < exists.len()
        invariant
            i <= exists@.len(),
            forall|j: int| 0 <= j < i ==> !exists@[j],
        decreases exists@.len() - i,
    {
        if exists[i] {
            return Some(i);
        }
        i = i + 1;
    }
    None
}

/// What starting the server comes to.
pub enum StartPlan {
    /// It answers already; nothing to do.
    AlreadyRunning,
    /// It cannot be started; the reason.
    Refuse(String),
    /// Spawn it, then wait until it is ready.
    Spawn,
}

/// Decides how to start the server: nothing if it is running, an error if
/// its script or its Python interpreter is missing (the script is checked
/// first), else spawn it. The paths are given as they are displayed.
pub fn start_plan(
    running: bool,
    script_exists: bool,
    python_exists: bool,
    script: &str,
    python: &str,
) -> (p: StartPlan)
    ensures
        running ==> p is AlreadyRunning,
        !running && !script_exists ==> (p matches StartPlan::Refuse(m) && m@
            == "ASR server script not found: "@ + script@ + ". Please install the ASR server."@),
        !running && script_exists && !python_exists ==> (p matches StartPlan::Refuse(m) && m@
            == "Python venv not found: "@ + python@
            + ". Please set up the venv with mlx-audio."@),
        !running && script_exists && python_exists ==> p is Spawn,
{
    if running {
        StartPlan::AlreadyRunning
    } else if !script_exists {
        let mut m = String::from_str("ASR server script not found: ");
        m.append(script);
        m.append(". Please install the ASR server.");
        StartPlan::Refuse(m)
    } else if !python_exists {
        let mut m = String::from_str("Python venv not found: ");
        m.append(python);
        m.append(". Please set up the venv with mlx-audio.");
        StartPlan::Refuse(m)
    } else {
        StartPlan::Spawn
    }
}

/// What happened while waiting for the server to become ready.
pub enum ReadinessEvent {
    /// A new round begins, this many whole seconds after waiting started.
    Tick { elapsed_secs: u64 },
    /// The status probe came back; `ready` when it got a 2xx reply.
    Probed { ready: bool },
}

/// What to do next while waiting for the server.
pub enum ReadinessAction {
    /// Ask the status URL.
    Probe,
    /// Stop waiting; the server did not come up in time.
    GiveUp(String),
    /// The server is ready.
    Finish,
    /// Sleep this many milliseconds, then begin a new round.
    Sleep { millis: u64 },
}

/// The step of waiting at most `max_seconds` for the server: each round
/// first checks the time, then probes; a 2xx probe ends the wait, anything
/// else is retried after a pause.
pub fn readiness_action(event: &ReadinessEvent, max_seconds: u64) -> (a: ReadinessAction)
    ensures
        *event matches ReadinessEvent::Tick { elapsed_secs } ==> (elapsed_secs > max_seconds
            ==> (a matches ReadinessAction::GiveUp(m) && m@
            == "ASR server did not become ready within "@ + decimal(max_seconds as nat)
            + " seconds"@)) && (elapsed_secs <= max_seconds ==> a is Probe),
        *event matches ReadinessEvent::Probed { ready } ==> (ready ==> a is Finish) && (!ready
            ==> (a matches ReadinessAction::Sleep { millis } && millis == PROBE_INTERVAL_MILLIS)),
{
    match event {
        ReadinessEvent::Tick { elapsed_secs } => {
            if *elapsed_secs > max_seconds {
                let mut m = String::from_str("ASR server did not become ready within ");
                let secs = decimal_string(max_seconds);
                m.append(secs.as_str());
                m.append(" seconds");
                ReadinessAction::GiveUp(m)
            } else {
                ReadinessAction::Probe
            }
        },
        ReadinessEvent::Probed { ready } => {
            if *ready {
                ReadinessAction::Finish
            } else {
                ReadinessAction::Sleep { millis: PROBE_INTERVAL_MILLIS }
            }
        },
    }
}

} // verus!
