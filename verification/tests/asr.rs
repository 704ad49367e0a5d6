use linglisten::asr::{
    asr_failure_message, asr_model_name, asr_transcript_text, asr_url, language_request_body,
    local_base_url_of, readiness_action, select_candidate, server_environment, start_plan,
    status_probe_url, AsrRoute, ReadinessAction, ReadinessEvent, StartPlan, ASR_PORT,
    PROBE_INTERVAL_MILLIS, READY_TIMEOUT_SECS,
};
use linglisten::json::JsonValue;

fn s(x: &str) -> String {
    x.to_string()
}

#[test]
fn routes() {
    let base = local_base_url_of(ASR_PORT);
    assert_eq!(base, "http://127.0.0.1:8765");
    assert_eq!(asr_url(&base, AsrRoute::Status), "http://127.0.0.1:8765/v1/asr/status");
    assert_eq!(asr_url(&base, AsrRoute::Load), "http://127.0.0.1:8765/v1/asr/load");
    assert_eq!(asr_url(&base, AsrRoute::Unload), "http://127.0.0.1:8765/v1/asr/unload");
    assert_eq!(asr_url(&base, AsrRoute::Language), "http://127.0.0.1:8765/v1/asr/language");
    assert_eq!(asr_url(&base, AsrRoute::Transcriptions), "http://127.0.0.1:8765/v1/audio/transcriptions");
    assert_eq!(asr_url(&base, AsrRoute::Models), "http://127.0.0.1:8765/v1/models");
    assert_eq!(asr_url("http://h/", AsrRoute::Models), "http://h//v1/models");
    assert_eq!(status_probe_url(9000), "http://127.0.0.1:9000/v1/asr/status");
    assert_eq!(asr_model_name(), "qwen3-asr-1.7b");
}

#[test]
fn failure_messages() {
    assert_eq!(asr_failure_message(AsrRoute::Status, "500 Internal Server Error", "x"), "ASR status request failed: 500 Internal Server Error");
    assert_eq!(asr_failure_message(AsrRoute::Load, "500 Internal Server Error", "  \n"), "ASR load_model failed: HTTP 500 Internal Server Error (empty response body)");
    assert_eq!(asr_failure_message(AsrRoute::Load, "500 Internal Server Error", " out of memory\n"), "ASR load_model failed: out of memory (HTTP 500 Internal Server Error)");
    assert_eq!(asr_failure_message(AsrRoute::Unload, "409 Conflict", "busy"), "ASR unload_model failed: busy");
    assert_eq!(asr_failure_message(AsrRoute::Language, "400 Bad Request", "bad"), "ASR set_language failed: bad");
    assert_eq!(asr_failure_message(AsrRoute::Transcriptions, "400 Bad Request", "no audio"), "ASR transcribe failed: no audio");
    assert_eq!(asr_failure_message(AsrRoute::Models, "404 Not Found", "x"), "ASR list_models failed: 404 Not Found");
}

#[test]
fn language_body() {
    match language_request_body("en") {
        JsonValue::Object(m) => {
            assert_eq!(m.len(), 1);
            assert_eq!(m[0].0, "language");
            assert!(matches!(&m[0].1, JsonValue::String(l) if l == "en"));
        }
        _ => panic!("expected an object"),
    }
}

#[test]
fn transcript_text() {
    let ok = JsonValue::Object(vec![(s("text"), JsonValue::String(s(" 会议开始 ")))]);
    assert_eq!(asr_transcript_text(&ok), Ok(s(" 会议开始 ")));
    let missing = JsonValue::Object(vec![(s("txt"), JsonValue::String(s("x")))]);
    assert_eq!(asr_transcript_text(&missing), Err(s("Missing 'text' field in ASR response")));
    let wrong = JsonValue::Object(vec![(s("text"), JsonValue::Null)]);
    assert_eq!(asr_transcript_text(&wrong), Err(s("Missing 'text' field in ASR response")));
}

#[test]
fn environment() {
    let env = server_environment(8765);
    assert_eq!(env, vec![(s("ASR_PORT"), s("8765")), (s("ASR_LANG"), s("zh"))]);
}

#[test]
fn candidates() {
    assert_eq!(select_candidate(&vec![false, true, true]), Some(1));
    assert_eq!(select_candidate(&vec![true]), Some(0));
    assert_eq!(select_candidate(&vec![false, false]), None);
    assert_eq!(select_candidate(&vec![]), None);
}

#[test]
fn starting() {
    assert!(matches!(start_plan(true, false, false, "s.py", "py"), StartPlan::AlreadyRunning));
    match start_plan(false, false, true, "asr-server/qwen3_asr_server.py", "py") {
        StartPlan::Refuse(m) => assert_eq!(m, "ASR server script not found: asr-server/qwen3_asr_server.py. Please install the ASR server."),
        _ => panic!("expected a refusal"),
    }
    match start_plan(false, true, false, "s.py", "/v/bin/python3") {
        StartPlan::Refuse(m) => assert_eq!(m, "Python venv not found: /v/bin/python3. Please set up the venv with mlx-audio."),
        _ => panic!("expected a refusal"),
    }
    assert!(matches!(start_plan(false, true, true, "s.py", "py"), StartPlan::Spawn));
}

#[test]
fn waiting_for_readiness() {
    assert!(matches!(readiness_action(&ReadinessEvent::Tick { elapsed_secs: 0 }, READY_TIMEOUT_SECS), ReadinessAction::Probe));
    assert!(matches!(readiness_action(&ReadinessEvent::Tick { elapsed_secs: 60 }, 60), ReadinessAction::Probe));
    match readiness_action(&ReadinessEvent::Tick { elapsed_secs: 61 }, 60) {
        ReadinessAction::GiveUp(m) => assert_eq!(m, "ASR server did not become ready within 60 seconds"),
        _ => panic!("expected to give up"),
    }
    assert!(matches!(readiness_action(&ReadinessEvent::Probed { ready: true }, 60), ReadinessAction::Finish));
    match readiness_action(&ReadinessEvent::Probed { ready: false }, 60) {
        ReadinessAction::Sleep { millis } => assert_eq!(millis, PROBE_INTERVAL_MILLIS),
        _ => panic!("expected a pause"),
    }
    assert_eq!(PROBE_INTERVAL_MILLIS, 500);
}
