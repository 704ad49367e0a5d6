use linglisten::json::JsonValue;
use linglisten::openai::{
    bearer_header, custom_connection_report, model_listing_result, models_from_listing,
    models_url, plan_transcription_request, provider_name, transcription_probe_report,
    transcription_result, transcriptions_url, ConnectionStatus, HttpOutcome,
    OpenAICompatibleConfig, SendFailure, ServerReply, TranscriptionError,
};

fn s(x: &str) -> String {
    x.to_string()
}

fn obj(members: Vec<(&str, JsonValue)>) -> JsonValue {
    JsonValue::Object(members.into_iter().map(|(k, v)| (s(k), v)).collect())
}

fn listing(ids: &[&str]) -> JsonValue {
    obj(vec![
        ("data", JsonValue::Array(ids.iter().map(|id| obj(vec![("id", JsonValue::String(s(id)))])).collect())),
        ("object", JsonValue::String(s("list"))),
    ])
}

#[test]
fn urls_drop_trailing_slashes() {
    assert_eq!(models_url("http://127.0.0.1:8765/"), "http://127.0.0.1:8765/v1/models");
    assert_eq!(models_url("http://127.0.0.1:8765"), "http://127.0.0.1:8765/v1/models");
    assert_eq!(transcriptions_url("http://h//"), "http://h/v1/audio/transcriptions");
    assert_eq!(bearer_header("sk-1"), "Bearer sk-1");
}

#[test]
fn listing_ids_in_order_skipping_entries_without_id() {
    let body = obj(vec![(
        "data",
        JsonValue::Array(vec![
            obj(vec![("id", JsonValue::String(s("a")))]),
            obj(vec![("name", JsonValue::String(s("b")))]),
            obj(vec![("id", JsonValue::Number(s("3")))]),
            JsonValue::String(s("c")),
            obj(vec![("id", JsonValue::String(s("d")))]),
        ]),
    )]);
    assert_eq!(models_from_listing(&body), vec![s("a"), s("d")]);
    assert!(models_from_listing(&JsonValue::Null).is_empty());
    assert!(models_from_listing(&obj(vec![("data", JsonValue::Bool(true))])).is_empty());
}

#[test]
fn connection_report_connected() {
    let ok = HttpOutcome::Responded { success: true, status: s("200 OK") };
    let r = custom_connection_report(&ok, &listing(&["m1", "m2"]), &Some(s("m2")));
    assert_eq!(r.status, ConnectionStatus::Connected);
    assert_eq!(r.status.as_text(), "connected");
    assert_eq!(r.message, "Connection successful! 2 model(s) available.");
    assert_eq!(r.models, Some(vec![s("m1"), s("m2")]));
    let r = custom_connection_report(&ok, &listing(&[]), &None);
    assert_eq!(r.message, "Connection successful! 0 model(s) available.");
    let r = custom_connection_report(&ok, &listing(&["m1"]), &Some(s("")));
    assert_eq!(r.status, ConnectionStatus::Connected);
}

#[test]
fn connection_report_model_not_found() {
    let ok = HttpOutcome::Responded { success: true, status: s("200 OK") };
    let r = custom_connection_report(&ok, &listing(&["m1", "m2"]), &Some(s("x")));
    assert_eq!(r.status, ConnectionStatus::ModelNotFound);
    assert_eq!(r.status.as_text(), "model_not_found");
    assert_eq!(r.message, "Connected, but model 'x' not found. Available: m1, m2");
    assert_eq!(r.models, Some(vec![s("m1"), s("m2")]));
}

#[test]
fn connection_report_errors() {
    let r = custom_connection_report(
        &HttpOutcome::Responded { success: false, status: s("401 Unauthorized") },
        &JsonValue::Null,
        &None,
    );
    assert_eq!(r.status, ConnectionStatus::Error);
    assert_eq!(r.status.as_text(), "error");
    assert_eq!(r.message, "HTTP 401 Unauthorized");
    assert!(r.models.is_none());
    let r = custom_connection_report(&HttpOutcome::Failed(s("refused")), &JsonValue::Null, &None);
    assert_eq!(r.message, "Connection failed: refused");
    assert!(r.models.is_none());
}

#[test]
fn transcription_probe() {
    let r = transcription_probe_report(&HttpOutcome::Responded { success: true, status: s("200 OK") });
    assert!(r.success);
    assert_eq!(r.status, "connected");
    let r = transcription_probe_report(&HttpOutcome::Responded { success: false, status: s("404 Not Found") });
    assert!(!r.success);
    assert_eq!(r.status, "HTTP 404 Not Found");
    let r = transcription_probe_report(&HttpOutcome::Failed(s("boom")));
    assert!(!r.success);
    assert_eq!(r.status, "Connection failed: boom");
}

#[test]
fn listing_result_messages() {
    assert_eq!(
        model_listing_result(&ServerReply::NotSent(SendFailure::TimedOut)),
        Err(s("Connection timed out. Please check the endpoint URL."))
    );
    assert_eq!(
        model_listing_result(&ServerReply::NotSent(SendFailure::ConnectFailed)),
        Err(s("Could not connect to the server. Please verify the URL and that the server is running."))
    );
    assert_eq!(
        model_listing_result(&ServerReply::NotSent(SendFailure::Other(s("dns")))),
        Err(s("Connection failed: dns"))
    );
    assert_eq!(
        model_listing_result(&ServerReply::Rejected { status: s("500 Internal Server Error"), body: s("oops") }),
        Err(s("Server returned 500 Internal Server Error: oops"))
    );
    assert_eq!(
        model_listing_result(&ServerReply::Unreadable(s("EOF"))),
        Err(s("Failed to parse response: EOF"))
    );
    assert_eq!(model_listing_result(&ServerReply::Parsed(listing(&["q"]))), Ok(vec![s("q")]));
}

fn config(key: Option<&str>) -> OpenAICompatibleConfig {
    OpenAICompatibleConfig { endpoint: s("http://127.0.0.1:8765/"), api_key: key.map(s), model: s("qwen3-asr-1.7b") }
}

#[test]
fn transcription_request_plan() {
    let r = plan_transcription_request(&config(Some("k")), &Some(s("zh")));
    assert_eq!(r.url, "http://127.0.0.1:8765/v1/audio/transcriptions");
    assert_eq!(r.model, "qwen3-asr-1.7b");
    assert_eq!(r.language, Some(s("zh")));
    assert_eq!(r.bearer_token, Some(s("k")));
    assert_eq!(r.form.file_field, "file");
    assert_eq!(r.form.file_name, "audio.wav");
    assert_eq!(r.form.mime_type, "audio/wav");
    assert_eq!(r.form.model_field, "model");
    assert_eq!(r.form.language_field, "language");
    let r = plan_transcription_request(&config(Some("")), &None);
    assert_eq!(r.bearer_token, None);
    assert_eq!(r.language, None);
    let r = plan_transcription_request(&config(None), &None);
    assert_eq!(r.bearer_token, None);
}

#[test]
fn provider_facts() {
    assert!(config(None).is_model_loaded());
    let mut c = config(None);
    c.endpoint = String::new();
    assert!(!c.is_model_loaded());
    assert_eq!(c.get_current_model(), Some(s("qwen3-asr-1.7b")));
    assert_eq!(provider_name(), "OpenAI-Compatible");
}

fn failure(r: Result<linglisten::openai::Transcription, TranscriptionError>) -> String {
    match r {
        Err(TranscriptionError::EngineFailed(m)) => m,
        Ok(_) => panic!("expected a failure"),
    }
}

#[test]
fn transcription_results() {
    let body = obj(vec![
        ("is_partial", JsonValue::Bool(true)),
        ("text", JsonValue::String(s("  你好，世界 \n"))),
    ]);
    let t = transcription_result("http://x", &ServerReply::Parsed(body)).ok().unwrap();
    assert_eq!(t.text, "你好，世界");
    assert!(t.is_partial);
    let t = transcription_result("http://x", &ServerReply::Parsed(obj(vec![]))).ok().unwrap();
    assert_eq!(t.text, "");
    assert!(!t.is_partial);
    let t = transcription_result(
        "http://x",
        &ServerReply::Parsed(obj(vec![("is_partial", JsonValue::String(s("true"))), ("text", JsonValue::Null)])),
    )
    .ok()
    .unwrap();
    assert_eq!(t.text, "");
    assert!(!t.is_partial);
}

#[test]
fn transcription_failures() {
    assert_eq!(
        failure(transcription_result("http://x/", &ServerReply::NotSent(SendFailure::TimedOut))),
        "OpenAI-Compatible transcription request timed out"
    );
    assert_eq!(
        failure(transcription_result("http://x/", &ServerReply::NotSent(SendFailure::ConnectFailed))),
        "Cannot connect to transcription server at http://x. Is it running?"
    );
    assert_eq!(
        failure(transcription_result("http://x", &ServerReply::NotSent(SendFailure::Other(s("e"))))),
        "OpenAI-Compatible transcription request failed: e"
    );
    assert_eq!(
        failure(transcription_result("http://x", &ServerReply::Rejected { status: s("503 Service Unavailable"), body: s("busy") })),
        "Transcription server returned 503 Service Unavailable: busy"
    );
    assert_eq!(
        failure(transcription_result("http://x", &ServerReply::Unreadable(s("bad json")))),
        "Failed to parse transcription response: bad json"
    );
}

fn member<'a>(v: &'a JsonValue, key: &str) -> &'a JsonValue {
    v.get(key).expect("member present")
}

#[test]
fn reports_as_json() {
    let ok = HttpOutcome::Responded { success: true, status: s("200 OK") };
    let v = custom_connection_report(&ok, &listing(&["m1"]), &None).to_json();
    assert!(matches!(member(&v, "status"), JsonValue::String(t) if t == "connected"));
    assert!(matches!(member(&v, "message"), JsonValue::String(t) if t == "Connection successful! 1 model(s) available."));
    match member(&v, "models") {
        JsonValue::Array(items) => {
            assert_eq!(items.len(), 1);
            assert!(matches!(&items[0], JsonValue::String(t) if t == "m1"));
        }
        _ => panic!("expected an array"),
    }
    let v = custom_connection_report(&HttpOutcome::Failed(s("x")), &JsonValue::Null, &None).to_json();
    assert!(v.get("models").is_none());
    assert!(matches!(member(&v, "status"), JsonValue::String(t) if t == "error"));
    let v = transcription_probe_report(&HttpOutcome::Responded { success: true, status: s("200 OK") }).to_json();
    assert!(matches!(member(&v, "success"), JsonValue::Bool(true)));
    assert!(matches!(member(&v, "status"), JsonValue::String(t) if t == "connected"));
}
