//! Talking to an OpenAI-compatible server: its endpoint URLs, the listing of
//! its models, connection tests, and the transcription request and reply.
use vstd::prelude::*;

use crate::config::opt_view;
use crate::json::{JsonValue, field, member, string_field, array_of, bool_of};
use crate::text::{
    trim_trailing,
    trim_ws,
    decimal,
    joined,
    views,
    trim,
    trim_end_char,
    decimal_string,
    join,
    lemma_trim_trailing_absorbs,
    lemma_trim_shape,
    lemma_trim_idempotent,
    is_white_space,
    trim_start_ws,
    trim_end_ws,
};

verus! {

// ---------------------------------------------------------------------------
// Endpoints
// ---------------------------------------------------------------------------

/// The URL of `path` on the server at `endpoint`; trailing slashes of the
/// endpoint are dropped first.
pub open spec fn service_url(endpoint: Seq<char>, path: Seq<char>) -> Seq<char> {
    trim_trailing(endpoint, '/') + path
}

pub open spec fn models_path() -> Seq<char> {
    "/v1/models"@
}

pub open spec fn transcriptions_path() -> Seq<char> {
    "/v1/audio/transcriptions"@
}

/// The URL of `path` on the server at `endpoint`.
pub fn service_url_of(endpoint: &str, path: &str) -> (url: String)
    ensures
        url@ == service_url(endpoint@, path@),
{
    let mut url = trim_end_char(endpoint, '/');
    url.append(path);
    url
}

/// The URL of the model listing of the server at `endpoint`.
pub fn models_url(endpoint: &str) -> (url: String)
    ensures
        url@ == service_url(endpoint@, models_path()),
{
    service_url_of(endpoint, "/v1/models")
}

/// The URL of the transcription service of the server at `endpoint`.
pub fn transcriptions_url(endpoint: &str) -> (url: String)
    ensures
        url@ == service_url(endpoint@, transcriptions_path()),
{
    service_url_of(endpoint, "/v1/audio/transcriptions")
}

/// The value of an `Authorization` header that carries `key` as a bearer token.
pub fn bearer_header(key: &str) -> (h: String)
    ensures
        h@ == "Bearer "@ + key@,
{
    let mut h = String::from_str("Bearer ");
    h.append(key);
    h
}

/// An endpoint written with a trailing slash names the same URLs as without.
pub proof fn lemma_trailing_slash_irrelevant(endpoint: Seq<char>, path: Seq<char>)
    ensures
        service_url(endpoint.push('/'), path) == service_url(endpoint, path),
{
    lemma_trim_trailing_absorbs(endpoint, '/');
}

proof fn lemma_trim_trailing_prefix(s: Seq<char>, c: char)
    ensures
        trim_trailing(s, c).len() <= s.len(),
        trim_trailing(s, c) == s.subrange(0, trim_trailing(s, c).len() as int),
        forall|i: int| trim_trailing(s, c).len() <= i < s.len() ==> s[i] == c,
        trim_trailing(s, c).len() > 0 ==> s[trim_trailing(s, c).len() - 1] != c,
    decreases s.len(),
{
    if s.len() > 0 && s.last() == c {
        let t = s.drop_last();
        lemma_trim_trailing_prefix(t, c);
        let k = trim_trailing(s, c).len();
        assert forall|i: int| k <= i < s.len() implies s[i] == c by {
            if i < s.len() - 1 {
                assert(s[i] == t[i]);
            }
        }
        assert(t.subrange(0, k as int) == s.subrange(0, k as int));
        if k > 0 {
            assert(s[k - 1] == t[k - 1]);
        }
    } else {
        assert(s.subrange(0, s.len() as int) == s);
    }
}

/// The URL of a path is the endpoint cut just before its trailing slashes,
/// character for character, followed by the path: it keeps the endpoint's own
/// scheme, host and port, and only slashes are dropped from its end.
pub proof fn lemma_service_url_shape(endpoint: Seq<char>, path: Seq<char>)
    ensures
        exists|k: int|
            #![trigger endpoint.subrange(0, k)]
            0 <= k <= endpoint.len() && service_url(endpoint, path) == endpoint.subrange(0, k)
                + path && (forall|i: int| k <= i < endpoint.len() ==> endpoint[i] == '/') && (k
                > 0 ==> endpoint[k - 1] != '/'),
{
    lemma_trim_trailing_prefix(endpoint, '/');
    let k = trim_trailing(endpoint, '/').len() as int;
    assert(service_url(endpoint, path) == endpoint.subrange(0, k) + path);
}

// ---------------------------------------------------------------------------
// Model listings
// ---------------------------------------------------------------------------

/// The string `id`s of the listed model entries, in order; entries without a
/// string `id` are passed over.
pub open spec fn ids_of(entries: Seq<JsonValue>) -> Seq<Seq<char>>
    decreases entries.len(),
{
    if entries.len() == 0 {
        Seq::empty()
    } else {
        let rest = ids_of(entries.drop_last());
        match string_field(entries.last(), "id"@) {
            Some(id) => rest.push(id),
            None => rest,
        }
    }
}

/// Every entry with a string `id` adds that id at the end of the ids, and an
/// entry without one adds nothing.
pub proof fn lemma_ids_of_push(entries: Seq<JsonValue>, e: JsonValue)
    ensures
        string_field(e, "id"@) matches Some(id) ==> ids_of(entries.push(e)) == ids_of(entries).push(
            id,
        ),
        string_field(e, "id"@) is None ==> ids_of(entries.push(e)) == ids_of(entries),
{
    assert(entries.push(e).drop_last() == entries);
}

/// The ids of a listing split in two are the ids of its first part followed
/// by those of its second part; no id is lost, added or reordered.
pub proof fn lemma_ids_of_concat(a: Seq<JsonValue>, b: Seq<JsonValue>)
    ensures
        ids_of(a + b) == ids_of(a) + ids_of(b),
    decreases b.len(),
{
    if b.len() == 0 {
        assert(a + b == a);
        assert(ids_of(a) + ids_of(b) == ids_of(a));
    } else {
        lemma_ids_of_concat(a, b.drop_last());
        assert((a + b).drop_last() == a + b.drop_last());
        assert((a + b).last() == b.last());
        match string_field(b.last(), "id"@) {
            Some(id) => {
                assert(ids_of(a) + ids_of(b.drop_last()).push(id) == (ids_of(a) + ids_of(
                    b.drop_last(),
                )).push(id));
            },
            None => {},
        }
    }
}

/// The model ids in the body of a `/v1/models` reply: those of the entries of
/// its `data` array, or none if there is no such array.
pub open spec fn model_ids(body: JsonValue) -> Seq<Seq<char>> {
    match array_of(field(body, "data"@)) {
        Some(entries) => ids_of(entries),
        None => Seq::empty(),
    }
}

/// The model ids in the body of a `/v1/models` reply.
pub fn models_from_listing(body: &JsonValue) -> (ids: Vec<String>)
    ensures
        views(ids@) == model_ids(*body),
{
    let mut ids: Vec<String> = Vec::new();
    let data = body.get("data");
    let entries = match data {
        Some(d) => d.as_array(),
        None => None,
    };
    match entries {
        Some(entries) => {
            let mut i: usize = 0;
            while i < entries.len()
                invariant
                    i <= entries@.len(),
                    views(ids@) == ids_of(entries@.take(i as int)),
                decreases entries@.len() - i,
            {
                assert(entries@.take(i + 1).drop_last() == entries@.take(i as int));
                let id = crate::json::get_string(&entries[i], "id");
                match id {
                    Some(id) => {
                        let ghost before = ids@;
                        ids.push(id);
                        assert(views(ids@) =~= views(before).push(ids@.last()@));
                    },
                    None => {},
                }
                i = i + 1;
            }
            assert(entries@.take(entries@.len() as int) == entries@);
        },
        None => {},
    }
    ids
}

/// Whether `s` is among `list`.
pub fn contains_string(list: &Vec<String>, s: &String) -> (r: bool)
    ensures
        r == views(list@).contains(s@),
{
    let mut i: usize = 0;
    while i < list.len()
        invariant
            i <= list@.len(),
            forall|j: int| 0 <= j < i ==> list@[j]@ != s@,
        decreases list@.len() - i,
    {
        if list[i].eq(s) {
            assert(views(list@)[i as int] == s@);
            return true;
        }
        i = i + 1;
    }
    assert forall|j: int| 0 <= j < views(list@).len() implies views(list@)[j] != s@ by {
        assert(views(list@)[j] == list@[j]@);
    }
    false
}

// ---------------------------------------------------------------------------
// Connection tests
// ---------------------------------------------------------------------------

/// How a request went, as far as the status line of the reply.
pub enum HttpOutcome {
    /// No reply came; the error, as text.
    Failed(String),
    /// A reply came with this status; `success` when the status is 2xx.
    Responded { success: bool, status: String },
}

/// The verdict of a connection test.
#[derive(Debug, Clone, Copy, PartialEq, Eq, Structural)]
pub enum ConnectionStatus {
    Connected,
    ModelNotFound,
    Error,
}

pub open spec fn status_text(s: ConnectionStatus) -> Seq<char> {
    match s {
        ConnectionStatus::Connected => "connected"@,
        ConnectionStatus::ModelNotFound => "model_not_found"@,
        ConnectionStatus::Error => "error"@,
    }
}

impl ConnectionStatus {
    /// The status as the frontend names it.
    pub fn as_text(&self) -> (t: String)
        ensures
            t@ == status_text(*self),
    {
        match self {
            ConnectionStatus::Connected => String::from_str("connected"),
            ConnectionStatus::ModelNotFound => String::from_str("model_not_found"),
            ConnectionStatus::Error => String::from_str("error"),
        }
    }
}

/// The outcome of testing a server for a language model.
pub struct ConnectionReport {
    pub status: ConnectionStatus,
    pub message: String,
    /// The models the server lists; absent when it could not be asked.
    pub models: Option<Vec<String>>,
}

/// Whether the requested model can be used with a server listing `models`:
/// no model, or an empty name, asks for nothing in particular.
pub open spec fn model_available(model: Option<Seq<char>>, models: Seq<Seq<char>>) -> bool {
    match model {
        None => true,
        Some(m) => m.len() == 0 || models.contains(m),
    }
}

/// A requested model is available exactly when it asks for nothing in
/// particular (no model, or an empty name) or some listed id is that name.
pub proof fn lemma_model_available_iff_listed(model: Option<Seq<char>>, models: Seq<Seq<char>>)
    ensures
        model_available(model, models) <==> (model is None || model->0.len() == 0 || exists|i: int|
            0 <= i < models.len() && models[i] == model->0),
{
    match model {
        None => {},
        Some(m) => {
            if exists|i: int| 0 <= i < models.len() && models[i] == m {
                let i = choose|i: int| 0 <= i < models.len() && models[i] == m;
                assert(models.contains(m));
            }
        },
    }
}

pub open spec fn connected_message(n: nat) -> Seq<char> {
    "Connection successful! "@ + decimal(n) + " model(s) available."@
}

pub open spec fn missing_model_message(model: Seq<char>, models: Seq<Seq<char>>) -> Seq<char> {
    "Connected, but model '"@ + model + "' not found. Available: "@ + joined(models, ", "@)
}

fn prefixed(prefix: &str, s: &str) -> (r: String)
    ensures
        r@ == prefix@ + s@,
{
    let mut r = String::from_str(prefix);
    r.append(s);
    r
}

/// The report of a connection test against a server for a language model:
/// a failed request or a non-2xx status is an error; otherwise the listed
/// models are reported, and whether the requested one is among them.
pub fn custom_connection_report(
    outcome: &HttpOutcome,
    body: &JsonValue,
    model: &Option<String>,
) -> (r: ConnectionReport)
    ensures
        *outcome matches HttpOutcome::Failed(e) ==> {
            &&& r.status == ConnectionStatus::Error
            &&& r.message@ == "Connection failed: "@ + e@
            &&& r.models is None
        },
        *outcome matches HttpOutcome::Responded { success, status } ==> (!success ==> {
            &&& r.status == ConnectionStatus::Error
            &&& r.message@ == "HTTP "@ + status@
            &&& r.models is None
        }),
        *outcome matches HttpOutcome::Responded { success, .. } ==> (success ==> {
            let ids = model_ids(*body);
            &&& r.models matches Some(ms) && views(ms@) == ids
            &&& model_available(opt_view(*model), ids) ==> r.status == ConnectionStatus::Connected
                && r.message@ == connected_message(ids.len())
            &&& !model_available(opt_view(*model), ids) ==> r.status
                == ConnectionStatus::ModelNotFound && r.message@ == missing_model_message(
                opt_view(*model)->0,
                ids,
            )
        }),
{
    match outcome {
        HttpOutcome::Failed(e) => ConnectionReport {
            status: ConnectionStatus::Error,
            message: prefixed("Connection failed: ", e.as_str()),
            models: None,
        },
        HttpOutcome::Responded { success, status } => {
            if !*success {
                ConnectionReport {
                    status: ConnectionStatus::Error,
                    message: prefixed("HTTP ", status.as_str()),
                    models: None,
                }
            } else {
                let ids = models_from_listing(body);
                let available = match model {
                    None => true,
                    Some(m) => m.as_str().unicode_len() == 0 || contains_string(&ids, m),
                };
                if available {
                    let mut message = String::from_str("Connection successful! ");
                    let count = decimal_string(ids.len() as u64);
                    message.append(count.as_str());
                    message.append(" model(s) available.");
                    ConnectionReport {
                        status: ConnectionStatus::Connected,
                        message,
                        models: Some(ids),
                    }
                } else {
                    let m = match model {
                        Some(m) => m,
                        None => {
                            assert(false);
                            return ConnectionReport {
                                status: ConnectionStatus::Error,
                                message: String::new(),
                                models: None,
                            };
                        },
                    };
                    let mut message = String::from_str("Connected, but model '");
                    message.append(m.as_str());
                    message.append("' not found. Available: ");
                    let listed = join(&ids, ", ");
                    message.append(listed.as_str());
                    ConnectionReport {
                        status: ConnectionStatus::ModelNotFound,
                        message,
                        models: Some(ids),
                    }
                }
            }
        },
    }
}

/// The JSON strings of `items`, in order.
pub open spec fn is_string_array(items: Seq<JsonValue>, texts: Seq<Seq<char>>) -> bool {
    &&& items.len() == texts.len()
    &&& forall|i: int|
        0 <= i < items.len() ==> (#[trigger] items[i] matches JsonValue::String(t) && t@
            == texts[i])
}

/// A JSON array of the strings `list`.
pub fn string_array(list: &Vec<String>) -> (v: JsonValue)
    ensures
        v matches JsonValue::Array(items) && is_string_array(items@, views(list@)),
{
    let mut items: Vec<JsonValue> = Vec::new();
    let mut i: usize = 0;
    while i < list.len()
        invariant
            i <= list@.len(),
            is_string_array(items@, views(list@).take(i as int)),
        decreases list@.len() - i,
    {
        items.push(JsonValue::String(list[i].clone()));
        assert(views(list@).take(i + 1) =~= views(list@).take(i as int).push(list@[i as int]@));
        i = i + 1;
    }
    assert(views(list@).take(list@.len() as int) =~= views(list@));
    JsonValue::Array(items)
}

/// A JSON member `key: "text"`.
fn string_member(key: &str, text: &String) -> (m: (String, JsonValue))
    ensures
        m.0@ == key@,
        m.1 matches JsonValue::String(t) && t@ == text@,
{
    (String::from_str(key), JsonValue::String(text.clone()))
}

impl ConnectionReport {
    /// The report as the frontend receives it: `status` and `message`, and
    /// `models` when the server was asked.
    pub fn to_json(&self) -> (v: JsonValue)
        ensures
            v matches JsonValue::Object(members) && {
                &&& members@.len() == if self.models is Some {
                    3int
                } else {
                    2int
                }
                &&& members@[0].0@ == "status"@
                &&& members@[0].1 matches JsonValue::String(t) && t@ == status_text(self.status)
                &&& members@[1].0@ == "message"@
                &&& members@[1].1 matches JsonValue::String(t) && t@ == self.message@
                &&& self.models matches Some(ms) ==> members@[2].0@ == "models"@ && (
                members@[2].1 matches JsonValue::Array(items) && is_string_array(
                    items@,
                    views(ms@),
                ))
            },
            string_field(v, "status"@) == Some(status_text(self.status)),
            string_field(v, "message"@) == Some(self.message@),
            (field(v, "models"@) is Some) == (self.models is Some),
    {
        let mut members: Vec<(String, JsonValue)> = Vec::new();
        let status = self.status.as_text();
        members.push(string_member("status", &status));
        members.push(string_member("message", &self.message));
        match &self.models {
            Some(ms) => {
                members.push((String::from_str("models"), string_array(ms)));
            },
            None => {},
        }
        proof {
            reveal_strlit("status");
            reveal_strlit("message");
            reveal_strlit("models");
            assert("status"@ != "message"@ && "status"@ != "models"@ && "message"@ != "models"@) by {
                assert("status"@.len() != "message"@.len());
                assert("status"@[1] != "models"@[1]);
                assert("message"@.len() != "models"@.len());
            }
            assert(members@.drop_first()[0] == members@[1]);
            assert(member(members@, "message"@) == member(members@.drop_first(), "message"@));
            assert(member(members@, "models"@) == member(members@.drop_first(), "models"@));
            assert(member(members@.drop_first(), "models"@) == member(
                members@.drop_first().drop_first(),
                "models"@,
            ));
            if members@.len() == 3 {
                assert(members@.drop_first().drop_first()[0] == members@[2]);
                assert(members@.drop_first().drop_first().drop_first().len() == 0);
            } else {
                assert(members@.drop_first().drop_first().len() == 0);
            }
        }
        JsonValue::Object(members)
    }
}

/// The answer to probing a transcription server.
pub struct ProbeReport {
    pub success: bool,
    pub status: String,
}

/// The report of probing a transcription server: a 2xx reply means it is
/// connected; otherwise the status, or the error, is reported.
pub fn transcription_probe_report(outcome: &HttpOutcome) -> (r: ProbeReport)
    ensures
        *outcome matches HttpOutcome::Failed(e) ==> !r.success && r.status@ == "Connection failed: "@
            + e@,
        *outcome matches HttpOutcome::Responded { success, status } ==> r.success == success && (
        success ==> r.status@ == "connected"@) && (!success ==> r.status@ == "HTTP "@ + status@),
{
    match outcome {
        HttpOutcome::Failed(e) => ProbeReport {
            success: false,
            status: prefixed("Connection failed: ", e.as_str()),
        },
        HttpOutcome::Responded { success, status } => {
            if *success {
                ProbeReport { success: true, status: String::from_str("connected") }
            } else {
                ProbeReport { success: false, status: prefixed("HTTP ", status.as_str()) }
            }
        },
    }
}

impl ProbeReport {
    /// The report as the frontend receives it: `success` and `status`.
    pub fn to_json(&self) -> (v: JsonValue)
        ensures
            v matches JsonValue::Object(members) && {
                &&& members@.len() == 2
                &&& members@[0].0@ == "success"@
                &&& members@[0].1 == JsonValue::Bool(self.success)
                &&& members@[1].0@ == "status"@
                &&& members@[1].1 matches JsonValue::String(t) && t@ == self.status@
            },
            bool_of(field(v, "success"@)) == Some(self.success),
            string_field(v, "status"@) == Some(self.status@),
    {
        let mut members: Vec<(String, JsonValue)> = Vec::new();
        members.push((String::from_str("success"), JsonValue::Bool(self.success)));
        members.push(string_member("status", &self.status));
        proof {
            reveal_strlit("success");
            reveal_strlit("status");
            assert("success"@ != "status"@) by {
                assert("success"@.len() != "status"@.len());
            }
            assert(members@.drop_first()[0] == members@[1]);
            assert(member(members@, "status"@) == member(members@.drop_first(), "status"@));
        }
        JsonValue::Object(members)
    }
}

// ---------------------------------------------------------------------------
// Replies with a body
// ---------------------------------------------------------------------------

/// Why a request got no reply.
pub enum SendFailure {
    TimedOut,
    ConnectFailed,
    /// Any other failure; the error, as text.
    Other(String),
}

/// How a request whose reply body is JSON went.
pub enum ServerReply {
    /// No reply came.
    NotSent(SendFailure),
    /// The reply had a non-2xx status; the status and the body, as text.
    Rejected { status: String, body: String },
    /// The reply was 2xx but its body was no JSON; the error, as text.
    Unreadable(String),
    /// The reply was 2xx with this JSON body.
    Parsed(JsonValue),
}

/// The models a server lists, or why it could not be asked.
pub fn model_listing_result(reply: &ServerReply) -> (r: Result<Vec<String>, String>)
    ensures
        *reply matches ServerReply::NotSent(SendFailure::TimedOut) ==> r matches Err(m) && m@
            == "Connection timed out. Please check the endpoint URL."@,
        *reply matches ServerReply::NotSent(SendFailure::ConnectFailed) ==> r matches Err(m) && m@
            == "Could not connect to the server. Please verify the URL and that the server is running."@,
        *reply matches ServerReply::NotSent(SendFailure::Other(e)) ==> r matches Err(m) && m@
            == "Connection failed: "@ + e@,
        *reply matches ServerReply::Rejected { status, body } ==> r matches Err(m) && m@
            == "Server returned "@ + status@ + ": "@ + body@,
        *reply matches ServerReply::Unreadable(e) ==> r matches Err(m) && m@
            == "Failed to parse response: "@ + e@,
        *reply matches ServerReply::Parsed(body) ==> r matches Ok(ids) && views(ids@) == model_ids(
            body,
        ),
{
    match reply {
        ServerReply::NotSent(SendFailure::TimedOut) => Err(
            String::from_str("Connection timed out. Please check the endpoint URL."),
        ),
        ServerReply::NotSent(SendFailure::ConnectFailed) => Err(
            String::from_str(
                "Could not connect to the server. Please verify the URL and that the server is running.",
            ),
        ),
        ServerReply::NotSent(SendFailure::Other(e)) => Err(
            prefixed("Connection failed: ", e.as_str()),
        ),
        ServerReply::Rejected { status, body } => {
            let mut m = prefixed("Server returned ", status.as_str());
            m.append(": ");
            m.append(body.as_str());
            Err(m)
        },
        ServerReply::Unreadable(e) => Err(prefixed("Failed to parse response: ", e.as_str())),
        ServerReply::Parsed(body) => Ok(models_from_listing(body)),
    }
}

// ---------------------------------------------------------------------------
// Transcription
// ---------------------------------------------------------------------------

/// Settings of an OpenAI-compatible transcription server.
#[derive(Debug, Clone)]
pub struct OpenAICompatibleConfig {
    /// Base URL of the transcription server (e.g. "http://localhost:8765").
    pub endpoint: String,
    /// Optional API key for authentication.
    pub api_key: Option<String>,
    /// Model name to use (e.g. "qwen3-asr-1.7b").
    pub model: String,
}

impl OpenAICompatibleConfig {
    /// A remote provider counts as loaded when an endpoint is configured.
    pub fn is_model_loaded(&self) -> (r: bool)
        ensures
            r == (self.endpoint@.len() > 0),
    {
        self.endpoint.as_str().unicode_len() != 0
    }

    /// The configured model.
    pub fn get_current_model(&self) -> (r: Option<String>)
        ensures
            opt_view(r) == Some(self.model@),
    {
        Some(self.model.clone())
    }
}

/// The name under which the OpenAI-compatible provider reports.
pub fn provider_name() -> (name: String)
    ensures
        name@ == "OpenAI-Compatible"@,
{
    String::from_str("OpenAI-Compatible")
}

/// The names in a multipart transcription upload: the form field of the
/// audio file, the file's name and MIME type, and the text fields of the
/// model and the language.
pub struct UploadForm {
    pub file_field: String,
    pub file_name: String,
    pub mime_type: String,
    pub model_field: String,
    pub language_field: String,
}

/// The names that an audio upload uses.
pub open spec fn is_audio_upload_form(f: UploadForm) -> bool {
    &&& f.file_field@ == "file"@
    &&& f.file_name@ == "audio.wav"@
    &&& f.mime_type@ == "audio/wav"@
    &&& f.model_field@ == "model"@
    &&& f.language_field@ == "language"@
}

/// The names that an audio upload uses: the WAV audio as `file`
/// (`audio.wav`, `audio/wav`), beside the `model` and `language` fields.
pub fn audio_upload_form() -> (f: UploadForm)
    ensures
        is_audio_upload_form(f),
{
    UploadForm {
        file_field: String::from_str("file"),
        file_name: String::from_str("audio.wav"),
        mime_type: String::from_str("audio/wav"),
        model_field: String::from_str("model"),
        language_field: String::from_str("language"),
    }
}

/// What a transcription request carries besides the audio file: where it
/// goes, the names of the form, its text fields, and the bearer token if any.
pub struct TranscriptionRequest {
    pub url: String,
    pub form: UploadForm,
    pub model: String,
    pub language: Option<String>,
    pub bearer_token: Option<String>,
}

/// The bearer token that a request carries: the key, unless it is absent or empty.
pub open spec fn bearer_token_for(key: Option<Seq<char>>) -> Option<Seq<char>> {
    match key {
        Some(k) => if k.len() > 0 {
            Some(k)
        } else {
            None
        },
        None => None,
    }
}

/// The transcription request for `config`, in `language` if one is given.
pub fn plan_transcription_request(config: &OpenAICompatibleConfig, language: &Option<String>) -> (r:
    TranscriptionRequest)
    ensures
        r.url@ == service_url(config.endpoint@, transcriptions_path()),
        is_audio_upload_form(r.form),
        r.model@ == config.model@,
        opt_view(r.language) == opt_view(*language),
        opt_view(r.bearer_token) == bearer_token_for(opt_view(config.api_key)),
{
    let url = transcriptions_url(config.endpoint.as_str());
    let language = match language {
        Some(l) => Some(l.clone()),
        None => None,
    };
    let bearer_token = match &config.api_key {
        Some(k) => if k.as_str().unicode_len() != 0 {
            Some(k.clone())
        } else {
            None
        },
        None => None,
    };
    TranscriptionRequest {
        url,
        form: audio_upload_form(),
        model: config.model.clone(),
        language,
        bearer_token,
    }
}

/// A transcription: the recognised text and whether it is a partial result.
pub struct Transcription {
    pub text: String,
    pub is_partial: bool,
}

/// Why a transcription failed.
pub enum TranscriptionError {
    EngineFailed(String),
}

/// The text of a transcription reply: its string `text` member, trimmed, or
/// empty if there is none.
pub open spec fn reply_text(body: JsonValue) -> Seq<char> {
    match string_field(body, "text"@) {
        Some(t) => trim_ws(t),
        None => Seq::empty(),
    }
}

/// Whether a transcription reply is partial: its boolean `is_partial`
/// member, or false if there is none.
pub open spec fn reply_is_partial(body: JsonValue) -> bool {
    match bool_of(field(body, "is_partial"@)) {
        Some(b) => b,
        None => false,
    }
}

/// A reply whose `text` member is the string `t` gives the transcript
/// `t` trimmed, whatever else the reply holds (partial or not); a `t` without
/// white space at its ends is kept as it is.
pub proof fn lemma_reply_text_is_trimmed_text(body: JsonValue, t: Seq<char>)
    requires
        string_field(body, "text"@) == Some(t),
    ensures
        reply_text(body) == trim_ws(t),
        (t.len() == 0 || (!is_white_space(t[0]) && !is_white_space(t.last()))) ==> reply_text(body)
            == t,
{
    if t.len() > 0 && !is_white_space(t[0]) && !is_white_space(t.last()) {
        assert(trim_start_ws(t) == t);
        assert(trim_end_ws(t) == t);
    }
}

/// The text of a transcription never begins or ends with white space, and
/// trimming it again changes nothing.
pub proof fn lemma_reply_text_trimmed(body: JsonValue)
    ensures
        reply_text(body).len() > 0 ==> !is_white_space(reply_text(body)[0]) && !is_white_space(
            reply_text(body).last(),
        ),
        trim_ws(reply_text(body)) == reply_text(body),
{
    match string_field(body, "text"@) {
        Some(t) => {
            lemma_trim_shape(t);
            lemma_trim_idempotent(t);
        },
        None => {},
    }
}

/// The transcription that a reply of the server at `endpoint` gives, or the
/// failure that it reports.
pub fn transcription_result(endpoint: &str, reply: &ServerReply) -> (r: Result<
    Transcription,
    TranscriptionError,
>)
    ensures
        *reply matches ServerReply::NotSent(SendFailure::TimedOut) ==> r matches Err(
            TranscriptionError::EngineFailed(m),
        ) && m@ == "OpenAI-Compatible transcription request timed out"@,
        *reply matches ServerReply::NotSent(SendFailure::ConnectFailed) ==> r matches Err(
            TranscriptionError::EngineFailed(m),
        ) && m@ == "Cannot connect to transcription server at "@ + trim_trailing(endpoint@, '/')
            + ". Is it running?"@,
        *reply matches ServerReply::NotSent(SendFailure::Other(e)) ==> r matches Err(
            TranscriptionError::EngineFailed(m),
        ) && m@ == "OpenAI-Compatible transcription request failed: "@ + e@,
        *reply matches ServerReply::Rejected { status, body } ==> r matches Err(
            TranscriptionError::EngineFailed(m),
        ) && m@ == "Transcription server returned "@ + status@ + ": "@ + body@,
        *reply matches ServerReply::Unreadable(e) ==> r matches Err(
            TranscriptionError::EngineFailed(m),
        ) && m@ == "Failed to parse transcription response: "@ + e@,
        *reply matches ServerReply::Parsed(body) ==> r matches Ok(t) && t.text@ == reply_text(body)
            && t.is_partial == reply_is_partial(body),
{
    match reply {
        ServerReply::NotSent(SendFailure::TimedOut) => Err(
            TranscriptionError::EngineFailed(
                String::from_str("OpenAI-Compatible transcription request timed out"),
            ),
        ),
        ServerReply::NotSent(SendFailure::ConnectFailed) => {
            let mut m = String::from_str("Cannot connect to transcription server at ");
            let trimmed = trim_end_char(endpoint, '/');
            m.append(trimmed.as_str());
            m.append(". Is it running?");
            Err(TranscriptionError::EngineFailed(m))
        },
        ServerReply::NotSent(SendFailure::Other(e)) => Err(
            TranscriptionError::EngineFailed(
                prefixed("OpenAI-Compatible transcription request failed: ", e.as_str()),
            ),
        ),
        ServerReply::Rejected { status, body } => {
            let mut m = prefixed("Transcription server returned ", status.as_str());
            m.append(": ");
            m.append(body.as_str());
            Err(TranscriptionError::EngineFailed(m))
        },
        ServerReply::Unreadable(e) => Err(
            TranscriptionError::EngineFailed(
                prefixed("Failed to parse transcription response: ", e.as_str()),
            ),
        ),
        ServerReply::Parsed(body) => {
            let text = match crate::json::get_string(body, "text") {
                Some(t) => trim(t.as_str()),
                None => String::new(),
            };
            let is_partial = match body.get("is_partial") {
                Some(v) => match v.as_bool() {
                    Some(b) => b,
                    None => false,
                },
                None => false,
            };
            Ok(Transcription { text, is_partial })
        },
    }
}

} // verus!
