//! The exchange with a hosted Guardrails service.

use vstd::prelude::*;
use vstd::utf8::encode_utf8;

use crate::config::copy_object;
use crate::error::{failure, invalid, invalid_config, ErrorView, PluginError, PluginErrorKind};
use crate::guardrails::component::{
    opt_text_json, opt_text_value, opt_value, put_opt, texts_json, texts_value, with_field,
    NeMoGuardrailsConfig, RemoteBackendConfig,
};
use crate::guardrails::local::{
    intercepts, parsed_view, plan_intercepts, registration_facts, GuardrailsRegistration,
};
use crate::guardrails::remote_options::{
    build_llm_guardrails_config, build_tool_check_guardrails_config, llm_guardrails_map,
    tool_guardrails_map, unless_empty, RemoteCheckKind,
};
use crate::guardrails::remote_verdict::{surface_name, surface_str};
use crate::json::{
    array_view, copy_json, json_view, new_object, object_view, put, text_json, Json, JsonNumber,
    JsonView, NumberView,
};
use crate::json_text::{json_of, parse_json};
use crate::native::completion::result_view;
use crate::native::status::{FlowError, FlowErrorKind, FlowErrorView};
use crate::text::{
    bytes_of, chars_of, clone_opt, clone_texts, concat2, concat3, concat4, concat5, decimal,
    format_u64, opt_text, texts,
};
use crate::text_map::TextMap;

verus! {

/// Whether a byte may stand in a header name.
pub open spec fn name_byte(b: u8) -> bool {
    ||| 48 <= b <= 57
    ||| 65 <= b <= 90
    ||| 97 <= b <= 122
    ||| b == 33 || b == 42 || b == 43 || b == 45 || b == 46 || b == 124 || b == 126
    ||| 35 <= b <= 39
    ||| 94 <= b <= 96
}

/// Whether a text is a header name.
pub open spec fn is_header_name(name: Seq<char>) -> bool {
    let bytes = encode_utf8(name);
    &&& 1 <= bytes.len() <= 65535
    &&& forall|i: int| 0 <= i < bytes.len() ==> name_byte(#[trigger] bytes[i])
}

/// Whether a text is a header value: it holds no control byte but the tab.
pub open spec fn is_header_value(value: Seq<char>) -> bool {
    let bytes = encode_utf8(value);
    forall|i: int|
        0 <= i < bytes.len() ==> (32 <= #[trigger] bytes[i] && bytes[i] != 127) || bytes[i] == 9
}

/// Checks a header name with `HeaderName::from_bytes` of `http`, which `reqwest` exports. It takes from
/// one to 65535 bytes, each a letter, a digit or one of ``!#$%&'*+-.^_`|~``; its error has one text.
#[verifier::external_body]
fn header_name_error(name: &str) -> (r: Option<String>)
    ensures
        r is None <==> is_header_name(name@),
        r matches Some(err) ==> err@ == "invalid HTTP header name"@,
{
    reqwest::header::HeaderName::from_bytes(name.as_bytes()).err().map(|e| e.to_string())
}

/// Checks a header value with `HeaderValue::from_str` of `http`, which `reqwest` exports. It takes any
/// bytes but control ones other than the tab; its error has one text.
#[verifier::external_body]
fn header_value_error(value: &str) -> (r: Option<String>)
    ensures
        r is None <==> is_header_value(value@),
        r matches Some(err) ==> err@ == "failed to parse header value"@,
{
    reqwest::header::HeaderValue::from_str(value).err().map(|e| e.to_string())
}

/// What `StatusCode` of `http` displays for a number.
pub uninterp spec fn status_text_of(status: u16) -> Seq<char>;

/// Writes a status with the `Display` of `StatusCode` of `http`, which `reqwest` exports: the number and
/// its reason phrase, or the error of a number that is no status. The text is named by the number.
#[verifier::external_body]
fn status_text(status: u16) -> (r: String)
    ensures
        r@ == status_text_of(status),
{
    match reqwest::StatusCode::from_u16(status) {
        Ok(code) => code.to_string(),
        Err(e) => e.to_string(),
    }
}

/// Whether a status says that a request succeeded.
pub open spec fn succeeded(status: u16) -> bool {
    200 <= status < 300
}

/// Why a header is refused.
pub open spec fn header_problem(name: Seq<char>, value: Seq<char>) -> Option<ErrorView> {
    if !is_header_name(name) {
        invalid(
            "remote.headers contains invalid header name '"@ + name + "': "@
                + "invalid HTTP header name"@,
        )
    } else if !is_header_value(value) {
        invalid(
            "remote.headers["@ + name + "] has an invalid value: "@
                + "failed to parse header value"@,
        )
    } else {
        None
    }
}

/// Why headers are refused: the problem of the first one that is.
pub open spec fn headers_problem(headers: Seq<(String, String)>) -> Option<ErrorView>
    decreases headers.len(),
{
    if headers.len() == 0 {
        None
    } else {
        match headers_problem(headers.drop_last()) {
            Some(e) => Some(e),
            None => header_problem(headers.last().0@, headers.last().1@),
        }
    }
}

/// A text without the slashes at its end.
pub open spec fn without_trailing_slashes(text: Seq<char>) -> Seq<char>
    decreases text.len(),
{
    if text.len() > 0 && text.last() == '/' {
        without_trailing_slashes(text.drop_last())
    } else {
        text
    }
}

/// Why a configuration gives no client.
pub open spec fn client_problem(config: NeMoGuardrailsConfig) -> Option<ErrorView> {
    match config.remote {
        None => invalid("remote config is required when mode is 'remote'"@),
        Some(remote) => match remote.endpoint {
            None => invalid("remote.endpoint is required in remote mode"@),
            Some(_) => headers_problem(remote.headers.entries@),
        },
    }
}

/// Checks a header.
fn check_header(name: &str, value: &str) -> (r: Result<(), PluginError>)
    ensures
        failure(r) == header_problem(name@, value@),
{
    match header_name_error(name) {
        Some(err) => {
            return Err(
                PluginError::InvalidConfig(
                    concat4(
                        "remote.headers contains invalid header name '",
                        name,
                        "': ",
                        err.as_str(),
                    ),
                ),
            );
        },
        None => {},
    }
    match header_value_error(value) {
        Some(err) => Err(
            PluginError::InvalidConfig(
                concat4("remote.headers[", name, "] has an invalid value: ", err.as_str()),
            ),
        ),
        None => Ok(()),
    }
}

/// Checks headers, in their order.
fn check_headers(headers: &TextMap<String>) -> (r: Result<(), PluginError>)
    ensures
        failure(r) == headers_problem(headers.entries@),
{
    let ghost all = headers.entries@;
    let mut i: usize = 0;
    assert(all.take(0) =~= seq![]);
    while i < headers.entries.len()
        invariant
            i <= headers.entries.len(),
            all == headers.entries@,
            headers_problem(all.take(i as int)) is None,
        decreases headers.entries.len() - i,
    {
        let checked = check_header(
            headers.entries[i].0.as_str(),
            headers.entries[i].1.as_str(),
        );
        proof {
            assert(all.take(i + 1).drop_last() =~= all.take(i as int));
        }
        match checked {
            Ok(()) => {},
            Err(e) => {
                proof {
                    lemma_first_problem_stays(all, i + 1);
                }
                return Err(e);
            },
        }
        i += 1;
    }
    assert(all.take(all.len() as int) =~= all);
    Ok(())
}

/// The problem of the first headers is that of all.
proof fn lemma_first_problem_stays(headers: Seq<(String, String)>, n: int)
    requires
        0 <= n <= headers.len(),
        headers_problem(headers.take(n)) is Some,
    ensures
        headers_problem(headers) == headers_problem(headers.take(n)),
    decreases headers.len(),
{
    if n == headers.len() {
        assert(headers.take(n) =~= headers);
    } else {
        assert(headers.drop_last().take(n) =~= headers.take(n));
        lemma_first_problem_stays(headers.drop_last(), n);
    }
}

/// Checks what a client is made of.
pub fn check_client_settings(config: &NeMoGuardrailsConfig) -> (r: Result<(), PluginError>)
    ensures
        failure(r) == client_problem(*config),
{
    match &config.remote {
        None => Err(invalid_config("remote config is required when mode is 'remote'")),
        Some(remote) => match &remote.endpoint {
            None => Err(invalid_config("remote.endpoint is required in remote mode")),
            Some(_) => check_headers(&remote.headers),
        },
    }
}

/// A text without the slashes at its end.
fn trim_trailing_slashes(text: &str) -> (r: String)
    ensures
        r@ == without_trailing_slashes(text@),
{
    let chars = chars_of(text);
    let mut n: usize = chars.len();
    assert(text@.take(n as int) =~= text@);
    while n > 0 && chars[n - 1] == '/'
        invariant
            n <= chars.len(),
            chars@ == text@,
            without_trailing_slashes(text@) == without_trailing_slashes(text@.take(n as int)),
        decreases n,
    {
        proof {
            let part = text@.take(n as int);
            assert(part.last() == text@[n - 1]);
            assert(part.drop_last() =~= text@.take(n - 1));
        }
        n -= 1;
    }
    proof {
        let part = text@.take(n as int);
        if n > 0 {
            assert(part.last() == text@[n - 1]);
        }
        assert(without_trailing_slashes(part) == part);
        assert(part =~= text@.subrange(0, n as int));
    }
    text.substring_char(0, n).to_owned()
}

/// What is known of the access to the service.
#[derive(Clone, Copy, Debug, PartialEq, Eq, Structural)]
pub enum AccessState {
    /// Nothing yet.
    Pending,
    /// The last request failed.
    Failed,
    /// The last request succeeded.
    Validated,
}

/// Something new about the access to the service.
#[derive(Clone, Copy, Debug, PartialEq, Eq, Structural)]
pub enum AccessNote {
    /// The service takes requests.
    Validated,
    /// The service denies permission.
    PermissionDenied,
    /// The service answers with another unsuccessful status.
    UnsuccessfulStatus,
    /// The service cannot be reached.
    ConnectionFailed,
}

/// A mark that is emitted about a request.
pub struct RemoteMark {
    /// Name of the mark.
    pub name: &'static str,
    /// Data of the mark.
    pub data: Json,
}

/// The mathematical form of a mark.
pub type MarkView = (Seq<char>, JsonView);

impl View for RemoteMark {
    type V = MarkView;

    open spec fn view(&self) -> MarkView {
        (self.name@, json_view(self.data))
    }
}

/// A status as JSON.
pub open spec fn status_json(status: Option<u16>) -> Option<JsonView> {
    match status {
        Some(s) => Some(JsonView::Number(NumberView::Unsigned(s as u64))),
        None => None,
    }
}

/// A text that may be missing, as JSON.
pub open spec fn seq_json(text: Option<Seq<char>>) -> Option<JsonView> {
    match text {
        Some(t) => Some(JsonView::Text(t)),
        None => None,
    }
}

/// The data of a mark about a request.
pub open spec fn mark_map(
    stream: bool,
    config_id: Option<String>,
    config_ids: Seq<String>,
    status: Option<u16>,
    error: Option<Seq<char>>,
) -> Map<Seq<char>, JsonView> {
    let a = Map::<Seq<char>, JsonView>::empty().insert("stream"@, JsonView::Bool(stream));
    let b = with_field(a, "config_id"@, opt_text_json(config_id));
    let c = if config_ids.len() == 0 {
        b
    } else {
        b.insert("config_ids"@, texts_json(config_ids))
    };
    with_field(with_field(c, "http_status"@, status_json(status)), "error"@, seq_json(error))
}

/// The data of a mark about a check of a tool call.
pub open spec fn tool_mark_map(
    kind: RemoteCheckKind,
    tool_name: Seq<char>,
    config_id: Option<String>,
    config_ids: Seq<String>,
    status: Option<u16>,
    error: Option<Seq<char>>,
) -> Map<Seq<char>, JsonView> {
    mark_map(false, config_id, config_ids, status, error).insert(
        "surface"@,
        JsonView::Text(surface_name(kind)),
    ).insert("tool_name"@, JsonView::Text(tool_name))
}

/// What a mark says of an unsuccessful answer, whose body stays out of it.
pub open spec fn redacted(status: u16, payload: Seq<char>) -> Seq<char> {
    "remote request failed with status "@ + decimal(status as nat)
        + "; error body omitted from marks ("@ + decimal(encode_utf8(payload).len()) + " bytes)"@
}

/// What a mark says of an unsuccessful answer.
pub fn redact_remote_error_payload(status: u16, payload: &str) -> (r: String)
    ensures
        r@ == redacted(status, payload@),
{
    let shown = format_u64(status as u64);
    let length = format_u64(bytes_of(payload).len() as u64);
    concat5(
        "remote request failed with status ",
        shown.as_str(),
        "; error body omitted from marks (",
        length.as_str(),
        " bytes)",
    )
}

/// The data of a mark about a request.
fn remote_mark_data(
    stream: bool,
    config_id: &Option<String>,
    config_ids: &Vec<String>,
    status: Option<u16>,
    error: Option<String>,
) -> (r: TextMap<Json>)
    ensures
        object_view(r.entries@) == mark_map(
            stream,
            *config_id,
            config_ids@,
            status,
            opt_text(error),
        ),
{
    let mut data = new_object();
    put(&mut data, "stream", Json::Bool(stream));
    put_opt(&mut data, "config_id", opt_text_value(config_id));
    if config_ids.len() > 0 {
        put(&mut data, "config_ids", texts_value(config_ids));
    }
    match status {
        Some(s) => put(&mut data, "http_status", Json::Number(JsonNumber::Unsigned(s as u64))),
        None => {},
    }
    match error {
        Some(e) => put(&mut data, "error", Json::Text(e)),
        None => {},
    }
    data
}

/// The subject of the marks about a request.
#[derive(Clone, Copy, Debug, PartialEq, Eq, Structural)]
pub enum MarkSubject {
    /// An LLM call, which may be streamed.
    Llm {
        /// Whether it is streamed.
        stream: bool,
    },
    /// A check of a tool call.
    Tool(RemoteCheckKind),
}

/// The runtime of the remote backend.
pub struct RemoteBackendRuntime {
    /// Base URL of the service.
    pub endpoint: String,
    /// The configuration that requests name.
    pub config_id: Option<String>,
    /// The configurations that requests name.
    pub config_ids: Vec<String>,
    /// What LLM requests tell the service about rails.
    pub llm_guardrails: Option<Json>,
    /// What checks of tool arguments tell the service about rails.
    pub tool_input_guardrails: TextMap<Json>,
    /// What checks of tool results tell the service about rails.
    pub tool_output_guardrails: TextMap<Json>,
    /// What is known of the access to the service.
    pub access_state: AccessState,
}

/// Whether a runtime is the one of a configuration.
pub open spec fn runtime_of(
    runtime: RemoteBackendRuntime,
    config: NeMoGuardrailsConfig,
    remote: RemoteBackendConfig,
) -> bool {
    &&& remote.endpoint is Some
    &&& runtime.endpoint@ == without_trailing_slashes(remote.endpoint->0@)
    &&& opt_text(runtime.config_id) == opt_text(remote.config_id)
    &&& texts(runtime.config_ids@) == texts(remote.config_ids@)
    &&& opt_value(runtime.llm_guardrails) == unless_empty(
        llm_guardrails_map(
            remote.config_id,
            remote.config_ids@,
            config.request_defaults,
            config.input,
            config.output,
        ),
    )
    &&& object_view(runtime.tool_input_guardrails.entries@) == tool_guardrails_map(
        RemoteCheckKind::Input,
        remote.config_id,
        remote.config_ids@,
        config.request_defaults,
    )
    &&& object_view(runtime.tool_output_guardrails.entries@) == tool_guardrails_map(
        RemoteCheckKind::Output,
        remote.config_id,
        remote.config_ids@,
        config.request_defaults,
    )
    &&& runtime.access_state == AccessState::Pending
}

/// Why a configuration gives no runtime, by whether its client could be built.
pub open spec fn runtime_problem(
    config: NeMoGuardrailsConfig,
    client: Result<(), String>,
) -> Option<ErrorView> {
    match client_problem(config) {
        Some(e) => Some(e),
        None => match client {
            Err(err) => Some(
                (
                    PluginErrorKind::RegistrationFailed,
                    "failed to construct NeMo Guardrails remote client: "@ + err@,
                ),
            ),
            Ok(()) => None,
        },
    }
}

/// The body of an LLM request, by its content and whether it asks for tools.
pub open spec fn request_body(
    guardrails: Option<JsonView>,
    content: JsonView,
    tools: Result<bool, FlowErrorView>,
    stream: bool,
) -> Result<JsonView, FlowErrorView> {
    match tools {
        Err(e) => Err(e),
        Ok(true) => Err(
            (
                FlowErrorKind::Internal,
                "nemo_guardrails remote backend does not support OpenAI tool definitions or tool_choice yet"@,
            ),
        ),
        Ok(false) => match content {
            JsonView::Object(object) => Ok(
                JsonView::Object(
                    with_field(
                        object.insert("stream"@, JsonView::Bool(stream)),
                        "guardrails"@,
                        guardrails,
                    ),
                ),
            ),
            _ => Err((FlowErrorKind::Internal, "LLM request content is not a JSON object"@)),
        },
    }
}

/// Whether a request asks for tools, or the error of reading it, in its mathematical form.
pub open spec fn tools_view(tools: Result<bool, FlowError>) -> Result<bool, FlowErrorView> {
    match tools {
        Ok(b) => Ok(b),
        Err(e) => Err(e@),
    }
}

/// The body of a check of a tool call.
pub open spec fn check_body(
    messages: Seq<JsonView>,
    guardrails: Map<Seq<char>, JsonView>,
) -> JsonView {
    JsonView::Object(
        map![
            "model"@ => JsonView::Text(Seq::empty()),
            "messages"@ => JsonView::Array(messages),
            "stream"@ => JsonView::Bool(false),
            "guardrails"@ => JsonView::Object(guardrails),
        ],
    )
}

/// How a request is called where its body cannot be read.
pub open spec fn body_context(subject: MarkSubject) -> Seq<char> {
    match subject {
        MarkSubject::Llm { stream } => if stream {
            "remote stream error body"@
        } else {
            "remote response body"@
        },
        MarkSubject::Tool(_) => "remote response body"@,
    }
}

/// How a request is called where it fails.
pub open spec fn request_context(subject: MarkSubject) -> Seq<char> {
    match subject {
        MarkSubject::Llm { stream } => if stream {
            "remote stream request"@
        } else {
            "remote request"@
        },
        MarkSubject::Tool(_) => "remote request"@,
    }
}

/// What a mark says of a failure: for a check of a tool call, with the name of the plugin.
pub open spec fn mark_text(subject: MarkSubject, message: Seq<char>) -> Seq<char> {
    match subject {
        MarkSubject::Llm { .. } => message,
        MarkSubject::Tool(_) => "nemo_guardrails "@ + message,
    }
}

/// What came of a request: the mark about it and its result.
pub struct RemoteOutcome {
    /// The mark.
    pub mark: RemoteMark,
    /// The result.
    pub result: Result<Json, FlowError>,
}

/// The mathematical form of what came of a request.
pub type OutcomeView = (MarkView, Result<JsonView, FlowErrorView>);

impl View for RemoteOutcome {
    type V = OutcomeView;

    open spec fn view(&self) -> OutcomeView {
        (self.mark@, result_view(self.result))
    }
}

impl RemoteBackendRuntime {
    /// Creates the runtime of a configuration, given with whether its client could be built.
    pub fn new(config: &NeMoGuardrailsConfig, client: Result<(), String>) -> (r: Result<
        Self,
        PluginError,
    >)
        ensures
            failure(r) == runtime_problem(*config, client),
            r matches Ok(runtime) ==> config.remote is Some && runtime_of(
                runtime,
                *config,
                config.remote->0,
            ),
    {
        match check_client_settings(config) {
            Ok(()) => {},
            Err(e) => {
                return Err(e);
            },
        }
        match client {
            Ok(()) => {},
            Err(err) => {
                return Err(
                    PluginError::RegistrationFailed(
                        concat2(
                            "failed to construct NeMo Guardrails remote client: ",
                            err.as_str(),
                        ),
                    ),
                );
            },
        }
        let remote = match &config.remote {
            Some(remote) => remote,
            None => {
                return Err(invalid_config("remote config is required when mode is 'remote'"));
            },
        };
        let endpoint = match &remote.endpoint {
            Some(endpoint) => endpoint,
            None => {
                return Err(invalid_config("remote.endpoint is required in remote mode"));
            },
        };
        let defaults = match &config.request_defaults {
            Some(defaults) => Some(defaults),
            None => None,
        };
        Ok(
            RemoteBackendRuntime {
                endpoint: trim_trailing_slashes(endpoint.as_str()),
                config_id: clone_opt(&remote.config_id),
                config_ids: clone_texts(&remote.config_ids),
                llm_guardrails: build_llm_guardrails_config(
                    &remote.config_id,
                    &remote.config_ids,
                    defaults,
                    config.input,
                    config.output,
                ),
                tool_input_guardrails: build_tool_check_guardrails_config(
                    RemoteCheckKind::Input,
                    &remote.config_id,
                    &remote.config_ids,
                    defaults,
                ),
                tool_output_guardrails: build_tool_check_guardrails_config(
                    RemoteCheckKind::Output,
                    &remote.config_id,
                    &remote.config_ids,
                    defaults,
                ),
                access_state: AccessState::Pending,
            },
        )
    }

    /// The address that requests go to.
    pub fn chat_completions_url(&self) -> (r: String)
        ensures
            r@ == self.endpoint@ + "/v1/chat/completions"@,
    {
        concat2(self.endpoint.as_str(), "/v1/chat/completions")
    }

    /// The mark data of a subject.
    pub open spec fn mark_data(
        self,
        subject: MarkSubject,
        tool_name: Seq<char>,
        status: Option<u16>,
        error: Option<Seq<char>>,
    ) -> JsonView {
        JsonView::Object(
            match subject {
                MarkSubject::Llm { stream } => mark_map(
                    stream,
                    self.config_id,
                    self.config_ids@,
                    status,
                    error,
                ),
                MarkSubject::Tool(kind) => tool_mark_map(
                    kind,
                    tool_name,
                    self.config_id,
                    self.config_ids@,
                    status,
                    error,
                ),
            },
        )
    }

    /// A mark about a request. The name of a tool counts for a check of one alone.
    pub fn mark(
        &self,
        name: &'static str,
        subject: MarkSubject,
        tool_name: &str,
        status: Option<u16>,
        error: Option<String>,
    ) -> (r: RemoteMark)
        ensures
            r@ == (name@, self.mark_data(subject, tool_name@, status, opt_text(error))),
    {
        let data = match subject {
            MarkSubject::Llm { stream } => remote_mark_data(
                stream,
                &self.config_id,
                &self.config_ids,
                status,
                error,
            ),
            MarkSubject::Tool(kind) => {
                let mut data = remote_mark_data(
                    false,
                    &self.config_id,
                    &self.config_ids,
                    status,
                    error,
                );
                put(&mut data, "surface", text_json(surface_str(kind)));
                put(&mut data, "tool_name", text_json(tool_name));
                data
            },
        };
        RemoteMark { name, data: Json::Object(data) }
    }

    /// The mark at the start of a request.
    pub fn start_mark(&self, subject: MarkSubject, tool_name: &str) -> (r: RemoteMark)
        ensures
            r@ == ("nemo_guardrails.remote.start"@, self.mark_data(
                subject,
                tool_name@,
                None,
                None,
            )),
    {
        self.mark("nemo_guardrails.remote.start", subject, tool_name, None, None)
    }

    /// The mark at the end of a request that succeeded.
    pub fn end_mark(&self, subject: MarkSubject, tool_name: &str, status: u16) -> (r: RemoteMark)
        ensures
            r@ == ("nemo_guardrails.remote.end"@, self.mark_data(
                subject,
                tool_name@,
                Some(status),
                None,
            )),
    {
        self.mark("nemo_guardrails.remote.end", subject, tool_name, Some(status), None)
    }

    /// The mark of a request that failed.
    pub fn error_mark(
        &self,
        subject: MarkSubject,
        tool_name: &str,
        status: Option<u16>,
        error: String,
    ) -> (r: RemoteMark)
        ensures
            r@ == ("nemo_guardrails.remote.error"@, self.mark_data(
                subject,
                tool_name@,
                status,
                Some(error@),
            )),
    {
        self.mark("nemo_guardrails.remote.error", subject, tool_name, status, Some(error))
    }

    /// The body of an LLM request, given with whether the request asks for tools.
    pub fn build_request_body(
        &self,
        content: &Json,
        tools: Result<bool, FlowError>,
        stream: bool,
    ) -> (r: Result<Json, FlowError>)
        ensures
            result_view(r) == request_body(
                opt_value(self.llm_guardrails),
                json_view(*content),
                tools_view(tools),
                stream,
            ),
    {
        match tools {
            Err(e) => {
                return Err(e);
            },
            Ok(true) => {
                return Err(
                    FlowError::internal(
                        "nemo_guardrails remote backend does not support OpenAI tool definitions or tool_choice yet".to_owned(),
                    ),
                );
            },
            Ok(false) => {},
        }
        match content {
            Json::Object(object) => {
                let mut body = copy_object(object);
                put(&mut body, "stream", Json::Bool(stream));
                match &self.llm_guardrails {
                    Some(guardrails) => put(&mut body, "guardrails", copy_json(guardrails)),
                    None => {},
                }
                Ok(Json::Object(body))
            },
            _ => Err(
                FlowError::internal("LLM request content is not a JSON object".to_owned()),
            ),
        }
    }

    /// The body of a check of a tool call.
    pub fn build_check_body(&self, messages: Vec<Json>, kind: RemoteCheckKind) -> (r: Json)
        ensures
            json_view(r) == check_body(
                array_view(messages@),
                match kind {
                    RemoteCheckKind::Input => object_view(self.tool_input_guardrails.entries@),
                    RemoteCheckKind::Output => object_view(self.tool_output_guardrails.entries@),
                },
            ),
    {
        let guardrails = match kind {
            RemoteCheckKind::Input => copy_object(&self.tool_input_guardrails),
            RemoteCheckKind::Output => copy_object(&self.tool_output_guardrails),
        };
        let mut body = new_object();
        put(&mut body, "model", Json::Text(String::new()));
        put(&mut body, "messages", Json::Array(messages));
        put(&mut body, "stream", Json::Bool(false));
        put(&mut body, "guardrails", Json::Object(guardrails));
        Json::Object(body)
    }

    /// Takes the status of an answer: what is new about the access to the service.
    pub fn record_access_status(&mut self, status: u16) -> (r: Option<AccessNote>)
        ensures
            r == status_note(old(self).access_state, status),
            *final(self) == (RemoteBackendRuntime {
                access_state: if succeeded(status) {
                    AccessState::Validated
                } else {
                    AccessState::Failed
                },
                ..*old(self)
            }),
    {
        let before = self.access_state;
        if 200 <= status && status < 300 {
            self.access_state = AccessState::Validated;
            return if before == AccessState::Validated {
                None
            } else {
                Some(AccessNote::Validated)
            };
        }
        self.access_state = AccessState::Failed;
        if before == AccessState::Failed {
            None
        } else if status == 401 || status == 403 {
            Some(AccessNote::PermissionDenied)
        } else {
            Some(AccessNote::UnsuccessfulStatus)
        }
    }

    /// Takes that the service could not be reached: what is new about the access to it.
    pub fn record_access_failure(&mut self) -> (r: Option<AccessNote>)
        ensures
            r == if old(self).access_state == AccessState::Failed {
                None
            } else {
                Some(AccessNote::ConnectionFailed)
            },
            *final(self) == (RemoteBackendRuntime {
                access_state: AccessState::Failed,
                ..*old(self)
            }),
    {
        let before = self.access_state;
        self.access_state = AccessState::Failed;
        if before == AccessState::Failed {
            None
        } else {
            Some(AccessNote::ConnectionFailed)
        }
    }

    /// What a failure with a message comes to.
    pub open spec fn failed(
        self,
        subject: MarkSubject,
        tool_name: Seq<char>,
        status: Option<u16>,
        message: Seq<char>,
    ) -> OutcomeView {
        (
            (
                "nemo_guardrails.remote.error"@,
                self.mark_data(subject, tool_name, status, Some(mark_text(subject, message))),
            ),
            Err((FlowErrorKind::Internal, "nemo_guardrails "@ + message)),
        )
    }

    /// What a failure with a message comes to.
    fn fail(
        &self,
        subject: MarkSubject,
        tool_name: &str,
        status: Option<u16>,
        message: String,
    ) -> (r: RemoteOutcome)
        ensures
            r@ == self.failed(subject, tool_name@, status, message@),
    {
        let error = concat2("nemo_guardrails ", message.as_str());
        let told = match subject {
            MarkSubject::Llm { .. } => message,
            MarkSubject::Tool(_) => error.clone(),
        };
        RemoteOutcome {
            mark: self.error_mark(subject, tool_name, status, told),
            result: Err(FlowError::internal(error)),
        }
    }

    /// What a request that could not be sent comes to.
    pub fn send_failed(&self, subject: MarkSubject, tool_name: &str, err: &str) -> (r:
        RemoteOutcome)
        ensures
            r@ == self.failed(
                subject,
                tool_name@,
                None,
                request_context(subject) + " failed: "@ + err@,
            ),
    {
        let context = match subject {
            MarkSubject::Llm { stream: true } => "remote stream request",
            _ => "remote request",
        };
        self.fail(subject, tool_name, None, concat3(context, " failed: ", err))
    }

    /// What an answer whose body could not be read comes to.
    pub fn read_failed(
        &self,
        subject: MarkSubject,
        tool_name: &str,
        status: u16,
        err: &str,
    ) -> (r: RemoteOutcome)
        ensures
            r@ == self.failed(
                subject,
                tool_name@,
                Some(status),
                "failed to read "@ + body_context(subject) + ": "@ + err@,
            ),
    {
        let context = match subject {
            MarkSubject::Llm { stream: true } => "remote stream error body",
            _ => "remote response body",
        };
        self.fail(subject, tool_name, Some(status), concat4("failed to read ", context, ": ", err))
    }

    /// What an unsuccessful answer comes to, by how its status is shown.
    pub open spec fn refused(
        self,
        subject: MarkSubject,
        tool_name: Seq<char>,
        status: u16,
        shown: Seq<char>,
        payload: Seq<char>,
    ) -> OutcomeView {
        (
            (
                "nemo_guardrails.remote.error"@,
                self.mark_data(
                    subject,
                    tool_name,
                    Some(status),
                    Some(redacted(status, payload)),
                ),
            ),
            Err(
                (
                    FlowErrorKind::Internal,
                    "nemo_guardrails "@ + request_context(subject) + " failed with status "@
                        + shown + ": "@ + payload,
                ),
            ),
        )
    }

    /// What an unsuccessful answer comes to, given with how its status is shown.
    pub fn status_refused_as(
        &self,
        subject: MarkSubject,
        tool_name: &str,
        status: u16,
        shown: &str,
        payload: &str,
    ) -> (r: RemoteOutcome)
        ensures
            r@ == self.refused(subject, tool_name@, status, shown@, payload@),
    {
        let context = match subject {
            MarkSubject::Llm { stream: true } => "remote stream request",
            _ => "remote request",
        };
        let told = redact_remote_error_payload(status, payload);
        let text = concat5("nemo_guardrails ", context, " failed with status ", shown, ": ");
        RemoteOutcome {
            mark: self.error_mark(subject, tool_name, Some(status), told),
            result: Err(FlowError::internal(concat2(text.as_str(), payload))),
        }
    }

    /// What an unsuccessful answer comes to.
    pub fn status_refused(
        &self,
        subject: MarkSubject,
        tool_name: &str,
        status: u16,
        payload: &str,
    ) -> (r: RemoteOutcome)
        ensures
            r@ == self.refused(subject, tool_name@, status, status_text_of(status), payload@),
    {
        self.status_refused_as(subject, tool_name, status, status_text(status).as_str(), payload)
    }

    /// What a successful answer comes to, by what its body parses to.
    pub open spec fn answered(
        self,
        subject: MarkSubject,
        tool_name: Seq<char>,
        status: u16,
        parsed: Result<JsonView, Seq<char>>,
    ) -> OutcomeView {
        match parsed {
            Err(err) => self.failed(
                subject,
                tool_name,
                Some(status),
                "failed to parse remote response JSON: "@ + err,
            ),
            Ok(value) => (
                (
                    "nemo_guardrails.remote.end"@,
                    self.mark_data(subject, tool_name, Some(status), None),
                ),
                Ok(value),
            ),
        }
    }

    /// What a successful answer comes to, given with what its body parses to.
    pub fn take_parsed(
        &self,
        subject: MarkSubject,
        tool_name: &str,
        status: u16,
        parsed: Result<Json, String>,
    ) -> (r: RemoteOutcome)
        ensures
            r@ == self.answered(subject, tool_name@, status, parsed_view(parsed)),
    {
        match parsed {
            Err(err) => self.fail(
                subject,
                tool_name,
                Some(status),
                concat2("failed to parse remote response JSON: ", err.as_str()),
            ),
            Ok(value) => RemoteOutcome {
                mark: self.end_mark(subject, tool_name, status),
                result: Ok(value),
            },
        }
    }

    /// What an answer comes to, by its status and its body or the error of reading it.
    pub open spec fn response_view(
        self,
        subject: MarkSubject,
        tool_name: Seq<char>,
        status: u16,
        payload: Result<String, String>,
    ) -> OutcomeView {
        match payload {
            Err(err) => self.failed(
                subject,
                tool_name,
                Some(status),
                "failed to read "@ + body_context(subject) + ": "@ + err@,
            ),
            Ok(text) => if succeeded(status) {
                self.answered(subject, tool_name, status, json_of(text@))
            } else {
                self.refused(subject, tool_name, status, status_text_of(status), text@)
            },
        }
    }

    /// Takes an answer: the mark about it and its result.
    pub fn take_response(
        &self,
        subject: MarkSubject,
        tool_name: &str,
        status: u16,
        payload: Result<String, String>,
    ) -> (r: RemoteOutcome)
        ensures
            r@ == self.response_view(subject, tool_name@, status, payload),
    {
        match payload {
            Err(err) => self.read_failed(subject, tool_name, status, err.as_str()),
            Ok(text) => if 200 <= status && status < 300 {
                self.take_parsed(subject, tool_name, status, parse_json(text.as_str()))
            } else {
                self.status_refused(subject, tool_name, status, text.as_str())
            },
        }
    }
}

/// What a status tells about the access to the service that was not known.
pub open spec fn status_note(before: AccessState, status: u16) -> Option<AccessNote> {
    if succeeded(status) {
        if before == AccessState::Validated {
            None
        } else {
            Some(AccessNote::Validated)
        }
    } else if before == AccessState::Failed {
        None
    } else if status == 401 || status == 403 {
        Some(AccessNote::PermissionDenied)
    } else {
        Some(AccessNote::UnsuccessfulStatus)
    }
}

/// The intercepts of the remote backend.
pub fn plan_remote_backend(config: &NeMoGuardrailsConfig) -> (r: Vec<GuardrailsRegistration>)
    ensures
        registration_facts(r@) == intercepts(
            *config,
            "llm_remote_backend"@,
            "llm_stream_remote_backend"@,
            "tool_remote_backend"@,
        ),
{
    plan_intercepts(
        config,
        "llm_remote_backend",
        "llm_stream_remote_backend",
        "tool_remote_backend",
    )
}

/// Something that was read from a streamed answer.
pub enum StreamRead {
    /// A part of it, decoded to the data of its events.
    Events(Vec<Json>),
    /// A part or the rest of it that does not decode, with how the error is shown.
    Undecodable {
        /// The error.
        error: FlowError,
        /// How it is shown.
        shown: String,
    },
    /// The error of reading a part.
    Failed(String),
    /// Its end, with the data of an event that was still to come.
    Ended(Option<Json>),
}

/// What to do after something was read from a streamed answer.
pub struct StreamReadStep {
    /// What the reader of the stream is sent, in order.
    pub items: Vec<Result<Json, FlowError>>,
    /// The mark that is emitted: before an error is sent, but after the last event.
    pub mark: Option<RemoteMark>,
    /// Whether nothing more is read.
    pub stop: bool,
}

/// What readers are sent, in its mathematical form.
pub open spec fn item_views(items: Seq<Result<Json, FlowError>>) -> Seq<
    Result<JsonView, FlowErrorView>,
> {
    Seq::new(items.len(), |i: int| result_view(items[i]))
}

/// A mark that may be missing, in its mathematical form.
pub open spec fn opt_mark(mark: Option<RemoteMark>) -> Option<MarkView> {
    match mark {
        Some(m) => Some(m@),
        None => None,
    }
}

/// The data of events, as readers are sent it.
pub open spec fn event_views(events: Seq<JsonView>) -> Seq<Result<JsonView, FlowErrorView>> {
    Seq::new(events.len(), |i: int| Ok(events[i]))
}

/// What readers are sent after something was read.
pub open spec fn stream_items(read: StreamRead) -> Seq<Result<JsonView, FlowErrorView>> {
    match read {
        StreamRead::Events(events) => event_views(array_view(events@)),
        StreamRead::Undecodable { error, .. } => seq![Err(error@)],
        StreamRead::Failed(err) => seq![
            Err(
                (
                    FlowErrorKind::Internal,
                    "nemo_guardrails failed to read remote stream chunk: "@ + err@,
                ),
            ),
        ],
        StreamRead::Ended(None) => Seq::empty(),
        StreamRead::Ended(Some(event)) => seq![Ok(json_view(event))],
    }
}

impl RemoteBackendRuntime {
    /// The mark that is emitted after something was read from a streamed answer.
    pub open spec fn stream_mark(self, status: u16, read: StreamRead) -> Option<MarkView> {
        let subject = MarkSubject::Llm { stream: true };
        match read {
            StreamRead::Events(_) => None,
            StreamRead::Undecodable { shown, .. } => Some(
                (
                    "nemo_guardrails.remote.error"@,
                    self.mark_data(subject, ""@, Some(status), Some(shown@)),
                ),
            ),
            StreamRead::Failed(err) => Some(
                (
                    "nemo_guardrails.remote.error"@,
                    self.mark_data(
                        subject,
                        ""@,
                        Some(status),
                        Some("failed to read remote stream chunk: "@ + err@),
                    ),
                ),
            ),
            StreamRead::Ended(_) => Some(
                (
                    "nemo_guardrails.remote.end"@,
                    self.mark_data(subject, ""@, Some(status), None),
                ),
            ),
        }
    }

    /// Takes something that was read from a streamed answer.
    pub fn take_stream_read(&self, status: u16, read: StreamRead) -> (r: StreamReadStep)
        ensures
            item_views(r.items@) == stream_items(read),
            opt_mark(r.mark) == self.stream_mark(status, read),
            r.stop == !(read is Events),
    {
        let subject = MarkSubject::Llm { stream: true };
        let mut items: Vec<Result<Json, FlowError>> = Vec::new();
        match read {
            StreamRead::Events(events) => {
                let items = event_items(&events);
                StreamReadStep { items, mark: None, stop: false }
            },
            StreamRead::Undecodable { error, shown } => {
                let ghost view = error@;
                items.push(Err(error));
                assert(item_views(items@) =~= seq![Err(view)]);
                StreamReadStep {
                    items,
                    mark: Some(self.error_mark(subject, "", Some(status), shown)),
                    stop: true,
                }
            },
            StreamRead::Failed(err) => {
                let error = FlowError::internal(
                    concat2(
                        "nemo_guardrails failed to read remote stream chunk: ",
                        err.as_str(),
                    ),
                );
                let told = concat2("failed to read remote stream chunk: ", err.as_str());
                let ghost view = error@;
                items.push(Err(error));
                assert(item_views(items@) =~= seq![Err(view)]);
                StreamReadStep {
                    items,
                    mark: Some(self.error_mark(subject, "", Some(status), told)),
                    stop: true,
                }
            },
            StreamRead::Ended(event) => {
                match event {
                    Some(data) => {
                        let ghost view = json_view(data);
                        items.push(Ok(data));
                        assert(item_views(items@) =~= seq![Ok(view)]);
                    },
                    None => {
                        assert(item_views(items@) =~= Seq::empty());
                    },
                }
                StreamReadStep {
                    items,
                    mark: Some(self.end_mark(subject, "", status)),
                    stop: true,
                }
            },
        }
    }
}

/// The data of events, as readers are sent it.
fn event_items(events: &Vec<Json>) -> (r: Vec<Result<Json, FlowError>>)
    ensures
        item_views(r@) == event_views(array_view(events@)),
{
    let mut items: Vec<Result<Json, FlowError>> = Vec::new();
    let mut i: usize = 0;
    while i < events.len()
        invariant
            i <= events.len(),
            items.len() == i,
            forall|k: int|
                0 <= k < i ==> result_view(#[trigger] items@[k]) == Ok::<JsonView, FlowErrorView>(
                    json_view(events@[k]),
                ),
        decreases events.len() - i,
    {
        items.push(Ok(copy_json(&events[i])));
        i += 1;
    }
    assert(item_views(items@) =~= event_views(array_view(events@)));
    items
}

/// The body of an unsuccessful answer does not get into the mark about it: two bodies of one length give
/// the same mark.
pub proof fn law_error_bodies_stay_out_of_marks(
    runtime: RemoteBackendRuntime,
    subject: MarkSubject,
    tool_name: Seq<char>,
    status: u16,
    shown: Seq<char>,
    a: Seq<char>,
    b: Seq<char>,
)
    requires
        encode_utf8(a).len() == encode_utf8(b).len(),
    ensures
        runtime.refused(subject, tool_name, status, shown, a).0 == runtime.refused(
            subject,
            tool_name,
            status,
            shown,
            b,
        ).0,
{
}

/// An answer has a result exactly where its status says so and its body parses.
pub proof fn law_only_successful_answers_have_results(
    runtime: RemoteBackendRuntime,
    subject: MarkSubject,
    tool_name: Seq<char>,
    status: u16,
    payload: Result<String, String>,
)
    ensures
        runtime.response_view(subject, tool_name, status, payload).1 is Ok <==> (payload is Ok
            && succeeded(status) && json_of(payload->Ok_0@) is Ok),
{
}

/// Two answers of one kind in a row tell something new about the access only once.
pub proof fn law_access_is_noted_once(before: AccessState, a: u16, b: u16)
    requires
        succeeded(a) == succeeded(b),
    ensures
        status_note(
            if succeeded(a) {
                AccessState::Validated
            } else {
                AccessState::Failed
            },
            b,
        ) is None,
{
}

/// Which bytes a header's name and value may hold.
pub proof fn law_headers_hold_legal_bytes(b: u8, name: Seq<char>, value: Seq<char>, i: int)
    ensures
        name_byte(b) <==> 48 <= b <= 57 || 65 <= b <= 90 || 97 <= b <= 122 || seq![
            33u8,
            35,
            36,
            37,
            38,
            39,
            42,
            43,
            45,
            46,
            94,
            95,
            96,
            124,
            126,
        ].contains(b),
        is_header_name(name) ==> encode_utf8(name).len() > 0,
        is_header_name(name) && 0 <= i < encode_utf8(name).len() ==> name_byte(
            encode_utf8(name)[i],
        ),
        is_header_value(value) && 0 <= i < encode_utf8(value).len() ==> encode_utf8(value)[i] == 9
            || encode_utf8(value)[i] >= 32 && encode_utf8(value)[i] != 127,
{
    let others = seq![33u8, 35, 36, 37, 38, 39, 42, 43, 45, 46, 94, 95, 96, 124, 126];
    assert(others[0] == 33 && others[1] == 35 && others[2] == 36 && others[3] == 37 && others[4]
        == 38 && others[5] == 39 && others[6] == 42 && others[7] == 43 && others[8] == 45
        && others[9] == 46 && others[10] == 94 && others[11] == 95 && others[12] == 96 && others[13]
        == 124 && others[14] == 126);
    assert(others.len() == 15);
}

/// Headers are sent exactly where every one of them is legal; the first that is not is told.
pub proof fn law_headers_are_checked(
    headers: Seq<(String, String)>,
    name: String,
    value: String,
)
    ensures
        headers_problem(Seq::empty()) is None,
        headers_problem(headers) is Some ==> headers_problem(headers.push((name, value)))
            == headers_problem(headers),
        headers_problem(headers) is None ==> headers_problem(headers.push((name, value)))
            == header_problem(name@, value@),
        header_problem(name@, value@) is None <==> is_header_name(name@) && is_header_value(value@),
        !is_header_name(name@) ==> header_problem(name@, value@) == Some(
            (
                PluginErrorKind::InvalidConfig,
                "remote.headers contains invalid header name '"@ + name@ + "': "@
                    + "invalid HTTP header name"@,
            ),
        ),
        is_header_name(name@) && !is_header_value(value@) ==> header_problem(name@, value@) == Some(
            (
                PluginErrorKind::InvalidConfig,
                "remote.headers["@ + name@ + "] has an invalid value: "@
                    + "failed to parse header value"@,
            ),
        ),
{
    assert(headers.push((name, value)).drop_last() =~= headers);
}

/// A remote backend is built exactly where it has an endpoint, its headers are legal, and the client
/// can be made. Slashes at the end of the endpoint do not count.
pub proof fn law_remote_backends_need_an_endpoint(
    config: NeMoGuardrailsConfig,
    client: Result<(), String>,
    text: Seq<char>,
)
    ensures
        client_problem(config) is None <==> config.remote is Some && config.remote->0.endpoint is Some
            && headers_problem(config.remote->0.headers.entries@) is None,
        config.remote is None ==> client_problem(config) == Some(
            (
                PluginErrorKind::InvalidConfig,
                "remote config is required when mode is 'remote'"@,
            ),
        ),
        config.remote is Some && config.remote->0.endpoint is None ==> client_problem(config)
            == Some(
            (PluginErrorKind::InvalidConfig, "remote.endpoint is required in remote mode"@),
        ),
        runtime_problem(config, client) is None <==> client_problem(config) is None && client is Ok,
        client_problem(config) is None && client is Err ==> runtime_problem(config, client) == Some(
            (
                PluginErrorKind::RegistrationFailed,
                "failed to construct NeMo Guardrails remote client: "@ + client->Err_0@,
            ),
        ),
        without_trailing_slashes(text + "/"@) == without_trailing_slashes(text),
        text.len() == 0 || text.last() != '/' ==> without_trailing_slashes(text) == text,
{
    reveal_strlit("/");
    assert((text + "/"@).last() == '/');
    assert((text + "/"@).drop_last() =~= text);
}

/// What a built backend holds is what was configured.
pub proof fn law_runtimes_hold_the_configuration(
    runtime: RemoteBackendRuntime,
    config: NeMoGuardrailsConfig,
    remote: RemoteBackendConfig,
)
    requires
        runtime_of(runtime, config, remote),
    ensures
        remote.endpoint is Some,
        runtime.endpoint@ == without_trailing_slashes(remote.endpoint->0@),
        opt_text(runtime.config_id) == opt_text(remote.config_id),
        runtime.config_ids@.len() == remote.config_ids@.len(),
        forall|i: int|
            0 <= i < remote.config_ids@.len() ==> (#[trigger] runtime.config_ids@[i])@
                == remote.config_ids@[i]@,
        runtime.access_state is Pending,
        object_view(runtime.tool_input_guardrails.entries@) == tool_guardrails_map(
            RemoteCheckKind::Input,
            remote.config_id,
            remote.config_ids@,
            config.request_defaults,
        ),
        object_view(runtime.tool_output_guardrails.entries@) == tool_guardrails_map(
            RemoteCheckKind::Output,
            remote.config_id,
            remote.config_ids@,
            config.request_defaults,
        ),
        opt_value(runtime.llm_guardrails) == unless_empty(
            llm_guardrails_map(
                remote.config_id,
                remote.config_ids@,
                config.request_defaults,
                config.input,
                config.output,
            ),
        ),
{
    assert(texts(runtime.config_ids@).len() == texts(remote.config_ids@).len());
    assert forall|i: int| 0 <= i < remote.config_ids@.len() implies (
    #[trigger] runtime.config_ids@[i])@ == remote.config_ids@[i]@ by {
        assert(texts(runtime.config_ids@)[i] == texts(remote.config_ids@)[i]);
    }
}

/// Marks tell the configuration, whether the exchange streams, its status and its error; those of
/// tool checks also the surface and the tool.
pub proof fn law_marks_tell_about_the_exchange(
    stream: bool,
    config_id: Option<String>,
    config_ids: Seq<String>,
    status: Option<u16>,
    error: Option<Seq<char>>,
    kind: RemoteCheckKind,
    tool_name: Seq<char>,
    key: Seq<char>,
    number: u16,
    text: Seq<char>,
)
    ensures
        mark_map(stream, config_id, config_ids, status, error)["stream"@] == JsonView::Bool(stream),
        crate::json::field(
            JsonView::Object(mark_map(stream, config_id, config_ids, status, error)),
            "config_id"@,
        ) == opt_text_json(config_id),
        config_ids.len() == 0 ==> crate::json::field(
            JsonView::Object(mark_map(stream, config_id, config_ids, status, error)),
            "config_ids"@,
        ) is None,
        config_ids.len() > 0 ==> crate::json::field(
            JsonView::Object(mark_map(stream, config_id, config_ids, status, error)),
            "config_ids"@,
        ) == Some(texts_json(config_ids)),
        crate::json::field(
            JsonView::Object(mark_map(stream, config_id, config_ids, status, error)),
            "http_status"@,
        ) == status_json(status),
        crate::json::field(
            JsonView::Object(mark_map(stream, config_id, config_ids, status, error)),
            "error"@,
        ) == seq_json(error),
        status_json(Some(number)) == Some(JsonView::Number(NumberView::Unsigned(number as u64))),
        status_json(None) is None,
        seq_json(Some(text)) == Some(JsonView::Text(text)),
        seq_json(None) is None,
        tool_mark_map(kind, tool_name, config_id, config_ids, status, error)["tool_name"@]
            == JsonView::Text(tool_name),
        tool_mark_map(
            RemoteCheckKind::Input,
            tool_name,
            config_id,
            config_ids,
            status,
            error,
        )["surface"@] == JsonView::Text("tool_input"@),
        tool_mark_map(
            RemoteCheckKind::Output,
            tool_name,
            config_id,
            config_ids,
            status,
            error,
        )["surface"@] == JsonView::Text("tool_output"@),
        key != "surface"@ && key != "tool_name"@ ==> crate::json::field(
            JsonView::Object(tool_mark_map(kind, tool_name, config_id, config_ids, status, error)),
            key,
        ) == crate::json::field(
            JsonView::Object(mark_map(false, config_id, config_ids, status, error)),
            key,
        ),
{
    reveal_strlit("stream");
    reveal_strlit("config_id");
    reveal_strlit("config_ids");
    reveal_strlit("http_status");
    reveal_strlit("error");
    reveal_strlit("surface");
    reveal_strlit("tool_name");
    assert("stream"@.len() == 6 && "config_id"@.len() == 9 && "config_ids"@.len() == 10
        && "http_status"@.len() == 11 && "error"@.len() == 5 && "surface"@.len() == 7
        && "tool_name"@.len() == 9);
    assert("config_id"@[0] == 'c' && "tool_name"@[0] == 't');
}

/// A request is sent with the configured options and says whether it streams; everything else of its
/// content stays. One with tools is refused.
pub proof fn law_request_bodies_keep_the_content(
    guardrails: Option<JsonView>,
    object: Map<Seq<char>, JsonView>,
    content: JsonView,
    stream: bool,
    e: FlowErrorView,
    key: Seq<char>,
    messages: Seq<JsonView>,
    options: Map<Seq<char>, JsonView>,
)
    ensures
        request_body(guardrails, content, Err(e), stream) == Err::<JsonView, FlowErrorView>(e),
        request_body(guardrails, content, Ok(true), stream) == Err::<JsonView, FlowErrorView>(
            (
                FlowErrorKind::Internal,
                "nemo_guardrails remote backend does not support OpenAI tool definitions or tool_choice yet"@,
            ),
        ),
        request_body(guardrails, content, Ok(false), stream) is Ok <==> content is Object,
        !(content is Object) ==> request_body(guardrails, content, Ok(false), stream) == Err::<
            JsonView,
            FlowErrorView,
        >((FlowErrorKind::Internal, "LLM request content is not a JSON object"@)),
        crate::json::field(
            request_body(guardrails, JsonView::Object(object), Ok(false), stream)->Ok_0,
            "stream"@,
        ) == Some(JsonView::Bool(stream)),
        guardrails is Some ==> crate::json::field(
            request_body(guardrails, JsonView::Object(object), Ok(false), stream)->Ok_0,
            "guardrails"@,
        ) == guardrails,
        key != "stream"@ && (key != "guardrails"@ || guardrails is None) ==> crate::json::field(
            request_body(guardrails, JsonView::Object(object), Ok(false), stream)->Ok_0,
            key,
        ) == crate::json::field(JsonView::Object(object), key),
        crate::json::field(check_body(messages, options), "model"@) == Some(
            JsonView::Text(Seq::empty()),
        ),
        crate::json::field(check_body(messages, options), "messages"@) == Some(
            JsonView::Array(messages),
        ),
        crate::json::field(check_body(messages, options), "stream"@) == Some(JsonView::Bool(false)),
        crate::json::field(check_body(messages, options), "guardrails"@) == Some(
            JsonView::Object(options),
        ),
{
    reveal_strlit("stream");
    reveal_strlit("guardrails");
    reveal_strlit("model");
    reveal_strlit("messages");
    assert("stream"@.len() == 6 && "guardrails"@.len() == 10 && "model"@.len() == 5
        && "messages"@.len() == 8);
}

/// What an answer leads to: its document where it was successful and can be parsed, and else an
/// error; a mark tells which.
pub proof fn law_answers_lead_to_their_document(
    runtime: RemoteBackendRuntime,
    subject: MarkSubject,
    tool_name: Seq<char>,
    status: u16,
    text: String,
    err: String,
)
    ensures
        succeeded(status) <==> 200 <= status <= 299,
        runtime.response_view(subject, tool_name, status, Err(err)) == runtime.failed(
            subject,
            tool_name,
            Some(status),
            "failed to read "@ + body_context(subject) + ": "@ + err@,
        ),
        200 <= status <= 299 && json_of(text@) is Ok ==> runtime.response_view(
            subject,
            tool_name,
            status,
            Ok(text),
        ) == (
            (
                "nemo_guardrails.remote.end"@,
                runtime.mark_data(subject, tool_name, Some(status), None),
            ),
            Ok::<JsonView, FlowErrorView>(json_of(text@)->Ok_0),
        ),
        200 <= status <= 299 && json_of(text@) is Err ==> runtime.response_view(
            subject,
            tool_name,
            status,
            Ok(text),
        ) == runtime.failed(
            subject,
            tool_name,
            Some(status),
            "failed to parse remote response JSON: "@ + json_of(text@)->Err_0,
        ),
        !(200 <= status <= 299) ==> runtime.response_view(
            subject,
            tool_name,
            status,
            Ok(text),
        ).1 == Err::<JsonView, FlowErrorView>(
            (
                FlowErrorKind::Internal,
                "nemo_guardrails "@ + request_context(subject) + " failed with status "@
                    + status_text_of(status) + ": "@ + text@,
            ),
        ),
        runtime.failed(subject, tool_name, Some(status), err@).1 == Err::<JsonView, FlowErrorView>(
            (FlowErrorKind::Internal, "nemo_guardrails "@ + err@),
        ),
        runtime.failed(subject, tool_name, Some(status), err@).0 == (
            "nemo_guardrails.remote.error"@,
            runtime.mark_data(subject, tool_name, Some(status), Some(mark_text(subject, err@))),
        ),
        redacted(status, text@) == "remote request failed with status "@ + decimal(status as nat)
            + "; error body omitted from marks ("@ + decimal(encode_utf8(text@).len())
            + " bytes)"@,
        runtime.refused(subject, tool_name, status, err@, text@).0 == (
            "nemo_guardrails.remote.error"@,
            runtime.mark_data(
                subject,
                tool_name,
                Some(status),
                Some(
                    "remote request failed with status "@ + decimal(status as nat)
                        + "; error body omitted from marks ("@ + decimal(
                        encode_utf8(text@).len(),
                    ) + " bytes)"@,
                ),
            ),
        ),
{
}

/// What the marks and errors of each exchange speak of.
pub proof fn law_exchanges_are_told_apart(
    runtime: RemoteBackendRuntime,
    kind: RemoteCheckKind,
    stream: bool,
    message: Seq<char>,
    tool_name: Seq<char>,
    status: Option<u16>,
    error: Option<Seq<char>>,
)
    ensures
        request_context(MarkSubject::Llm { stream: true }) == "remote stream request"@,
        request_context(MarkSubject::Llm { stream: false }) == "remote request"@,
        request_context(MarkSubject::Tool(kind)) == "remote request"@,
        body_context(MarkSubject::Llm { stream: true }) == "remote stream error body"@,
        body_context(MarkSubject::Llm { stream: false }) == "remote response body"@,
        body_context(MarkSubject::Tool(kind)) == "remote response body"@,
        mark_text(MarkSubject::Llm { stream }, message) == message,
        mark_text(MarkSubject::Tool(kind), message) == "nemo_guardrails "@ + message,
        runtime.mark_data(MarkSubject::Llm { stream }, tool_name, status, error)
            == JsonView::Object(
            mark_map(stream, runtime.config_id, runtime.config_ids@, status, error),
        ),
        runtime.mark_data(MarkSubject::Tool(kind), tool_name, status, error) == JsonView::Object(
            tool_mark_map(
                kind,
                tool_name,
                runtime.config_id,
                runtime.config_ids@,
                status,
                error,
            ),
        ),
{
}

/// Access is noted when it changes: on the first success after anything else, and on the first
/// failure after anything else, which says whether permission was denied.
pub proof fn law_access_changes_are_noted(before: AccessState, status: u16)
    ensures
        200 <= status <= 299 && !(before is Validated) ==> status_note(before, status) == Some(
            AccessNote::Validated,
        ),
        200 <= status <= 299 && before is Validated ==> status_note(before, status) is None,
        !(200 <= status <= 299) && before is Failed ==> status_note(before, status) is None,
        !(before is Failed) ==> status_note(before, 401) == Some(AccessNote::PermissionDenied),
        !(before is Failed) ==> status_note(before, 403) == Some(AccessNote::PermissionDenied),
        !(before is Failed) && !(200 <= status <= 299) && status != 401 && status != 403
            ==> status_note(before, status) == Some(AccessNote::UnsuccessfulStatus),
{
}

/// Events of a stream are passed on one by one; an end or a failure of it is told in a mark.
pub proof fn law_stream_reads_are_passed_on(
    runtime: RemoteBackendRuntime,
    status: u16,
    events: Vec<Json>,
    event: Json,
    error: FlowError,
    text: String,
    i: int,
)
    ensures
        stream_items(StreamRead::Events(events)).len() == events@.len(),
        0 <= i < events@.len() ==> stream_items(StreamRead::Events(events))[i] == Ok::<
            JsonView,
            FlowErrorView,
        >(json_view(events@[i])),
        runtime.stream_mark(status, StreamRead::Events(events)) is None,
        stream_items(StreamRead::Undecodable { error, shown: text }) == seq![
            Err::<JsonView, FlowErrorView>(error@),
        ],
        stream_items(StreamRead::Failed(text)) == seq![
            Err::<JsonView, FlowErrorView>(
                (
                    FlowErrorKind::Internal,
                    "nemo_guardrails failed to read remote stream chunk: "@ + text@,
                ),
            ),
        ],
        stream_items(StreamRead::Ended(None)).len() == 0,
        stream_items(StreamRead::Ended(Some(event))) == seq![
            Ok::<JsonView, FlowErrorView>(json_view(event)),
        ],
        runtime.stream_mark(status, StreamRead::Ended(Some(event))) == Some(
            (
                "nemo_guardrails.remote.end"@,
                runtime.mark_data(MarkSubject::Llm { stream: true }, ""@, Some(status), None),
            ),
        ),
        runtime.stream_mark(status, StreamRead::Failed(text)) == Some(
            (
                "nemo_guardrails.remote.error"@,
                runtime.mark_data(
                    MarkSubject::Llm { stream: true },
                    ""@,
                    Some(status),
                    Some("failed to read remote stream chunk: "@ + text@),
                ),
            ),
        ),
        runtime.stream_mark(status, StreamRead::Undecodable { error, shown: text }) == Some(
            (
                "nemo_guardrails.remote.error"@,
                runtime.mark_data(
                    MarkSubject::Llm { stream: true },
                    ""@,
                    Some(status),
                    Some(text@),
                ),
            ),
        ),
{
}

} // verus!
