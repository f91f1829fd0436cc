//! Messages between host and workers, and what they mean.

use vstd::prelude::*;

use crate::error::{PluginError, PluginErrorKind};
use crate::json::{json_view, opt_json, Json, JsonView};
use crate::native::scope::ScopeType;
use crate::native::status::{
    flow_failure, internal, FlowError, FlowErrorKind, FlowErrorView,
};
use crate::text::{concat2, concat3, opt_text, text_eq};

verus! {

/// Schema of plain JSON.
pub const JSON_SCHEMA: &'static str = "nemo.relay.Json@1";

/// Schema of events.
pub const EVENT_SCHEMA: &'static str = "nemo.relay.Event@1";

/// Schema of LLM requests.
pub const LLM_REQUEST_SCHEMA: &'static str = "nemo.relay.LlmRequest@1";

/// Error that a worker or the host reports.
#[derive(Debug, PartialEq, Eq)]
pub struct WorkerError {
    /// Stable machine-readable code.
    pub code: String,
    /// Human-readable text.
    pub message: String,
    /// Whether the call may be tried again.
    pub retryable: bool,
}

/// JSON with the schema that it follows.
pub struct WorkerEnvelope {
    /// Schema.
    pub schema: String,
    /// What the payload holds, or why it could not be decoded.
    pub payload: Result<Json, String>,
}

/// The payload of an envelope.
pub open spec fn payload_view(envelope: WorkerEnvelope) -> Result<JsonView, Seq<char>> {
    match envelope.payload {
        Ok(v) => Ok(json_view(v)),
        Err(e) => Err(e@),
    }
}

/// The runtime error that a worker's error stands for.
pub open spec fn worker_flow_error(code: Seq<char>, message: Seq<char>) -> FlowErrorView {
    if code == "worker.cancelled"@ {
        (FlowErrorKind::Internal, "worker invocation cancelled: "@ + message)
    } else {
        (FlowErrorKind::Internal, code + ": "@ + message)
    }
}

/// The runtime error that a worker's error stands for.
pub fn worker_error_to_flow(error: WorkerError) -> (r: FlowError)
    ensures
        r@ == worker_flow_error(error.code@, error.message@),
{
    if text_eq(error.code.as_str(), "worker.cancelled") {
        FlowError::internal(concat2("worker invocation cancelled: ", error.message.as_str()))
    } else {
        FlowError::internal(concat3(error.code.as_str(), ": ", error.message.as_str()))
    }
}

/// The plugin error that a worker's error stands for; one without a text is described by a
/// given one.
pub fn worker_error_to_plugin(error: WorkerError, fallback: &str) -> (r: PluginError)
    ensures
        r@ == (
            PluginErrorKind::RegistrationFailed,
            if error.message@.len() == 0 {
                fallback@
            } else {
                error.code@ + ": "@ + error.message@
            },
        ),
{
    if error.message.as_str().is_empty() {
        PluginError::RegistrationFailed(fallback.to_owned())
    } else {
        PluginError::RegistrationFailed(
            concat3(error.code.as_str(), ": ", error.message.as_str()),
        )
    }
}

/// The error that the host reports to a worker, by the text that a runtime error is shown as.
pub fn flow_error_to_worker(shown: String) -> (r: WorkerError)
    ensures
        r.code@ == "host.runtime_error"@,
        r.message == shown,
        !r.retryable,
{
    WorkerError { code: "host.runtime_error".to_owned(), message: shown, retryable: false }
}

/// Why an RPC failed.
#[derive(Debug, Clone, Copy, PartialEq, Eq, Structural)]
pub enum RpcCode {
    /// It took too long.
    DeadlineExceeded,
    /// It was cancelled.
    Cancelled,
    /// Any other reason.
    Other,
}

/// The runtime error of a failed RPC, by the text that its status is shown as.
pub open spec fn rpc_flow_error(context: Seq<char>, code: RpcCode, shown: Seq<char>) ->
    FlowErrorView {
    match code {
        RpcCode::DeadlineExceeded => (
            FlowErrorKind::Internal,
            "worker invocation timed out: "@ + shown,
        ),
        RpcCode::Cancelled => (FlowErrorKind::Internal, "worker invocation cancelled: "@ + shown),
        RpcCode::Other => (FlowErrorKind::Internal, context + ": "@ + shown),
    }
}

/// The runtime error of a failed RPC.
pub fn worker_status_to_flow(context: &str, code: RpcCode, shown: &str) -> (r: FlowError)
    ensures
        r@ == rpc_flow_error(context@, code, shown@),
{
    match code {
        RpcCode::DeadlineExceeded => FlowError::internal(
            concat2("worker invocation timed out: ", shown),
        ),
        RpcCode::Cancelled => FlowError::internal(
            concat2("worker invocation cancelled: ", shown),
        ),
        RpcCode::Other => FlowError::internal(concat3(context, ": ", shown)),
    }
}

/// The text of an RPC that took longer than it may.
pub fn rpc_timeout_text(timeout_millis: u64) -> (r: String)
    ensures
        r@ == "worker RPC timed out after "@ + crate::text::decimal(timeout_millis as nat) + "ms"@,
{
    let millis = crate::text::format_u64(timeout_millis);
    concat3("worker RPC timed out after ", millis.as_str(), "ms")
}

/// What a tool execution intercept of a worker gave, as it is sent.
pub struct ToolOutcomeMessage {
    /// Result of the tool: what it decodes to, where it is there.
    pub result: Option<Result<Json, String>>,
    /// Annotation.
    pub annotation: Option<Result<Json, String>>,
    /// Marks to emit.
    pub pending_marks: Option<Result<Vec<Json>, String>>,
}

/// What a tool execution intercept of a worker gave.
pub struct ToolExecutionInterceptOutcome {
    /// Result of the tool.
    pub result: Json,
    /// Annotation.
    pub annotation: Option<Json>,
    /// Marks to emit.
    pub pending_marks: Vec<Json>,
}

/// The problem of a tool execution intercept's outcome.
pub open spec fn tool_outcome_problem(message: ToolOutcomeMessage) -> Option<FlowErrorView> {
    match message.result {
        None => internal("worker tool execution intercept outcome result is missing"@),
        Some(Err(e)) => internal("invalid worker tool execution result JSON: "@ + e@),
        Some(Ok(_)) => match (message.annotation, message.pending_marks) {
            (Some(Err(e)), _) => internal(
                "invalid worker tool execution annotation JSON: "@ + e@,
            ),
            (_, Some(Err(e))) => internal("invalid worker pending marks JSON: "@ + e@),
            _ => None,
        },
    }
}

/// The annotation of a tool execution intercept's outcome; `null` stands for none.
pub open spec fn tool_annotation(message: ToolOutcomeMessage) -> Option<JsonView> {
    match message.annotation {
        Some(Ok(v)) => if json_view(v) is Null {
            None
        } else {
            Some(json_view(v))
        },
        _ => None,
    }
}

/// Reads the outcome of a tool execution intercept.
pub fn tool_execution_intercept_outcome(message: ToolOutcomeMessage) -> (r: Result<
    ToolExecutionInterceptOutcome,
    FlowError,
>)
    ensures
        flow_failure(r) == tool_outcome_problem(message),
        r matches Ok(outcome) ==> json_view(outcome.result) == json_view(message.result->0->Ok_0)
            && opt_json(outcome.annotation) == tool_annotation(message) && (match message.pending_marks {
            Some(marks) => outcome.pending_marks == marks->Ok_0,
            None => outcome.pending_marks@.len() == 0,
        }),
{
    let result = match message.result {
        None => {
            return Err(
                FlowError::internal(
                    "worker tool execution intercept outcome result is missing".to_owned(),
                ),
            );
        },
        Some(Err(e)) => {
            return Err(
                FlowError::internal(
                    concat2("invalid worker tool execution result JSON: ", e.as_str()),
                ),
            );
        },
        Some(Ok(result)) => result,
    };
    let annotation = match message.annotation {
        None => None,
        Some(Err(e)) => {
            return Err(
                FlowError::internal(
                    concat2("invalid worker tool execution annotation JSON: ", e.as_str()),
                ),
            );
        },
        Some(Ok(Json::Null)) => None,
        Some(Ok(value)) => Some(value),
    };
    let pending_marks = match message.pending_marks {
        None => Vec::new(),
        Some(Err(e)) => {
            return Err(
                FlowError::internal(
                    concat2("invalid worker pending marks JSON: ", e.as_str()),
                ),
            );
        },
        Some(Ok(marks)) => marks,
    };
    Ok(ToolExecutionInterceptOutcome { result, annotation, pending_marks })
}

/// What a worker answered to an invocation.
pub enum InvokeResult {
    /// Nothing.
    Empty,
    /// JSON or an error.
    Json(Option<WorkerEnvelope>, Option<WorkerError>),
    /// The reason of a block, or an empty text.
    Guardrail(String),
    /// The outcome of a tool execution intercept.
    ToolExecution(Option<ToolOutcomeMessage>),
    /// The outcome of an LLM request intercept.
    LlmRequest(Option<WorkerEnvelope>),
    /// An error.
    Error(WorkerError),
}

/// The envelope that an answer has to hold.
pub fn required_envelope(value: Option<WorkerEnvelope>, field: &str) -> (r: Result<
    WorkerEnvelope,
    FlowError,
>)
    ensures
        match r {
            Ok(e) => value == Some(e),
            Err(e) => value is None && Some(e@) == internal(field@ + " is missing"@),
        },
{
    match value {
        Some(envelope) => Ok(envelope),
        None => Err(FlowError::internal(concat2(field, " is missing"))),
    }
}

/// What the JSON of an answer is.
pub open spec fn answered_json(value: Option<WorkerEnvelope>, error: Option<WorkerError>) -> Result<
    JsonView,
    FlowErrorView,
> {
    match (error, value) {
        (Some(e), _) => Err(worker_flow_error(e.code@, e.message@)),
        (None, None) => Err((FlowErrorKind::Internal, "worker JSON result is missing"@)),
        (None, Some(envelope)) => match payload_view(envelope) {
            Ok(v) => Ok(v),
            Err(e) => Err(
                (FlowErrorKind::Internal, "worker returned invalid JSON result: "@ + e),
            ),
        },
    }
}

/// Reads the JSON of an answer.
fn read_answered_json(value: Option<WorkerEnvelope>, error: Option<WorkerError>) -> (r: Result<
    Json,
    FlowError,
>)
    ensures
        match r {
            Ok(v) => answered_json(value, error) == Ok::<JsonView, FlowErrorView>(json_view(v)),
            Err(e) => answered_json(value, error) == Err::<JsonView, FlowErrorView>(e@),
        },
{
    if let Some(e) = error {
        return Err(worker_error_to_flow(e));
    }
    match value {
        None => Err(FlowError::internal("worker JSON result is missing".to_owned())),
        Some(envelope) => match envelope.payload {
            Ok(v) => Ok(v),
            Err(e) => Err(
                FlowError::internal(
                    concat2("worker returned invalid JSON result: ", e.as_str()),
                ),
            ),
        },
    }
}

/// What an answer that has to be JSON is.
pub open spec fn json_answer(result: Option<InvokeResult>) -> Result<JsonView, FlowErrorView> {
    match result {
        Some(InvokeResult::Json(value, error)) => answered_json(value, error),
        Some(InvokeResult::Error(e)) => Err(worker_flow_error(e.code@, e.message@)),
        _ => Err((FlowErrorKind::Internal, "worker returned unexpected invoke result"@)),
    }
}

/// Reads an answer that has to be JSON.
pub fn json_from_invoke_response(result: Option<InvokeResult>) -> (r: Result<Json, FlowError>)
    ensures
        match r {
            Ok(v) => json_answer(result) == Ok::<JsonView, FlowErrorView>(json_view(v)),
            Err(e) => json_answer(result) == Err::<JsonView, FlowErrorView>(e@),
        },
{
    match result {
        Some(InvokeResult::Json(value, error)) => read_answered_json(value, error),
        Some(InvokeResult::Error(e)) => Err(worker_error_to_flow(e)),
        _ => Err(FlowError::internal("worker returned unexpected invoke result".to_owned())),
    }
}

/// What an answer that may be JSON is.
pub open spec fn optional_json_answer(result: Option<InvokeResult>) -> Result<
    Option<JsonView>,
    FlowErrorView,
> {
    match result {
        Some(InvokeResult::Empty) => Ok(None),
        Some(InvokeResult::Json(value, error)) => match answered_json(value, error) {
            Ok(v) => Ok(Some(v)),
            Err(e) => Err(e),
        },
        Some(InvokeResult::Error(e)) => Err(worker_flow_error(e.code@, e.message@)),
        _ => Err((FlowErrorKind::Internal, "worker returned unexpected LLM sanitizer result"@)),
    }
}

/// Reads an answer that may be JSON.
pub fn optional_json_from_invoke_response(result: Option<InvokeResult>) -> (r: Result<
    Option<Json>,
    FlowError,
>)
    ensures
        match r {
            Ok(v) => optional_json_answer(result) == Ok::<Option<JsonView>, FlowErrorView>(
                opt_json(v),
            ),
            Err(e) => optional_json_answer(result) == Err::<Option<JsonView>, FlowErrorView>(e@),
        },
{
    match result {
        Some(InvokeResult::Empty) => Ok(None),
        Some(InvokeResult::Json(value, error)) => match read_answered_json(value, error) {
            Ok(v) => Ok(Some(v)),
            Err(e) => Err(e),
        },
        Some(InvokeResult::Error(e)) => Err(worker_error_to_flow(e)),
        _ => Err(
            FlowError::internal("worker returned unexpected LLM sanitizer result".to_owned()),
        ),
    }
}

/// What a gate's answer is: the reason of a block, or nothing where the text is empty.
pub open spec fn guardrail_answer(result: Option<InvokeResult>) -> Result<
    Option<Seq<char>>,
    FlowErrorView,
> {
    match result {
        Some(InvokeResult::Guardrail(reason)) => if reason@.len() == 0 {
            Ok(None)
        } else {
            Ok(Some(reason@))
        },
        Some(InvokeResult::Error(e)) => Err(worker_flow_error(e.code@, e.message@)),
        _ => Err((FlowErrorKind::Internal, "worker guardrail returned unexpected invoke result"@)),
    }
}

/// Reads a gate's answer.
pub fn guardrail_from_invoke_response(result: Option<InvokeResult>) -> (r: Result<
    Option<String>,
    FlowError,
>)
    ensures
        match r {
            Ok(reason) => guardrail_answer(result) == Ok::<Option<Seq<char>>, FlowErrorView>(
                opt_text(reason),
            ),
            Err(e) => guardrail_answer(result) == Err::<Option<Seq<char>>, FlowErrorView>(e@),
        },
        result matches Some(InvokeResult::Guardrail(reason)) ==> r is Ok && (r->Ok_0 is None
            <==> reason@.len() == 0) && (r->Ok_0 is Some ==> r->Ok_0->0@ == reason@),
{
    match result {
        Some(InvokeResult::Guardrail(reason)) => {
            if reason.as_str().is_empty() {
                Ok(None)
            } else {
                Ok(Some(reason))
            }
        },
        Some(InvokeResult::Error(e)) => Err(worker_error_to_flow(e)),
        _ => Err(
            FlowError::internal("worker guardrail returned unexpected invoke result".to_owned()),
        ),
    }
}

/// The problem of a subscriber's answer.
pub open spec fn subscriber_problem(result: Option<InvokeResult>) -> Option<FlowErrorView> {
    match result {
        Some(InvokeResult::Empty) | None => None,
        Some(InvokeResult::Error(e)) => Some(worker_flow_error(e.code@, e.message@)),
        _ => internal("worker subscriber returned unexpected result"@),
    }
}

/// Reads a subscriber's answer.
pub fn subscriber_from_invoke_response(result: Option<InvokeResult>) -> (r: Result<(), FlowError>)
    ensures
        flow_failure(r) == subscriber_problem(result),
{
    match result {
        Some(InvokeResult::Empty) | None => Ok(()),
        Some(InvokeResult::Error(e)) => Err(worker_error_to_flow(e)),
        _ => Err(
            FlowError::internal("worker subscriber returned unexpected result".to_owned()),
        ),
    }
}

/// Reads the answer of a tool execution intercept, up to what its outcome holds.
pub fn tool_outcome_from_invoke_response(result: Option<InvokeResult>) -> (r: Result<
    ToolOutcomeMessage,
    FlowError,
>)
    ensures
        match r {
            Ok(message) => result == Some(InvokeResult::ToolExecution(Some(message))),
            Err(e) => match result {
                Some(InvokeResult::ToolExecution(outcome)) => outcome is None && Some(e@)
                    == internal("worker tool execution intercept outcome is missing"@),
                Some(InvokeResult::Error(error)) => e@ == worker_flow_error(
                    error.code@,
                    error.message@,
                ),
                _ => Some(e@) == internal(
                    "worker tool execution intercept returned unexpected result"@,
                ),
            },
        },
{
    match result {
        Some(InvokeResult::ToolExecution(Some(message))) => Ok(message),
        Some(InvokeResult::ToolExecution(None)) => Err(
            FlowError::internal(
                "worker tool execution intercept outcome is missing".to_owned(),
            ),
        ),
        Some(InvokeResult::Error(e)) => Err(worker_error_to_flow(e)),
        _ => Err(
            FlowError::internal(
                "worker tool execution intercept returned unexpected result".to_owned(),
            ),
        ),
    }
}

/// The error of a tool execution intercept's outcome that cannot be read, by the text that
/// the reason is shown as.
pub fn invalid_tool_outcome(shown: &str) -> (r: FlowError)
    ensures
        Some(r@) == internal(
            "worker returned invalid tool execution intercept outcome: "@ + shown@,
        ),
{
    FlowError::internal(
        concat2("worker returned invalid tool execution intercept outcome: ", shown),
    )
}

/// What an LLM request intercept's answer is. Its outcome follows the given schema.
pub open spec fn llm_intercept_answer(result: Option<InvokeResult>, schema: Seq<char>) -> Result<
    JsonView,
    FlowErrorView,
> {
    match result {
        Some(InvokeResult::LlmRequest(None)) => Err(
            (FlowErrorKind::Internal, "llm request intercept outcome is missing"@),
        ),
        Some(InvokeResult::LlmRequest(Some(outcome))) => if outcome.schema@ != schema {
            Err(
                (
                    FlowErrorKind::Internal,
                    "worker returned unsupported LLM request intercept outcome schema: "@
                        + outcome.schema@,
                ),
            )
        } else {
            match payload_view(outcome) {
                Ok(v) => Ok(v),
                Err(e) => Err(
                    (
                        FlowErrorKind::Internal,
                        "worker returned invalid LLM request intercept outcome: "@ + e,
                    ),
                ),
            }
        },
        Some(InvokeResult::Error(e)) => Err(worker_flow_error(e.code@, e.message@)),
        _ => Err(
            (
                FlowErrorKind::Internal,
                "worker LLM request intercept returned unexpected result"@,
            ),
        ),
    }
}

/// Reads the answer of an LLM request intercept.
pub fn llm_intercept_from_invoke_response(result: Option<InvokeResult>, schema: &str) -> (r: Result<
    Json,
    FlowError,
>)
    ensures
        match r {
            Ok(v) => llm_intercept_answer(result, schema@) == Ok::<JsonView, FlowErrorView>(
                json_view(v),
            ),
            Err(e) => llm_intercept_answer(result, schema@) == Err::<JsonView, FlowErrorView>(e@),
        },
{
    match result {
        Some(InvokeResult::LlmRequest(outcome)) => {
            let outcome = match required_envelope(outcome, "llm request intercept outcome") {
                Err(_) => {
                    return Err(
                        FlowError::internal("llm request intercept outcome is missing".to_owned()),
                    );
                },
                Ok(outcome) => outcome,
            };
            if !text_eq(outcome.schema.as_str(), schema) {
                return Err(
                    FlowError::internal(
                        concat2(
                            "worker returned unsupported LLM request intercept outcome schema: ",
                            outcome.schema.as_str(),
                        ),
                    ),
                );
            }
            match outcome.payload {
                Ok(v) => Ok(v),
                Err(e) => Err(
                    FlowError::internal(
                        concat2(
                            "worker returned invalid LLM request intercept outcome: ",
                            e.as_str(),
                        ),
                    ),
                ),
            }
        },
        Some(InvokeResult::Error(e)) => Err(worker_error_to_flow(e)),
        _ => Err(
            FlowError::internal(
                "worker LLM request intercept returned unexpected result".to_owned(),
            ),
        ),
    }
}

/// Something that a worker's answer decodes to.
#[derive(Debug, Clone, Copy, PartialEq, Eq, Structural)]
pub enum WorkerDecoding {
    /// Sanitized event fields.
    EventFields,
    /// Sanitized LLM request.
    LlmRequest,
}

/// The error of an answer that does not decode to what it has to.
pub fn undecodable_worker_answer(decoding: WorkerDecoding, detail: &str) -> (r: FlowError)
    ensures
        Some(r@) == internal(
            (match decoding {
                WorkerDecoding::EventFields => {
                    "worker returned invalid event sanitize fields: "@
                },
                WorkerDecoding::LlmRequest => "worker returned invalid LLM request: "@,
            }) + detail@,
        ),
{
    let prefix = match decoding {
        WorkerDecoding::EventFields => "worker returned invalid event sanitize fields: ",
        WorkerDecoding::LlmRequest => "worker returned invalid LLM request: ",
    };
    FlowError::internal(concat2(prefix, detail))
}

/// One item of a worker's stream.
pub enum StreamChunkItem {
    /// A value.
    Value(WorkerEnvelope),
    /// An error.
    Error(WorkerError),
}

/// What an item of a worker's stream is.
pub open spec fn chunk_answer(item: Option<StreamChunkItem>) -> Result<JsonView, FlowErrorView> {
    match item {
        Some(StreamChunkItem::Value(envelope)) => match payload_view(envelope) {
            Ok(v) => Ok(v),
            Err(e) => Err((FlowErrorKind::Internal, "invalid worker stream chunk: "@ + e)),
        },
        Some(StreamChunkItem::Error(e)) => Err(worker_flow_error(e.code@, e.message@)),
        None => Err((FlowErrorKind::Internal, "worker stream chunk was empty"@)),
    }
}

/// Reads an item of a worker's stream.
pub fn json_from_stream_chunk(item: Option<StreamChunkItem>) -> (r: Result<Json, FlowError>)
    ensures
        match r {
            Ok(v) => chunk_answer(item) == Ok::<JsonView, FlowErrorView>(json_view(v)),
            Err(e) => chunk_answer(item) == Err::<JsonView, FlowErrorView>(e@),
        },
{
    match item {
        Some(StreamChunkItem::Value(envelope)) => match envelope.payload {
            Ok(v) => Ok(v),
            Err(e) => Err(
                FlowError::internal(concat2("invalid worker stream chunk: ", e.as_str())),
            ),
        },
        Some(StreamChunkItem::Error(e)) => Err(worker_error_to_flow(e)),
        None => Err(FlowError::internal("worker stream chunk was empty".to_owned())),
    }
}

/// What an optional envelope holds.
pub open spec fn optional_payload(value: Option<WorkerEnvelope>) -> Result<
    Option<JsonView>,
    FlowErrorView,
> {
    match value {
        None => Ok(None),
        Some(envelope) => match payload_view(envelope) {
            Ok(v) => Ok(Some(v)),
            Err(e) => Err((FlowErrorKind::Internal, "invalid JSON envelope: "@ + e)),
        },
    }
}

/// Reads an optional envelope.
pub fn optional_envelope_to_json(value: Option<WorkerEnvelope>) -> (r: Result<
    Option<Json>,
    FlowError,
>)
    ensures
        match r {
            Ok(v) => optional_payload(value) == Ok::<Option<JsonView>, FlowErrorView>(opt_json(v)),
            Err(e) => optional_payload(value) == Err::<Option<JsonView>, FlowErrorView>(e@),
        },
{
    match value {
        None => Ok(None),
        Some(envelope) => match envelope.payload {
            Ok(v) => Ok(Some(v)),
            Err(e) => Err(FlowError::internal(concat2("invalid JSON envelope: ", e.as_str()))),
        },
    }
}

/// What the host answers to a call without a result.
#[derive(Debug, PartialEq, Eq)]
pub struct HostAck {
    /// Whether the call succeeded.
    pub ok: bool,
    /// The error, where it did not.
    pub error: Option<WorkerError>,
}

/// Answers a call without a result; an error is given by the text that it is shown as.
pub fn host_ack(result: Result<(), String>) -> (r: HostAck)
    ensures
        r.ok == (result is Ok),
        match result {
            Ok(()) => r.error is None,
            Err(shown) => r.error is Some && r.error->0.code@ == "host.runtime_error"@
                && r.error->0.message == shown && !r.error->0.retryable,
        },
{
    match result {
        Ok(()) => HostAck { ok: true, error: None },
        Err(shown) => HostAck { ok: false, error: Some(flow_error_to_worker(shown)) },
    }
}

/// What the host answers to a call with a JSON result: the value with its schema, or an
/// error.
pub struct JsonAnswer {
    /// The value with its schema.
    pub value: Option<(String, Json)>,
    /// The error.
    pub error: Option<WorkerError>,
}

/// Answers a call with a JSON result; an error is given by the text that it is shown as.
pub fn typed_json_result(schema: &str, result: Result<Json, String>) -> (r: JsonAnswer)
    ensures
        match result {
            Ok(v) => r.error is None && r.value is Some && (r.value->0).0@ == schema@ && json_view(
                (r.value->0).1,
            ) == json_view(v),
            Err(shown) => r.value is None && r.error is Some && r.error->0.code@
                == "host.runtime_error"@ && r.error->0.message == shown
                && !r.error->0.retryable,
        },
{
    match result {
        Ok(value) => JsonAnswer { value: Some((schema.to_owned(), value)), error: None },
        Err(shown) => JsonAnswer { value: None, error: Some(flow_error_to_worker(shown)) },
    }
}

/// Answers a call with a plain JSON result.
pub fn json_result(result: Result<Json, String>) -> (r: JsonAnswer)
    ensures
        match result {
            Ok(v) => r.error is None && r.value is Some && (r.value->0).0@ == JSON_SCHEMA@
                && json_view((r.value->0).1) == json_view(v),
            Err(shown) => r.value is None && r.error is Some && r.error->0.code@
                == "host.runtime_error"@ && r.error->0.message == shown
                && !r.error->0.retryable,
        },
{
    typed_json_result(JSON_SCHEMA, result)
}

/// What a tool gave, as the host sends it to a worker.
pub struct ToolResultMessage {
    /// Result of the tool.
    pub result: Json,
    /// Annotation; `null` is left out.
    pub annotation: Option<Json>,
}

/// Leaves an annotation of `null` out.
pub fn tool_result_message(result: Json, annotation: Option<Json>) -> (r: ToolResultMessage)
    ensures
        r.result == result,
        opt_json(r.annotation) == (match annotation {
            Some(v) => if json_view(v) is Null {
                None
            } else {
                Some(json_view(v))
            },
            None => None,
        }),
{
    let annotation = match annotation {
        Some(Json::Null) => None,
        other => other,
    };
    ToolResultMessage { result, annotation }
}

/// The error of a tool result that cannot be sent.
pub fn unsendable_tool_result(detail: &str) -> (r: FlowError)
    ensures
        Some(r@) == internal("failed to encode tool execution result: "@ + detail@),
{
    FlowError::internal(concat2("failed to encode tool execution result: ", detail))
}

/// The scope type of a worker's scope; a number that stands for none is an application's own.
pub fn worker_scope_type(scope_type: Option<ScopeType>) -> (r: ScopeType)
    ensures
        r == (match scope_type {
            Some(known) => known,
            None => ScopeType::Custom,
        }),
{
    match scope_type {
        Some(known) => known,
        None => ScopeType::Custom,
    }
}

/// What an LLM callback of a worker is called with.
pub struct LlmInvocation {
    /// Name of the model, empty where it does not matter.
    pub model_name: String,
    /// Request with its schema.
    pub request: Option<(String, Json)>,
    /// Annotated request with its schema.
    pub annotated_request: Option<(String, Json)>,
    /// Response with its schema.
    pub response: Option<(String, Json)>,
}

/// Whether an optional value is sent under a schema.
pub open spec fn sent_under(
    sent: Option<(String, Json)>,
    value: Option<Json>,
    schema: Seq<char>,
) -> bool {
    match (sent, value) {
        (Some(s), Some(v)) => s.0@ == schema && json_view(s.1) == json_view(v),
        (None, None) => true,
        _ => false,
    }
}

/// Puts an optional value under a schema.
fn under_schema(schema: &str, value: Option<Json>) -> (r: Option<(String, Json)>)
    ensures
        sent_under(r, value, schema@),
{
    match value {
        Some(v) => Some((schema.to_owned(), v)),
        None => None,
    }
}

/// What an LLM callback of a worker is called with: each part under its schema.
pub fn llm_invocation(
    model_name: &str,
    request: Option<Json>,
    annotated_request: Option<Json>,
    annotated_schema: &str,
    response: Option<Json>,
) -> (r: LlmInvocation)
    ensures
        r.model_name@ == model_name@,
        sent_under(r.request, request, LLM_REQUEST_SCHEMA@),
        sent_under(r.annotated_request, annotated_request, annotated_schema@),
        sent_under(r.response, response, JSON_SCHEMA@),
{
    LlmInvocation {
        model_name: model_name.to_owned(),
        request: under_schema(LLM_REQUEST_SCHEMA, request),
        annotated_request: under_schema(annotated_schema, annotated_request),
        response: under_schema(JSON_SCHEMA, response),
    }
}

/// A gate's answer without a reason lets the call pass, and one with a reason blocks it with
/// exactly that reason. A gate that answers anything else fails, with the worker's own error where
/// it gave one.
pub proof fn law_gates_block_with_their_reason(
    result: Option<InvokeResult>,
    r: Result<Option<Seq<char>>, FlowErrorView>,
)
    requires
        r == guardrail_answer(result),
    ensures
        result matches Some(InvokeResult::Guardrail(reason)) ==> r is Ok && (r->Ok_0 is None
            <==> reason@.len() == 0) && (r->Ok_0 is Some ==> r->Ok_0->0 == reason@),
        r is Ok ==> result is Some && result->0 is Guardrail,
        result matches Some(InvokeResult::Error(e)) ==> r == Err::<Option<Seq<char>>, FlowErrorView>(
            worker_flow_error(e.code@, e.message@),
        ),
{
}

/// A worker's cancellation is told as one, and every other error of a worker with its code; the
/// text of the worker stands at the end of both.
pub proof fn law_worker_errors_are_told(code: Seq<char>, message: Seq<char>)
    ensures
        worker_flow_error("worker.cancelled"@, message) == (
            FlowErrorKind::Internal,
            "worker invocation cancelled: "@ + message,
        ),
        code != "worker.cancelled"@ ==> worker_flow_error(code, message) == (
            FlowErrorKind::Internal,
            code + ": "@ + message,
        ),
{
}

/// A call that took too long is told as a timeout, a cancelled one as such, and any other failure
/// by what was asked for.
pub proof fn law_failed_calls_are_told(context: Seq<char>, code: RpcCode, shown: Seq<char>)
    ensures
        rpc_flow_error(context, code, shown).0 == FlowErrorKind::Internal,
        code is DeadlineExceeded <==> code != RpcCode::Cancelled && code != RpcCode::Other,
        rpc_flow_error(context, RpcCode::DeadlineExceeded, shown).1
            == "worker invocation timed out: "@ + shown,
        rpc_flow_error(context, RpcCode::Cancelled, shown).1 == "worker invocation cancelled: "@
            + shown,
        rpc_flow_error(context, RpcCode::Other, shown).1 == context + ": "@ + shown,
{
}

/// The outcome of a tool intercept is taken exactly where its result is there and nothing in it is
/// broken; what is missing and what is broken is told apart. An annotation counts where it is not
/// null.
pub proof fn law_tool_outcomes_are_whole(message: ToolOutcomeMessage)
    ensures
        tool_outcome_problem(message) is None <==> (message.result matches Some(Ok(_))) && !(
        message.annotation matches Some(Err(_))) && !(message.pending_marks matches Some(Err(_))),
        message.result is None ==> tool_outcome_problem(message) == Some(
            (
                FlowErrorKind::Internal,
                "worker tool execution intercept outcome result is missing"@,
            ),
        ),
        message.result matches Some(Err(e)) ==> tool_outcome_problem(message) == Some(
            (
                FlowErrorKind::Internal,
                "invalid worker tool execution result JSON: "@ + e@,
            ),
        ),
        (message.result matches Some(Ok(_))) && (message.annotation matches Some(Err(e)))
            ==> tool_outcome_problem(message) == Some(
            (
                FlowErrorKind::Internal,
                "invalid worker tool execution annotation JSON: "@ + message.annotation->0->Err_0@,
            ),
        ),
        message.annotation matches Some(Ok(v)) ==> (if json_view(v) == JsonView::Null {
            tool_annotation(message) is None
        } else {
            tool_annotation(message) == Some(json_view(v))
        }),
        message.annotation is None ==> tool_annotation(message) is None,
{
}

/// A worker's JSON answer is its value. An error in the answer takes precedence over a value,
/// and an answer of another kind, or none, is refused.
pub proof fn law_json_answers_are_values(
    value: Option<WorkerEnvelope>,
    error: Option<WorkerError>,
    result: Option<InvokeResult>,
)
    ensures
        ({
            let r = json_answer(Some(InvokeResult::Json(value, error)));
            &&& r is Ok <==> error is None && value is Some && value->0.payload is Ok
            &&& r matches Ok(v) ==> v == json_view(value->0.payload->Ok_0)
            &&& error is Some ==> r->Err_0 == worker_flow_error(error->0.code@, error->0.message@)
            &&& error is None && value is None ==> r->Err_0.1 == "worker JSON result is missing"@
            &&& optional_json_answer(Some(InvokeResult::Json(value, error))) is Ok <==> r is Ok
            &&& r matches Ok(v) ==> optional_json_answer(Some(InvokeResult::Json(value, error)))
                == Ok::<Option<JsonView>, FlowErrorView>(Some(v))
            &&& r matches Err(e) ==> optional_json_answer(Some(InvokeResult::Json(value, error)))
                == Err::<Option<JsonView>, FlowErrorView>(e)
        }),
        json_answer(result) is Ok ==> result is Some && result->0 is Json,
        optional_json_answer(result) is Ok ==> result is Some && (result->0 is Json || result->0
            is Empty),
        optional_json_answer(Some(InvokeResult::Empty)) == Ok::<Option<JsonView>, FlowErrorView>(
            None,
        ),
        result matches Some(InvokeResult::Error(e)) ==> json_answer(result) == Err::<
            JsonView,
            FlowErrorView,
        >(worker_flow_error(e.code@, e.message@)) && optional_json_answer(result) == Err::<
            Option<JsonView>,
            FlowErrorView,
        >(worker_flow_error(e.code@, e.message@)),
{
}

/// A subscriber is done where it answers with nothing; it fails with its own error where it gave
/// one, and with any other answer.
pub proof fn law_subscribers_answer_with_nothing(result: Option<InvokeResult>)
    ensures
        subscriber_problem(result) is None <==> (result is None || result->0 is Empty),
        result matches Some(InvokeResult::Error(e)) ==> subscriber_problem(result) == Some(
            worker_flow_error(e.code@, e.message@),
        ),
{
}

/// What a request intercept gives is taken exactly where it is there, is of the schema that was
/// asked for and can be read; it is what was sent.
pub proof fn law_intercepted_requests_are_of_their_schema(
    result: Option<InvokeResult>,
    schema: Seq<char>,
)
    ensures
        ({
            let r = llm_intercept_answer(result, schema);
            &&& r is Ok <==> (result matches Some(InvokeResult::LlmRequest(Some(outcome)))
                && outcome.schema@ == schema && outcome.payload is Ok)
            &&& r is Ok ==> r->Ok_0 == json_view(result->0->LlmRequest_0->0.payload->Ok_0)
            &&& result matches Some(InvokeResult::Error(e)) ==> r->Err_0 == worker_flow_error(
                e.code@,
                e.message@,
            )
        }),
{
}

/// A chunk of a worker's stream gives its value, a failed one the worker's error, and an empty
/// one an error; what a worker sends along with a call is its value where there is one.
pub proof fn law_chunks_carry_values(
    envelope: WorkerEnvelope,
    e: WorkerError,
    item: Option<StreamChunkItem>,
)
    ensures
        chunk_answer(item) is Ok <==> (item matches Some(StreamChunkItem::Value(sent))
            && sent.payload is Ok),
        chunk_answer(item) is Ok ==> chunk_answer(item)->Ok_0 == json_view(
            item->0->Value_0.payload->Ok_0,
        ),
        chunk_answer(Some(StreamChunkItem::Error(e))) == Err::<JsonView, FlowErrorView>(
            worker_flow_error(e.code@, e.message@),
        ),
        optional_payload(None) == Ok::<Option<JsonView>, FlowErrorView>(None),
        envelope.payload matches Ok(v) ==> optional_payload(Some(envelope)) == Ok::<
            Option<JsonView>,
            FlowErrorView,
        >(Some(json_view(v))),
        envelope.payload matches Err(detail) ==> optional_payload(Some(envelope)) == Err::<
            Option<JsonView>,
            FlowErrorView,
        >((FlowErrorKind::Internal, "invalid JSON envelope: "@ + detail@)),
{
}

/// What is sent under a schema is sent as it is, and nothing is sent for what is not there.
pub proof fn law_values_are_sent_as_they_are(
    sent: Option<(String, Json)>,
    value: Option<Json>,
    schema: Seq<char>,
)
    requires
        sent_under(sent, value, schema),
    ensures
        sent is Some <==> value is Some,
        sent is Some ==> (sent->0).0@ == schema && json_view((sent->0).1) == json_view(value->0),
{
}

/// The schemas of the messages.
pub proof fn law_message_schemas()
    ensures
        JSON_SCHEMA@ == "nemo.relay.Json@1"@,
        EVENT_SCHEMA@ == "nemo.relay.Event@1"@,
        LLM_REQUEST_SCHEMA@ == "nemo.relay.LlmRequest@1"@,
{
}

/// What is told where a worker answers with something else than what was asked.
pub proof fn law_unexpected_answers_are_told(
    envelope: WorkerEnvelope,
    shown: String,
    reason: String,
    schema: Seq<char>,
    message: ToolOutcomeMessage,
)
    requires
        envelope.payload == Err::<Json, String>(shown),
    ensures
        json_answer(Some(InvokeResult::Json(Some(envelope), None))) == Err::<
            JsonView,
            FlowErrorView,
        >((FlowErrorKind::Internal, "worker returned invalid JSON result: "@ + shown@)),
        json_answer(Some(InvokeResult::Guardrail(reason))) == Err::<JsonView, FlowErrorView>(
            (FlowErrorKind::Internal, "worker returned unexpected invoke result"@),
        ),
        optional_json_answer(Some(InvokeResult::Guardrail(reason))) == Err::<
            Option<JsonView>,
            FlowErrorView,
        >((FlowErrorKind::Internal, "worker returned unexpected LLM sanitizer result"@)),
        guardrail_answer(Some(InvokeResult::Empty)) == Err::<Option<Seq<char>>, FlowErrorView>(
            (FlowErrorKind::Internal, "worker guardrail returned unexpected invoke result"@),
        ),
        subscriber_problem(Some(InvokeResult::Guardrail(reason))) == Some(
            (FlowErrorKind::Internal, "worker subscriber returned unexpected result"@),
        ),
        llm_intercept_answer(Some(InvokeResult::LlmRequest(None)), schema) == Err::<
            JsonView,
            FlowErrorView,
        >((FlowErrorKind::Internal, "llm request intercept outcome is missing"@)),
        envelope.schema@ != schema ==> llm_intercept_answer(
            Some(InvokeResult::LlmRequest(Some(envelope))),
            schema,
        ) == Err::<JsonView, FlowErrorView>(
            (
                FlowErrorKind::Internal,
                "worker returned unsupported LLM request intercept outcome schema: "@
                    + envelope.schema@,
            ),
        ),
        envelope.schema@ == schema ==> llm_intercept_answer(
            Some(InvokeResult::LlmRequest(Some(envelope))),
            schema,
        ) == Err::<JsonView, FlowErrorView>(
            (
                FlowErrorKind::Internal,
                "worker returned invalid LLM request intercept outcome: "@ + shown@,
            ),
        ),
        llm_intercept_answer(Some(InvokeResult::Empty), schema) == Err::<JsonView, FlowErrorView>(
            (
                FlowErrorKind::Internal,
                "worker LLM request intercept returned unexpected result"@,
            ),
        ),
        chunk_answer(Some(StreamChunkItem::Value(envelope))) == Err::<JsonView, FlowErrorView>(
            (FlowErrorKind::Internal, "invalid worker stream chunk: "@ + shown@),
        ),
        chunk_answer(None) == Err::<JsonView, FlowErrorView>(
            (FlowErrorKind::Internal, "worker stream chunk was empty"@),
        ),
        (message.result matches Some(Ok(_))) && message.annotation is None && (
        message.pending_marks matches Some(Err(e)) && e@ == shown@) ==> tool_outcome_problem(message)
            == Some(
            (FlowErrorKind::Internal, "invalid worker pending marks JSON: "@ + shown@),
        ),
{
}

} // verus!
