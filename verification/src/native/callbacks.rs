//! What the callbacks of native plugins are called with and what their answers mean.

use vstd::prelude::*;

use crate::json::{
    json_view, json_wf, object1, object2, object3, text_json, Json, JsonView,
};
use crate::json_text::{json_text, json_text_of};
use crate::native::status::{
    flow_error_from_status, flow_error_status, internal, status_error, status_from_flow_error,
    FlowError, FlowErrorKind, FlowErrorView, LastError, NemoRelayStatus,
};
use crate::native::strings::{
    json_argument, llm_request_argument, native_text, opt_parsed, parse_argument, parse_optional,
    parsed_argument, parsed_optional, reported_json, returned_json, returned_text, take_json_arg,
    take_llm_request_arg, take_returned_json, text_from_native_string, write_native_json,
    NativeString, ParsedArgument, ParsedArgumentView,
};
use crate::text::{concat2, opt_text};

verus! {

/// A callback that answers before it returns.
#[derive(Debug, Clone, Copy, PartialEq, Eq, Structural)]
pub enum NativeCallback {
    /// Sanitizer of event fields.
    EventSanitizer,
    /// Sanitizer or intercept of a tool's JSON.
    ToolJson,
    /// Gate on tool execution.
    ToolConditional,
    /// Intercept of tool execution.
    ToolExecution,
    /// Sanitizer of LLM requests.
    LlmSanitizeRequest,
    /// Sanitizer of LLM responses.
    LlmSanitizeResponse,
    /// Gate on LLM execution.
    LlmConditional,
    /// Intercept of LLM requests.
    LlmRequestIntercept,
    /// Intercept of LLM execution.
    LlmExecution,
    /// Intercept of streaming LLM execution.
    LlmStreamExecution,
}

impl NativeCallback {
    /// How a failed call is described.
    pub open spec fn failed_text(self) -> Seq<char> {
        match self {
            NativeCallback::EventSanitizer => "native event sanitizer failed"@,
            NativeCallback::ToolJson => "native JSON callback failed"@,
            NativeCallback::ToolConditional => "native tool conditional failed"@,
            NativeCallback::ToolExecution => "native tool execution failed"@,
            NativeCallback::LlmSanitizeRequest => "native LLM sanitize-request callback failed"@,
            NativeCallback::LlmSanitizeResponse => "native LLM sanitize-response callback failed"@,
            NativeCallback::LlmConditional => "native LLM conditional failed"@,
            NativeCallback::LlmRequestIntercept => "native LLM request intercept failed"@,
            NativeCallback::LlmExecution => "native LLM execution failed"@,
            NativeCallback::LlmStreamExecution => "native LLM stream execution failed"@,
        }
    }

    /// How a failed call is described.
    pub fn failed(&self) -> (r: &'static str)
        ensures
            r@ == self.failed_text(),
    {
        match self {
            NativeCallback::EventSanitizer => "native event sanitizer failed",
            NativeCallback::ToolJson => "native JSON callback failed",
            NativeCallback::ToolConditional => "native tool conditional failed",
            NativeCallback::ToolExecution => "native tool execution failed",
            NativeCallback::LlmSanitizeRequest => "native LLM sanitize-request callback failed",
            NativeCallback::LlmSanitizeResponse => "native LLM sanitize-response callback failed",
            NativeCallback::LlmConditional => "native LLM conditional failed",
            NativeCallback::LlmRequestIntercept => "native LLM request intercept failed",
            NativeCallback::LlmExecution => "native LLM execution failed",
            NativeCallback::LlmStreamExecution => "native LLM stream execution failed",
        }
    }

    /// How an answer is described that is missing where one is required, or that is no
    /// JSON.
    pub open spec fn unusable_text(self) -> Seq<char> {
        match self {
            NativeCallback::EventSanitizer => "native event sanitizer returned null"@,
            NativeCallback::ToolJson => "native JSON callback returned null"@,
            NativeCallback::ToolExecution => "native tool execution returned null outcome"@,
            NativeCallback::LlmSanitizeRequest => {
                "native LLM sanitize-request returned invalid JSON"@
            },
            NativeCallback::LlmSanitizeResponse => {
                "native LLM sanitize-response returned invalid JSON"@
            },
            NativeCallback::LlmRequestIntercept => {
                "native LLM request intercept returned null outcome"@
            },
            _ => "native LLM execution returned null"@,
        }
    }

    /// How an answer is described that is missing where one is required, or that is no
    /// JSON.
    pub fn unusable(&self) -> (r: &'static str)
        ensures
            r@ == self.unusable_text(),
    {
        match self {
            NativeCallback::EventSanitizer => "native event sanitizer returned null",
            NativeCallback::ToolJson => "native JSON callback returned null",
            NativeCallback::ToolExecution => "native tool execution returned null outcome",
            NativeCallback::LlmSanitizeRequest => {
                "native LLM sanitize-request returned invalid JSON"
            },
            NativeCallback::LlmSanitizeResponse => {
                "native LLM sanitize-response returned invalid JSON"
            },
            NativeCallback::LlmRequestIntercept => {
                "native LLM request intercept returned null outcome"
            },
            _ => "native LLM execution returned null",
        }
    }

    /// How JSON is described that is not what the callback has to answer.
    pub open spec fn undecodable_text(self) -> Seq<char> {
        match self {
            NativeCallback::EventSanitizer => "invalid event sanitize fields: "@,
            NativeCallback::ToolExecution => "invalid native tool execution outcome JSON: "@,
            NativeCallback::LlmRequestIntercept => "invalid LLM request intercept outcome JSON: "@,
            _ => "invalid LLM request JSON: "@,
        }
    }

    /// How JSON is described that is not what the callback has to answer.
    pub fn undecodable(&self) -> (r: &'static str)
        ensures
            r@ == self.undecodable_text(),
    {
        match self {
            NativeCallback::EventSanitizer => "invalid event sanitize fields: ",
            NativeCallback::ToolExecution => "invalid native tool execution outcome JSON: ",
            NativeCallback::LlmRequestIntercept => "invalid LLM request intercept outcome JSON: ",
            _ => "invalid LLM request JSON: ",
        }
    }
}

/// What a callback that has to answer with JSON gave, by what reading its answer gave.
pub open spec fn required_answer(
    callback: NativeCallback,
    status: NemoRelayStatus,
    message: Option<Seq<char>>,
    parsed: Option<ParsedArgumentView>,
) -> Result<JsonView, FlowErrorView> {
    if status != NemoRelayStatus::Success {
        Err(status_error(status, message, callback.failed_text()))
    } else {
        returned_json(parsed, message, callback.unusable_text())
    }
}

/// Takes the answer of a callback that has to answer with JSON, by what reading it gave.
pub fn take_callback_json(
    callback: NativeCallback,
    status: NemoRelayStatus,
    last_error: &LastError,
    parsed: Option<ParsedArgument>,
) -> (r: Result<Json, FlowError>)
    ensures
        match r {
            Ok(v) => required_answer(callback, status, last_error@, opt_parsed(parsed)) == Ok::<
                JsonView,
                FlowErrorView,
            >(json_view(v)) && parsed == Some(ParsedArgument::Value(v)),
            Err(e) => required_answer(callback, status, last_error@, opt_parsed(parsed)) == Err::<
                JsonView,
                FlowErrorView,
            >(e@),
        },
{
    if status != NemoRelayStatus::Success {
        return Err(flow_error_from_status(status, last_error, callback.failed()));
    }
    take_returned_json(parsed, last_error, callback.unusable())
}

/// Reads the answer of a callback that has to answer with JSON.
pub fn callback_json(
    callback: NativeCallback,
    status: NemoRelayStatus,
    last_error: &LastError,
    returned: Option<&NativeString>,
) -> (r: Result<Json, FlowError>)
    ensures
        match r {
            Ok(v) => required_answer(callback, status, last_error@, parsed_optional(returned)) == Ok::<
                JsonView,
                FlowErrorView,
            >(json_view(v)) && json_wf(v),
            Err(e) => required_answer(callback, status, last_error@, parsed_optional(returned)) == Err::<
                JsonView,
                FlowErrorView,
            >(e@),
        },
{
    take_callback_json(callback, status, last_error, parse_optional(returned))
}

/// What a callback that may answer with JSON gave, by what reading its answer gave.
pub open spec fn optional_answer(
    callback: NativeCallback,
    status: NemoRelayStatus,
    message: Option<Seq<char>>,
    parsed: Option<ParsedArgumentView>,
) -> Result<Option<JsonView>, FlowErrorView> {
    if status == NemoRelayStatus::Success && parsed is None {
        Ok(None)
    } else {
        match required_answer(callback, status, message, parsed) {
            Ok(v) => Ok(Some(v)),
            Err(e) => Err(e),
        }
    }
}

/// Takes the answer of a callback that may answer with JSON, by what reading it gave.
pub fn take_callback_optional_json(
    callback: NativeCallback,
    status: NemoRelayStatus,
    last_error: &LastError,
    parsed: Option<ParsedArgument>,
) -> (r: Result<Option<Json>, FlowError>)
    ensures
        match r {
            Ok(found) => optional_answer(callback, status, last_error@, opt_parsed(parsed)) == Ok::<
                Option<JsonView>,
                FlowErrorView,
            >(
                match found {
                    Some(v) => Some(json_view(v)),
                    None => None,
                },
            ),
            Err(e) => optional_answer(callback, status, last_error@, opt_parsed(parsed)) == Err::<
                Option<JsonView>,
                FlowErrorView,
            >(e@),
        },
{
    if status == NemoRelayStatus::Success && parsed.is_none() {
        return Ok(None);
    }
    match take_callback_json(callback, status, last_error, parsed) {
        Ok(value) => Ok(Some(value)),
        Err(e) => Err(e),
    }
}

/// Reads the answer of a callback that may answer with JSON.
pub fn callback_optional_json(
    callback: NativeCallback,
    status: NemoRelayStatus,
    last_error: &LastError,
    returned: Option<&NativeString>,
) -> (r: Result<Option<Json>, FlowError>)
    ensures
        match r {
            Ok(found) => optional_answer(callback, status, last_error@, parsed_optional(returned)) == Ok::<
                Option<JsonView>,
                FlowErrorView,
            >(
                match found {
                    Some(v) => Some(json_view(v)),
                    None => None,
                },
            ),
            Err(e) => optional_answer(callback, status, last_error@, parsed_optional(returned)) == Err::<
                Option<JsonView>,
                FlowErrorView,
            >(e@),
        },
{
    take_callback_optional_json(callback, status, last_error, parse_optional(returned))
}

/// What a gate answered: nothing to let the call pass, or the reason of a block.
pub open spec fn gate_answer(
    callback: NativeCallback,
    status: NemoRelayStatus,
    message: Option<Seq<char>>,
    returned: Option<&NativeString>,
) -> Result<Option<Seq<char>>, FlowErrorView> {
    if status != NemoRelayStatus::Success {
        Err(status_error(status, message, callback.failed_text()))
    } else if returned is None {
        Ok(None)
    } else {
        match returned_text(returned) {
            Ok(reason) => Ok(Some(reason)),
            Err(e) => Err(e),
        }
    }
}

/// Reads the answer of a gate.
pub fn callback_reason(
    callback: NativeCallback,
    status: NemoRelayStatus,
    last_error: &LastError,
    returned: Option<&NativeString>,
) -> (r: Result<Option<String>, FlowError>)
    ensures
        match r {
            Ok(reason) => gate_answer(callback, status, last_error@, returned) == Ok::<
                Option<Seq<char>>,
                FlowErrorView,
            >(opt_text(reason)),
            Err(e) => gate_answer(callback, status, last_error@, returned) == Err::<
                Option<Seq<char>>,
                FlowErrorView,
            >(e@),
        },
{
    if status != NemoRelayStatus::Success {
        return Err(flow_error_from_status(status, last_error, callback.failed()));
    }
    if returned.is_none() {
        return Ok(None);
    }
    match text_from_native_string(returned) {
        Ok(reason) => Ok(Some(reason)),
        Err(e) => Err(e),
    }
}

/// The error of JSON that is not what a callback has to answer.
pub fn undecodable_answer(callback: NativeCallback, detail: &str) -> (r: FlowError)
    ensures
        Some(r@) == internal(callback.undecodable_text() + detail@),
{
    FlowError::internal(concat2(callback.undecodable(), detail))
}

/// Notes the answer of an event subscriber, which fails nothing.
pub fn note_subscriber_answer(last_error: &mut LastError, status: NemoRelayStatus)
    ensures
        status == NemoRelayStatus::Success ==> *final(last_error) == *old(last_error),
        status != NemoRelayStatus::Success ==> final(last_error)@ == Some(
            "native subscriber callback returned "@ + status.name(),
        ),
{
    if status != NemoRelayStatus::Success {
        last_error.set(concat2("native subscriber callback returned ", status.as_str()));
    }
}

/// A continuation that a callback runs before it returns.
#[derive(Debug, Clone, Copy, PartialEq, Eq, Structural)]
pub enum NativeNext {
    /// Execution of a tool.
    Tool,
    /// Execution of an LLM request.
    Llm,
    /// Streaming execution of an LLM request.
    LlmStream,
}

impl NativeNext {
    /// How the continuation is called.
    pub open spec fn label(self) -> Seq<char> {
        match self {
            NativeNext::Tool => "native tool next"@,
            NativeNext::Llm => "native LLM next"@,
            NativeNext::LlmStream => "native LLM stream next"@,
        }
    }

    /// How the continuation is called.
    pub fn as_str(&self) -> (r: &'static str)
        ensures
            r@ == self.label(),
    {
        match self {
            NativeNext::Tool => "native tool next",
            NativeNext::Llm => "native LLM next",
            NativeNext::LlmStream => "native LLM stream next",
        }
    }
}

/// What the argument of a continuation is reported as, by what reading it gave.
pub open spec fn next_call_argument(
    next: NativeNext,
    null_pointer: bool,
    parsed: ParsedArgumentView,
    decoded: Result<(), Seq<char>>,
) -> Result<JsonView, (NemoRelayStatus, Seq<char>)> {
    if null_pointer {
        Err((NemoRelayStatus::NullPointer, next.label() + " received null pointer"@))
    } else {
        match next {
            NativeNext::Tool => json_argument(
                parsed,
                next.label() + " args"@,
                " was invalid JSON: "@,
            ),
            _ => llm_request_argument(parsed, next.label() + " request"@, decoded),
        }
    }
}

/// Takes the argument that a callback runs its continuation with, by what reading it gave;
/// `null_pointer` says whether the continuation or the place of its result is missing.
pub fn take_next_call(
    last_error: &mut LastError,
    next: NativeNext,
    null_pointer: bool,
    parsed: ParsedArgument,
    decoded: Result<(), String>,
) -> (r: Result<Json, NemoRelayStatus>)
    ensures
        reported_json(
            r,
            next_call_argument(
                next,
                null_pointer,
                parsed@,
                match decoded {
                    Ok(()) => Ok(()),
                    Err(e) => Err(e@),
                },
            ),
            *old(last_error),
            *final(last_error),
        ),
        r matches Ok(v) ==> parsed == ParsedArgument::Value(v),
{
    if null_pointer {
        last_error.set(concat2(next.as_str(), " received null pointer"));
        return Err(NemoRelayStatus::NullPointer);
    }
    match next {
        NativeNext::Tool => {
            let label = concat2(next.as_str(), " args");
            take_json_arg(last_error, parsed, label.as_str(), " was invalid JSON: ")
        },
        _ => {
            let label = concat2(next.as_str(), " request");
            take_llm_request_arg(last_error, parsed, label.as_str(), decoded)
        },
    }
}

/// Reads the argument that a callback runs its continuation with.
pub fn read_next_call(
    last_error: &mut LastError,
    next: NativeNext,
    null_pointer: bool,
    argument: Option<&NativeString>,
    decoded: Result<(), String>,
) -> (r: Result<Json, NemoRelayStatus>)
    ensures
        reported_json(
            r,
            next_call_argument(
                next,
                null_pointer,
                parsed_argument(argument),
                match decoded {
                    Ok(()) => Ok(()),
                    Err(e) => Err(e@),
                },
            ),
            *old(last_error),
            *final(last_error),
        ),
        r matches Ok(v) ==> json_wf(v),
{
    take_next_call(last_error, next, null_pointer, parse_argument(argument), decoded)
}

/// What running a continuation gave.
pub enum NextRun {
    /// A value.
    Value(Json),
    /// A result that could not be written as JSON, with the reason.
    Unwritable(String),
    /// An error, by its kind and the text that it is shown as.
    Failure(FlowErrorKind, String),
    /// It panicked.
    Panicked,
}

/// What a continuation's run is reported as, where it gave no value.
pub open spec fn next_run_problem(next: NativeNext, run: NextRun) -> Option<
    (NemoRelayStatus, Seq<char>),
> {
    match run {
        NextRun::Value(_) => None,
        NextRun::Unwritable(e) => Some(
            (NemoRelayStatus::Internal, "failed to serialize native tool result: "@ + e@),
        ),
        NextRun::Failure(kind, shown) => Some((flow_error_status(kind), shown@)),
        NextRun::Panicked => Some((NemoRelayStatus::Internal, next.label() + " panicked"@)),
    }
}

/// Hands the result of a continuation to the callback that ran it.
pub fn finish_next_call(last_error: &mut LastError, next: NativeNext, run: NextRun) -> (r: Result<
    NativeString,
    NemoRelayStatus,
>)
    ensures
        match next_run_problem(next, run) {
            None => r is Ok && *final(last_error) == *old(last_error) && native_text(
                Some(&r->Ok_0),
            ) == Ok::<Seq<char>, crate::error::ErrorView>(
                json_text_of(json_view(run->Value_0)),
            ),
            Some((status, message)) => r == Err::<NativeString, NemoRelayStatus>(status)
                && final(last_error)@ == Some(message),
        },
{
    match run {
        NextRun::Value(value) => write_native_json(last_error, &value, false),
        NextRun::Unwritable(e) => {
            last_error.set(concat2("failed to serialize native tool result: ", e.as_str()));
            Err(NemoRelayStatus::Internal)
        },
        NextRun::Failure(kind, shown) => Err(status_from_flow_error(last_error, kind, shown)),
        NextRun::Panicked => {
            last_error.set(concat2(next.as_str(), " panicked"));
            Err(NemoRelayStatus::Internal)
        },
    }
}

/// Which codec a payload was read with.
pub enum LlmCodecIdentity {
    /// None.
    Absent,
    /// A codec of the host, by its identifier.
    BuiltIn(String),
    /// A codec that was registered at run time, by its identifier.
    Runtime(String),
    /// A codec without an identifier.
    Opaque,
}

/// The kind of a codec.
#[derive(Debug, Clone, Copy, PartialEq, Eq, Structural)]
pub enum LlmCodecKind {
    /// None.
    Absent,
    /// A codec of the host.
    BuiltIn,
    /// A codec that was registered at run time.
    Runtime,
    /// A codec without an identifier.
    Opaque,
}

impl LlmCodecIdentity {
    /// The kind and the identifier of a codec.
    pub open spec fn parts(self) -> (LlmCodecKind, Option<Seq<char>>) {
        match self {
            LlmCodecIdentity::Absent => (LlmCodecKind::Absent, None),
            LlmCodecIdentity::BuiltIn(id) => (LlmCodecKind::BuiltIn, Some(id@)),
            LlmCodecIdentity::Runtime(id) => (LlmCodecKind::Runtime, Some(id@)),
            LlmCodecIdentity::Opaque => (LlmCodecKind::Opaque, None),
        }
    }

    /// The kind and the identifier of a codec.
    pub fn identity(&self) -> (r: (LlmCodecKind, Option<String>))
        ensures
            (r.0, opt_text(r.1)) == self.parts(),
    {
        match self {
            LlmCodecIdentity::Absent => (LlmCodecKind::Absent, None),
            LlmCodecIdentity::BuiltIn(id) => (LlmCodecKind::BuiltIn, Some(id.clone())),
            LlmCodecIdentity::Runtime(id) => (LlmCodecKind::Runtime, Some(id.clone())),
            LlmCodecIdentity::Opaque => (LlmCodecKind::Opaque, None),
        }
    }
}

impl LlmCodecKind {
    /// The name that a kind of codec is written as.
    pub open spec fn label(self) -> Seq<char> {
        match self {
            LlmCodecKind::Absent => "none"@,
            LlmCodecKind::BuiltIn => "builtin"@,
            LlmCodecKind::Runtime => "runtime"@,
            LlmCodecKind::Opaque => "opaque"@,
        }
    }

    /// The name that a kind of codec is written as.
    pub fn as_str(&self) -> (r: &'static str)
        ensures
            r@ == self.label(),
    {
        match self {
            LlmCodecKind::Absent => "none",
            LlmCodecKind::BuiltIn => "builtin",
            LlmCodecKind::Runtime => "runtime",
            LlmCodecKind::Opaque => "opaque",
        }
    }
}

/// An optional text as JSON.
pub open spec fn text_or_null(value: Option<Seq<char>>) -> JsonView {
    match value {
        Some(text) => JsonView::Text(text),
        None => JsonView::Null,
    }
}

/// A codec as it is described to an asynchronous callback.
pub open spec fn codec_json(identity: LlmCodecIdentity) -> JsonView {
    JsonView::Object(
        map![
            "codec_kind"@ => JsonView::Text(identity.parts().0.label()),
            "codec_id"@ => text_or_null(identity.parts().1),
        ],
    )
}

/// Describes a codec to an asynchronous callback.
pub fn native_async_codec_identity(identity: &LlmCodecIdentity) -> (r: Json)
    ensures
        json_view(r) == codec_json(*identity),
        json_wf(r),
{
    let (kind, id) = identity.identity();
    let id_json = match &id {
        Some(text) => text_json(text.as_str()),
        None => Json::Null,
    };
    object2("codec_kind", text_json(kind.as_str()), "codec_id", id_json)
}

/// What an asynchronous callback on a named tool is called with.
pub fn tool_invocation(name: &str, value: Json) -> (r: Json)
    ensures
        json_view(r) == JsonView::Object(
            map!["name"@ => JsonView::Text(name@), "value"@ => json_view(value)],
        ),
{
    object2("name", text_json(name), "value", value)
}

/// What an asynchronous gate on an LLM request is called with.
pub fn llm_gate_invocation(request: Json) -> (r: Json)
    ensures
        json_view(r) == JsonView::Object(map!["request"@ => json_view(request)]),
{
    object1("request", request)
}

/// What an asynchronous sanitizer of LLM requests is called with.
pub fn llm_request_invocation(request: Json, codec: &LlmCodecIdentity) -> (r: Json)
    ensures
        json_view(r) == JsonView::Object(
            map!["request"@ => json_view(request), "context"@ => codec_json(*codec)],
        ),
{
    object2("request", request, "context", native_async_codec_identity(codec))
}

/// What an asynchronous sanitizer of LLM responses is called with.
pub fn llm_response_invocation(response: Json, codec: &LlmCodecIdentity) -> (r: Json)
    ensures
        json_view(r) == JsonView::Object(
            map!["response"@ => json_view(response), "context"@ => codec_json(*codec)],
        ),
{
    object2("response", response, "context", native_async_codec_identity(codec))
}

/// What an asynchronous intercept of LLM requests is called with.
pub fn llm_intercept_invocation(name: &str, request: Json, annotated: Json) -> (r: Json)
    ensures
        json_view(r) == JsonView::Object(
            map![
                "name"@ => JsonView::Text(name@),
                "request"@ => json_view(request),
                "annotated"@ => json_view(annotated),
            ],
        ),
{
    object3("name", text_json(name), "request", request, "annotated", annotated)
}

/// What an asynchronous sanitizer of events is called with.
pub fn event_invocation(event: Json, fields: Json) -> (r: Json)
    ensures
        json_view(r) == JsonView::Object(
            map!["event"@ => json_view(event), "fields"@ => json_view(fields)],
        ),
{
    object2("event", event, "fields", fields)
}

/// What an asynchronous intercept of LLM execution is called with.
pub fn llm_execution_invocation(name: &str, request: Json) -> (r: Json)
    ensures
        json_view(r) == JsonView::Object(
            map!["name"@ => JsonView::Text(name@), "request"@ => json_view(request)],
        ),
{
    object2("name", text_json(name), "request", request)
}

/// What an asynchronous gate's value means: `null` lets the call pass, a string is the
/// reason of a block, and anything else is an error. `gate` says what is gated.
pub open spec fn async_gate_answer(gate: Seq<char>, value: JsonView) -> Result<
    Option<Seq<char>>,
    FlowErrorView,
> {
    match value {
        JsonView::Null => Ok(None),
        JsonView::Text(reason) => Ok(Some(reason)),
        other => Err(
            (
                FlowErrorKind::Internal,
                "native async "@ + gate + " conditional callback returned "@ + json_text_of(other)
                    + "; expected string or null"@,
            ),
        ),
    }
}

/// Reads the value of an asynchronous gate.
pub fn async_gate_reason(gate: &str, value: Json) -> (r: Result<Option<String>, FlowError>)
    ensures
        match r {
            Ok(reason) => async_gate_answer(gate@, json_view(value)) == Ok::<
                Option<Seq<char>>,
                FlowErrorView,
            >(opt_text(reason)),
            Err(e) => async_gate_answer(gate@, json_view(value)) == Err::<
                Option<Seq<char>>,
                FlowErrorView,
            >(e@),
        },
{
    match value {
        Json::Null => Ok(None),
        Json::Text(reason) => Ok(Some(reason)),
        other => {
            let shown = json_text(&other);
            Err(
                FlowError::internal(
                    crate::text::concat5(
                        "native async ",
                        gate,
                        " conditional callback returned ",
                        shown.as_str(),
                        "; expected string or null",
                    ),
                ),
            )
        },
    }
}

/// A value that an asynchronous sanitizer gave: `null` stands for none.
pub fn async_optional_value(value: Json) -> (r: Option<Json>)
    ensures
        r is None == (json_view(value) is Null),
        r matches Some(v) ==> v == value,
{
    match value {
        Json::Null => None,
        other => Some(other),
    }
}

/// An asynchronous callback whose value has to be decoded.
#[derive(Debug, Clone, Copy, PartialEq, Eq, Structural)]
pub enum AsyncDecoding {
    /// Sanitized LLM request.
    LlmRequest,
    /// Outcome of an LLM request intercept.
    LlmIntercept,
    /// Sanitized event fields.
    EventFields,
    /// Outcome of a tool execution intercept.
    ToolOutcome,
}

impl AsyncDecoding {
    /// What stands before the decoder's words.
    pub open spec fn prefix_text(self) -> Seq<char> {
        match self {
            AsyncDecoding::LlmRequest => ""@,
            AsyncDecoding::LlmIntercept => "invalid native async LLM intercept outcome: "@,
            AsyncDecoding::EventFields => "invalid native async event fields: "@,
            AsyncDecoding::ToolOutcome => "invalid native async tool outcome: "@,
        }
    }

    /// The error of a value that cannot be decoded.
    pub fn undecodable(&self, detail: &str) -> (r: FlowError)
        ensures
            Some(r@) == internal(self.prefix_text() + detail@),
    {
        let prefix = match self {
            AsyncDecoding::LlmRequest => "",
            AsyncDecoding::LlmIntercept => "invalid native async LLM intercept outcome: ",
            AsyncDecoding::EventFields => "invalid native async event fields: ",
            AsyncDecoding::ToolOutcome => "invalid native async tool outcome: ",
        };
        FlowError::internal(concat2(prefix, detail))
    }
}

/// What a callback returns counts only where it succeeded; a failure is the error of its status.
pub proof fn law_failed_callbacks_are_errors(
    callback: NativeCallback,
    status: NemoRelayStatus,
    message: Option<Seq<char>>,
    parsed: Option<ParsedArgumentView>,
    returned: Option<&NativeString>,
    document: JsonView,
    text: Seq<char>,
)
    ensures
        status != NemoRelayStatus::Success ==> required_answer(callback, status, message, parsed)
            == Err::<JsonView, FlowErrorView>(
            status_error(status, message, callback.failed_text()),
        ),
        status != NemoRelayStatus::Success ==> optional_answer(callback, status, message, parsed)
            == Err::<Option<JsonView>, FlowErrorView>(
            status_error(status, message, callback.failed_text()),
        ),
        status != NemoRelayStatus::Success ==> gate_answer(callback, status, message, returned)
            == Err::<Option<Seq<char>>, FlowErrorView>(
            status_error(status, message, callback.failed_text()),
        ),
        required_answer(
            callback,
            NemoRelayStatus::Success,
            message,
            Some(ParsedArgumentView::Value(document)),
        ) == Ok::<JsonView, FlowErrorView>(document),
        required_answer(callback, NemoRelayStatus::Success, None, None) == Err::<
            JsonView,
            FlowErrorView,
        >((FlowErrorKind::Internal, callback.unusable_text())),
        required_answer(
            callback,
            NemoRelayStatus::Success,
            message,
            Some(ParsedArgumentView::Malformed(text)),
        ) == Err::<JsonView, FlowErrorView>((FlowErrorKind::Internal, "invalid JSON: "@ + text)),
        optional_answer(callback, NemoRelayStatus::Success, message, None) == Ok::<
            Option<JsonView>,
            FlowErrorView,
        >(None),
        optional_answer(
            callback,
            NemoRelayStatus::Success,
            message,
            Some(ParsedArgumentView::Value(document)),
        ) == Ok::<Option<JsonView>, FlowErrorView>(Some(document)),
{
}

/// A gate lets the call through where it returns nothing, and blocks it with the text that it
/// returns.
pub proof fn law_native_gates_block_with_their_reason(
    callback: NativeCallback,
    message: Option<Seq<char>>,
    returned: Option<&NativeString>,
    gate: Seq<char>,
    value: JsonView,
    reason: Seq<char>,
)
    ensures
        gate_answer(callback, NemoRelayStatus::Success, message, None) == Ok::<
            Option<Seq<char>>,
            FlowErrorView,
        >(None),
        returned is Some && native_text(returned) == Ok::<Seq<char>, crate::error::ErrorView>(
            reason,
        ) ==> gate_answer(callback, NemoRelayStatus::Success, message, returned) == Ok::<
            Option<Seq<char>>,
            FlowErrorView,
        >(Some(reason)),
        returned is Some && native_text(returned) is Err ==> gate_answer(
            callback,
            NemoRelayStatus::Success,
            message,
            returned,
        ) is Err,
        async_gate_answer(gate, JsonView::Null) == Ok::<Option<Seq<char>>, FlowErrorView>(None),
        async_gate_answer(gate, JsonView::Text(reason)) == Ok::<Option<Seq<char>>, FlowErrorView>(
            Some(reason),
        ),
        !(value is Null) && !(value is Text) ==> async_gate_answer(gate, value) is Err && (
        async_gate_answer(gate, value)->Err_0).0 == FlowErrorKind::Internal && (async_gate_answer(
            gate,
            value,
        )->Err_0).1 == "native async "@ + gate + " conditional callback returned "@ + json_text_of(
            value,
        ) + "; expected string or null"@,
{
}

/// A continuation is called with the document that was passed; an LLM request must decode too.
pub proof fn law_continuations_take_documents(
    next: NativeNext,
    parsed: ParsedArgumentView,
    decoded: Result<(), Seq<char>>,
    document: JsonView,
    run: NextRun,
)
    ensures
        next_call_argument(next, true, parsed, decoded) == Err::<
            JsonView,
            (NemoRelayStatus, Seq<char>),
        >((NemoRelayStatus::NullPointer, next.label() + " received null pointer"@)),
        next_call_argument(next, false, parsed, decoded) == Ok::<
            JsonView,
            (NemoRelayStatus, Seq<char>),
        >(document) <==> parsed == ParsedArgumentView::Value(document) && (next is Tool || decoded
            is Ok),
        next_run_problem(next, run) is None <==> run is Value,
        run is Panicked ==> next_run_problem(next, run) == Some(
            (NemoRelayStatus::Internal, next.label() + " panicked"@),
        ),
        run is Failure ==> (next_run_problem(next, run)->0).1 == run->Failure_1@,
        NativeNext::Tool.label() == "native tool next"@,
        NativeNext::Llm.label() == "native LLM next"@,
        NativeNext::LlmStream.label() == "native LLM stream next"@,
{
}

/// A codec is described by its kind and, where it has one, its identifier.
pub proof fn law_codecs_are_described(id: String)
    ensures
        codec_json(LlmCodecIdentity::Absent) == JsonView::Object(
            map!["codec_kind"@ => JsonView::Text("none"@), "codec_id"@ => JsonView::Null],
        ),
        codec_json(LlmCodecIdentity::BuiltIn(id)) == JsonView::Object(
            map!["codec_kind"@ => JsonView::Text("builtin"@), "codec_id"@ => JsonView::Text(id@)],
        ),
        codec_json(LlmCodecIdentity::Runtime(id)) == JsonView::Object(
            map!["codec_kind"@ => JsonView::Text("runtime"@), "codec_id"@ => JsonView::Text(id@)],
        ),
        codec_json(LlmCodecIdentity::Opaque) == JsonView::Object(
            map!["codec_kind"@ => JsonView::Text("opaque"@), "codec_id"@ => JsonView::Null],
        ),
{
}

/// The texts by which a callback's failures are told apart.
pub proof fn law_callback_failures_are_named()
    ensures
        NativeCallback::EventSanitizer.failed_text() == "native event sanitizer failed"@,
        NativeCallback::ToolJson.failed_text() == "native JSON callback failed"@,
        NativeCallback::ToolConditional.failed_text() == "native tool conditional failed"@,
        NativeCallback::ToolExecution.failed_text() == "native tool execution failed"@,
        NativeCallback::LlmSanitizeRequest.failed_text()
            == "native LLM sanitize-request callback failed"@,
        NativeCallback::LlmSanitizeResponse.failed_text()
            == "native LLM sanitize-response callback failed"@,
        NativeCallback::LlmConditional.failed_text() == "native LLM conditional failed"@,
        NativeCallback::LlmRequestIntercept.failed_text() == "native LLM request intercept failed"@,
        NativeCallback::LlmExecution.failed_text() == "native LLM execution failed"@,
        NativeCallback::LlmStreamExecution.failed_text() == "native LLM stream execution failed"@,
        NativeCallback::EventSanitizer.unusable_text() == "native event sanitizer returned null"@,
        NativeCallback::ToolJson.unusable_text() == "native JSON callback returned null"@,
        NativeCallback::ToolExecution.unusable_text()
            == "native tool execution returned null outcome"@,
        NativeCallback::LlmSanitizeRequest.unusable_text()
            == "native LLM sanitize-request returned invalid JSON"@,
        NativeCallback::LlmSanitizeResponse.unusable_text()
            == "native LLM sanitize-response returned invalid JSON"@,
        NativeCallback::LlmRequestIntercept.unusable_text()
            == "native LLM request intercept returned null outcome"@,
        NativeCallback::LlmExecution.unusable_text() == "native LLM execution returned null"@,
        NativeCallback::EventSanitizer.undecodable_text() == "invalid event sanitize fields: "@,
        NativeCallback::ToolExecution.undecodable_text()
            == "invalid native tool execution outcome JSON: "@,
        NativeCallback::LlmRequestIntercept.undecodable_text()
            == "invalid LLM request intercept outcome JSON: "@,
        NativeCallback::LlmSanitizeRequest.undecodable_text() == "invalid LLM request JSON: "@,
        AsyncDecoding::LlmRequest.prefix_text() == ""@,
        AsyncDecoding::LlmIntercept.prefix_text()
            == "invalid native async LLM intercept outcome: "@,
        AsyncDecoding::EventFields.prefix_text() == "invalid native async event fields: "@,
        AsyncDecoding::ToolOutcome.prefix_text() == "invalid native async tool outcome: "@,
{
}

/// What is told where a continuation's argument or result cannot be used.
pub proof fn law_unusable_continuations_are_told(
    next: NativeNext,
    text: Seq<char>,
    decoded: Result<(), Seq<char>>,
    shown: String,
)
    ensures
        next_call_argument(
            NativeNext::Tool,
            false,
            ParsedArgumentView::Malformed(text),
            decoded,
        ) == Err::<JsonView, (NemoRelayStatus, Seq<char>)>(
            (
                NemoRelayStatus::InvalidJson,
                "native tool next"@ + " args"@ + " was invalid JSON: "@ + text,
            ),
        ),
        next_call_argument(
            NativeNext::Llm,
            false,
            ParsedArgumentView::Malformed(text),
            decoded,
        ) == Err::<JsonView, (NemoRelayStatus, Seq<char>)>(
            (
                NemoRelayStatus::InvalidJson,
                "native LLM next"@ + " request"@ + " was invalid JSON: "@ + text,
            ),
        ),
        next_run_problem(next, NextRun::Unwritable(shown)) == Some(
            (NemoRelayStatus::Internal, "failed to serialize native tool result: "@ + shown@),
        ),
{
}

} // verus!
