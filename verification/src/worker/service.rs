//! Calls that workers make to the host.
//!
//! A call is refused with a status where the worker may not make it, and answered with an
//! error where the runtime cannot do what it asks for.

use vstd::prelude::*;

use crate::json::{json_view, opt_json, Json, JsonView};
use crate::native::completion::{CodecCapability, NextKind};
use crate::native::status::{internal, FlowError, FlowErrorKind, FlowErrorView};
use crate::text::concat2;
use crate::worker::host::{
    codec_problem, continuation_problem, fresh_stack_id, named_stack, CallStack, HostStatus,
    HostStatusCode, HostStatusView, StoredScopeHandle, StoredScopeStack, WorkerHostRuntimeState,
};
use crate::worker::messages::{
    flow_error_to_worker, host_ack, optional_envelope_to_json, optional_payload, payload_view,
    HostAck, WorkerEnvelope, WorkerError,
};
use crate::worker::process::prefixed_identity;

verus! {

/// Why a worker's call does not run.
pub enum CallRefusal {
    /// The call fails with a status.
    Status(HostStatus),
    /// The call is answered with an error, which says what the status is shown as.
    Stack(HostStatus),
    /// The call is answered with an error, or fails with a status that says what the error is
    /// shown as.
    Flow(FlowError),
}

/// The mathematical form of a refusal.
pub ghost enum CallRefusalView {
    /// The call fails with a status.
    Status(HostStatusView),
    /// The call is answered with an error about its stack.
    Stack(HostStatusView),
    /// The call is answered with an error, or fails with a status about it.
    Flow(FlowErrorView),
}

impl View for CallRefusal {
    type V = CallRefusalView;

    open spec fn view(&self) -> CallRefusalView {
        match *self {
            CallRefusal::Status(s) => CallRefusalView::Status(s@),
            CallRefusal::Stack(s) => CallRefusalView::Stack(s@),
            CallRefusal::Flow(e) => CallRefusalView::Flow(e@),
        }
    }
}

/// Who makes a call, and on which stack.
pub struct WorkerCaller<'a> {
    /// Identity of the activation.
    pub activation_id: &'a str,
    /// Token that worker and host show each other.
    pub auth_token: &'a str,
    /// Stack that the worker names, where it gives a scope context.
    pub scope_stack_id: Option<&'a str>,
}

/// Whether a caller is the worker of an activation.
pub open spec fn authorized(state: WorkerHostRuntimeState, caller: WorkerCaller) -> bool {
    caller.activation_id@ == state.activation_id@ && caller.auth_token@ == state.auth_token@
}

/// The refusal of a caller that is not the worker of the activation.
pub open spec fn caller_refused() -> CallRefusalView {
    CallRefusalView::Status((HostStatusCode::PermissionDenied, "invalid worker host token"@))
}

/// The stack that a caller names.
pub open spec fn caller_stack(state: WorkerHostRuntimeState, caller: WorkerCaller) -> Result<
    CallStack,
    HostStatusView,
> {
    match caller.scope_stack_id {
        Some(id) => named_stack(state.scope_stacks@, id@),
        None => Ok(CallStack::Current),
    }
}

/// A mark that a worker emits.
pub struct MarkCall {
    /// Stack that it goes to.
    pub stack: CallStack,
    /// Data.
    pub data: Option<Json>,
    /// Metadata.
    pub metadata: Option<Json>,
}

/// What emitting a mark comes to before it is emitted.
pub open spec fn mark_call(
    state: WorkerHostRuntimeState,
    caller: WorkerCaller,
    data: Option<WorkerEnvelope>,
    metadata: Option<WorkerEnvelope>,
) -> Result<(CallStack, Option<JsonView>, Option<JsonView>), CallRefusalView> {
    if !authorized(state, caller) {
        Err(caller_refused())
    } else {
        match caller_stack(state, caller) {
            Err(s) => Err(CallRefusalView::Stack(s)),
            Ok(stack) => match (optional_payload(data), optional_payload(metadata)) {
                (Err(e), _) => Err(CallRefusalView::Flow(e)),
                (_, Err(e)) => Err(CallRefusalView::Flow(e)),
                (Ok(d), Ok(m)) => Ok((stack, d, m)),
            },
        }
    }
}

/// Takes a worker's call to emit a mark.
pub fn accept_mark(
    state: &WorkerHostRuntimeState,
    caller: &WorkerCaller,
    data: Option<WorkerEnvelope>,
    metadata: Option<WorkerEnvelope>,
) -> (r: Result<MarkCall, CallRefusal>)
    ensures
        match r {
            Ok(call) => mark_call(*state, *caller, data, metadata) == Ok::<
                (CallStack, Option<JsonView>, Option<JsonView>),
                CallRefusalView,
            >((call.stack, opt_json(call.data), opt_json(call.metadata))),
            Err(e) => mark_call(*state, *caller, data, metadata) == Err::<
                (CallStack, Option<JsonView>, Option<JsonView>),
                CallRefusalView,
            >(e@),
        },
{
    if let Err(s) = state.authorize(caller.activation_id, caller.auth_token) {
        return Err(CallRefusal::Status(s));
    }
    let stack = match state.call_stack(caller.scope_stack_id) {
        Err(s) => {
            return Err(CallRefusal::Stack(s));
        },
        Ok(stack) => stack,
    };
    let data = match optional_envelope_to_json(data) {
        Err(e) => {
            return Err(CallRefusal::Flow(e));
        },
        Ok(data) => data,
    };
    let metadata = match optional_envelope_to_json(metadata) {
        Err(e) => {
            return Err(CallRefusal::Flow(e));
        },
        Ok(metadata) => metadata,
    };
    Ok(MarkCall { stack, data, metadata })
}

/// A scope that a worker opens.
pub struct PushCall {
    /// Stack that it goes to.
    pub stack: CallStack,
    /// Data.
    pub data: Option<Json>,
    /// Metadata.
    pub metadata: Option<Json>,
    /// Input.
    pub input: Option<Json>,
}

/// What opening a scope comes to before it is opened.
pub open spec fn push_call(
    state: WorkerHostRuntimeState,
    caller: WorkerCaller,
    data: Option<WorkerEnvelope>,
    metadata: Option<WorkerEnvelope>,
    input: Option<WorkerEnvelope>,
) -> Result<
    (CallStack, Option<JsonView>, Option<JsonView>, Option<JsonView>),
    CallRefusalView,
> {
    match mark_call(state, caller, data, metadata) {
        Err(e) => Err(e),
        Ok((stack, d, m)) => match optional_payload(input) {
            Err(e) => Err(CallRefusalView::Flow(e)),
            Ok(i) => Ok((stack, d, m, i)),
        },
    }
}

/// Takes a worker's call to open a scope.
pub fn accept_push(
    state: &WorkerHostRuntimeState,
    caller: &WorkerCaller,
    data: Option<WorkerEnvelope>,
    metadata: Option<WorkerEnvelope>,
    input: Option<WorkerEnvelope>,
) -> (r: Result<PushCall, CallRefusal>)
    ensures
        match r {
            Ok(call) => push_call(*state, *caller, data, metadata, input) == Ok::<
                (CallStack, Option<JsonView>, Option<JsonView>, Option<JsonView>),
                CallRefusalView,
            >((call.stack, opt_json(call.data), opt_json(call.metadata), opt_json(call.input))),
            Err(e) => push_call(*state, *caller, data, metadata, input) == Err::<
                (CallStack, Option<JsonView>, Option<JsonView>, Option<JsonView>),
                CallRefusalView,
            >(e@),
        },
{
    let mark = match accept_mark(state, caller, data, metadata) {
        Err(e) => {
            return Err(e);
        },
        Ok(mark) => mark,
    };
    let input = match optional_envelope_to_json(input) {
        Err(e) => {
            return Err(CallRefusal::Flow(e));
        },
        Ok(input) => input,
    };
    Ok(PushCall { stack: mark.stack, data: mark.data, metadata: mark.metadata, input })
}

/// What the host answers to a call to open a scope.
pub struct PushAnswer {
    /// Identifier that the worker knows the scope by, empty where it was not opened.
    pub scope_handle_id: String,
    /// The error.
    pub error: Option<WorkerError>,
}

/// Answers a call to open a scope that was not opened, by how the error is shown.
fn push_refused(shown: String) -> (r: PushAnswer)
    ensures
        r.scope_handle_id@ == ""@,
        r.error is Some,
        r.error->0.code@ == "host.runtime_error"@,
        r.error->0.message == shown,
        !r.error->0.retryable,
{
    PushAnswer { scope_handle_id: "".to_owned(), error: Some(flow_error_to_worker(shown)) }
}

/// Answers a call to open a scope, by the identity of the scope or the text that the runtime's
/// error is shown as. An opened scope is kept with the stack that the worker named for it.
pub fn finish_push(
    state: &mut WorkerHostRuntimeState,
    caller: &WorkerCaller,
    opened: Result<String, String>,
) -> (r: PushAnswer)
    requires
        old(state).wf(),
    ensures
        final(state).wf(),
        match opened {
            Ok(uuid) => {
                let id = "scope-"@ + uuid@;
                &&& r.scope_handle_id@ == id && r.error is None
                &&& final(state).only_handles_changed(*old(state))
                &&& final(state).scope_handles@ == old(state).scope_handles@.insert(
                    id,
                    final(state).scope_handles@[id],
                )
                &&& final(state).scope_handles@[id].uuid@ == uuid@
                &&& final(state).scope_handles@[id].scope_stack_id@ == (
                match caller.scope_stack_id {
                    Some(stack) => stack@,
                    None => ""@,
                })
            },
            Err(shown) => r.scope_handle_id@ == ""@ && r.error is Some && r.error->0.code@
                == "host.runtime_error"@ && r.error->0.message == shown && !r.error->0.retryable
                && *final(state) == *old(
                state,
            ),
        },
{
    match opened {
        Ok(uuid) => {
            let stack = match caller.scope_stack_id {
                Some(stack) => stack,
                None => "",
            };
            let id = state.insert_scope_handle(uuid.as_str(), stack);
            PushAnswer { scope_handle_id: id, error: None }
        },
        Err(shown) => push_refused(shown),
    }
}

/// Takes a worker's call for a stack of its own; `handle` is a new stack of the host. Gives the
/// identifier that the worker knows the stack by.
pub fn accept_create_stack(state: &mut WorkerHostRuntimeState, caller: &WorkerCaller, handle: u64)
    -> (r: Result<String, CallRefusal>)
    requires
        old(state).wf(),
    ensures
        final(state).wf(),
        match r {
            Ok(id) => authorized(*old(state), *caller) && prefixed_identity("stack-"@, id@)
                && final(state).only_stacks_changed(*old(state))
                && final(state).pending_scope_cleanups == old(state).pending_scope_cleanups
                && final(state).scope_stack_cleanups == old(state).scope_stack_cleanups
                && final(state).scope_stacks@ == old(state).scope_stacks@.insert(
                id@,
                StoredScopeStack { handle, invocation_base_depth: None },
            ),
            Err(e) => !authorized(*old(state), *caller) && e@ == caller_refused() && *final(state)
                == *old(state),
        },
{
    if let Err(s) = state.authorize(caller.activation_id, caller.auth_token) {
        return Err(CallRefusal::Status(s));
    }
    let id = fresh_stack_id();
    state.create_scope_stack(id.clone(), handle);
    Ok(id)
}

/// Takes a worker's call to give a stack up. One that it does not have is no error.
pub fn accept_drop_stack(state: &mut WorkerHostRuntimeState, caller: &WorkerCaller, id: &str) -> (r:
    Result<(), CallRefusal>)
    requires
        old(state).wf(),
    ensures
        final(state).wf(),
        match r {
            Ok(()) => authorized(*old(state), *caller) && final(state).only_stacks_changed(
                *old(state),
            ) && final(state).pending_scope_cleanups == old(state).pending_scope_cleanups
                && final(state).scope_stack_cleanups == old(state).scope_stack_cleanups
                && final(state).scope_stacks@ == old(state).scope_stacks@.remove(id@),
            Err(e) => !authorized(*old(state), *caller) && e@ == caller_refused() && *final(state)
                == *old(state),
        },
{
    if let Err(s) = state.authorize(caller.activation_id, caller.auth_token) {
        return Err(CallRefusal::Status(s));
    }
    state.drop_scope_stack(id);
    Ok(())
}

/// A scope that a worker closes.
pub struct PopCall {
    /// Stack that it lies on.
    pub stack: CallStack,
    /// Identity of the scope.
    pub uuid: String,
    /// Output.
    pub output: Option<Json>,
    /// Metadata.
    pub metadata: Option<Json>,
}

/// What closing a scope comes to before it is closed.
pub open spec fn pop_call(
    state: WorkerHostRuntimeState,
    caller: WorkerCaller,
    scope_handle_id: Seq<char>,
    output: Option<WorkerEnvelope>,
    metadata: Option<WorkerEnvelope>,
) -> Result<(CallStack, Seq<char>, Option<JsonView>, Option<JsonView>), CallRefusalView> {
    if !authorized(state, caller) {
        Err(caller_refused())
    } else if !state.scope_handles@.contains_key(scope_handle_id) {
        Err(
            CallRefusalView::Status((HostStatusCode::NotFound, "scope handle not found"@)),
        )
    } else {
        let handle = state.scope_handles@[scope_handle_id];
        match (optional_payload(output), optional_payload(metadata)) {
            (Err(e), _) => Err(CallRefusalView::Flow(e)),
            (_, Err(e)) => Err(CallRefusalView::Flow(e)),
            (Ok(o), Ok(m)) => match named_stack(state.scope_stacks@, handle.scope_stack_id@) {
                Err(s) => Err(CallRefusalView::Status(s)),
                Ok(stack) => Ok((stack, handle.uuid@, o, m)),
            },
        }
    }
}

/// Takes a worker's call to close a scope. The scope is forgotten even where the call fails
/// later on.
pub fn accept_pop(
    state: &mut WorkerHostRuntimeState,
    caller: &WorkerCaller,
    scope_handle_id: &str,
    output: Option<WorkerEnvelope>,
    metadata: Option<WorkerEnvelope>,
) -> (r: Result<PopCall, CallRefusal>)
    requires
        old(state).wf(),
    ensures
        final(state).wf(),
        !authorized(*old(state), *caller) ==> *final(state) == *old(state),
        authorized(*old(state), *caller) ==> final(state).only_handles_changed(*old(state))
            && final(state).scope_handles@ == old(state).scope_handles@.remove(scope_handle_id@),
        match r {
            Ok(call) => pop_call(*old(state), *caller, scope_handle_id@, output, metadata) == Ok::<
                (CallStack, Seq<char>, Option<JsonView>, Option<JsonView>),
                CallRefusalView,
            >((call.stack, call.uuid@, opt_json(call.output), opt_json(call.metadata))),
            Err(e) => pop_call(*old(state), *caller, scope_handle_id@, output, metadata) == Err::<
                (CallStack, Seq<char>, Option<JsonView>, Option<JsonView>),
                CallRefusalView,
            >(e@),
        },
{
    if let Err(s) = state.authorize(caller.activation_id, caller.auth_token) {
        return Err(CallRefusal::Status(s));
    }
    let handle: StoredScopeHandle = match state.take_scope_handle(scope_handle_id) {
        Err(s) => {
            return Err(CallRefusal::Status(s));
        },
        Ok(handle) => handle,
    };
    let output = match optional_envelope_to_json(output) {
        Err(e) => {
            return Err(CallRefusal::Flow(e));
        },
        Ok(output) => output,
    };
    let metadata = match optional_envelope_to_json(metadata) {
        Err(e) => {
            return Err(CallRefusal::Flow(e));
        },
        Ok(metadata) => metadata,
    };
    let stack = match state.call_stack(Some(handle.scope_stack_id.as_str())) {
        Err(s) => {
            return Err(CallRefusal::Status(s));
        },
        Ok(stack) => stack,
    };
    Ok(PopCall { stack, uuid: handle.uuid, output, metadata })
}

/// How the argument of a continuation is called.
pub open spec fn next_field(kind: NextKind) -> Seq<char> {
    match kind {
        NextKind::Tool => "tool next value"@,
        NextKind::Llm => "llm next request"@,
        NextKind::LlmStream => "llm stream next request"@,
    }
}

/// How an argument of a continuation is described that cannot be decoded.
pub open spec fn next_undecodable(kind: NextKind) -> Seq<char> {
    match kind {
        NextKind::Tool => "invalid tool next JSON: "@,
        NextKind::Llm => "invalid LLM next request: "@,
        NextKind::LlmStream => "invalid LLM stream next request: "@,
    }
}

/// What running a continuation comes to before it is run: the stack and the argument.
pub open spec fn next_call(
    state: WorkerHostRuntimeState,
    caller: WorkerCaller,
    continuation_id: Seq<char>,
    kind: NextKind,
    value: Option<WorkerEnvelope>,
) -> Result<(CallStack, JsonView), CallRefusalView> {
    if !authorized(state, caller) {
        Err(caller_refused())
    } else {
        match continuation_problem(state.continuations@, continuation_id, kind) {
            Some(s) => Err(CallRefusalView::Status(s)),
            None => match (caller_stack(state, caller), value) {
                (Err(s), _) => Err(CallRefusalView::Status(s)),
                (Ok(_), None) => Err(
                    CallRefusalView::Flow(
                        (FlowErrorKind::Internal, next_field(kind) + " is missing"@),
                    ),
                ),
                (Ok(stack), Some(envelope)) => match payload_view(envelope) {
                    Ok(v) => Ok((stack, v)),
                    Err(e) => Err(
                        CallRefusalView::Status(
                            (HostStatusCode::InvalidArgument, next_undecodable(kind) + e),
                        ),
                    ),
                },
            },
        }
    }
}

/// Takes a worker's call to run a continuation.
pub fn accept_next(
    state: &WorkerHostRuntimeState,
    caller: &WorkerCaller,
    continuation_id: &str,
    kind: NextKind,
    value: Option<WorkerEnvelope>,
) -> (r: Result<(CallStack, Json), CallRefusal>)
    ensures
        match r {
            Ok(call) => next_call(*state, *caller, continuation_id@, kind, value) == Ok::<
                (CallStack, JsonView),
                CallRefusalView,
            >((call.0, json_view(call.1))),
            Err(e) => next_call(*state, *caller, continuation_id@, kind, value) == Err::<
                (CallStack, JsonView),
                CallRefusalView,
            >(e@),
        },
{
    if let Err(s) = state.authorize(caller.activation_id, caller.auth_token) {
        return Err(CallRefusal::Status(s));
    }
    if let Err(s) = state.check_continuation(continuation_id, kind) {
        return Err(CallRefusal::Status(s));
    }
    let stack = match state.call_stack(caller.scope_stack_id) {
        Err(s) => {
            return Err(CallRefusal::Status(s));
        },
        Ok(stack) => stack,
    };
    let (field, undecodable) = match kind {
        NextKind::Tool => ("tool next value", "invalid tool next JSON: "),
        NextKind::Llm => ("llm next request", "invalid LLM next request: "),
        NextKind::LlmStream => ("llm stream next request", "invalid LLM stream next request: "),
    };
    match value {
        None => Err(CallRefusal::Flow(FlowError::internal(concat2(field, " is missing")))),
        Some(envelope) => match envelope.payload {
            Ok(v) => Ok((stack, v)),
            Err(e) => Err(
                CallRefusal::Status(
                    HostStatus {
                        code: HostStatusCode::InvalidArgument,
                        message: concat2(undecodable, e.as_str()),
                    },
                ),
            ),
        },
    }
}

/// The error of a continuation that panicked.
pub fn continuation_panicked(kind: NextKind, panic: &str) -> (r: FlowError)
    ensures
        Some(r@) == internal(
            (match kind {
                NextKind::Tool => "worker tool continuation panicked: "@,
                NextKind::Llm => "worker LLM continuation panicked: "@,
                NextKind::LlmStream => "worker stream continuation panicked: "@,
            }) + panic@,
        ),
{
    let prefix = match kind {
        NextKind::Tool => "worker tool continuation panicked: ",
        NextKind::Llm => "worker LLM continuation panicked: ",
        NextKind::LlmStream => "worker stream continuation panicked: ",
    };
    FlowError::internal(concat2(prefix, panic))
}

/// What a continuation's stream gives to a worker next.
pub enum NextStreamItem {
    /// A value.
    Value(Json),
    /// An error of the stream.
    Failure(FlowError),
    /// The stream panicked, by the text of the panic.
    Panicked(String),
    /// The end of the stream.
    End,
    /// The worker reads no more.
    Closed,
}

/// What is to be done with what a continuation's stream gave.
pub enum NextStreamStep {
    /// Send it and go on.
    Send(Result<Json, FlowError>),
    /// Send an error and stop.
    SendLast(FlowError),
    /// Stop.
    Stop,
}

/// Decides what is to be done with what a continuation's stream gave. An error does not end the
/// stream; a panic does, after it was told.
pub fn forward_next_stream(item: NextStreamItem) -> (r: NextStreamStep)
    ensures
        match item {
            NextStreamItem::Value(v) => r == NextStreamStep::Send(Ok(v)),
            NextStreamItem::Failure(e) => r == NextStreamStep::Send(Err(e)),
            NextStreamItem::Panicked(panic) => r is SendLast && Some(r->SendLast_0@) == internal(
                "worker stream continuation panicked: "@ + panic@,
            ),
            NextStreamItem::End => r == NextStreamStep::Stop,
            NextStreamItem::Closed => r == NextStreamStep::Stop,
        },
{
    match item {
        NextStreamItem::Value(v) => NextStreamStep::Send(Ok(v)),
        NextStreamItem::Failure(e) => NextStreamStep::Send(Err(e)),
        NextStreamItem::Panicked(panic) => NextStreamStep::SendLast(
            continuation_panicked(NextKind::LlmStream, panic.as_str()),
        ),
        NextStreamItem::End => NextStreamStep::Stop,
        NextStreamItem::Closed => NextStreamStep::Stop,
    }
}

/// What a worker does with a codec that it borrowed.
#[derive(Debug, Clone, Copy, PartialEq, Eq, Structural)]
pub enum CodecArgumentKind {
    /// A request to decode.
    Request,
    /// An annotated request to encode.
    Annotated,
    /// The request that an annotated one was made from.
    Original,
    /// A response to decode.
    Response,
}

/// How an argument of a codec is called.
pub open spec fn codec_field(kind: CodecArgumentKind) -> Seq<char> {
    match kind {
        CodecArgumentKind::Request => "codec request"@,
        CodecArgumentKind::Annotated => "annotated codec request"@,
        CodecArgumentKind::Original => "original codec request"@,
        CodecArgumentKind::Response => "codec response"@,
    }
}

/// What an argument of a codec is.
pub open spec fn codec_argument(kind: CodecArgumentKind, value: Option<WorkerEnvelope>) -> Result<
    JsonView,
    FlowErrorView,
> {
    match value {
        None => Err((FlowErrorKind::Internal, codec_field(kind) + " is missing"@)),
        Some(envelope) => match payload_view(envelope) {
            Ok(v) => Ok(v),
            Err(e) => Err((FlowErrorKind::Internal, e)),
        },
    }
}

/// Reads an argument of a codec.
pub fn read_codec_argument(kind: CodecArgumentKind, value: Option<WorkerEnvelope>) -> (r: Result<
    Json,
    FlowError,
>)
    ensures
        match r {
            Ok(v) => codec_argument(kind, value) == Ok::<JsonView, FlowErrorView>(json_view(v)),
            Err(e) => codec_argument(kind, value) == Err::<JsonView, FlowErrorView>(e@),
        },
{
    let field = match kind {
        CodecArgumentKind::Request => "codec request",
        CodecArgumentKind::Annotated => "annotated codec request",
        CodecArgumentKind::Original => "original codec request",
        CodecArgumentKind::Response => "codec response",
    };
    match value {
        None => Err(FlowError::internal(concat2(field, " is missing"))),
        Some(envelope) => match envelope.payload {
            Ok(v) => Ok(v),
            Err(e) => Err(FlowError::internal(e)),
        },
    }
}

/// What using a borrowed codec comes to before it is used.
pub open spec fn codec_call(
    state: WorkerHostRuntimeState,
    caller: WorkerCaller,
    capability_id: Seq<char>,
    invocation_id: Seq<char>,
    direction: CodecCapability,
) -> Option<CallRefusalView> {
    if !authorized(state, caller) {
        Some(caller_refused())
    } else {
        match codec_problem(state.codecs@, capability_id, invocation_id, direction) {
            Some(s) => Some(CallRefusalView::Status(s)),
            None => None,
        }
    }
}

/// Takes a worker's call to use a codec that it borrowed.
pub fn accept_codec_call(
    state: &WorkerHostRuntimeState,
    caller: &WorkerCaller,
    capability_id: &str,
    invocation_id: &str,
    direction: CodecCapability,
) -> (r: Result<(), CallRefusal>)
    ensures
        match r {
            Ok(()) => codec_call(*state, *caller, capability_id@, invocation_id@, direction)
                is None,
            Err(e) => codec_call(*state, *caller, capability_id@, invocation_id@, direction)
                == Some(e@),
        },
{
    if let Err(s) = state.authorize(caller.activation_id, caller.auth_token) {
        return Err(CallRefusal::Status(s));
    }
    match state.check_codec(capability_id, invocation_id, direction) {
        Ok(()) => Ok(()),
        Err(s) => Err(CallRefusal::Status(s)),
    }
}

/// The direction of a codec that takes an argument.
pub open spec fn codec_direction(kind: CodecArgumentKind) -> CodecCapability {
    match kind {
        CodecArgumentKind::Response => CodecCapability::Response,
        _ => CodecCapability::Request,
    }
}

/// What decoding with a borrowed codec comes to before the codec is used: its argument.
pub open spec fn decode_call(
    state: WorkerHostRuntimeState,
    caller: WorkerCaller,
    capability_id: Seq<char>,
    invocation_id: Seq<char>,
    kind: CodecArgumentKind,
    value: Option<WorkerEnvelope>,
) -> Result<JsonView, CallRefusalView> {
    match codec_call(state, caller, capability_id, invocation_id, codec_direction(kind)) {
        Some(e) => Err(e),
        None => match codec_argument(kind, value) {
            Ok(v) => Ok(v),
            Err(e) => Err(CallRefusalView::Flow(e)),
        },
    }
}

/// Takes a worker's call to decode a request or a response with a codec that it borrowed.
pub fn accept_decode(
    state: &WorkerHostRuntimeState,
    caller: &WorkerCaller,
    capability_id: &str,
    invocation_id: &str,
    kind: CodecArgumentKind,
    value: Option<WorkerEnvelope>,
) -> (r: Result<Json, CallRefusal>)
    ensures
        match r {
            Ok(v) => decode_call(*state, *caller, capability_id@, invocation_id@, kind, value)
                == Ok::<JsonView, CallRefusalView>(json_view(v)),
            Err(e) => decode_call(*state, *caller, capability_id@, invocation_id@, kind, value)
                == Err::<JsonView, CallRefusalView>(e@),
        },
{
    let direction = match kind {
        CodecArgumentKind::Response => CodecCapability::Response,
        _ => CodecCapability::Request,
    };
    if let Err(e) = accept_codec_call(state, caller, capability_id, invocation_id, direction) {
        return Err(e);
    }
    match read_codec_argument(kind, value) {
        Ok(v) => Ok(v),
        Err(e) => Err(CallRefusal::Flow(e)),
    }
}

/// What encoding with a borrowed codec comes to before the codec is used: the annotated request
/// and the one that it was made from.
pub open spec fn encode_call(
    state: WorkerHostRuntimeState,
    caller: WorkerCaller,
    capability_id: Seq<char>,
    invocation_id: Seq<char>,
    annotated: Option<WorkerEnvelope>,
    original: Option<WorkerEnvelope>,
) -> Result<(JsonView, JsonView), CallRefusalView> {
    match decode_call(
        state,
        caller,
        capability_id,
        invocation_id,
        CodecArgumentKind::Annotated,
        annotated,
    ) {
        Err(e) => Err(e),
        Ok(a) => match codec_argument(CodecArgumentKind::Original, original) {
            Ok(o) => Ok((a, o)),
            Err(e) => Err(CallRefusalView::Flow(e)),
        },
    }
}

/// Takes a worker's call to encode an annotated request with a codec that it borrowed.
pub fn accept_encode(
    state: &WorkerHostRuntimeState,
    caller: &WorkerCaller,
    capability_id: &str,
    invocation_id: &str,
    annotated: Option<WorkerEnvelope>,
    original: Option<WorkerEnvelope>,
) -> (r: Result<(Json, Json), CallRefusal>)
    ensures
        match r {
            Ok(call) => encode_call(
                *state,
                *caller,
                capability_id@,
                invocation_id@,
                annotated,
                original,
            ) == Ok::<(JsonView, JsonView), CallRefusalView>(
                (json_view(call.0), json_view(call.1)),
            ),
            Err(e) => encode_call(
                *state,
                *caller,
                capability_id@,
                invocation_id@,
                annotated,
                original,
            ) == Err::<(JsonView, JsonView), CallRefusalView>(e@),
        },
{
    let annotated = match accept_decode(
        state,
        caller,
        capability_id,
        invocation_id,
        CodecArgumentKind::Annotated,
        annotated,
    ) {
        Err(e) => {
            return Err(e);
        },
        Ok(annotated) => annotated,
    };
    match read_codec_argument(CodecArgumentKind::Original, original) {
        Ok(original) => Ok((annotated, original)),
        Err(e) => Err(CallRefusal::Flow(e)),
    }
}

/// A call that a worker makes to the host.
#[derive(Debug, Clone, Copy, PartialEq, Eq, Structural)]
pub enum HostCall {
    /// Emit a mark.
    EmitMark,
    /// Open a scope.
    PushScope,
    /// Close a scope.
    PopScope,
    /// Make a stack.
    CreateScopeStack,
    /// Give a stack up.
    DropScopeStack,
    /// Run a continuation.
    Next(NextKind),
    /// Use a codec.
    Codec(CodecArgumentKind),
}

/// What a worker hears of a call that does not run.
pub enum RefusedAnswer {
    /// The call fails with a status.
    Status(HostStatus),
    /// The call is acknowledged with an error.
    Ack(HostAck),
    /// The call to open a scope is answered with an error.
    Push(PushAnswer),
}

/// The status that a refused call fails with, where `shown` is how the refusal's error is shown.
/// Marks and new scopes are worked on inside their stack, so that what goes wrong there is
/// answered as an error of theirs and gives no status.
pub open spec fn refused_status(call: HostCall, refusal: CallRefusalView, shown: Seq<char>) -> Option<
    HostStatusView,
> {
    match refusal {
        CallRefusalView::Status(s) => Some(s),
        CallRefusalView::Stack(s) => if call == HostCall::EmitMark || call == HostCall::PushScope {
            None
        } else {
            Some(s)
        },
        CallRefusalView::Flow(_) => if call == HostCall::EmitMark || call == HostCall::PushScope {
            None
        } else {
            Some((HostStatusCode::Internal, shown))
        },
    }
}

/// Whether an error tells a worker what an error of the runtime is shown as.
pub open spec fn tells(error: Option<WorkerError>, shown: Seq<char>) -> bool {
    error is Some && error->0.code@ == "host.runtime_error"@ && error->0.message@ == shown
        && !error->0.retryable
}

/// Answers a call that does not run; `shown` is how the refusal's error is shown.
pub fn refuse_call(call: HostCall, refusal: CallRefusal, shown: String) -> (r: RefusedAnswer)
    ensures
        match refused_status(call, refusal@, shown@) {
            Some(status) => r is Status && r->Status_0@ == status,
            None => if call == HostCall::EmitMark {
                r is Ack && !r->Ack_0.ok && tells(r->Ack_0.error, shown@)
            } else {
                r is Push && r->Push_0.scope_handle_id@ == ""@ && tells(r->Push_0.error, shown@)
            },
        },
{
    let status = match refusal {
        CallRefusal::Status(s) => {
            return RefusedAnswer::Status(s);
        },
        CallRefusal::Stack(s) => Some(s),
        CallRefusal::Flow(_) => None,
    };
    match call {
        HostCall::EmitMark => RefusedAnswer::Ack(host_ack(Err(shown))),
        HostCall::PushScope => RefusedAnswer::Push(push_refused(shown)),
        _ => match status {
            Some(s) => RefusedAnswer::Status(s),
            None => RefusedAnswer::Status(
                HostStatus { code: HostStatusCode::Internal, message: shown },
            ),
        },
    }
}

/// Why a continuation's stream was not opened.
pub enum StreamFailure {
    /// An error, by how it is shown.
    Failed(String),
    /// The continuation panicked, by the text of the panic.
    Panicked(String),
}

/// The status of a call for a stream that was not opened.
pub fn stream_not_opened(failure: StreamFailure) -> (r: HostStatus)
    ensures
        r@ == (match failure {
            StreamFailure::Failed(shown) => (HostStatusCode::Internal, shown@),
            StreamFailure::Panicked(panic) => (
                HostStatusCode::Internal,
                "worker stream continuation panicked: "@ + panic@,
            ),
        }),
{
    let message = match failure {
        StreamFailure::Failed(shown) => shown,
        StreamFailure::Panicked(panic) => concat2(
            "worker stream continuation panicked: ",
            panic.as_str(),
        ),
    };
    HostStatus { code: HostStatusCode::Internal, message }
}

/// Every call of someone who does not hold the activation's token is refused for that, whatever
/// it asks for, and fails with a status that says so.
pub proof fn law_strangers_are_refused(
    state: WorkerHostRuntimeState,
    caller: WorkerCaller,
    id: Seq<char>,
    other: Seq<char>,
    kind: NextKind,
    direction: CodecCapability,
    value: Option<WorkerEnvelope>,
    call: HostCall,
    shown: Seq<char>,
)
    requires
        !authorized(state, caller),
    ensures
        mark_call(state, caller, value, value) == Err::<
            (CallStack, Option<JsonView>, Option<JsonView>),
            CallRefusalView,
        >(caller_refused()),
        push_call(state, caller, value, value, value) == Err::<
            (CallStack, Option<JsonView>, Option<JsonView>, Option<JsonView>),
            CallRefusalView,
        >(caller_refused()),
        pop_call(state, caller, id, value, value) == Err::<
            (CallStack, Seq<char>, Option<JsonView>, Option<JsonView>),
            CallRefusalView,
        >(caller_refused()),
        next_call(state, caller, id, kind, value) == Err::<
            (CallStack, JsonView),
            CallRefusalView,
        >(caller_refused()),
        codec_call(state, caller, id, other, direction) == Some(caller_refused()),
        encode_call(state, caller, id, other, value, value) == Err::<
            (JsonView, JsonView),
            CallRefusalView,
        >(caller_refused()),
        refused_status(call, caller_refused(), shown) == Some(
            (HostStatusCode::PermissionDenied, "invalid worker host token"@),
        ),
{
}

/// A worker's mark is emitted exactly where the worker is known, its stack is, and what it sends
/// along can be read; it goes to that stack with that data.
pub proof fn law_marks_are_emitted(
    state: WorkerHostRuntimeState,
    caller: WorkerCaller,
    data: Option<WorkerEnvelope>,
    metadata: Option<WorkerEnvelope>,
    input: Option<WorkerEnvelope>,
)
    ensures
        authorized(state, caller) <==> caller.activation_id@ == state.activation_id@
            && caller.auth_token@ == state.auth_token@,
        mark_call(state, caller, data, metadata) is Ok <==> authorized(state, caller) && (
        caller.scope_stack_id is None || caller.scope_stack_id->0@.len() == 0
            || state.scope_stacks@.contains_key(caller.scope_stack_id->0@)) && (data is None
            || data->0.payload is Ok) && (metadata is None || metadata->0.payload is Ok),
        mark_call(state, caller, data, metadata) matches Ok(call) ==> {
            &&& data matches Some(d) ==> call.1 == Some(json_view(d.payload->Ok_0))
            &&& data is None ==> call.1 is None
            &&& metadata matches Some(m) ==> call.2 == Some(json_view(m.payload->Ok_0))
            &&& metadata is None ==> call.2 is None
            &&& caller.scope_stack_id is None ==> call.0 == CallStack::Current
            &&& caller.scope_stack_id matches Some(id) ==> (id@.len() > 0 ==> call.0
                == CallStack::Named(state.scope_stacks@[id@].handle))
        },
        push_call(state, caller, data, metadata, input) is Ok <==> mark_call(
            state,
            caller,
            data,
            metadata,
        ) is Ok && (input is None || input->0.payload is Ok),
        push_call(state, caller, data, metadata, input) matches Ok(call) ==> {
            &&& input matches Some(i) ==> call.3 == Some(json_view(i.payload->Ok_0))
            &&& input is None ==> call.3 is None
            &&& mark_call(state, caller, data, metadata) == Ok::<
                (CallStack, Option<JsonView>, Option<JsonView>),
                CallRefusalView,
            >((call.0, call.1, call.2))
        },
        authorized(state, caller) && (caller.scope_stack_id matches Some(id) && id@.len() > 0
            && !state.scope_stacks@.contains_key(id@)) ==> mark_call(state, caller, data, metadata)
            == Err::<(CallStack, Option<JsonView>, Option<JsonView>), CallRefusalView>(
            CallRefusalView::Stack((HostStatusCode::NotFound, "scope stack not found"@)),
        ),
{
}

/// A scope is closed exactly where the worker is known and has it, what it sends along can be read,
/// and the stack that the scope was opened on is still there.
pub proof fn law_own_scopes_are_closed(
    state: WorkerHostRuntimeState,
    caller: WorkerCaller,
    id: Seq<char>,
    output: Option<WorkerEnvelope>,
    metadata: Option<WorkerEnvelope>,
)
    ensures
        pop_call(state, caller, id, output, metadata) is Ok <==> authorized(state, caller)
            && state.scope_handles@.contains_key(id) && (output is None || output->0.payload is Ok)
            && (metadata is None || metadata->0.payload is Ok) && (
        state.scope_handles@[id].scope_stack_id@.len() == 0 || state.scope_stacks@.contains_key(
            state.scope_handles@[id].scope_stack_id@,
        )),
        pop_call(state, caller, id, output, metadata) matches Ok(call) ==> {
            &&& call.1 == state.scope_handles@[id].uuid@
            &&& output matches Some(o) ==> call.2 == Some(json_view(o.payload->Ok_0))
            &&& metadata matches Some(m) ==> call.3 == Some(json_view(m.payload->Ok_0))
            &&& state.scope_handles@[id].scope_stack_id@.len() == 0 ==> call.0 == CallStack::Current
        },
        authorized(state, caller) && !state.scope_handles@.contains_key(id) ==> pop_call(
            state,
            caller,
            id,
            output,
            metadata,
        ) == Err::<(CallStack, Seq<char>, Option<JsonView>, Option<JsonView>), CallRefusalView>(
            CallRefusalView::Status((HostStatusCode::NotFound, "scope handle not found"@)),
        ),
{
}

/// A continuation is run exactly where the worker is known, has the continuation, of that kind,
/// names a stack that is there, and sends an argument that can be read, which is what it runs with.
pub proof fn law_own_continuations_run(
    state: WorkerHostRuntimeState,
    caller: WorkerCaller,
    id: Seq<char>,
    kind: NextKind,
    value: Option<WorkerEnvelope>,
)
    ensures
        next_call(state, caller, id, kind, value) is Ok <==> authorized(state, caller)
            && state.continuations@.contains_key(id) && state.continuations@[id] == kind && (
        caller.scope_stack_id is None || caller.scope_stack_id->0@.len() == 0
            || state.scope_stacks@.contains_key(caller.scope_stack_id->0@)) && value is Some
            && value->0.payload is Ok,
        next_call(state, caller, id, kind, value) matches Ok(call) ==> call.1 == json_view(
            value->0.payload->Ok_0,
        ),
        next_field(NextKind::Tool) == "tool next value"@,
        next_field(NextKind::Llm) == "llm next request"@,
        next_field(NextKind::LlmStream) == "llm stream next request"@,
        next_undecodable(NextKind::Tool) == "invalid tool next JSON: "@,
        next_undecodable(NextKind::Llm) == "invalid LLM next request: "@,
        next_undecodable(NextKind::LlmStream) == "invalid LLM stream next request: "@,
{
}

/// A codec is used exactly where the worker is known and it was lent to the invocation in that
/// direction, and every argument is there and can be read: requests are decoded and encoded by
/// codecs for requests, responses by codecs for responses.
pub proof fn law_lent_codecs_are_used(
    state: WorkerHostRuntimeState,
    caller: WorkerCaller,
    id: Seq<char>,
    invocation_id: Seq<char>,
    kind: CodecArgumentKind,
    value: Option<WorkerEnvelope>,
    original: Option<WorkerEnvelope>,
)
    ensures
        codec_direction(CodecArgumentKind::Request) == CodecCapability::Request,
        codec_direction(CodecArgumentKind::Annotated) == CodecCapability::Request,
        codec_direction(CodecArgumentKind::Original) == CodecCapability::Request,
        codec_direction(CodecArgumentKind::Response) == CodecCapability::Response,
        decode_call(state, caller, id, invocation_id, kind, value) is Ok <==> authorized(
            state,
            caller,
        ) && codec_problem(state.codecs@, id, invocation_id, codec_direction(kind)) is None && value
            is Some && value->0.payload is Ok,
        decode_call(state, caller, id, invocation_id, kind, value) matches Ok(v) ==> v == json_view(
            value->0.payload->Ok_0,
        ),
        encode_call(state, caller, id, invocation_id, value, original) is Ok <==> authorized(
            state,
            caller,
        ) && codec_problem(state.codecs@, id, invocation_id, CodecCapability::Request) is None
            && value is Some && value->0.payload is Ok && original is Some && original->0.payload
            is Ok,
        encode_call(state, caller, id, invocation_id, value, original) matches Ok(call) ==> call.0
            == json_view(value->0.payload->Ok_0) && call.1 == json_view(original->0.payload->Ok_0),
        codec_field(CodecArgumentKind::Request) == "codec request"@,
        codec_field(CodecArgumentKind::Annotated) == "annotated codec request"@,
        codec_field(CodecArgumentKind::Original) == "original codec request"@,
        codec_field(CodecArgumentKind::Response) == "codec response"@,
        value is None ==> codec_argument(kind, value) == Err::<JsonView, FlowErrorView>(
            (FlowErrorKind::Internal, codec_field(kind) + " is missing"@),
        ),
{
}

/// How a refused call is answered: marks and scopes that fail on their stack or argument are
/// answered as such, and every other refusal is a status, that of an error an internal one.
pub proof fn law_refusals_are_answered(
    call: HostCall,
    s: HostStatusView,
    e: FlowErrorView,
    shown: Seq<char>,
)
    ensures
        refused_status(call, CallRefusalView::Status(s), shown) == Some(s),
        refused_status(HostCall::EmitMark, CallRefusalView::Stack(s), shown) is None,
        refused_status(HostCall::PushScope, CallRefusalView::Stack(s), shown) is None,
        refused_status(HostCall::EmitMark, CallRefusalView::Flow(e), shown) is None,
        refused_status(HostCall::PushScope, CallRefusalView::Flow(e), shown) is None,
        call != HostCall::EmitMark && call != HostCall::PushScope ==> refused_status(
            call,
            CallRefusalView::Flow(e),
            shown,
        ) == Some((HostStatusCode::Internal, shown)) && refused_status(
            call,
            CallRefusalView::Stack(s),
            shown,
        ) == Some(s),
        caller_refused() == CallRefusalView::Status(
            (HostStatusCode::PermissionDenied, "invalid worker host token"@),
        ),
{
}

/// A failure of the runtime is told with its code and text, and is not to be tried again. A call runs
/// on the stack that its caller names, or on the current one.
pub proof fn law_runtime_failures_are_told(
    error: Option<WorkerError>,
    shown: Seq<char>,
    state: WorkerHostRuntimeState,
    caller: WorkerCaller,
)
    ensures
        tells(error, shown) <==> error is Some && error->0.code@ == "host.runtime_error"@
            && error->0.message@ == shown && !error->0.retryable,
        caller.scope_stack_id is None ==> caller_stack(state, caller) == Ok::<
            CallStack,
            HostStatusView,
        >(CallStack::Current),
        caller.scope_stack_id matches Some(id) ==> caller_stack(state, caller) == named_stack(
            state.scope_stacks@,
            id@,
        ),
{
}

} // verus!
