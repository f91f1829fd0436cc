//! Streams that a native plugin pulls chunk by chunk.

use vstd::prelude::*;

use crate::json::{json_view, Json, JsonView};
use crate::native::completion::{
    open_completion, CompletionView, NativeAsyncCompletion, NextKind,
};
use crate::native::handoff::starting;
use crate::native::status::{
    flow_error_status, internal, leaves, quiet, status_from_flow_error, told, CallReport,
    FlowError, FlowErrorKind, FlowErrorView, LastError, NemoRelayStatus,
};
use crate::native::stream::{NativeAsyncStream, StreamView};
use crate::native::strings::{
    llm_request_argument, parse_argument, parsed_argument, take_llm_request_arg, NativeString,
    ParsedArgument, ParsedArgumentView,
};
use crate::text::concat2;

verus! {

/// State of a pulled stream.
#[derive(Debug, Clone, Copy, PartialEq, Eq, Structural)]
pub enum NativePullStreamState {
    /// The next chunk may be pulled.
    Idle,
    /// A chunk is being pulled by the given task.
    Pulling(u64),
    /// The stream ended.
    Terminal,
    /// The plugin cancelled the stream.
    Cancelled,
}

/// What pulling gave: a chunk, the end or an error.
pub open spec fn pull_view(result: Result<Option<Json>, FlowError>) -> Result<
    Option<JsonView>,
    FlowErrorView,
> {
    match result {
        Ok(Some(chunk)) => Ok(Some(json_view(chunk))),
        Ok(None) => Ok(None),
        Err(e) => Err(e@),
    }
}

/// The state after a pull ended.
pub open spec fn after_pull(
    state: NativePullStreamState,
    result: Result<Option<JsonView>, FlowErrorView>,
) -> NativePullStreamState {
    if state is Cancelled {
        state
    } else if result matches Ok(Some(_)) {
        NativePullStreamState::Idle
    } else {
        NativePullStreamState::Terminal
    }
}

/// What a pull delivers: its result, or the cancellation that overtook it.
pub open spec fn pull_delivery(
    state: NativePullStreamState,
    result: Result<Option<JsonView>, FlowErrorView>,
) -> Result<Option<JsonView>, FlowErrorView> {
    if state is Cancelled {
        Err((FlowErrorKind::Internal, "native pull stream was cancelled"@))
    } else {
        result
    }
}

/// The error of a pull whose callback is owed and that was cancelled.
pub fn pull_cancelled_error() -> (r: FlowError)
    ensures
        Some(r@) == internal("native pull stream was cancelled"@),
{
    FlowError::internal("native pull stream was cancelled".to_owned())
}

/// The error of a pull that panicked.
pub fn pull_panicked_error(panic: &str) -> (r: FlowError)
    ensures
        Some(r@) == internal("native pull stream panicked: "@ + panic@),
{
    FlowError::internal(concat2("native pull stream panicked: ", panic))
}

impl NativePullStreamState {
    /// Begins to pull a chunk with the given task; one pull runs at a time.
    pub fn begin_pull(&mut self, last_error: &mut LastError, task: u64) -> (r: NemoRelayStatus)
        ensures
            *old(self) is Idle ==> r == NemoRelayStatus::Success && *final(self)
                == NativePullStreamState::Pulling(task) && *final(last_error) == *old(last_error),
            !(*old(self) is Idle) ==> r == NemoRelayStatus::InvalidArg && *final(self)
                == *old(self) && final(last_error)@ == Some(
                "native pull stream is busy, terminal, or cancelled"@,
            ),
    {
        match self {
            NativePullStreamState::Idle => {
                *self = NativePullStreamState::Pulling(task);
                NemoRelayStatus::Success
            },
            _ => {
                last_error.set_text("native pull stream is busy, terminal, or cancelled");
                NemoRelayStatus::InvalidArg
            },
        }
    }

    /// Ends a pull and gives what its callback is called with.
    pub fn end_pull(&mut self, result: Result<Option<Json>, FlowError>) -> (r: Result<
        Option<Json>,
        FlowError,
    >)
        ensures
            *final(self) == after_pull(*old(self), pull_view(result)),
            pull_view(r) == pull_delivery(*old(self), pull_view(result)),
    {
        if matches!(*self, NativePullStreamState::Cancelled) {
            return Err(pull_cancelled_error());
        }
        let more = matches!(result, Ok(Some(_)));
        *self = if more {
            NativePullStreamState::Idle
        } else {
            NativePullStreamState::Terminal
        };
        result
    }

    /// Cancels the stream and gives the task to abort, where a pull is under way. A stream
    /// that ended or was cancelled stays as it is.
    pub fn cancel(&mut self) -> (r: (NemoRelayStatus, Option<u64>))
        ensures
            match *old(self) {
                NativePullStreamState::Idle => r == (NemoRelayStatus::Success, None::<u64>)
                    && *final(self) == NativePullStreamState::Cancelled,
                NativePullStreamState::Pulling(task) => r == (NemoRelayStatus::Success, Some(task))
                    && *final(self) == NativePullStreamState::Cancelled,
                _ => r == (NemoRelayStatus::InvalidArg, None::<u64>) && *final(self) == *old(self),
            },
    {
        match *self {
            NativePullStreamState::Idle => {
                *self = NativePullStreamState::Cancelled;
                (NemoRelayStatus::Success, None)
            },
            NativePullStreamState::Pulling(task) => {
                *self = NativePullStreamState::Cancelled;
                (NemoRelayStatus::Success, Some(task))
            },
            _ => (NemoRelayStatus::InvalidArg, None),
        }
    }
}

/// A stream that ended or was cancelled is never pulled again, and stays what it is.
pub proof fn law_ended_pull_stream_stays(
    state: NativePullStreamState,
    result: Result<Option<JsonView>, FlowErrorView>,
)
    ensures
        state is Cancelled ==> after_pull(state, result) is Cancelled,
        after_pull(state, result) is Idle ==> result matches Ok(Some(_)),
        !(after_pull(state, result) is Pulling),
{
}

/// The arguments of a pull callback: chunk, error text and whether the stream is over.
pub struct PullCallback {
    /// The chunk, or nothing for a null string.
    pub chunk: Option<Json>,
    /// The error text, or nothing for a null string.
    pub error: Option<String>,
    /// Whether no chunk follows.
    pub done: bool,
}

/// The arguments that a pull's result is delivered with; an error is given by the text
/// that it is shown as.
pub fn pull_callback(result: Result<Option<Json>, String>) -> (r: PullCallback)
    ensures
        match result {
            Ok(Some(v)) => r.chunk is Some && json_view(r.chunk->0) == json_view(v) && r.error
                is None && !r.done,
            Ok(None) => r.chunk is None && r.error is None && r.done,
            Err(e) => r.chunk is None && r.error == Some(e) && r.done,
        },
{
    match result {
        Ok(Some(chunk)) => PullCallback { chunk: Some(chunk), error: None, done: false },
        Ok(None) => PullCallback { chunk: None, error: None, done: true },
        Err(shown) => PullCallback { chunk: None, error: Some(shown), done: true },
    }
}

/// What opening a pulled stream reports, up to the tracking of its task, by what reading the
/// request gave.
pub open spec fn open_stream_report(
    kind: NextKind,
    parsed: ParsedArgumentView,
    decoded: Result<(), Seq<char>>,
    context: Option<(FlowErrorKind, Seq<char>)>,
) -> CallReport {
    if kind != NextKind::LlmStream {
        told(
            NemoRelayStatus::InvalidArg,
            "pull streams require an LLM stream continuation"@,
        )
    } else {
        match llm_request_argument(parsed, "native async stream request"@, decoded) {
            Err((status, message)) => told(status, message),
            Ok(_) => match context {
                Some((error, shown)) => told(flow_error_status(error), shown),
                None => quiet(NemoRelayStatus::Success),
            },
        }
    }
}

/// Opens a pulled stream, by what reading the request gave: gives the request to run the
/// continuation with.
pub fn open_llm_stream_parsed(
    last_error: &mut LastError,
    kind: NextKind,
    parsed: ParsedArgument,
    decoded: Result<(), String>,
    context: Option<(FlowErrorKind, String)>,
) -> (r: Result<Json, NemoRelayStatus>)
    ensures
        ({
            let report = open_stream_report(
                kind,
                parsed@,
                match decoded {
                    Ok(()) => Ok(()),
                    Err(e) => Err(e@),
                },
                match context {
                    Some((error, shown)) => Some((error, shown@)),
                    None => None,
                },
            );
            &&& leaves(report, *old(last_error), *final(last_error))
            &&& match r {
                Ok(v) => report.status == NemoRelayStatus::Success && parsed
                    == ParsedArgument::Value(v),
                Err(status) => report.status == status && status != NemoRelayStatus::Success,
            }
        }),
{
    match kind {
        NextKind::LlmStream => {},
        _ => {
            last_error.set_text("pull streams require an LLM stream continuation");
            return Err(NemoRelayStatus::InvalidArg);
        },
    }
    let value = match take_llm_request_arg(
        last_error,
        parsed,
        "native async stream request",
        decoded,
    ) {
        Err(status) => {
            return Err(status);
        },
        Ok(value) => value,
    };
    if let Some((error, shown)) = context {
        return Err(status_from_flow_error(last_error, error, shown));
    }
    Ok(value)
}

/// Opens a pulled stream: gives the request to run the continuation with.
pub fn open_llm_stream(
    last_error: &mut LastError,
    kind: NextKind,
    request: Option<&NativeString>,
    decoded: Result<(), String>,
    context: Option<(FlowErrorKind, String)>,
) -> (r: Result<Json, NemoRelayStatus>)
    ensures
        ({
            let report = open_stream_report(
                kind,
                parsed_argument(request),
                match decoded {
                    Ok(()) => Ok(()),
                    Err(e) => Err(e@),
                },
                match context {
                    Some((error, shown)) => Some((error, shown@)),
                    None => None,
                },
            );
            &&& leaves(report, *old(last_error), *final(last_error))
            &&& match r {
                Ok(v) => report.status == NemoRelayStatus::Success && parsed_argument(request)
                    == ParsedArgumentView::Value(json_view(v)),
                Err(status) => report.status == status && status != NemoRelayStatus::Success,
            }
        }),
{
    open_llm_stream_parsed(last_error, kind, parse_argument(request), decoded, context)
}

impl NativeAsyncCompletion {
    /// Opens a pulled stream as the given task, by what reading the request gave: gives the
    /// request to run the continuation with.
    pub fn start_llm_stream(
        &mut self,
        last_error: &mut LastError,
        kind: NextKind,
        parsed: ParsedArgument,
        decoded: Result<(), String>,
        context: Option<(FlowErrorKind, String)>,
        task: u64,
    ) -> (r: Result<Json, NemoRelayStatus>)
        requires
            old(self).wf(),
        ensures
            final(self).wf(),
            ({
                let report = starting(
                    open_stream_report(
                        kind,
                        parsed@,
                        match decoded {
                            Ok(()) => Ok(()),
                            Err(e) => Err(e@),
                        },
                        match context {
                            Some((error, shown)) => Some((error, shown@)),
                            None => None,
                        },
                    ),
                    open_completion(old(self)@),
                );
                &&& leaves(report, *old(last_error), *final(last_error))
                &&& match r {
                    Ok(v) => report.status == NemoRelayStatus::Success && parsed
                        == ParsedArgument::Value(v) && final(self)@ == (CompletionView {
                        continuations: old(self)@.continuations.insert(task),
                        ..old(self)@
                    }),
                    Err(status) => report.status == status && status != NemoRelayStatus::Success
                        && *final(self) == *old(self),
                }
            }),
    {
        let value = match open_llm_stream_parsed(last_error, kind, parsed, decoded, context) {
            Err(status) => {
                return Err(status);
            },
            Ok(value) => value,
        };
        if self.register_operation(task) {
            Ok(value)
        } else {
            Err(NemoRelayStatus::InvalidArg)
        }
    }
}

impl NativeAsyncStream {
    /// Opens a pulled stream as the given task, by what reading the request gave: gives the
    /// request to run the continuation with.
    pub fn start_llm_stream(
        &mut self,
        last_error: &mut LastError,
        kind: NextKind,
        parsed: ParsedArgument,
        decoded: Result<(), String>,
        context: Option<(FlowErrorKind, String)>,
        task: u64,
    ) -> (r: Result<Json, NemoRelayStatus>)
        requires
            old(self).wf(),
        ensures
            final(self).wf(),
            ({
                let report = starting(
                    open_stream_report(
                        kind,
                        parsed@,
                        match decoded {
                            Ok(()) => Ok(()),
                            Err(e) => Err(e@),
                        },
                        match context {
                            Some((error, shown)) => Some((error, shown@)),
                            None => None,
                        },
                    ),
                    !old(self)@.cancelled && !old(self)@.settled,
                );
                &&& leaves(report, *old(last_error), *final(last_error))
                &&& match r {
                    Ok(v) => report.status == NemoRelayStatus::Success && parsed
                        == ParsedArgument::Value(v) && final(self)@ == (StreamView {
                        downstream: old(self)@.downstream.insert(task),
                        ..old(self)@
                    }),
                    Err(status) => report.status == status && status != NemoRelayStatus::Success
                        && *final(self) == *old(self),
                }
            }),
    {
        let value = match open_llm_stream_parsed(last_error, kind, parsed, decoded, context) {
            Err(status) => {
                return Err(status);
            },
            Ok(value) => value,
        };
        if self.register_operation(task) {
            Ok(value)
        } else {
            Err(NemoRelayStatus::InvalidArg)
        }
    }
}

/// Owes a plugin one call of its open callback.
#[derive(Debug, Clone, Copy, PartialEq, Eq, Structural)]
pub struct NativePullOpenCallbackGuard {
    /// Whether the call is still owed.
    pub active: bool,
}

/// What a continuation that is to open a stream gave.
pub enum OpenRun {
    /// It opened the stream.
    Opened,
    /// It failed, by the text that its error is shown as.
    Failed(String),
    /// It panicked, by the text of the panic.
    Panicked(String),
}

/// The error text that an open callback is called with, where the stream did not open.
pub open spec fn open_failure(run: OpenRun) -> Option<Seq<char>> {
    match run {
        OpenRun::Opened => None,
        OpenRun::Failed(e) => Some(e@),
        OpenRun::Panicked(p) => Some("native async stream continuation panicked: "@ + p@),
    }
}

impl NativePullOpenCallbackGuard {
    /// A call that is owed.
    pub fn new() -> (r: Self)
        ensures
            r.active,
    {
        NativePullOpenCallbackGuard { active: true }
    }

    /// Delivers what opening gave: nothing for an opened stream, or the error text. Where no
    /// call is owed, there is none.
    pub fn deliver(&mut self, run: OpenRun) -> (r: Option<Option<String>>)
        ensures
            !final(self).active,
            r is Some == old(self).active,
            r matches Some(d) ==> crate::text::opt_text(d) == open_failure(run),
    {
        if !self.active {
            return None;
        }
        self.active = false;
        match run {
            OpenRun::Opened => Some(None),
            OpenRun::Failed(shown) => Some(Some(shown)),
            OpenRun::Panicked(panic) => Some(
                Some(concat2("native async stream continuation panicked: ", panic.as_str())),
            ),
        }
    }

    /// Never calls the callback.
    pub fn suppress(&mut self)
        ensures
            !final(self).active,
    {
        self.active = false;
    }

    /// Lets the guard go: a call that is still owed reports a cancellation.
    pub fn release(self) -> (r: Option<String>)
        ensures
            crate::text::opt_text(r) == (if self.active {
                Some("native pull stream open was cancelled"@)
            } else {
                None
            }),
    {
        if self.active {
            Some("native pull stream open was cancelled".to_owned())
        } else {
            None
        }
    }
}

/// After a chunk a stream can be pulled again; its end and its failure are final. A stream that was
/// cancelled stays so and delivers nothing.
pub proof fn law_pulls_deliver_until_the_end(
    state: NativePullStreamState,
    result: Result<Option<JsonView>, FlowErrorView>,
)
    ensures
        state is Cancelled ==> after_pull(state, result) is Cancelled && pull_delivery(
            state,
            result,
        ) == Err::<Option<JsonView>, FlowErrorView>(
            (FlowErrorKind::Internal, "native pull stream was cancelled"@),
        ),
        !(state is Cancelled) ==> pull_delivery(state, result) == result,
        !(state is Cancelled) && result is Ok && result->Ok_0 is Some ==> after_pull(state, result)
            is Idle,
        !(state is Cancelled) && (result is Err || result->Ok_0 is None) ==> after_pull(
            state,
            result,
        ) is Terminal,
{
}

/// A pull stream is opened exactly on a stream continuation, with a request that can be read and
/// decoded, where the runtime allows it.
pub proof fn law_pull_streams_are_opened(
    kind: NextKind,
    parsed: ParsedArgumentView,
    decoded: Result<(), Seq<char>>,
    context: Option<(FlowErrorKind, Seq<char>)>,
    text: String,
)
    requires
        context matches Some((error, _)) ==> flow_error_status(error) != NemoRelayStatus::Success,
    ensures
        open_stream_report(kind, parsed, decoded, context).status == NemoRelayStatus::Success
            <==> kind is LlmStream && parsed is Value && decoded is Ok && context is None,
        !(kind is LlmStream) ==> open_stream_report(kind, parsed, decoded, context) == told(
            NemoRelayStatus::InvalidArg,
            "pull streams require an LLM stream continuation"@,
        ),
        open_failure(OpenRun::Opened) is None,
        open_failure(OpenRun::Failed(text)) == Some(text@),
        open_failure(OpenRun::Panicked(text)) == Some(
            "native async stream continuation panicked: "@ + text@,
        ),
{
}

/// What is told of a request that a pull stream cannot be opened with.
pub proof fn law_unreadable_stream_requests_are_told(
    text: Seq<char>,
    decoded: Result<(), Seq<char>>,
    context: Option<(FlowErrorKind, Seq<char>)>,
)
    ensures
        open_stream_report(
            NextKind::LlmStream,
            ParsedArgumentView::Malformed(text),
            decoded,
            context,
        ) == told(
            NemoRelayStatus::InvalidJson,
            "native async stream request"@ + " was invalid JSON: "@ + text,
        ),
{
}

} // verus!
