//! Completion handles of asynchronous native callbacks.
//!
//! A callback settles its completion once, with a value or an error. The waiting host
//! may give up first; the completion is then cancelled and its continuations are
//! aborted.

use vstd::prelude::*;

use crate::error::error_text;
use crate::json::{json_view, Json, JsonView};
use crate::native::status::{
    flow_error_status, flow_failure, internal, leaves, quiet, status_from_flow_error, told,
    CallReport, FlowError, FlowErrorKind, FlowErrorView, LastError, NemoRelayStatus,
};
use crate::native::strings::{
    json_argument, native_text, parse_argument, parsed_argument, read_native_string, take_json_arg,
    NativeString, ParsedArgument, ParsedArgumentView,
};
use crate::native::tasks::TaskSet;
use crate::text::concat2;

verus! {

/// A codec that a completion lends to its callback.
#[derive(Debug, Clone, Copy, PartialEq, Eq, Structural)]
pub enum CodecCapability {
    /// Codec of LLM requests.
    Request,
    /// Codec of LLM responses.
    Response,
}

/// What a continuation leads to.
#[derive(Debug, Clone, Copy, PartialEq, Eq, Structural)]
pub enum NextKind {
    /// Execution of a tool.
    Tool,
    /// Execution of an LLM request.
    Llm,
    /// Streaming execution of an LLM request.
    LlmStream,
}

/// State of a completion.
pub struct NativeAsyncCompletion {
    /// What the completion was settled with.
    pub outcome: Option<Result<Json, FlowError>>,
    /// Whether the waiting host gave up.
    pub cancelled: bool,
    /// Whether the continuation was invoked into this completion.
    pub next_invoked: bool,
    /// Task of that continuation, while it runs.
    pub next_task: Option<u64>,
    /// Tasks of continuations with callbacks of their own.
    pub continuations: TaskSet,
    /// Codec that is lent to the callback.
    pub codec: Option<CodecCapability>,
}

/// What a result holds.
pub open spec fn result_view(result: Result<Json, FlowError>) -> Result<JsonView, FlowErrorView> {
    match result {
        Ok(v) => Ok(json_view(v)),
        Err(e) => Err(e@),
    }
}

/// The mathematical form of a completion.
pub ghost struct CompletionView {
    /// What the completion was settled with.
    pub outcome: Option<Result<JsonView, FlowErrorView>>,
    /// Whether the waiting host gave up.
    pub cancelled: bool,
    /// Whether the continuation was invoked into this completion.
    pub next_invoked: bool,
    /// Task of that continuation, while it runs.
    pub next_task: Option<u64>,
    /// Tasks of continuations with callbacks of their own.
    pub continuations: Set<u64>,
    /// Codec that is lent to the callback.
    pub codec: Option<CodecCapability>,
}

impl View for NativeAsyncCompletion {
    type V = CompletionView;

    open spec fn view(&self) -> CompletionView {
        CompletionView {
            outcome: match self.outcome {
                Some(result) => Some(result_view(result)),
                None => None,
            },
            cancelled: self.cancelled,
            next_invoked: self.next_invoked,
            next_task: self.next_task,
            continuations: self.continuations@,
            codec: self.codec,
        }
    }
}

/// Whether a completion can still be settled by its callback.
pub open spec fn open_completion(c: CompletionView) -> bool {
    !c.cancelled && c.outcome is None
}

/// A completion that was settled; nothing of it runs any more.
pub open spec fn settled_with(
    c: CompletionView,
    result: Result<JsonView, FlowErrorView>,
) -> CompletionView {
    CompletionView {
        outcome: Some(result),
        next_task: None,
        continuations: Set::empty(),
        ..c
    }
}

/// A completion that was cancelled; nothing of it runs any more.
pub open spec fn cancelled_completion(c: CompletionView) -> CompletionView {
    CompletionView { cancelled: true, next_task: None, continuations: Set::empty(), ..c }
}

/// The tasks of a completion.
pub open spec fn running_tasks(c: CompletionView) -> Set<u64> {
    match c.next_task {
        Some(id) => c.continuations.insert(id),
        None => c.continuations,
    }
}

/// What resolving a completion reports, by what reading the result gave.
pub open spec fn resolve_report(c: CompletionView, parsed: ParsedArgumentView) -> CallReport {
    match json_argument(parsed, "native async completion result"@, " was invalid JSON: "@) {
        Err((status, message)) => told(status, message),
        Ok(_) => if open_completion(c) {
            quiet(NemoRelayStatus::Success)
        } else {
            quiet(NemoRelayStatus::InvalidArg)
        },
    }
}

/// The error text that a completion is rejected with.
pub open spec fn rejection_text(message: Option<&NativeString>) -> Seq<char> {
    match message {
        None => "native async callback rejected"@,
        Some(_) => native_text(message)->Ok_0,
    }
}

/// What rejecting a completion reports.
pub open spec fn reject_report(c: CompletionView, message: Option<&NativeString>) -> CallReport {
    if message is Some && native_text(message) is Err {
        told(NemoRelayStatus::InvalidArg, error_text(native_text(message)->Err_0))
    } else if open_completion(c) {
        quiet(NemoRelayStatus::Success)
    } else {
        quiet(NemoRelayStatus::InvalidArg)
    }
}

impl NativeAsyncCompletion {
    /// Whether the running tasks are tracked once each.
    pub open spec fn wf(self) -> bool {
        self.continuations.wf()
    }

    /// An open completion.
    pub fn new(codec: Option<CodecCapability>) -> (r: Self)
        ensures
            r.wf(),
            r@ == (CompletionView {
                outcome: None,
                cancelled: false,
                next_invoked: false,
                next_task: None,
                continuations: Set::empty(),
                codec,
            }),
    {
        NativeAsyncCompletion {
            outcome: None,
            cancelled: false,
            next_invoked: false,
            next_task: None,
            continuations: TaskSet::new(),
            codec,
        }
    }

    /// Takes the tasks out that are to be aborted.
    fn take_tasks(&mut self) -> (r: Vec<u64>)
        requires
            old(self).wf(),
        ensures
            final(self).wf(),
            final(self)@ == (CompletionView {
                next_task: None,
                continuations: Set::empty(),
                ..old(self)@
            }),
            r@.to_set() == running_tasks(old(self)@),
    {
        let mut tasks = self.continuations.drain();
        let ghost drained = tasks@;
        match self.next_task {
            Some(id) => {
                tasks.push(id);
                proof {
                    drained.lemma_push_to_set_commute(id);
                }
            },
            None => {},
        }
        self.next_task = None;
        tasks
    }

    /// Settles an open completion and gives the tasks to abort.
    fn settle(&mut self, result: Result<Json, FlowError>) -> (r: (NemoRelayStatus, Vec<u64>))
        requires
            old(self).wf(),
        ensures
            final(self).wf(),
            open_completion(old(self)@) ==> r.0 == NemoRelayStatus::Success && final(self)@
                == settled_with(old(self)@, result_view(result)) && r.1@.to_set()
                == running_tasks(old(self)@),
            !open_completion(old(self)@) ==> r.0 == NemoRelayStatus::InvalidArg && *final(self)
                == *old(self) && r.1@.len() == 0,
    {
        if self.cancelled || self.outcome.is_some() {
            return (NemoRelayStatus::InvalidArg, Vec::new());
        }
        let tasks = self.take_tasks();
        self.outcome = Some(result);
        (NemoRelayStatus::Success, tasks)
    }

    /// Resolves the completion with a JSON value, by what reading it gave, and gives the tasks
    /// to abort.
    pub fn resolve_parsed(&mut self, last_error: &mut LastError, parsed: ParsedArgument) -> (r: (
        NemoRelayStatus,
        Vec<u64>,
    ))
        requires
            old(self).wf(),
        ensures
            final(self).wf(),
            ({
                let report = resolve_report(old(self)@, parsed@);
                &&& r.0 == report.status
                &&& leaves(report, *old(last_error), *final(last_error))
                &&& if report.status == NemoRelayStatus::Success {
                    final(self)@ == settled_with(old(self)@, Ok(parsed@->Value_0))
                        && r.1@.to_set() == running_tasks(old(self)@)
                } else {
                    *final(self) == *old(self) && r.1@.len() == 0
                }
            }),
    {
        match take_json_arg(
            last_error,
            parsed,
            "native async completion result",
            " was invalid JSON: ",
        ) {
            Err(status) => (status, Vec::new()),
            Ok(value) => self.settle(Ok(value)),
        }
    }

    /// Resolves the completion with a JSON value and gives the tasks to abort.
    pub fn resolve_json(&mut self, last_error: &mut LastError, value: Option<&NativeString>) -> (r: (
        NemoRelayStatus,
        Vec<u64>,
    ))
        requires
            old(self).wf(),
        ensures
            final(self).wf(),
            ({
                let report = resolve_report(old(self)@, parsed_argument(value));
                &&& r.0 == report.status
                &&& leaves(report, *old(last_error), *final(last_error))
                &&& if report.status == NemoRelayStatus::Success {
                    final(self)@ == settled_with(old(self)@, Ok(parsed_argument(value)->Value_0))
                        && r.1@.to_set() == running_tasks(old(self)@)
                } else {
                    *final(self) == *old(self) && r.1@.len() == 0
                }
            }),
    {
        self.resolve_parsed(last_error, parse_argument(value))
    }

    /// Rejects the completion with an error text and gives the tasks to abort.
    pub fn reject(&mut self, last_error: &mut LastError, message: Option<&NativeString>) -> (r: (
        NemoRelayStatus,
        Vec<u64>,
    ))
        requires
            old(self).wf(),
        ensures
            final(self).wf(),
            ({
                let report = reject_report(old(self)@, message);
                &&& r.0 == report.status
                &&& leaves(report, *old(last_error), *final(last_error))
                &&& if report.status == NemoRelayStatus::Success {
                    final(self)@ == settled_with(
                        old(self)@,
                        Err((FlowErrorKind::Internal, rejection_text(message))),
                    ) && r.1@.to_set() == running_tasks(old(self)@)
                } else {
                    *final(self) == *old(self) && r.1@.len() == 0
                }
            }),
    {
        let text = if message.is_none() {
            "native async callback rejected".to_owned()
        } else {
            match read_native_string(message) {
                Ok(text) => text,
                Err(e) => {
                    last_error.set(e.to_text());
                    return (NemoRelayStatus::InvalidArg, Vec::new());
                },
            }
        };
        self.settle(Err(FlowError::internal(text)))
    }

    /// Whether the waiting host gave up.
    pub fn is_cancelled(&self) -> (r: bool)
        ensures
            r == self@.cancelled,
    {
        self.cancelled
    }

    /// Gives the completion up where its result was not received, and gives the tasks to
    /// abort.
    pub fn stop_waiting(&mut self, received: bool) -> (r: Vec<u64>)
        requires
            old(self).wf(),
        ensures
            final(self).wf(),
            received ==> *final(self) == *old(self) && r@.len() == 0,
            !received ==> final(self)@ == cancelled_completion(old(self)@) && r@.to_set()
                == running_tasks(old(self)@),
    {
        if received {
            return Vec::new();
        }
        let tasks = self.take_tasks();
        self.cancelled = true;
        tasks
    }

    /// Whether the codec of a capability may still be used.
    pub fn check_active(&self, last_error: &mut LastError) -> (r: Result<(), NemoRelayStatus>)
        ensures
            open_completion(self@) ==> r is Ok && *final(last_error) == *old(last_error),
            !open_completion(self@) ==> r == Err::<(), NemoRelayStatus>(
                NemoRelayStatus::InvalidArg,
            ) && final(last_error)@ == Some("native async completion capability is expired"@),
    {
        if self.cancelled || self.outcome.is_some() {
            last_error.set_text("native async completion capability is expired");
            return Err(NemoRelayStatus::InvalidArg);
        }
        Ok(())
    }

    /// Tracks a continuation task with a callback of its own; says whether the completion
    /// is still open for it.
    pub fn register_operation(&mut self, id: u64) -> (r: bool)
        requires
            old(self).wf(),
        ensures
            final(self).wf(),
            r == open_completion(old(self)@),
            r ==> final(self)@ == (CompletionView {
                continuations: old(self)@.continuations.insert(id),
                ..old(self)@
            }),
            !r ==> *final(self) == *old(self),
    {
        if self.cancelled || self.outcome.is_some() {
            return false;
        }
        self.continuations.insert(id);
        true
    }

    /// Forgets a continuation task that ended.
    pub fn remove_operation(&mut self, id: u64)
        requires
            old(self).wf(),
        ensures
            final(self).wf(),
            final(self)@ == (CompletionView {
                continuations: old(self)@.continuations.remove(id),
                ..old(self)@
            }),
    {
        self.continuations.remove(id);
    }

    /// Settles the completion with what its continuation gave, unless it was settled
    /// meanwhile.
    pub fn finish_next(&mut self, result: Result<Json, FlowError>)
        requires
            old(self).wf(),
        ensures
            final(self).wf(),
            final(self)@ == (CompletionView {
                next_task: None,
                outcome: if old(self)@.outcome is None {
                    Some(result_view(result))
                } else {
                    old(self)@.outcome
                },
                ..old(self)@
            }),
    {
        self.next_task = None;
        if self.outcome.is_none() {
            self.outcome = Some(result);
        }
    }
}

/// The problem of an argument that is to be run through a continuation, by what reading it
/// gave: `decoded` says why an LLM request was refused, where it was.
pub open spec fn next_argument_report(
    kind: NextKind,
    parsed: ParsedArgumentView,
    decoded: Result<(), Seq<char>>,
    stream_refusal: Seq<char>,
) -> Option<CallReport> {
    match json_argument(parsed, "native async next invocation"@, " was invalid JSON: "@) {
        Err((status, message)) => Some(told(status, message)),
        Ok(_) => match kind {
            NextKind::LlmStream => Some(told(NemoRelayStatus::InvalidArg, stream_refusal)),
            NextKind::Tool => None,
            NextKind::Llm => match decoded {
                Ok(()) => None,
                Err(e) => Some(told(NemoRelayStatus::InvalidJson, e)),
            },
        },
    }
}

/// What invoking the continuation into a completion reports. `context` is the error of
/// isolating its scope context, as kind and text, where that failed.
pub open spec fn next_report(
    c: CompletionView,
    kind: NextKind,
    parsed: ParsedArgumentView,
    decoded: Result<(), Seq<char>>,
    context: Option<(FlowErrorKind, Seq<char>)>,
) -> CallReport {
    match next_argument_report(
        kind,
        parsed,
        decoded,
        "stream continuations require async_next_invoke_stream; completion-based next cannot buffer a stream"@,
    ) {
        Some(report) => report,
        None => if c.cancelled {
            quiet(NemoRelayStatus::InvalidArg)
        } else {
            match context {
                Some((error, shown)) => told(flow_error_status(error), shown),
                None => if c.outcome is Some || c.next_invoked {
                    told(
                        NemoRelayStatus::InvalidArg,
                        "native async next was already invoked for this completion"@,
                    )
                } else {
                    quiet(NemoRelayStatus::Success)
                },
            }
        },
    }
}

/// Takes the argument of a continuation that gives one result, by what reading it gave.
pub fn take_next_argument(
    last_error: &mut LastError,
    kind: NextKind,
    parsed: ParsedArgument,
    decoded: Result<(), String>,
    stream_refusal: &str,
) -> (r: Result<Json, NemoRelayStatus>)
    ensures
        ({
            let report = next_argument_report(
                kind,
                parsed@,
                match decoded {
                    Ok(()) => Ok(()),
                    Err(e) => Err(e@),
                },
                stream_refusal@,
            );
            match r {
                Ok(v) => report is None && *final(last_error) == *old(last_error) && parsed
                    == ParsedArgument::Value(v),
                Err(status) => report is Some && report->0.status == status && status
                    != NemoRelayStatus::Success && leaves(
                    report->0,
                    *old(last_error),
                    *final(last_error),
                ),
            }
        }),
{
    let value = match take_json_arg(
        last_error,
        parsed,
        "native async next invocation",
        " was invalid JSON: ",
    ) {
        Err(status) => {
            return Err(status);
        },
        Ok(value) => value,
    };
    match kind {
        NextKind::LlmStream => {
            last_error.set_text(stream_refusal);
            Err(NemoRelayStatus::InvalidArg)
        },
        NextKind::Tool => Ok(value),
        NextKind::Llm => match decoded {
            Ok(()) => Ok(value),
            Err(e) => {
                last_error.set(e);
                Err(NemoRelayStatus::InvalidJson)
            },
        },
    }
}

impl NativeAsyncCompletion {
    /// Invokes the continuation into this completion, once, by what reading its argument
    /// gave; the value is what to run it with as the given task.
    pub fn invoke_next_parsed(
        &mut self,
        last_error: &mut LastError,
        kind: NextKind,
        parsed: ParsedArgument,
        decoded: Result<(), String>,
        context: Option<(FlowErrorKind, String)>,
        task: u64,
    ) -> (r: Result<Json, NemoRelayStatus>)
        requires
            old(self).wf(),
        ensures
            final(self).wf(),
            ({
                let report = next_report(
                    old(self)@,
                    kind,
                    parsed@,
                    match decoded {
                        Ok(()) => Ok(()),
                        Err(e) => Err(e@),
                    },
                    match context {
                        Some((error, shown)) => Some((error, shown@)),
                        None => None,
                    },
                );
                &&& leaves(report, *old(last_error), *final(last_error))
                &&& match r {
                    Ok(v) => report.status == NemoRelayStatus::Success && parsed
                        == ParsedArgument::Value(v)
                        && final(self)@ == (CompletionView {
                        next_invoked: true,
                        next_task: Some(task),
                        ..old(self)@
                    }),
                    Err(status) => report.status == status && status != NemoRelayStatus::Success
                        && *final(self) == *old(self),
                }
            }),
    {
        let value = match take_next_argument(
            last_error,
            kind,
            parsed,
            decoded,
            "stream continuations require async_next_invoke_stream; completion-based next cannot buffer a stream",
        ) {
            Err(status) => {
                return Err(status);
            },
            Ok(value) => value,
        };
        if self.cancelled {
            return Err(NemoRelayStatus::InvalidArg);
        }
        if let Some((error, shown)) = context {
            return Err(status_from_flow_error(last_error, error, shown));
        }
        if self.outcome.is_some() || self.next_invoked {
            last_error.set_text("native async next was already invoked for this completion");
            return Err(NemoRelayStatus::InvalidArg);
        }
        self.next_invoked = true;
        self.next_task = Some(task);
        Ok(value)
    }

    /// Invokes the continuation into this completion, once; the value is what to run it
    /// with as the given task.
    pub fn invoke_next(
        &mut self,
        last_error: &mut LastError,
        kind: NextKind,
        invocation: Option<&NativeString>,
        decoded: Result<(), String>,
        context: Option<(FlowErrorKind, String)>,
        task: u64,
    ) -> (r: Result<Json, NemoRelayStatus>)
        requires
            old(self).wf(),
        ensures
            final(self).wf(),
            ({
                let report = next_report(
                    old(self)@,
                    kind,
                    parsed_argument(invocation),
                    match decoded {
                        Ok(()) => Ok(()),
                        Err(e) => Err(e@),
                    },
                    match context {
                        Some((error, shown)) => Some((error, shown@)),
                        None => None,
                    },
                );
                &&& leaves(report, *old(last_error), *final(last_error))
                &&& match r {
                    Ok(v) => report.status == NemoRelayStatus::Success && parsed_argument(
                        invocation,
                    ) == ParsedArgumentView::Value(json_view(v))
                        && final(self)@ == (CompletionView {
                        next_invoked: true,
                        next_task: Some(task),
                        ..old(self)@
                    }),
                    Err(status) => report.status == status && status != NemoRelayStatus::Success
                        && *final(self) == *old(self),
                }
            }),
    {
        self.invoke_next_parsed(
            last_error,
            kind,
            parse_argument(invocation),
            decoded,
            context,
            task,
        )
    }
}

/// The result of a continuation that may have panicked.
pub open spec fn continuation_outcome(
    run: Result<Result<JsonView, FlowErrorView>, Seq<char>>,
) -> Result<JsonView, FlowErrorView> {
    match run {
        Ok(result) => result,
        Err(panic) => Err(
            (FlowErrorKind::Internal, "native async next continuation panicked: "@ + panic),
        ),
    }
}

/// The result of a continuation; a panic, given by its text, is an internal error.
pub fn continuation_result(run: Result<Result<Json, FlowError>, String>) -> (r: Result<
    Json,
    FlowError,
>)
    ensures
        result_view(r) == continuation_outcome(
            match run {
                Ok(result) => Ok(result_view(result)),
                Err(panic) => Err(panic@),
            },
        ),
{
    match run {
        Ok(result) => result,
        Err(panic) => Err(
            FlowError::internal(
                concat2("native async next continuation panicked: ", panic.as_str()),
            ),
        ),
    }
}

/// What an asynchronous callback answered at once.
#[derive(Debug, Clone, Copy, PartialEq, Eq, Structural)]
pub enum AsyncCallbackAnswer {
    /// It panicked.
    Panicked,
    /// It answered with a state that does not exist.
    Invalid,
    /// It says that it settled its completion.
    Complete,
    /// It settles its completion later.
    Pending,
}

/// The error of an asynchronous callback's answer.
pub open spec fn answer_problem(answer: AsyncCallbackAnswer, c: CompletionView) -> Option<
    FlowErrorView,
> {
    match answer {
        AsyncCallbackAnswer::Panicked => internal("native async callback panicked"@),
        AsyncCallbackAnswer::Invalid => internal("native async callback returned an invalid state"@),
        AsyncCallbackAnswer::Complete => if c.outcome is None {
            internal("native async callback returned Complete without settling"@)
        } else {
            None
        },
        AsyncCallbackAnswer::Pending => None,
    }
}

/// Decides whether to wait for a completion after its callback's answer.
pub fn accept_answer(answer: AsyncCallbackAnswer, completion: &NativeAsyncCompletion) -> (r: Result<
    (),
    FlowError,
>)
    ensures
        flow_failure(r) == answer_problem(answer, completion@),
{
    match answer {
        AsyncCallbackAnswer::Panicked => Err(
            FlowError::internal("native async callback panicked".to_owned()),
        ),
        AsyncCallbackAnswer::Invalid => Err(
            FlowError::internal("native async callback returned an invalid state".to_owned()),
        ),
        AsyncCallbackAnswer::Complete => if completion.outcome.is_none() {
            Err(
                FlowError::internal(
                    "native async callback returned Complete without settling".to_owned(),
                ),
            )
        } else {
            Ok(())
        },
        AsyncCallbackAnswer::Pending => Ok(()),
    }
}

/// What a completion's waiting host receives, by what the completion was settled with.
pub open spec fn received(outcome: Option<Result<JsonView, FlowErrorView>>) -> Result<
    JsonView,
    FlowErrorView,
> {
    match outcome {
        Some(result) => result,
        None => Err((FlowErrorKind::Internal, "native async callback dropped without settling"@)),
    }
}

/// What the waiting host receives once the completion is settled, or once every handle
/// to it is gone.
pub fn receive(outcome: Option<Result<Json, FlowError>>) -> (r: Result<Json, FlowError>)
    ensures
        result_view(r) == received(
            match outcome {
                Some(result) => Some(result_view(result)),
                None => None,
            },
        ),
{
    match outcome {
        Some(result) => result,
        None => Err(
            FlowError::internal("native async callback dropped without settling".to_owned()),
        ),
    }
}

/// The error of an intercept that is called outside a runtime.
pub fn missing_runtime_error(detail: &str) -> (r: FlowError)
    ensures
        Some(r@) == internal("native async intercept requires a Tokio runtime: "@ + detail@),
{
    FlowError::internal(concat2("native async intercept requires a Tokio runtime: ", detail))
}

/// A completion that is settled or cancelled takes no further result from its callback,
/// neither by resolving nor by rejecting.
pub proof fn law_completion_settles_once(
    c: CompletionView,
    parsed: ParsedArgumentView,
    message: Option<&NativeString>,
)
    requires
        !open_completion(c),
    ensures
        resolve_report(c, parsed).status != NemoRelayStatus::Success,
        reject_report(c, message).status != NemoRelayStatus::Success,
{
}

/// Settling and cancelling both close a completion for good, with nothing left running.
pub proof fn law_closed_completion_runs_nothing(
    c: CompletionView,
    result: Result<JsonView, FlowErrorView>,
)
    ensures
        !open_completion(settled_with(c, result)),
        !open_completion(cancelled_completion(c)),
        running_tasks(settled_with(c, result)) == Set::<u64>::empty(),
        running_tasks(cancelled_completion(c)) == Set::<u64>::empty(),
{
}

/// A continuation is invoked into a completion at most once.
pub proof fn law_next_is_invoked_once(
    c: CompletionView,
    kind: NextKind,
    parsed: ParsedArgumentView,
    decoded: Result<(), Seq<char>>,
    context: Option<(FlowErrorKind, Seq<char>)>,
)
    requires
        c.next_invoked,
    ensures
        next_report(c, kind, parsed, decoded, context).status != NemoRelayStatus::Success,
{
}

/// A completion is open while nobody has settled or cancelled it. Settling and cancelling close it,
/// stop its continuations, and keep everything else; settling records the result.
pub proof fn law_settling_closes_a_completion(
    c: CompletionView,
    result: Result<JsonView, FlowErrorView>,
)
    ensures
        open_completion(c) <==> !c.cancelled && c.outcome is None,
        settled_with(c, result).outcome == Some(result),
        settled_with(c, result).cancelled == c.cancelled,
        settled_with(c, result).next_invoked == c.next_invoked,
        settled_with(c, result).codec == c.codec,
        cancelled_completion(c).cancelled,
        cancelled_completion(c).outcome == c.outcome,
        cancelled_completion(c).codec == c.codec,
        running_tasks(settled_with(c, result)) =~= Set::<u64>::empty(),
        running_tasks(cancelled_completion(c)) =~= Set::<u64>::empty(),
        forall|id: u64|
            running_tasks(c).contains(id) <==> c.continuations.contains(id) || c.next_task == Some(
                id,
            ),
{
}

/// A call that settles a completion succeeds exactly where its argument can be read and the
/// completion is open.
pub proof fn law_open_completions_are_settled(
    c: CompletionView,
    parsed: ParsedArgumentView,
    message: Option<&NativeString>,
)
    ensures
        resolve_report(c, parsed).status == NemoRelayStatus::Success <==> parsed is Value
            && !c.cancelled && c.outcome is None,
        parsed is Value && !(!c.cancelled && c.outcome is None) ==> resolve_report(c, parsed)
            == quiet(NemoRelayStatus::InvalidArg),
        parsed is Malformed ==> resolve_report(c, parsed) == told(
            NemoRelayStatus::InvalidJson,
            "native async completion result"@ + " was invalid JSON: "@ + parsed->Malformed_0,
        ),
        reject_report(c, message).status == NemoRelayStatus::Success <==> (message is None
            || native_text(message) is Ok) && !c.cancelled && c.outcome is None,
        reject_report(c, message).status != NemoRelayStatus::Success ==> reject_report(
            c,
            message,
        ).status == NemoRelayStatus::InvalidArg,
        rejection_text(None) == "native async callback rejected"@,
        message is Some && native_text(message) is Ok ==> Ok::<Seq<char>, crate::error::ErrorView>(
            rejection_text(message),
        ) == native_text(message),
{
}

/// A continuation is started exactly where its argument can be read, fits its kind, the runtime
/// allows it, and the completion is open and has started none.
pub proof fn law_continuations_start_once(
    c: CompletionView,
    kind: NextKind,
    parsed: ParsedArgumentView,
    decoded: Result<(), Seq<char>>,
    context: Option<(FlowErrorKind, Seq<char>)>,
    refusal: Seq<char>,
)
    requires
        context matches Some((error, _)) ==> flow_error_status(error) != NemoRelayStatus::Success,
    ensures
        next_argument_report(kind, parsed, decoded, refusal) is None <==> parsed is Value && (kind
            is Tool || kind is Llm && decoded is Ok),
        parsed is Value && kind is LlmStream ==> next_argument_report(
            kind,
            parsed,
            decoded,
            refusal,
        ) == Some(told(NemoRelayStatus::InvalidArg, refusal)),
        next_report(c, kind, parsed, decoded, context).status == NemoRelayStatus::Success
            <==> parsed is Value && (kind is Tool || kind is Llm && decoded is Ok) && !c.cancelled
            && context is None && c.outcome is None && !c.next_invoked,
        parsed is Value && kind is Tool && !c.cancelled && context is None && (c.outcome is Some
            || c.next_invoked) ==> next_report(c, kind, parsed, decoded, context) == told(
            NemoRelayStatus::InvalidArg,
            "native async next was already invoked for this completion"@,
        ),
{
}

/// A callback's answer is a problem where it panicked, was invalid, or says that it is complete
/// although nothing was settled. A call that ends unsettled is an error.
pub proof fn law_answers_must_settle(
    answer: AsyncCallbackAnswer,
    c: CompletionView,
    result: Result<JsonView, FlowErrorView>,
    panic: Seq<char>,
)
    ensures
        answer_problem(answer, c) is None <==> answer is Pending || answer is Complete && c.outcome
            is Some,
        answer_problem(answer, c) matches Some(e) ==> e.0 == FlowErrorKind::Internal,
        answer is Complete && c.outcome is None ==> answer_problem(answer, c) == Some(
            (
                FlowErrorKind::Internal,
                "native async callback returned Complete without settling"@,
            ),
        ),
        received(Some(result)) == result,
        received(None) == Err::<JsonView, FlowErrorView>(
            (FlowErrorKind::Internal, "native async callback dropped without settling"@),
        ),
        continuation_outcome(Ok(result)) == result,
        continuation_outcome(Err(panic)) == Err::<JsonView, FlowErrorView>(
            (FlowErrorKind::Internal, "native async next continuation panicked: "@ + panic),
        ),
{
}

/// What is told where a continuation is refused or a callback misbehaves.
pub proof fn law_refused_continuations_are_told(
    c: CompletionView,
    kind: NextKind,
    text: Seq<char>,
    document: JsonView,
    decoded: Result<(), Seq<char>>,
    context: Option<(FlowErrorKind, Seq<char>)>,
    refusal: Seq<char>,
)
    ensures
        next_argument_report(kind, ParsedArgumentView::Malformed(text), decoded, refusal) == Some(
            told(
                NemoRelayStatus::InvalidJson,
                "native async next invocation"@ + " was invalid JSON: "@ + text,
            ),
        ),
        next_report(
            c,
            NextKind::LlmStream,
            ParsedArgumentView::Value(document),
            decoded,
            context,
        ) == told(
            NemoRelayStatus::InvalidArg,
            "stream continuations require async_next_invoke_stream; completion-based next cannot buffer a stream"@,
        ),
        answer_problem(AsyncCallbackAnswer::Panicked, c) == Some(
            (FlowErrorKind::Internal, "native async callback panicked"@),
        ),
        answer_problem(AsyncCallbackAnswer::Invalid, c) == Some(
            (FlowErrorKind::Internal, "native async callback returned an invalid state"@),
        ),
{
}

} // verus!
