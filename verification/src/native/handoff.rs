//! Callbacks that are handed to continuation tasks.
//!
//! A plugin that starts a continuation passes a callback for its result. Once the start
//! was accepted, the callback is called exactly once, even where the task is aborted
//! before it runs; where the start was refused, it is never called.

use vstd::prelude::*;

use crate::json::{json_view, Json, JsonView};
use crate::native::completion::{
    next_argument_report, open_completion, take_next_argument, CompletionView,
    NativeAsyncCompletion, NextKind,
};
use crate::native::status::{
    flow_error_status, leaves, quiet, status_from_flow_error, told, CallReport, FlowErrorKind,
    LastError, NemoRelayStatus,
};
use crate::native::stream::{NativeAsyncStream, StreamView};
use crate::native::strings::{
    parse_argument, parsed_argument, NativeString, ParsedArgument, ParsedArgumentView,
};
use crate::text::concat2;

verus! {

/// Where a callback guard is on its way from the call that starts a task to the task.
pub enum NativeCallbackHandoff<G> {
    /// The start is being decided and the task has not run.
    Pending(G),
    /// The start was accepted and the task has not run.
    Accepted(G),
    /// The task is gone before the start was decided.
    TaskDropped(G),
    /// The guard has left.
    Complete,
}

/// What accepting a start makes of a handoff, and the guard that leaves it to report a
/// cancellation.
pub open spec fn after_accept<G>(state: NativeCallbackHandoff<G>) -> (
    NativeCallbackHandoff<G>,
    Option<G>,
) {
    match state {
        NativeCallbackHandoff::Pending(guard) => (NativeCallbackHandoff::Accepted(guard), None),
        NativeCallbackHandoff::TaskDropped(guard) => (NativeCallbackHandoff::Complete, Some(guard)),
        NativeCallbackHandoff::Accepted(guard) => (NativeCallbackHandoff::Accepted(guard), None),
        NativeCallbackHandoff::Complete => (NativeCallbackHandoff::Complete, None),
    }
}

/// What refusing a start makes of a handoff, and the guard that leaves it to be
/// suppressed.
pub open spec fn after_reject<G>(state: NativeCallbackHandoff<G>) -> (
    NativeCallbackHandoff<G>,
    Option<G>,
) {
    match state {
        NativeCallbackHandoff::Pending(guard) => (NativeCallbackHandoff::Complete, Some(guard)),
        NativeCallbackHandoff::TaskDropped(guard) => (NativeCallbackHandoff::Complete, Some(guard)),
        NativeCallbackHandoff::Accepted(guard) => (NativeCallbackHandoff::Accepted(guard), None),
        NativeCallbackHandoff::Complete => (NativeCallbackHandoff::Complete, None),
    }
}

/// What losing the task makes of a handoff, and the guard that leaves it to report a
/// cancellation.
pub open spec fn after_task_drop<G>(state: NativeCallbackHandoff<G>) -> (
    NativeCallbackHandoff<G>,
    Option<G>,
) {
    match state {
        NativeCallbackHandoff::Pending(guard) => (NativeCallbackHandoff::TaskDropped(guard), None),
        NativeCallbackHandoff::Accepted(guard) => (NativeCallbackHandoff::Complete, Some(guard)),
        NativeCallbackHandoff::TaskDropped(guard) => (
            NativeCallbackHandoff::TaskDropped(guard),
            None,
        ),
        NativeCallbackHandoff::Complete => (NativeCallbackHandoff::Complete, None),
    }
}

impl<G> NativeCallbackHandoff<G> {
    /// A handoff whose start is being decided.
    pub fn new(guard: G) -> (r: Self)
        ensures
            r == NativeCallbackHandoff::Pending(guard),
    {
        NativeCallbackHandoff::Pending(guard)
    }

    /// Accepts the start. A guard that comes back reports a cancellation.
    pub fn accept(self) -> (r: (Self, Option<G>))
        ensures
            r == after_accept(self),
    {
        match self {
            NativeCallbackHandoff::Pending(guard) => (NativeCallbackHandoff::Accepted(guard), None),
            NativeCallbackHandoff::TaskDropped(guard) => (
                NativeCallbackHandoff::Complete,
                Some(guard),
            ),
            NativeCallbackHandoff::Accepted(guard) => (NativeCallbackHandoff::Accepted(guard), None),
            NativeCallbackHandoff::Complete => (NativeCallbackHandoff::Complete, None),
        }
    }

    /// Refuses the start. A guard that comes back is suppressed.
    pub fn reject(self) -> (r: (Self, Option<G>))
        ensures
            r == after_reject(self),
    {
        match self {
            NativeCallbackHandoff::Pending(guard) => (NativeCallbackHandoff::Complete, Some(guard)),
            NativeCallbackHandoff::TaskDropped(guard) => (
                NativeCallbackHandoff::Complete,
                Some(guard),
            ),
            NativeCallbackHandoff::Accepted(guard) => (NativeCallbackHandoff::Accepted(guard), None),
            NativeCallbackHandoff::Complete => (NativeCallbackHandoff::Complete, None),
        }
    }

    /// Accepts the start of a task that its owner took, or refuses it. A guard that comes back
    /// reports a cancellation where the start was accepted, and is suppressed where it was not.
    pub fn decide(self, taken: bool) -> (r: (Self, Option<G>))
        ensures
            r == (if taken {
                after_accept(self)
            } else {
                after_reject(self)
            }),
    {
        if taken {
            self.accept()
        } else {
            self.reject()
        }
    }

    /// Gives the guard to its task, which runs only after the start was accepted.
    pub fn claim(self) -> (r: (Self, G))
        requires
            self is Accepted,
        ensures
            r.0 is Complete,
            self == NativeCallbackHandoff::Accepted(r.1),
    {
        match self {
            NativeCallbackHandoff::Accepted(guard) => (NativeCallbackHandoff::Complete, guard),
            _ => vstd::pervasive::unreached(),
        }
    }

    /// Loses the task before it claimed the guard. A guard that comes back reports a
    /// cancellation.
    pub fn drop_task(self) -> (r: (Self, Option<G>))
        ensures
            r == after_task_drop(self),
    {
        match self {
            NativeCallbackHandoff::Pending(guard) => (
                NativeCallbackHandoff::TaskDropped(guard),
                None,
            ),
            NativeCallbackHandoff::Accepted(guard) => (
                NativeCallbackHandoff::Complete,
                Some(guard),
            ),
            NativeCallbackHandoff::TaskDropped(guard) => (
                NativeCallbackHandoff::TaskDropped(guard),
                None,
            ),
            NativeCallbackHandoff::Complete => (NativeCallbackHandoff::Complete, None),
        }
    }
}

/// An accepted start whose task is lost reports a cancellation exactly once, in whichever
/// order the two happen.
pub proof fn law_accepted_start_reports_once<G>(guard: G)
    ensures
        ({
            let start = NativeCallbackHandoff::Pending(guard);
            let (accepted, early) = after_accept(start);
            let (end, late) = after_task_drop(accepted);
            early is None && late == Some(guard) && end is Complete
        }),
        ({
            let start = NativeCallbackHandoff::Pending(guard);
            let (dropped, early) = after_task_drop(start);
            let (end, late) = after_accept(dropped);
            early is None && late == Some(guard) && end is Complete
        }),
{
}

/// A refused start reports nothing: its guard is suppressed, once, and the loss of the
/// task finds nothing left, in whichever order the two happen.
pub proof fn law_refused_start_reports_nothing<G>(guard: G)
    ensures
        ({
            let start = NativeCallbackHandoff::Pending(guard);
            let (refused, suppressed) = after_reject(start);
            let (end, reported) = after_task_drop(refused);
            suppressed == Some(guard) && reported is None && end is Complete
        }),
        ({
            let start = NativeCallbackHandoff::Pending(guard);
            let (dropped, reported) = after_task_drop(start);
            let (end, suppressed) = after_reject(dropped);
            reported is None && suppressed == Some(guard) && end is Complete
        }),
{
}

/// A guard that left a handoff does not come back from it.
pub proof fn law_complete_handoff_is_empty<G>(state: NativeCallbackHandoff<G>)
    requires
        state is Complete,
    ensures
        after_accept(state) == (state, None::<G>),
        after_reject(state) == (state, None::<G>),
        after_task_drop(state) == (state, None::<G>),
{
}

/// What a result callback is called with.
pub enum ResultDelivery {
    /// The value of the continuation.
    Value(Json),
    /// The text of an error.
    Failure(String),
}

/// What a delivery holds.
pub open spec fn delivery_view(d: ResultDelivery) -> Result<JsonView, Seq<char>> {
    match d {
        ResultDelivery::Value(v) => Ok(json_view(v)),
        ResultDelivery::Failure(e) => Err(e@),
    }
}

/// Owes a plugin one call of its result callback.
#[derive(Debug, Clone, Copy, PartialEq, Eq, Structural)]
pub struct NativeAsyncResultCallbackGuard {
    /// Whether the call is still owed.
    pub active: bool,
}

impl NativeAsyncResultCallbackGuard {
    /// A call that is owed.
    pub fn new() -> (r: Self)
        ensures
            r.active,
    {
        NativeAsyncResultCallbackGuard { active: true }
    }

    /// Delivers a result, given as its value or the text that its error is shown as.
    pub fn deliver(&mut self, result: Result<Json, String>) -> (r: Option<ResultDelivery>)
        ensures
            !final(self).active,
            r is Some == old(self).active,
            r matches Some(d) ==> delivery_view(d) == (match result {
                Ok(v) => Ok(json_view(v)),
                Err(e) => Err(e@),
            }),
    {
        if !self.active {
            return None;
        }
        self.active = false;
        match result {
            Ok(value) => Some(ResultDelivery::Value(value)),
            Err(shown) => Some(ResultDelivery::Failure(shown)),
        }
    }

    /// Never calls the callback.
    pub fn suppress(&mut self)
        ensures
            !final(self).active,
    {
        self.active = false;
    }

    /// Lets the guard go: a call that is still owed reports a cancellation.
    pub fn release(self) -> (r: Option<ResultDelivery>)
        ensures
            r is Some == self.active,
            r matches Some(d) ==> delivery_view(d) == Err::<JsonView, Seq<char>>(
                "native async next continuation was cancelled"@,
            ),
    {
        if self.active {
            Some(
                ResultDelivery::Failure(
                    "native async next continuation was cancelled".to_owned(),
                ),
            )
        } else {
            None
        }
    }
}

/// What starting a continuation with a result callback reports, up to the tracking of its
/// task.
pub open spec fn next_result_report(
    kind: NextKind,
    parsed: ParsedArgumentView,
    decoded: Result<(), Seq<char>>,
    context: Option<(FlowErrorKind, Seq<char>)>,
) -> CallReport {
    match next_argument_report(
        kind,
        parsed,
        decoded,
        "stream continuations require async_next_invoke_stream; unary result callbacks cannot buffer a stream"@,
    ) {
        Some(report) => report,
        None => match context {
            Some((error, shown)) => told(flow_error_status(error), shown),
            None => quiet(NemoRelayStatus::Success),
        },
    }
}

/// Starts a continuation with a result callback of its own, by what reading its argument
/// gave: gives the value to run it with. `decoded` says why an LLM request was refused, where
/// it was; `context` is the error of isolating the scope context.
pub fn invoke_next_result_parsed(
    last_error: &mut LastError,
    kind: NextKind,
    parsed: ParsedArgument,
    decoded: Result<(), String>,
    context: Option<(FlowErrorKind, String)>,
) -> (r: Result<Json, NemoRelayStatus>)
    ensures
        ({
            let report = next_result_report(
                kind,
                parsed@,
                match decoded {
                    Ok(()) => Ok(()),
                    Err(e) => Err(e@),
                },
                match context {
                    Some((error, shown)) => Some((error, shown@)),
                    None => None,
                },
            );
            &&& leaves(report, *old(last_error), *final(last_error))
            &&& match r {
                Ok(v) => report.status == NemoRelayStatus::Success && parsed
                    == ParsedArgument::Value(v),
                Err(status) => report.status == status && status != NemoRelayStatus::Success,
            }
        }),
{
    let value = match take_next_argument(
        last_error,
        kind,
        parsed,
        decoded,
        "stream continuations require async_next_invoke_stream; unary result callbacks cannot buffer a stream",
    ) {
        Err(status) => {
            return Err(status);
        },
        Ok(value) => value,
    };
    if let Some((error, shown)) = context {
        return Err(status_from_flow_error(last_error, error, shown));
    }
    Ok(value)
}

/// Starts a continuation with a result callback of its own: gives the value to run it
/// with. `decoded` says why an LLM request was refused, where it was; `context` is the
/// error of isolating the scope context.
pub fn invoke_next_result(
    last_error: &mut LastError,
    kind: NextKind,
    invocation: Option<&NativeString>,
    decoded: Result<(), String>,
    context: Option<(FlowErrorKind, String)>,
) -> (r: Result<Json, NemoRelayStatus>)
    ensures
        ({
            let report = next_result_report(
                kind,
                parsed_argument(invocation),
                match decoded {
                    Ok(()) => Ok(()),
                    Err(e) => Err(e@),
                },
                match context {
                    Some((error, shown)) => Some((error, shown@)),
                    None => None,
                },
            );
            &&& leaves(report, *old(last_error), *final(last_error))
            &&& match r {
                Ok(v) => report.status == NemoRelayStatus::Success && parsed_argument(
                    invocation,
                ) == ParsedArgumentView::Value(json_view(v)),
                Err(status) => report.status == status && status != NemoRelayStatus::Success,
            }
        }),
{
    invoke_next_result_parsed(last_error, kind, parse_argument(invocation), decoded, context)
}

/// What starting a task reports: what was asked of it is in order, and its owner still takes
/// tasks.
pub open spec fn starting(asked: CallReport, takes_tasks: bool) -> CallReport {
    if asked.status == NemoRelayStatus::Success && !takes_tasks {
        quiet(NemoRelayStatus::InvalidArg)
    } else {
        asked
    }
}

impl NativeAsyncCompletion {
    /// Starts a continuation with a result callback of its own as the given task, by what
    /// reading its argument gave: gives the value to run it with.
    pub fn start_next_result(
        &mut self,
        last_error: &mut LastError,
        kind: NextKind,
        parsed: ParsedArgument,
        decoded: Result<(), String>,
        context: Option<(FlowErrorKind, String)>,
        task: u64,
    ) -> (r: Result<Json, NemoRelayStatus>)
        requires
            old(self).wf(),
        ensures
            final(self).wf(),
            ({
                let report = starting(
                    next_result_report(
                        kind,
                        parsed@,
                        match decoded {
                            Ok(()) => Ok(()),
                            Err(e) => Err(e@),
                        },
                        match context {
                            Some((error, shown)) => Some((error, shown@)),
                            None => None,
                        },
                    ),
                    open_completion(old(self)@),
                );
                &&& leaves(report, *old(last_error), *final(last_error))
                &&& match r {
                    Ok(v) => report.status == NemoRelayStatus::Success && parsed
                        == ParsedArgument::Value(v) && final(self)@ == (CompletionView {
                        continuations: old(self)@.continuations.insert(task),
                        ..old(self)@
                    }),
                    Err(status) => report.status == status && status != NemoRelayStatus::Success
                        && *final(self) == *old(self),
                }
            }),
    {
        let value = match invoke_next_result_parsed(last_error, kind, parsed, decoded, context) {
            Err(status) => {
                return Err(status);
            },
            Ok(value) => value,
        };
        if self.register_operation(task) {
            Ok(value)
        } else {
            Err(NemoRelayStatus::InvalidArg)
        }
    }
}

impl NativeAsyncStream {
    /// Starts a continuation with a result callback of its own as the given task, by what
    /// reading its argument gave: gives the value to run it with.
    pub fn start_next_result(
        &mut self,
        last_error: &mut LastError,
        kind: NextKind,
        parsed: ParsedArgument,
        decoded: Result<(), String>,
        context: Option<(FlowErrorKind, String)>,
        task: u64,
    ) -> (r: Result<Json, NemoRelayStatus>)
        requires
            old(self).wf(),
        ensures
            final(self).wf(),
            ({
                let report = starting(
                    next_result_report(
                        kind,
                        parsed@,
                        match decoded {
                            Ok(()) => Ok(()),
                            Err(e) => Err(e@),
                        },
                        match context {
                            Some((error, shown)) => Some((error, shown@)),
                            None => None,
                        },
                    ),
                    !old(self)@.cancelled && !old(self)@.settled,
                );
                &&& leaves(report, *old(last_error), *final(last_error))
                &&& match r {
                    Ok(v) => report.status == NemoRelayStatus::Success && parsed
                        == ParsedArgument::Value(v) && final(self)@ == (StreamView {
                        downstream: old(self)@.downstream.insert(task),
                        ..old(self)@
                    }),
                    Err(status) => report.status == status && status != NemoRelayStatus::Success
                        && *final(self) == *old(self),
                }
            }),
    {
        let value = match invoke_next_result_parsed(last_error, kind, parsed, decoded, context) {
            Err(status) => {
                return Err(status);
            },
            Ok(value) => value,
        };
        if self.register_operation(task) {
            Ok(value)
        } else {
            Err(NemoRelayStatus::InvalidArg)
        }
    }
}

/// What a stream callback is called with.
pub enum StreamDelivery {
    /// A chunk, after which more may follow.
    Chunk(Json),
    /// The text of an error.
    Failure(String),
    /// The end of the stream.
    End,
}

/// The mathematical form of a delivery.
pub ghost enum StreamDeliveryView {
    /// A chunk, after which more may follow.
    Chunk(JsonView),
    /// The text of an error.
    Failure(Seq<char>),
    /// The end of the stream.
    End,
}

impl View for StreamDelivery {
    type V = StreamDeliveryView;

    open spec fn view(&self) -> StreamDeliveryView {
        match *self {
            StreamDelivery::Chunk(v) => StreamDeliveryView::Chunk(json_view(v)),
            StreamDelivery::Failure(e) => StreamDeliveryView::Failure(e@),
            StreamDelivery::End => StreamDeliveryView::End,
        }
    }
}

/// Owes a plugin the end of the chunks that its stream callback gets.
#[derive(Debug, Clone, Copy, PartialEq, Eq, Structural)]
pub struct NativeAsyncStreamCallbackGuard {
    /// Whether the end is still owed.
    pub active: bool,
}

/// What a stream callback is told when its guard goes while the end is owed.
pub open spec fn closing_delivery(s: StreamView) -> StreamDeliveryView {
    if s.cancelled {
        StreamDeliveryView::Failure("native async stream continuation was cancelled"@)
    } else if s.settled {
        StreamDeliveryView::Failure("native async stream continuation output settled"@)
    } else {
        StreamDeliveryView::End
    }
}

/// What a continuation's stream gives next.
pub enum StreamItem {
    /// A chunk.
    Chunk(Json),
    /// An error, by the text that it is shown as.
    Failure(String),
    /// Nothing more.
    End,
}

/// What forwarding an item calls the stream callback with, where it does.
pub open spec fn forwarded(active: bool, s: StreamView, item: StreamItem) -> Option<
    StreamDeliveryView,
> {
    match item {
        StreamItem::Chunk(v) => Some(StreamDeliveryView::Chunk(json_view(v))),
        StreamItem::Failure(e) => if active && !s.cancelled {
            Some(StreamDeliveryView::Failure(e@))
        } else {
            None
        },
        StreamItem::End => Some(StreamDeliveryView::End),
    }
}

impl NativeAsyncStreamCallbackGuard {
    /// An end that is owed.
    pub fn new() -> (r: Self)
        ensures
            r.active,
    {
        NativeAsyncStreamCallbackGuard { active: true }
    }

    /// Owes nothing any more.
    pub fn finish(&mut self)
        ensures
            !final(self).active,
    {
        self.active = false;
    }

    /// Ends the chunks with an error. A cancelled stream is left to the guard's release,
    /// which tells the plugin about the cancellation.
    pub fn fail(&mut self, stream: &NativeAsyncStream, error: &str) -> (r: Option<StreamDelivery>)
        ensures
            r is Some == (old(self).active && !stream@.cancelled),
            r matches Some(d) ==> d@ == StreamDeliveryView::Failure(error@),
            final(self).active == (old(self).active && stream@.cancelled),
    {
        if !self.active {
            return None;
        }
        if stream.cancelled {
            return None;
        }
        self.active = false;
        Some(StreamDelivery::Failure(error.to_owned()))
    }

    /// Ends the chunks because the continuation panicked.
    pub fn fail_panicked(&mut self, stream: &NativeAsyncStream, panic: &str) -> (r: Option<
        StreamDelivery,
    >)
        ensures
            r is Some == (old(self).active && !stream@.cancelled),
            r matches Some(d) ==> d@ == StreamDeliveryView::Failure(
                "native async stream continuation panicked: "@ + panic@,
            ),
            final(self).active == (old(self).active && stream@.cancelled),
    {
        let message = concat2("native async stream continuation panicked: ", panic);
        self.fail(stream, message.as_str())
    }

    /// Forwards what the continuation's stream gives next. After a chunk, the plugin says
    /// whether it wants more.
    pub fn forward(&mut self, stream: &NativeAsyncStream, item: StreamItem) -> (r: Option<
        StreamDelivery,
    >)
        ensures
            match forwarded(old(self).active, stream@, item) {
                Some(d) => r is Some && r->0@ == d,
                None => r is None,
            },
            final(self).active == (match item {
                StreamItem::Chunk(_) => old(self).active,
                StreamItem::Failure(_) => old(self).active && stream@.cancelled,
                StreamItem::End => false,
            }),
    {
        match item {
            StreamItem::Chunk(value) => Some(StreamDelivery::Chunk(value)),
            StreamItem::Failure(shown) => self.fail(stream, shown.as_str()),
            StreamItem::End => {
                self.finish();
                Some(StreamDelivery::End)
            },
        }
    }

    /// Takes the plugin's answer to a chunk: one that wants no more is owed nothing.
    pub fn after_chunk(&mut self, keep_going: bool) -> (r: bool)
        ensures
            r == keep_going,
            final(self).active == (old(self).active && keep_going),
    {
        if !keep_going {
            self.finish();
        }
        keep_going
    }

    /// Lets the guard go: an end that is still owed is reported.
    pub fn release(self, stream: &NativeAsyncStream) -> (r: Option<StreamDelivery>)
        ensures
            r is Some == self.active,
            r matches Some(d) ==> d@ == closing_delivery(stream@),
    {
        if !self.active {
            return None;
        }
        if stream.cancelled {
            Some(
                StreamDelivery::Failure(
                    "native async stream continuation was cancelled".to_owned(),
                ),
            )
        } else if stream.settled {
            Some(
                StreamDelivery::Failure(
                    "native async stream continuation output settled".to_owned(),
                ),
            )
        } else {
            Some(StreamDelivery::End)
        }
    }
}

/// A result is asked for exactly where the argument can be read and fits the kind and the runtime
/// allows it; it is started only where tasks are taken.
pub proof fn law_results_are_asked_for(
    kind: NextKind,
    parsed: ParsedArgumentView,
    decoded: Result<(), Seq<char>>,
    context: Option<(FlowErrorKind, Seq<char>)>,
    asked: CallReport,
    takes_tasks: bool,
)
    requires
        context matches Some((error, _)) ==> flow_error_status(error) != NemoRelayStatus::Success,
    ensures
        next_result_report(kind, parsed, decoded, context).status == NemoRelayStatus::Success
            <==> parsed is Value && (kind is Tool || kind is Llm && decoded is Ok) && context
            is None,
        parsed is Value && kind is LlmStream ==> next_result_report(kind, parsed, decoded, context)
            == told(
            NemoRelayStatus::InvalidArg,
            "stream continuations require async_next_invoke_stream; unary result callbacks cannot buffer a stream"@,
        ),
        starting(asked, true) == asked,
        starting(asked, takes_tasks).status == NemoRelayStatus::Success <==> asked.status
            == NemoRelayStatus::Success && takes_tasks,
        asked.status == NemoRelayStatus::Success && !takes_tasks ==> starting(asked, takes_tasks)
            == quiet(NemoRelayStatus::InvalidArg),
        asked.status != NemoRelayStatus::Success ==> starting(asked, takes_tasks) == asked,
{
}

/// What a stream's receiver gets: its chunks, its failure while it is wanted, and at the end why it
/// ended.
pub proof fn law_stream_items_are_forwarded(
    active: bool,
    s: StreamView,
    chunk: Json,
    failure: String,
)
    ensures
        forwarded(active, s, StreamItem::Chunk(chunk)) == Some(
            StreamDeliveryView::Chunk(json_view(chunk)),
        ),
        forwarded(active, s, StreamItem::End) == Some(StreamDeliveryView::End),
        active && !s.cancelled ==> forwarded(active, s, StreamItem::Failure(failure)) == Some(
            StreamDeliveryView::Failure(failure@),
        ),
        !active || s.cancelled ==> forwarded(active, s, StreamItem::Failure(failure)) is None,
        s.cancelled ==> closing_delivery(s) == StreamDeliveryView::Failure(
            "native async stream continuation was cancelled"@,
        ),
        !s.cancelled && s.settled ==> closing_delivery(s) == StreamDeliveryView::Failure(
            "native async stream continuation output settled"@,
        ),
        !s.cancelled && !s.settled ==> closing_delivery(s) == StreamDeliveryView::End,
{
}

} // verus!
