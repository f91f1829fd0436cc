//! Streams that an asynchronous native callback fills.
//!
//! The chunks go through a bounded channel of the host. A call that sends decides
//! first what to send, and says afterwards what the channel's answer means.

use vstd::prelude::*;

use crate::json::{json_view, json_wf, Json};
use crate::native::completion::{AsyncCallbackAnswer, NextKind};
use crate::native::status::{
    flow_error_status, flow_failure, internal, leaves, quiet, status_from_flow_error, told,
    CallReport, FlowError, FlowErrorKind, FlowErrorView, LastError, NemoRelayStatus,
};
use crate::native::strings::{
    json_argument, native_text, parse_argument, parsed_argument, read_native_string, take_json_arg,
    NativeString, ParsedArgument, ParsedArgumentView,
};
use crate::native::tasks::TaskSet;
use crate::text::concat2;

verus! {

/// How many chunks the channel of a stream holds.
pub const NATIVE_ASYNC_STREAM_CHANNEL_CAPACITY: usize = 64;

/// What a channel says to an item.
#[derive(Debug, Clone, Copy, PartialEq, Eq, Structural)]
pub enum SendOutcome {
    /// It took the item.
    Sent,
    /// It is full.
    Full,
    /// Its receiver is gone.
    Closed,
}

/// State of a stream.
pub struct NativeAsyncStream {
    /// Whether the sending half of the channel is still there.
    pub sending: bool,
    /// Whether the receiver gave the stream up.
    pub cancelled: bool,
    /// Whether the stream was finished or rejected.
    pub settled: bool,
    /// Whether the last item found the channel full.
    pub backpressured: bool,
    /// Tasks of continuations that the stream drives.
    pub downstream: TaskSet,
}

/// The mathematical form of a stream.
pub ghost struct StreamView {
    /// Whether the sending half of the channel is still there.
    pub sending: bool,
    /// Whether the receiver gave the stream up.
    pub cancelled: bool,
    /// Whether the stream was finished or rejected.
    pub settled: bool,
    /// Whether the last item found the channel full.
    pub backpressured: bool,
    /// Tasks of continuations that the stream drives.
    pub downstream: Set<u64>,
}

impl View for NativeAsyncStream {
    type V = StreamView;

    open spec fn view(&self) -> StreamView {
        StreamView {
            sending: self.sending,
            cancelled: self.cancelled,
            settled: self.settled,
            backpressured: self.backpressured,
            downstream: self.downstream@,
        }
    }
}

/// Whether a stream still takes items.
pub open spec fn open_stream(s: StreamView) -> bool {
    s.sending && !s.cancelled && !s.settled
}

/// A stream that was finished or rejected; nothing of it runs any more.
pub open spec fn settled_stream(s: StreamView) -> StreamView {
    StreamView { sending: false, settled: true, downstream: Set::empty(), ..s }
}

/// A stream whose receiver is gone; nothing of it runs any more.
pub open spec fn cancelled_stream(s: StreamView) -> StreamView {
    StreamView { sending: false, cancelled: true, downstream: Set::empty(), ..s }
}

/// A stream with the memory of a full channel set or cleared.
pub open spec fn pressured(s: StreamView, backpressured: bool) -> StreamView {
    StreamView { backpressured, ..s }
}

/// What pushing a chunk reports before it is sent, by what reading the chunk gave.
pub open spec fn push_report(s: StreamView, parsed: ParsedArgumentView) -> CallReport {
    if s.cancelled {
        quiet(NemoRelayStatus::InvalidArg)
    } else {
        match json_argument(parsed, "native async stream chunk"@, " was invalid JSON: "@) {
            Err((status, message)) => told(status, message),
            Ok(_) => if open_stream(s) {
                quiet(NemoRelayStatus::Success)
            } else {
                quiet(NemoRelayStatus::InvalidArg)
            },
        }
    }
}

/// What an item that a channel answered to is reported as; `retry` tells what to do
/// again where the channel is full.
pub open spec fn sent_report(outcome: SendOutcome, retry: Seq<char>) -> CallReport {
    match outcome {
        SendOutcome::Sent => quiet(NemoRelayStatus::Success),
        SendOutcome::Full => told(
            NemoRelayStatus::Backpressured,
            "native async stream is backpressured; retry "@ + retry
                + " after the consumer advances"@,
        ),
        SendOutcome::Closed => quiet(NemoRelayStatus::InvalidArg),
    }
}

/// The error text that a stream is rejected with.
pub open spec fn stream_rejection_text(message: Option<&NativeString>) -> Seq<char> {
    match native_text(message) {
        Ok(text) => text,
        Err(_) => "native async stream rejected"@,
    }
}

impl NativeAsyncStream {
    /// Whether the running tasks are tracked once each.
    pub open spec fn wf(self) -> bool {
        self.downstream.wf()
    }

    /// An open stream.
    pub fn new() -> (r: Self)
        ensures
            r.wf(),
            r@ == (StreamView {
                sending: true,
                cancelled: false,
                settled: false,
                backpressured: false,
                downstream: Set::empty(),
            }),
    {
        NativeAsyncStream {
            sending: true,
            cancelled: false,
            settled: false,
            backpressured: false,
            downstream: TaskSet::new(),
        }
    }

    /// Begins to push a chunk, by what reading it gave: gives the value to send, where the
    /// stream takes it.
    pub fn begin_push_parsed(&mut self, last_error: &mut LastError, parsed: ParsedArgument) -> (r:
        Result<Json, NemoRelayStatus>)
        requires
            old(self).wf(),
        ensures
            final(self).wf(),
            ({
                let report = push_report(old(self)@, parsed@);
                &&& final(last_error)@ == report.message
                &&& final(self)@ == pressured(
                    old(self)@,
                    old(self)@.backpressured && old(self)@.cancelled,
                )
                &&& match r {
                    Ok(v) => report.status == NemoRelayStatus::Success && parsed
                        == ParsedArgument::Value(v),
                    Err(status) => report.status == status && status != NemoRelayStatus::Success,
                }
            }),
    {
        last_error.clear();
        if self.cancelled {
            return Err(NemoRelayStatus::InvalidArg);
        }
        self.backpressured = false;
        let value = match take_json_arg(
            last_error,
            parsed,
            "native async stream chunk",
            " was invalid JSON: ",
        ) {
            Err(status) => {
                return Err(status);
            },
            Ok(value) => value,
        };
        if self.settled || !self.sending {
            return Err(NemoRelayStatus::InvalidArg);
        }
        Ok(value)
    }

    /// Begins to push a chunk: gives the value to send, where the stream takes it.
    pub fn begin_push(&mut self, last_error: &mut LastError, chunk: Option<&NativeString>) -> (r:
        Result<Json, NemoRelayStatus>)
        requires
            old(self).wf(),
        ensures
            final(self).wf(),
            ({
                let report = push_report(old(self)@, parsed_argument(chunk));
                &&& final(last_error)@ == report.message
                &&& final(self)@ == pressured(
                    old(self)@,
                    old(self)@.backpressured && old(self)@.cancelled,
                )
                &&& match r {
                    Ok(v) => report.status == NemoRelayStatus::Success && json_wf(v)
                        && parsed_argument(chunk) == ParsedArgumentView::Value(json_view(v)),
                    Err(status) => report.status == status && status != NemoRelayStatus::Success,
                }
            }),
    {
        self.begin_push_parsed(last_error, parse_argument(chunk))
    }

    /// Ends pushing a chunk after the channel answered.
    pub fn end_push(&mut self, last_error: &mut LastError, outcome: SendOutcome) -> (r:
        NemoRelayStatus)
        requires
            old(self).wf(),
        ensures
            final(self).wf(),
            r == sent_report(outcome, "the chunk"@).status,
            leaves(sent_report(outcome, "the chunk"@), *old(last_error), *final(last_error)),
            final(self)@ == pressured(
                old(self)@,
                old(self)@.backpressured || outcome == SendOutcome::Full,
            ),
    {
        match outcome {
            SendOutcome::Sent => NemoRelayStatus::Success,
            SendOutcome::Full => {
                self.backpressured = true;
                last_error.set(
                    crate::text::concat3(
                        "native async stream is backpressured; retry ",
                        "the chunk",
                        " after the consumer advances",
                    ),
                );
                NemoRelayStatus::Backpressured
            },
            SendOutcome::Closed => NemoRelayStatus::InvalidArg,
        }
    }

    /// Finishes the stream and gives the tasks to abort.
    pub fn finish(&mut self) -> (r: (NemoRelayStatus, Vec<u64>))
        requires
            old(self).wf(),
        ensures
            final(self).wf(),
            open_stream(old(self)@) ==> r.0 == NemoRelayStatus::Success && final(self)@
                == settled_stream(old(self)@) && r.1@.to_set() == old(self)@.downstream,
            !open_stream(old(self)@) ==> r.0 == NemoRelayStatus::InvalidArg && *final(self)
                == *old(self) && r.1@.len() == 0,
    {
        if self.cancelled || self.settled || !self.sending {
            return (NemoRelayStatus::InvalidArg, Vec::new());
        }
        self.sending = false;
        self.settled = true;
        (NemoRelayStatus::Success, self.downstream.drain())
    }

    /// Begins to reject the stream: gives the error to send, where the stream takes it.
    pub fn begin_reject(&mut self, last_error: &mut LastError, message: Option<&NativeString>) -> (r:
        Result<FlowError, NemoRelayStatus>)
        requires
            old(self).wf(),
        ensures
            final(self).wf(),
            final(last_error)@ is None,
            final(self)@ == pressured(old(self)@, false),
            match r {
                Ok(e) => open_stream(old(self)@) && Some(e@) == internal(
                    stream_rejection_text(message),
                ),
                Err(status) => !open_stream(old(self)@) && status == NemoRelayStatus::InvalidArg,
            },
    {
        last_error.clear();
        self.backpressured = false;
        let text = match read_native_string(message) {
            Ok(text) => text,
            Err(_) => "native async stream rejected".to_owned(),
        };
        if self.cancelled || self.settled || !self.sending {
            return Err(NemoRelayStatus::InvalidArg);
        }
        Ok(FlowError::internal(text))
    }

    /// Ends rejecting the stream after the channel answered, and gives the tasks to
    /// abort.
    pub fn end_reject(&mut self, last_error: &mut LastError, outcome: SendOutcome) -> (r: (
        NemoRelayStatus,
        Vec<u64>,
    ))
        requires
            old(self).wf(),
        ensures
            final(self).wf(),
            r.0 == sent_report(outcome, "rejection"@).status,
            leaves(sent_report(outcome, "rejection"@), *old(last_error), *final(last_error)),
            match outcome {
                SendOutcome::Sent => final(self)@ == settled_stream(old(self)@) && r.1@.to_set()
                    == old(self)@.downstream,
                SendOutcome::Full => final(self)@ == pressured(old(self)@, true) && r.1@.len()
                    == 0,
                SendOutcome::Closed => *final(self) == *old(self) && r.1@.len() == 0,
            },
    {
        match outcome {
            SendOutcome::Sent => {
                self.sending = false;
                self.settled = true;
                (NemoRelayStatus::Success, self.downstream.drain())
            },
            SendOutcome::Full => {
                self.backpressured = true;
                last_error.set(
                    crate::text::concat3(
                        "native async stream is backpressured; retry ",
                        "rejection",
                        " after the consumer advances",
                    ),
                );
                (NemoRelayStatus::Backpressured, Vec::new())
            },
            SendOutcome::Closed => (NemoRelayStatus::InvalidArg, Vec::new()),
        }
    }

    /// Whether the receiver gave the stream up.
    pub fn is_cancelled(&self) -> (r: bool)
        ensures
            r == self@.cancelled,
    {
        self.cancelled
    }

    /// Whether the last item found the channel full.
    pub fn is_backpressured(&self) -> (r: bool)
        ensures
            r == self@.backpressured,
    {
        self.backpressured
    }

    /// Cancels the stream because its receiver is gone, and gives the tasks to abort.
    pub fn drop_receiver(&mut self) -> (r: Vec<u64>)
        requires
            old(self).wf(),
        ensures
            final(self).wf(),
            final(self)@ == cancelled_stream(old(self)@),
            r@.to_set() == old(self)@.downstream,
    {
        self.cancelled = true;
        self.sending = false;
        self.downstream.drain()
    }

    /// Tracks a continuation task with a callback of its own; says whether the stream is
    /// still open for it.
    pub fn register_operation(&mut self, id: u64) -> (r: bool)
        requires
            old(self).wf(),
        ensures
            final(self).wf(),
            r == (!old(self)@.cancelled && !old(self)@.settled),
            r ==> final(self)@ == (StreamView {
                downstream: old(self)@.downstream.insert(id),
                ..old(self)@
            }),
            !r ==> *final(self) == *old(self),
    {
        if self.cancelled || self.settled {
            return false;
        }
        self.downstream.insert(id);
        true
    }

    /// Forgets a continuation task that ended.
    pub fn remove_operation(&mut self, id: u64)
        requires
            old(self).wf(),
        ensures
            final(self).wf(),
            final(self)@ == (StreamView {
                downstream: old(self)@.downstream.remove(id),
                ..old(self)@
            }),
    {
        self.downstream.remove(id);
    }

    /// Invokes a stream continuation whose chunks go to a callback, as the given task, by what
    /// reading its argument gave; the value is the request to run it with. `decoded` says why
    /// the request was refused, where it was; `context` is the error of isolating the scope
    /// context.
    pub fn invoke_next_stream_parsed(
        &mut self,
        last_error: &mut LastError,
        kind: NextKind,
        parsed: ParsedArgument,
        decoded: Result<(), String>,
        context: Option<(FlowErrorKind, String)>,
        task: u64,
    ) -> (r: Result<Json, NemoRelayStatus>)
        requires
            old(self).wf(),
        ensures
            final(self).wf(),
            ({
                let report = next_stream_report(
                    old(self)@,
                    kind,
                    parsed@,
                    match decoded {
                        Ok(()) => Ok(()),
                        Err(e) => Err(e@),
                    },
                    match context {
                        Some((error, shown)) => Some((error, shown@)),
                        None => None,
                    },
                );
                &&& leaves(report, *old(last_error), *final(last_error))
                &&& match r {
                    Ok(v) => report.status == NemoRelayStatus::Success && parsed
                        == ParsedArgument::Value(v)
                        && final(self)@ == (StreamView {
                        downstream: old(self)@.downstream.insert(task),
                        ..old(self)@
                    }),
                    Err(status) => report.status == status && status != NemoRelayStatus::Success
                        && *final(self) == *old(self),
                }
            }),
    {
        match kind {
            NextKind::LlmStream => {},
            _ => {
                return Err(NemoRelayStatus::InvalidArg);
            },
        }
        let value = match take_json_arg(
            last_error,
            parsed,
            "native async stream next invocation",
            " was invalid JSON: ",
        ) {
            Err(status) => {
                return Err(status);
            },
            Ok(value) => value,
        };
        if let Err(e) = decoded {
            last_error.set(e);
            return Err(NemoRelayStatus::InvalidJson);
        }
        if let Some((error, shown)) = context {
            return Err(status_from_flow_error(last_error, error, shown));
        }
        if self.cancelled || self.settled || !self.sending {
            return Err(NemoRelayStatus::InvalidArg);
        }
        self.downstream.insert(task);
        Ok(value)
    }

    /// Invokes a stream continuation whose chunks go to a callback, as the given task; the
    /// value is the request to run it with.
    pub fn invoke_next_stream(
        &mut self,
        last_error: &mut LastError,
        kind: NextKind,
        invocation: Option<&NativeString>,
        decoded: Result<(), String>,
        context: Option<(FlowErrorKind, String)>,
        task: u64,
    ) -> (r: Result<Json, NemoRelayStatus>)
        requires
            old(self).wf(),
        ensures
            final(self).wf(),
            ({
                let report = next_stream_report(
                    old(self)@,
                    kind,
                    parsed_argument(invocation),
                    match decoded {
                        Ok(()) => Ok(()),
                        Err(e) => Err(e@),
                    },
                    match context {
                        Some((error, shown)) => Some((error, shown@)),
                        None => None,
                    },
                );
                &&& leaves(report, *old(last_error), *final(last_error))
                &&& match r {
                    Ok(v) => report.status == NemoRelayStatus::Success && parsed_argument(
                        invocation,
                    ) == ParsedArgumentView::Value(json_view(v))
                        && final(self)@ == (StreamView {
                        downstream: old(self)@.downstream.insert(task),
                        ..old(self)@
                    }),
                    Err(status) => report.status == status && status != NemoRelayStatus::Success
                        && *final(self) == *old(self),
                }
            }),
    {
        self.invoke_next_stream_parsed(
            last_error,
            kind,
            parse_argument(invocation),
            decoded,
            context,
            task,
        )
    }
}

/// What invoking a stream continuation reports, by what reading its argument gave.
pub open spec fn next_stream_report(
    s: StreamView,
    kind: NextKind,
    parsed: ParsedArgumentView,
    decoded: Result<(), Seq<char>>,
    context: Option<(FlowErrorKind, Seq<char>)>,
) -> CallReport {
    if kind != NextKind::LlmStream {
        quiet(NemoRelayStatus::InvalidArg)
    } else {
        match json_argument(
            parsed,
            "native async stream next invocation"@,
            " was invalid JSON: "@,
        ) {
            Err((status, message)) => told(status, message),
            Ok(_) => match (decoded, context) {
                (Err(e), _) => told(NemoRelayStatus::InvalidJson, e),
                (Ok(()), Some((error, shown))) => told(flow_error_status(error), shown),
                (Ok(()), None) => if open_stream(s) {
                    quiet(NemoRelayStatus::Success)
                } else {
                    quiet(NemoRelayStatus::InvalidArg)
                },
            },
        }
    }
}

/// The error of a stream callback's answer.
pub open spec fn stream_answer_problem(answer: AsyncCallbackAnswer, s: StreamView) -> Option<
    FlowErrorView,
> {
    match answer {
        AsyncCallbackAnswer::Panicked | AsyncCallbackAnswer::Invalid => internal(
            "native async stream callback panicked or returned an invalid state"@,
        ),
        AsyncCallbackAnswer::Complete => if s.sending {
            internal("native async stream callback returned Complete without finishing"@)
        } else {
            None
        },
        AsyncCallbackAnswer::Pending => None,
    }
}

/// Decides whether to hand a stream on after its callback's answer.
pub fn accept_stream_answer(answer: AsyncCallbackAnswer, stream: &NativeAsyncStream) -> (r: Result<
    (),
    FlowError,
>)
    ensures
        flow_failure(r) == stream_answer_problem(answer, stream@),
{
    match answer {
        AsyncCallbackAnswer::Panicked | AsyncCallbackAnswer::Invalid => Err(
            FlowError::internal(
                "native async stream callback panicked or returned an invalid state".to_owned(),
            ),
        ),
        AsyncCallbackAnswer::Complete => if stream.sending {
            Err(
                FlowError::internal(
                    "native async stream callback returned Complete without finishing".to_owned(),
                ),
            )
        } else {
            Ok(())
        },
        AsyncCallbackAnswer::Pending => Ok(()),
    }
}

/// The error of a stream intercept that is called outside a runtime.
pub fn missing_stream_runtime_error(detail: &str) -> (r: FlowError)
    ensures
        Some(r@) == internal("native async stream intercept requires a Tokio runtime: "@ + detail@),
{
    FlowError::internal(
        concat2("native async stream intercept requires a Tokio runtime: ", detail),
    )
}

/// A stream that is settled or cancelled takes no further chunk, is not settled again and
/// invokes no continuation.
pub proof fn law_closed_stream_takes_nothing(
    s: StreamView,
    chunk: ParsedArgumentView,
    kind: NextKind,
    invocation: ParsedArgumentView,
    decoded: Result<(), Seq<char>>,
    context: Option<(FlowErrorKind, Seq<char>)>,
)
    requires
        s.cancelled || s.settled,
    ensures
        push_report(s, chunk).status != NemoRelayStatus::Success,
        next_stream_report(s, kind, invocation, decoded, context).status
            != NemoRelayStatus::Success,
        !open_stream(s),
{
}

/// Settling and cancelling both close a stream for good, with nothing left running.
pub proof fn law_closing_a_stream_is_final(s: StreamView)
    ensures
        !open_stream(settled_stream(s)),
        !open_stream(cancelled_stream(s)),
        settled_stream(s).downstream == Set::<u64>::empty(),
        cancelled_stream(s).downstream == Set::<u64>::empty(),
{
}

/// A stream is open while it sends and was neither settled nor cancelled. Settling and cancelling
/// end the sending and stop what runs downstream.
pub proof fn law_streams_close(s: StreamView, backpressured: bool)
    ensures
        open_stream(s) <==> s.sending && !s.cancelled && !s.settled,
        settled_stream(s).settled && !settled_stream(s).sending,
        settled_stream(s).cancelled == s.cancelled,
        settled_stream(s).backpressured == s.backpressured,
        settled_stream(s).downstream =~= Set::<u64>::empty(),
        cancelled_stream(s).cancelled && !cancelled_stream(s).sending,
        cancelled_stream(s).settled == s.settled,
        cancelled_stream(s).backpressured == s.backpressured,
        cancelled_stream(s).downstream =~= Set::<u64>::empty(),
        pressured(s, backpressured).backpressured == backpressured,
        pressured(s, backpressured).sending == s.sending,
        pressured(s, backpressured).cancelled == s.cancelled,
        pressured(s, backpressured).settled == s.settled,
        pressured(s, backpressured).downstream == s.downstream,
        NATIVE_ASYNC_STREAM_CHANNEL_CAPACITY == 64,
{
}

/// A chunk is sent exactly where it is a document and the stream is open; a full channel asks the
/// plugin to try again, and a closed one refuses.
pub proof fn law_chunks_are_sent_while_open(
    s: StreamView,
    parsed: ParsedArgumentView,
    retry: Seq<char>,
    message: Option<&NativeString>,
    text: Seq<char>,
)
    ensures
        push_report(s, parsed).status == NemoRelayStatus::Success <==> parsed is Value && s.sending
            && !s.cancelled && !s.settled,
        s.cancelled ==> push_report(s, parsed) == quiet(NemoRelayStatus::InvalidArg),
        !s.cancelled && parsed is Malformed ==> push_report(s, parsed) == told(
            NemoRelayStatus::InvalidJson,
            "native async stream chunk"@ + " was invalid JSON: "@ + parsed->Malformed_0,
        ),
        sent_report(SendOutcome::Sent, retry) == quiet(NemoRelayStatus::Success),
        sent_report(SendOutcome::Closed, retry) == quiet(NemoRelayStatus::InvalidArg),
        sent_report(SendOutcome::Full, retry) == told(
            NemoRelayStatus::Backpressured,
            "native async stream is backpressured; retry "@ + retry
                + " after the consumer advances"@,
        ),
        native_text(message) == Ok::<Seq<char>, crate::error::ErrorView>(text)
            ==> stream_rejection_text(message) == text,
        native_text(message) is Err ==> stream_rejection_text(message)
            == "native async stream rejected"@,
{
}

/// A stream continuation is started exactly on a stream of the right kind that is open, with a
/// request that can be read and decoded, where the runtime allows it.
pub proof fn law_stream_continuations_start_while_open(
    s: StreamView,
    kind: NextKind,
    parsed: ParsedArgumentView,
    decoded: Result<(), Seq<char>>,
    context: Option<(FlowErrorKind, Seq<char>)>,
)
    requires
        context matches Some((error, _)) ==> flow_error_status(error) != NemoRelayStatus::Success,
    ensures
        next_stream_report(s, kind, parsed, decoded, context).status == NemoRelayStatus::Success
            <==> kind is LlmStream && parsed is Value && decoded is Ok && context is None
            && s.sending && !s.cancelled && !s.settled,
        !(kind is LlmStream) ==> next_stream_report(s, kind, parsed, decoded, context) == quiet(
            NemoRelayStatus::InvalidArg,
        ),
        kind is LlmStream && parsed is Value && decoded is Err ==> next_stream_report(
            s,
            kind,
            parsed,
            decoded,
            context,
        ) == told(NemoRelayStatus::InvalidJson, decoded->Err_0),
{
}

/// A callback's answer is a problem where it panicked, was invalid, or says that it is complete
/// although the stream still sends.
pub proof fn law_stream_answers_must_finish(answer: AsyncCallbackAnswer, s: StreamView)
    ensures
        stream_answer_problem(answer, s) is None <==> answer is Pending || answer is Complete
            && !s.sending,
        stream_answer_problem(answer, s) matches Some(e) ==> e.0 == FlowErrorKind::Internal,
        answer is Complete && s.sending ==> stream_answer_problem(answer, s) == Some(
            (
                FlowErrorKind::Internal,
                "native async stream callback returned Complete without finishing"@,
            ),
        ),
{
}

/// What is told where a stream continuation cannot be read or a callback misbehaves.
pub proof fn law_refused_stream_continuations_are_told(
    s: StreamView,
    text: Seq<char>,
    decoded: Result<(), Seq<char>>,
    context: Option<(FlowErrorKind, Seq<char>)>,
)
    ensures
        next_stream_report(
            s,
            NextKind::LlmStream,
            ParsedArgumentView::Malformed(text),
            decoded,
            context,
        ) == told(
            NemoRelayStatus::InvalidJson,
            "native async stream next invocation"@ + " was invalid JSON: "@ + text,
        ),
        stream_answer_problem(AsyncCallbackAnswer::Panicked, s) == Some(
            (
                FlowErrorKind::Internal,
                "native async stream callback panicked or returned an invalid state"@,
            ),
        ),
        stream_answer_problem(AsyncCallbackAnswer::Invalid, s) == Some(
            (
                FlowErrorKind::Internal,
                "native async stream callback panicked or returned an invalid state"@,
            ),
        ),
{
}

} // verus!
