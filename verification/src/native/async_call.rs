//! Calls of asynchronous native callbacks.
//!
//! The host makes the call, takes what the callback answers at once, and waits for the
//! completion or hands the stream on. A call that fails, or that the host gives up, leaves
//! nothing running.

use vstd::prelude::*;

use crate::json::{Json, JsonView};
use crate::native::completion::{
    accept_answer, answer_problem, cancelled_completion, missing_runtime_error, receive,
    received, result_view, running_tasks, AsyncCallbackAnswer, CodecCapability, CompletionView,
    NativeAsyncCompletion,
};
use crate::native::status::{flow_failure, internal, FlowError, FlowErrorView};
use crate::native::stream::{
    accept_stream_answer, cancelled_stream, missing_stream_runtime_error, stream_answer_problem,
    NativeAsyncStream, StreamView,
};

verus! {

/// How far a call of an asynchronous callback is.
#[derive(Debug, Clone, Copy, PartialEq, Eq, Structural)]
pub enum AsyncCallStage {
    /// The callback is being called.
    Calling,
    /// The completion is waited for.
    Waiting,
    /// Nothing more happens.
    Over,
}

/// Something that happens to a call.
#[derive(Debug, Clone, Copy, PartialEq, Eq, Structural)]
pub enum AsyncCallEvent {
    /// What the callback answered at once.
    Answered(AsyncCallbackAnswer),
    /// The completion was settled, or every handle to it is gone.
    Ended,
    /// The host gives the call up.
    GivenUp,
}

/// What is to be done about a call.
pub enum AsyncCallAction {
    /// Wait for the completion.
    Wait,
    /// Abort the given tasks and give the result.
    Finish(Vec<u64>, Result<Json, FlowError>),
    /// Abort the given tasks; nobody wants a result.
    Abandon(Vec<u64>),
    /// Nothing: the event was not expected.
    Ignore,
}

/// The mathematical form of what is to be done about a call.
pub ghost enum AsyncCallActionView {
    /// Wait for the completion.
    Wait,
    /// Abort the given tasks and give the result.
    Finish(Set<u64>, Result<JsonView, FlowErrorView>),
    /// Abort the given tasks; nobody wants a result.
    Abandon(Set<u64>),
    /// Nothing: the event was not expected.
    Ignore,
}

impl View for AsyncCallAction {
    type V = AsyncCallActionView;

    open spec fn view(&self) -> AsyncCallActionView {
        match *self {
            AsyncCallAction::Wait => AsyncCallActionView::Wait,
            AsyncCallAction::Finish(tasks, result) => AsyncCallActionView::Finish(
                tasks@.to_set(),
                result_view(result),
            ),
            AsyncCallAction::Abandon(tasks) => AsyncCallActionView::Abandon(tasks@.to_set()),
            AsyncCallAction::Ignore => AsyncCallActionView::Ignore,
        }
    }
}

/// A call of an asynchronous callback.
pub struct AsyncCall {
    /// The completion that the callback settles.
    pub completion: NativeAsyncCompletion,
    /// How far the call is.
    pub stage: AsyncCallStage,
}

/// The completion after an event, how far the call is, and what is to be done.
pub open spec fn after_async_event(
    c: CompletionView,
    stage: AsyncCallStage,
    event: AsyncCallEvent,
) -> (CompletionView, AsyncCallStage, AsyncCallActionView) {
    match (stage, event) {
        (AsyncCallStage::Calling, AsyncCallEvent::Answered(answer)) => match answer_problem(
            answer,
            c,
        ) {
            Some(e) => (
                cancelled_completion(c),
                AsyncCallStage::Over,
                AsyncCallActionView::Finish(running_tasks(c), Err(e)),
            ),
            None => (c, AsyncCallStage::Waiting, AsyncCallActionView::Wait),
        },
        (AsyncCallStage::Waiting, AsyncCallEvent::Ended) => (
            CompletionView {
                outcome: None,
                ..if c.outcome is Some {
                    c
                } else {
                    cancelled_completion(c)
                }
            },
            AsyncCallStage::Over,
            AsyncCallActionView::Finish(
                if c.outcome is Some {
                    Set::empty()
                } else {
                    running_tasks(c)
                },
                received(c.outcome),
            ),
        ),
        (AsyncCallStage::Over, _) => (c, stage, AsyncCallActionView::Ignore),
        (_, AsyncCallEvent::GivenUp) => (
            cancelled_completion(c),
            AsyncCallStage::Over,
            AsyncCallActionView::Abandon(running_tasks(c)),
        ),
        _ => (c, stage, AsyncCallActionView::Ignore),
    }
}

impl AsyncCall {
    /// Begins a call. A callback that gets a continuation needs a runtime to run it in;
    /// `runtime` says why there is none.
    pub fn begin(
        has_next: bool,
        runtime: Result<(), String>,
        codec: Option<CodecCapability>,
    ) -> (r: Result<Self, FlowError>)
        ensures
            flow_failure(r) == (match runtime {
                Err(e) if has_next => internal(
                    "native async intercept requires a Tokio runtime: "@ + e@,
                ),
                _ => None,
            }),
            r matches Ok(call) ==> call.completion.wf() && call.stage == AsyncCallStage::Calling
                && call.completion@ == (CompletionView {
                outcome: None,
                cancelled: false,
                next_invoked: false,
                next_task: None,
                continuations: Set::empty(),
                codec,
            }),
    {
        if has_next {
            if let Err(e) = runtime {
                return Err(missing_runtime_error(e.as_str()));
            }
        }
        Ok(
            AsyncCall {
                completion: NativeAsyncCompletion::new(codec),
                stage: AsyncCallStage::Calling,
            },
        )
    }

    /// Takes an event and gives what is to be done. The result of a completion is given out
    /// once.
    pub fn take(self, event: AsyncCallEvent) -> (r: (Self, AsyncCallAction))
        requires
            self.completion.wf(),
        ensures
            r.0.completion.wf(),
            (r.0.completion@, r.0.stage, r.1@) == after_async_event(
                self.completion@,
                self.stage,
                event,
            ),
    {
        let mut call = self;
        match (call.stage, event) {
            (AsyncCallStage::Calling, AsyncCallEvent::Answered(answer)) => match accept_answer(
                answer,
                &call.completion,
            ) {
                Err(e) => {
                    let tasks = call.completion.stop_waiting(false);
                    call.stage = AsyncCallStage::Over;
                    (call, AsyncCallAction::Finish(tasks, Err(e)))
                },
                Ok(()) => {
                    call.stage = AsyncCallStage::Waiting;
                    (call, AsyncCallAction::Wait)
                },
            },
            (AsyncCallStage::Waiting, AsyncCallEvent::Ended) => {
                let settled = call.completion.outcome.is_some();
                let tasks = call.completion.stop_waiting(settled);
                assert(settled ==> tasks@.to_set() =~= Set::empty());
                let result = receive(call.completion.outcome.take());
                call.stage = AsyncCallStage::Over;
                (call, AsyncCallAction::Finish(tasks, result))
            },
            (AsyncCallStage::Over, _) => (call, AsyncCallAction::Ignore),
            (_, AsyncCallEvent::GivenUp) => {
                let tasks = call.completion.stop_waiting(false);
                call.stage = AsyncCallStage::Over;
                (call, AsyncCallAction::Abandon(tasks))
            },
            _ => (call, AsyncCallAction::Ignore),
        }
    }
}

/// A call that ends in any way but by a settled completion has its completion cancelled and
/// everything aborted that ran for it, so that nothing of it goes on.
pub proof fn law_unsettled_call_leaves_nothing_running(
    c: CompletionView,
    stage: AsyncCallStage,
    event: AsyncCallEvent,
)
    requires
        stage != AsyncCallStage::Over,
        after_async_event(c, stage, event).1 == AsyncCallStage::Over,
        !(stage == AsyncCallStage::Waiting && event == AsyncCallEvent::Ended && c.outcome is Some),
    ensures
        ({
            let (after, _, action) = after_async_event(c, stage, event);
            &&& after.cancelled
            &&& running_tasks(after) == Set::<u64>::empty()
            &&& match action {
                AsyncCallActionView::Finish(tasks, result) => tasks == running_tasks(c) && result
                    is Err,
                AsyncCallActionView::Abandon(tasks) => tasks == running_tasks(c),
                _ => false,
            }
        }),
{
}

/// A call that is over gives no second result.
pub proof fn law_call_ends_once(c: CompletionView, event: AsyncCallEvent)
    ensures
        after_async_event(c, AsyncCallStage::Over, event) == (
            c,
            AsyncCallStage::Over,
            AsyncCallActionView::Ignore,
        ),
{
}

/// Begins a call of a stream callback, which needs a runtime; `runtime` says why there is
/// none.
pub fn begin_stream_call(runtime: Result<(), String>) -> (r: Result<NativeAsyncStream, FlowError>)
    ensures
        flow_failure(r) == (match runtime {
            Err(e) => internal(
                "native async stream intercept requires a Tokio runtime: "@ + e@,
            ),
            Ok(()) => None,
        }),
        r matches Ok(stream) ==> stream.wf() && stream@ == (StreamView {
            sending: true,
            cancelled: false,
            settled: false,
            backpressured: false,
            downstream: Set::empty(),
        }),
{
    match runtime {
        Err(e) => Err(missing_stream_runtime_error(e.as_str())),
        Ok(()) => Ok(NativeAsyncStream::new()),
    }
}

/// Takes what a stream callback answered at once: the stream is handed on, or cancelled with
/// its error and the tasks to abort.
pub fn end_stream_call(stream: &mut NativeAsyncStream, answer: AsyncCallbackAnswer) -> (r: Result<
    (),
    (FlowError, Vec<u64>),
>)
    requires
        old(stream).wf(),
    ensures
        final(stream).wf(),
        match r {
            Ok(()) => stream_answer_problem(answer, old(stream)@) is None && *final(stream)
                == *old(stream),
            Err((e, tasks)) => stream_answer_problem(answer, old(stream)@) == Some(e@)
                && final(stream)@ == cancelled_stream(old(stream)@) && tasks@.to_set()
                == old(stream)@.downstream,
        },
{
    match accept_stream_answer(answer, stream) {
        Ok(()) => Ok(()),
        Err(e) => {
            let tasks = stream.drop_receiver();
            Err((e, tasks))
        },
    }
}

/// A call waits after an answer without a problem and gives the settled result when it has ended.
/// An answer with a problem, and giving up, cancel it.
pub proof fn law_calls_wait_and_give_their_result(
    c: CompletionView,
    stage: AsyncCallStage,
    answer: AsyncCallbackAnswer,
    event: AsyncCallEvent,
)
    ensures
        answer_problem(answer, c) is None ==> after_async_event(
            c,
            AsyncCallStage::Calling,
            AsyncCallEvent::Answered(answer),
        ) == (c, AsyncCallStage::Waiting, AsyncCallActionView::Wait),
        answer_problem(answer, c) matches Some(e) ==> {
            let (after, next, action) = after_async_event(
                c,
                AsyncCallStage::Calling,
                AsyncCallEvent::Answered(answer),
            );
            &&& after.cancelled
            &&& next is Over
            &&& action == AsyncCallActionView::Finish(running_tasks(c), Err(e))
        },
        c.outcome matches Some(result) ==> {
            let (after, next, action) = after_async_event(
                c,
                AsyncCallStage::Waiting,
                AsyncCallEvent::Ended,
            );
            &&& next is Over
            &&& after.cancelled == c.cancelled
            &&& action == AsyncCallActionView::Finish(Set::empty(), result)
        },
        c.outcome is None ==> {
            let (after, next, action) = after_async_event(
                c,
                AsyncCallStage::Waiting,
                AsyncCallEvent::Ended,
            );
            &&& next is Over
            &&& after.cancelled
            &&& action == AsyncCallActionView::Finish(
                running_tasks(c),
                Err(
                    (crate::native::status::FlowErrorKind::Internal, "native async callback dropped without settling"@),
                ),
            )
        },
        !(stage is Over) ==> {
            let (after, next, action) = after_async_event(c, stage, AsyncCallEvent::GivenUp);
            &&& next is Over
            &&& after.cancelled
            &&& action == AsyncCallActionView::Abandon(running_tasks(c))
        },
        after_async_event(c, AsyncCallStage::Over, event) == (
            c,
            AsyncCallStage::Over,
            AsyncCallActionView::Ignore,
        ),
{
}

} // verus!
