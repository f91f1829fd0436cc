//! One invocation of a worker's callback.

use vstd::prelude::*;

use crate::json::{Json, JsonView};
use crate::native::completion::result_view;
use crate::native::status::{flow_failure, FlowError, FlowErrorKind, FlowErrorView};
use crate::registrations::RegistrationSurface;
use crate::text::concat2;
use crate::worker::host::{
    handles_without, invocation_ended, scopes_off, WorkerHostRuntimeState,
};
use crate::worker::messages::{
    chunk_answer, json_from_stream_chunk, rpc_flow_error, worker_status_to_flow, RpcCode,
    StreamChunkItem,
};
use crate::worker::process::{fresh_uuid, hyphenated};

verus! {

/// What a worker's callback is called with, apart from its payload.
#[derive(Debug)]
pub struct WorkerInvocation {
    /// Identity of the activation.
    pub activation_id: String,
    /// Token that worker and host show each other.
    pub auth_token: String,
    /// Identity of the invocation.
    pub invocation_id: String,
    /// Name of the callback.
    pub registration_name: String,
    /// Surface of the callback.
    pub surface: RegistrationSurface,
    /// Continuation that the callback may run, empty where there is none.
    pub continuation_id: String,
    /// Stack that the invocation uses.
    pub scope_stack_id: String,
}

/// An invocation under given identities.
pub fn invocation_as(
    state: &WorkerHostRuntimeState,
    invocation_id: String,
    registration_name: &str,
    surface: RegistrationSurface,
    continuation_id: Option<String>,
    scope_stack_id: &str,
) -> (r: WorkerInvocation)
    ensures
        r.activation_id@ == state.activation_id@,
        r.auth_token@ == state.auth_token@,
        r.invocation_id == invocation_id,
        r.registration_name@ == registration_name@,
        r.surface == surface,
        r.continuation_id@ == (match continuation_id {
            Some(id) => id@,
            None => ""@,
        }),
        r.scope_stack_id@ == scope_stack_id@,
{
    WorkerInvocation {
        activation_id: state.activation_id.clone(),
        auth_token: state.auth_token.clone(),
        invocation_id,
        registration_name: registration_name.to_owned(),
        surface,
        continuation_id: match continuation_id {
            Some(id) => id,
            None => "".to_owned(),
        },
        scope_stack_id: scope_stack_id.to_owned(),
    }
}

/// An invocation under a fresh identity.
pub fn new_invocation(
    state: &WorkerHostRuntimeState,
    registration_name: &str,
    surface: RegistrationSurface,
    continuation_id: Option<String>,
    scope_stack_id: &str,
) -> (r: WorkerInvocation)
    ensures
        r.activation_id@ == state.activation_id@,
        r.auth_token@ == state.auth_token@,
        hyphenated(r.invocation_id@),
        r.registration_name@ == registration_name@,
        r.surface == surface,
        r.continuation_id@ == (match continuation_id {
            Some(id) => id@,
            None => ""@,
        }),
        r.scope_stack_id@ == scope_stack_id@,
{
    let (invocation_id, _) = fresh_uuid();
    invocation_as(
        state,
        invocation_id,
        registration_name,
        surface,
        continuation_id,
        scope_stack_id,
    )
}

/// Asks a worker to stop an invocation.
#[derive(Debug)]
pub struct CancelInvocation {
    /// Identity of the activation.
    pub activation_id: String,
    /// Identity of the invocation.
    pub invocation_id: String,
    /// Token that worker and host show each other.
    pub auth_token: String,
    /// Why.
    pub reason: String,
}

/// Ends an invocation: cancels it where it did not end on its own, and takes back what it was
/// lent.
#[derive(Debug)]
pub struct WorkerInvocationGuard {
    /// Identity of the activation.
    pub activation_id: String,
    /// Token that worker and host show each other.
    pub auth_token: String,
    /// Identity of the invocation.
    pub invocation_id: String,
    /// Continuation that the callback may run, empty where there is none.
    pub continuation_id: String,
    /// Stack that the invocation uses, empty where there is none.
    pub scope_stack_id: String,
    /// Whether the invocation is to be cancelled when the guard goes.
    pub cancel_on_drop: bool,
    /// Whether everything was taken back.
    pub cleaned: bool,
}

impl WorkerInvocationGuard {
    /// Whether two guards are for the same invocation.
    pub open spec fn same_invocation(self, other: Self) -> bool {
        &&& self.activation_id == other.activation_id
        &&& self.auth_token == other.auth_token
        &&& self.invocation_id == other.invocation_id
        &&& self.continuation_id == other.continuation_id
        &&& self.scope_stack_id == other.scope_stack_id
    }

    /// Whether a request is what cancelling the invocation with a reason asks for: none where it
    /// ended or was cancelled before.
    pub open spec fn cancels(self, reason: Seq<char>, request: Option<CancelInvocation>) -> bool {
        match request {
            None => !self.cancel_on_drop,
            Some(request) => {
                &&& self.cancel_on_drop
                &&& request.activation_id == self.activation_id
                &&& request.invocation_id == self.invocation_id
                &&& request.auth_token == self.auth_token
                &&& request.reason@ == reason
            },
        }
    }

    /// The guard of an invocation that begins.
    pub fn new(invocation: &WorkerInvocation) -> (r: Self)
        ensures
            r.activation_id == invocation.activation_id,
            r.auth_token == invocation.auth_token,
            r.invocation_id == invocation.invocation_id,
            r.continuation_id == invocation.continuation_id,
            r.scope_stack_id == invocation.scope_stack_id,
            r.cancel_on_drop,
            !r.cleaned,
    {
        WorkerInvocationGuard {
            activation_id: invocation.activation_id.clone(),
            auth_token: invocation.auth_token.clone(),
            invocation_id: invocation.invocation_id.clone(),
            continuation_id: invocation.continuation_id.clone(),
            scope_stack_id: invocation.scope_stack_id.clone(),
            cancel_on_drop: true,
            cleaned: false,
        }
    }

    /// Cancels the invocation, unless it ended or was cancelled before.
    pub fn cancel(&mut self, reason: &str) -> (r: Option<CancelInvocation>)
        ensures
            final(self).same_invocation(*old(self)),
            final(self).cleaned == old(self).cleaned,
            !final(self).cancel_on_drop,
            old(self).cancels(reason@, r),
    {
        if !self.cancel_on_drop {
            return None;
        }
        self.cancel_on_drop = false;
        Some(
            CancelInvocation {
                activation_id: self.activation_id.clone(),
                invocation_id: self.invocation_id.clone(),
                auth_token: self.auth_token.clone(),
                reason: reason.to_owned(),
            },
        )
    }

    /// Whether what the invocation was lent is taken back, once: its continuation, and its stack,
    /// which may have to be unwound to a depth now. A stack that is to be unwound is marked, so
    /// that later invocations keep off it.
    pub open spec fn takes_back(
        self,
        before: WorkerHostRuntimeState,
        after: WorkerHostRuntimeState,
        unwind: Option<(u64, usize)>,
    ) -> bool {
        if self.cleaned {
            unwind is None && after == before
        } else {
            &&& after.continuations@ == (if self.continuation_id@.len() == 0 {
                before.continuations@
            } else {
                before.continuations@.remove(self.continuation_id@)
            })
            &&& if self.scope_stack_id@.len() == 0 {
                &&& unwind is None
                &&& after.scope_stacks == before.scope_stacks
                &&& after.pending_scope_cleanups == before.pending_scope_cleanups
            } else {
                &&& (after.scope_stacks@, after.pending_scope_cleanups@, unwind)
                    == invocation_ended(
                    before.scope_stacks@,
                    before.pending_scope_cleanups@,
                    self.scope_stack_id@,
                )
            }
            &&& after.scope_stack_cleanups@ == (match unwind {
                Some((handle, _)) => before.scope_stack_cleanups@.push(handle),
                None => before.scope_stack_cleanups@,
            })
            &&& after.scope_handles == before.scope_handles
            &&& after.codecs == before.codecs
            &&& after.activation_id == before.activation_id
            &&& after.auth_token == before.auth_token
        }
    }

    /// Takes back what the invocation was lent, once: its continuation and its stack. Gives the
    /// stack to unwind with its depth, where that has to be done now.
    pub fn cleanup(&mut self, state: &mut WorkerHostRuntimeState) -> (r: Option<(u64, usize)>)
        requires
            old(state).wf(),
        ensures
            final(state).wf(),
            final(self).same_invocation(*old(self)),
            final(self).cancel_on_drop == old(self).cancel_on_drop,
            final(self).cleaned,
            old(self).takes_back(*old(state), *final(state), r),
    {
        if self.cleaned {
            return None;
        }
        self.cleaned = true;
        if !self.continuation_id.as_str().is_empty() {
            state.remove_continuation(self.continuation_id.as_str());
        }
        if self.scope_stack_id.as_str().is_empty() {
            return None;
        }
        state.take_invocation_scope_cleanup(self.scope_stack_id.as_str())
    }

    /// Ends the cleanup after the stack was unwound: later invocations may use the stack again,
    /// and the scopes that the invocation left open are forgotten.
    pub fn end_cleanup(&self, state: &mut WorkerHostRuntimeState, unwound: Option<u64>)
        requires
            old(state).wf(),
        ensures
            final(state).wf(),
            final(state).activation_id == old(state).activation_id,
            final(state).auth_token == old(state).auth_token,
            final(state).scope_stacks == old(state).scope_stacks,
            final(state).pending_scope_cleanups == old(state).pending_scope_cleanups,
            final(state).continuations == old(state).continuations,
            final(state).codecs == old(state).codecs,
            final(state).scope_stack_cleanups@ == (match unwound {
                Some(handle) => handles_without(old(state).scope_stack_cleanups@, handle),
                None => old(state).scope_stack_cleanups@,
            }),
            final(state).scope_handles.entries@ == scopes_off(
                old(state).scope_handles.entries@,
                self.scope_stack_id@,
            ),
    {
        if let Some(handle) = unwound {
            state.finish_cleanup(handle);
        }
        state.forget_scope_handles(self.scope_stack_id.as_str());
    }

    /// Ends the invocation without cancelling it, and takes back what it was lent.
    pub fn finish(&mut self, state: &mut WorkerHostRuntimeState) -> (r: Option<(u64, usize)>)
        requires
            old(state).wf(),
        ensures
            final(state).wf(),
            final(self).same_invocation(*old(self)),
            !final(self).cancel_on_drop,
            final(self).cleaned,
            old(self).takes_back(*old(state), *final(state), r),
    {
        self.cancel_on_drop = false;
        self.cleanup(state)
    }

    /// Lets the guard go: cancels an invocation that is still under way.
    pub fn release(&mut self) -> (r: Option<CancelInvocation>)
        ensures
            final(self).same_invocation(*old(self)),
            final(self).cleaned == old(self).cleaned,
            !final(self).cancel_on_drop,
            old(self).cancels("host caller cancelled the worker invocation"@, r),
    {
        self.cancel("host caller cancelled the worker invocation")
    }
}

/// A stack that an ending invocation leaves to be unwound is marked from then on, whoever else
/// is unwinding one, and free again once its unwinding has ended.
pub proof fn law_stack_is_kept_off_while_unwound(
    guard: WorkerInvocationGuard,
    before: WorkerHostRuntimeState,
    after: WorkerHostRuntimeState,
    handle: u64,
    depth: usize,
)
    requires
        guard.takes_back(before, after, Some((handle, depth))),
    ensures
        after.scope_stack_cleanups@.contains(handle),
        forall|other: u64|
            before.scope_stack_cleanups@.contains(other)
                ==> #[trigger] after.scope_stack_cleanups@.contains(other),
        !handles_without(after.scope_stack_cleanups@, handle).contains(handle),
{
    let marked = after.scope_stack_cleanups@;
    assert(marked[marked.len() - 1] == handle);
    assert forall|other: u64| before.scope_stack_cleanups@.contains(other) implies #[trigger]
        marked.contains(other) by {
        let i = before.scope_stack_cleanups@.index_of(other);
        assert(marked[i] == other);
    }
    lemma_handles_without(marked, handle);
}

/// Leaving a stack out leaves it out.
proof fn lemma_handles_without(handles: Seq<u64>, handle: u64)
    ensures
        !handles_without(handles, handle).contains(handle),
    decreases handles.len(),
{
    if handles.len() > 0 {
        lemma_handles_without(handles.drop_last(), handle);
        let before = handles_without(handles.drop_last(), handle);
        if handles.last() != handle {
            let now = before.push(handles.last());
            if now.contains(handle) {
                let i = now.index_of(handle);
                assert(before[i] == handle);
            }
        }
    }
}

/// Takes the outcome of a callback's RPC: a call that took too long is cancelled. An error is
/// given by its code and the text that its status is shown as.
pub fn after_invoke(
    guard: &mut WorkerInvocationGuard,
    outcome: Result<(), (RpcCode, String)>,
) -> (r: (Option<CancelInvocation>, Result<(), FlowError>))
    ensures
        final(guard).same_invocation(*old(guard)),
        final(guard).cleaned == old(guard).cleaned,
        flow_failure(r.1) == (match outcome {
            Ok(()) => None,
            Err((code, shown)) => Some(rpc_flow_error("worker invoke failed"@, code, shown@)),
        }),
        ({
            let timed_out = outcome matches Err((RpcCode::DeadlineExceeded, _));
            &&& timed_out ==> old(guard).cancels("worker invocation timed out"@, r.0)
            &&& !timed_out ==> r.0 is None
            &&& final(guard).cancel_on_drop == (old(guard).cancel_on_drop && !timed_out)
        }),
{
    match outcome {
        Ok(()) => (None, Ok(())),
        Err((code, shown)) => {
            let error = worker_status_to_flow("worker invoke failed", code, shown.as_str());
            match code {
                RpcCode::DeadlineExceeded => (
                    guard.cancel("worker invocation timed out"),
                    Err(error),
                ),
                _ => (None, Err(error)),
            }
        },
    }
}

/// What happens while a worker's stream is read.
pub enum StreamEvent {
    /// The caller wants no more.
    ConsumerGone,
    /// The worker sent an item.
    Item(Option<StreamChunkItem>),
    /// The connection failed, with the reason.
    Broken(String),
    /// The worker ended the stream.
    End,
}

/// What the host does about an event of a worker's stream.
pub enum StreamReaction {
    /// Hand this to the caller and read on.
    Forward(Result<Json, FlowError>),
    /// Stop, and tell the worker that the invocation is cancelled.
    Cancel(String),
    /// Stop.
    Stop,
}

/// The mathematical form of a reaction.
pub ghost enum StreamReactionView {
    /// Hand this to the caller and read on.
    Forward(Result<JsonView, FlowErrorView>),
    /// Stop, and tell the worker why the invocation is cancelled.
    Cancel(Seq<char>),
    /// Stop.
    Stop,
}

impl View for StreamReaction {
    type V = StreamReactionView;

    open spec fn view(&self) -> StreamReactionView {
        match *self {
            StreamReaction::Forward(item) => StreamReactionView::Forward(result_view(item)),
            StreamReaction::Cancel(reason) => StreamReactionView::Cancel(reason@),
            StreamReaction::Stop => StreamReactionView::Stop,
        }
    }
}

/// What the host does about an event of a worker's stream.
pub open spec fn stream_reaction(event: StreamEvent) -> StreamReactionView {
    match event {
        StreamEvent::ConsumerGone => StreamReactionView::Cancel(
            "host stopped consuming the worker stream"@,
        ),
        StreamEvent::Item(item) => StreamReactionView::Forward(chunk_answer(item)),
        StreamEvent::Broken(e) => StreamReactionView::Forward(
            Err(
                (
                    FlowErrorKind::Internal,
                    "worker stream transport failed: "@ + e@,
                ),
            ),
        ),
        StreamEvent::End => StreamReactionView::Stop,
    }
}

/// Decides what the host does about an event of a worker's stream.
pub fn react_to_stream(event: StreamEvent) -> (r: StreamReaction)
    ensures
        r@ == stream_reaction(event),
{
    match event {
        StreamEvent::ConsumerGone => StreamReaction::Cancel(
            "host stopped consuming the worker stream".to_owned(),
        ),
        StreamEvent::Item(item) => StreamReaction::Forward(json_from_stream_chunk(item)),
        StreamEvent::Broken(e) => StreamReaction::Forward(
            Err(FlowError::internal(concat2("worker stream transport failed: ", e.as_str()))),
        ),
        StreamEvent::End => StreamReaction::Stop,
    }
}

/// Takes a stream invocation that did not open: the reason to cancel it with, and the error for
/// the caller.
pub fn stream_open_failed(code: RpcCode, shown: &str) -> (r: (String, FlowError))
    ensures
        r.0@ == (if code == RpcCode::DeadlineExceeded {
            "worker stream invocation timed out"@
        } else {
            "worker stream transport failed"@
        }),
        r.1@ == rpc_flow_error("worker stream invoke failed"@, code, shown@),
{
    let error = worker_status_to_flow("worker stream invoke failed", code, shown);
    match code {
        RpcCode::DeadlineExceeded => ("worker stream invocation timed out".to_owned(), error),
        _ => ("worker stream transport failed".to_owned(), error),
    }
}

/// How far a streamed invocation is.
#[derive(Debug, Clone, Copy, PartialEq, Eq, Structural)]
pub enum StreamRunStage {
    /// The worker was asked to open its stream.
    Opening,
    /// The worker's stream is read.
    Reading,
    /// The invocation is over.
    Over,
}

/// Something that happens during a streamed invocation.
pub enum StreamRunEvent {
    /// The worker opened its stream.
    Opened,
    /// The worker did not open its stream: the code, and the text that the status is shown as.
    OpenFailed(RpcCode, String),
    /// Something about the stream.
    Stream(StreamEvent),
}

/// What the host does about an event of a streamed invocation, in this order.
pub struct StreamRunStep {
    /// Tell the caller that the worker answered.
    pub ready: bool,
    /// Tell the worker that the invocation is cancelled.
    pub cancel: Option<CancelInvocation>,
    /// Hand this to the caller.
    pub forward: Option<Result<Json, FlowError>>,
    /// Take back what the invocation was lent.
    pub finish: bool,
}

/// A streamed invocation.
pub struct WorkerStreamRun {
    /// The guard of the invocation.
    pub guard: WorkerInvocationGuard,
    /// How far the invocation is.
    pub stage: StreamRunStage,
}

/// Whether a step hands something to the caller, and what.
pub open spec fn forwards(step: StreamRunStep, item: Option<Result<JsonView, FlowErrorView>>) -> bool {
    match item {
        None => step.forward is None,
        Some(view) => step.forward matches Some(given) && result_view(given) == view,
    }
}

/// What is handed to the caller after an event.
pub open spec fn run_forward(
    stage: StreamRunStage,
    event: StreamRunEvent,
) -> Option<Result<JsonView, FlowErrorView>> {
    match (stage, event) {
        (StreamRunStage::Opening, StreamRunEvent::OpenFailed(code, shown)) => Some(
            Err(rpc_flow_error("worker stream invoke failed"@, code, shown@)),
        ),
        (StreamRunStage::Reading, StreamRunEvent::Stream(event)) => match stream_reaction(event) {
            StreamReactionView::Forward(item) => Some(item),
            _ => None,
        },
        _ => None,
    }
}

/// Why an invocation is cancelled after an event, where it is.
pub open spec fn run_cancels(stage: StreamRunStage, event: StreamRunEvent) -> Option<Seq<char>> {
    match (stage, event) {
        (StreamRunStage::Opening, StreamRunEvent::OpenFailed(code, _)) => Some(
            if code == RpcCode::DeadlineExceeded {
                "worker stream invocation timed out"@
            } else {
                "worker stream transport failed"@
            },
        ),
        (StreamRunStage::Over, _) => None,
        (_, StreamRunEvent::Stream(StreamEvent::ConsumerGone)) => Some(
            "host stopped consuming the worker stream"@,
        ),
        _ => None,
    }
}

/// The stage after an event.
pub open spec fn run_next(stage: StreamRunStage, event: StreamRunEvent) -> StreamRunStage {
    match (stage, event) {
        (StreamRunStage::Opening, StreamRunEvent::Opened) => StreamRunStage::Reading,
        (StreamRunStage::Opening, StreamRunEvent::OpenFailed(_, _)) => StreamRunStage::Over,
        (StreamRunStage::Reading, StreamRunEvent::Stream(StreamEvent::End)) => StreamRunStage::Over,
        (_, StreamRunEvent::Stream(StreamEvent::ConsumerGone)) => StreamRunStage::Over,
        _ => stage,
    }
}

/// A step that does nothing.
fn no_step() -> (r: StreamRunStep)
    ensures
        r == (StreamRunStep { ready: false, cancel: None, forward: None, finish: false }),
{
    StreamRunStep { ready: false, cancel: None, forward: None, finish: false }
}

impl WorkerStreamRun {
    /// Begins a streamed invocation.
    pub fn begin(invocation: &WorkerInvocation) -> (r: Self)
        ensures
            r.guard.activation_id == invocation.activation_id,
            r.guard.auth_token == invocation.auth_token,
            r.guard.invocation_id == invocation.invocation_id,
            r.guard.continuation_id == invocation.continuation_id,
            r.guard.scope_stack_id == invocation.scope_stack_id,
            r.guard.cancel_on_drop,
            !r.guard.cleaned,
            r.stage == StreamRunStage::Opening,
    {
        WorkerStreamRun {
            guard: WorkerInvocationGuard::new(invocation),
            stage: StreamRunStage::Opening,
        }
    }

    /// Takes what happened, and says what to do. A caller that takes nothing more is gone.
    pub fn take(&mut self, event: StreamRunEvent) -> (r: StreamRunStep)
        ensures
            final(self).stage == run_next(old(self).stage, event),
            r.finish == (old(self).stage != StreamRunStage::Over && final(self).stage
                == StreamRunStage::Over),
            r.ready == (old(self).stage == StreamRunStage::Opening && !(event is Stream)),
            forwards(r, run_forward(old(self).stage, event)),
            match run_cancels(old(self).stage, event) {
                Some(reason) => old(self).guard.cancels(reason, r.cancel)
                    && !final(self).guard.cancel_on_drop,
                None => r.cancel is None && final(self).guard.cancel_on_drop == old(
                    self).guard.cancel_on_drop,
            },
            final(self).guard.same_invocation(old(self).guard),
            final(self).guard.cleaned == old(self).guard.cleaned,
    {
        match (self.stage, event) {
            (StreamRunStage::Over, _) => no_step(),
            (StreamRunStage::Opening, StreamRunEvent::Opened) => {
                self.stage = StreamRunStage::Reading;
                StreamRunStep { ready: true, ..no_step() }
            },
            (StreamRunStage::Opening, StreamRunEvent::OpenFailed(code, shown)) => {
                self.stage = StreamRunStage::Over;
                let (reason, error) = stream_open_failed(code, shown.as_str());
                StreamRunStep {
                    ready: true,
                    cancel: self.guard.cancel(reason.as_str()),
                    forward: Some(Err(error)),
                    finish: true,
                }
            },
            (StreamRunStage::Opening, StreamRunEvent::Stream(event)) => match event {
                StreamEvent::ConsumerGone => {
                    self.stage = StreamRunStage::Over;
                    let cancel = self.guard.cancel("host stopped consuming the worker stream");
                    StreamRunStep { cancel, finish: true, ..no_step() }
                },
                _ => no_step(),
            },
            (StreamRunStage::Reading, StreamRunEvent::Stream(event)) => {
                match react_to_stream(event) {
                    StreamReaction::Forward(item) => StreamRunStep {
                        forward: Some(item),
                        ..no_step()
                    },
                    StreamReaction::Cancel(reason) => {
                        self.stage = StreamRunStage::Over;
                        let cancel = self.guard.cancel(reason.as_str());
                        StreamRunStep { cancel, finish: true, ..no_step() }
                    },
                    StreamReaction::Stop => {
                        self.stage = StreamRunStage::Over;
                        StreamRunStep { finish: true, ..no_step() }
                    },
                }
            },
            (StreamRunStage::Reading, _) => no_step(),
        }
    }
}

/// The error of a streamed invocation that ended before the worker answered.
pub fn stream_never_opened() -> (r: FlowError)
    ensures
        r@ == (
            FlowErrorKind::Internal,
            "worker stream invocation ended before the downstream stream opened"@,
        ),
{
    FlowError::internal(
        "worker stream invocation ended before the downstream stream opened".to_owned(),
    )
}

/// A streamed invocation takes back what it was lent exactly when it ends, and after that hands
/// nothing to the caller and cancels nothing.
pub proof fn law_stream_run_ends_once(stage: StreamRunStage, event: StreamRunEvent)
    requires
        stage == StreamRunStage::Over,
    ensures
        run_next(stage, event) == StreamRunStage::Over,
        run_forward(stage, event) is None,
        run_cancels(stage, event) is None,
{
}

/// An invocation that may still run is cancelled once, by its own identity and token; one that
/// ended is not.
pub proof fn law_running_invocations_are_cancelled(
    guard: WorkerInvocationGuard,
    reason: Seq<char>,
    request: Option<CancelInvocation>,
)
    requires
        guard.cancels(reason, request),
    ensures
        request is Some <==> guard.cancel_on_drop,
        request matches Some(r) ==> r.activation_id == guard.activation_id && r.invocation_id
            == guard.invocation_id && r.auth_token == guard.auth_token && r.reason@ == reason,
{
}

/// At its end an invocation gives up its continuation and its stack, and nothing else; a second end
/// changes nothing.
pub proof fn law_ended_invocations_leave_nothing(
    guard: WorkerInvocationGuard,
    before: WorkerHostRuntimeState,
    after: WorkerHostRuntimeState,
    unwind: Option<(u64, usize)>,
    other: Seq<char>,
)
    requires
        guard.takes_back(before, after, unwind),
    ensures
        guard.cleaned ==> after == before && unwind is None,
        !guard.cleaned && guard.continuation_id@.len() > 0 ==> !after.continuations@.contains_key(
            guard.continuation_id@,
        ),
        other != guard.continuation_id@ && before.continuations@.contains_key(other)
            ==> after.continuations@.contains_key(other) && after.continuations@[other]
            == before.continuations@[other],
        !guard.cleaned && guard.scope_stack_id@.len() > 0
            ==> !after.scope_stacks@.contains_key(guard.scope_stack_id@),
        other != guard.scope_stack_id@ && before.scope_stacks@.contains_key(other)
            ==> after.scope_stacks@.contains_key(other) && after.scope_stacks@[other]
            == before.scope_stacks@[other],
        guard.scope_stack_id@.len() == 0 ==> unwind is None,
        unwind matches Some((handle, depth)) ==> after.scope_stack_cleanups@
            == before.scope_stack_cleanups@.push(handle),
        after.codecs == before.codecs,
        after.scope_handles == before.scope_handles,
{
    if !guard.cleaned && guard.scope_stack_id@.len() > 0 {
        crate::worker::host::law_ended_invocations_give_their_stack_up(
            before.scope_stacks@,
            before.pending_scope_cleanups@,
            guard.scope_stack_id@,
            other,
            0,
        );
    }
}

/// What a worker's stream gives is passed on, an error as one; a broken transport is told as an
/// error, the end ends the stream, and where nobody reads any more the invocation is cancelled.
pub proof fn law_worker_streams_are_passed_on(item: Option<StreamChunkItem>, e: String)
    ensures
        stream_reaction(StreamEvent::Item(item)) == StreamReactionView::Forward(chunk_answer(item)),
        stream_reaction(StreamEvent::Broken(e)) == StreamReactionView::Forward(
            Err((FlowErrorKind::Internal, "worker stream transport failed: "@ + e@)),
        ),
        stream_reaction(StreamEvent::End) == StreamReactionView::Stop,
        stream_reaction(StreamEvent::ConsumerGone) == StreamReactionView::Cancel(
            "host stopped consuming the worker stream"@,
        ),
{
}

/// How a streaming invocation goes: it is read once it is open; one that cannot be opened is told
/// as an error, cancelled and over; items are forwarded while it is read, until its end or until
/// nobody reads it.
pub proof fn law_stream_runs(
    stage: StreamRunStage,
    item: Option<StreamChunkItem>,
    code: RpcCode,
    shown: String,
    event: StreamRunEvent,
)
    ensures
        run_next(StreamRunStage::Opening, StreamRunEvent::Opened) == StreamRunStage::Reading,
        run_next(StreamRunStage::Opening, StreamRunEvent::OpenFailed(code, shown))
            == StreamRunStage::Over,
        run_forward(StreamRunStage::Opening, StreamRunEvent::OpenFailed(code, shown)) == Some(
            Err::<JsonView, FlowErrorView>(
                rpc_flow_error("worker stream invoke failed"@, code, shown@),
            ),
        ),
        run_cancels(StreamRunStage::Opening, StreamRunEvent::OpenFailed(code, shown)) == Some(
            if code == RpcCode::DeadlineExceeded {
                "worker stream invocation timed out"@
            } else {
                "worker stream transport failed"@
            },
        ),
        run_forward(StreamRunStage::Reading, StreamRunEvent::Stream(StreamEvent::Item(item)))
            == Some(chunk_answer(item)),
        run_next(StreamRunStage::Reading, StreamRunEvent::Stream(StreamEvent::Item(item)))
            == StreamRunStage::Reading,
        run_cancels(StreamRunStage::Reading, StreamRunEvent::Stream(StreamEvent::Item(item)))
            is None,
        run_next(StreamRunStage::Reading, StreamRunEvent::Stream(StreamEvent::End))
            == StreamRunStage::Over,
        run_cancels(StreamRunStage::Reading, StreamRunEvent::Stream(StreamEvent::End)) is None,
        run_next(stage, StreamRunEvent::Stream(StreamEvent::ConsumerGone)) == StreamRunStage::Over,
        stage != StreamRunStage::Over ==> run_cancels(
            stage,
            StreamRunEvent::Stream(StreamEvent::ConsumerGone),
        ) == Some("host stopped consuming the worker stream"@),
        run_next(StreamRunStage::Over, event) == StreamRunStage::Over,
        run_forward(StreamRunStage::Over, event) is None,
        run_cancels(StreamRunStage::Over, event) is None,
{
}

/// Two invocations are the same where everything that names them is.
pub proof fn law_invocations_are_told_apart(a: WorkerInvocationGuard, b: WorkerInvocationGuard)
    ensures
        a.same_invocation(b) <==> a.activation_id == b.activation_id && a.auth_token == b.auth_token
            && a.invocation_id == b.invocation_id && a.continuation_id == b.continuation_id
            && a.scope_stack_id == b.scope_stack_id,
{
}

} // verus!
