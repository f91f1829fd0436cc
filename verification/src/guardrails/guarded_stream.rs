//! A provider's stream under the watch of output rails.
//!
//! Every chunk is handed to the rails before it goes to the reader. When the rails block, the reader
//! gets an error in place of the next chunk and nothing after it.

use vstd::prelude::*;

use crate::guardrails::bridge::{error_or, error_text_or, LocalWorkerEnvelope};
use crate::guardrails::stream_text::{extract_stream_text, stream_text, LocalGuardrailsCodec};
use crate::json::{json_view, Json};
use crate::native::status::{FlowError, FlowErrorKind, FlowErrorView};
use crate::text::{concat2, concat3, opt_text, text_eq};

verus! {

/// How many texts, and how many chunks, may be on their way.
pub const GUARDED_STREAM_CHANNEL_CAPACITY: usize = 32;

/// The error of a blocked stream.
pub open spec fn stream_blocked(message: Seq<char>) -> FlowErrorView {
    (
        FlowErrorKind::Internal,
        "NeMo Guardrails output rail blocked the LLM call: "@ + message,
    )
}

/// The error of a blocked stream.
pub fn streaming_output_blocked(message: &str) -> (r: FlowError)
    ensures
        r@ == stream_blocked(message@),
{
    FlowError::internal(concat2("NeMo Guardrails output rail blocked the LLM call: ", message))
}

/// The error of closing a stream whose cleanup never told how it ended.
pub fn cleanup_ended_early() -> (r: FlowError)
    ensures
        r@ == (FlowErrorKind::Internal, "guarded stream cleanup task ended early"@),
{
    FlowError::internal("guarded stream cleanup task ended early".to_owned())
}

/// How the watch over a stream ended.
pub enum MonitorEnd {
    /// It came to its end.
    Done,
    /// It failed.
    Failed(FlowError),
    /// Its task failed.
    Panicked(String),
}

/// The error that the end of the watch gives the reader, where it gives one.
pub open spec fn monitor_error_view(end: MonitorEnd, blocked: Option<String>) -> Option<
    FlowErrorView,
> {
    match end {
        MonitorEnd::Failed(err) => Some(err@),
        MonitorEnd::Panicked(err) => Some(
            (
                FlowErrorKind::Internal,
                "nemo_guardrails stream monitor task failed: "@ + err@,
            ),
        ),
        MonitorEnd::Done => match blocked {
            Some(message) => Some(stream_blocked(message@)),
            None => None,
        },
    }
}

/// An error that may be missing, in its mathematical form.
pub open spec fn opt_error(error: Option<FlowError>) -> Option<FlowErrorView> {
    match error {
        Some(e) => Some(e@),
        None => None,
    }
}

/// The error that the end of the watch gives the reader, where it gives one.
pub fn stream_monitor_error(end: MonitorEnd, blocked: Option<String>) -> (r: Option<FlowError>)
    ensures
        opt_error(r) == monitor_error_view(end, blocked),
{
    match end {
        MonitorEnd::Failed(err) => Some(err),
        MonitorEnd::Panicked(err) => Some(
            FlowError::internal(
                concat2("nemo_guardrails stream monitor task failed: ", err.as_str()),
            ),
        ),
        MonitorEnd::Done => match blocked {
            Some(message) => Some(streaming_output_blocked(message.as_str())),
            None => None,
        },
    }
}

/// What to do after an item of the provider's stream.
pub enum ForwardStep {
    /// Hand the text, where there is one, to the rails, and then the chunk to the reader.
    Deliver {
        /// Text of the chunk.
        text: Option<String>,
        /// The chunk.
        chunk: Json,
    },
    /// Hand the reader an error, end the text, wait for the watch to end, and finish.
    Refuse(FlowError),
    /// Finish.
    Finish,
}

/// What came of handing a chunk to the reader.
#[derive(Clone, Copy, Debug, PartialEq, Eq, Structural)]
pub enum ChunkSend {
    /// The reader has it.
    Sent,
    /// The stream was cancelled first.
    Cancelled,
    /// The reader is gone.
    Closed,
}

/// What to do about the watch when the stream finishes.
#[derive(Clone, Copy, Debug, PartialEq, Eq, Structural)]
pub enum MonitorFinish {
    /// Nothing: it was waited for before.
    Leave,
    /// Abort it.
    Abort,
    /// Wait for it, and hand the reader its error.
    Wait,
}

/// The forwarding of a provider's stream.
pub struct GuardedForward {
    /// Whether the watch is still to be waited for.
    pub watched: bool,
    /// Whether no further item is taken.
    pub ended: bool,
}

/// Whether a step is the one for an item, under a block that the rails may have set.
pub open spec fn forwards(
    codec: LocalGuardrailsCodec,
    item: Option<Result<Json, FlowError>>,
    blocked: Option<String>,
    step: ForwardStep,
) -> bool {
    match item {
        None => step is Finish,
        Some(Err(err)) => refuses_with(step, err@),
        Some(Ok(chunk)) => match blocked {
            Some(message) => refuses_with(step, stream_blocked(message@)),
            None => delivers(step, stream_text(codec, json_view(chunk)), chunk),
        },
    }
}

/// Whether a step hands the reader an error.
pub open spec fn refuses_with(step: ForwardStep, error: FlowErrorView) -> bool {
    match step {
        ForwardStep::Refuse(e) => e@ == error,
        _ => false,
    }
}

/// Whether a step hands on a text and a chunk.
pub open spec fn delivers(step: ForwardStep, text: Option<Seq<char>>, chunk: Json) -> bool {
    match step {
        ForwardStep::Deliver { text: t, chunk: c } => opt_text(t) == text && c == chunk,
        _ => false,
    }
}

impl GuardedForward {
    /// A stream that has just been opened.
    pub fn new() -> (r: Self)
        ensures
            r.watched,
            !r.ended,
    {
        GuardedForward { watched: true, ended: false }
    }

    /// Takes the next item of the provider's stream, or its end.
    pub fn take_item(
        &mut self,
        codec: LocalGuardrailsCodec,
        item: Option<Result<Json, FlowError>>,
        blocked: Option<String>,
    ) -> (r: ForwardStep)
        ensures
            old(self).ended ==> r is Finish && *final(self) == *old(self),
            !old(self).ended ==> forwards(codec, item, blocked, r),
            !old(self).ended ==> final(self).ended == !(r is Deliver),
            !old(self).ended ==> final(self).watched == (old(self).watched && !(r is Refuse)),
    {
        if self.ended {
            return ForwardStep::Finish;
        }
        match item {
            None => {
                self.ended = true;
                ForwardStep::Finish
            },
            Some(Err(err)) => {
                self.ended = true;
                self.watched = false;
                ForwardStep::Refuse(err)
            },
            Some(Ok(chunk)) => match blocked {
                Some(message) => {
                    self.ended = true;
                    self.watched = false;
                    ForwardStep::Refuse(streaming_output_blocked(message.as_str()))
                },
                None => {
                    let text = extract_stream_text(codec, &chunk);
                    ForwardStep::Deliver { text, chunk }
                },
            },
        }
    }

    /// Takes that the rails no longer took a text: the error for the reader, by how the watch ended.
    pub fn text_refused(&mut self, end: MonitorEnd, blocked: Option<String>) -> (r: Option<
        FlowError,
    >)
        ensures
            opt_error(r) == monitor_error_view(end, blocked),
            !final(self).watched,
            final(self).ended,
    {
        self.watched = false;
        self.ended = true;
        stream_monitor_error(end, blocked)
    }

    /// Takes what came of handing a chunk to the reader: whether the text has to be ended and the watch
    /// waited for now.
    pub fn chunk_sent(&mut self, outcome: ChunkSend) -> (r: bool)
        ensures
            r == (old(self).watched && outcome == ChunkSend::Closed),
            final(self).ended == (old(self).ended || outcome != ChunkSend::Sent),
            final(self).watched == (old(self).watched && outcome != ChunkSend::Closed),
    {
        match outcome {
            ChunkSend::Sent => false,
            ChunkSend::Cancelled => {
                self.ended = true;
                false
            },
            ChunkSend::Closed => {
                self.ended = true;
                let wait = self.watched;
                self.watched = false;
                wait
            },
        }
    }

    /// Finishes the stream: what to do about the watch, by whether the stream was cancelled.
    pub fn finish(&mut self, cancelled: bool) -> (r: MonitorFinish)
        ensures
            r == if !old(self).watched {
                MonitorFinish::Leave
            } else if cancelled {
                MonitorFinish::Abort
            } else {
                MonitorFinish::Wait
            },
            !final(self).watched,
            final(self).ended,
    {
        let watched = self.watched;
        self.watched = false;
        self.ended = true;
        if !watched {
            MonitorFinish::Leave
        } else if cancelled {
            MonitorFinish::Abort
        } else {
            MonitorFinish::Wait
        }
    }
}

/// Something that the watch over a stream takes.
pub enum MonitorInput {
    /// The next text of the stream.
    Text(String),
    /// The end of the text.
    TextEnd,
    /// An event of the worker, or the end of its events.
    Event(Option<LocalWorkerEnvelope>),
}

/// What the watch over a stream does next.
pub enum MonitorStep {
    /// Hand the worker a text.
    SendText(String),
    /// Tell the worker that the text has ended.
    SendEnd,
    /// Go on.
    Continue,
    /// Forget the stream and end, with the message of a block where there is one.
    Done(Option<String>),
    /// Forget the stream and fail.
    Failed(FlowError),
}

/// The mathematical form of what the watch over a stream does next.
pub ghost enum MonitorStepView {
    /// Hand the worker a text.
    SendText(Seq<char>),
    /// Tell the worker that the text has ended.
    SendEnd,
    /// Go on.
    Continue,
    /// Forget the stream and end, with the message of a block where there is one.
    Done(Option<Seq<char>>),
    /// Forget the stream and fail.
    Failed(FlowErrorView),
}

impl View for MonitorStep {
    type V = MonitorStepView;

    open spec fn view(&self) -> MonitorStepView {
        match *self {
            MonitorStep::SendText(text) => MonitorStepView::SendText(text@),
            MonitorStep::SendEnd => MonitorStepView::SendEnd,
            MonitorStep::Continue => MonitorStepView::Continue,
            MonitorStep::Done(message) => MonitorStepView::Done(opt_text(message)),
            MonitorStep::Failed(error) => MonitorStepView::Failed(error@),
        }
    }
}

/// What an event of the worker makes the watch do.
pub open spec fn event_step(event: Option<LocalWorkerEnvelope>) -> MonitorStepView {
    match event {
        None => MonitorStepView::Failed(
            (
                FlowErrorKind::Internal,
                "NeMo Guardrails local Python worker stream closed unexpectedly"@,
            ),
        ),
        Some(envelope) => if !envelope.ok {
            MonitorStepView::Failed(
                (
                    FlowErrorKind::Internal,
                    error_or(
                        envelope.error,
                        "NeMo Guardrails local Python worker stream failed"@,
                    ),
                ),
            )
        } else {
            match envelope.event {
                None => MonitorStepView::Continue,
                Some(name) => if name@ == "blocked"@ {
                    MonitorStepView::Done(opt_text(envelope.message))
                } else if name@ == "done"@ {
                    MonitorStepView::Done(None)
                } else {
                    MonitorStepView::Failed(
                        (
                            FlowErrorKind::Internal,
                            "NeMo Guardrails local Python worker returned unknown stream event '"@
                                + name@ + "'"@,
                        ),
                    )
                },
            }
        },
    }
}

/// What the watch does next, by whether the text has ended. After its end no text is taken.
pub open spec fn monitor_step(text_ended: bool, input: MonitorInput) -> MonitorStepView {
    match input {
        MonitorInput::Text(text) => if text_ended {
            MonitorStepView::Continue
        } else {
            MonitorStepView::SendText(text@)
        },
        MonitorInput::TextEnd => if text_ended {
            MonitorStepView::Continue
        } else {
            MonitorStepView::SendEnd
        },
        MonitorInput::Event(event) => event_step(event),
    }
}

/// Decides what an event of the worker makes the watch do.
fn react_to_event(event: Option<LocalWorkerEnvelope>) -> (r: MonitorStep)
    ensures
        r@ == event_step(event),
{
    let envelope = match event {
        Some(envelope) => envelope,
        None => {
            return MonitorStep::Failed(
                FlowError::internal(
                    "NeMo Guardrails local Python worker stream closed unexpectedly".to_owned(),
                ),
            );
        },
    };
    if !envelope.ok {
        return MonitorStep::Failed(
            FlowError::internal(
                error_text_or(
                    envelope.error,
                    "NeMo Guardrails local Python worker stream failed",
                ),
            ),
        );
    }
    match envelope.event {
        None => MonitorStep::Continue,
        Some(name) => if text_eq(name.as_str(), "blocked") {
            MonitorStep::Done(envelope.message)
        } else if text_eq(name.as_str(), "done") {
            MonitorStep::Done(None)
        } else {
            MonitorStep::Failed(
                FlowError::internal(
                    concat3(
                        "NeMo Guardrails local Python worker returned unknown stream event '",
                        name.as_str(),
                        "'",
                    ),
                ),
            )
        },
    }
}

/// The watch over a stream.
pub struct StreamMonitor {
    /// Whether the text has ended.
    pub text_ended: bool,
}

impl StreamMonitor {
    /// A watch that has just begun.
    pub fn new() -> (r: Self)
        ensures
            !r.text_ended,
    {
        StreamMonitor { text_ended: false }
    }

    /// Takes a text, the end of the text, or an event of the worker.
    pub fn take(&mut self, input: MonitorInput) -> (r: MonitorStep)
        ensures
            r@ == monitor_step(old(self).text_ended, input),
            final(self).text_ended == (old(self).text_ended || input is TextEnd),
    {
        match input {
            MonitorInput::Text(text) => if self.text_ended {
                MonitorStep::Continue
            } else {
                MonitorStep::SendText(text)
            },
            MonitorInput::TextEnd => if self.text_ended {
                MonitorStep::Continue
            } else {
                self.text_ended = true;
                MonitorStep::SendEnd
            },
            MonitorInput::Event(event) => react_to_event(event),
        }
    }
}

/// Once the rails have blocked a stream, no chunk of it reaches the reader.
pub proof fn law_blocked_stream_delivers_nothing(
    codec: LocalGuardrailsCodec,
    item: Option<Result<Json, FlowError>>,
    message: String,
    step: ForwardStep,
)
    requires
        forwards(codec, item, Some(message), step),
    ensures
        !(step is Deliver),
{
}

/// A chunk that is delivered is the one that the provider sent, and the rails are handed its text.
pub proof fn law_delivered_chunks_are_watched(
    codec: LocalGuardrailsCodec,
    item: Option<Result<Json, FlowError>>,
    blocked: Option<String>,
    text: Option<String>,
    chunk: Json,
)
    requires
        forwards(codec, item, blocked, ForwardStep::Deliver { text, chunk }),
    ensures
        item == Some(Ok::<Json, FlowError>(chunk)),
        opt_text(text) == stream_text(codec, json_view(chunk)),
        blocked is None,
{
}

/// The worker is told once that the text has ended, and handed no text after it.
pub proof fn law_text_ends_once(input: MonitorInput)
    ensures
        monitor_step(true, input) != MonitorStepView::SendEnd,
        !(monitor_step(true, input) is SendText),
{
}

/// A blocked stream ends in an error that carries the rails' message; other ends of the watch tell
/// what went wrong.
pub proof fn law_watches_end_with_their_reason(error: FlowError, text: String, blocked: Option<String>)
    ensures
        stream_blocked(text@) == (
            FlowErrorKind::Internal,
            "NeMo Guardrails output rail blocked the LLM call: "@ + text@,
        ),
        monitor_error_view(MonitorEnd::Done, None) is None,
        monitor_error_view(MonitorEnd::Done, Some(text)) == Some(
            (
                FlowErrorKind::Internal,
                "NeMo Guardrails output rail blocked the LLM call: "@ + text@,
            ),
        ),
        monitor_error_view(MonitorEnd::Failed(error), blocked) == Some(error@),
        monitor_error_view(MonitorEnd::Panicked(text), blocked) == Some(
            (FlowErrorKind::Internal, "nemo_guardrails stream monitor task failed: "@ + text@),
        ),
        GUARDED_STREAM_CHANNEL_CAPACITY == 32,
{
}

/// A chunk is delivered unchanged with its text while nothing is blocked; an error of the provider
/// is passed on, and the end of its stream ends the watch.
pub proof fn law_chunks_are_delivered_until_blocked(
    codec: LocalGuardrailsCodec,
    chunk: Json,
    error: FlowError,
    message: String,
    blocked: Option<String>,
    step: ForwardStep,
)
    ensures
        forwards(codec, None, blocked, step) <==> step is Finish,
        forwards(codec, Some(Err(error)), blocked, step) <==> step is Refuse && step->Refuse_0@
            == error@,
        forwards(codec, Some(Ok(chunk)), Some(message), step) <==> step is Refuse && step->Refuse_0@
            == (
            FlowErrorKind::Internal,
            "NeMo Guardrails output rail blocked the LLM call: "@ + message@,
        ),
        forwards(codec, Some(Ok(chunk)), None, step) <==> step is Deliver && step->chunk == chunk
            && opt_text(step->text) == stream_text(codec, json_view(chunk)),
{
}

/// What the worker's events mean: a block, the end, or a failure; text goes to it until the text has
/// ended.
pub proof fn law_worker_events_steer_the_watch(
    text_ended: bool,
    text: String,
    event: Option<LocalWorkerEnvelope>,
    envelope: LocalWorkerEnvelope,
)
    ensures
        monitor_step(false, MonitorInput::Text(text)) == MonitorStepView::SendText(text@),
        monitor_step(false, MonitorInput::TextEnd) == MonitorStepView::SendEnd,
        monitor_step(true, MonitorInput::Text(text)) == MonitorStepView::Continue,
        monitor_step(true, MonitorInput::TextEnd) == MonitorStepView::Continue,
        monitor_step(text_ended, MonitorInput::Event(event)) == event_step(event),
        event_step(None) is Failed,
        !envelope.ok ==> event_step(Some(envelope)) == MonitorStepView::Failed(
            (
                FlowErrorKind::Internal,
                match envelope.error {
                    Some(e) => e@,
                    None => "NeMo Guardrails local Python worker stream failed"@,
                },
            ),
        ),
        envelope.ok && envelope.event is None ==> event_step(Some(envelope))
            == MonitorStepView::Continue,
        envelope.ok && (envelope.event matches Some(name) && name@ == "blocked"@) ==> event_step(
            Some(envelope),
        ) == MonitorStepView::Done(opt_text(envelope.message)),
        envelope.ok && (envelope.event matches Some(name) && name@ == "done"@) ==> event_step(
            Some(envelope),
        ) == MonitorStepView::Done(None),
        envelope.ok && (envelope.event matches Some(name) && name@ != "blocked"@ && name@
            != "done"@) ==> event_step(Some(envelope)) is Failed,
{
    reveal_strlit("blocked");
    reveal_strlit("done");
    assert("blocked"@.len() == 7 && "done"@.len() == 4);
}

/// What is told where the worker's events break off or cannot be understood.
pub proof fn law_broken_watches_are_told(envelope: LocalWorkerEnvelope, name: String)
    requires
        envelope.ok,
        envelope.event == Some(name),
        name@ != "blocked"@,
        name@ != "done"@,
    ensures
        event_step(None) == MonitorStepView::Failed(
            (
                FlowErrorKind::Internal,
                "NeMo Guardrails local Python worker stream closed unexpectedly"@,
            ),
        ),
        event_step(Some(envelope)) == MonitorStepView::Failed(
            (
                FlowErrorKind::Internal,
                "NeMo Guardrails local Python worker returned unknown stream event '"@ + name@
                    + "'"@,
            ),
        ),
{
}

} // verus!
