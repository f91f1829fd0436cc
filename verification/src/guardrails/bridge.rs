//! The exchange with a local Guardrails worker: commands by line, answers by identifier.

use vstd::prelude::*;

use crate::error::{failure, ErrorView, PluginError, PluginErrorKind};
use crate::guardrails::component::{config_json, config_object, NeMoGuardrailsConfig};
use crate::json::{array_view, json_view, object2, object3, put, text_json, Json, JsonView};
use crate::json_text::{json_text, json_text_of};
use crate::native::completion::result_view;
use crate::native::status::{flow_failure, internal, FlowError, FlowErrorKind, FlowErrorView};
use crate::text::{blank, clone_opt, concat2, concat3, concat4, decimal, format_u64, is_blank, opt_text};
use crate::text_map::{entry_keys, TextMap};

verus! {

/// How many seconds a worker has to answer its first command.
pub const WORKER_INIT_TIMEOUT_SECS: u64 = 30;

/// How many seconds a worker has to answer a later command.
pub const WORKER_RPC_TIMEOUT_SECS: u64 = 30;

/// What the `Debug` of `str` writes for a text.
pub uninterp spec fn debug_text_of(text: Seq<char>) -> Seq<char>;

/// Writes a text with the `Debug` of `str`, in quotes and escaped. The result is named by the text.
#[verifier::external_body]
fn debug_text(text: &str) -> (r: String)
    ensures
        r@ == debug_text_of(text@),
{
    format!("{text:?}")
}

/// The error of a worker that cannot be started, by how its executable is written.
pub fn worker_start_error_as(quoted: &str, err: &str) -> (r: PluginError)
    ensures
        r@ == (
            PluginErrorKind::RegistrationFailed,
            "failed to start NeMo Guardrails local Python worker with "@ + quoted@ + ": "@ + err@,
        ),
{
    PluginError::RegistrationFailed(
        concat4("failed to start NeMo Guardrails local Python worker with ", quoted, ": ", err),
    )
}

/// The error of a worker that cannot be started.
pub fn worker_start_error(python: &str, err: &str) -> (r: PluginError)
    ensures
        r@ == (
            PluginErrorKind::RegistrationFailed,
            "failed to start NeMo Guardrails local Python worker with "@ + debug_text_of(python@)
                + ": "@ + err@,
        ),
{
    worker_start_error_as(debug_text(python).as_str(), err)
}

/// The error of a worker whose pipe (`stdin` or `stdout`) is missing.
pub fn worker_pipe_error(pipe: &str) -> (r: PluginError)
    ensures
        r@ == (
            PluginErrorKind::RegistrationFailed,
            "failed to open "@ + pipe@ + " for NeMo Guardrails local Python worker"@,
        ),
{
    PluginError::RegistrationFailed(
        concat3("failed to open ", pipe, " for NeMo Guardrails local Python worker"),
    )
}

/// An answer of the worker, or an event of one of its streams.
pub struct LocalWorkerEnvelope {
    /// Identifier of the command or stream.
    pub id: String,
    /// Whether the command succeeded.
    pub ok: bool,
    /// Result of the command.
    pub result: Option<Json>,
    /// Why the command failed.
    pub error: Option<String>,
    /// Name of the event, where it is one.
    pub event: Option<String>,
    /// Text of the event.
    pub message: Option<String>,
}

/// The text of an error, or a text for an error without one.
pub open spec fn error_or(error: Option<String>, fallback: Seq<char>) -> Seq<char> {
    match error {
        Some(text) => text@,
        None => fallback,
    }
}

/// The text of an error, or a text for an error without one.
pub fn error_text_or(error: Option<String>, fallback: &str) -> (r: String)
    ensures
        r@ == error_or(error, fallback@),
{
    match error {
        Some(text) => text,
        None => fallback.to_owned(),
    }
}

/// What an answer means.
pub open spec fn answer_view(envelope: LocalWorkerEnvelope) -> Result<JsonView, FlowErrorView> {
    if envelope.ok {
        match envelope.result {
            Some(result) => Ok(json_view(result)),
            None => Ok(JsonView::Null),
        }
    } else {
        Err(
            (
                FlowErrorKind::Internal,
                error_or(envelope.error, "NeMo Guardrails local Python worker failed"@),
            ),
        )
    }
}

/// Reads an answer.
pub fn worker_result(envelope: LocalWorkerEnvelope) -> (r: Result<Json, FlowError>)
    ensures
        result_view(r) == answer_view(envelope),
{
    if envelope.ok {
        match envelope.result {
            Some(result) => Ok(result),
            None => Ok(Json::Null),
        }
    } else {
        Err(
            FlowError::internal(
                error_text_or(envelope.error, "NeMo Guardrails local Python worker failed"),
            ),
        )
    }
}

/// The command that a worker is started with.
pub fn init_command(config: &NeMoGuardrailsConfig) -> (r: Json)
    ensures
        json_view(r) == JsonView::Object(
            map![
                "command"@ => JsonView::Text("init"@),
                "config"@ => JsonView::Object(config_json(*config)),
            ],
        ),
{
    object2("command", text_json("init"), "config", Json::Object(config_object(config)))
}

/// Why a worker did not start, by its answer or by how the error of asking is shown.
pub open spec fn init_problem(answer: Result<LocalWorkerEnvelope, String>) -> Option<ErrorView> {
    match answer {
        Err(shown) => Some((PluginErrorKind::RegistrationFailed, shown@)),
        Ok(envelope) => if envelope.ok {
            None
        } else {
            Some(
                (
                    PluginErrorKind::RegistrationFailed,
                    error_or(envelope.error, "NeMo Guardrails local Python worker failed"@),
                ),
            )
        },
    }
}

/// Takes the answer to the command that a worker is started with.
pub fn accept_init(answer: Result<LocalWorkerEnvelope, String>) -> (r: Result<(), PluginError>)
    ensures
        failure(r) == init_problem(answer),
{
    match answer {
        Err(shown) => Err(PluginError::RegistrationFailed(shown)),
        Ok(envelope) => if envelope.ok {
            Ok(())
        } else {
            Err(
                PluginError::RegistrationFailed(
                    error_text_or(envelope.error, "NeMo Guardrails local Python worker failed"),
                ),
            )
        },
    }
}

/// The error of a worker that gives no first answer.
pub fn worker_silent_error(err: &str) -> (r: FlowError)
    ensures
        r@ == (FlowErrorKind::Internal, "worker did not initialize: "@ + err@),
{
    FlowError::internal(concat2("worker did not initialize: ", err))
}

/// What came of waiting for an answer.
pub enum WorkerReply {
    /// The task that waited failed.
    TaskFailed(String),
    /// The channel of the answer is gone.
    ChannelClosed(String),
    /// No answer came in time.
    TimedOut,
    /// The answer.
    Answered(LocalWorkerEnvelope),
}

/// What a command came to, by what came of waiting and the seconds it was waited for.
pub open spec fn reply_view(reply: WorkerReply, seconds: u64) -> Result<JsonView, FlowErrorView> {
    match reply {
        WorkerReply::TaskFailed(err) => Err(
            (FlowErrorKind::Internal, "worker response task failed: "@ + err@),
        ),
        WorkerReply::ChannelClosed(err) => Err(
            (FlowErrorKind::Internal, "worker response channel closed: "@ + err@),
        ),
        WorkerReply::TimedOut => Err(
            (
                FlowErrorKind::Internal,
                "worker request timed out after "@ + decimal(seconds as nat) + " seconds"@,
            ),
        ),
        WorkerReply::Answered(envelope) => answer_view(envelope),
    }
}

/// Takes what came of waiting for an answer: what the command came to, and whether the worker has to be
/// shut down.
pub fn finish_request(reply: WorkerReply, seconds: u64) -> (r: (Result<Json, FlowError>, bool))
    ensures
        result_view(r.0) == reply_view(reply, seconds),
        r.1 == (reply is TimedOut),
{
    match reply {
        WorkerReply::TaskFailed(err) => (
            Err(FlowError::internal(concat2("worker response task failed: ", err.as_str()))),
            false,
        ),
        WorkerReply::ChannelClosed(err) => (
            Err(FlowError::internal(concat2("worker response channel closed: ", err.as_str()))),
            false,
        ),
        WorkerReply::TimedOut => {
            let shown = format_u64(seconds);
            (
                Err(
                    FlowError::internal(
                        concat3("worker request timed out after ", shown.as_str(), " seconds"),
                    ),
                ),
                true,
            )
        },
        WorkerReply::Answered(envelope) => (worker_result(envelope), false),
    }
}

/// A command that is ready to be written.
pub struct WorkerCommand {
    /// Identifier of the command.
    pub id: String,
    /// The line that is written.
    pub line: String,
}

/// Who an answer goes to.
#[derive(Clone, Copy, Debug, PartialEq, Eq, Structural)]
pub enum EnvelopeTarget {
    /// The stream with its identifier.
    Stream,
    /// The command with its identifier.
    Waiter,
    /// Nobody.
    Nobody,
}

/// The commands and streams of a running worker.
pub struct LocalGuardrailsWorker {
    /// Whether commands can be written.
    pub writer_open: bool,
    /// Why an earlier command could not be written.
    pub writer_error: Option<String>,
    /// Commands that wait for an answer, by identifier.
    pub waiters: TextMap<()>,
    /// Streams that take events, by identifier.
    pub streams: TextMap<()>,
    /// Number of the next command.
    pub next_id: u64,
    /// Whether the worker is being shut down.
    pub shutdown_started: bool,
}

/// Number of the command after a given one.
pub open spec fn id_after(id: u64) -> u64 {
    if id == u64::MAX {
        0
    } else {
        (id + 1) as u64
    }
}

/// Why a command cannot be written.
pub open spec fn write_problem(worker: LocalGuardrailsWorker) -> Option<FlowErrorView> {
    if !worker.writer_open {
        internal("worker command writer is closed"@)
    } else {
        match worker.writer_error {
            Some(error) => internal("failed to write worker command: "@ + error@),
            None => None,
        }
    }
}

/// A payload with an identifier.
pub open spec fn with_id(payload: JsonView, id: Seq<char>) -> JsonView {
    match payload {
        JsonView::Object(object) => JsonView::Object(object.insert("id"@, JsonView::Text(id))),
        _ => payload,
    }
}

/// Why a command cannot be sent.
pub open spec fn request_problem(worker: LocalGuardrailsWorker, payload: JsonView) -> Option<
    FlowErrorView,
> {
    if !(payload is Object) {
        internal("worker command payload must be a JSON object"@)
    } else {
        write_problem(worker)
    }
}

/// The command that starts a stream.
pub open spec fn stream_start_json(id: Seq<char>, messages: Seq<JsonView>) -> JsonView {
    JsonView::Object(
        map![
            "id"@ => JsonView::Text(id),
            "command"@ => JsonView::Text("stream_start"@),
            "messages"@ => JsonView::Array(messages),
        ],
    )
}

/// The command that hands a stream its next text.
pub open spec fn stream_text_json(id: Seq<char>, text: Seq<char>) -> JsonView {
    JsonView::Object(
        map![
            "id"@ => JsonView::Text(id),
            "command"@ => JsonView::Text("stream_text"@),
            "text"@ => JsonView::Text(text),
        ],
    )
}

/// The command that ends a stream.
pub open spec fn stream_end_json(id: Seq<char>) -> JsonView {
    JsonView::Object(
        map!["id"@ => JsonView::Text(id), "command"@ => JsonView::Text("stream_end"@)],
    )
}

/// What somebody who waits is told when the worker is gone.
pub open spec fn closed_envelope(
    envelope: LocalWorkerEnvelope,
    id: Seq<char>,
    message: Seq<char>,
    event: Option<Seq<char>>,
) -> bool {
    &&& envelope.id@ == id
    &&& !envelope.ok
    &&& envelope.result is None
    &&& opt_text(envelope.error) == Some(message)
    &&& opt_text(envelope.event) == event
    &&& envelope.message is None
}

/// Whether envelopes tell every one of some identifiers, in order, that the worker is gone.
pub open spec fn tells_all(
    envelopes: Seq<LocalWorkerEnvelope>,
    ids: Seq<Seq<char>>,
    message: Seq<char>,
    event: Option<Seq<char>>,
) -> bool {
    &&& envelopes.len() == ids.len()
    &&& forall|i: int|
        0 <= i < ids.len() ==> closed_envelope(#[trigger] envelopes[i], ids[i], message, event)
}

/// The envelopes that tell identifiers that the worker is gone.
fn closing_envelopes(ids: &TextMap<()>, message: &str, event: Option<String>) -> (r: Vec<
    LocalWorkerEnvelope,
>)
    ensures
        tells_all(r@, entry_keys(ids.entries@), message@, opt_text(event)),
{
    let mut out: Vec<LocalWorkerEnvelope> = Vec::new();
    let mut i: usize = 0;
    let ghost keys = entry_keys(ids.entries@);
    while i < ids.entries.len()
        invariant
            i <= ids.entries.len(),
            keys == entry_keys(ids.entries@),
            out.len() == i,
            forall|k: int|
                0 <= k < i ==> closed_envelope(
                    #[trigger] out@[k],
                    keys[k],
                    message@,
                    opt_text(event),
                ),
        decreases ids.entries.len() - i,
    {
        out.push(
            LocalWorkerEnvelope {
                id: ids.entries[i].0.clone(),
                ok: false,
                result: None,
                error: Some(message.to_owned()),
                event: clone_opt(&event),
                message: None,
            },
        );
        i += 1;
    }
    out
}

impl LocalGuardrailsWorker {
    /// A worker that has just been started.
    pub fn new() -> (r: Self)
        ensures
            r.writer_open,
            r.writer_error is None,
            r.waiters@ == Map::<Seq<char>, ()>::empty(),
            r.streams@ == Map::<Seq<char>, ()>::empty(),
            r.next_id == 1,
            !r.shutdown_started,
    {
        LocalGuardrailsWorker {
            writer_open: true,
            writer_error: None,
            waiters: TextMap::new(),
            streams: TextMap::new(),
            next_id: 1,
            shutdown_started: false,
        }
    }

    /// Takes the number of the next command.
    fn next_request_id(&mut self) -> (r: String)
        ensures
            r@ == decimal(old(self).next_id as nat),
            *final(self) == (LocalGuardrailsWorker {
                next_id: id_after(old(self).next_id),
                ..*old(self)
            }),
    {
        let id = self.next_id;
        self.next_id =
        if id == u64::MAX {
            0
        } else {
            id + 1
        };
        format_u64(id)
    }

    /// The line that a command is written as, or why it cannot be written.
    pub fn write_command(&self, payload: &Json) -> (r: Result<String, FlowError>)
        ensures
            flow_failure(r) == write_problem(*self),
            r matches Ok(line) ==> line@ == json_text_of(json_view(*payload)),
    {
        if !self.writer_open {
            return Err(FlowError::internal("worker command writer is closed".to_owned()));
        }
        match &self.writer_error {
            Some(error) => Err(
                FlowError::internal(concat2("failed to write worker command: ", error.as_str())),
            ),
            None => Ok(json_text(payload)),
        }
    }

    /// Gives a command its identifier and makes it wait for an answer.
    ///
    /// A command that cannot be written does not wait.
    pub fn begin_request(&mut self, payload: Json) -> (r: Result<WorkerCommand, FlowError>)
        ensures
            flow_failure(r) == request_problem(*old(self), json_view(payload)),
            r matches Ok(command) ==> command.id@ == decimal(old(self).next_id as nat)
                && command.line@ == json_text_of(
                with_id(json_view(payload), decimal(old(self).next_id as nat)),
            ) && final(self).waiters@ == old(self).waiters@.insert(command.id@, ()),
            r is Err && json_view(payload) is Object ==> final(self).waiters@
                == old(self).waiters@.remove(decimal(old(self).next_id as nat)),
            !(json_view(payload) is Object) ==> final(self).waiters == old(self).waiters,
            *final(self) == (LocalGuardrailsWorker {
                next_id: id_after(old(self).next_id),
                waiters: final(self).waiters,
                ..*old(self)
            }),
    {
        let id = self.next_request_id();
        let mut object = match payload {
            Json::Object(object) => object,
            _ => {
                return Err(
                    FlowError::internal(
                        "worker command payload must be a JSON object".to_owned(),
                    ),
                );
            },
        };
        put(&mut object, "id", text_json(id.as_str()));
        self.waiters.insert(id.clone(), ());
        match self.write_command(&Json::Object(object)) {
            Ok(line) => Ok(WorkerCommand { id, line }),
            Err(e) => {
                let _ = self.waiters.remove(id.as_str());
                assert(self.waiters@ =~= old(self).waiters@.remove(id@));
                Err(e)
            },
        }
    }

    /// Takes back a command that the writer no longer took.
    pub fn abandon_request(&mut self, id: &str, err: &str) -> (r: FlowError)
        ensures
            r@ == (FlowErrorKind::Internal, "worker command writer channel closed: "@ + err@),
            final(self).waiters@ == old(self).waiters@.remove(id@),
            *final(self) == (LocalGuardrailsWorker {
                waiters: final(self).waiters,
                ..*old(self)
            }),
    {
        let _ = self.waiters.remove(id);
        FlowError::internal(concat2("worker command writer channel closed: ", err))
    }

    /// Starts a stream that takes events.
    ///
    /// A stream whose command cannot be written takes none.
    pub fn start_stream(&mut self, messages: Vec<Json>) -> (r: Result<WorkerCommand, FlowError>)
        ensures
            flow_failure(r) == write_problem(*old(self)),
            r matches Ok(command) ==> command.id@ == decimal(old(self).next_id as nat)
                && command.line@ == json_text_of(
                stream_start_json(decimal(old(self).next_id as nat), array_view(messages@)),
            ) && final(self).streams@ == old(self).streams@.insert(command.id@, ()),
            r is Err ==> final(self).streams@ == old(self).streams@.remove(
                decimal(old(self).next_id as nat),
            ),
            *final(self) == (LocalGuardrailsWorker {
                next_id: id_after(old(self).next_id),
                streams: final(self).streams,
                ..*old(self)
            }),
    {
        let id = self.next_request_id();
        self.streams.insert(id.clone(), ());
        let payload = object3(
            "id",
            text_json(id.as_str()),
            "command",
            text_json("stream_start"),
            "messages",
            Json::Array(messages),
        );
        match self.write_command(&payload) {
            Ok(line) => Ok(WorkerCommand { id, line }),
            Err(e) => {
                self.forget_stream(id.as_str());
                assert(self.streams@ =~= old(self).streams@.remove(id@));
                Err(e)
            },
        }
    }

    /// The line that hands a stream its next text.
    pub fn send_stream_text(&self, id: &str, text: &str) -> (r: Result<String, FlowError>)
        ensures
            flow_failure(r) == write_problem(*self),
            r matches Ok(line) ==> line@ == json_text_of(stream_text_json(id@, text@)),
    {
        self.write_command(
            &object3(
                "id",
                text_json(id),
                "command",
                text_json("stream_text"),
                "text",
                text_json(text),
            ),
        )
    }

    /// The line that ends a stream.
    pub fn send_stream_end(&self, id: &str) -> (r: Result<String, FlowError>)
        ensures
            flow_failure(r) == write_problem(*self),
            r matches Ok(line) ==> line@ == json_text_of(stream_end_json(id@)),
    {
        self.write_command(&object2("id", text_json(id), "command", text_json("stream_end")))
    }

    /// Makes a stream take no more events.
    pub fn forget_stream(&mut self, id: &str)
        ensures
            final(self).streams@ == old(self).streams@.remove(id@),
            *final(self) == (LocalGuardrailsWorker {
                streams: final(self).streams,
                ..*old(self)
            }),
    {
        let _ = self.streams.remove(id);
    }

    /// Decides who an answer goes to. A command is answered once; a stream stays.
    pub fn dispatch(&mut self, envelope: &LocalWorkerEnvelope) -> (r: EnvelopeTarget)
        ensures
            r == target_of(*old(self), *envelope),
            final(self).waiters@ == if envelope.event is None {
                old(self).waiters@.remove(envelope.id@)
            } else {
                old(self).waiters@
            },
            *final(self) == (LocalGuardrailsWorker {
                waiters: final(self).waiters,
                ..*old(self)
            }),
    {
        if envelope.event.is_some() {
            if self.streams.contains_key(envelope.id.as_str()) {
                EnvelopeTarget::Stream
            } else {
                EnvelopeTarget::Nobody
            }
        } else if self.waiters.remove(envelope.id.as_str()).is_some() {
            EnvelopeTarget::Waiter
        } else {
            EnvelopeTarget::Nobody
        }
    }

    /// Tells every command and every stream that the worker is gone; none of them waits any longer.
    pub fn notify_closed(&mut self, message: &str) -> (r: (
        Vec<LocalWorkerEnvelope>,
        Vec<LocalWorkerEnvelope>,
    ))
        ensures
            tells_all(r.0@, entry_keys(old(self).waiters.entries@), message@, None),
            tells_all(r.1@, entry_keys(old(self).streams.entries@), message@, Some("error"@)),
            final(self).waiters@ == Map::<Seq<char>, ()>::empty(),
            final(self).streams@ == Map::<Seq<char>, ()>::empty(),
            *final(self) == (LocalGuardrailsWorker {
                waiters: final(self).waiters,
                streams: final(self).streams,
                ..*old(self)
            }),
    {
        let answers = closing_envelopes(&self.waiters, message, None);
        let events = closing_envelopes(&self.streams, message, Some("error".to_owned()));
        self.waiters = TextMap::new();
        self.streams = TextMap::new();
        (answers, events)
    }

    /// Starts the shutdown, once: whether the process has to be stopped now. No command is written
    /// afterwards.
    pub fn begin_shutdown(&mut self) -> (r: bool)
        ensures
            r == !old(self).shutdown_started,
            *final(self) == if old(self).shutdown_started {
                *old(self)
            } else {
                LocalGuardrailsWorker {
                    shutdown_started: true,
                    writer_open: false,
                    ..*old(self)
                }
            },
    {
        if self.shutdown_started {
            return false;
        }
        self.shutdown_started = true;
        self.writer_open = false;
        true
    }
}

/// Who an answer goes to.
pub open spec fn target_of(
    worker: LocalGuardrailsWorker,
    envelope: LocalWorkerEnvelope,
) -> EnvelopeTarget {
    if envelope.event is Some {
        if worker.streams@.contains_key(envelope.id@) {
            EnvelopeTarget::Stream
        } else {
            EnvelopeTarget::Nobody
        }
    } else if worker.waiters@.contains_key(envelope.id@) {
        EnvelopeTarget::Waiter
    } else {
        EnvelopeTarget::Nobody
    }
}

/// What was read from the worker's output.
pub enum WorkerRead {
    /// A line, with what it decodes to.
    Line {
        /// The line.
        text: String,
        /// What it decodes to.
        decoded: Result<LocalWorkerEnvelope, String>,
    },
    /// Reading failed.
    Failed(String),
    /// The output ended.
    Ended,
}

/// What to do with what was read.
pub enum ReadStep {
    /// Nothing.
    Skip,
    /// Hand the answer on.
    Dispatch(LocalWorkerEnvelope),
    /// Stop reading: the worker is gone, for the given reason.
    Close(String),
}

/// Whether a step is the one for what was read.
pub open spec fn read_step(read: WorkerRead, step: ReadStep) -> bool {
    match read {
        WorkerRead::Line { text, decoded } => if blank(text@) {
            step is Skip
        } else {
            match decoded {
                Ok(envelope) => step == ReadStep::Dispatch(envelope),
                Err(shown) => closes_with(step, "invalid worker response: "@ + shown@),
            }
        },
        WorkerRead::Failed(err) => closes_with(step, err@),
        WorkerRead::Ended => closes_with(step, "worker exited"@),
    }
}

/// Whether a step stops the reading for a reason.
pub open spec fn closes_with(step: ReadStep, reason: Seq<char>) -> bool {
    match step {
        ReadStep::Close(text) => text@ == reason,
        _ => false,
    }
}

/// Decides what to do with what was read from the worker's output.
pub fn react_to_read(read: WorkerRead) -> (r: ReadStep)
    ensures
        read_step(read, r),
{
    match read {
        WorkerRead::Line { text, decoded } => {
            if is_blank(text.as_str()) {
                return ReadStep::Skip;
            }
            match decoded {
                Ok(envelope) => ReadStep::Dispatch(envelope),
                Err(shown) => ReadStep::Close(
                    concat2("invalid worker response: ", shown.as_str()),
                ),
            }
        },
        WorkerRead::Failed(err) => ReadStep::Close(err),
        WorkerRead::Ended => ReadStep::Close("worker exited".to_owned()),
    }
}

/// A command is answered at most once: after its answer, another one with its identifier goes to
/// nobody.
pub proof fn law_command_is_answered_once(
    before: LocalGuardrailsWorker,
    after: LocalGuardrailsWorker,
    envelope: LocalWorkerEnvelope,
)
    requires
        envelope.event is None,
        after.waiters@ == before.waiters@.remove(envelope.id@),
    ensures
        target_of(after, envelope) == EnvelopeTarget::Nobody,
{
}

/// When a worker has been shut down, no command can be written.
pub proof fn law_nothing_is_written_after_shutdown(
    before: LocalGuardrailsWorker,
    after: LocalGuardrailsWorker,
    payload: JsonView,
)
    requires
        !before.shutdown_started,
        after == (LocalGuardrailsWorker {
            shutdown_started: true,
            writer_open: false,
            ..before
        }),
    ensures
        write_problem(after) is Some,
        request_problem(after, payload) is Some,
{
}

/// An answer of the worker is its result where it says that all went well, and else an error with
/// the worker's text or the usual one.
pub proof fn law_worker_answers_are_taken(
    envelope: LocalWorkerEnvelope,
    text: String,
    fallback: Seq<char>,
    seconds: u64,
)
    ensures
        envelope.ok && envelope.result is Some ==> answer_view(envelope) == Ok::<
            JsonView,
            FlowErrorView,
        >(json_view(envelope.result->0)),
        envelope.ok && envelope.result is None ==> answer_view(envelope) == Ok::<
            JsonView,
            FlowErrorView,
        >(JsonView::Null),
        !envelope.ok && envelope.error is Some ==> answer_view(envelope) == Err::<
            JsonView,
            FlowErrorView,
        >((FlowErrorKind::Internal, envelope.error->0@)),
        !envelope.ok && envelope.error is None ==> answer_view(envelope) == Err::<
            JsonView,
            FlowErrorView,
        >((FlowErrorKind::Internal, "NeMo Guardrails local Python worker failed"@)),
        error_or(Some(text), fallback) == text@,
        error_or(None, fallback) == fallback,
        init_problem(Ok(envelope)) is None <==> envelope.ok,
        init_problem(Err(text)) == Some((PluginErrorKind::RegistrationFailed, text@)),
        !envelope.ok && envelope.error is Some ==> init_problem(Ok(envelope)) == Some(
            (PluginErrorKind::RegistrationFailed, envelope.error->0@),
        ),
        reply_view(WorkerReply::Answered(envelope), seconds) == answer_view(envelope),
        reply_view(WorkerReply::TimedOut, seconds) == Err::<JsonView, FlowErrorView>(
            (
                FlowErrorKind::Internal,
                "worker request timed out after "@ + decimal(seconds as nat) + " seconds"@,
            ),
        ),
        reply_view(WorkerReply::ChannelClosed(text), seconds) == Err::<JsonView, FlowErrorView>(
            (FlowErrorKind::Internal, "worker response channel closed: "@ + text@),
        ),
        reply_view(WorkerReply::TaskFailed(text), seconds) == Err::<JsonView, FlowErrorView>(
            (FlowErrorKind::Internal, "worker response task failed: "@ + text@),
        ),
        WORKER_INIT_TIMEOUT_SECS == 30,
        WORKER_RPC_TIMEOUT_SECS == 30,
{
}

/// Commands are objects, and are written while the worker's input is open and works. Each carries
/// the identifier that its answer comes under; identifiers count up and start over at the end.
pub proof fn law_commands_carry_their_identifier(
    worker: LocalGuardrailsWorker,
    payload: JsonView,
    id: Seq<char>,
    key: Seq<char>,
    number: u64,
)
    ensures
        write_problem(worker) is None <==> worker.writer_open && worker.writer_error is None,
        !worker.writer_open ==> write_problem(worker) == Some(
            (FlowErrorKind::Internal, "worker command writer is closed"@),
        ),
        worker.writer_open && worker.writer_error is Some ==> write_problem(worker) == Some(
            (
                FlowErrorKind::Internal,
                "failed to write worker command: "@ + worker.writer_error->0@,
            ),
        ),
        request_problem(worker, payload) is None <==> payload is Object && worker.writer_open
            && worker.writer_error is None,
        !(payload is Object) ==> request_problem(worker, payload) == Some(
            (FlowErrorKind::Internal, "worker command payload must be a JSON object"@),
        ),
        payload is Object ==> crate::json::field(with_id(payload, id), "id"@) == Some(
            JsonView::Text(id),
        ),
        payload is Object && key != "id"@ ==> crate::json::field(with_id(payload, id), key)
            == crate::json::field(payload, key),
        number < u64::MAX ==> id_after(number) == number + 1,
        id_after(u64::MAX) == 0,
{
}

/// The commands that steer the watch over a stream.
pub proof fn law_stream_commands_name_their_stream(
    id: Seq<char>,
    text: Seq<char>,
    messages: Seq<JsonView>,
)
    ensures
        crate::json::field(stream_start_json(id, messages), "id"@) == Some(JsonView::Text(id)),
        crate::json::field(stream_start_json(id, messages), "command"@) == Some(
            JsonView::Text("stream_start"@),
        ),
        crate::json::field(stream_start_json(id, messages), "messages"@) == Some(
            JsonView::Array(messages),
        ),
        crate::json::field(stream_text_json(id, text), "id"@) == Some(JsonView::Text(id)),
        crate::json::field(stream_text_json(id, text), "command"@) == Some(
            JsonView::Text("stream_text"@),
        ),
        crate::json::field(stream_text_json(id, text), "text"@) == Some(JsonView::Text(text)),
        crate::json::field(stream_end_json(id), "id"@) == Some(JsonView::Text(id)),
        crate::json::field(stream_end_json(id), "command"@) == Some(JsonView::Text("stream_end"@)),
{
    reveal_strlit("id");
    reveal_strlit("command");
    reveal_strlit("messages");
    reveal_strlit("text");
    assert("id"@.len() == 2 && "command"@.len() == 7 && "messages"@.len() == 8 && "text"@.len()
        == 4);
}

/// Events go to the stream of their identifier, other answers to whoever waits for it, and what
/// nobody waits for is dropped.
pub proof fn law_answers_reach_who_waits(
    worker: LocalGuardrailsWorker,
    envelope: LocalWorkerEnvelope,
)
    ensures
        target_of(worker, envelope) is Stream <==> envelope.event is Some
            && worker.streams@.contains_key(envelope.id@),
        target_of(worker, envelope) is Waiter <==> envelope.event is None
            && worker.waiters@.contains_key(envelope.id@),
{
}

/// Everybody who still waits when the worker closes is told so, under the own identifier.
pub proof fn law_closing_is_told_to_all(
    envelopes: Seq<LocalWorkerEnvelope>,
    ids: Seq<Seq<char>>,
    message: Seq<char>,
    event: Option<Seq<char>>,
    i: int,
)
    requires
        tells_all(envelopes, ids, message, event),
        0 <= i < ids.len(),
    ensures
        envelopes.len() == ids.len(),
        envelopes[i].id@ == ids[i],
        !envelopes[i].ok,
        envelopes[i].error is Some && envelopes[i].error->0@ == message,
        envelopes[i].result is None,
        envelopes[i].message is None,
        opt_text(envelopes[i].event) == event,
{
    assert(closed_envelope(envelopes[i], ids[i], message, event));
}

/// What is read from the worker: blank lines are skipped, answers dispatched, and anything that
/// cannot be read closes the exchange with the reason.
pub proof fn law_worker_lines_are_read(
    text: String,
    envelope: LocalWorkerEnvelope,
    shown: String,
    decoded: Result<LocalWorkerEnvelope, String>,
    step: ReadStep,
)
    ensures
        blank(text@) ==> (read_step(WorkerRead::Line { text, decoded }, step) <==> step is Skip),
        !blank(text@) ==> (read_step(WorkerRead::Line { text, decoded: Ok(envelope) }, step)
            <==> step == ReadStep::Dispatch(envelope)),
        !blank(text@) ==> (read_step(WorkerRead::Line { text, decoded: Err(shown) }, step)
            <==> step is Close && step->Close_0@ == "invalid worker response: "@ + shown@),
        read_step(WorkerRead::Failed(shown), step) <==> step is Close && step->Close_0@ == shown@,
        read_step(WorkerRead::Ended, step) <==> step is Close && step->Close_0@ == "worker exited"@,
{
}

} // verus!
