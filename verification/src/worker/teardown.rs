//! Teardown of a worker: what the host does, in order, and what it notes.
//!
//! The host makes the shutdown call, stops its service, ends the process and removes the
//! activation directory; each outcome is handed to [`WorkerTeardown::take`].

use vstd::prelude::*;

use crate::dynamic::teardown::DynamicPluginTeardownOutcome;
use crate::worker::process::{
    after_failed_kill, after_kill, after_process_status, after_wait, begin_worker_teardown,
    failed_kill_step, kill_step,
    may_remove_directory, note_directory_removal, note_host_stop, note_shutdown_rpc, status_step,
    takes, wait_step, worker_text, HostStop, ProcessStatus, ProcessStep, ShutdownRpc,
    TeardownNote,
};

verus! {

/// What the host does next while a worker is torn down.
pub enum TeardownStage {
    /// Tell the worker to shut down.
    Shutdown,
    /// Tell the host service to stop.
    Host,
    /// Look at the process.
    Status,
    /// Kill the process.
    Kill,
    /// Look at the process again, as killing it failed for the given reason.
    Recheck(String),
    /// Wait for the process, as it was killed.
    Wait,
    /// Remove the activation directory.
    Directory,
    /// Nothing more.
    Over,
}

/// Something that happens while a worker is torn down.
pub enum TeardownEvent {
    /// What the shutdown call came to.
    Shutdown(ShutdownRpc),
    /// What telling the host service came to.
    Host(HostStop),
    /// What was found of the process.
    Status(ProcessStatus),
    /// What killing the process came to.
    Killed(Result<(), String>),
    /// Whether the process that could not be killed exited.
    Exited(bool),
    /// What waiting for the process came to.
    Waited(Result<(), String>),
    /// The error of removing the directory; a directory that is gone already is none.
    Removed(Option<String>),
}

/// The teardown of one worker.
pub struct WorkerTeardown {
    /// Plugin kind.
    pub plugin_kind: String,
    /// Activation directory.
    pub directory: String,
    /// What is noted.
    pub outcome: DynamicPluginTeardownOutcome,
    /// Whether the process is gone and can be let go.
    pub released: bool,
    /// What is done next.
    pub stage: TeardownStage,
}

/// What a text is in an outcome of a system call.
pub open spec fn outcome_text(outcome: Result<(), String>) -> Result<(), Seq<char>> {
    match outcome {
        Ok(()) => Ok(()),
        Err(e) => Err(e@),
    }
}

/// Whether a stage waits for an event.
pub open spec fn expects(stage: TeardownStage, event: TeardownEvent) -> bool {
    match event {
        TeardownEvent::Shutdown(_) => stage is Shutdown,
        TeardownEvent::Host(_) => stage is Host,
        TeardownEvent::Status(_) => stage is Status,
        TeardownEvent::Killed(_) => stage is Kill,
        TeardownEvent::Exited(_) => stage is Recheck,
        TeardownEvent::Waited(_) => stage is Wait,
        TeardownEvent::Removed(_) => stage is Directory,
    }
}

/// What is noted of an expected event.
pub open spec fn teardown_note(teardown: WorkerTeardown, event: TeardownEvent) -> Option<
    TeardownNote,
> {
    let kind = teardown.plugin_kind@;
    match event {
        TeardownEvent::Shutdown(rpc) => match rpc {
            ShutdownRpc::Done => None,
            ShutdownRpc::Failed(e) => Some((worker_text(kind, "shutdown RPC failed: "@, e@), true)),
            ShutdownRpc::Panicked(p) => Some(
                (worker_text(kind, "shutdown RPC panicked: "@, p@), true),
            ),
        },
        TeardownEvent::Host(stop) => match stop {
            HostStop::Told => None,
            HostStop::Closed => Some(
                (worker_text(kind, "host runtime shutdown channel was closed"@, ""@), true),
            ),
            HostStop::Poisoned(e) => Some(
                (worker_text(kind, "host runtime shutdown lock poisoned: "@, e@), true),
            ),
        },
        TeardownEvent::Status(status) => status_step(kind, status).1,
        TeardownEvent::Killed(_) => None,
        TeardownEvent::Exited(exited) => failed_kill_step(
            kind,
            teardown.stage->Recheck_0@,
            exited,
        ).1,
        TeardownEvent::Waited(waited) => wait_step(kind, outcome_text(waited)).1,
        TeardownEvent::Removed(error) => match error {
            None => None,
            Some(e) => Some(
                (
                    worker_text(
                        kind,
                        "activation directory cleanup failed for '"@,
                        teardown.directory@ + "': "@ + e@,
                    ),
                    true,
                ),
            ),
        },
    }
}

/// What an expected event says about the process: what to do about it next, where it is about
/// the process at all.
pub open spec fn process_step(teardown: WorkerTeardown, event: TeardownEvent) -> Option<
    ProcessStep,
> {
    let kind = teardown.plugin_kind@;
    match event {
        TeardownEvent::Status(status) => Some(status_step(kind, status).0),
        TeardownEvent::Killed(killed) => Some(kill_step(killed is Ok)),
        TeardownEvent::Exited(exited) => Some(
            failed_kill_step(kind, teardown.stage->Recheck_0@, exited).0,
        ),
        TeardownEvent::Waited(waited) => Some(wait_step(kind, outcome_text(waited)).0),
        _ => None,
    }
}

/// The stage after an expected event. `safe` is whether nothing of the worker can run.
pub open spec fn next_stage(
    teardown: WorkerTeardown,
    event: TeardownEvent,
    safe: bool,
) -> TeardownStage {
    match event {
        TeardownEvent::Shutdown(_) => TeardownStage::Host,
        TeardownEvent::Host(_) => TeardownStage::Status,
        TeardownEvent::Removed(_) => TeardownStage::Over,
        TeardownEvent::Killed(Err(e)) => TeardownStage::Recheck(e),
        _ => match process_step(teardown, event)->0 {
            ProcessStep::Kill => TeardownStage::Kill,
            ProcessStep::Wait => TeardownStage::Wait,
            _ => if safe {
                TeardownStage::Directory
            } else {
                TeardownStage::Over
            },
        },
    }
}

/// What an event leads to. An event that was not expected changes nothing.
pub open spec fn teardown_moves(
    before: WorkerTeardown,
    event: TeardownEvent,
    after: WorkerTeardown,
) -> bool {
    if !expects(before.stage, event) {
        after == before
    } else {
        &&& takes(before.outcome, after.outcome, teardown_note(before, event))
        &&& after.stage == next_stage(before, event, after.outcome.safe_to_unload)
        &&& after.released == (before.released || process_step(before, event) == Some(
            ProcessStep::Release,
        ))
        &&& after.plugin_kind == before.plugin_kind
        &&& after.directory == before.directory
    }
}

/// How many stages may still follow.
pub open spec fn stages_left(stage: TeardownStage) -> nat {
    match stage {
        TeardownStage::Shutdown => 6,
        TeardownStage::Host => 5,
        TeardownStage::Status => 4,
        TeardownStage::Kill => 3,
        TeardownStage::Recheck(_) => 2,
        TeardownStage::Wait => 2,
        TeardownStage::Directory => 1,
        TeardownStage::Over => 0,
    }
}

/// The stage that follows what is to be done about a process.
fn after_step(step: ProcessStep, outcome: &DynamicPluginTeardownOutcome) -> (r: TeardownStage)
    ensures
        r == match step {
            ProcessStep::Kill => TeardownStage::Kill,
            ProcessStep::Wait => TeardownStage::Wait,
            _ => if outcome.safe_to_unload {
                TeardownStage::Directory
            } else {
                TeardownStage::Over
            },
        },
{
    match step {
        ProcessStep::Kill => TeardownStage::Kill,
        ProcessStep::Wait => TeardownStage::Wait,
        _ => if may_remove_directory(outcome) {
            TeardownStage::Directory
        } else {
            TeardownStage::Over
        },
    }
}

/// Whether a process can be let go.
fn lets_go(step: ProcessStep) -> (r: bool)
    ensures
        r == (step == ProcessStep::Release),
{
    match step {
        ProcessStep::Release => true,
        _ => false,
    }
}

impl WorkerTeardown {
    /// Whether the directory is removed only once nothing of the worker can run, and nothing
    /// is noted against unloading before the process was looked at.
    pub open spec fn wf(self) -> bool {
        match self.stage {
            TeardownStage::Over => true,
            _ => self.outcome.safe_to_unload,
        }
    }

    /// Begins a teardown, which is run once: where it was started before, nothing is done and
    /// nothing is noted.
    pub fn begin(teardown_started: &mut bool, plugin_kind: String, directory: String) -> (r: Self)
        ensures
            *final(teardown_started),
            r.plugin_kind == plugin_kind,
            r.directory == directory,
            r.outcome.errors@ == Seq::<String>::empty(),
            r.outcome.safe_to_unload,
            !r.released,
            r.stage == (if *old(teardown_started) {
                TeardownStage::Over
            } else {
                TeardownStage::Shutdown
            }),
            r.wf(),
    {
        let stage = if begin_worker_teardown(teardown_started) {
            TeardownStage::Shutdown
        } else {
            TeardownStage::Over
        };
        WorkerTeardown {
            plugin_kind,
            directory,
            outcome: DynamicPluginTeardownOutcome::success(),
            released: false,
            stage,
        }
    }

    /// Takes what happened, and goes on to what is done next.
    pub fn take(self, event: TeardownEvent) -> (r: Self)
        ensures
            teardown_moves(self, event, r),
            self.wf() ==> r.wf(),
    {
        let WorkerTeardown { plugin_kind, directory, outcome, released, stage } = self;
        let mut outcome = outcome;
        let mut released = released;
        let stage = match (stage, event) {
            (TeardownStage::Shutdown, TeardownEvent::Shutdown(rpc)) => {
                note_shutdown_rpc(&mut outcome, plugin_kind.as_str(), rpc);
                TeardownStage::Host
            },
            (TeardownStage::Host, TeardownEvent::Host(stop)) => {
                note_host_stop(&mut outcome, plugin_kind.as_str(), stop);
                TeardownStage::Status
            },
            (TeardownStage::Status, TeardownEvent::Status(status)) => {
                let step = after_process_status(&mut outcome, plugin_kind.as_str(), status);
                released = released || lets_go(step);
                after_step(step, &outcome)
            },
            (TeardownStage::Kill, TeardownEvent::Killed(killed)) => match killed {
                Ok(()) => after_step(after_kill(true), &outcome),
                Err(e) => TeardownStage::Recheck(e),
            },
            (TeardownStage::Recheck(kill_error), TeardownEvent::Exited(exited)) => {
                let step = after_failed_kill(
                    &mut outcome,
                    plugin_kind.as_str(),
                    kill_error.as_str(),
                    exited,
                );
                released = released || lets_go(step);
                after_step(step, &outcome)
            },
            (TeardownStage::Wait, TeardownEvent::Waited(waited)) => {
                let step = after_wait(&mut outcome, plugin_kind.as_str(), waited);
                released = released || lets_go(step);
                after_step(step, &outcome)
            },
            (TeardownStage::Directory, TeardownEvent::Removed(error)) => {
                note_directory_removal(
                    &mut outcome,
                    plugin_kind.as_str(),
                    directory.as_str(),
                    error,
                );
                TeardownStage::Over
            },
            (stage, _) => stage,
        };
        WorkerTeardown { plugin_kind, directory, outcome, released, stage }
    }
}

/// Every expected event brings a teardown nearer to its end.
pub proof fn law_teardown_ends(
    before: WorkerTeardown,
    event: TeardownEvent,
    after: WorkerTeardown,
)
    requires
        expects(before.stage, event),
        teardown_moves(before, event, after),
    ensures
        stages_left(after.stage) < stages_left(before.stage),
{
}

/// A teardown never takes back an error, nor finds unloading safe again once it was not.
pub proof fn law_teardown_keeps_errors(
    before: WorkerTeardown,
    event: TeardownEvent,
    after: WorkerTeardown,
)
    requires
        teardown_moves(before, event, after),
    ensures
        before.outcome.errors@.is_prefix_of(after.outcome.errors@),
        after.outcome.safe_to_unload ==> before.outcome.safe_to_unload,
{
    if expects(before.stage, event) && teardown_note(before, event) is Some {
        assert(before.outcome.errors@ =~= after.outcome.errors@.take(
            before.outcome.errors@.len() as int,
        )) by {
            assert(after.outcome.errors@.drop_last() == before.outcome.errors@);
        }
        assert forall|i: int| 0 <= i < before.outcome.errors@.len() implies
            before.outcome.errors@[i] == after.outcome.errors@[i] by {
            assert(after.outcome.errors@.drop_last()[i] == after.outcome.errors@[i]);
        }
    }
}

/// The activation directory is removed only where the process is gone or there was none.
pub proof fn law_directory_outlives_process(
    before: WorkerTeardown,
    event: TeardownEvent,
    after: WorkerTeardown,
)
    requires
        before.wf(),
        !(before.stage is Directory),
        teardown_moves(before, event, after),
        after.stage is Directory,
    ensures
        after.released || event == TeardownEvent::Status(ProcessStatus::Absent),
        after.outcome.safe_to_unload,
{
}

/// Whether states follow each other by events.
pub open spec fn teardown_trace(states: Seq<WorkerTeardown>, events: Seq<TeardownEvent>) -> bool {
    &&& states.len() == events.len() + 1
    &&& forall|i: int|
        0 <= i < events.len() ==> teardown_moves(#[trigger] states[i], events[i], states[i + 1])
}

/// Whether an event of a trace is a shutdown call that the host was to make.
pub open spec fn calls_shutdown(
    states: Seq<WorkerTeardown>,
    events: Seq<TeardownEvent>,
    i: int,
) -> bool {
    0 <= i < events.len() && states[i].stage is Shutdown && events[i] is Shutdown
}

/// Whether an event of a trace shows that the process may still run.
pub open spec fn process_may_run(
    states: Seq<WorkerTeardown>,
    events: Seq<TeardownEvent>,
    i: int,
) -> bool {
    &&& 0 <= i < events.len()
    &&& expects(states[i].stage, events[i])
    &&& events[i] is Status || events[i] is Exited || events[i] is Waited
    &&& teardown_note(states[i], events[i]) matches Some((_, safe)) && !safe
}

/// Whether the directory was to be removed before a state of a trace.
pub open spec fn directory_asked(states: Seq<WorkerTeardown>, n: int) -> bool {
    exists|i: int| 0 <= i < n && (#[trigger] states[i]).stage is Directory
}

/// A teardown that is over: it made exactly one shutdown call; unloading is safe unless the
/// process could not be shown to have stopped, whatever else failed; and the directory was to be
/// removed exactly where unloading is safe.
pub proof fn law_first_shutdown_runs_to_its_end(
    states: Seq<WorkerTeardown>,
    events: Seq<TeardownEvent>,
)
    requires
        teardown_trace(states, events),
        states[0].stage is Shutdown,
        states[0].wf(),
        states.last().stage is Over,
    ensures
        exists|i: int| calls_shutdown(states, events, i),
        forall|i: int, j: int|
            calls_shutdown(states, events, i) && calls_shutdown(states, events, j) ==> i == j,
        states.last().outcome.safe_to_unload <==> !(exists|i: int|
            process_may_run(states, events, i)),
        states.last().outcome.safe_to_unload <==> directory_asked(states, states.len() as int),
{
    let n = events.len() as int;
    lemma_trace(states, events, n);
    assert forall|i: int, j: int|
        calls_shutdown(states, events, i) && calls_shutdown(states, events, j) implies i == j by {
        if i < j {
            lemma_trace_ends(states, events, i + 1, j);
        } else if j < i {
            lemma_trace_ends(states, events, j + 1, i);
        }
    }
    if directory_asked(states, states.len() as int) {
        let i = choose|i: int| 0 <= i < states.len() && (#[trigger] states[i]).stage is Directory;
        assert(i < n);
        assert(directory_asked(states, n));
    }
    if directory_asked(states, n) {
        let i = choose|i: int| 0 <= i < n && (#[trigger] states[i]).stage is Directory;
        assert(directory_asked(states, states.len() as int));
    }
}

/// A further teardown of the same worker does nothing: it is over when it begins, with no errors
/// and safe to unload, and no event changes that.
pub proof fn law_later_shutdown_does_nothing(
    teardown: WorkerTeardown,
    event: TeardownEvent,
    after: WorkerTeardown,
)
    requires
        teardown.stage is Over,
        teardown_moves(teardown, event, after),
    ensures
        after == teardown,
        !expects(teardown.stage, event),
{
}

/// Along a trace no stage comes back.
proof fn lemma_trace_ends(
    states: Seq<WorkerTeardown>,
    events: Seq<TeardownEvent>,
    from: int,
    to: int,
)
    requires
        teardown_trace(states, events),
        0 <= from <= to < states.len(),
    ensures
        stages_left(states[to].stage) <= stages_left(states[from].stage),
    decreases to - from,
{
    if from < to {
        lemma_trace_ends(states, events, from, to - 1);
        assert(teardown_moves(states[to - 1], events[to - 1], states[to - 1 + 1]));
        if expects(states[to - 1].stage, events[to - 1]) {
            law_teardown_ends(states[to - 1], events[to - 1], states[to]);
        }
    }
}

/// What holds of each state of a trace that begins with the shutdown call.
proof fn lemma_trace(states: Seq<WorkerTeardown>, events: Seq<TeardownEvent>, n: int)
    requires
        teardown_trace(states, events),
        states[0].stage is Shutdown,
        states[0].wf(),
        0 <= n <= events.len(),
    ensures
        states[n].wf(),
        !(states[n].stage is Shutdown) ==> exists|i: int|
            i < n && calls_shutdown(states, events, i),
        states[n].outcome.safe_to_unload <==> !(exists|i: int|
            i < n && process_may_run(states, events, i)),
        directory_asked(states, n) ==> states[n].outcome.safe_to_unload && (states[n].stage is Over
            || states[n].stage is Directory),
        states[n].stage is Over && states[n].outcome.safe_to_unload ==> directory_asked(states, n),
    decreases n,
{
    if n > 0 {
        let k = n - 1;
        lemma_trace(states, events, k);
        let before = states[k];
        let event = events[k];
        let after = states[n];
        assert(teardown_moves(states[k], events[k], states[k + 1]));
        if before.stage is Shutdown && expects(before.stage, event) {
            assert(calls_shutdown(states, events, k));
        }
        if !(before.stage is Shutdown) {
            let i = choose|i: int| i < k && calls_shutdown(states, events, i);
            assert(i < n && calls_shutdown(states, events, i));
        }
        if process_may_run(states, events, k) {
            assert(k < n && process_may_run(states, events, k));
        }
        if exists|i: int| i < k && process_may_run(states, events, i) {
            let i = choose|i: int| i < k && process_may_run(states, events, i);
            assert(i < n && process_may_run(states, events, i));
        }
        if directory_asked(states, k) {
            let i = choose|i: int| 0 <= i < k && (#[trigger] states[i]).stage is Directory;
            assert(directory_asked(states, n));
        }
        if before.stage is Directory {
            assert(directory_asked(states, n));
        }
        if directory_asked(states, n) && !(before.stage is Directory) {
            let i = choose|i: int| 0 <= i < n && (#[trigger] states[i]).stage is Directory;
            assert(i != k);
            assert(directory_asked(states, k));
        }
    }
}

/// A teardown makes the shutdown call, stops the host's service, ends the process and removes the
/// directory, in this order, whatever the first two give. The directory is removed only where
/// unloading is safe.
pub proof fn law_teardown_goes_in_order(
    before: WorkerTeardown,
    event: TeardownEvent,
    after: WorkerTeardown,
)
    requires
        teardown_moves(before, event, after),
    ensures
        before.stage is Shutdown && event is Shutdown ==> after.stage is Host,
        before.stage is Host && event is Host ==> after.stage is Status,
        before.stage is Status && event == TeardownEvent::Status(ProcessStatus::Running)
            ==> after.stage is Kill,
        before.stage is Kill && (event matches TeardownEvent::Killed(Ok(_))) ==> after.stage is Wait,
        before.stage is Kill && (event matches TeardownEvent::Killed(Err(_))) ==> after.stage
            is Recheck && after.stage->Recheck_0 == event->Killed_0->Err_0,
        before.stage is Status && event == TeardownEvent::Status(ProcessStatus::Exited)
            ==> after.released,
        before.stage is Recheck && event == TeardownEvent::Exited(true) ==> after.released,
        before.stage is Recheck && event == TeardownEvent::Exited(false)
            ==> !after.outcome.safe_to_unload && after.stage is Over,
        before.stage is Wait && (event matches TeardownEvent::Waited(Ok(_))) ==> after.released,
        before.stage is Wait && (event matches TeardownEvent::Waited(Err(_)))
            ==> !after.outcome.safe_to_unload && after.stage is Over,
        before.stage is Directory && event is Removed ==> after.stage is Over,
        after.released ==> before.released || event is Status || event is Exited || event is Waited,
        after.plugin_kind == before.plugin_kind,
        after.directory == before.directory,
{
}

/// A failed shutdown call, a closed channel and a directory that stays are told and do not make
/// unloading unsafe.
pub proof fn law_failed_calls_are_noted(
    before: WorkerTeardown,
    after: WorkerTeardown,
    e: String,
)
    ensures
        before.stage is Shutdown && teardown_moves(
            before,
            TeardownEvent::Shutdown(ShutdownRpc::Failed(e)),
            after,
        ) ==> after.outcome.errors@.len() == before.outcome.errors@.len() + 1
            && after.outcome.errors@.last()@ == "worker plugin '"@ + before.plugin_kind@ + "' "@
            + "shutdown RPC failed: "@ + e@ && after.outcome.safe_to_unload
            == before.outcome.safe_to_unload,
        before.stage is Shutdown && teardown_moves(
            before,
            TeardownEvent::Shutdown(ShutdownRpc::Done),
            after,
        ) ==> after.outcome == before.outcome,
        before.stage is Host && teardown_moves(before, TeardownEvent::Host(HostStop::Closed), after)
            ==> after.outcome.errors@.len() == before.outcome.errors@.len() + 1
            && after.outcome.safe_to_unload == before.outcome.safe_to_unload,
        before.stage is Host && teardown_moves(before, TeardownEvent::Host(HostStop::Told), after)
            ==> after.outcome == before.outcome,
        before.stage is Directory && teardown_moves(before, TeardownEvent::Removed(Some(e)), after)
            ==> after.outcome.errors@.len() == before.outcome.errors@.len() + 1
            && after.outcome.safe_to_unload == before.outcome.safe_to_unload,
        before.stage is Directory && teardown_moves(before, TeardownEvent::Removed(None), after)
            ==> after.outcome == before.outcome,
{
}

} // verus!
