//! Startup of a worker: what the host asks it, in order, and when it is ready.
//!
//! The host starts the process, connects to it and makes the calls; each outcome is handed
//! to [`WorkerStartup::take`], which says what to do next.

use vstd::prelude::*;

use crate::config::{findings, holds_error, ConfigDiagnostic, DiagnosticView};
use crate::dynamic::manifest::DynamicPluginManifest;
use crate::dynamic::record::DynamicPluginKind;
use crate::error::{failure, ErrorView, PluginError, PluginErrorKind};
use crate::json::{json_wf, object_view, Json};
use crate::worker::load::{
    accept_worker_registrations, accept_worker_validation, check_worker_health, declares_worker,
    handshake_problem, plan_problem, plan_worker_load, registration_answer_problem,
    startup_call_error, startup_call_text, validate_worker_handshake, validation_problem,
    wants_registration, worker_instance, worker_manifest_problem, StartupCall, WorkerHandshake,
    WorkerLoadTarget, WorkerPluginInstance, WorkerPluginLoadSpec, WorkerRegistration,
};
use crate::worker::messages::WorkerError;
use crate::worker::process::{connect_problem, connect_step, ConnectAttempt, ConnectStep};

verus! {

/// How far the startup of a worker is.
pub enum StartupStage {
    /// The process was started and is to be reached.
    Connecting,
    /// The worker was asked for its health.
    Health,
    /// The worker was asked who it is.
    Handshake,
    /// The worker that said so was asked to validate its configuration.
    Validating(WorkerHandshake),
    /// The worker found no error in its configuration and was asked what it registers.
    Registering(WorkerHandshake, Vec<ConfigDiagnostic>),
    /// The startup is over.
    Over,
}

/// Something that happens while a worker starts.
pub enum StartupEvent {
    /// An attempt to reach the worker, with the milliseconds since the start.
    Attempt(u64, ConnectAttempt),
    /// The call that was made failed, with the reason.
    CallFailed(String),
    /// The worker said whether it is well, with a message.
    Health(bool, String),
    /// The worker said who it is.
    Handshake(WorkerHandshake),
    /// The worker validated its configuration: its error, and its findings or why they could
    /// not be decoded.
    Validated(Option<WorkerError>, Option<Result<Vec<ConfigDiagnostic>, String>>),
    /// The worker said what it registers, or its error.
    Registered(Option<WorkerError>, Vec<WorkerRegistration>),
}

/// What the host does next while a worker starts.
pub enum StartupAction {
    /// Nothing, as nobody asked for the event.
    Ignore,
    /// Try to reach the worker again after a pause.
    Retry,
    /// Make a call.
    Call(StartupCall),
    /// Go on with the plugin.
    Ready(WorkerPluginInstance),
    /// Stop the worker and fail.
    Fail(PluginError),
}

/// The startup of one worker.
pub struct WorkerStartup {
    /// What is loaded.
    pub spec: WorkerPluginLoadSpec,
    /// What the manifest says about the worker.
    pub target: WorkerLoadTarget,
    /// How far the startup is.
    pub stage: StartupStage,
}

/// The call whose answer a stage waits for.
pub open spec fn pending_call(stage: StartupStage) -> Option<StartupCall> {
    match stage {
        StartupStage::Connecting => None,
        StartupStage::Health => Some(StartupCall::Health),
        StartupStage::Handshake => Some(StartupCall::Handshake),
        StartupStage::Validating(_) => Some(StartupCall::Validate),
        StartupStage::Registering(_, _) => Some(StartupCall::Register),
        StartupStage::Over => None,
    }
}

/// Whether a stage waits for an event.
pub open spec fn awaits(stage: StartupStage, event: StartupEvent) -> bool {
    match event {
        StartupEvent::Attempt(_, _) => stage is Connecting,
        StartupEvent::CallFailed(_) => pending_call(stage) is Some,
        StartupEvent::Health(_, _) => stage is Health,
        StartupEvent::Handshake(_) => stage is Handshake,
        StartupEvent::Validated(_, _) => stage is Validating,
        StartupEvent::Registered(_, _) => stage is Registering,
    }
}

/// The problem that an awaited event brings.
pub open spec fn startup_problem(
    startup: WorkerStartup,
    event: StartupEvent,
) -> Option<ErrorView> {
    match event {
        StartupEvent::Attempt(elapsed_millis, attempt) => connect_problem(elapsed_millis, attempt),
        StartupEvent::CallFailed(detail) => Some(
            (
                PluginErrorKind::RegistrationFailed,
                startup_call_text(pending_call(startup.stage)->0) + detail@,
            ),
        ),
        StartupEvent::Health(ok, message) => if ok {
            None
        } else {
            Some(
                (
                    PluginErrorKind::RegistrationFailed,
                    "worker plugin health check failed: "@ + message@,
                ),
            )
        },
        StartupEvent::Handshake(handshake) => handshake_problem(
            startup.spec.plugin_id@,
            handshake,
        ),
        StartupEvent::Validated(error, decoded) => validation_problem(error, decoded),
        StartupEvent::Registered(error, registrations) => registration_answer_problem(
            startup.spec.plugin_id@,
            startup.target.relay_compat@,
            error,
            registrations@,
        ),
    }
}

/// The findings that a worker sent.
pub open spec fn sent_findings(decoded: Option<Result<Vec<ConfigDiagnostic>, String>>) -> Seq<
    DiagnosticView,
> {
    match decoded {
        Some(Ok(found)) => findings(found@),
        _ => Seq::empty(),
    }
}

/// Whether a plugin is that of a started worker.
pub open spec fn started(
    instance: WorkerPluginInstance,
    spec: WorkerPluginLoadSpec,
    handshake: WorkerHandshake,
    found: Seq<DiagnosticView>,
    registrations: Seq<WorkerRegistration>,
) -> bool {
    &&& instance.plugin_kind@ == spec.plugin_id@
    &&& instance.allows_multiple_components == handshake.allows_multiple_components
    &&& object_view(instance.config.entries@) == object_view(spec.config.entries@)
    &&& findings(instance.validation_diagnostics@) == found
    &&& instance.registrations@ == registrations
    &&& json_wf(Json::Object(spec.config)) ==> instance.wf()
}

/// What an accepted validation leads to: the plugin without registrations where the worker
/// found errors, the call for its registrations otherwise.
pub open spec fn after_validation(
    spec: WorkerPluginLoadSpec,
    handshake: WorkerHandshake,
    found: Seq<DiagnosticView>,
    stage: StartupStage,
    action: StartupAction,
) -> bool {
    if holds_error(found) {
        &&& stage is Over
        &&& action matches StartupAction::Ready(instance)
        &&& started(instance, spec, handshake, found, Seq::empty())
    } else {
        &&& action matches StartupAction::Call(call)
        &&& call == StartupCall::Register
        &&& stage matches StartupStage::Registering(given, kept)
        &&& given == handshake
        &&& findings(kept@) == found
    }
}

/// What an awaited event without a problem leads to.
pub open spec fn startup_advances(
    startup: WorkerStartup,
    event: StartupEvent,
    stage: StartupStage,
    action: StartupAction,
) -> bool {
    match event {
        StartupEvent::Attempt(_, attempt) => if attempt is Connected {
            stage is Health && action == StartupAction::Call(StartupCall::Health)
        } else {
            stage is Connecting && action is Retry
        },
        StartupEvent::CallFailed(_) => false,
        StartupEvent::Health(_, _) => stage is Handshake && action == StartupAction::Call(
            StartupCall::Handshake,
        ),
        StartupEvent::Handshake(handshake) => stage == StartupStage::Validating(handshake)
            && action == StartupAction::Call(StartupCall::Validate),
        StartupEvent::Validated(_, decoded) => after_validation(
            startup.spec,
            startup.stage->Validating_0,
            sent_findings(decoded),
            stage,
            action,
        ),
        StartupEvent::Registered(_, registrations) => {
            &&& stage is Over
            &&& action matches StartupAction::Ready(instance)
            &&& started(
                instance,
                startup.spec,
                startup.stage->Registering_0,
                findings(startup.stage->Registering_1@),
                registrations@,
            )
        },
    }
}

/// What an event leads to: the next stage and what the host does.
pub open spec fn startup_moves(
    startup: WorkerStartup,
    event: StartupEvent,
    stage: StartupStage,
    action: StartupAction,
) -> bool {
    if !awaits(startup.stage, event) {
        stage == startup.stage && action is Ignore
    } else {
        match startup_problem(startup, event) {
            Some(e) => stage is Over && (action matches StartupAction::Fail(given) && given@ == e),
            None => startup_advances(startup, event, stage, action),
        }
    }
}

/// Goes from one stage to the next, and does what that asks for.
fn go(stage: StartupStage, action: StartupAction) -> (r: (StartupStage, StartupAction))
    ensures
        r == (stage, action),
{
    (stage, action)
}

/// Fails the startup.
fn fail(error: PluginError) -> (r: (StartupStage, StartupAction))
    ensures
        r.0 is Over,
        r.1 == StartupAction::Fail(error),
{
    go(StartupStage::Over, StartupAction::Fail(error))
}

/// The call whose answer a stage waits for.
fn call_of(stage: &StartupStage) -> (r: Option<StartupCall>)
    ensures
        r == pending_call(*stage),
{
    match stage {
        StartupStage::Connecting => None,
        StartupStage::Health => Some(StartupCall::Health),
        StartupStage::Handshake => Some(StartupCall::Handshake),
        StartupStage::Validating(_) => Some(StartupCall::Validate),
        StartupStage::Registering(_, _) => Some(StartupCall::Register),
        StartupStage::Over => None,
    }
}

/// Takes a validation answer.
fn take_validation(
    spec: &WorkerPluginLoadSpec,
    handshake: WorkerHandshake,
    error: Option<WorkerError>,
    decoded: Option<Result<Vec<ConfigDiagnostic>, String>>,
) -> (r: (StartupStage, StartupAction))
    ensures
        match validation_problem(error, decoded) {
            Some(e) => r.0 is Over && (r.1 matches StartupAction::Fail(given) && given@ == e),
            None => after_validation(*spec, handshake, sent_findings(decoded), r.0, r.1),
        },
{
    match accept_worker_validation(error, decoded) {
        Err(e) => fail(e),
        Ok(found) => {
            assert(findings(found@) =~= sent_findings(decoded));
            if wants_registration(&found) {
                go(
                    StartupStage::Registering(handshake, found),
                    StartupAction::Call(StartupCall::Register),
                )
            } else {
                let instance = worker_instance(spec, &handshake, found, Vec::new());
                assert(instance.registrations@ =~= Seq::empty());
                go(StartupStage::Over, StartupAction::Ready(instance))
            }
        },
    }
}

impl WorkerStartup {
    /// Whether what was accepted so far is kept: a worker that validates is who it should be,
    /// and one that registers found no error.
    pub open spec fn wf(self) -> bool {
        match self.stage {
            StartupStage::Validating(handshake) => handshake_problem(
                self.spec.plugin_id@,
                handshake,
            ) is None,
            StartupStage::Registering(handshake, found) => {
                &&& handshake_problem(self.spec.plugin_id@, handshake) is None
                &&& !holds_error(findings(found@))
            },
            _ => true,
        }
    }

    /// Begins the startup of a worker by its manifest. A validated worker manifest carries a
    /// worker's load block.
    pub fn begin(
        spec: WorkerPluginLoadSpec,
        manifest: &DynamicPluginManifest,
        host_version: &str,
    ) -> (r: Result<Self, PluginError>)
        requires
            manifest.plugin.kind == DynamicPluginKind::Worker ==> manifest.load is Worker,
        ensures
            failure(r) == worker_manifest_problem(*manifest, spec.plugin_id@, host_version@),
            r matches Ok(startup) ==> startup.spec == spec && declares_worker(
                *manifest,
                startup.target,
            ) && startup.stage is Connecting && startup.wf(),
    {
        match plan_worker_load(spec.plugin_id.as_str(), manifest, host_version) {
            Err(e) => Err(e),
            Ok(target) => Ok(WorkerStartup { spec, target, stage: StartupStage::Connecting }),
        }
    }

    /// Takes what happened, and says what to do next. Once the startup is over, nothing more
    /// is done.
    pub fn take(self, event: StartupEvent) -> (r: (Self, StartupAction))
        ensures
            r.0.spec == self.spec,
            r.0.target == self.target,
            startup_moves(self, event, r.0.stage, r.1),
            self.wf() ==> r.0.wf(),
    {
        let call = call_of(&self.stage);
        let WorkerStartup { spec, target, stage } = self;
        let (stage, action) = match (stage, event) {
            (StartupStage::Connecting, StartupEvent::Attempt(elapsed_millis, attempt)) => {
                match connect_step(elapsed_millis, attempt) {
                    ConnectStep::GiveUp(e) => fail(e),
                    ConnectStep::Retry => go(StartupStage::Connecting, StartupAction::Retry),
                    ConnectStep::Proceed => go(
                        StartupStage::Health,
                        StartupAction::Call(StartupCall::Health),
                    ),
                }
            },
            (StartupStage::Health, StartupEvent::Health(ok, message)) => {
                match check_worker_health(ok, message.as_str()) {
                    Err(e) => fail(e),
                    Ok(()) => go(
                        StartupStage::Handshake,
                        StartupAction::Call(StartupCall::Handshake),
                    ),
                }
            },
            (StartupStage::Handshake, StartupEvent::Handshake(handshake)) => {
                match validate_worker_handshake(spec.plugin_id.as_str(), &handshake) {
                    Err(e) => fail(e),
                    Ok(()) => go(
                        StartupStage::Validating(handshake),
                        StartupAction::Call(StartupCall::Validate),
                    ),
                }
            },
            (StartupStage::Validating(handshake), StartupEvent::Validated(error, decoded)) => {
                take_validation(&spec, handshake, error, decoded)
            },
            (
                StartupStage::Registering(handshake, found),
                StartupEvent::Registered(error, registrations),
            ) => {
                match accept_worker_registrations(
                    spec.plugin_id.as_str(),
                    target.relay_compat.as_str(),
                    error,
                    registrations,
                ) {
                    Err(e) => fail(e),
                    Ok(accepted) => {
                        let instance = worker_instance(&spec, &handshake, found, accepted);
                        go(StartupStage::Over, StartupAction::Ready(instance))
                    },
                }
            },
            (stage, StartupEvent::CallFailed(detail)) => match call {
                None => go(stage, StartupAction::Ignore),
                Some(call) => fail(startup_call_error(call, detail.as_str())),
            },
            (stage, _) => go(stage, StartupAction::Ignore),
        };
        (WorkerStartup { spec, target, stage }, action)
    }
}

/// A worker is asked what it registers only after it said that it is the plugin of the
/// manifest, and found no error in its configuration.
pub proof fn law_only_accepted_workers_register(
    startup: WorkerStartup,
    event: StartupEvent,
    stage: StartupStage,
    action: StartupAction,
)
    requires
        startup.wf(),
        startup_moves(startup, event, stage, action),
        action == StartupAction::Call(StartupCall::Register),
    ensures
        stage matches StartupStage::Registering(handshake, found) && handshake_problem(
            startup.spec.plugin_id@,
            handshake,
        ) is None && !holds_error(findings(found@)),
{
}

/// A worker that is ready registers nothing where it found errors, and otherwise only what
/// has a name and a surface of the host.
pub proof fn law_ready_workers_register_what_was_accepted(
    startup: WorkerStartup,
    event: StartupEvent,
    stage: StartupStage,
    instance: WorkerPluginInstance,
)
    requires
        startup.wf(),
        startup_moves(startup, event, stage, StartupAction::Ready(instance)),
    ensures
        plan_problem(startup.spec.plugin_id@, instance.registrations@) is None,
        holds_error(findings(instance.validation_diagnostics@)) ==> instance.registrations@.len()
            == 0,
{
}

/// A startup that is over stays over, whatever else happens.
pub proof fn law_finished_startup_does_nothing(
    startup: WorkerStartup,
    event: StartupEvent,
    stage: StartupStage,
    action: StartupAction,
)
    requires
        startup.stage is Over,
        startup_moves(startup, event, stage, action),
    ensures
        stage is Over,
        action is Ignore,
{
}

/// A worker is asked for its health, who it is, what it finds and what it registers, in this order,
/// each once the answer before was accepted.
pub proof fn law_workers_are_asked_in_order(
    startup: WorkerStartup,
    event: StartupEvent,
    stage: StartupStage,
    action: StartupAction,
)
    requires
        startup_moves(startup, event, stage, action),
    ensures
        startup.stage is Connecting && (event matches StartupEvent::Attempt(_, attempt) && attempt
            is Connected) ==> action == StartupAction::Call(StartupCall::Health) && stage is Health,
        startup.stage is Health && (event matches StartupEvent::Health(ok, _) && ok) ==> action
            == StartupAction::Call(StartupCall::Handshake) && stage is Handshake,
        startup.stage is Health && (event matches StartupEvent::Health(ok, _) && !ok) ==> action
            is Fail && action->Fail_0@ == (
            PluginErrorKind::RegistrationFailed,
            "worker plugin health check failed: "@ + event->Health_1@,
        ) && stage is Over,
        startup.stage is Handshake && (event matches StartupEvent::Handshake(handshake)
            && handshake.plugin_id@ == startup.spec.plugin_id@ && handshake.plugin_kind@
            == startup.spec.plugin_id@ && handshake.worker_protocol@ == "grpc-v1"@) ==> action
            == StartupAction::Call(StartupCall::Validate),
        startup.stage is Handshake && (event matches StartupEvent::Handshake(handshake) && !(
        handshake.plugin_id@ == startup.spec.plugin_id@ && handshake.plugin_kind@
            == startup.spec.plugin_id@ && handshake.worker_protocol@ == "grpc-v1"@)) ==> action
            is Fail && stage is Over,
        action == StartupAction::Call(StartupCall::Health) ==> event is Attempt,
        action == StartupAction::Call(StartupCall::Handshake) ==> startup.stage is Health && event
            is Health,
        action == StartupAction::Call(StartupCall::Validate) ==> startup.stage is Handshake && event
            is Handshake,
        action == StartupAction::Call(StartupCall::Register) ==> startup.stage is Validating && event
            is Validated,
        action is Ready ==> event is Validated || event is Registered,
{
}

/// A worker that found errors is ready and registers nothing; one that did not is asked for what it
/// registers, and is ready with that. What is ready is the plugin that was to be loaded, with its
/// configuration and findings.
pub proof fn law_findings_decide_on_registering(
    startup: WorkerStartup,
    found: Vec<ConfigDiagnostic>,
    registrations: Vec<WorkerRegistration>,
    stage: StartupStage,
    action: StartupAction,
)
    ensures
        startup.stage is Validating && startup_moves(
            startup,
            StartupEvent::Validated(None, Some(Ok(found))),
            stage,
            action,
        ) ==> {
            &&& holds_error(findings(found@)) ==> stage is Over && action is Ready
                && action->Ready_0.registrations@.len() == 0 && action->Ready_0.plugin_kind@
                == startup.spec.plugin_id@ && findings(action->Ready_0.validation_diagnostics@)
                == findings(found@)
            &&& !holds_error(findings(found@)) ==> action == StartupAction::Call(
                StartupCall::Register,
            ) && stage is Registering
        },
        startup.stage is Registering && startup_moves(
            startup,
            StartupEvent::Registered(None, registrations),
            stage,
            action,
        ) && action is Ready ==> action->Ready_0.registrations@ == registrations@
            && action->Ready_0.plugin_kind@ == startup.spec.plugin_id@ && object_view(
            action->Ready_0.config.entries@,
        ) == object_view(startup.spec.config.entries@)
            && action->Ready_0.allows_multiple_components
            == startup.stage->Registering_0.allows_multiple_components && stage is Over,
{
}

/// A call that fails ends the startup with an error that says which call it was; an answer that was
/// not asked for changes nothing.
pub proof fn law_failed_calls_end_startup(
    startup: WorkerStartup,
    detail: String,
    event: StartupEvent,
    stage: StartupStage,
    action: StartupAction,
)
    ensures
        startup_moves(startup, StartupEvent::CallFailed(detail), stage, action) ==> {
            &&& startup.stage is Health ==> action is Fail && action->Fail_0@.1
                == "worker health check failed: "@ + detail@ && stage is Over
            &&& startup.stage is Handshake ==> action is Fail && action->Fail_0@.1
                == "worker handshake failed: "@ + detail@ && stage is Over
            &&& startup.stage is Validating ==> action is Fail && action->Fail_0@.1
                == "worker validation RPC failed: "@ + detail@ && stage is Over
            &&& startup.stage is Registering ==> action is Fail && action->Fail_0@.1
                == "worker registration RPC failed: "@ + detail@ && stage is Over
            &&& startup.stage is Connecting || startup.stage is Over ==> action is Ignore && stage
                == startup.stage
        },
        startup_moves(startup, event, stage, action) && (event is Health && !(startup.stage
            is Health) || event is Handshake && !(startup.stage is Handshake) || event is Validated
            && !(startup.stage is Validating) || event is Registered && !(startup.stage
            is Registering) || event is Attempt && !(startup.stage is Connecting)) ==> action
            is Ignore && stage == startup.stage,
{
}

} // verus!
