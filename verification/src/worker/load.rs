//! Loading of worker plugins.
//!
//! The host starts a worker and asks it for its health, who it is, what it finds in its
//! configuration and what it registers. Here stands what each answer leads to.

use vstd::prelude::*;

use crate::config::{
    copy_object, diagnostics_have_errors, findings, holds_error, ConfigDiagnostic,
    DiagnosticLevel, DiagnosticView,
};
use crate::dynamic::kinds::{
    kinds_registered, lemma_kinds_stop, lemma_teardown_undoes, registration_list, with_loaded,
    LoadedKind,
};
use crate::dynamic::manifest::{or_else, DynamicPluginManifest, DynamicPluginManifestLoad};
use crate::dynamic::record::{DynamicPluginKind, WorkerRuntime};
use crate::dynamic::teardown::DynamicPluginTeardownOutcome;
use crate::error::{failure, invalid, ErrorView, PluginError, PluginErrorKind};
use crate::handlers::{
    deregister_tracked_registrations_checked, external_problem, register_plugin_tracked,
    torn_down, PluginHandlers,
};
use crate::json::{json_wf, object_view, objects_eq, Json, JsonView};
use crate::native::load::{check_manifest_identity, identity_problem};
use crate::registrations::{
    breaks_chains, qualified, registration_error, registration_views, PluginRegistrationContext,
    RegistrationSurface, RegistrationView,
};
use crate::relay_version::{
    compatibility_problem, consumer_problem, validate_annotated_request_consumer_compatibility,
    validate_dynamic_plugin_relay_compatibility,
};
use crate::text::{
    self, blank, concat2, concat3, concat4, concat5, format_i64, is_blank, opt_text, signed_decimal,
    text_eq,
};
use crate::text_map::TextMap;
use crate::validation::clone_diagnostics;
use crate::worker::messages::{worker_error_to_plugin, WorkerError};

verus! {

/// Version of the protocol between host and workers.
pub const WORKER_PROTOCOL_GRPC_V1: &'static str = "grpc-v1";

/// Worker plugin load request derived from host dynamic-plugin state.
pub struct WorkerPluginLoadSpec {
    /// Expected plugin id.
    pub plugin_id: String,
    /// Path to the authored `relay-plugin.toml`.
    pub manifest_ref: String,
    /// Relay-managed per-plugin runtime environment.
    ///
    /// This is required for Python workers and ignored by other worker runtimes.
    pub environment_ref: Option<String>,
    /// Resolved dynamic plugin config passed to the worker.
    pub config: TextMap<Json>,
}

/// What a checked manifest says about the worker to start.
#[derive(Debug)]
pub struct WorkerLoadTarget {
    /// Declared Relay requirement.
    pub relay_compat: String,
    /// Runtime of the worker.
    pub runtime: WorkerRuntime,
    /// Entrypoint of the worker.
    pub entrypoint: String,
}

/// The problem of a manifest that is not for the worker loader.
pub open spec fn worker_lane_problem(m: DynamicPluginManifest, plugin_id: Seq<char>) -> Option<
    ErrorView,
> {
    if m.plugin.kind != DynamicPluginKind::Worker {
        invalid(
            "dynamic plugin '"@ + plugin_id + "' is kind "@ + m.plugin.kind.label()
                + "; worker loader only supports worker"@,
        )
    } else {
        None
    }
}

/// The problem of a worker's load block.
pub open spec fn worker_contract_problem(m: DynamicPluginManifest) -> Option<ErrorView> {
    match m.load {
        DynamicPluginManifestLoad::RustDynamic(_) => None,
        DynamicPluginManifestLoad::Worker(load) => if load.runtime is None {
            invalid("load.runtime is required"@)
        } else if load.entrypoint is None {
            invalid("load.entrypoint is required"@)
        } else {
            None
        },
    }
}

/// The first problem of a manifest that is to be loaded as a worker plugin on a host of the
/// given version.
pub open spec fn worker_manifest_problem(
    m: DynamicPluginManifest,
    plugin_id: Seq<char>,
    host_version: Seq<char>,
) -> Option<ErrorView> {
    or_else(
        or_else(identity_problem(m, plugin_id), worker_lane_problem(m, plugin_id)),
        or_else(
            compatibility_problem(opt_text(m.compat.relay), "worker"@, host_version),
            worker_contract_problem(m),
        ),
    )
}

/// Whether a manifest declares what a target says.
pub open spec fn declares_worker(m: DynamicPluginManifest, target: WorkerLoadTarget) -> bool {
    &&& m.compat.relay == Some(target.relay_compat)
    &&& m.load matches DynamicPluginManifestLoad::Worker(load)
    &&& load.runtime == Some(target.runtime)
    &&& load.entrypoint == Some(target.entrypoint)
}

/// Checks a manifest that is to be loaded as a worker plugin, in order: its identity, its
/// lane, the Relay requirement and the load block. A validated worker manifest carries a
/// worker's load block.
pub fn plan_worker_load(
    plugin_id: &str,
    manifest: &DynamicPluginManifest,
    host_version: &str,
) -> (r: Result<WorkerLoadTarget, PluginError>)
    requires
        manifest.plugin.kind == DynamicPluginKind::Worker ==> manifest.load is Worker,
    ensures
        failure(r) == worker_manifest_problem(*manifest, plugin_id@, host_version@),
        r matches Ok(target) ==> declares_worker(*manifest, target),
{
    if let Err(e) = check_manifest_identity(manifest, plugin_id) {
        return Err(e);
    }
    if manifest.plugin.kind != DynamicPluginKind::Worker {
        return Err(
            PluginError::InvalidConfig(
                concat5(
                    "dynamic plugin '",
                    plugin_id,
                    "' is kind ",
                    manifest.plugin.kind.as_str(),
                    "; worker loader only supports worker",
                ),
            ),
        );
    }
    let relay: Option<&str> = match &manifest.compat.relay {
        Some(relay) => Some(relay.as_str()),
        None => None,
    };
    if let Err(e) = validate_dynamic_plugin_relay_compatibility(relay, "worker", host_version) {
        return Err(e);
    }
    match &manifest.load {
        DynamicPluginManifestLoad::RustDynamic(_) => {
            assert(false);
            vstd::pervasive::unreached()
        },
        DynamicPluginManifestLoad::Worker(load) => {
            let runtime = match load.runtime {
                None => {
                    return Err(
                        PluginError::InvalidConfig("load.runtime is required".to_owned()),
                    );
                },
                Some(runtime) => runtime,
            };
            match (&load.entrypoint, &manifest.compat.relay) {
                (Some(entrypoint), Some(relay)) => Ok(
                    WorkerLoadTarget {
                        relay_compat: relay.clone(),
                        runtime,
                        entrypoint: entrypoint.clone(),
                    },
                ),
                _ => Err(PluginError::InvalidConfig("load.entrypoint is required".to_owned())),
            }
        },
    }
}

/// A failed call while a worker is started.
#[derive(Debug, Clone, Copy, PartialEq, Eq, Structural)]
pub enum StartupCall {
    /// Health check.
    Health,
    /// Handshake.
    Handshake,
    /// Validation of the configuration.
    Validate,
    /// Registration plan.
    Register,
}

/// How a failed call is described.
pub open spec fn startup_call_text(call: StartupCall) -> Seq<char> {
    match call {
        StartupCall::Health => "worker health check failed: "@,
        StartupCall::Handshake => "worker handshake failed: "@,
        StartupCall::Validate => "worker validation RPC failed: "@,
        StartupCall::Register => "worker registration RPC failed: "@,
    }
}

/// The error of a call that failed while a worker is started.
pub fn startup_call_error(call: StartupCall, detail: &str) -> (r: PluginError)
    ensures
        r@ == (PluginErrorKind::RegistrationFailed, startup_call_text(call) + detail@),
{
    let prefix = match call {
        StartupCall::Health => "worker health check failed: ",
        StartupCall::Handshake => "worker handshake failed: ",
        StartupCall::Validate => "worker validation RPC failed: ",
        StartupCall::Register => "worker registration RPC failed: ",
    };
    PluginError::RegistrationFailed(concat2(prefix, detail))
}

/// Takes a worker's answer to the health check.
pub fn check_worker_health(ok: bool, message: &str) -> (r: Result<(), PluginError>)
    ensures
        failure(r) == (if ok {
            None
        } else {
            Some(
                (
                    PluginErrorKind::RegistrationFailed,
                    "worker plugin health check failed: "@ + message@,
                ),
            )
        }),
{
    if ok {
        return Ok(());
    }
    Err(
        PluginError::RegistrationFailed(
            concat2("worker plugin health check failed: ", message),
        ),
    )
}

/// Who a worker says it is.
#[derive(Debug)]
pub struct WorkerHandshake {
    /// Plugin identity.
    pub plugin_id: String,
    /// Plugin kind.
    pub plugin_kind: String,
    /// Protocol that the worker speaks.
    pub worker_protocol: String,
    /// Whether the kind may occur several times in a configuration.
    pub allows_multiple_components: bool,
}

/// The problem of a handshake.
pub open spec fn handshake_problem(expected: Seq<char>, handshake: WorkerHandshake) -> Option<
    ErrorView,
> {
    if handshake.plugin_id@ != expected || handshake.plugin_kind@ != expected {
        invalid(
            "worker plugin returned id '"@ + handshake.plugin_id@ + "' kind '"@
                + handshake.plugin_kind@ + "' but manifest id is '"@ + expected + "'"@,
        )
    } else if handshake.worker_protocol@ != WORKER_PROTOCOL_GRPC_V1@ {
        invalid("unsupported worker_protocol '"@ + handshake.worker_protocol@ + "'"@)
    } else {
        None
    }
}

/// Checks who a worker says it is.
pub fn validate_worker_handshake(expected_plugin_id: &str, handshake: &WorkerHandshake) -> (r:
    Result<(), PluginError>)
    ensures
        failure(r) == handshake_problem(expected_plugin_id@, *handshake),
{
    if !text_eq(handshake.plugin_id.as_str(), expected_plugin_id) || !text_eq(
        handshake.plugin_kind.as_str(),
        expected_plugin_id,
    ) {
        return Err(
            PluginError::InvalidConfig(
                text::concat7(
                    "worker plugin returned id '",
                    handshake.plugin_id.as_str(),
                    "' kind '",
                    handshake.plugin_kind.as_str(),
                    "' but manifest id is '",
                    expected_plugin_id,
                    "'",
                ),
            ),
        );
    }
    if !text_eq(handshake.worker_protocol.as_str(), WORKER_PROTOCOL_GRPC_V1) {
        return Err(
            PluginError::InvalidConfig(
                concat3(
                    "unsupported worker_protocol '",
                    handshake.worker_protocol.as_str(),
                    "'",
                ),
            ),
        );
    }
    Ok(())
}

/// The problem of a worker's validation answer. `decoded` are the findings, or why they could
/// not be decoded; a worker that sends none finds nothing.
pub open spec fn validation_problem(
    error: Option<WorkerError>,
    decoded: Option<Result<Vec<ConfigDiagnostic>, String>>,
) -> Option<ErrorView> {
    match error {
        Some(e) => Some(
            (
                PluginErrorKind::RegistrationFailed,
                if e.message@.len() == 0 {
                    "worker validation failed"@
                } else {
                    e.code@ + ": "@ + e.message@
                },
            ),
        ),
        None => match decoded {
            Some(Err(e)) => Some((PluginErrorKind::Serialization, e@)),
            _ => None,
        },
    }
}

/// Takes a worker's validation answer.
pub fn accept_worker_validation(
    error: Option<WorkerError>,
    decoded: Option<Result<Vec<ConfigDiagnostic>, String>>,
) -> (r: Result<Vec<ConfigDiagnostic>, PluginError>)
    ensures
        failure(r) == validation_problem(error, decoded),
        r matches Ok(found) ==> (match decoded {
            Some(d) => found == d->Ok_0,
            None => found@.len() == 0,
        }),
{
    if let Some(e) = error {
        return Err(worker_error_to_plugin(e, "worker validation failed"));
    }
    match decoded {
        None => Ok(Vec::new()),
        Some(Ok(found)) => Ok(found),
        Some(Err(e)) => Err(PluginError::Serialization(e)),
    }
}

/// The surface of a worker's registration, as it is sent.
#[derive(Debug, Clone, Copy, PartialEq, Eq, Structural)]
pub enum WorkerSurface {
    /// A surface of the host.
    Known(RegistrationSurface),
    /// None was given.
    Unspecified,
    /// A number that stands for none.
    Unsupported(i64),
}

/// One registration of a worker.
#[derive(Debug)]
pub struct WorkerRegistration {
    /// Name within the plugin.
    pub local_name: String,
    /// Surface.
    pub surface: WorkerSurface,
    /// Priority among the callbacks of the surface.
    pub priority: i64,
    /// Whether later intercepts are left out.
    pub break_chain: bool,
}

/// The problem of a registration's surface.
pub open spec fn surface_problem(plugin_id: Seq<char>, surface: WorkerSurface) -> Option<ErrorView> {
    match surface {
        WorkerSurface::Known(_) => None,
        WorkerSurface::Unspecified => Some(
            (
                PluginErrorKind::RegistrationFailed,
                "worker plugin '"@ + plugin_id + "' returned unspecified registration surface"@,
            ),
        ),
        WorkerSurface::Unsupported(n) => Some(
            (
                PluginErrorKind::RegistrationFailed,
                "worker plugin '"@ + plugin_id + "' returned unsupported registration surface "@
                    + signed_decimal(n as int),
            ),
        ),
    }
}

/// The problem of one registration.
pub open spec fn registration_problem(
    plugin_id: Seq<char>,
    registration: WorkerRegistration,
) -> Option<ErrorView> {
    if blank(registration.local_name@) {
        Some(
            (
                PluginErrorKind::RegistrationFailed,
                "worker plugin '"@ + plugin_id
                    + "' returned a registration with empty local_name"@,
            ),
        )
    } else {
        surface_problem(plugin_id, registration.surface)
    }
}

/// The first problem of a registration plan.
pub open spec fn plan_problem(
    plugin_id: Seq<char>,
    registrations: Seq<WorkerRegistration>,
) -> Option<ErrorView>
    decreases registrations.len(),
{
    if registrations.len() == 0 {
        None
    } else {
        or_else(
            plan_problem(plugin_id, registrations.drop_last()),
            registration_problem(plugin_id, registrations.last()),
        )
    }
}

/// A problem among the first registrations is the problem of the plan.
proof fn lemma_plan_problem_found(
    plugin_id: Seq<char>,
    registrations: Seq<WorkerRegistration>,
    n: int,
)
    requires
        0 <= n <= registrations.len(),
        plan_problem(plugin_id, registrations.take(n)) is Some,
    ensures
        plan_problem(plugin_id, registrations) == plan_problem(plugin_id, registrations.take(n)),
    decreases registrations.len(),
{
    if n == registrations.len() {
        assert(registrations.take(n) =~= registrations);
    } else {
        assert(registrations.drop_last().take(n) =~= registrations.take(n));
        lemma_plan_problem_found(plugin_id, registrations.drop_last(), n);
    }
}

/// Checks the surface of a registration.
fn check_surface(plugin_id: &str, surface: WorkerSurface) -> (r: Result<
    RegistrationSurface,
    PluginError,
>)
    ensures
        failure(r) == surface_problem(plugin_id@, surface),
        r matches Ok(known) ==> surface == WorkerSurface::Known(known),
{
    match surface {
        WorkerSurface::Known(known) => Ok(known),
        WorkerSurface::Unspecified => Err(
            PluginError::RegistrationFailed(
                concat3(
                    "worker plugin '",
                    plugin_id,
                    "' returned unspecified registration surface",
                ),
            ),
        ),
        WorkerSurface::Unsupported(n) => {
            let number = format_i64(n);
            Err(
                PluginError::RegistrationFailed(
                    concat4(
                        "worker plugin '",
                        plugin_id,
                        "' returned unsupported registration surface ",
                        number.as_str(),
                    ),
                ),
            )
        },
    }
}

/// Checks a worker's registration plan: every registration has a name and a surface.
pub fn validate_registration_plan(plugin_id: &str, registrations: &Vec<WorkerRegistration>) -> (r:
    Result<(), PluginError>)
    ensures
        failure(r) == plan_problem(plugin_id@, registrations@),
{
    let mut i: usize = 0;
    assert(registrations@.take(0) =~= Seq::empty());
    while i < registrations.len()
        invariant
            i <= registrations.len(),
            plan_problem(plugin_id@, registrations@.take(i as int)) is None,
        decreases registrations.len() - i,
    {
        let registration = &registrations[i];
        assert(registrations@.take(i + 1).drop_last() =~= registrations@.take(i as int));
        assert(registrations@.take(i + 1).last() == registrations@[i as int]);
        if is_blank(registration.local_name.as_str()) {
            proof {
                lemma_plan_problem_found(plugin_id@, registrations@, i + 1);
            }
            return Err(
                PluginError::RegistrationFailed(
                    concat3(
                        "worker plugin '",
                        plugin_id,
                        "' returned a registration with empty local_name",
                    ),
                ),
            );
        }
        if let Err(e) = check_surface(plugin_id, registration.surface) {
            proof {
                lemma_plan_problem_found(plugin_id@, registrations@, i + 1);
            }
            return Err(e);
        }
        i += 1;
    }
    assert(registrations@.take(registrations@.len() as int) =~= registrations@);
    Ok(())
}

/// Whether a plan intercepts LLM requests.
pub open spec fn intercepts_requests(registrations: Seq<WorkerRegistration>) -> bool {
    exists|i: int|
        0 <= i < registrations.len() && (#[trigger] registrations[i]).surface
            == WorkerSurface::Known(RegistrationSurface::LlmRequestIntercept)
}

/// Whether a plan intercepts LLM requests.
fn has_request_intercept(registrations: &Vec<WorkerRegistration>) -> (r: bool)
    ensures
        r == intercepts_requests(registrations@),
{
    let mut i: usize = 0;
    while i < registrations.len()
        invariant
            i <= registrations.len(),
            forall|j: int|
                0 <= j < i ==> (#[trigger] registrations@[j]).surface != WorkerSurface::Known(
                    RegistrationSurface::LlmRequestIntercept,
                ),
        decreases registrations.len() - i,
    {
        if registrations[i].surface == WorkerSurface::Known(
            RegistrationSurface::LlmRequestIntercept,
        ) {
            assert(registrations@[i as int].surface == WorkerSurface::Known(
                RegistrationSurface::LlmRequestIntercept,
            ));
            return true;
        }
        i += 1;
    }
    false
}

/// The problem of what a worker answers to the registration call. A worker that may run on a
/// release without annotated requests may not intercept LLM requests.
pub open spec fn registration_answer_problem(
    plugin_id: Seq<char>,
    relay_compat: Seq<char>,
    error: Option<WorkerError>,
    registrations: Seq<WorkerRegistration>,
) -> Option<ErrorView> {
    match error {
        Some(e) => Some(
            (
                PluginErrorKind::RegistrationFailed,
                if e.message@.len() == 0 {
                    "worker registration failed"@
                } else {
                    e.code@ + ": "@ + e.message@
                },
            ),
        ),
        None => or_else(
            plan_problem(plugin_id, registrations),
            if intercepts_requests(registrations) {
                consumer_problem(relay_compat, plugin_id)
            } else {
                None
            },
        ),
    }
}

/// Takes a worker's answer to the registration call.
pub fn accept_worker_registrations(
    plugin_id: &str,
    relay_compat: &str,
    error: Option<WorkerError>,
    registrations: Vec<WorkerRegistration>,
) -> (r: Result<Vec<WorkerRegistration>, PluginError>)
    ensures
        failure(r) == registration_answer_problem(
            plugin_id@,
            relay_compat@,
            error,
            registrations@,
        ),
        r matches Ok(accepted) ==> accepted == registrations,
{
    if let Some(e) = error {
        return Err(worker_error_to_plugin(e, "worker registration failed"));
    }
    if let Err(e) = validate_registration_plan(plugin_id, &registrations) {
        return Err(e);
    }
    if has_request_intercept(&registrations) {
        if let Err(e) = validate_annotated_request_consumer_compatibility(
            relay_compat,
            plugin_id,
        ) {
            return Err(e);
        }
    }
    Ok(registrations)
}

/// A loaded worker plugin.
pub struct WorkerPluginInstance {
    /// Plugin kind.
    pub plugin_kind: String,
    /// Whether the kind may occur several times in a configuration.
    pub allows_multiple_components: bool,
    /// Configuration that the worker was started with.
    pub config: TextMap<Json>,
    /// What the worker found in it.
    pub validation_diagnostics: Vec<ConfigDiagnostic>,
    /// What the worker registers.
    pub registrations: Vec<WorkerRegistration>,
}

/// Whether a worker is asked what it registers: not where it found errors.
pub fn wants_registration(diagnostics: &Vec<ConfigDiagnostic>) -> (r: bool)
    ensures
        r == !holds_error(findings(diagnostics@)),
{
    !diagnostics_have_errors(diagnostics)
}

/// The plugin that a started worker gives.
pub fn worker_instance(
    spec: &WorkerPluginLoadSpec,
    handshake: &WorkerHandshake,
    validation_diagnostics: Vec<ConfigDiagnostic>,
    registrations: Vec<WorkerRegistration>,
) -> (r: WorkerPluginInstance)
    ensures
        r.plugin_kind@ == spec.plugin_id@,
        r.allows_multiple_components == handshake.allows_multiple_components,
        object_view(r.config.entries@) == object_view(spec.config.entries@),
        json_wf(Json::Object(spec.config)) ==> r.wf(),
        r.validation_diagnostics == validation_diagnostics,
        r.registrations == registrations,
{
    WorkerPluginInstance {
        plugin_kind: spec.plugin_id.clone(),
        allows_multiple_components: handshake.allows_multiple_components,
        config: copy_object(&spec.config),
        validation_diagnostics,
        registrations,
    }
}

/// What a callback of a worker is called for.
#[derive(Debug, Clone, Copy, PartialEq, Eq, Structural)]
pub enum WorkerCallback {
    /// It is told of an event.
    Subscriber,
    /// It gives the fields of an event.
    EventSanitizer,
    /// It gives the value of a tool call.
    ToolJson,
    /// It gives a reason against a tool call.
    ToolGuardrail,
    /// It runs around a tool call.
    ToolExecution,
    /// It gives an LLM request.
    LlmSanitizeRequest,
    /// It gives an LLM response.
    LlmSanitizeResponse,
    /// It gives a reason against an LLM call.
    LlmGuardrail,
    /// It gives an LLM request and what is known of it.
    LlmRequestIntercept,
    /// It runs around an LLM call.
    LlmExecution,
    /// It runs around a streamed LLM call.
    LlmStreamExecution,
}

/// A callback that is to be installed for a registration of a worker.
#[derive(Debug)]
pub struct PlannedCallback {
    /// Surface.
    pub surface: RegistrationSurface,
    /// Name within the plugin.
    pub name: String,
    /// What the callback is called for.
    pub callback: WorkerCallback,
    /// Priority among the callbacks of the surface, where these are ordered.
    pub priority: Option<i64>,
    /// Whether later intercepts are left out, where the surface has them.
    pub break_chain: Option<bool>,
}

/// What the callback of a surface is called for.
pub open spec fn callback_of(surface: RegistrationSurface) -> WorkerCallback {
    match surface {
        RegistrationSurface::Subscriber => WorkerCallback::Subscriber,
        RegistrationSurface::MarkSanitizeGuardrail => WorkerCallback::EventSanitizer,
        RegistrationSurface::ScopeSanitizeStartGuardrail => WorkerCallback::EventSanitizer,
        RegistrationSurface::ScopeSanitizeEndGuardrail => WorkerCallback::EventSanitizer,
        RegistrationSurface::ToolSanitizeRequestGuardrail => WorkerCallback::ToolJson,
        RegistrationSurface::ToolSanitizeResponseGuardrail => WorkerCallback::ToolJson,
        RegistrationSurface::ToolConditionalExecutionGuardrail => WorkerCallback::ToolGuardrail,
        RegistrationSurface::ToolRequestIntercept => WorkerCallback::ToolJson,
        RegistrationSurface::ToolExecutionIntercept => WorkerCallback::ToolExecution,
        RegistrationSurface::LlmSanitizeRequestGuardrail => WorkerCallback::LlmSanitizeRequest,
        RegistrationSurface::LlmSanitizeResponseGuardrail => WorkerCallback::LlmSanitizeResponse,
        RegistrationSurface::LlmConditionalExecutionGuardrail => WorkerCallback::LlmGuardrail,
        RegistrationSurface::LlmRequestIntercept => WorkerCallback::LlmRequestIntercept,
        RegistrationSurface::LlmExecutionIntercept => WorkerCallback::LlmExecution,
        RegistrationSurface::LlmStreamExecutionIntercept => WorkerCallback::LlmStreamExecution,
    }
}

/// Whether a callback is the one to install for a registration.
pub open spec fn is_planned(registration: WorkerRegistration, planned: PlannedCallback) -> bool {
    &&& registration.surface == WorkerSurface::Known(planned.surface)
    &&& planned.name@ == registration.local_name@
    &&& planned.callback == callback_of(planned.surface)
    &&& planned.priority == (if planned.surface == RegistrationSurface::Subscriber {
        None
    } else {
        Some(registration.priority)
    })
    &&& planned.break_chain == (if breaks_chains(planned.surface) {
        Some(registration.break_chain)
    } else {
        None
    })
}

/// What the callback of a surface is called for.
fn callback_for(surface: RegistrationSurface) -> (r: WorkerCallback)
    ensures
        r == callback_of(surface),
{
    match surface {
        RegistrationSurface::Subscriber => WorkerCallback::Subscriber,
        RegistrationSurface::MarkSanitizeGuardrail => WorkerCallback::EventSanitizer,
        RegistrationSurface::ScopeSanitizeStartGuardrail => WorkerCallback::EventSanitizer,
        RegistrationSurface::ScopeSanitizeEndGuardrail => WorkerCallback::EventSanitizer,
        RegistrationSurface::ToolSanitizeRequestGuardrail => WorkerCallback::ToolJson,
        RegistrationSurface::ToolSanitizeResponseGuardrail => WorkerCallback::ToolJson,
        RegistrationSurface::ToolConditionalExecutionGuardrail => WorkerCallback::ToolGuardrail,
        RegistrationSurface::ToolRequestIntercept => WorkerCallback::ToolJson,
        RegistrationSurface::ToolExecutionIntercept => WorkerCallback::ToolExecution,
        RegistrationSurface::LlmSanitizeRequestGuardrail => WorkerCallback::LlmSanitizeRequest,
        RegistrationSurface::LlmSanitizeResponseGuardrail => WorkerCallback::LlmSanitizeResponse,
        RegistrationSurface::LlmConditionalExecutionGuardrail => WorkerCallback::LlmGuardrail,
        RegistrationSurface::LlmRequestIntercept => WorkerCallback::LlmRequestIntercept,
        RegistrationSurface::LlmExecutionIntercept => WorkerCallback::LlmExecution,
        RegistrationSurface::LlmStreamExecutionIntercept => WorkerCallback::LlmStreamExecution,
    }
}

/// The callback that is to be installed for a registration, where its surface is known.
pub fn planned_callback(registration: &WorkerRegistration) -> (r: Option<PlannedCallback>)
    ensures
        r is Some == (registration.surface is Known),
        r matches Some(planned) ==> is_planned(*registration, planned),
{
    match registration.surface {
        WorkerSurface::Known(surface) => {
            let priority = if surface == RegistrationSurface::Subscriber {
                None
            } else {
                Some(registration.priority)
            };
            let break_chain = if surface == RegistrationSurface::ToolRequestIntercept || surface
                == RegistrationSurface::LlmRequestIntercept {
                Some(registration.break_chain)
            } else {
                None
            };
            Some(
                PlannedCallback {
                    surface,
                    name: registration.local_name.clone(),
                    callback: callback_for(surface),
                    priority,
                    break_chain,
                },
            )
        },
        _ => None,
    }
}

/// The text of a configuration that is not the one a worker was started with.
pub open spec fn config_changed_text() -> Seq<char> {
    "worker plugin config changed after dynamic activation; reload the worker activation"@
}

/// The findings of a worker plugin in a configuration.
pub open spec fn worker_findings(
    plugin: WorkerPluginInstance,
    config: Map<Seq<char>, JsonView>,
) -> Seq<DiagnosticView> {
    if config != object_view(plugin.config.entries@) {
        seq![
            DiagnosticView {
                level: DiagnosticLevel::Error,
                code: "plugin.worker_config_mismatch"@,
                component: Some(plugin.plugin_kind@),
                field: None,
                message: config_changed_text(),
            },
        ]
    } else {
        findings(plugin.validation_diagnostics@)
    }
}

/// The problem of installing one registration of a worker; `outcome` is what the runtime said
/// to its callback.
pub open spec fn install_problem(
    plugin_kind: Seq<char>,
    registration: WorkerRegistration,
    outcome: Result<(), String>,
) -> Option<ErrorView> {
    match registration.surface {
        WorkerSurface::Known(surface) => match outcome {
            Ok(()) => None,
            Err(e) => Some(registration_error(surface, e@)),
        },
        _ => surface_problem(plugin_kind, registration.surface),
    }
}

/// What installing registrations in order leads to: the recorded registrations, and the
/// problem that it stopped at.
pub open spec fn installed(
    plugin_kind: Seq<char>,
    namespace: Option<String>,
    registrations: Seq<WorkerRegistration>,
    outcomes: Seq<Result<(), String>>,
) -> (Seq<RegistrationView>, Option<ErrorView>)
    decreases registrations.len(),
{
    if registrations.len() == 0 {
        (Seq::empty(), None)
    } else {
        let (before, problem) = installed(
            plugin_kind,
            namespace,
            registrations.drop_last(),
            outcomes,
        );
        let last = registrations.last();
        match problem {
            Some(e) => (before, Some(e)),
            None => match install_problem(
                plugin_kind,
                last,
                outcomes[registrations.len() - 1],
            ) {
                Some(e) => (before, Some(e)),
                None => (
                    before.push(("plugin"@, qualified(namespace, last.local_name@))),
                    None,
                ),
            },
        }
    }
}

/// Installing registrations stops at the first problem.
proof fn lemma_install_stops(
    plugin_kind: Seq<char>,
    namespace: Option<String>,
    registrations: Seq<WorkerRegistration>,
    outcomes: Seq<Result<(), String>>,
    n: int,
)
    requires
        0 <= n <= registrations.len(),
        installed(plugin_kind, namespace, registrations.take(n), outcomes).1 is Some,
    ensures
        installed(plugin_kind, namespace, registrations, outcomes) == installed(
            plugin_kind,
            namespace,
            registrations.take(n),
            outcomes,
        ),
    decreases registrations.len(),
{
    if n == registrations.len() {
        assert(registrations.take(n) =~= registrations);
    } else {
        assert(registrations.drop_last().take(n) =~= registrations.take(n));
        lemma_install_stops(plugin_kind, namespace, registrations.drop_last(), outcomes, n);
    }
}

impl WorkerPluginInstance {
    /// Whether the configuration is well-formed.
    pub open spec fn wf(self) -> bool {
        json_wf(Json::Object(self.config))
    }

    /// The findings of the plugin in a configuration: what the worker found when it was
    /// started, or that the configuration changed since.
    pub fn validate(&self, plugin_config: &TextMap<Json>) -> (r: Vec<ConfigDiagnostic>)
        requires
            self.wf(),
            json_wf(Json::Object(*plugin_config)),
        ensures
            findings(r@) == worker_findings(*self, object_view(plugin_config.entries@)),
    {
        if !objects_eq(plugin_config, &self.config) {
            let mut found: Vec<ConfigDiagnostic> = Vec::new();
            let finding = ConfigDiagnostic {
                level: DiagnosticLevel::Error,
                code: "plugin.worker_config_mismatch".to_owned(),
                component: Some(self.plugin_kind.clone()),
                field: None,
                message: "worker plugin config changed after dynamic activation; reload the worker activation".to_owned(),
            };
            found.push(finding);
            assert(findings(found@) =~= seq![finding@]);
            return found;
        }
        clone_diagnostics(&self.validation_diagnostics)
    }

    /// Whether the plugin may be registered with a configuration: only with the one that the
    /// worker was started with.
    pub fn check_registration_config(&self, plugin_config: &TextMap<Json>) -> (r: Result<
        (),
        PluginError,
    >)
        requires
            self.wf(),
            json_wf(Json::Object(*plugin_config)),
        ensures
            failure(r) == (if object_view(plugin_config.entries@) == object_view(
                self.config.entries@,
            ) {
                None
            } else {
                Some((PluginErrorKind::RegistrationFailed, config_changed_text()))
            }),
    {
        if objects_eq(plugin_config, &self.config) {
            Ok(())
        } else {
            Err(
                PluginError::RegistrationFailed(
                    "worker plugin config changed after dynamic activation; reload the worker activation".to_owned(),
                ),
            )
        }
    }

    /// Installs the registrations of the plugin, in order, up to the first that fails;
    /// `outcomes` is what the runtime said to each callback.
    pub fn install_registrations(
        &self,
        ctx: &mut PluginRegistrationContext,
        outcomes: &Vec<Result<(), String>>,
    ) -> (r: Result<(), PluginError>)
        requires
            outcomes@.len() == self.registrations@.len(),
        ensures
            final(ctx).namespace == old(ctx).namespace,
            ({
                let (recorded, problem) = installed(
                    self.plugin_kind@,
                    old(ctx).namespace,
                    self.registrations@,
                    outcomes@,
                );
                &&& failure(r) == problem
                &&& registration_views(final(ctx).registrations@) == registration_views(
                    old(ctx).registrations@,
                ) + recorded
            }),
    {
        let ghost namespace = ctx.namespace;
        let ghost start = registration_views(ctx.registrations@);
        let ghost kind = self.plugin_kind@;
        let mut i: usize = 0;
        assert(self.registrations@.take(0) =~= Seq::empty());
        assert(start + Seq::<RegistrationView>::empty() =~= start);
        while i < self.registrations.len()
            invariant
                i <= self.registrations@.len(),
                outcomes@.len() == self.registrations@.len(),
                kind == self.plugin_kind@,
                namespace == old(ctx).namespace,
                ctx.namespace == namespace,
                start == registration_views(old(ctx).registrations@),
                installed(kind, namespace, self.registrations@.take(i as int), outcomes@).1 is None,
                registration_views(ctx.registrations@) == start + installed(
                    kind,
                    namespace,
                    self.registrations@.take(i as int),
                    outcomes@,
                ).0,
            decreases self.registrations.len() - i,
        {
            let registration = &self.registrations[i];
            let ghost before = self.registrations@.take(i as int);
            let ghost through = self.registrations@.take(i + 1);
            proof {
                assert(through.drop_last() =~= before);
                assert(through.last() == *registration);
            }
            let surface = match check_surface(self.plugin_kind.as_str(), registration.surface) {
                Err(e) => {
                    proof {
                        lemma_install_stops(kind, namespace, self.registrations@, outcomes@, i + 1);
                    }
                    return Err(e);
                },
                Ok(surface) => surface,
            };
            let outcome: Result<(), String> = match &outcomes[i] {
                Ok(()) => Ok(()),
                Err(e) => Err(e.clone()),
            };
            assert(install_problem(kind, *registration, outcome) == install_problem(
                kind,
                *registration,
                outcomes@[i as int],
            ));
            if let Err(e) = ctx.record(surface, registration.local_name.as_str(), outcome) {
                proof {
                    lemma_install_stops(kind, namespace, self.registrations@, outcomes@, i + 1);
                }
                return Err(e);
            }
            proof {
                let added = ("plugin"@, qualified(namespace, registration.local_name@));
                let earlier = installed(kind, namespace, before, outcomes@).0;
                assert((start + earlier).push(added) =~= start + earlier.push(added));
            }
            i += 1;
        }
        assert(self.registrations@.take(i as int) =~= self.registrations@);
        Ok(())
    }
}

/// Worker plugins whose kinds are registered.
///
/// The kinds are deregistered before the workers are shut down; the active plugin
/// configuration has to be cleared first, so that no callback outlives its worker.
pub struct WorkerPluginActivation {
    /// Loaded plugins, in load order.
    pub plugins: Vec<WorkerPluginInstance>,
    /// Kinds and registration identities, in load order.
    pub plugin_registrations: Vec<(String, u64)>,
}

/// What loading gave for each plugin: its kind and whether that may occur several times, or
/// the error.
pub open spec fn worker_kinds(loaded: Seq<Result<WorkerPluginInstance, PluginError>>) -> Seq<
    Result<LoadedKind, ErrorView>,
> {
    Seq::new(
        loaded.len(),
        |i: int|
            match loaded[i] {
                Ok(plugin) => Ok((plugin.plugin_kind@, plugin.allows_multiple_components)),
                Err(e) => Err(e@),
            },
    )
}

/// The plugins of a list of results that all succeeded.
pub open spec fn loaded_workers(
    loaded: Seq<Result<WorkerPluginInstance, PluginError>>,
) -> Seq<WorkerPluginInstance> {
    Seq::new(loaded.len(), |i: int| loaded[i]->Ok_0)
}

/// The outcomes of shutting plugins down, last first, as one.
pub open spec fn shut_down(outcomes: Seq<DynamicPluginTeardownOutcome>) -> (Seq<String>, bool)
    decreases outcomes.len(),
{
    if outcomes.len() == 0 {
        (Seq::empty(), true)
    } else {
        let rest = shut_down(outcomes.subrange(1, outcomes.len() as int));
        (rest.0 + outcomes[0].errors@, rest.1 && outcomes[0].safe_to_unload)
    }
}

/// Joins the outcomes of shutting plugins down, which come in load order, from the last
/// plugin to the first.
pub fn merge_worker_shutdowns(outcomes: Vec<DynamicPluginTeardownOutcome>) -> (r:
    DynamicPluginTeardownOutcome)
    ensures
        r.errors@ == shut_down(outcomes@).0,
        r.safe_to_unload == shut_down(outcomes@).1,
{
    let ghost all = outcomes@;
    let mut outcome = DynamicPluginTeardownOutcome::success();
    let mut remaining = outcomes;
    assert(all.skip(all.len() as int) =~= Seq::empty());
    assert(all.take(all.len() as int) =~= all);
    while remaining.len() > 0
        invariant
            remaining@.len() <= all.len(),
            remaining@ == all.take(remaining@.len() as int),
            outcome.errors@ == shut_down(all.skip(remaining@.len() as int)).0,
            outcome.safe_to_unload == shut_down(all.skip(remaining@.len() as int)).1,
        decreases remaining.len(),
    {
        let ghost n = remaining@.len() as int;
        if let Some(next) = remaining.pop() {
            proof {
                assert(next == all[n - 1]);
                assert(remaining@ =~= all.take(n - 1));
                let tail = all.skip(n - 1);
                assert(tail.subrange(1, tail.len() as int) =~= all.skip(n));
                assert(tail[0] == next);
            }
            outcome.merge(next);
        }
    }
    assert(all.skip(0) =~= all);
    outcome
}

impl WorkerPluginActivation {
    /// No worker plugins.
    pub fn new() -> (r: Self)
        ensures
            r.plugins@.len() == 0,
            r.plugin_registrations@.len() == 0,
    {
        WorkerPluginActivation { plugins: Vec::new(), plugin_registrations: Vec::new() }
    }

    /// Whether no worker plugins were loaded.
    pub fn is_empty(&self) -> (r: bool)
        ensures
            r == (self.plugins@.len() == 0),
    {
        self.plugins.len() == 0
    }

    /// Consumes the activation and deregisters the loaded kinds, last first. A kind that
    /// belongs to a later registration stays.
    pub fn clear(self, handlers: &mut PluginHandlers)
        requires
            old(handlers).wf(),
        ensures
            final(handlers).wf(),
            final(handlers)@ == torn_down(
                old(handlers)@,
                self.plugin_registrations@,
                "worker"@,
            ).0,
    {
        let mut registrations = self.plugin_registrations;
        let _ = deregister_tracked_registrations_checked(handlers, &mut registrations, "worker");
    }

    /// Deregisters the loaded kinds, last first, and reports each that was missing or belongs
    /// to a later registration.
    pub fn deregister_plugin_kinds_checked(&mut self, handlers: &mut PluginHandlers) -> (r:
        DynamicPluginTeardownOutcome)
        requires
            old(handlers).wf(),
        ensures
            final(handlers).wf(),
            final(self).plugins == old(self).plugins,
            final(self).plugin_registrations@.len() == 0,
            final(handlers)@ == torn_down(
                old(handlers)@,
                old(self).plugin_registrations@,
                "worker"@,
            ).0,
            text::texts(r.errors@) == torn_down(
                old(handlers)@,
                old(self).plugin_registrations@,
                "worker"@,
            ).1,
            r.safe_to_unload,
    {
        deregister_tracked_registrations_checked(
            handlers,
            &mut self.plugin_registrations,
            "worker",
        )
    }

    /// Registers the kind of a loaded plugin and keeps both.
    pub fn register_loaded(&mut self, handlers: &mut PluginHandlers, plugin: WorkerPluginInstance)
        -> (r: Result<(), PluginError>)
        requires
            old(handlers).wf(),
        ensures
            final(handlers).wf(),
            failure(r) == external_problem(old(handlers)@, plugin.plugin_kind@),
            r is Err ==> *final(handlers) == *old(handlers) && *final(self) == *old(self),
            r is Ok ==> final(handlers)@ == with_loaded(
                old(handlers)@,
                (plugin.plugin_kind@, plugin.allows_multiple_components),
            ) && final(self).plugins@ == old(self).plugins@.push(plugin) && registration_list(
                final(self).plugin_registrations@,
            ) == registration_list(old(self).plugin_registrations@).push(
                (plugin.plugin_kind@, old(handlers)@.next_id),
            ),
    {
        match register_plugin_tracked(
            handlers,
            plugin.plugin_kind.as_str(),
            plugin.allows_multiple_components,
        ) {
            Err(e) => Err(e),
            Ok(registration_id) => {
                let ghost before = self.plugin_registrations@;
                let kind = plugin.plugin_kind.clone();
                self.plugins.push(plugin);
                self.plugin_registrations.push((kind, registration_id));
                assert(registration_list(self.plugin_registrations@) =~= registration_list(
                    before,
                ).push((kind@, registration_id)));
                Ok(())
            },
        }
    }
}

/// Registers the kinds of loaded worker plugins, in order.
///
/// `loaded` holds what loading each plugin gave, up to the first that failed. Where one
/// failed, or its kind is taken, the kinds that were registered before it are deregistered
/// again and the registered kinds are what they were.
pub fn load_worker_plugins(
    handlers: &mut PluginHandlers,
    loaded: Vec<Result<WorkerPluginInstance, PluginError>>,
) -> (r: Result<WorkerPluginActivation, PluginError>)
    requires
        old(handlers).wf(),
    ensures
        final(handlers).wf(),
        failure(r) == kinds_registered(old(handlers)@, worker_kinds(loaded@)).2,
        r matches Ok(activation) ==> final(handlers)@ == kinds_registered(
            old(handlers)@,
            worker_kinds(loaded@),
        ).0 && registration_list(activation.plugin_registrations@) == kinds_registered(
            old(handlers)@,
            worker_kinds(loaded@),
        ).1 && activation.plugins@ == loaded_workers(loaded@),
        r is Err ==> final(handlers)@.plugins == old(handlers)@.plugins && final(handlers)@.next_id
            == kinds_registered(old(handlers)@, worker_kinds(loaded@)).0.next_id,
{
    let ghost all = loaded@;
    let ghost start = handlers@;
    let ghost kinds = worker_kinds(all);
    let mut activation = WorkerPluginActivation::new();
    let mut remaining = loaded;
    let ghost mut done: int = 0;
    proof {
        assert(kinds.take(0) =~= Seq::empty());
        assert(registration_list(activation.plugin_registrations@) =~= Seq::empty());
        assert(activation.plugins@ =~= loaded_workers(all.take(0)));
        assert(all.skip(0) =~= all);
    }
    while remaining.len() > 0
        invariant
            handlers.wf(),
            start == old(handlers)@,
            all == loaded@,
            kinds == worker_kinds(all),
            0 <= done <= all.len(),
            remaining@ == all.skip(done),
            kinds_registered(start, kinds.take(done)) == (
                handlers@,
                registration_list(activation.plugin_registrations@),
                None::<ErrorView>,
            ),
            activation.plugins@ == loaded_workers(all.take(done)),
        decreases remaining.len(),
    {
        let next = remaining.remove(0);
        proof {
            assert(next == all[done]);
            assert(remaining@ =~= all.skip(done + 1));
            assert(kinds.take(done + 1).drop_last() =~= kinds.take(done));
            assert(kinds.take(done + 1).last() == kinds[done]);
        }
        match next {
            Err(e) => {
                proof {
                    lemma_kinds_stop(start, kinds, done + 1);
                    lemma_teardown_undoes(
                        start,
                        kinds.take(done),
                        activation.plugin_registrations@,
                        "worker"@,
                    );
                }
                activation.clear(handlers);
                return Err(e);
            },
            Ok(plugin) => {
                if let Err(e) = activation.register_loaded(handlers, plugin) {
                    proof {
                        lemma_kinds_stop(start, kinds, done + 1);
                        lemma_teardown_undoes(
                            start,
                            kinds.take(done),
                            activation.plugin_registrations@,
                            "worker"@,
                        );
                    }
                    activation.clear(handlers);
                    return Err(e);
                }
                assert(activation.plugins@ =~= loaded_workers(all.take(done + 1)));
            },
        }
        proof {
            done = done + 1;
        }
    }
    assert(all.take(done) =~= all);
    assert(kinds.take(done) =~= kinds);
    Ok(activation)
}

/// A manifest is loaded as a worker exactly where it is that of the plugin, is of the worker kind,
/// is compatible with the host, and declares how the worker is started.
pub proof fn law_only_worker_manifests_are_loaded(
    m: DynamicPluginManifest,
    plugin_id: Seq<char>,
    host_version: Seq<char>,
)
    ensures
        worker_manifest_problem(m, plugin_id, host_version) is None <==> identity_problem(
            m,
            plugin_id,
        ) is None && m.plugin.kind == DynamicPluginKind::Worker && compatibility_problem(
            opt_text(m.compat.relay),
            "worker"@,
            host_version,
        ) is None && (m.load matches DynamicPluginManifestLoad::Worker(load) ==> load.runtime
            is Some && load.entrypoint is Some),
        identity_problem(m, plugin_id) is Some ==> worker_manifest_problem(
            m,
            plugin_id,
            host_version,
        ) == identity_problem(m, plugin_id),
{
}

/// What is started is what the manifest declares.
pub proof fn law_declared_workers_are_started(m: DynamicPluginManifest, target: WorkerLoadTarget)
    requires
        declares_worker(m, target),
    ensures
        m.compat.relay == Some(target.relay_compat),
        m.load is Worker,
        m.load->Worker_0.runtime == Some(target.runtime),
        m.load->Worker_0.entrypoint == Some(target.entrypoint),
{
}

/// How the failure of each call at startup is told.
pub proof fn law_failed_startup_calls_are_told()
    ensures
        startup_call_text(StartupCall::Health) == "worker health check failed: "@,
        startup_call_text(StartupCall::Handshake) == "worker handshake failed: "@,
        startup_call_text(StartupCall::Validate) == "worker validation RPC failed: "@,
        startup_call_text(StartupCall::Register) == "worker registration RPC failed: "@,
        WORKER_PROTOCOL_GRPC_V1@ == "grpc-v1"@,
{
}

/// A worker is taken for the plugin exactly where it says that it is that plugin, by identifier and
/// by kind, and speaks the protocol of the host.
pub proof fn law_workers_say_who_they_are(expected: Seq<char>, handshake: WorkerHandshake)
    ensures
        handshake_problem(expected, handshake) is None <==> handshake.plugin_id@ == expected
            && handshake.plugin_kind@ == expected && handshake.worker_protocol@ == "grpc-v1"@,
        handshake_problem(expected, handshake) matches Some(e) ==> e.0
            == PluginErrorKind::InvalidConfig,
{
}

/// Validating fails where the worker answers with an error or with findings that cannot be read;
/// its error is told with its code.
pub proof fn law_worker_validation_is_read(
    error: Option<WorkerError>,
    decoded: Option<Result<Vec<ConfigDiagnostic>, String>>,
)
    ensures
        validation_problem(error, decoded) is None <==> error is None && !(decoded matches Some(
            Err(_),
        )),
        error matches Some(e) ==> validation_problem(error, decoded) == Some(
            (
                PluginErrorKind::RegistrationFailed,
                if e.message@.len() == 0 {
                    "worker validation failed"@
                } else {
                    e.code@ + ": "@ + e.message@
                },
            ),
        ),
        error is None && (decoded matches Some(Err(_))) ==> validation_problem(error, decoded)
            == Some((PluginErrorKind::Serialization, decoded->0->Err_0@)),
{
}

/// What a worker registers is accepted exactly where each registration has a name and a surface of
/// the host.
pub proof fn law_worker_registrations_are_named(
    plugin_id: Seq<char>,
    registrations: Seq<WorkerRegistration>,
)
    ensures
        plan_problem(plugin_id, registrations) is None <==> (forall|i: int|
            0 <= i < registrations.len() ==> !blank((#[trigger] registrations[i]).local_name@)
                && registrations[i].surface is Known),
        plan_problem(plugin_id, registrations) matches Some(e) ==> e.0
            == PluginErrorKind::RegistrationFailed,
    decreases registrations.len(),
{
    if registrations.len() > 0 {
        let front = registrations.drop_last();
        law_worker_registrations_are_named(plugin_id, front);
        if plan_problem(plugin_id, registrations) is None {
            assert forall|i: int| 0 <= i < registrations.len() implies !blank(
                (#[trigger] registrations[i]).local_name@,
            ) && registrations[i].surface is Known by {
                if i < front.len() {
                    assert(front[i] == registrations[i]);
                }
            }
        }
        if forall|i: int|
            0 <= i < registrations.len() ==> !blank((#[trigger] registrations[i]).local_name@)
                && registrations[i].surface is Known {
            assert forall|i: int| 0 <= i < front.len() implies !blank(
                (#[trigger] front[i]).local_name@,
            ) && front[i].surface is Known by {
                assert(front[i] == registrations[i]);
            }
            assert(registrations[registrations.len() - 1].surface is Known);
        }
    }
}

/// The registrations of a worker are taken exactly where it answers without an error, each of them
/// can be accepted, and it may intercept LLM requests where it does.
pub proof fn law_worker_registrations_are_taken(
    plugin_id: Seq<char>,
    relay_compat: Seq<char>,
    error: Option<WorkerError>,
    registrations: Seq<WorkerRegistration>,
)
    ensures
        registration_answer_problem(plugin_id, relay_compat, error, registrations) is None
            <==> error is None && plan_problem(plugin_id, registrations) is None && ((exists|i: int|
            0 <= i < registrations.len() && (#[trigger] registrations[i]).surface
                == WorkerSurface::Known(RegistrationSurface::LlmRequestIntercept))
            ==> consumer_problem(relay_compat, plugin_id) is None),
        error matches Some(e) ==> registration_answer_problem(
            plugin_id,
            relay_compat,
            error,
            registrations,
        ) == Some(
            (
                PluginErrorKind::RegistrationFailed,
                if e.message@.len() == 0 {
                    "worker registration failed"@
                } else {
                    e.code@ + ": "@ + e.message@
                },
            ),
        ),
{
}

/// Which callback each surface gets.
pub proof fn law_surfaces_get_their_callbacks()
    ensures
        callback_of(RegistrationSurface::Subscriber) == WorkerCallback::Subscriber,
        callback_of(RegistrationSurface::MarkSanitizeGuardrail) == WorkerCallback::EventSanitizer,
        callback_of(RegistrationSurface::ScopeSanitizeStartGuardrail)
            == WorkerCallback::EventSanitizer,
        callback_of(RegistrationSurface::ScopeSanitizeEndGuardrail)
            == WorkerCallback::EventSanitizer,
        callback_of(RegistrationSurface::ToolSanitizeRequestGuardrail) == WorkerCallback::ToolJson,
        callback_of(RegistrationSurface::ToolSanitizeResponseGuardrail)
            == WorkerCallback::ToolJson,
        callback_of(RegistrationSurface::ToolConditionalExecutionGuardrail)
            == WorkerCallback::ToolGuardrail,
        callback_of(RegistrationSurface::ToolRequestIntercept) == WorkerCallback::ToolJson,
        callback_of(RegistrationSurface::ToolExecutionIntercept) == WorkerCallback::ToolExecution,
        callback_of(RegistrationSurface::LlmSanitizeRequestGuardrail)
            == WorkerCallback::LlmSanitizeRequest,
        callback_of(RegistrationSurface::LlmSanitizeResponseGuardrail)
            == WorkerCallback::LlmSanitizeResponse,
        callback_of(RegistrationSurface::LlmConditionalExecutionGuardrail)
            == WorkerCallback::LlmGuardrail,
        callback_of(RegistrationSurface::LlmRequestIntercept)
            == WorkerCallback::LlmRequestIntercept,
        callback_of(RegistrationSurface::LlmExecutionIntercept) == WorkerCallback::LlmExecution,
        callback_of(RegistrationSurface::LlmStreamExecutionIntercept)
            == WorkerCallback::LlmStreamExecution,
{
}

/// A callback is installed on the surface and under the name that the worker asked for, with its
/// priority on all surfaces but that of subscribers, and with the wish to break the chain on those
/// of request intercepts.
pub proof fn law_callbacks_are_installed_as_asked(
    registration: WorkerRegistration,
    planned: PlannedCallback,
)
    requires
        is_planned(registration, planned),
    ensures
        registration.surface == WorkerSurface::Known(planned.surface),
        planned.name@ == registration.local_name@,
        planned.surface == RegistrationSurface::Subscriber ==> planned.priority is None,
        planned.surface != RegistrationSurface::Subscriber ==> planned.priority == Some(
            registration.priority,
        ),
        planned.surface == RegistrationSurface::ToolRequestIntercept || planned.surface
            == RegistrationSurface::LlmRequestIntercept ==> planned.break_chain == Some(
            registration.break_chain,
        ),
        planned.surface != RegistrationSurface::ToolRequestIntercept && planned.surface
            != RegistrationSurface::LlmRequestIntercept ==> planned.break_chain is None,
{
}

/// A worker that was started with another configuration than the component's reports an error;
/// else it reports what it found at startup.
pub proof fn law_changed_configurations_are_errors(
    plugin: WorkerPluginInstance,
    config: Map<Seq<char>, JsonView>,
)
    ensures
        config == object_view(plugin.config.entries@) ==> worker_findings(plugin, config)
            == findings(plugin.validation_diagnostics@),
        config != object_view(plugin.config.entries@) ==> worker_findings(plugin, config).len() == 1
            && worker_findings(plugin, config)[0].level == DiagnosticLevel::Error
            && worker_findings(plugin, config)[0].code == "plugin.worker_config_mismatch"@
            && worker_findings(plugin, config)[0].component == Some(plugin.plugin_kind@),
{
}

/// Registrations are installed one after the other, each under its name in the namespace, up to the
/// first that fails, whose error is told.
pub proof fn law_registrations_are_installed_in_order(
    plugin_kind: Seq<char>,
    namespace: Option<String>,
    registrations: Seq<WorkerRegistration>,
    last: WorkerRegistration,
    outcomes: Seq<Result<(), String>>,
)
    ensures
        ({
            let before = installed(plugin_kind, namespace, registrations, outcomes);
            let after = installed(plugin_kind, namespace, registrations.push(last), outcomes);
            let outcome = outcomes[registrations.len() as int];
            &&& before.1 is Some ==> after == before
            &&& before.1 is None && (last.surface is Known) && outcome is Ok ==> after.1 is None
                && after.0 == before.0.push(
                (
                    "plugin"@,
                    match namespace {
                        Some(prefix) => prefix@ + last.local_name@,
                        None => last.local_name@,
                    },
                ),
            )
            &&& before.1 is None && (last.surface is Known) && outcome is Err ==> after.0
                == before.0 && after.1 == Some(
                (
                    PluginErrorKind::RegistrationFailed,
                    last.surface->Known_0.description() + ": "@ + outcome->Err_0@,
                ),
            )
            &&& before.1 is None && !(last.surface is Known) ==> after.0 == before.0 && after.1
                is Some
        }),
        installed(plugin_kind, namespace, Seq::empty(), outcomes) == (
            Seq::<RegistrationView>::empty(),
            None::<ErrorView>,
        ),
{
    assert(registrations.push(last).drop_last() =~= registrations);
    assert(registrations.push(last).last() == last);
}

/// Unloading workers is safe exactly where it is safe for each of them, and every error is told.
pub proof fn law_every_shutdown_counts(outcomes: Seq<DynamicPluginTeardownOutcome>)
    ensures
        shut_down(outcomes).1 <==> (forall|i: int|
            0 <= i < outcomes.len() ==> (#[trigger] outcomes[i]).safe_to_unload),
        forall|i: int, e: String|
            0 <= i < outcomes.len() && #[trigger] outcomes[i].errors@.contains(e) ==> shut_down(
                outcomes,
            ).0.contains(e),
    decreases outcomes.len(),
{
    if outcomes.len() > 0 {
        let rest = outcomes.subrange(1, outcomes.len() as int);
        law_every_shutdown_counts(rest);
        let all = shut_down(outcomes);
        let later = shut_down(rest);
        assert forall|i: int, e: String|
            0 <= i < outcomes.len() && #[trigger] outcomes[i].errors@.contains(
                e,
            ) implies all.0.contains(e) by {
            if i > 0 {
                assert(rest[i - 1] == outcomes[i]);
                assert(rest[i - 1].errors@.contains(e));
                let k = later.0.index_of(e);
                assert(all.0[k] == e);
            } else {
                let k = outcomes[0].errors@.index_of(e);
                assert(all.0[later.0.len() + k] == e);
            }
        }
        if all.1 {
            assert forall|i: int| 0 <= i < outcomes.len() implies (
            #[trigger] outcomes[i]).safe_to_unload by {
                if i > 0 {
                    assert(rest[i - 1] == outcomes[i]);
                }
            }
        }
        if forall|i: int| 0 <= i < outcomes.len() ==> (#[trigger] outcomes[i]).safe_to_unload {
            assert forall|i: int| 0 <= i < rest.len() implies (#[trigger] rest[i]).safe_to_unload by {
                assert(rest[i] == outcomes[i + 1]);
            }
        }
    }
}

/// What is told where a manifest is not loaded as a worker, or the worker does not fit it.
pub proof fn law_unfit_workers_are_told(
    m: DynamicPluginManifest,
    plugin_id: Seq<char>,
    handshake: WorkerHandshake,
    registration: WorkerRegistration,
    number: i64,
)
    ensures
        m.plugin.kind == DynamicPluginKind::RustDynamic ==> worker_lane_problem(m, plugin_id)
            == Some(
            (
                PluginErrorKind::InvalidConfig,
                "dynamic plugin '"@ + plugin_id + "' is kind "@ + m.plugin.kind.label()
                    + "; worker loader only supports worker"@,
            ),
        ),
        (m.load matches DynamicPluginManifestLoad::Worker(load) && load.runtime is None)
            ==> worker_contract_problem(m) == Some(
            (PluginErrorKind::InvalidConfig, "load.runtime is required"@),
        ),
        (m.load matches DynamicPluginManifestLoad::Worker(load) && load.runtime is Some
            && load.entrypoint is None) ==> worker_contract_problem(m) == Some(
            (PluginErrorKind::InvalidConfig, "load.entrypoint is required"@),
        ),
        handshake.plugin_id@ != plugin_id || handshake.plugin_kind@ != plugin_id
            ==> handshake_problem(plugin_id, handshake) == Some(
            (
                PluginErrorKind::InvalidConfig,
                "worker plugin returned id '"@ + handshake.plugin_id@ + "' kind '"@
                    + handshake.plugin_kind@ + "' but manifest id is '"@ + plugin_id + "'"@,
            ),
        ),
        handshake.plugin_id@ == plugin_id && handshake.plugin_kind@ == plugin_id
            && handshake.worker_protocol@ != "grpc-v1"@ ==> handshake_problem(plugin_id, handshake)
            == Some(
            (
                PluginErrorKind::InvalidConfig,
                "unsupported worker_protocol '"@ + handshake.worker_protocol@ + "'"@,
            ),
        ),
        surface_problem(plugin_id, WorkerSurface::Unspecified) == Some(
            (
                PluginErrorKind::RegistrationFailed,
                "worker plugin '"@ + plugin_id + "' returned unspecified registration surface"@,
            ),
        ),
        surface_problem(plugin_id, WorkerSurface::Unsupported(number)) == Some(
            (
                PluginErrorKind::RegistrationFailed,
                "worker plugin '"@ + plugin_id + "' returned unsupported registration surface "@
                    + signed_decimal(number as int),
            ),
        ),
        blank(registration.local_name@) ==> registration_problem(plugin_id, registration) == Some(
            (
                PluginErrorKind::RegistrationFailed,
                "worker plugin '"@ + plugin_id
                    + "' returned a registration with empty local_name"@,
            ),
        ),
        config_changed_text()
            == "worker plugin config changed after dynamic activation; reload the worker activation"@,
{
}

/// Workers are registered under the kind that they have, in the order in which they were loaded.
pub proof fn law_loaded_workers_are_registered(
    loaded: Seq<Result<WorkerPluginInstance, PluginError>>,
    i: int,
)
    requires
        0 <= i < loaded.len(),
    ensures
        worker_kinds(loaded).len() == loaded.len(),
        loaded[i] matches Ok(plugin) ==> worker_kinds(loaded)[i] == Ok::<LoadedKind, ErrorView>(
            (plugin.plugin_kind@, plugin.allows_multiple_components),
        ) && loaded_workers(loaded)[i] == plugin,
        loaded[i] matches Err(e) ==> worker_kinds(loaded)[i] == Err::<LoadedKind, ErrorView>(e@),
{
}

} // verus!
