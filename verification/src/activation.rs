//! The active plugin configuration: ownership, activation, replacement and
//! teardown.
//!
//! Registering and removing callbacks is the runtime's work. The functions here
//! take what that work gave and decide what becomes active, what is reported and
//! whether further changes stay possible.

use vstd::prelude::*;

use crate::config::{
    error_messages, extend_diagnostics, findings, holds_error, join_error_messages,
    record_runtime_diagnostic, with_failure, ConfigDiagnostic, ConfigReport, DiagnosticView,
    PluginComponentSpec, PluginConfig, PluginConfigView, RuntimeDiagnostic,
};
use crate::discovery::ResolvedPluginConfig;
use crate::error::{self, ErrorView, PluginError, PluginErrorKind};
use crate::handlers::{lookup_registered_plugin, HandlersView, PluginHandlers};
use crate::registrations::{
    all_removed, law_clean_rollback_reports_nothing,
    law_rollback_removes_each_once_last_first, record_rollback_failures, registration_views,
    removal_errors, removals, rollback_registrations_checked, PluginRegistration,
    PluginRegistrationCleanupOutcome, PluginRollbackOutcome, RegistrationView, RollbackRun,
};
use crate::text::{self, clone_texts, concat2, concat3, concat4, concat5, format_u64, join};
use crate::validation::{count_components, kind_total};

verus! {

/// Who may change the plugin configuration.
#[derive(Debug, Clone, Copy, PartialEq, Eq, Structural)]
pub enum PluginMutationOwner {
    /// Nobody at present.
    Idle,
    /// A change that is under way.
    Legacy,
    /// A dynamic plugin host.
    Host(u64),
}

/// A configuration with its report and what was registered for it.
pub struct ActivePluginConfiguration {
    /// The configuration.
    pub config: PluginConfig,
    /// The report of its activation.
    pub report: ConfigReport,
    /// What was registered for it, in order.
    pub registrations: Vec<PluginRegistration>,
}

/// The mathematical form of a report.
pub ghost struct ReportView {
    /// Validation findings.
    pub diagnostics: Seq<DiagnosticView>,
    /// Aggregated runtime failures.
    pub runtime: Seq<RuntimeDiagnostic>,
}

/// The mathematical form of a report.
pub open spec fn report_view(report: ConfigReport) -> ReportView {
    ReportView {
        diagnostics: findings(report.diagnostics@),
        runtime: report.runtime_diagnostics@,
    }
}

/// The mathematical form of an active configuration.
pub ghost struct ActiveView {
    /// The configuration.
    pub config: PluginConfigView,
    /// The report of its activation.
    pub report: ReportView,
    /// What was registered for it.
    pub registrations: Seq<RegistrationView>,
}

impl View for ActivePluginConfiguration {
    type V = ActiveView;

    open spec fn view(&self) -> ActiveView {
        ActiveView {
            config: self.config@,
            report: report_view(self.report),
            registrations: registration_views(self.registrations@),
        }
    }
}

/// The plugin configuration state of a process.
pub struct PluginRuntime {
    /// The active configuration.
    pub active: Option<ActivePluginConfiguration>,
    /// The report kept from the last failed teardown.
    pub retained_report: Option<ConfigReport>,
    /// Who may change the configuration.
    pub owner: PluginMutationOwner,
    /// Identity of the next dynamic plugin host.
    pub next_host_owner_id: u64,
}

/// The mathematical form of the configuration state.
pub ghost struct RuntimeView {
    /// The active configuration.
    pub active: Option<ActiveView>,
    /// The report kept from the last failed teardown.
    pub retained: Option<ReportView>,
    /// Who may change the configuration.
    pub owner: PluginMutationOwner,
    /// Identity of the next dynamic plugin host.
    pub next_owner_id: u64,
}

impl View for PluginRuntime {
    type V = RuntimeView;

    open spec fn view(&self) -> RuntimeView {
        RuntimeView {
            active: match self.active {
                Some(a) => Some(a@),
                None => None,
            },
            retained: match self.retained_report {
                Some(r) => Some(report_view(r)),
                None => None,
            },
            owner: self.owner,
            next_owner_id: self.next_host_owner_id,
        }
    }
}

/// Why a change of the plugin configuration has to wait.
pub open spec fn conflict_message(owner: PluginMutationOwner) -> Seq<char> {
    match owner {
        PluginMutationOwner::Idle => "plugin configuration is available"@,
        PluginMutationOwner::Legacy => "another plugin configuration mutation is in progress"@,
        PluginMutationOwner::Host(
            _,
        ) => "plugin configuration is owned by an active dynamic plugin host"@,
    }
}

/// The error of a change that has to wait.
pub fn plugin_mutation_conflict(owner: PluginMutationOwner) -> (r: PluginError)
    ensures
        r@ == (PluginErrorKind::Conflict, conflict_message(owner)),
{
    let message = match owner {
        PluginMutationOwner::Idle => "plugin configuration is available",
        PluginMutationOwner::Legacy => "another plugin configuration mutation is in progress",
        PluginMutationOwner::Host(
            _,
        ) => "plugin configuration is owned by an active dynamic plugin host",
    };
    PluginError::Conflict(message.to_owned())
}

/// What taking the configuration for one change is refused with.
pub open spec fn lease_problem(owner: PluginMutationOwner) -> Option<ErrorView> {
    if owner == PluginMutationOwner::Idle {
        None
    } else {
        Some((PluginErrorKind::Conflict, conflict_message(owner)))
    }
}

/// The error text for a host that meets a static configuration.
pub open spec fn static_active_message() -> Seq<char> {
    "a static plugin configuration is already active; to combine static and dynamic plugins, provide the static components as the base configuration to dynamic plugin activation before calling plugin initialization"@
}

/// What taking the configuration for a dynamic plugin host is refused with.
pub open spec fn host_lease_problem(runtime: RuntimeView) -> Option<ErrorView> {
    match lease_problem(runtime.owner) {
        Some(e) => Some(e),
        None => if runtime.active is Some {
            Some((PluginErrorKind::Conflict, static_active_message()))
        } else {
            None
        },
    }
}

/// What a host that lost the configuration is refused with.
pub open spec fn host_owner_problem(owner: PluginMutationOwner, owner_id: u64) -> Option<
    ErrorView,
> {
    if owner == PluginMutationOwner::Host(owner_id) {
        None
    } else {
        Some(
            (
                PluginErrorKind::Conflict,
                "dynamic plugin host no longer owns plugin configuration"@,
            ),
        )
    }
}

/// The error text that announces that no further changes are possible.
pub open spec fn disabled_suffix() -> Seq<char> {
    "; plugin configuration mutations are disabled for this process because callbacks may remain registered"@
}

/// What removing callbacks and flushing subscribers failed with.
pub open spec fn clear_problem(flush: Option<Seq<char>>, errors: Seq<Seq<char>>) -> Option<
    ErrorView,
> {
    let teardown = (
        PluginErrorKind::RegistrationFailed,
        "plugin teardown failed: "@ + text::joined(errors, "; "@),
    );
    match flush {
        None => if errors.len() == 0 {
            None
        } else {
            Some(teardown)
        },
        Some(f) => if errors.len() == 0 {
            Some((PluginErrorKind::Internal, f))
        } else {
            Some(
                (
                    PluginErrorKind::RegistrationFailed,
                    error::error_text(teardown) + "; subscriber flush also failed: "@ + f,
                ),
            )
        },
    }
}

/// A report with further runtime failures recorded.
pub open spec fn observing(report: ReportView, observed: Seq<RuntimeDiagnostic>) -> ReportView
    decreases observed.len(),
{
    if observed.len() == 0 {
        report
    } else {
        let before = observing(report, observed.drop_last());
        ReportView { runtime: with_failure(before.runtime, observed.last()), ..before }
    }
}

/// The report to keep after a teardown: that of the failed one where it holds
/// runtime failures, else the one kept so far.
pub open spec fn kept_report(
    retained: Option<ReportView>,
    torn_down: Option<ReportView>,
) -> Option<ReportView> {
    match torn_down {
        Some(r) if r.runtime.len() > 0 => Some(r),
        _ => retained,
    }
}

/// The configuration state after the active configuration was cleared.
pub open spec fn cleared(runtime: RuntimeView, problem: Option<ErrorView>) -> RuntimeView {
    RuntimeView {
        active: None,
        retained: if problem is None {
            None
        } else {
            kept_report(
                runtime.retained,
                match runtime.active {
                    Some(a) => Some(a.report),
                    None => None,
                },
            )
        },
        ..runtime
    }
}

/// The configuration state with runtime failures recorded against the active
/// report.
pub open spec fn with_observed(
    runtime: RuntimeView,
    observed: Seq<RuntimeDiagnostic>,
) -> RuntimeView {
    match runtime.active {
        None => runtime,
        Some(a) => RuntimeView {
            active: Some(ActiveView { report: observing(a.report, observed), ..a }),
            ..runtime
        },
    }
}

/// The outcome of clearing the configuration.
#[derive(Debug)]
pub struct PluginHostClearOutcome {
    /// What the clearing failed with, if anything.
    pub result: Result<(), PluginError>,
    /// Whether every callback is gone.
    pub callbacks_cleared: bool,
}

impl PluginRuntime {
    /// The state of a process without plugin configuration.
    pub fn new() -> (r: Self)
        ensures
            r@ == (RuntimeView {
                active: None,
                retained: None,
                owner: PluginMutationOwner::Idle,
                next_owner_id: 1,
            }),
    {
        PluginRuntime {
            active: None,
            retained_report: None,
            owner: PluginMutationOwner::Idle,
            next_host_owner_id: 1,
        }
    }

    /// Takes the configuration for one change.
    pub fn acquire_legacy_lease(&mut self) -> (r: Result<(), PluginError>)
        ensures
            error::failure(r) == lease_problem(old(self).owner),
            r is Err ==> *final(self) == *old(self),
            r is Ok ==> final(self)@ == (RuntimeView {
                owner: PluginMutationOwner::Legacy,
                ..old(self)@
            }) && final(self).active == old(self).active && final(self).retained_report == old(
                self,
            ).retained_report,
    {
        if self.owner != PluginMutationOwner::Idle {
            return Err(plugin_mutation_conflict(self.owner));
        }
        self.owner = PluginMutationOwner::Legacy;
        Ok(())
    }

    /// Gives the configuration back after one change.
    pub fn release_legacy_lease(&mut self)
        ensures
            final(self)@ == (RuntimeView {
                owner: if old(self).owner == PluginMutationOwner::Legacy {
                    PluginMutationOwner::Idle
                } else {
                    old(self).owner
                },
                ..old(self)@
            }),
    {
        if self.owner == PluginMutationOwner::Legacy {
            self.owner = PluginMutationOwner::Idle;
        }
    }

    /// Takes the configuration for a dynamic plugin host and returns the host's
    /// identity.
    pub fn acquire_plugin_host_lease(&mut self) -> (r: Result<u64, PluginError>)
        ensures
            error::failure(r) == host_lease_problem(old(self)@),
            r is Err ==> *final(self) == *old(self),
            r matches Ok(id) ==> id == old(self)@.next_owner_id && final(self)@ == (RuntimeView {
                owner: PluginMutationOwner::Host(id),
                next_owner_id: crate::handlers::next_identity(id),
                ..old(self)@
            }),
    {
        if self.owner != PluginMutationOwner::Idle {
            return Err(plugin_mutation_conflict(self.owner));
        }
        if self.active.is_some() {
            return Err(
                PluginError::Conflict(
                    "a static plugin configuration is already active; to combine static and dynamic plugins, provide the static components as the base configuration to dynamic plugin activation before calling plugin initialization".to_owned(),
                ),
            );
        }
        let owner_id = self.next_host_owner_id;
        self.next_host_owner_id = if owner_id < u64::MAX {
            owner_id + 1
        } else {
            0
        };
        self.owner = PluginMutationOwner::Host(owner_id);
        Ok(owner_id)
    }

    /// Gives the configuration back from a dynamic plugin host, where that host
    /// still has it.
    pub fn release_plugin_host_lease(&mut self, owner_id: u64)
        ensures
            final(self)@ == (RuntimeView {
                owner: if old(self).owner == PluginMutationOwner::Host(owner_id) {
                    PluginMutationOwner::Idle
                } else {
                    old(self).owner
                },
                ..old(self)@
            }),
    {
        if self.owner == PluginMutationOwner::Host(owner_id) {
            self.owner = PluginMutationOwner::Idle;
        }
    }

    /// Checks that a dynamic plugin host has the configuration.
    pub fn verify_plugin_host_owner(&self, owner_id: u64) -> (r: Result<(), PluginError>)
        ensures
            error::failure(r) == host_owner_problem(self.owner, owner_id),
    {
        if self.owner == PluginMutationOwner::Host(owner_id) {
            Ok(())
        } else {
            Err(
                PluginError::Conflict(
                    "dynamic plugin host no longer owns plugin configuration".to_owned(),
                ),
            )
        }
    }

    /// Whether a configuration is active.
    pub fn plugin_configuration_is_active(&self) -> (r: bool)
        ensures
            r == (self@.active is Some),
    {
        self.active.is_some()
    }

    /// Takes the registrations of the active configuration for their removal. The
    /// report stays in place, so that failures of the teardown are recorded
    /// against it.
    pub fn begin_clear(&mut self) -> (r: Vec<PluginRegistration>)
        ensures
            registration_views(r@) == (match old(self)@.active {
                Some(a) => a.registrations,
                None => Seq::empty(),
            }),
            r@ == (match old(self).active {
                Some(a) => a.registrations@,
                None => Seq::empty(),
            }),
            final(self)@ == (match old(self)@.active {
                Some(a) => RuntimeView {
                    active: Some(ActiveView { registrations: Seq::empty(), ..a }),
                    ..old(self)@
                },
                None => old(self)@,
            }),
    {
        match self.active.take() {
            Some(state) => {
                let registrations = state.registrations;
                let none: Vec<PluginRegistration> = Vec::new();
                assert(registration_views(none@) =~= Seq::empty());
                self.active = Some(
                    ActivePluginConfiguration {
                        config: state.config,
                        report: state.report,
                        registrations: none,
                    },
                );
                registrations
            },
            None => {
                let none: Vec<PluginRegistration> = Vec::new();
                assert(registration_views(none@) =~= Seq::empty());
                none
            },
        }
    }

    /// Ends a teardown: the configuration is no longer active, and its report is
    /// kept where the teardown failed and runtime failures were recorded.
    pub fn finish_clear(
        &mut self,
        flush_error: Option<String>,
        deregistration: PluginRollbackOutcome,
    ) -> (r: PluginHostClearOutcome)
        ensures
            error::failure(r.result) == clear_problem(
                text::opt_text(flush_error),
                text::texts(deregistration.errors@),
            ),
            r.callbacks_cleared == deregistration.callbacks_cleared,
            final(self)@ == cleared(old(self)@, error::failure(r.result)),
    {
        let teardown_report = match self.active.take() {
            Some(state) => Some(state.report),
            None => None,
        };
        let result = clear_result(flush_error, &deregistration);
        if result.is_ok() {
            self.retained_report = None;
        } else {
            match teardown_report {
                Some(report) => {
                    if report.runtime_diagnostics.len() > 0 {
                        self.retained_report = Some(report);
                    }
                },
                None => {},
            }
        }
        PluginHostClearOutcome { result, callbacks_cleared: deregistration.callbacks_cleared }
    }

    /// Records runtime failures, in order, against the active report.
    pub fn record_all(&mut self, observed: &Vec<RuntimeDiagnostic>)
        ensures
            final(self)@ == with_observed(old(self)@, observed@),
            match (old(self).active, final(self).active) {
                (Some(a), Some(b)) => a.config == b.config && a.registrations == b.registrations,
                (None, None) => true,
                _ => false,
            },
    {
        let ghost start = self@;
        let ghost active_before = self.active;
        let mut i: usize = 0;
        assert(observed@.take(0) =~= Seq::empty());
        while i < observed.len()
            invariant
                i <= observed.len(),
                self@ == with_observed(start, observed@.take(i as int)),
                match (active_before, self.active) {
                    (Some(a), Some(b)) => a.config == b.config && a.registrations
                        == b.registrations,
                    (None, None) => true,
                    _ => false,
                },
            decreases observed.len() - i,
        {
            assert(observed@.take(i + 1).drop_last() =~= observed@.take(i as int));
            record_active_plugin_runtime_diagnostic(self, observed[i].clone());
            i += 1;
        }
        assert(observed@.take(observed@.len() as int) =~= observed@);
    }

    /// The rollback of the active configuration's registrations, which begins.
    pub fn begin_removal(&self) -> (r: RollbackRun)
        ensures
            r.total() == registered(*self).len(),
            r.answers() == Seq::<PluginRegistrationCleanupOutcome>::empty(),
    {
        match &self.active {
            Some(state) => RollbackRun::begin(state.registrations.len()),
            None => RollbackRun::begin(0),
        }
    }

    /// Clears the active configuration. `removal` is the rollback of its registrations,
    /// `observed` the runtime failures recorded meanwhile, and `flush_error` what flushing subscribers failed with.
    pub fn clear_plugin_configuration_inner(
        &mut self,
        flush_error: Option<String>,
        removal: &RollbackRun,
        observed: &Vec<RuntimeDiagnostic>,
    ) -> (r: PluginHostClearOutcome)
        requires
            removal.total() == registered(*old(self)).len(),
            removal.done(),
        ensures
            error::failure(r.result) == clear_problem(
                text::opt_text(flush_error),
                removal_errors(registered(*old(self)), *removal),
            ),
            r.callbacks_cleared == removal.gone(),
            final(self)@ == cleared(
                with_observed(old(self)@, observed@),
                error::failure(r.result),
            ),
    {
        let mut registrations = self.begin_clear();
        self.record_all(observed);
        let deregistration = rollback_registrations_checked(&mut registrations, removal);
        self.finish_clear(flush_error, deregistration)
    }
}

/// The registrations of the active configuration.
pub open spec fn registered(runtime: PluginRuntime) -> Seq<PluginRegistration> {
    match runtime.active {
        Some(a) => a.registrations@,
        None => Seq::empty(),
    }
}

/// The result of removing callbacks and flushing subscribers.
fn clear_result(flush_error: Option<String>, deregistration: &PluginRollbackOutcome) -> (r: Result<
    (),
    PluginError,
>)
    ensures
        error::failure(r) == clear_problem(
            text::opt_text(flush_error),
            text::texts(deregistration.errors@),
        ),
{
    if deregistration.errors.len() == 0 {
        match flush_error {
            None => Ok(()),
            Some(flush) => Err(PluginError::Internal(flush)),
        }
    } else {
        let joined = join(&deregistration.errors, "; ");
        let error = PluginError::RegistrationFailed(
            concat2("plugin teardown failed: ", joined.as_str()),
        );
        match flush_error {
            None => Err(error),
            Some(flush) => {
                let detail = error.to_text();
                Err(
                    PluginError::RegistrationFailed(
                        concat3(
                            detail.as_str(),
                            "; subscriber flush also failed: ",
                            flush.as_str(),
                        ),
                    ),
                )
            },
        }
    }
}

/// What clearing the configuration is refused or fails with.
pub open spec fn public_clear_problem(
    owner: PluginMutationOwner,
    problem: Option<ErrorView>,
    callbacks_cleared: bool,
) -> Option<ErrorView> {
    match lease_problem(owner) {
        Some(e) => Some(e),
        None => if callbacks_cleared {
            problem
        } else {
            Some(
                (
                    PluginErrorKind::RegistrationFailed,
                    (match problem {
                        Some(e) => error::error_text(e),
                        None => "plugin teardown was incomplete"@,
                    }) + disabled_suffix(),
                ),
            )
        },
    }
}

/// Whether clearing the configuration left a state and failed as it has to, by what flushing
/// subscribers failed with, the rollback of the registrations, and the runtime failures recorded
/// meanwhile.
pub open spec fn clears(
    before: PluginRuntime,
    after: PluginRuntime,
    flush: Option<Seq<char>>,
    removal: RollbackRun,
    observed: Seq<RuntimeDiagnostic>,
    failure: Option<ErrorView>,
) -> bool {
    let problem = clear_problem(flush, removal_errors(registered(before), removal));
    &&& failure == public_clear_problem(before.owner, problem, removal.gone())
    &&& before.owner != PluginMutationOwner::Idle ==> after == before
    &&& before.owner == PluginMutationOwner::Idle ==> after@ == (RuntimeView {
        owner: if removal.gone() {
            PluginMutationOwner::Idle
        } else {
            PluginMutationOwner::Legacy
        },
        ..cleared(with_observed(before@, observed), problem)
    })
}

/// Deregisters and clears all configured plugin components.
///
/// Registered plugin kinds remain available for future validation and
/// initialization. Where a callback could not be removed, no further change of the
/// configuration is possible. `removal` is the rollback of its registrations, `observed`
/// the runtime failures recorded meanwhile, and `flush_error` what flushing subscribers failed with.
pub fn clear_plugin_configuration(
    runtime: &mut PluginRuntime,
    flush_error: Option<String>,
    removal: &RollbackRun,
    observed: &Vec<RuntimeDiagnostic>,
) -> (r: Result<(), PluginError>)
    requires
        removal.total() == registered(*old(runtime)).len(),
        removal.done() || old(runtime).owner != PluginMutationOwner::Idle,
    ensures
        clears(
            *old(runtime),
            *final(runtime),
            text::opt_text(flush_error),
            *removal,
            observed@,
            error::failure(r),
        ),
{
    match runtime.acquire_legacy_lease() {
        Err(e) => return Err(e),
        Ok(()) => {},
    }
    let outcome = runtime.clear_plugin_configuration_inner(flush_error, removal, observed);
    if !outcome.callbacks_cleared {
        let detail = match outcome.result {
            Err(e) => e.to_text(),
            Ok(()) => "plugin teardown was incomplete".to_owned(),
        };
        return Err(
            PluginError::RegistrationFailed(
                concat2(
                    detail.as_str(),
                    "; plugin configuration mutations are disabled for this process because callbacks may remain registered",
                ),
            ),
        );
    }
    runtime.release_legacy_lease();
    outcome.result
}

/// Clears the configuration for a dynamic plugin host.
pub fn clear_plugin_configuration_for_host(
    runtime: &mut PluginRuntime,
    owner_id: u64,
    flush_error: Option<String>,
    removal: &RollbackRun,
    observed: &Vec<RuntimeDiagnostic>,
) -> (r: PluginHostClearOutcome)
    requires
        removal.total() == registered(*old(runtime)).len(),
        removal.done() || host_owner_problem(old(runtime).owner, owner_id) is Some,
    ensures
        match host_owner_problem(old(runtime).owner, owner_id) {
            Some(e) => error::failure(r.result) == Some(e) && !r.callbacks_cleared
                && *final(runtime) == *old(runtime),
            None => {
                &&& error::failure(r.result) == clear_problem(
                    text::opt_text(flush_error),
                    removal_errors(registered(*old(runtime)), *removal),
                )
                &&& r.callbacks_cleared == removal.gone()
                &&& final(runtime)@ == cleared(
                    with_observed(old(runtime)@, observed@),
                    error::failure(r.result),
                )
            },
        },
{
    match runtime.verify_plugin_host_owner(owner_id) {
        Err(e) => PluginHostClearOutcome { result: Err(e), callbacks_cleared: false },
        Ok(()) => runtime.clear_plugin_configuration_inner(flush_error, removal, observed),
    }
}

/// Returns the active plugin report or a report retained after a failed teardown.
///
/// This is a snapshot of the last successful activation and does not re-run
/// validation.
pub fn active_plugin_report(runtime: &PluginRuntime) -> (r: Option<ConfigReport>)
    ensures
        (match r {
            Some(report) => Some(report_view(report)),
            None => None,
        }) == (match runtime@.active {
            Some(a) => Some(a.report),
            None => runtime@.retained,
        }),
{
    match &runtime.active {
        Some(state) => Some(state.report.clone()),
        None => match &runtime.retained_report {
            Some(report) => Some(report.clone()),
            None => None,
        },
    }
}

/// Record a bounded runtime diagnostic against the active plugin report.
pub fn record_active_plugin_runtime_diagnostic(
    runtime: &mut PluginRuntime,
    diagnostic: RuntimeDiagnostic,
)
    ensures
        final(runtime)@ == (match old(runtime)@.active {
            None => old(runtime)@,
            Some(a) => RuntimeView {
                active: Some(
                    ActiveView {
                        report: ReportView {
                            runtime: with_failure(a.report.runtime, diagnostic),
                            ..a.report
                        },
                        ..a
                    },
                ),
                ..old(runtime)@
            },
        }),
        match (old(runtime).active, final(runtime).active) {
            (Some(a), Some(b)) => a.config == b.config && a.registrations == b.registrations,
            (None, None) => true,
            _ => false,
        },
{
    match runtime.active.take() {
        None => {},
        Some(state) => {
            let mut state = state;
            record_runtime_diagnostic(&mut state.report.runtime_diagnostics, diagnostic);
            runtime.active = Some(state);
        },
    }
}

/// What registering the components of a configuration gave.
pub type ActivationResult = Result<Vec<PluginRegistration>, PluginError>;

/// The mathematical form of what registering components gave.
pub open spec fn activation_view(result: ActivationResult) -> Result<
    Seq<RegistrationView>,
    ErrorView,
> {
    match result {
        Ok(registrations) => Ok(registration_views(registrations@)),
        Err(e) => Err(e@),
    }
}

/// What an initialization asked of the runtime, with the answers: how the previous
/// configuration's callbacks were removed and which runtime failures were recorded
/// meanwhile, what registering the new configuration gave, and what registering
/// the previous one again gave. Answers to what was not asked are ignored.
pub struct ActivationAnswers {
    /// How each callback of the previous configuration was removed, the last one
    /// first.
    pub teardown: RollbackRun,
    /// Runtime failures recorded during the teardown.
    pub observed: Vec<RuntimeDiagnostic>,
    /// What registering the new configuration gave.
    pub activation: ActivationResult,
    /// What registering the previous configuration again gave.
    pub restoration: ActivationResult,
}

/// The report of an initialization: the findings on how the configuration came
/// about, followed by those of its validation.
pub open spec fn initial_report(
    diagnostics: Seq<ConfigDiagnostic>,
    validation: ConfigReport,
) -> ReportView {
    ReportView {
        diagnostics: findings(diagnostics) + findings(validation.diagnostics@),
        runtime: Seq::empty(),
    }
}

/// The state with a configuration made active.
pub open spec fn with_active(runtime: RuntimeView, active: ActiveView) -> RuntimeView {
    RuntimeView { active: Some(active), retained: None, ..runtime }
}

/// The error of a previous configuration that could not be cleared.
pub open spec fn not_cleared_error(errors: Seq<Seq<char>>) -> ErrorView {
    (
        PluginErrorKind::RegistrationFailed,
        "previous plugin configuration could not be cleared: "@ + text::joined(errors, "; "@),
    )
}

/// The error of a previous configuration that could not be restored.
pub open spec fn not_restored_error(error: ErrorView, restore: ErrorView) -> ErrorView {
    (
        PluginErrorKind::RegistrationFailed,
        error::error_text(error) + "; previous plugin configuration could not be restored: "@
            + error::error_text(restore),
    )
}

/// What an initialization leads to.
pub ghost struct InitializationView {
    /// The state after it.
    pub runtime: RuntimeView,
    /// What it failed with; none where the configuration is active.
    pub problem: Option<ErrorView>,
    /// The errors of callbacks that may be left behind.
    pub left_behind: Seq<Seq<char>>,
}

/// What registering a configuration leads to where none was active.
pub open spec fn first_activation(
    runtime: RuntimeView,
    config: PluginConfigView,
    report: ReportView,
    activation: Result<Seq<RegistrationView>, ErrorView>,
) -> InitializationView {
    match activation {
        Ok(registrations) => InitializationView {
            runtime: with_active(runtime, ActiveView { config, report, registrations }),
            problem: None,
            left_behind: Seq::empty(),
        },
        Err(e) => InitializationView { runtime, problem: Some(e), left_behind: Seq::empty() },
    }
}

/// What replacing a configuration leads to once the previous one is cleared: the
/// new one is active, or the previous one again, or none.
pub open spec fn replacement(
    runtime: RuntimeView,
    previous: ActiveView,
    config: PluginConfigView,
    report: ReportView,
    activation: Result<Seq<RegistrationView>, ErrorView>,
    restoration: Result<Seq<RegistrationView>, ErrorView>,
) -> InitializationView {
    match activation {
        Ok(registrations) => InitializationView {
            runtime: with_active(runtime, ActiveView { config, report, registrations }),
            problem: None,
            left_behind: Seq::empty(),
        },
        Err(e) => match restoration {
            Ok(registrations) => InitializationView {
                runtime: with_active(runtime, ActiveView { registrations, ..previous }),
                problem: Some(e),
                left_behind: Seq::empty(),
            },
            Err(restore) => InitializationView {
                runtime,
                problem: Some(not_restored_error(e, restore)),
                left_behind: Seq::empty(),
            },
        },
    }
}

/// What an initialization leads to. `errors` are those of removing the previous
/// configuration's callbacks, `gone` tells whether all of them are gone.
pub open spec fn initialization(
    runtime: RuntimeView,
    config: PluginConfigView,
    report: ReportView,
    errors: Seq<Seq<char>>,
    gone: bool,
    observed: Seq<RuntimeDiagnostic>,
    activation: Result<Seq<RegistrationView>, ErrorView>,
    restoration: Result<Seq<RegistrationView>, ErrorView>,
) -> InitializationView {
    if holds_error(report.diagnostics) {
        InitializationView {
            runtime,
            problem: error::invalid(text::joined(error_messages(report.diagnostics), "; "@)),
            left_behind: Seq::empty(),
        }
    } else {
        match runtime.active {
            None => first_activation(runtime, config, report, activation),
            Some(previous) => if errors.len() > 0 {
                InitializationView {
                    runtime: RuntimeView {
                        active: None,
                        retained: kept_report(
                            runtime.retained,
                            Some(observing(previous.report, observed)),
                        ),
                        ..runtime
                    },
                    problem: Some(not_cleared_error(errors)),
                    left_behind: if gone {
                        Seq::empty()
                    } else {
                        errors
                    },
                }
            } else {
                replacement(
                    RuntimeView { active: None, ..runtime },
                    previous,
                    config,
                    report,
                    activation,
                    restoration,
                )
            },
        }
    }
}

impl PluginRuntime {
    /// Makes a configuration active and drops the report of a failed teardown.
    pub fn store_active_plugin_configuration(
        &mut self,
        config: PluginConfig,
        report: ConfigReport,
        registrations: Vec<PluginRegistration>,
    )
        ensures
            final(self)@ == with_active(
                old(self)@,
                ActiveView {
                    config: config@,
                    report: report_view(report),
                    registrations: registration_views(registrations@),
                },
            ),
    {
        self.active = Some(ActivePluginConfiguration { config, report, registrations });
        self.retained_report = None;
    }

    /// Puts a configuration in place, without registrations, while its callbacks
    /// are removed, so that failures of the teardown are recorded against it.
    pub fn install_previous_configuration_for_teardown(
        &mut self,
        previous_state: &ActivePluginConfiguration,
    )
        ensures
            final(self)@ == (RuntimeView {
                active: Some(
                    ActiveView { registrations: Seq::empty(), ..previous_state@ },
                ),
                ..old(self)@
            }),
    {
        let none: Vec<PluginRegistration> = Vec::new();
        assert(registration_views(none@) =~= Seq::empty());
        self.active = Some(
            ActivePluginConfiguration {
                config: previous_state.config.clone(),
                report: previous_state.report.clone(),
                registrations: none,
            },
        );
    }

    /// Takes the report of the configuration that was torn down.
    pub fn take_active_runtime_diagnostics_report(&mut self) -> (r: Option<ConfigReport>)
        ensures
            (match r {
                Some(report) => Some(report_view(report)),
                None => None,
            }) == (match old(self)@.active {
                Some(a) => Some(a.report),
                None => None,
            }),
            final(self)@ == (RuntimeView { active: None, ..old(self)@ }),
    {
        match self.active.take() {
            Some(state) => Some(state.report),
            None => None,
        }
    }

    /// Keeps what is known of a teardown that failed: its report where it holds
    /// runtime failures, and its errors where callbacks may be left behind.
    pub fn record_failed_teardown(
        &mut self,
        teardown: &PluginRollbackOutcome,
        teardown_report: Option<ConfigReport>,
        rollback_failures: &mut Vec<String>,
    )
        ensures
            final(self)@ == (RuntimeView {
                retained: kept_report(
                    old(self)@.retained,
                    match teardown_report {
                        Some(report) => Some(report_view(report)),
                        None => None,
                    },
                ),
                ..old(self)@
            }),
            final(rollback_failures)@ == (if teardown.callbacks_cleared {
                old(rollback_failures)@
            } else {
                old(rollback_failures)@ + teardown.errors@
            }),
    {
        match teardown_report {
            Some(report) => {
                if report.runtime_diagnostics.len() > 0 {
                    self.retained_report = Some(report);
                }
            },
            None => {},
        }
        if !teardown.callbacks_cleared {
            record_rollback_failures(rollback_failures, clone_texts(&teardown.errors));
        }
    }

    /// Decides what becomes of a replacement that could not be activated: the
    /// previous configuration is active again, or none is.
    pub fn restore_previous_plugin_configuration(
        &mut self,
        previous_state: ActivePluginConfiguration,
        restoration: ActivationResult,
        error: PluginError,
    ) -> (r: PluginError)
        ensures
            match activation_view(restoration) {
                Ok(registrations) => r == error && final(self)@ == with_active(
                    old(self)@,
                    ActiveView { registrations, ..previous_state@ },
                ),
                Err(restore) => r@ == not_restored_error(error@, restore) && *final(self) == *old(
                    self,
                ),
            },
    {
        match restoration {
            Ok(registrations) => {
                self.store_active_plugin_configuration(
                    previous_state.config,
                    previous_state.report,
                    registrations,
                );
                error
            },
            Err(restore) => {
                let first = error.to_text();
                let second = restore.to_text();
                PluginError::RegistrationFailed(
                    concat3(
                        first.as_str(),
                        "; previous plugin configuration could not be restored: ",
                        second.as_str(),
                    ),
                )
            },
        }
    }

    /// Replaces the previous configuration, which was taken out before.
    pub fn replace_plugin_configuration(
        &mut self,
        config: PluginConfig,
        report: ConfigReport,
        previous_state: ActivePluginConfiguration,
        answers: ActivationAnswers,
        rollback_failures: &mut Vec<String>,
    ) -> (r: Result<ConfigReport, PluginError>)
        requires
            old(self).active is None,
            answers.teardown.total() == previous_state.registrations@.len(),
            answers.teardown.done(),
            !holds_error(findings(report.diagnostics@)),
        ensures
            ({
                let errors = removal_errors(previous_state.registrations@, answers.teardown);
                let outcome = initialization(
                    RuntimeView { active: Some(previous_state@), ..old(self)@ },
                    config@,
                    report_view(report),
                    errors,
                    answers.teardown.gone(),
                    answers.observed@,
                    activation_view(answers.activation),
                    activation_view(answers.restoration),
                );
                &&& final(self)@ == outcome.runtime
                &&& error::failure(r) == outcome.problem
                &&& r matches Ok(given) ==> report_view(given) == report_view(report)
                &&& text::texts(final(rollback_failures)@) == text::texts(
                    old(rollback_failures)@,
                ) + outcome.left_behind
            }),
    {
        let mut previous_state = previous_state;
        let ghost previous = previous_state@;
        let ghost before_failures = rollback_failures@;
        self.install_previous_configuration_for_teardown(&previous_state);
        self.record_all(&answers.observed);
        let mut registrations: Vec<PluginRegistration> = Vec::new();
        std::mem::swap(&mut registrations, &mut previous_state.registrations);
        let teardown = rollback_registrations_checked(&mut registrations, &answers.teardown);
        let teardown_report = self.take_active_runtime_diagnostics_report();
        assert(text::texts(before_failures) + Seq::<Seq<char>>::empty() =~= text::texts(
            before_failures,
        ));
        if teardown.errors.len() > 0 {
            self.record_failed_teardown(&teardown, teardown_report, rollback_failures);
            assert(text::texts(before_failures + teardown.errors@) =~= text::texts(before_failures)
                + text::texts(teardown.errors@));
            let joined = join(&teardown.errors, "; ");
            return Err(
                PluginError::RegistrationFailed(
                    concat2(
                        "previous plugin configuration could not be cleared: ",
                        joined.as_str(),
                    ),
                ),
            );
        }
        match answers.activation {
            Ok(registrations) => {
                let given = report.clone();
                self.store_active_plugin_configuration(config, report, registrations);
                Ok(given)
            },
            Err(error) => Err(
                self.restore_previous_plugin_configuration(
                    previous_state,
                    answers.restoration,
                    error,
                ),
            ),
        }
    }

    /// Validates, activates or replaces a configuration, given what the runtime
    /// answered.
    pub fn initialize_plugins_exact_inner(
        &mut self,
        config: PluginConfig,
        diagnostics: Vec<ConfigDiagnostic>,
        validation: ConfigReport,
        answers: ActivationAnswers,
        rollback_failures: &mut Vec<String>,
    ) -> (r: Result<ConfigReport, PluginError>)
        requires
            answers.teardown.total() == registered(*old(self)).len(),
            answers.teardown.done() || holds_error(
                initial_report(diagnostics@, validation).diagnostics,
            ),
        ensures
            ({
                let outcome = initialization(
                    old(self)@,
                    config@,
                    initial_report(diagnostics@, validation),
                    removal_errors(registered(*old(self)), answers.teardown),
                    answers.teardown.gone(),
                    answers.observed@,
                    activation_view(answers.activation),
                    activation_view(answers.restoration),
                );
                &&& final(self)@ == outcome.runtime
                &&& error::failure(r) == outcome.problem
                &&& r matches Ok(given) ==> report_view(given) == initial_report(
                    diagnostics@,
                    validation,
                )
                &&& text::texts(final(rollback_failures)@) == text::texts(
                    old(rollback_failures)@,
                ) + outcome.left_behind
            }),
    {
        let ghost before_failures = rollback_failures@;
        let mut report = ConfigReport { diagnostics, runtime_diagnostics: Vec::new() };
        extend_diagnostics(&mut report.diagnostics, validation.diagnostics);
        assert(report_view(report) == initial_report(diagnostics@, validation)) by {
            assert(report.runtime_diagnostics@ =~= Seq::empty());
        }
        assert(text::texts(before_failures) + Seq::<Seq<char>>::empty() =~= text::texts(
            before_failures,
        ));
        if report.has_errors() {
            return Err(PluginError::InvalidConfig(join_error_messages(&report)));
        }
        match self.active.take() {
            Some(previous_state) => self.replace_plugin_configuration(
                config,
                report,
                previous_state,
                answers,
                rollback_failures,
            ),
            None => match answers.activation {
                Ok(registrations) => {
                    let given = report.clone();
                    self.store_active_plugin_configuration(config, report, registrations);
                    Ok(given)
                },
                Err(e) => Err(e),
            },
        }
    }
}

/// The error of an initialization that left callbacks behind.
pub open spec fn incomplete_rollback_error(problem: ErrorView, failures: Seq<Seq<char>>) -> ErrorView {
    (
        PluginErrorKind::RegistrationFailed,
        error::error_text(problem) + "; initialization rollback was incomplete: "@ + text::joined(
            failures,
            "; "@,
        ) + disabled_suffix(),
    )
}

/// The failures of an initialization: those of rolling back partial setups,
/// followed by those of the previous configuration's teardown.
pub open spec fn all_failures(pending: Seq<String>, left_behind: Seq<Seq<char>>) -> Seq<Seq<char>> {
    text::texts(pending) + left_behind
}

/// Configures the active plugin components for the host that owns the configuration.
/// The errors of callbacks that may be left behind are added to `rollback_failures`.
pub fn initialize_plugins_exact_for_host(
    runtime: &mut PluginRuntime,
    owner_id: u64,
    config: PluginConfig,
    diagnostics: Vec<ConfigDiagnostic>,
    validation: ConfigReport,
    answers: ActivationAnswers,
    rollback_failures: &mut Vec<String>,
) -> (r: Result<ConfigReport, PluginError>)
    requires
        answers.teardown.total() == registered(*old(runtime)).len(),
        answers.teardown.done() || host_owner_problem(old(runtime).owner, owner_id) is Some || holds_error(
            initial_report(diagnostics@, validation).diagnostics,
        ),
    ensures
        match host_owner_problem(old(runtime).owner, owner_id) {
            Some(e) => error::failure(r) == Some(e) && *final(runtime) == *old(runtime)
                && final(rollback_failures)@ == old(rollback_failures)@,
            None => {
                let outcome = initialization(
                    old(runtime)@,
                    config@,
                    initial_report(diagnostics@, validation),
                    removal_errors(registered(*old(runtime)), answers.teardown),
                    answers.teardown.gone(),
                    answers.observed@,
                    activation_view(answers.activation),
                    activation_view(answers.restoration),
                );
                &&& final(runtime)@ == outcome.runtime
                &&& error::failure(r) == outcome.problem
                &&& r matches Ok(given) ==> report_view(given) == initial_report(
                    diagnostics@,
                    validation,
                )
                &&& text::texts(final(rollback_failures)@) == text::texts(
                    old(rollback_failures)@,
                ) + outcome.left_behind
            },
        },
{
    match runtime.verify_plugin_host_owner(owner_id) {
        Err(e) => Err(e),
        Ok(()) => runtime.initialize_plugins_exact_inner(
            config,
            diagnostics,
            validation,
            answers,
            rollback_failures,
        ),
    }
}

/// Whether an initialization left the state and gave the result that the answers to what it
/// asked lead to. `pending_failures` are the errors of rolling back the setup of single
/// components during the registrations that the answers tell of.
pub open spec fn initialized(
    before: PluginRuntime,
    after: PluginRuntime,
    config: PluginConfig,
    diagnostics: Seq<ConfigDiagnostic>,
    validation: ConfigReport,
    answers: ActivationAnswers,
    pending_failures: Seq<String>,
    r: Result<ConfigReport, PluginError>,
) -> bool {
    if before.owner != PluginMutationOwner::Idle {
        error::failure(r) == lease_problem(before.owner) && after == before
    } else {
        let report = initial_report(diagnostics, validation);
        let outcome = initialization(
            before@,
            config@,
            report,
            removal_errors(registered(before), answers.teardown),
            answers.teardown.gone(),
            answers.observed@,
            activation_view(answers.activation),
            activation_view(answers.restoration),
        );
        let failures = all_failures(pending_failures, outcome.left_behind);
        let stuck = outcome.problem is Some && failures.len() > 0;
        &&& after@ == (RuntimeView {
            owner: if stuck {
                PluginMutationOwner::Legacy
            } else {
                PluginMutationOwner::Idle
            },
            ..outcome.runtime
        })
        &&& error::failure(r) == (if stuck {
            Some(incomplete_rollback_error(outcome.problem->0, failures))
        } else {
            outcome.problem
        })
        &&& r matches Ok(given) ==> report_view(given) == report
    }
}

/// Configures the active plugin components with a configuration that is applied as it is.
pub fn initialize_plugins_exact(
    runtime: &mut PluginRuntime,
    config: PluginConfig,
    validation: ConfigReport,
    answers: ActivationAnswers,
    pending_failures: Vec<String>,
) -> (r: Result<ConfigReport, PluginError>)
    requires
        answers.teardown.total() == registered(*old(runtime)).len(),
        answers.teardown.done() || old(runtime).owner != PluginMutationOwner::Idle || holds_error(
            initial_report(Seq::empty(), validation).diagnostics,
        ),
    ensures
        initialized(
            *old(runtime),
            *final(runtime),
            config,
            Seq::empty(),
            validation,
            answers,
            pending_failures@,
            r,
        ),
{
    initialize_plugins_with_diagnostics(
        runtime,
        config,
        Vec::new(),
        validation,
        answers,
        pending_failures,
    )
}

/// Configures the active plugin components with a configuration that was layered over the
/// discovered files. `decoded` is what decoding the resolved document gave; the findings on how
/// the document came about stand first in the report.
pub fn initialize_plugins(
    runtime: &mut PluginRuntime,
    resolved: ResolvedPluginConfig,
    decoded: Result<PluginConfig, String>,
    validation: ConfigReport,
    answers: ActivationAnswers,
    pending_failures: Vec<String>,
) -> (r: Result<ConfigReport, PluginError>)
    requires
        answers.teardown.total() == registered(*old(runtime)).len(),
        decoded is Err || answers.teardown.done() || old(runtime).owner != PluginMutationOwner::Idle || holds_error(
            initial_report(resolved.diagnostics@, validation).diagnostics,
        ),
    ensures
        match decoded {
            Err(e) => error::failure(r) == Some((PluginErrorKind::Serialization, e@))
                && *final(runtime) == *old(runtime),
            Ok(config) => initialized(
                *old(runtime),
                *final(runtime),
                config,
                resolved.diagnostics@,
                validation,
                answers,
                pending_failures@,
                r,
            ),
        },
{
    match decoded {
        Err(e) => Err(PluginError::Serialization(e)),
        Ok(config) => initialize_plugins_with_diagnostics(
            runtime,
            config,
            resolved.diagnostics,
            validation,
            answers,
            pending_failures,
        ),
    }
}

/// Configures the active plugin components.
///
/// The supplied configuration replaces the active one. If the new activation
/// fails, the previous configuration is restored where that is possible. Where
/// callbacks may be left behind, no further change of the configuration is
/// possible. `pending_failures` are the errors of rolling back the setup of single
/// components during the registrations that `answers` tells of.
pub fn initialize_plugins_with_diagnostics(
    runtime: &mut PluginRuntime,
    config: PluginConfig,
    diagnostics: Vec<ConfigDiagnostic>,
    validation: ConfigReport,
    answers: ActivationAnswers,
    pending_failures: Vec<String>,
) -> (r: Result<ConfigReport, PluginError>)
    requires
        answers.teardown.total() == registered(*old(runtime)).len(),
        answers.teardown.done() || old(runtime).owner != PluginMutationOwner::Idle || holds_error(
            initial_report(diagnostics@, validation).diagnostics,
        ),
    ensures
        initialized(
            *old(runtime),
            *final(runtime),
            config,
            diagnostics@,
            validation,
            answers,
            pending_failures@,
            r,
        ),
{
    match runtime.acquire_legacy_lease() {
        Err(e) => return Err(e),
        Ok(()) => {},
    }
    let mut rollback_failures = pending_failures;
    let result = runtime.initialize_plugins_exact_inner(
        config,
        diagnostics,
        validation,
        answers,
        &mut rollback_failures,
    );
    match result {
        Err(e) => {
            assert(text::texts(rollback_failures@).len() == rollback_failures@.len());
            if rollback_failures.len() > 0 {
                let detail = e.to_text();
                let joined = join(&rollback_failures, "; ");
                return Err(
                    PluginError::RegistrationFailed(
                        concat4(
                            detail.as_str(),
                            "; initialization rollback was incomplete: ",
                            joined.as_str(),
                            "; plugin configuration mutations are disabled for this process because callbacks may remain registered",
                        ),
                    ),
                );
            }
            runtime.release_legacy_lease();
            Err(e)
        },
        Ok(report) => {
            runtime.release_legacy_lease();
            Ok(report)
        },
    }
}

/// An initialization makes the new configuration active exactly where it
/// succeeds; a configuration with error findings changes nothing.
pub proof fn law_only_success_activates(
    runtime: RuntimeView,
    config: PluginConfigView,
    report: ReportView,
    errors: Seq<Seq<char>>,
    gone: bool,
    observed: Seq<RuntimeDiagnostic>,
    activation: Result<Seq<RegistrationView>, ErrorView>,
    restoration: Result<Seq<RegistrationView>, ErrorView>,
)
    ensures
        ({
            let outcome = initialization(
                runtime,
                config,
                report,
                errors,
                gone,
                observed,
                activation,
                restoration,
            );
            &&& outcome.problem is None ==> activation is Ok && outcome.runtime.active == Some(
                ActiveView { config, report, registrations: activation->Ok_0 },
            ) && outcome.runtime.retained is None
            &&& holds_error(report.diagnostics) ==> outcome.problem is Some && outcome.runtime
                == runtime
            &&& activation is Err ==> outcome.problem is Some
        }),
{
}

/// A replacement whose activation fails leaves the previous configuration active
/// with its report, where its callbacks were removed cleanly and registered again.
pub proof fn law_failed_replacement_restores_previous(
    runtime: RuntimeView,
    config: PluginConfigView,
    report: ReportView,
    observed: Seq<RuntimeDiagnostic>,
    error: ErrorView,
    restored: Seq<RegistrationView>,
)
    requires
        runtime.active is Some,
        !holds_error(report.diagnostics),
    ensures
        ({
            let outcome = initialization(
                runtime,
                config,
                report,
                Seq::empty(),
                true,
                observed,
                Err(error),
                Ok(restored),
            );
            &&& outcome.problem == Some(error)
            &&& outcome.runtime.active == Some(
                ActiveView { registrations: restored, ..runtime.active->0 },
            )
        }),
{
}

/// A failed initialization that replaces a configuration gives back the error of registering the
/// new one, where the callbacks of the previous configuration were simply removed and its
/// components could be registered again: the previous configuration is active with its report
/// as before, and later changes are not locked out.
pub proof fn law_failed_initialization_restores(
    before: PluginRuntime,
    after: PluginRuntime,
    config: PluginConfig,
    diagnostics: Seq<ConfigDiagnostic>,
    validation: ConfigReport,
    answers: ActivationAnswers,
    r: Result<ConfigReport, PluginError>,
)
    requires
        before.owner == PluginMutationOwner::Idle,
        before@.active is Some,
        !holds_error(initial_report(diagnostics, validation).diagnostics),
        answers.teardown.total() == registered(before).len(),
        answers.teardown.done(),
        all_removed(answers.teardown.answers()),
        answers.activation is Err,
        answers.restoration is Ok,
        initialized(before, after, config, diagnostics, validation, answers, Seq::empty(), r),
    ensures
        error::failure(r) == Some(answers.activation->Err_0@),
        after@.active == Some(
            ActiveView {
                registrations: registration_views(answers.restoration->Ok_0@),
                ..before@.active->0
            },
        ),
        after@.owner == PluginMutationOwner::Idle,
{
    law_clean_rollback_reports_nothing(
        registered(before),
        answers.teardown.answers(),
        answers.teardown.answers().len(),
    );
}

/// Clearing a configuration leaves none active, whatever fails.
pub proof fn law_clearing_deactivates(runtime: RuntimeView, problem: Option<ErrorView>)
    ensures
        cleared(runtime, problem).active is None,
        problem is None ==> cleared(runtime, problem).retained is None,
        cleared(runtime, problem).owner == runtime.owner,
{
}

/// Clearing a configuration removes each of its callbacks exactly once, the last one first,
/// whatever removing any of them gives, and leaves none to remove. Where all were simply removed
/// and subscribers were flushed it succeeds, keeps no report, and clearing again succeeds too and
/// removes nothing.
pub proof fn law_clearing_removes_each_callback_once(
    before: PluginRuntime,
    after: PluginRuntime,
    flush: Option<Seq<char>>,
    removal: RollbackRun,
    observed: Seq<RuntimeDiagnostic>,
    failure: Option<ErrorView>,
)
    requires
        before.owner == PluginMutationOwner::Idle,
        removal.total() == registered(before).len(),
        removal.done(),
        clears(before, after, flush, removal, observed, failure),
    ensures
        removal.answers().len() == registered(before).len(),
        removals(removal.total()).no_duplicates(),
        forall|i: int|
            0 <= i < registered(before).len() ==> #[trigger] removals(removal.total()).contains(i),
        forall|k: int|
            0 <= k < registered(before).len() ==> #[trigger] removals(removal.total())[k]
                == registered(before).len() - 1 - k,
        after@.active is None,
        registered(after).len() == 0,
        all_removed(removal.answers()) && flush is None ==> {
            &&& failure is None
            &&& after@.retained is None
            &&& after@.owner == PluginMutationOwner::Idle
            &&& public_clear_problem(after.owner, clear_problem(None, Seq::empty()), true) is None
            &&& removals(registered(after).len()) == Seq::<int>::empty()
        },
{
    law_rollback_removes_each_once_last_first(removal.total());
    if all_removed(removal.answers()) {
        law_clean_rollback_reports_nothing(
            registered(before),
            removal.answers(),
            removal.answers().len(),
        );
    }
    assert(removals(0) =~= Seq::<int>::empty());
}

/// Where clearing a configuration leaves a callback behind, it fails, every callback was tried
/// all the same, no configuration is active any more, and from then on the configuration can
/// neither be cleared nor taken, by anyone.
pub proof fn law_incomplete_clearing_locks_out(
    before: PluginRuntime,
    after: PluginRuntime,
    flush: Option<Seq<char>>,
    removal: RollbackRun,
    observed: Seq<RuntimeDiagnostic>,
    failure: Option<ErrorView>,
)
    requires
        before.owner == PluginMutationOwner::Idle,
        removal.total() == registered(before).len(),
        removal.done(),
        !removal.gone(),
        clears(before, after, flush, removal, observed, failure),
    ensures
        failure matches Some(e) && e.0 == PluginErrorKind::RegistrationFailed,
        removal.answers().len() == registered(before).len(),
        after@.active is None,
        lease_problem(after.owner) is Some,
        host_lease_problem(after@) is Some,
        forall|problem: Option<ErrorView>, gone: bool| #[trigger]
            public_clear_problem(after.owner, problem, gone) == Some(
                (PluginErrorKind::Conflict, conflict_message(PluginMutationOwner::Legacy)),
            ),
{
    assert(after@.owner == PluginMutationOwner::Legacy);
}

/// One step of activating a configuration: a component with the namespace of its
/// registrations.
#[derive(Debug)]
pub struct PlannedComponent {
    /// Position of the component in the configuration.
    pub index: usize,
    /// Prefix of its registration names.
    pub namespace: String,
}

/// How many of the first components of a list are enabled and have a kind.
pub open spec fn enabled_total(components: Seq<PluginComponentSpec>, kind: Seq<char>) -> nat
    decreases components.len(),
{
    if components.len() == 0 {
        0
    } else {
        enabled_total(components.drop_last(), kind) + if components.last().enabled
            && components.last().kind@ == kind {
            1nat
        } else {
            0nat
        }
    }
}

/// The prefix of a component's registration names: the number of the component
/// among the enabled ones of its kind is part of it where the kind occurs several
/// times.
pub open spec fn namespace_text(kind: Seq<char>, ordinal: nat, total: nat) -> Seq<char> {
    if total > 1 {
        "__nemo_relay_plugin__"@ + kind + "__"@ + text::decimal(ordinal) + "__"@
    } else {
        "__nemo_relay_plugin__"@ + kind + "__"@
    }
}

/// The prefix of a component's registration names.
pub fn component_namespace(kind: &str, ordinal: usize, total: usize) -> (r: String)
    ensures
        r@ == namespace_text(kind@, ordinal as nat, total as nat),
{
    if total > 1 {
        let number = format_u64(ordinal as u64);
        concat5("__nemo_relay_plugin__", kind, "__", number.as_str(), "__")
    } else {
        concat3("__nemo_relay_plugin__", kind, "__")
    }
}

/// The steps for the first `n` components, up to the first enabled one whose kind
/// is unknown, and the kind of that one.
pub open spec fn activation_plan(
    handlers: HandlersView,
    components: Seq<PluginComponentSpec>,
    n: nat,
) -> (Seq<(int, Seq<char>)>, Option<Seq<char>>)
    decreases n,
{
    if n == 0 {
        (Seq::empty(), None)
    } else {
        let i = n - 1;
        let component = components[i];
        let (steps, unknown) = activation_plan(handlers, components, i as nat);
        match unknown {
            Some(kind) => (steps, Some(kind)),
            None => if !component.enabled {
                (steps, None)
            } else if !handlers.plugins.contains_key(component.kind@) {
                (steps, Some(component.kind@))
            } else {
                (
                    steps.push(
                        (
                            i,
                            namespace_text(
                                component.kind@,
                                enabled_total(components.take(i), component.kind@) + 1,
                                kind_total(components, component.kind@),
                            ),
                        ),
                    ),
                    None,
                )
            },
        }
    }
}

/// The positions and namespaces of planned components.
pub open spec fn planned_views(steps: Seq<PlannedComponent>) -> Seq<(int, Seq<char>)> {
    Seq::new(steps.len(), |i: int| (steps[i].index as int, steps[i].namespace@))
}

/// The error of an enabled component whose kind is unknown.
pub open spec fn component_not_registered(kind: Seq<char>) -> ErrorView {
    (PluginErrorKind::NotFound, "plugin component '"@ + kind + "' is not registered"@)
}

/// Counts the enabled components of a kind among the first `n`.
fn count_enabled(components: &Vec<PluginComponentSpec>, n: usize, kind: &str) -> (r: usize)
    requires
        n <= components.len(),
    ensures
        r == enabled_total(components@.take(n as int), kind@),
        r <= n,
{
    let mut total: usize = 0;
    let mut i: usize = 0;
    assert(components@.take(0) =~= Seq::empty());
    while i < n
        invariant
            i <= n <= components.len(),
            total <= i,
            total == enabled_total(components@.take(i as int), kind@),
        decreases n - i,
    {
        assert(components@.take(i + 1).drop_last() =~= components@.take(i as int));
        if components[i].enabled && text::text_eq(components[i].kind.as_str(), kind) {
            total += 1;
        }
        i += 1;
    }
    total
}

/// An unknown kind among the first components ends the plan.
proof fn lemma_plan_stops(
    handlers: HandlersView,
    components: Seq<PluginComponentSpec>,
    n: nat,
    m: nat,
)
    requires
        n <= m <= components.len(),
        activation_plan(handlers, components, n).1 is Some,
    ensures
        activation_plan(handlers, components, m) == activation_plan(handlers, components, n),
    decreases m,
{
    if n < m {
        lemma_plan_stops(handlers, components, n, (m - 1) as nat);
    }
}

/// Plans the activation of a configuration: which components to register, in
/// order, under which namespace, and the error to end with where an enabled
/// component's kind is unknown.
pub fn plan_plugin_components(handlers: &PluginHandlers, config: &PluginConfig) -> (r: (
    Vec<PlannedComponent>,
    Option<PluginError>,
))
    ensures
        ({
            let plan = activation_plan(handlers@, config.components@, config.components@.len());
            &&& planned_views(r.0@) == plan.0
            &&& match r.1 {
                Some(e) => plan.1 is Some && e@ == component_not_registered(plan.1->0),
                None => plan.1 is None,
            }
        }),
{
    let components = &config.components;
    let mut steps: Vec<PlannedComponent> = Vec::new();
    let mut i: usize = 0;
    assert(planned_views(steps@) =~= Seq::empty());
    assert(components@.take(components@.len() as int) =~= components@);
    while i < components.len()
        invariant
            i <= components.len(),
            components@ == config.components@,
            components@.take(components@.len() as int) == components@,
            activation_plan(handlers@, components@, i as nat) == (
                planned_views(steps@),
                None::<Seq<char>>,
            ),
        decreases components.len() - i,
    {
        if components[i].enabled {
            let kind = components[i].kind.as_str();
            if lookup_registered_plugin(handlers, kind).is_none() {
                proof {
                    lemma_plan_stops(
                        handlers@,
                        components@,
                        (i + 1) as nat,
                        components@.len(),
                    );
                }
                return (
                    steps,
                    Some(
                        PluginError::NotFound(
                            concat3("plugin component '", kind, "' is not registered"),
                        ),
                    ),
                );
            }
            let ordinal = count_enabled(components, i, kind) + 1;
            let total = count_components(components, components.len(), kind);
            let namespace = component_namespace(kind, ordinal, total);
            let ghost before = steps@;
            steps.push(PlannedComponent { index: i, namespace });
            assert(planned_views(steps@) =~= planned_views(before).push((i as int, namespace@)));
        }
        i += 1;
    }
    (steps, None)
}

/// Two planned components of one kind never share a namespace.
pub proof fn law_namespaces_tell_components_apart(
    components: Seq<PluginComponentSpec>,
    kind: Seq<char>,
    i: int,
    j: int,
)
    requires
        0 <= i < j < components.len(),
        components[i].kind@ == kind,
        components[j].kind@ == kind,
        components[i].enabled,
        components[j].enabled,
    ensures
        namespace_text(
            kind,
            enabled_total(components.take(i), kind) + 1,
            kind_total(components, kind),
        ) != namespace_text(
            kind,
            enabled_total(components.take(j), kind) + 1,
            kind_total(components, kind),
        ),
{
    lemma_enabled_grows(components, kind, i, j);
    lemma_two_of_kind(components, kind, i, j);
    let a = enabled_total(components.take(i), kind) + 1;
    let b = enabled_total(components.take(j), kind) + 1;
    let head = "__nemo_relay_plugin__"@ + kind + "__"@;
    let x = head + text::decimal(a) + "__"@;
    let y = head + text::decimal(b) + "__"@;
    if x == y {
        text::lemma_same_ends(head, text::decimal(a), text::decimal(b), "__"@);
        text::lemma_decimal_injective(a, b);
    }
}

/// A further enabled component of a kind has a higher number.
proof fn lemma_enabled_grows(
    components: Seq<PluginComponentSpec>,
    kind: Seq<char>,
    i: int,
    j: int,
)
    requires
        0 <= i < j <= components.len(),
        components[i].kind@ == kind,
        components[i].enabled,
    ensures
        enabled_total(components.take(i), kind) < enabled_total(components.take(j), kind),
    decreases j,
{
    assert(components.take(j).drop_last() =~= components.take(j - 1));
    if i < j - 1 {
        lemma_enabled_grows(components, kind, i, j - 1);
    }
}

/// A kind at two positions occurs more than once.
proof fn lemma_two_of_kind(
    components: Seq<PluginComponentSpec>,
    kind: Seq<char>,
    i: int,
    j: int,
)
    requires
        0 <= i < j < components.len(),
        components[i].kind@ == kind,
        components[j].kind@ == kind,
    ensures
        kind_total(components, kind) > 1,
{
    lemma_total_grows(components, kind, 0, i);
    lemma_total_grows(components, kind, i, j);
    lemma_total_grows(components, kind, j, components.len() as int);
    assert(components.take(components.len() as int) =~= components);
}

/// More components hold no fewer of a kind.
proof fn lemma_total_grows(components: Seq<PluginComponentSpec>, kind: Seq<char>, i: int, j: int)
    requires
        0 <= i <= j <= components.len(),
    ensures
        kind_total(components.take(i), kind) <= kind_total(components.take(j), kind),
        i < j && components[i].kind@ == kind ==> kind_total(components.take(i), kind) < kind_total(
            components.take(j),
            kind,
        ),
    decreases j,
{
    if i < j {
        assert(components.take(j).drop_last() =~= components.take(j - 1));
        lemma_total_grows(components, kind, i, j - 1);
    }
}

/// A configuration can be changed exactly where nobody changes it or holds it; a host of dynamic
/// plugins can take it where besides none is active; and a host may change it exactly where it
/// still holds it.
pub proof fn law_one_owner_at_a_time(runtime: RuntimeView, owner: PluginMutationOwner, id: u64)
    ensures
        lease_problem(owner) is None <==> owner == PluginMutationOwner::Idle,
        lease_problem(PluginMutationOwner::Legacy) == Some(
            (
                PluginErrorKind::Conflict,
                "another plugin configuration mutation is in progress"@,
            ),
        ),
        lease_problem(PluginMutationOwner::Host(id)) == Some(
            (
                PluginErrorKind::Conflict,
                "plugin configuration is owned by an active dynamic plugin host"@,
            ),
        ),
        host_lease_problem(runtime) is None <==> runtime.owner == PluginMutationOwner::Idle
            && runtime.active is None,
        runtime.owner != PluginMutationOwner::Idle ==> host_lease_problem(runtime) == lease_problem(
            runtime.owner,
        ),
        runtime.owner == PluginMutationOwner::Idle && runtime.active is Some ==> (
        host_lease_problem(runtime)->0).0 == PluginErrorKind::Conflict,
        host_owner_problem(owner, id) is None <==> owner == PluginMutationOwner::Host(id),
        host_owner_problem(owner, id) is Some ==> host_owner_problem(owner, id) == Some(
            (
                PluginErrorKind::Conflict,
                "dynamic plugin host no longer owns plugin configuration"@,
            ),
        ),
{
}

/// Clearing fails exactly where the subscribers could not be flushed or a callback could not be
/// removed cleanly, and tells both.
pub proof fn law_clearing_tells_what_failed(flush: Seq<char>, errors: Seq<Seq<char>>)
    ensures
        clear_problem(None, Seq::empty()) is None,
        clear_problem(Some(flush), Seq::empty()) == Some((PluginErrorKind::Internal, flush)),
        errors.len() > 0 ==> clear_problem(None, errors) == Some(
            (
                PluginErrorKind::RegistrationFailed,
                "plugin teardown failed: "@ + text::joined(errors, "; "@),
            ),
        ),
        errors.len() > 0 ==> clear_problem(Some(flush), errors) == Some(
            (
                PluginErrorKind::RegistrationFailed,
                "registration failed: "@ + ("plugin teardown failed: "@ + text::joined(
                    errors,
                    "; "@,
                )) + "; subscriber flush also failed: "@ + flush,
            ),
        ),
{
}

/// Whoever clears a configuration that another one owns is refused; where all callbacks are gone
/// the failure of clearing is what is told, and where some may be left the process takes no further
/// changes.
pub proof fn law_clearing_is_told_to_callers(
    owner: PluginMutationOwner,
    problem: Option<ErrorView>,
)
    ensures
        owner != PluginMutationOwner::Idle ==> public_clear_problem(owner, problem, true)
            == lease_problem(owner) && public_clear_problem(owner, problem, false) == lease_problem(
            owner,
        ),
        public_clear_problem(PluginMutationOwner::Idle, problem, true) == problem,
        public_clear_problem(PluginMutationOwner::Idle, None, false) == Some(
            (
                PluginErrorKind::RegistrationFailed,
                "plugin teardown was incomplete"@
                    + "; plugin configuration mutations are disabled for this process because callbacks may remain registered"@,
            ),
        ),
        problem matches Some(e) ==> public_clear_problem(PluginMutationOwner::Idle, problem, false)
            == Some(
            (
                PluginErrorKind::RegistrationFailed,
                error::error_text(e)
                    + "; plugin configuration mutations are disabled for this process because callbacks may remain registered"@,
            ),
        ),
{
}

/// After a failed clearing the report of what was torn down is kept where it holds failures of the
/// runtime, and else the one that was kept before; after a successful one none is.
pub proof fn law_failures_outlive_the_configuration(
    runtime: RuntimeView,
    report: ReportView,
    problem: ErrorView,
)
    ensures
        report.runtime.len() > 0 ==> kept_report(runtime.retained, Some(report)) == Some(report),
        report.runtime.len() == 0 ==> kept_report(runtime.retained, Some(report))
            == runtime.retained,
        kept_report(runtime.retained, None) == runtime.retained,
        cleared(runtime, None).retained is None,
        runtime.active matches Some(a) ==> cleared(runtime, Some(problem)).retained == kept_report(
            runtime.retained,
            Some(a.report),
        ),
        cleared(runtime, Some(problem)).active is None,
        cleared(runtime, None).owner == runtime.owner,
{
}

/// Failures that a runtime observes are added to the report of the active configuration one after
/// the other, and its findings stay.
pub proof fn law_observed_failures_are_recorded(
    report: ReportView,
    observed: Seq<RuntimeDiagnostic>,
    failure: RuntimeDiagnostic,
)
    ensures
        observing(report, Seq::empty()) == report,
        observing(report, observed.push(failure)).runtime == with_failure(
            observing(report, observed).runtime,
            failure,
        ),
        observing(report, observed).diagnostics == report.diagnostics,
    decreases observed.len(),
{
    assert(observed.push(failure).drop_last() =~= observed);
    if observed.len() > 0 {
        law_observed_failures_are_recorded(report, observed.drop_last(), observed.last());
    }
}

/// What an initialization comes to. Findings that are errors refuse it. Without a previous
/// configuration, the new one is active where it was registered, and nothing changes where it was
/// not. A previous one that could not be cleared refuses it and is active no more. Else the new one
/// replaces it, or, where it could not be registered, the previous one is active again; where not
/// even that could be registered, none is.
pub proof fn law_what_initialization_comes_to(
    runtime: RuntimeView,
    config: PluginConfigView,
    report: ReportView,
    errors: Seq<Seq<char>>,
    gone: bool,
    observed: Seq<RuntimeDiagnostic>,
    activation: Result<Seq<RegistrationView>, ErrorView>,
    restoration: Result<Seq<RegistrationView>, ErrorView>,
)
    ensures
        ({
            let outcome = initialization(
                runtime,
                config,
                report,
                errors,
                gone,
                observed,
                activation,
                restoration,
            );
            let refused = holds_error(report.diagnostics);
            &&& refused ==> outcome.runtime == runtime && outcome.problem == Some(
                (
                    PluginErrorKind::InvalidConfig,
                    text::joined(error_messages(report.diagnostics), "; "@),
                ),
            ) && outcome.left_behind.len() == 0
            &&& !refused && runtime.active is None && activation is Ok ==> outcome.problem is None
                && outcome.runtime.active is Some && outcome.runtime.active->0.config == config
                && outcome.runtime.active->0.report == report
                && outcome.runtime.active->0.registrations == activation->Ok_0
            &&& !refused && runtime.active is None && activation is Err ==> outcome.problem == Some(
                activation->Err_0,
            ) && outcome.runtime == runtime
            &&& !refused && runtime.active is Some && errors.len() > 0
                ==> outcome.runtime.active is None && outcome.problem == Some(
                (
                    PluginErrorKind::RegistrationFailed,
                    "previous plugin configuration could not be cleared: "@ + text::joined(
                        errors,
                        "; "@,
                    ),
                ),
            ) && outcome.left_behind == (if gone {
                Seq::empty()
            } else {
                errors
            })
            &&& !refused && runtime.active is Some && errors.len() == 0 && activation is Ok
                ==> outcome.problem is None && outcome.runtime.active is Some
                && outcome.runtime.active->0.config == config && outcome.runtime.active->0.report
                == report && outcome.runtime.active->0.registrations == activation->Ok_0
            &&& !refused && runtime.active is Some && errors.len() == 0 && activation is Err
                && restoration is Ok ==> outcome.problem == Some(activation->Err_0)
                && outcome.runtime.active is Some && outcome.runtime.active->0.config
                == runtime.active->0.config && outcome.runtime.active->0.report
                == runtime.active->0.report && outcome.runtime.active->0.registrations
                == restoration->Ok_0
            &&& !refused && runtime.active is Some && errors.len() == 0 && activation is Err
                && restoration is Err ==> outcome.runtime.active is None && outcome.problem == Some(
                (
                    PluginErrorKind::RegistrationFailed,
                    error::error_text(activation->Err_0)
                        + "; previous plugin configuration could not be restored: "@
                        + error::error_text(restoration->Err_0),
                ),
            )
            &&& outcome.runtime.owner == runtime.owner
            &&& outcome.runtime.next_owner_id == runtime.next_owner_id
        }),
{
}

/// An initialization while another change is under way is refused and changes nothing. One that
/// leaves callbacks behind fails and locks out later changes; every other one lets them through.
pub proof fn law_initialization_keeps_the_lease(
    before: PluginRuntime,
    after: PluginRuntime,
    config: PluginConfig,
    diagnostics: Seq<ConfigDiagnostic>,
    validation: ConfigReport,
    answers: ActivationAnswers,
    pending_failures: Seq<String>,
    r: Result<ConfigReport, PluginError>,
)
    requires
        initialized(before, after, config, diagnostics, validation, answers, pending_failures, r),
    ensures
        before.owner != PluginMutationOwner::Idle ==> r is Err && r->Err_0@.0
            == PluginErrorKind::Conflict && after == before,
        before.owner == PluginMutationOwner::Idle && r is Ok ==> after@.owner
            == PluginMutationOwner::Idle && after@.active is Some && after@.active->0.config
            == config@,
        before.owner == PluginMutationOwner::Idle && r is Err && pending_failures.len() > 0
            ==> after@.owner == PluginMutationOwner::Legacy && r->Err_0@.0
            == PluginErrorKind::RegistrationFailed,
{
}

/// The report of an initialization holds what was found before and what validating found.
pub proof fn law_reports_hold_all_findings(
    diagnostics: Seq<ConfigDiagnostic>,
    validation: ConfigReport,
)
    ensures
        initial_report(diagnostics, validation).diagnostics == findings(diagnostics) + findings(
            validation.diagnostics@,
        ),
        initial_report(diagnostics, validation).runtime.len() == 0,
{
}

/// Components are registered in their order, up to the first enabled one whose kind is unknown,
/// which is told; disabled ones are passed over.
pub proof fn law_enabled_components_are_planned(
    handlers: HandlersView,
    components: Seq<PluginComponentSpec>,
    n: nat,
)
    requires
        n < components.len(),
    ensures
        ({
            let before = activation_plan(handlers, components, n);
            let after = activation_plan(handlers, components, n + 1);
            let component = components[n as int];
            &&& activation_plan(handlers, components, 0) == (
                Seq::<(int, Seq<char>)>::empty(),
                None::<Seq<char>>,
            )
            &&& before.1 is Some || !component.enabled ==> after == before
            &&& before.1 is None && component.enabled && !handlers.plugins.contains_key(
                component.kind@,
            ) ==> after.0 == before.0 && after.1 == Some(component.kind@)
            &&& before.1 is None && component.enabled && handlers.plugins.contains_key(
                component.kind@,
            ) ==> after.1 is None && after.0.len() == before.0.len() + 1 && after.0.last().0 == n
                && after.0.last().1 == namespace_text(
                component.kind@,
                enabled_total(components.take(n as int), component.kind@) + 1,
                kind_total(components, component.kind@),
            ) && after.0.drop_last() == before.0
        }),
        component_not_registered(components[n as int].kind@) == (
            PluginErrorKind::NotFound,
            "plugin component '"@ + components[n as int].kind@ + "' is not registered"@,
        ),
{
    let before = activation_plan(handlers, components, n);
    let after = activation_plan(handlers, components, n + 1);
    if after.0.len() > before.0.len() {
        assert(after.0.drop_last() =~= before.0);
    }
}

/// The namespace of a component is that of its kind, and tells by number which of several it is.
pub proof fn law_namespaces_are_those_of_kinds(
    kind: Seq<char>,
    ordinal: nat,
    total: nat,
    components: Seq<PluginComponentSpec>,
    component: PluginComponentSpec,
)
    ensures
        total <= 1 ==> namespace_text(kind, ordinal, total) == "__nemo_relay_plugin__"@ + kind
            + "__"@,
        total > 1 ==> namespace_text(kind, ordinal, total) == "__nemo_relay_plugin__"@ + kind
            + "__"@ + text::decimal(ordinal) + "__"@,
        enabled_total(Seq::empty(), kind) == 0,
        component.enabled && component.kind@ == kind ==> enabled_total(
            components.push(component),
            kind,
        ) == enabled_total(components, kind) + 1,
        !component.enabled || component.kind@ != kind ==> enabled_total(
            components.push(component),
            kind,
        ) == enabled_total(components, kind),
{
    assert(components.push(component).drop_last() =~= components);
}

/// What a mutation that comes at the wrong time is told.
pub proof fn law_conflicts_are_told(
    host: u64,
    error: ErrorView,
    restore: ErrorView,
    failures: Seq<Seq<char>>,
)
    ensures
        conflict_message(PluginMutationOwner::Idle) == "plugin configuration is available"@,
        conflict_message(PluginMutationOwner::Legacy)
            == "another plugin configuration mutation is in progress"@,
        conflict_message(PluginMutationOwner::Host(host))
            == "plugin configuration is owned by an active dynamic plugin host"@,
        static_active_message()
            == "a static plugin configuration is already active; to combine static and dynamic plugins, provide the static components as the base configuration to dynamic plugin activation before calling plugin initialization"@,
        disabled_suffix()
            == "; plugin configuration mutations are disabled for this process because callbacks may remain registered"@,
        not_cleared_error(failures) == (
            PluginErrorKind::RegistrationFailed,
            "previous plugin configuration could not be cleared: "@ + text::joined(failures, "; "@),
        ),
        not_restored_error(error, restore) == (
            PluginErrorKind::RegistrationFailed,
            error::error_text(error) + "; previous plugin configuration could not be restored: "@
                + error::error_text(restore),
        ),
        incomplete_rollback_error(error, failures) == (
            PluginErrorKind::RegistrationFailed,
            error::error_text(error) + "; initialization rollback was incomplete: "@ + text::joined(
                failures,
                "; "@,
            )
                + "; plugin configuration mutations are disabled for this process because callbacks may remain registered"@,
        ),
{
}

/// A configuration that is activated becomes the active one with its report and registrations, and
/// nothing stays retained; where that fails, the one before is kept or restored.
pub proof fn law_activated_configurations_become_active(
    runtime: RuntimeView,
    previous: ActiveView,
    config: PluginConfigView,
    report: ReportView,
    registrations: Seq<RegistrationView>,
    restored: Seq<RegistrationView>,
    e: ErrorView,
    restoration: Result<Seq<RegistrationView>, ErrorView>,
)
    ensures
        first_activation(runtime, config, report, Ok(registrations)).problem is None,
        first_activation(runtime, config, report, Ok(registrations)).runtime.active == Some(
            ActiveView { config, report, registrations },
        ),
        first_activation(runtime, config, report, Ok(registrations)).runtime.retained is None,
        first_activation(runtime, config, report, Err(e)).problem == Some(e),
        first_activation(runtime, config, report, Err(e)).runtime == runtime,
        replacement(
            runtime,
            previous,
            config,
            report,
            Ok(registrations),
            restoration,
        ).runtime.active == Some(ActiveView { config, report, registrations }),
        replacement(runtime, previous, config, report, Ok(registrations), restoration).problem
            is None,
        replacement(runtime, previous, config, report, Err(e), Ok(restored)).problem == Some(e),
        replacement(
            runtime,
            previous,
            config,
            report,
            Err(e),
            Ok(restored),
        ).runtime.active == Some(
            ActiveView {
                config: previous.config,
                report: previous.report,
                registrations: restored,
            },
        ),
        replacement(runtime, previous, config, report, Err(e), Err(e)).runtime == runtime,
        replacement(runtime, previous, config, report, Err(e), Err(e)).problem is Some,
{
}

} // verus!
