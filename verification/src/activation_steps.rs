//! What an initialization asks of the runtime, step by step.
//!
//! The answers to all steps are taken together by
//! [`crate::activation::initialize_plugins_with_diagnostics`]; here stands which steps are
//! taken at all, so that no callback is removed or registered without need.

use vstd::prelude::*;

use crate::activation::{
    initial_report, initialization, registered, ActivationAnswers, ActivationResult,
    PluginMutationOwner, PluginRuntime, ReportView, RuntimeView,
};
use crate::config::{
    diagnostics_have_errors, findings, holds_error, ConfigDiagnostic, ConfigReport,
    DiagnosticLevel, DiagnosticView, PluginConfigView, RuntimeDiagnostic,
};
use crate::error::ErrorView;
use crate::registrations::{
    all_removed, next_removal, removals, PluginRegistrationCleanupOutcome, RegistrationView,
    RollbackRun,
};

verus! {

/// What an initialization asks of the runtime next.
#[derive(Debug, Clone, Copy, PartialEq, Eq, Structural)]
pub enum ActivationStep {
    /// Remove the callback of the active configuration's registration at a position.
    Remove(usize),
    /// Register the components of the new configuration.
    Activate,
    /// Register the components of the previous configuration again.
    Restore,
    /// Nothing more.
    Finish,
}

/// What an initialization is told.
pub enum ActivationEvent {
    /// What removing a callback gave.
    Removed(PluginRegistrationCleanupOutcome),
    /// What registering the components of a configuration gave.
    Registered(ActivationResult),
}

/// How far an initialization is.
#[derive(Debug, Clone, Copy, PartialEq, Eq, Structural)]
pub enum ActivationStage {
    /// The callbacks of the active configuration are being removed.
    Removing,
    /// The components of the new configuration are being registered.
    Activating,
    /// The components of the previous configuration are being registered again.
    Restoring,
    /// Nothing more happens.
    Over,
}

/// An initialization under way.
pub struct ActivationRun {
    /// Whether a configuration is replaced.
    pub active: bool,
    /// The rollback of its registrations.
    pub removal: RollbackRun,
    /// What registering the new configuration gave.
    pub activation: Option<ActivationResult>,
    /// What registering the previous configuration again gave.
    pub restoration: Option<ActivationResult>,
    /// How far the initialization is.
    pub stage: ActivationStage,
}

/// The mathematical form of an initialization under way.
pub ghost struct ActivationRunView {
    /// Whether a configuration is replaced.
    pub active: bool,
    /// How many callbacks it has.
    pub total: nat,
    /// What removing them gave, the last one first.
    pub answers: Seq<PluginRegistrationCleanupOutcome>,
    /// What registering the new configuration gave.
    pub activation: Option<ActivationResult>,
    /// What registering the previous configuration again gave.
    pub restoration: Option<ActivationResult>,
    /// How far the initialization is.
    pub stage: ActivationStage,
}

impl View for ActivationRun {
    type V = ActivationRunView;

    open spec fn view(&self) -> ActivationRunView {
        ActivationRunView {
            active: self.active,
            total: self.removal.total(),
            answers: self.removal.answers(),
            activation: self.activation,
            restoration: self.restoration,
            stage: self.stage,
        }
    }
}

/// What an initialization asks for at its stage.
pub open spec fn step_of(run: ActivationRunView) -> ActivationStep {
    match run.stage {
        ActivationStage::Removing => match next_removal(run.total, run.answers.len()) {
            Some(i) => ActivationStep::Remove(i as usize),
            None => ActivationStep::Finish,
        },
        ActivationStage::Activating => ActivationStep::Activate,
        ActivationStage::Restoring => ActivationStep::Restore,
        ActivationStage::Over => ActivationStep::Finish,
    }
}

/// An initialization that begins: over at once while somebody else changes the configuration or
/// where a finding is an error.
pub open spec fn begun_run(
    owner: PluginMutationOwner,
    report: ReportView,
    active: bool,
    total: nat,
) -> ActivationRunView {
    ActivationRunView {
        active,
        total,
        answers: Seq::empty(),
        activation: None,
        restoration: None,
        stage: if owner != PluginMutationOwner::Idle || holds_error(report.diagnostics) {
            ActivationStage::Over
        } else if total > 0 {
            ActivationStage::Removing
        } else {
            ActivationStage::Activating
        },
    }
}

/// An initialization that was told of an event. The callbacks are removed one after the other,
/// whatever removing any of them gave; only where all were simply removed is the new
/// configuration registered, and only where that fails and one was replaced, the previous one
/// again. An event that was not asked for changes nothing.
pub open spec fn run_takes(run: ActivationRunView, event: ActivationEvent) -> ActivationRunView {
    match (run.stage, event) {
        (ActivationStage::Removing, ActivationEvent::Removed(cleanup)) => {
            let answers = if run.answers.len() == run.total {
                run.answers
            } else {
                run.answers.push(cleanup)
            };
            ActivationRunView {
                answers,
                stage: if answers.len() != run.total {
                    ActivationStage::Removing
                } else if all_removed(answers) {
                    ActivationStage::Activating
                } else {
                    ActivationStage::Over
                },
                ..run
            }
        },
        (ActivationStage::Activating, ActivationEvent::Registered(result)) => ActivationRunView {
            activation: Some(result),
            stage: if result is Err && run.active {
                ActivationStage::Restoring
            } else {
                ActivationStage::Over
            },
            ..run
        },
        (ActivationStage::Restoring, ActivationEvent::Registered(result)) => ActivationRunView {
            restoration: Some(result),
            stage: ActivationStage::Over,
            ..run
        },
        _ => run,
    }
}

impl ActivationRun {
    /// Begins an initialization, by the findings on how the configuration came about and those
    /// of its validation.
    pub fn begin(
        runtime: &PluginRuntime,
        diagnostics: &Vec<ConfigDiagnostic>,
        validation: &ConfigReport,
    ) -> (r: (Self, ActivationStep))
        ensures
            r.0@ == begun_run(
                runtime.owner,
                initial_report(diagnostics@, *validation),
                runtime.active is Some,
                registered(*runtime).len(),
            ),
            r.1 == step_of(r.0@),
    {
        proof {
            lemma_either_holds_error(findings(diagnostics@), findings(validation.diagnostics@));
        }
        let idle = match runtime.owner {
            PluginMutationOwner::Idle => true,
            _ => false,
        };
        let removal = runtime.begin_removal();
        let stage = if !idle || diagnostics_have_errors(diagnostics) || validation.has_errors() {
            ActivationStage::Over
        } else if removal.is_done() {
            ActivationStage::Activating
        } else {
            ActivationStage::Removing
        };
        let run = ActivationRun {
            active: runtime.active.is_some(),
            removal,
            activation: None,
            restoration: None,
            stage,
        };
        let step = run.step();
        (run, step)
    }

    /// What the initialization asks for.
    pub fn step(&self) -> (r: ActivationStep)
        ensures
            r == step_of(self@),
    {
        match self.stage {
            ActivationStage::Removing => match self.removal.next() {
                Some(i) => ActivationStep::Remove(i),
                None => ActivationStep::Finish,
            },
            ActivationStage::Activating => ActivationStep::Activate,
            ActivationStage::Restoring => ActivationStep::Restore,
            ActivationStage::Over => ActivationStep::Finish,
        }
    }

    /// Takes what came of a step, and says what is asked for next.
    pub fn take(self, event: ActivationEvent) -> (r: (Self, ActivationStep))
        ensures
            r.0@ == run_takes(self@, event),
            r.1 == step_of(r.0@),
    {
        let ActivationRun { active, removal, activation, restoration, stage } = self;
        let run = match (stage, event) {
            (ActivationStage::Removing, ActivationEvent::Removed(cleanup)) => {
                let removal = removal.take(cleanup);
                let stage = if !removal.is_done() {
                    ActivationStage::Removing
                } else if removal.is_clean() {
                    ActivationStage::Activating
                } else {
                    ActivationStage::Over
                };
                ActivationRun { active, removal, activation, restoration, stage }
            },
            (ActivationStage::Activating, ActivationEvent::Registered(result)) => {
                let stage = if result.is_err() && active {
                    ActivationStage::Restoring
                } else {
                    ActivationStage::Over
                };
                ActivationRun { active, removal, activation: Some(result), restoration, stage }
            },
            (ActivationStage::Restoring, ActivationEvent::Registered(result)) => ActivationRun {
                active,
                removal,
                activation,
                restoration: Some(result),
                stage: ActivationStage::Over,
            },
            (stage, _) => ActivationRun { active, removal, activation, restoration, stage },
        };
        let step = run.step();
        (run, step)
    }

    /// The answers of an initialization, with the runtime failures recorded while callbacks
    /// were removed. What was not asked for stands as having registered nothing.
    pub fn into_answers(self, observed: Vec<RuntimeDiagnostic>) -> (r: ActivationAnswers)
        ensures
            r.teardown == self.removal,
            r.observed == observed,
            match self.activation {
                Some(result) => r.activation == result,
                None => r.activation is Ok && r.activation->Ok_0@.len() == 0,
            },
            match self.restoration {
                Some(result) => r.restoration == result,
                None => r.restoration is Ok && r.restoration->Ok_0@.len() == 0,
            },
    {
        let ActivationRun { active: _, removal, activation, restoration, stage: _ } = self;
        ActivationAnswers {
            teardown: removal,
            observed,
            activation: match activation {
                Some(result) => result,
                None => Ok(Vec::new()),
            },
            restoration: match restoration {
                Some(result) => result,
                None => Ok(Vec::new()),
            },
        }
    }
}

/// An initialization that was told of some events.
pub open spec fn run_told(
    run: ActivationRunView,
    events: Seq<ActivationEvent>,
) -> ActivationRunView
    decreases events.len(),
{
    if events.len() == 0 {
        run
    } else {
        run_takes(run_told(run, events.drop_last()), events.last())
    }
}

/// However an initialization goes: the callbacks of the previous configuration are removed
/// once each, the last one first; nothing is registered before all of them were simply removed;
/// the previous configuration is registered again only after registering the new one failed;
/// and the initialization ends only once every callback was tried, unless nothing was asked for
/// at all.
pub proof fn law_previous_callbacks_are_removed_first(
    owner: PluginMutationOwner,
    report: ReportView,
    active: bool,
    total: nat,
    events: Seq<ActivationEvent>,
)
    requires
        total <= usize::MAX,
    ensures
        ({
            let run = run_told(begun_run(owner, report, active, total), events);
            &&& run.total == total
            &&& run.active == active
            &&& run.answers.len() <= total
            &&& run.stage == ActivationStage::Removing ==> run.answers.len() < total && step_of(run)
                == ActivationStep::Remove(removals(total)[run.answers.len() as int] as usize)
            &&& run.stage == ActivationStage::Activating || run.stage
                == ActivationStage::Restoring ==> run.answers.len() == total && all_removed(
                run.answers,
            )
            &&& run.stage == ActivationStage::Restoring ==> active && (run.activation matches Some(
                result,
            ) && result is Err)
            &&& run.stage == ActivationStage::Over && owner == PluginMutationOwner::Idle
                && !holds_error(report.diagnostics) ==> run.answers.len() == total
        }),
    decreases events.len(),
{
    if events.len() > 0 {
        law_previous_callbacks_are_removed_first(owner, report, active, total, events.drop_last());
    }
}

/// Each callback that an initialization removes adds one answer, and the step after it asks for
/// the one before, as long as one is left.
pub proof fn law_each_answer_moves_on(run: ActivationRunView, event: ActivationEvent)
    requires
        run.answers.len() <= run.total,
    ensures
        ({
            let next = run_takes(run, event);
            &&& next.answers == run.answers || (event matches ActivationEvent::Removed(cleanup)
                && next.answers == run.answers.push(cleanup))
            &&& run.stage == ActivationStage::Removing && event is Removed && run.answers.len()
                < run.total ==> next.answers.len() == run.answers.len() + 1
            &&& run.stage == ActivationStage::Over ==> next == run
        }),
{
}

/// Findings of two lists hold an error exactly where one of the lists does.
proof fn lemma_either_holds_error(
    a: Seq<DiagnosticView>,
    b: Seq<DiagnosticView>,
)
    ensures
        holds_error(a + b) == (holds_error(a) || holds_error(b)),
{
    let all = a + b;
    if holds_error(a) {
        let i = choose|i: int|
            0 <= i < a.len() && (#[trigger] a[i]).level == DiagnosticLevel::Error;
        assert(all[i] == a[i]);
    }
    if holds_error(b) {
        let i = choose|i: int|
            0 <= i < b.len() && (#[trigger] b[i]).level == DiagnosticLevel::Error;
        assert(all[a.len() + i] == b[i]);
    }
    if holds_error(all) {
        let i = choose|i: int|
            0 <= i < all.len() && (#[trigger] all[i]).level == DiagnosticLevel::Error;
        if i < a.len() {
            assert(all[i] == a[i]);
        } else {
            assert(all[i] == b[i - a.len()]);
        }
    }
}

/// What an initialization leads to does not rest on answers to steps that were not taken: none
/// matters where a finding is an error, a registration only after a clean teardown, and a
/// restoration only after a failed registration that replaces a configuration.
pub proof fn law_unasked_answers_are_ignored(
    runtime: RuntimeView,
    config: PluginConfigView,
    report: ReportView,
    errors: Seq<Seq<char>>,
    gone: bool,
    observed: Seq<RuntimeDiagnostic>,
    activation: Result<Seq<RegistrationView>, ErrorView>,
    restoration: Result<Seq<RegistrationView>, ErrorView>,
    other_errors: Seq<Seq<char>>,
    other_gone: bool,
    other_observed: Seq<RuntimeDiagnostic>,
    other_activation: Result<Seq<RegistrationView>, ErrorView>,
    other_restoration: Result<Seq<RegistrationView>, ErrorView>,
)
    ensures
        ({
            let outcome = initialization(
                runtime,
                config,
                report,
                errors,
                gone,
                observed,
                activation,
                restoration,
            );
            &&& holds_error(report.diagnostics) ==> outcome == initialization(
                runtime,
                config,
                report,
                other_errors,
                other_gone,
                other_observed,
                other_activation,
                other_restoration,
            )
            &&& runtime.active is Some && errors.len() > 0 ==> outcome == initialization(
                runtime,
                config,
                report,
                errors,
                gone,
                observed,
                other_activation,
                other_restoration,
            )
            &&& activation is Ok || runtime.active is None ==> outcome == initialization(
                runtime,
                config,
                report,
                errors,
                gone,
                observed,
                activation,
                other_restoration,
            )
        }),
{
}

/// An initialization that is refused asks for nothing. Else the callbacks of the previous
/// configuration are removed, and once all of them are simply gone the new one is registered; where
/// that fails, the previous one is registered again.
pub proof fn law_what_initialization_asks_for(
    owner: PluginMutationOwner,
    report: ReportView,
    active: bool,
    total: nat,
    run: ActivationRunView,
    result: ActivationResult,
    cleanup: PluginRegistrationCleanupOutcome,
)
    ensures
        owner != PluginMutationOwner::Idle || holds_error(report.diagnostics) ==> step_of(
            begun_run(owner, report, active, total),
        ) == ActivationStep::Finish,
        owner == PluginMutationOwner::Idle && !holds_error(report.diagnostics) && total == 0
            ==> step_of(begun_run(owner, report, active, total)) == ActivationStep::Activate,
        owner == PluginMutationOwner::Idle && !holds_error(report.diagnostics) && total > 0
            ==> step_of(begun_run(owner, report, active, total)) == ActivationStep::Remove(
            (total - 1) as usize,
        ),
        run.stage == ActivationStage::Removing && run.answers.len() + 1 == run.total && all_removed(
            run.answers.push(cleanup),
        ) ==> step_of(run_takes(run, ActivationEvent::Removed(cleanup)))
            == ActivationStep::Activate,
        run.stage == ActivationStage::Removing && run.answers.len() + 1 == run.total
            && !all_removed(run.answers.push(cleanup)) ==> step_of(
            run_takes(run, ActivationEvent::Removed(cleanup)),
        ) == ActivationStep::Finish,
        run.stage == ActivationStage::Activating && result is Ok ==> step_of(
            run_takes(run, ActivationEvent::Registered(result)),
        ) == ActivationStep::Finish,
        run.stage == ActivationStage::Activating && result is Err && run.active ==> step_of(
            run_takes(run, ActivationEvent::Registered(result)),
        ) == ActivationStep::Restore,
        run.stage == ActivationStage::Activating && result is Err && !run.active ==> step_of(
            run_takes(run, ActivationEvent::Registered(result)),
        ) == ActivationStep::Finish,
        run.stage == ActivationStage::Activating ==> run_takes(
            run,
            ActivationEvent::Registered(result),
        ).activation == Some(result),
        run.stage == ActivationStage::Restoring ==> run_takes(
            run,
            ActivationEvent::Registered(result),
        ).restoration == Some(result) && step_of(
            run_takes(run, ActivationEvent::Registered(result)),
        ) == ActivationStep::Finish,
{
}

} // verus!
