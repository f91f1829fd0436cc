//! Registering the components of a configuration, one after the other, and taking back what
//! was registered where one of them fails.

use vstd::prelude::*;

use crate::activation::{
    activation_plan, component_not_registered, plan_plugin_components, planned_views,
    ActivationResult, PlannedComponent,
};
use crate::config::PluginConfig;
use crate::error::{ErrorView, PluginError, PluginErrorKind};
use crate::handlers::{HandlersView, PluginHandlers};
use crate::registrations::{
    record_pending_rollback, removal_errors, rollback_registrations_checked, PluginRegistration,
    RollbackRun,
};
use crate::text::{self, concat2};

verus! {

/// How far a setup is.
#[derive(Debug, Clone, Copy, PartialEq, Eq, Structural)]
pub enum SetupStage {
    /// A component is being registered.
    Registering,
    /// What the failed component registered is being removed.
    RemovingComponent,
    /// What the components before it registered is being removed.
    RemovingEarlier,
    /// Nothing more happens.
    Over,
}

/// How registering one component ended.
pub enum ComponentOutcome {
    /// Its plugin registered it.
    Done,
    /// Its plugin failed.
    Failed(PluginError),
    /// Its plugin gave no answer: what became of the task.
    Stopped(String),
}

/// What a setup is told.
pub enum SetupEvent {
    /// What a component had registered when it ended, and how it ended.
    Registered(Vec<PluginRegistration>, ComponentOutcome),
    /// The rollback that was asked for, once it is done.
    RolledBack(RollbackRun),
}

/// What a setup asks for.
pub enum SetupStep {
    /// Let the plugin of the component at a position register it under a namespace.
    Register(usize, String),
    /// Remove what the failed component registered, the last callback first.
    RollBackComponent,
    /// Remove what the components before it registered, the last callback first.
    RollBackEarlier,
    /// Nothing more: what the setup gave, and the errors of callbacks that may be left behind.
    Finish(ActivationResult, Vec<String>),
    /// Nothing: the event was not asked for.
    Ignore,
}

/// The mathematical form of what a setup asks for.
pub ghost enum SetupStepView {
    /// Let the plugin of the component at a position register it under a namespace.
    Register(int, Seq<char>),
    /// Remove what the failed component registered, the last callback first.
    RollBackComponent,
    /// Remove what the components before it registered, the last callback first.
    RollBackEarlier,
    /// Nothing more: what the setup gave, and the errors of callbacks that may be left behind.
    Finish(Result<Seq<PluginRegistration>, ErrorView>, Seq<Seq<char>>),
    /// Nothing: the event was not asked for.
    Ignore,
}

impl View for SetupStep {
    type V = SetupStepView;

    open spec fn view(&self) -> SetupStepView {
        match *self {
            SetupStep::Register(index, namespace) => SetupStepView::Register(
                index as int,
                namespace@,
            ),
            SetupStep::RollBackComponent => SetupStepView::RollBackComponent,
            SetupStep::RollBackEarlier => SetupStepView::RollBackEarlier,
            SetupStep::Finish(result, failures) => SetupStepView::Finish(
                match result {
                    Ok(registrations) => Ok(registrations@),
                    Err(e) => Err(e@),
                },
                text::texts(failures@),
            ),
            SetupStep::Ignore => SetupStepView::Ignore,
        }
    }
}

/// A setup of the components of a configuration.
pub struct ComponentSetup {
    /// The components to register.
    pub plan: Vec<PlannedComponent>,
    /// What ends the setup once they are registered, where it cannot succeed.
    pub missing: Option<PluginError>,
    /// How many of them are registered.
    pub done: usize,
    /// What they registered, in order.
    pub registrations: Vec<PluginRegistration>,
    /// What the failed component registered.
    pub partial: Vec<PluginRegistration>,
    /// What the setup failed with.
    pub problem: Option<PluginError>,
    /// The errors of callbacks that may be left behind.
    pub failures: Vec<String>,
    /// How far the setup is.
    pub stage: SetupStage,
}

/// The mathematical form of a setup.
pub ghost struct SetupView {
    /// The positions and namespaces of the components that are registered.
    pub registered: Seq<(int, Seq<char>)>,
    /// The positions and namespaces of the components that are yet to be registered.
    pub remaining: Seq<(int, Seq<char>)>,
    /// What ends the setup once they are registered, where it cannot succeed.
    pub missing: Option<ErrorView>,
    /// What the other components registered, in order.
    pub registrations: Seq<PluginRegistration>,
    /// What the failed component registered.
    pub partial: Seq<PluginRegistration>,
    /// What the setup failed with.
    pub problem: Option<ErrorView>,
    /// The errors of callbacks that may be left behind.
    pub failures: Seq<Seq<char>>,
    /// How far the setup is.
    pub stage: SetupStage,
}

/// The mathematical form of an optional error.
pub open spec fn opt_error(e: Option<PluginError>) -> Option<ErrorView> {
    match e {
        Some(e) => Some(e@),
        None => None,
    }
}

impl View for ComponentSetup {
    type V = SetupView;

    open spec fn view(&self) -> SetupView {
        SetupView {
            registered: planned_views(self.plan@).take(self.done as int),
            remaining: planned_views(self.plan@).skip(self.done as int),
            missing: opt_error(self.missing),
            registrations: self.registrations@,
            partial: self.partial@,
            problem: opt_error(self.problem),
            failures: text::texts(self.failures@),
            stage: self.stage,
        }
    }
}

/// A setup that has registered nothing yet.
pub open spec fn fresh_setup(handlers: HandlersView, config: PluginConfig) -> SetupView {
    let plan = activation_plan(handlers, config.components@, config.components@.len());
    SetupView {
        registered: Seq::empty(),
        remaining: plan.0,
        missing: match plan.1 {
            Some(kind) => Some(component_not_registered(kind)),
            None => None,
        },
        registrations: Seq::empty(),
        partial: Seq::empty(),
        problem: None,
        failures: Seq::empty(),
        stage: SetupStage::Registering,
    }
}

/// The setup turned to the next component, or to its end where none is left.
pub open spec fn going_on(s: SetupView) -> (SetupView, SetupStepView) {
    if s.remaining.len() > 0 {
        (
            SetupView { stage: SetupStage::Registering, ..s },
            SetupStepView::Register(s.remaining[0].0, s.remaining[0].1),
        )
    } else {
        match s.missing {
            Some(e) => (
                SetupView {
                    missing: None,
                    problem: Some(e),
                    stage: SetupStage::RemovingEarlier,
                    ..s
                },
                SetupStepView::RollBackEarlier,
            ),
            None => (
                SetupView { registrations: Seq::empty(), stage: SetupStage::Over, ..s },
                SetupStepView::Finish(Ok(s.registrations), s.failures),
            ),
        }
    }
}

/// The error of a component that was not registered.
pub open spec fn outcome_problem(outcome: ComponentOutcome) -> Option<ErrorView> {
    match outcome {
        ComponentOutcome::Done => None,
        ComponentOutcome::Failed(e) => Some(e@),
        ComponentOutcome::Stopped(detail) => Some(
            (
                PluginErrorKind::Internal,
                "plugin component initialization task failed: "@ + detail@,
            ),
        ),
    }
}

/// What a rollback adds to the errors of callbacks that may be left behind.
pub open spec fn left_behind(
    registrations: Seq<PluginRegistration>,
    removal: RollbackRun,
) -> Seq<Seq<char>> {
    if removal.gone() {
        Seq::empty()
    } else {
        removal_errors(registrations, removal)
    }
}

/// A setup that was told of an event, and what it asks for.
pub open spec fn told_setup(s: SetupView, event: SetupEvent) -> (SetupView, SetupStepView) {
    match (s.stage, event) {
        (SetupStage::Registering, SetupEvent::Registered(registrations, outcome)) => match outcome_problem(outcome) {
            None => going_on(
                SetupView {
                    registered: s.registered.push(s.remaining[0]),
                    remaining: s.remaining.drop_first(),
                    registrations: s.registrations + registrations@,
                    ..s
                },
            ),
            Some(e) => (
                SetupView {
                    partial: registrations@,
                    problem: Some(e),
                    stage: SetupStage::RemovingComponent,
                    ..s
                },
                SetupStepView::RollBackComponent,
            ),
        },
        (SetupStage::RemovingComponent, SetupEvent::RolledBack(removal)) => if rolls_back(
            removal,
            s.partial,
        ) {
            (
                SetupView {
                    partial: Seq::empty(),
                    failures: s.failures + left_behind(s.partial, removal),
                    stage: SetupStage::RemovingEarlier,
                    ..s
                },
                SetupStepView::RollBackEarlier,
            )
        } else {
            (s, SetupStepView::Ignore)
        },
        (SetupStage::RemovingEarlier, SetupEvent::RolledBack(removal)) => if rolls_back(
            removal,
            s.registrations,
        ) {
            let failures = s.failures + left_behind(s.registrations, removal);
            (
                SetupView {
                    registrations: Seq::empty(),
                    problem: None,
                    failures: Seq::empty(),
                    stage: SetupStage::Over,
                    ..s
                },
                SetupStepView::Finish(Err(s.problem->0), failures),
            )
        } else {
            (s, SetupStepView::Ignore)
        },
        _ => (s, SetupStepView::Ignore),
    }
}

/// Whether a rollback is that of some registrations, and done.
pub open spec fn rolls_back(
    removal: RollbackRun,
    registrations: Seq<PluginRegistration>,
) -> bool {
    removal.done() && removal.total() == registrations.len()
}

impl ComponentSetup {
    /// Whether a component is left where one is being registered, and an error is known where
    /// callbacks are being removed.
    pub open spec fn wf(self) -> bool {
        match self.stage {
            SetupStage::Registering => self.done < self.plan@.len() && self.failures@.len() == 0,
            SetupStage::RemovingComponent => self.problem is Some,
            SetupStage::RemovingEarlier => self.problem is Some,
            SetupStage::Over => true,
        }
    }

    /// Begins to register the components of a configuration; `builtins` is what registering
    /// the builtin kinds gave.
    pub fn begin(
        handlers: &PluginHandlers,
        config: &PluginConfig,
        builtins: Result<(), PluginError>,
    ) -> (r: (Self, SetupStep))
        ensures
            r.0.wf(),
            match builtins {
                Ok(()) => (r.0@, r.1@) == going_on(fresh_setup(handlers@, *config)),
                Err(e) => r.0.stage == SetupStage::Over && r.1@ == SetupStepView::Finish(
                    Err(e@),
                    Seq::empty(),
                ),
            },
    {
        let (plan, missing) = match &builtins {
            Ok(()) => plan_plugin_components(handlers, config),
            Err(_) => (Vec::new(), None),
        };
        let setup = ComponentSetup {
            plan,
            missing,
            done: 0,
            registrations: Vec::new(),
            partial: Vec::new(),
            problem: None,
            failures: Vec::new(),
            stage: SetupStage::Over,
        };
        assert(planned_views(setup.plan@).take(0) =~= Seq::empty());
        assert(planned_views(setup.plan@).skip(0) =~= planned_views(setup.plan@));
        assert(text::texts(setup.failures@) =~= Seq::empty());
        match builtins {
            Err(e) => (setup, SetupStep::Finish(Err(e), Vec::new())),
            Ok(()) => setup.go_on(),
        }
    }

    /// Turns to the next component, or to the end where none is left.
    fn go_on(self) -> (r: (Self, SetupStep))
        requires
            self.done <= self.plan@.len(),
            self.failures@.len() == 0,
        ensures
            r.0.wf(),
            (r.0@, r.1@) == going_on(self@),
    {
        let mut setup = self;
        if setup.done < setup.plan.len() {
            let index = setup.plan[setup.done].index;
            let namespace = setup.plan[setup.done].namespace.as_str().to_owned();
            setup.stage = SetupStage::Registering;
            return (setup, SetupStep::Register(index, namespace));
        }
        match setup.missing.take() {
            Some(e) => {
                setup.problem = Some(e);
                setup.stage = SetupStage::RemovingEarlier;
                (setup, SetupStep::RollBackEarlier)
            },
            None => {
                let mut registrations: Vec<PluginRegistration> = Vec::new();
                registrations.append(&mut setup.registrations);
                setup.stage = SetupStage::Over;
                let failures: Vec<String> = Vec::new();
                assert(registrations@ =~= self.registrations@);
                assert(text::texts(failures@) =~= text::texts(self.failures@));
                (setup, SetupStep::Finish(Ok(registrations), failures))
            },
        }
    }

    /// Takes an event and gives what is to be done next. An event that was not asked for
    /// changes nothing.
    pub fn take(self, event: SetupEvent) -> (r: (Self, SetupStep))
        requires
            self.wf(),
        ensures
            r.0.wf(),
            (r.0@, r.1@) == told_setup(self@, event),
    {
        let mut setup = self;
        match (setup.stage, event) {
            (SetupStage::Registering, SetupEvent::Registered(registrations, outcome)) => {
                let problem = match outcome {
                    ComponentOutcome::Done => {
                        return setup.add_component(registrations);
                    },
                    ComponentOutcome::Failed(e) => e,
                    ComponentOutcome::Stopped(detail) => PluginError::Internal(
                        concat2(
                            "plugin component initialization task failed: ",
                            detail.as_str(),
                        ),
                    ),
                };
                setup.partial = registrations;
                setup.problem = Some(problem);
                setup.stage = SetupStage::RemovingComponent;
                (setup, SetupStep::RollBackComponent)
            },
            (SetupStage::RemovingComponent, SetupEvent::RolledBack(removal)) => {
                if !removal.is_done() || removal.count() != setup.partial.len() {
                    return (setup, SetupStep::Ignore);
                }
                roll_back(&mut setup.partial, &removal, &mut setup.failures);
                setup.stage = SetupStage::RemovingEarlier;
                (setup, SetupStep::RollBackEarlier)
            },
            (SetupStage::RemovingEarlier, SetupEvent::RolledBack(removal)) => {
                if !removal.is_done() || removal.count() != setup.registrations.len() {
                    return (setup, SetupStep::Ignore);
                }
                roll_back(&mut setup.registrations, &removal, &mut setup.failures);
                let mut failures: Vec<String> = Vec::new();
                failures.append(&mut setup.failures);
                assert(text::texts(setup.failures@) =~= Seq::empty());
                setup.stage = SetupStage::Over;
                match setup.problem.take() {
                    Some(e) => (setup, SetupStep::Finish(Err(e), failures)),
                    None => (setup, SetupStep::Ignore),
                }
            },
            _ => (setup, SetupStep::Ignore),
        }
    }

    /// Adds what a component registered and goes on.
    fn add_component(self, registrations: Vec<PluginRegistration>) -> (r: (Self, SetupStep))
        requires
            self.done < self.plan@.len(),
            self.failures@.len() == 0,
        ensures
            r.0.wf(),
            (r.0@, r.1@) == going_on(
                SetupView {
                    registered: self@.registered.push(self@.remaining[0]),
                    remaining: self@.remaining.drop_first(),
                    registrations: self@.registrations + registrations@,
                    ..self@
                },
            ),
    {
        let mut setup = self;
        let mut registrations = registrations;
        setup.registrations.append(&mut registrations);
        assert(setup.done < setup.plan.len());
        setup.done += 1;
        assert(planned_views(setup.plan@).take(setup.done as int) =~= self@.registered.push(
            self@.remaining[0],
        ));
        assert(planned_views(setup.plan@).skip(setup.done as int) =~= self@.remaining.drop_first());
        setup.go_on()
    }
}

/// Notes what removing callbacks gave where one of them may be left behind.
fn roll_back(
    registrations: &mut Vec<PluginRegistration>,
    removal: &RollbackRun,
    failures: &mut Vec<String>,
)
    requires
        removal.total() == old(registrations)@.len(),
    ensures
        final(registrations)@ == Seq::<PluginRegistration>::empty(),
        text::texts(final(failures)@) == text::texts(old(failures)@) + left_behind(
            old(registrations)@,
            *removal,
        ),
{
    let ghost before = failures@;
    let outcome = rollback_registrations_checked(registrations, removal);
    let ghost errors = outcome.errors@;
    record_pending_rollback(failures, outcome);
    assert(text::texts(before + errors) =~= text::texts(before) + text::texts(errors));
    assert(text::texts(before) + Seq::<Seq<char>>::empty() =~= text::texts(before));
}

/// A component that fails ends the setup with its error, and first everything that was
/// registered is removed: what the component registered itself and what the components before
/// it registered, each callback once and the last one first. The errors of callbacks that may be left behind are kept.
pub proof fn law_failed_setup_takes_everything_back(
    s: SetupView,
    registrations: Vec<PluginRegistration>,
    outcome: ComponentOutcome,
    component: RollbackRun,
    earlier: RollbackRun,
)
    requires
        s.stage == SetupStage::Registering,
        outcome_problem(outcome) is Some,
        rolls_back(component, registrations@),
        rolls_back(earlier, s.registrations),
    ensures
        ({
            let (first, asked) = told_setup(s, SetupEvent::Registered(registrations, outcome));
            let (second, also_asked) = told_setup(first, SetupEvent::RolledBack(component));
            let (end, told) = told_setup(second, SetupEvent::RolledBack(earlier));
            &&& asked == SetupStepView::RollBackComponent
            &&& first.partial == registrations@
            &&& also_asked == SetupStepView::RollBackEarlier
            &&& second.registrations == s.registrations
            &&& end.stage == SetupStage::Over
            &&& end.registrations.len() == 0 && end.partial.len() == 0
            &&& told == SetupStepView::Finish(
                Err(outcome_problem(outcome)->0),
                s.failures + left_behind(registrations@, component) + left_behind(
                    s.registrations,
                    earlier,
                ),
            )
        }),
{
}

/// Nothing that a component registered is lost: the setup keeps it while it goes on, gives it
/// out where it succeeds, and asks to remove it where it fails.
pub proof fn law_registrations_are_accounted_for(
    s: SetupView,
    registrations: Vec<PluginRegistration>,
)
    requires
        s.stage == SetupStage::Registering,
        s.remaining.len() > 0,
    ensures
        ({
            let all = s.registrations + registrations@;
            let (after, asked) = told_setup(
                s,
                SetupEvent::Registered(registrations, ComponentOutcome::Done),
            );
            match asked {
                SetupStepView::Register(index, namespace) => after.registrations == all && (
                    index,
                    namespace,
                ) == s.remaining[1],
                SetupStepView::RollBackEarlier => after.registrations == all && after.problem
                    == s.missing,
                SetupStepView::Finish(result, failures) => result == Ok::<
                    Seq<PluginRegistration>,
                    ErrorView,
                >(all) && s.missing is None && s.remaining.len() == 1,
                _ => false,
            }
        }),
{
}

/// A setup that is over stays so and asks for nothing more.
pub proof fn law_finished_setup_does_nothing(s: SetupView, event: SetupEvent)
    requires
        s.stage == SetupStage::Over,
    ensures
        told_setup(s, event) == (s, SetupStepView::Ignore),
{
}

/// Components are registered one after the other, each in its own namespace; after the last, the
/// setup ends with all that they registered. A component that is not registered ends it with that
/// error after what was registered is taken back.
pub proof fn law_setup_registers_in_order(
    s: SetupView,
    registrations: Vec<PluginRegistration>,
)
    requires
        s.stage == SetupStage::Registering,
        s.remaining.len() > 0,
    ensures
        ({
            let (next, step) = told_setup(
                s,
                SetupEvent::Registered(registrations, ComponentOutcome::Done),
            );
            &&& s.remaining.len() > 1 ==> step == SetupStepView::Register(
                s.remaining[1].0,
                s.remaining[1].1,
            ) && next.stage == SetupStage::Registering && next.registrations == s.registrations
                + registrations@ && next.remaining == s.remaining.subrange(
                1,
                s.remaining.len() as int,
            )
            &&& s.remaining.len() == 1 && s.missing is None ==> step == SetupStepView::Finish(
                Ok(s.registrations + registrations@),
                s.failures,
            ) && next.stage == SetupStage::Over
            &&& s.remaining.len() == 1 && s.missing is Some ==> step
                == SetupStepView::RollBackEarlier && next.problem == s.missing && next.stage
                == SetupStage::RemovingEarlier && next.registrations == s.registrations
                + registrations@
        }),
{
    assert(s.remaining.drop_first() =~= s.remaining.subrange(1, s.remaining.len() as int));
}

/// A setup begins with the first component of its plan; without any, it ends at once with what the
/// plan lacks, or with nothing registered.
pub proof fn law_setup_begins_with_the_plan(handlers: HandlersView, config: PluginConfig)
    ensures
        ({
            let plan = activation_plan(handlers, config.components@, config.components@.len());
            let (s, step) = going_on(fresh_setup(handlers, config));
            &&& plan.0.len() > 0 ==> step == SetupStepView::Register(plan.0[0].0, plan.0[0].1)
                && s.remaining == plan.0 && s.registrations.len() == 0
            &&& plan.0.len() == 0 && plan.1 is None ==> step == SetupStepView::Finish(
                Ok(Seq::empty()),
                Seq::empty(),
            )
            &&& plan.0.len() == 0 && plan.1 is Some ==> s.problem == Some(
                component_not_registered(plan.1->0),
            )
        }),
{
}

/// A component fails with its own error, or with one that says that its task did not end.
pub proof fn law_failed_components_are_told(e: PluginError, detail: String)
    ensures
        outcome_problem(ComponentOutcome::Done) is None,
        outcome_problem(ComponentOutcome::Failed(e)) == Some(e@),
        outcome_problem(ComponentOutcome::Stopped(detail)) == Some(
            (
                PluginErrorKind::Internal,
                "plugin component initialization task failed: "@ + detail@,
            ),
        ),
{
}

/// Only callbacks that may be left behind are told at the end of a setup.
pub proof fn law_cleared_callbacks_are_not_told(
    registrations: Seq<PluginRegistration>,
    removal: RollbackRun,
)
    ensures
        removal.gone() ==> left_behind(registrations, removal).len() == 0,
        !removal.gone() ==> left_behind(registrations, removal) == removal_errors(
            registrations,
            removal,
        ),
        rolls_back(removal, registrations) <==> removal.answers().len() == removal.total()
            && removal.total() == registrations.len(),
{
}

} // verus!
