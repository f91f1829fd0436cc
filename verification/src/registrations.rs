//! Bookkeeping of middleware registrations and their rollback.

use vstd::prelude::*;

use crate::error::{self, ErrorView, PluginError, PluginErrorKind};
use crate::text::{self, concat2, concat5};

verus! {

/// What a plugin can register a callback for.
#[derive(Debug, Clone, Copy, PartialEq, Eq, Structural)]
pub enum RegistrationSurface {
    /// Event subscriber.
    Subscriber,
    /// Sanitizer of mark events.
    MarkSanitizeGuardrail,
    /// Sanitizer of scope-start events.
    ScopeSanitizeStartGuardrail,
    /// Sanitizer of scope-end events.
    ScopeSanitizeEndGuardrail,
    /// Sanitizer of tool requests.
    ToolSanitizeRequestGuardrail,
    /// Sanitizer of tool responses.
    ToolSanitizeResponseGuardrail,
    /// Gate on tool execution.
    ToolConditionalExecutionGuardrail,
    /// Intercept of tool requests.
    ToolRequestIntercept,
    /// Intercept of tool execution.
    ToolExecutionIntercept,
    /// Sanitizer of LLM requests.
    LlmSanitizeRequestGuardrail,
    /// Sanitizer of LLM responses.
    LlmSanitizeResponseGuardrail,
    /// Gate on LLM execution.
    LlmConditionalExecutionGuardrail,
    /// Intercept of LLM requests.
    LlmRequestIntercept,
    /// Intercept of LLM execution.
    LlmExecutionIntercept,
    /// Intercept of streaming LLM execution.
    LlmStreamExecutionIntercept,
}

/// Whether the intercepts of a surface can leave out later ones.
pub open spec fn breaks_chains(surface: RegistrationSurface) -> bool {
    surface == RegistrationSurface::ToolRequestIntercept || surface
        == RegistrationSurface::LlmRequestIntercept
}

impl RegistrationSurface {
    /// How the surface is called in registration errors.
    pub open spec fn description(self) -> Seq<char> {
        match self {
            RegistrationSurface::Subscriber => "subscriber"@,
            RegistrationSurface::MarkSanitizeGuardrail => "mark sanitizer"@,
            RegistrationSurface::ScopeSanitizeStartGuardrail => "scope-start sanitizer"@,
            RegistrationSurface::ScopeSanitizeEndGuardrail => "scope-end sanitizer"@,
            RegistrationSurface::ToolSanitizeRequestGuardrail => "tool sanitize request guardrail"@,
            RegistrationSurface::ToolSanitizeResponseGuardrail => "tool sanitize response guardrail"@,
            RegistrationSurface::ToolConditionalExecutionGuardrail => "tool conditional execution guardrail"@,
            RegistrationSurface::ToolRequestIntercept => "tool request intercept"@,
            RegistrationSurface::ToolExecutionIntercept => "tool execution intercept"@,
            RegistrationSurface::LlmSanitizeRequestGuardrail => "llm sanitize request guardrail"@,
            RegistrationSurface::LlmSanitizeResponseGuardrail => "llm sanitize response guardrail"@,
            RegistrationSurface::LlmConditionalExecutionGuardrail => "llm conditional execution guardrail"@,
            RegistrationSurface::LlmRequestIntercept => "llm request intercept"@,
            RegistrationSurface::LlmExecutionIntercept => "llm execution intercept"@,
            RegistrationSurface::LlmStreamExecutionIntercept => "llm stream execution intercept"@,
        }
    }

    /// How the surface is called in registration errors.
    pub fn describe(&self) -> (r: &'static str)
        ensures
            r@ == self.description(),
    {
        match self {
            RegistrationSurface::Subscriber => "subscriber",
            RegistrationSurface::MarkSanitizeGuardrail => "mark sanitizer",
            RegistrationSurface::ScopeSanitizeStartGuardrail => "scope-start sanitizer",
            RegistrationSurface::ScopeSanitizeEndGuardrail => "scope-end sanitizer",
            RegistrationSurface::ToolSanitizeRequestGuardrail => "tool sanitize request guardrail",
            RegistrationSurface::ToolSanitizeResponseGuardrail => "tool sanitize response guardrail",
            RegistrationSurface::ToolConditionalExecutionGuardrail => "tool conditional execution guardrail",
            RegistrationSurface::ToolRequestIntercept => "tool request intercept",
            RegistrationSurface::ToolExecutionIntercept => "tool execution intercept",
            RegistrationSurface::LlmSanitizeRequestGuardrail => "llm sanitize request guardrail",
            RegistrationSurface::LlmSanitizeResponseGuardrail => "llm sanitize response guardrail",
            RegistrationSurface::LlmConditionalExecutionGuardrail => "llm conditional execution guardrail",
            RegistrationSurface::LlmRequestIntercept => "llm request intercept",
            RegistrationSurface::LlmExecutionIntercept => "llm execution intercept",
            RegistrationSurface::LlmStreamExecutionIntercept => "llm stream execution intercept",
        }
    }
}

/// Bookkeeping for one middleware/subscriber registration.
#[derive(Debug, PartialEq, Eq)]
pub struct PluginRegistration {
    /// Registration kind used for bookkeeping.
    pub kind: String,
    /// Runtime-qualified registration name.
    pub name: String,
}

/// The kind and name of a registration.
pub type RegistrationView = (Seq<char>, Seq<char>);

impl View for PluginRegistration {
    type V = RegistrationView;

    open spec fn view(&self) -> RegistrationView {
        (self.kind@, self.name@)
    }
}

impl PluginRegistration {
    /// Creates a new registration bookkeeping entry.
    pub fn new(kind: String, name: String) -> (r: Self)
        ensures
            r.kind == kind,
            r.name == name,
    {
        PluginRegistration { kind, name }
    }
}

/// The kinds and names of a list of registrations.
pub open spec fn registration_views(registrations: Seq<PluginRegistration>) -> Seq<
    RegistrationView,
> {
    Seq::new(registrations.len(), |i: int| registrations[i]@)
}

/// Context in which a plugin registers its callbacks.
///
/// The runtime installs each callback under a qualified name; the context records
/// the registrations so that a host can roll back a partial setup.
#[derive(Debug)]
pub struct PluginRegistrationContext {
    /// What was registered, in order.
    pub registrations: Vec<PluginRegistration>,
    /// Prefix of all registration names.
    pub namespace: Option<String>,
}

/// The name under which the runtime knows a registration.
pub open spec fn qualified(namespace: Option<String>, name: Seq<char>) -> Seq<char> {
    match namespace {
        Some(prefix) => prefix@ + name,
        None => name,
    }
}

/// The error of a callback that the runtime refused.
pub open spec fn registration_error(surface: RegistrationSurface, detail: Seq<char>) -> ErrorView {
    (PluginErrorKind::RegistrationFailed, surface.description() + ": "@ + detail)
}

/// The error of a callback that the runtime did not let go.
pub open spec fn deregistration_error(
    surface: RegistrationSurface,
    detail: Seq<char>,
) -> ErrorView {
    (
        PluginErrorKind::RegistrationFailed,
        surface.description() + " deregistration failed: "@ + detail,
    )
}

/// The outcome of removing a callback from the runtime.
pub fn deregistration_result(surface: RegistrationSurface, outcome: Result<(), String>) -> (r:
    Result<(), PluginError>)
    ensures
        error::failure(r) == (match outcome {
            Ok(()) => None,
            Err(e) => Some(deregistration_error(surface, e@)),
        }),
{
    match outcome {
        Ok(()) => Ok(()),
        Err(e) => Err(
            PluginError::RegistrationFailed(
                text::concat3(surface.describe(), " deregistration failed: ", e.as_str()),
            ),
        ),
    }
}

impl PluginRegistrationContext {
    /// Creates an empty plugin registration context.
    pub fn new() -> (r: Self)
        ensures
            r.registrations@ == Seq::<PluginRegistration>::empty(),
            r.namespace is None,
    {
        PluginRegistrationContext { registrations: Vec::new(), namespace: None }
    }

    /// Creates a plugin registration context that namespaces all registration
    /// names.
    pub fn with_namespace(namespace: String) -> (r: Self)
        ensures
            r.registrations@ == Seq::<PluginRegistration>::empty(),
            r.namespace == Some(namespace),
    {
        PluginRegistrationContext { registrations: Vec::new(), namespace: Some(namespace) }
    }

    /// Returns the runtime-qualified name for a plugin-local registration.
    ///
    /// Plugin handlers pass stable component-local names; the host applies the
    /// namespace so users do not have to provide component instance ids.
    pub fn qualify_name(&self, name: &str) -> (r: String)
        ensures
            r@ == qualified(self.namespace, name@),
    {
        match &self.namespace {
            Some(namespace) => concat2(namespace.as_str(), name),
            None => name.to_owned(),
        }
    }

    /// Records what the runtime said to a callback for a surface: its error, or a
    /// registration under the qualified name.
    pub fn record(&mut self, surface: RegistrationSurface, name: &str, outcome: Result<(), String>)
        -> (r: Result<(), PluginError>)
        ensures
            recorded(*old(self), *final(self), surface, name@, outcome, r),
    {
        match outcome {
            Err(e) => Err(
                PluginError::RegistrationFailed(
                    text::concat3(surface.describe(), ": ", e.as_str()),
                ),
            ),
            Ok(()) => {
                let qualified_name = self.qualify_name(name);
                let ghost before = self.registrations@;
                self.registrations.push(
                    PluginRegistration::new("plugin".to_owned(), qualified_name),
                );
                assert(registration_views(self.registrations@) =~= registration_views(before).push(
                    ("plugin"@, qualified_name@),
                ));
                Ok(())
            },
        }
    }

    /// Adds a prebuilt registration to the context.
    pub fn add_registration(&mut self, registration: PluginRegistration)
        ensures
            final(self).registrations@ == old(self).registrations@.push(registration),
            final(self).namespace == old(self).namespace,
    {
        self.registrations.push(registration);
    }

    /// Extends the context with prebuilt registrations.
    pub fn extend_registrations(&mut self, registrations: Vec<PluginRegistration>)
        ensures
            final(self).registrations@ == old(self).registrations@ + registrations@,
            final(self).namespace == old(self).namespace,
    {
        let mut registrations = registrations;
        self.registrations.append(&mut registrations);
    }

    /// Consumes the context and returns the recorded registrations.
    pub fn into_registrations(self) -> (r: Vec<PluginRegistration>)
        ensures
            r == self.registrations,
    {
        self.registrations
    }
}

/// Whether a context records what the runtime said to a callback.
pub open spec fn recorded(
    before: PluginRegistrationContext,
    after: PluginRegistrationContext,
    surface: RegistrationSurface,
    name: Seq<char>,
    outcome: Result<(), String>,
    r: Result<(), PluginError>,
) -> bool {
    &&& after.namespace == before.namespace
    &&& match outcome {
        Ok(()) => r is Ok && registration_views(after.registrations@) == registration_views(
            before.registrations@,
        ).push(("plugin"@, qualified(before.namespace, name))),
        Err(e) => error::failure(r) == Some(registration_error(surface, e@)) && after == before,
    }
}

/// One method per surface; `outcome` is what the runtime said to the callback
/// under the qualified name.
impl PluginRegistrationContext {
    /// Records an event subscriber and its registration.
    pub fn register_subscriber(&mut self, name: &str, outcome: Result<(), String>) -> (r: Result<
        (),
        PluginError,
    >)
        ensures
            recorded(
                *old(self),
                *final(self),
                RegistrationSurface::Subscriber,
                name@,
                outcome,
                r,
            ),
    {
        self.record(RegistrationSurface::Subscriber, name, outcome)
    }

    /// Records a mark event sanitizer and its registration.
    pub fn register_mark_sanitize_guardrail(&mut self, name: &str, outcome: Result<(), String>) -> (r: Result<
        (),
        PluginError,
    >)
        ensures
            recorded(
                *old(self),
                *final(self),
                RegistrationSurface::MarkSanitizeGuardrail,
                name@,
                outcome,
                r,
            ),
    {
        self.record(RegistrationSurface::MarkSanitizeGuardrail, name, outcome)
    }

    /// Records a scope-start event sanitizer and its registration.
    pub fn register_scope_sanitize_start_guardrail(&mut self, name: &str, outcome: Result<(), String>) -> (r: Result<
        (),
        PluginError,
    >)
        ensures
            recorded(
                *old(self),
                *final(self),
                RegistrationSurface::ScopeSanitizeStartGuardrail,
                name@,
                outcome,
                r,
            ),
    {
        self.record(RegistrationSurface::ScopeSanitizeStartGuardrail, name, outcome)
    }

    /// Records a scope-end event sanitizer and its registration.
    pub fn register_scope_sanitize_end_guardrail(&mut self, name: &str, outcome: Result<(), String>) -> (r: Result<
        (),
        PluginError,
    >)
        ensures
            recorded(
                *old(self),
                *final(self),
                RegistrationSurface::ScopeSanitizeEndGuardrail,
                name@,
                outcome,
                r,
            ),
    {
        self.record(RegistrationSurface::ScopeSanitizeEndGuardrail, name, outcome)
    }

    /// Records an LLM request intercept and its registration.
    pub fn register_llm_request_intercept(&mut self, name: &str, outcome: Result<(), String>) -> (r: Result<
        (),
        PluginError,
    >)
        ensures
            recorded(
                *old(self),
                *final(self),
                RegistrationSurface::LlmRequestIntercept,
                name@,
                outcome,
                r,
            ),
    {
        self.record(RegistrationSurface::LlmRequestIntercept, name, outcome)
    }

    /// Records a tool request sanitizer and its registration.
    pub fn register_tool_sanitize_request_guardrail(&mut self, name: &str, outcome: Result<(), String>) -> (r: Result<
        (),
        PluginError,
    >)
        ensures
            recorded(
                *old(self),
                *final(self),
                RegistrationSurface::ToolSanitizeRequestGuardrail,
                name@,
                outcome,
                r,
            ),
    {
        self.record(RegistrationSurface::ToolSanitizeRequestGuardrail, name, outcome)
    }

    /// Records a tool response sanitizer and its registration.
    pub fn register_tool_sanitize_response_guardrail(&mut self, name: &str, outcome: Result<(), String>) -> (r: Result<
        (),
        PluginError,
    >)
        ensures
            recorded(
                *old(self),
                *final(self),
                RegistrationSurface::ToolSanitizeResponseGuardrail,
                name@,
                outcome,
                r,
            ),
    {
        self.record(RegistrationSurface::ToolSanitizeResponseGuardrail, name, outcome)
    }

    /// Records a gate on tool execution and its registration.
    pub fn register_tool_conditional_execution_guardrail(&mut self, name: &str, outcome: Result<(), String>) -> (r: Result<
        (),
        PluginError,
    >)
        ensures
            recorded(
                *old(self),
                *final(self),
                RegistrationSurface::ToolConditionalExecutionGuardrail,
                name@,
                outcome,
                r,
            ),
    {
        self.record(RegistrationSurface::ToolConditionalExecutionGuardrail, name, outcome)
    }

    /// Records an LLM request sanitizer and its registration.
    pub fn register_llm_sanitize_request_guardrail(&mut self, name: &str, outcome: Result<(), String>) -> (r: Result<
        (),
        PluginError,
    >)
        ensures
            recorded(
                *old(self),
                *final(self),
                RegistrationSurface::LlmSanitizeRequestGuardrail,
                name@,
                outcome,
                r,
            ),
    {
        self.record(RegistrationSurface::LlmSanitizeRequestGuardrail, name, outcome)
    }

    /// Records an LLM response sanitizer and its registration.
    pub fn register_llm_sanitize_response_guardrail(&mut self, name: &str, outcome: Result<(), String>) -> (r: Result<
        (),
        PluginError,
    >)
        ensures
            recorded(
                *old(self),
                *final(self),
                RegistrationSurface::LlmSanitizeResponseGuardrail,
                name@,
                outcome,
                r,
            ),
    {
        self.record(RegistrationSurface::LlmSanitizeResponseGuardrail, name, outcome)
    }

    /// Records a gate on LLM execution and its registration.
    pub fn register_llm_conditional_execution_guardrail(&mut self, name: &str, outcome: Result<(), String>) -> (r: Result<
        (),
        PluginError,
    >)
        ensures
            recorded(
                *old(self),
                *final(self),
                RegistrationSurface::LlmConditionalExecutionGuardrail,
                name@,
                outcome,
                r,
            ),
    {
        self.record(RegistrationSurface::LlmConditionalExecutionGuardrail, name, outcome)
    }

    /// Records an LLM execution intercept and its registration.
    pub fn register_llm_execution_intercept(&mut self, name: &str, outcome: Result<(), String>) -> (r: Result<
        (),
        PluginError,
    >)
        ensures
            recorded(
                *old(self),
                *final(self),
                RegistrationSurface::LlmExecutionIntercept,
                name@,
                outcome,
                r,
            ),
    {
        self.record(RegistrationSurface::LlmExecutionIntercept, name, outcome)
    }

    /// Records a streaming LLM execution intercept and its registration.
    pub fn register_llm_stream_execution_intercept(&mut self, name: &str, outcome: Result<(), String>) -> (r: Result<
        (),
        PluginError,
    >)
        ensures
            recorded(
                *old(self),
                *final(self),
                RegistrationSurface::LlmStreamExecutionIntercept,
                name@,
                outcome,
                r,
            ),
    {
        self.record(RegistrationSurface::LlmStreamExecutionIntercept, name, outcome)
    }

    /// Records a tool request intercept and its registration.
    pub fn register_tool_request_intercept(&mut self, name: &str, outcome: Result<(), String>) -> (r: Result<
        (),
        PluginError,
    >)
        ensures
            recorded(
                *old(self),
                *final(self),
                RegistrationSurface::ToolRequestIntercept,
                name@,
                outcome,
                r,
            ),
    {
        self.record(RegistrationSurface::ToolRequestIntercept, name, outcome)
    }

    /// Records a tool execution intercept and its registration.
    pub fn register_tool_execution_intercept(&mut self, name: &str, outcome: Result<(), String>) -> (r: Result<
        (),
        PluginError,
    >)
        ensures
            recorded(
                *old(self),
                *final(self),
                RegistrationSurface::ToolExecutionIntercept,
                name@,
                outcome,
                r,
            ),
    {
        self.record(RegistrationSurface::ToolExecutionIntercept, name, outcome)
    }
}

/// What removing one registration from the runtime gave.
#[derive(Debug)]
pub enum PluginRegistrationCleanupOutcome {
    /// The callback is gone.
    Removed,
    /// The callback is gone, with a delivery failure.
    RemovedWithError(PluginError),
    /// The callback may still be called.
    NotRemoved(PluginError),
    /// Removing the callback panicked with a message.
    Panicked(String),
}

/// What a rollback found.
#[derive(Debug)]
pub struct PluginRollbackOutcome {
    /// Error texts, in the order in which registrations were removed.
    pub errors: Vec<String>,
    /// Whether every callback is gone.
    pub callbacks_cleared: bool,
}

impl Default for PluginRollbackOutcome {
    fn default() -> (r: Self)
        ensures
            r.errors@ == Seq::<String>::empty(),
            r.callbacks_cleared,
    {
        PluginRollbackOutcome { errors: Vec::new(), callbacks_cleared: true }
    }
}

/// The error text for what removing a registration gave.
pub open spec fn cleanup_error(
    registration: RegistrationView,
    cleanup: PluginRegistrationCleanupOutcome,
) -> Option<Seq<char>> {
    let subject = registration.0 + " registration '"@ + registration.1;
    match cleanup {
        PluginRegistrationCleanupOutcome::Removed => None,
        PluginRegistrationCleanupOutcome::RemovedWithError(e) => Some(
            subject + "' reported a delivery failure: "@ + error::error_text(e@),
        ),
        PluginRegistrationCleanupOutcome::NotRemoved(e) => Some(
            subject + "' could not be removed: "@ + error::error_text(e@),
        ),
        PluginRegistrationCleanupOutcome::Panicked(message) => Some(
            subject + "' could not be removed: deregistration panicked: "@ + message@,
        ),
    }
}

/// Whether a callback is gone after its removal.
pub open spec fn callback_gone(cleanup: PluginRegistrationCleanupOutcome) -> bool {
    cleanup is Removed || cleanup is RemovedWithError
}

impl PluginRollbackOutcome {
    /// Records what removing a registration gave.
    pub fn record_cleanup(
        &mut self,
        registration: &PluginRegistration,
        cleanup: &PluginRegistrationCleanupOutcome,
    )
        ensures
            final(self).callbacks_cleared == (old(self).callbacks_cleared && callback_gone(
                *cleanup,
            )),
            text::texts(final(self).errors@) == (match cleanup_error(registration@, *cleanup) {
                None => text::texts(old(self).errors@),
                Some(message) => text::texts(old(self).errors@).push(message),
            }),
    {
        let ghost before = self.errors@;
        let kind = registration.kind.as_str();
        let name = registration.name.as_str();
        match cleanup {
            PluginRegistrationCleanupOutcome::Removed => {},
            PluginRegistrationCleanupOutcome::RemovedWithError(e) => {
                let detail = e.to_text();
                let message = concat5(
                    kind,
                    " registration '",
                    name,
                    "' reported a delivery failure: ",
                    detail.as_str(),
                );
                self.errors.push(message);
                assert(text::texts(self.errors@) =~= text::texts(before).push(message@));
            },
            PluginRegistrationCleanupOutcome::NotRemoved(e) => {
                self.callbacks_cleared = false;
                let detail = e.to_text();
                let message = concat5(
                    kind,
                    " registration '",
                    name,
                    "' could not be removed: ",
                    detail.as_str(),
                );
                self.errors.push(message);
                assert(text::texts(self.errors@) =~= text::texts(before).push(message@));
            },
            PluginRegistrationCleanupOutcome::Panicked(panic_message) => {
                self.callbacks_cleared = false;
                let message = concat5(
                    kind,
                    " registration '",
                    name,
                    "' could not be removed: deregistration panicked: ",
                    panic_message.as_str(),
                );
                self.errors.push(message);
                assert(text::texts(self.errors@) =~= text::texts(before).push(message@));
            },
        }
    }
}

/// The error texts of a rollback, the last registration first; `cleanups` holds
/// what removing each registration gave, in that order.
pub open spec fn rollback_errors(
    registrations: Seq<PluginRegistration>,
    cleanups: Seq<PluginRegistrationCleanupOutcome>,
    n: nat,
) -> Seq<Seq<char>>
    decreases n,
{
    if n == 0 {
        Seq::empty()
    } else {
        let before = rollback_errors(registrations, cleanups, (n - 1) as nat);
        match cleanup_error(registrations[registrations.len() - n]@, cleanups[n - 1]) {
            None => before,
            Some(message) => before.push(message),
        }
    }
}

/// Whether every callback is gone after a rollback.
pub open spec fn all_gone(cleanups: Seq<PluginRegistrationCleanupOutcome>) -> bool {
    forall|i: int| 0 <= i < cleanups.len() ==> callback_gone(#[trigger] cleanups[i])
}

/// The position of the registration whose callback a rollback removes next, after some of them
/// were removed.
pub open spec fn next_removal(total: nat, removed: nat) -> Option<int> {
    if removed < total {
        Some(total - 1 - removed)
    } else {
        None
    }
}

/// The positions of the registrations in the order in which a rollback removes them.
pub open spec fn removals(total: nat) -> Seq<int> {
    Seq::new(total, |k: int| next_removal(total, k as nat)->0)
}

/// A rollback under way: how many registrations it removes, and what removing those that it
/// has come to gave. Each answer stands for the registration that was next when it came.
#[derive(Debug)]
pub struct RollbackRun {
    count: usize,
    given: Vec<PluginRegistrationCleanupOutcome>,
}

impl RollbackRun {
    /// At most one answer stands for each registration.
    #[verifier::type_invariant]
    spec fn inv(self) -> bool {
        self.given@.len() <= self.count
    }

    /// How many registrations are removed.
    pub closed spec fn total(self) -> nat {
        self.count as nat
    }

    /// What removing registrations gave, the last registration first.
    pub closed spec fn answers(self) -> Seq<PluginRegistrationCleanupOutcome> {
        self.given@
    }

    /// Whether every registration was removed or tried.
    pub open spec fn done(self) -> bool {
        self.answers().len() == self.total()
    }

    /// Whether every callback is known to be gone.
    pub open spec fn gone(self) -> bool {
        self.done() && all_gone(self.answers())
    }

    /// A rollback that begins.
    pub fn begin(count: usize) -> (r: Self)
        ensures
            r.total() == count,
            r.answers() == Seq::<PluginRegistrationCleanupOutcome>::empty(),
    {
        RollbackRun { count, given: Vec::new() }
    }

    /// The position of the registration whose callback is to be removed next: the last one of
    /// those that are left. Nothing once each was removed or tried.
    pub fn next(&self) -> (r: Option<usize>)
        ensures
            self.answers().len() <= self.total(),
            match r {
                Some(i) => next_removal(self.total(), self.answers().len()) == Some(i as int),
                None => self.done(),
            },
    {
        proof {
            use_type_invariant(self);
        }
        if self.given.len() < self.count {
            Some(self.count - 1 - self.given.len())
        } else {
            None
        }
    }

    /// Takes what removing the next registration gave, and goes on whatever it is. Once every
    /// registration was tried, nothing more is taken.
    pub fn take(self, cleanup: PluginRegistrationCleanupOutcome) -> (r: Self)
        ensures
            r.total() == self.total(),
            r.answers() == (if self.done() {
                self.answers()
            } else {
                self.answers().push(cleanup)
            }),
    {
        proof {
            use_type_invariant(&self);
        }
        let RollbackRun { count, given } = self;
        let mut given = given;
        if given.len() < count {
            given.push(cleanup);
        }
        RollbackRun { count, given }
    }

    /// Whether every registration was removed or tried.
    pub fn is_done(&self) -> (r: bool)
        ensures
            r == self.done(),
    {
        self.given.len() == self.count
    }

    /// How many registrations are removed.
    pub fn count(&self) -> (r: usize)
        ensures
            r == self.total(),
    {
        self.count
    }

    /// Whether nothing went wrong so far.
    pub fn is_clean(&self) -> (r: bool)
        ensures
            r == all_removed(self.answers()),
    {
        let mut i: usize = 0;
        while i < self.given.len()
            invariant
                i <= self.given@.len(),
                forall|k: int| 0 <= k < i ==> (#[trigger] self.given@[k]) is Removed,
            decreases self.given.len() - i,
        {
            match &self.given[i] {
                PluginRegistrationCleanupOutcome::Removed => {},
                _ => {
                    assert(!(self.given@[i as int] is Removed));
                    return false;
                },
            }
            i += 1;
        }
        true
    }
}

/// Whether every callback was simply removed.
pub open spec fn all_removed(cleanups: Seq<PluginRegistrationCleanupOutcome>) -> bool {
    forall|i: int| 0 <= i < cleanups.len() ==> (#[trigger] cleanups[i]) is Removed
}

/// The error texts of a rollback so far, the last registration first.
pub open spec fn removal_errors(
    registrations: Seq<PluginRegistration>,
    removal: RollbackRun,
) -> Seq<Seq<char>> {
    rollback_errors(registrations, removal.answers(), removal.answers().len())
}

/// A rollback removes every registration exactly once, the last one first, whatever removing
/// any of them gives.
pub proof fn law_rollback_removes_each_once_last_first(total: nat)
    ensures
        removals(total).len() == total,
        removals(total).no_duplicates(),
        forall|i: int| 0 <= i < total ==> #[trigger] removals(total).contains(i),
        forall|k: int| 0 <= k < total ==> #[trigger] removals(total)[k] == total - 1 - k,
        next_removal(total, total) is None,
{
    let order = removals(total);
    assert forall|i: int| 0 <= i < total implies #[trigger] order.contains(i) by {
        assert(order[total - 1 - i] == i);
    }
}

/// Takes registrations to roll them back in reverse order, which the returned rollback leads
/// through. Whatever removing them gives, no registration is left to be removed again, and the
/// failures are ignored.
pub fn rollback_registrations(registrations: &mut Vec<PluginRegistration>) -> (r: RollbackRun)
    ensures
        final(registrations)@ == Seq::<PluginRegistration>::empty(),
        r.total() == old(registrations)@.len(),
        r.answers() == Seq::<PluginRegistrationCleanupOutcome>::empty(),
{
    let run = RollbackRun::begin(registrations.len());
    registrations.clear();
    run
}

/// What rolling back registrations in reverse order gave. No registration is left to be
/// removed again.
pub fn rollback_registrations_checked(
    registrations: &mut Vec<PluginRegistration>,
    removal: &RollbackRun,
) -> (r: PluginRollbackOutcome)
    requires
        removal.total() == old(registrations)@.len(),
    ensures
        final(registrations)@ == Seq::<PluginRegistration>::empty(),
        text::texts(r.errors@) == removal_errors(old(registrations)@, *removal),
        r.callbacks_cleared == removal.gone(),
{
    proof {
        use_type_invariant(removal);
    }
    let mut outcome = PluginRollbackOutcome::default();
    let ghost all = registrations@;
    let cleanups = &removal.given;
    let mut i: usize = 0;
    assert(text::texts(outcome.errors@) =~= Seq::empty());
    while i < cleanups.len()
        invariant
            i <= cleanups.len() <= all.len(),
            registrations@ == all.take(all.len() - i),
            text::texts(outcome.errors@) == rollback_errors(all, cleanups@, i as nat),
            outcome.callbacks_cleared == all_gone(cleanups@.take(i as int)),
        decreases cleanups.len() - i,
    {
        let ghost known = cleanups@.take(i as int);
        let ghost next = cleanups@.take(i + 1);
        match registrations.pop() {
            Some(registration) => {
                assert(registration == all[all.len() - (i + 1)]);
                outcome.record_cleanup(&registration, &cleanups[i]);
                assert(registrations@ =~= all.take(all.len() - (i + 1)));
                proof {
                    assert(next =~= known.push(cleanups@[i as int]));
                    if all_gone(next) {
                        assert forall|k: int| 0 <= k < known.len() implies callback_gone(
                            #[trigger] known[k],
                        ) by {
                            assert(callback_gone(next[k]));
                        }
                        assert(callback_gone(next[i as int]));
                    }
                }
            },
            None => {},
        }
        i += 1;
    }
    assert(cleanups@.take(cleanups@.len() as int) =~= cleanups@);
    if !removal.is_done() {
        outcome.callbacks_cleared = false;
    }
    registrations.clear();
    assert(registrations@ =~= Seq::empty());
    outcome
}

/// A rollback in which every callback was simply removed reports nothing.
pub proof fn law_clean_rollback_reports_nothing(
    registrations: Seq<PluginRegistration>,
    cleanups: Seq<PluginRegistrationCleanupOutcome>,
    n: nat,
)
    requires
        n <= cleanups.len() == registrations.len(),
        all_removed(cleanups),
    ensures
        rollback_errors(registrations, cleanups, n) == Seq::<Seq<char>>::empty(),
        all_gone(cleanups),
    decreases n,
{
    assert forall|i: int| 0 <= i < cleanups.len() implies callback_gone(#[trigger] cleanups[i]) by {
        assert(cleanups[i] is Removed);
    }
    if n > 0 {
        law_clean_rollback_reports_nothing(registrations, cleanups, (n - 1) as nat);
        assert(cleanups[n - 1] is Removed);
    }
}

/// A rollback that leaves a callback behind always says so.
pub proof fn law_incomplete_rollback_is_reported(
    registrations: Seq<PluginRegistration>,
    cleanups: Seq<PluginRegistrationCleanupOutcome>,
)
    requires
        cleanups.len() == registrations.len(),
        !all_gone(cleanups),
    ensures
        rollback_errors(registrations, cleanups, cleanups.len()).len() > 0,
{
    let i = choose|i: int| 0 <= i < cleanups.len() && !callback_gone(#[trigger] cleanups[i]);
    lemma_error_kept(registrations, cleanups, cleanups.len(), i);
}

/// A recorded error stays recorded.
proof fn lemma_error_kept(
    registrations: Seq<PluginRegistration>,
    cleanups: Seq<PluginRegistrationCleanupOutcome>,
    n: nat,
    i: int,
)
    requires
        0 <= i < n <= cleanups.len() == registrations.len(),
        !callback_gone(cleanups[i]),
    ensures
        rollback_errors(registrations, cleanups, n).len() > 0,
    decreases n,
{
    if i < n - 1 {
        lemma_error_kept(registrations, cleanups, (n - 1) as nat, i);
    }
}

/// Adds the errors of a rollback to those of an initialization.
pub fn record_rollback_failures(recorded: &mut Vec<String>, errors: Vec<String>)
    ensures
        final(recorded)@ == old(recorded)@ + errors@,
{
    let mut errors = errors;
    recorded.append(&mut errors);
}

/// Adds the errors of rolling back a partial setup to those of an initialization,
/// where a callback may be left behind.
pub fn record_pending_rollback(recorded: &mut Vec<String>, outcome: PluginRollbackOutcome)
    ensures
        final(recorded)@ == (if outcome.callbacks_cleared {
            old(recorded)@
        } else {
            old(recorded)@ + outcome.errors@
        }),
{
    if !outcome.callbacks_cleared {
        record_rollback_failures(recorded, outcome.errors);
    }
}

/// What each surface is called in errors, and which intercepts may leave out later ones.
pub proof fn law_surfaces_are_described()
    ensures
        RegistrationSurface::Subscriber.description() == "subscriber"@,
        RegistrationSurface::MarkSanitizeGuardrail.description() == "mark sanitizer"@,
        RegistrationSurface::ScopeSanitizeStartGuardrail.description() == "scope-start sanitizer"@,
        RegistrationSurface::ScopeSanitizeEndGuardrail.description() == "scope-end sanitizer"@,
        RegistrationSurface::ToolSanitizeRequestGuardrail.description()
            == "tool sanitize request guardrail"@,
        RegistrationSurface::ToolSanitizeResponseGuardrail.description()
            == "tool sanitize response guardrail"@,
        RegistrationSurface::ToolConditionalExecutionGuardrail.description()
            == "tool conditional execution guardrail"@,
        RegistrationSurface::ToolRequestIntercept.description() == "tool request intercept"@,
        RegistrationSurface::ToolExecutionIntercept.description() == "tool execution intercept"@,
        RegistrationSurface::LlmSanitizeRequestGuardrail.description()
            == "llm sanitize request guardrail"@,
        RegistrationSurface::LlmSanitizeResponseGuardrail.description()
            == "llm sanitize response guardrail"@,
        RegistrationSurface::LlmConditionalExecutionGuardrail.description()
            == "llm conditional execution guardrail"@,
        RegistrationSurface::LlmRequestIntercept.description() == "llm request intercept"@,
        RegistrationSurface::LlmExecutionIntercept.description() == "llm execution intercept"@,
        RegistrationSurface::LlmStreamExecutionIntercept.description()
            == "llm stream execution intercept"@,
        breaks_chains(RegistrationSurface::ToolRequestIntercept),
        breaks_chains(RegistrationSurface::LlmRequestIntercept),
        forall|surface: RegistrationSurface| #[trigger]
            breaks_chains(surface) ==> surface == RegistrationSurface::ToolRequestIntercept
                || surface == RegistrationSurface::LlmRequestIntercept,
{
}

/// A registration that the runtime took is remembered under the component's namespace, so that it
/// can be taken back; one that it refused leaves nothing behind and is told.
pub proof fn law_taken_registrations_are_remembered(
    before: PluginRegistrationContext,
    after: PluginRegistrationContext,
    surface: RegistrationSurface,
    name: Seq<char>,
    outcome: Result<(), String>,
    r: Result<(), PluginError>,
)
    requires
        recorded(before, after, surface, name, outcome, r),
    ensures
        r is Ok <==> outcome is Ok,
        after.namespace == before.namespace,
        outcome is Ok ==> after.registrations@.len() == before.registrations@.len() + 1
            && after.registrations@.last().kind@ == "plugin"@ && after.registrations@.last().name@
            == (match before.namespace {
            Some(namespace) => namespace@ + name,
            None => name,
        }),
        outcome matches Err(e) ==> after == before && r->Err_0@ == (
            PluginErrorKind::RegistrationFailed,
            surface.description() + ": "@ + e@,
        ),
{
    if outcome is Ok {
        let a = registration_views(after.registrations@);
        let b = registration_views(before.registrations@);
        assert(a.len() == b.len() + 1);
        assert(a[b.len() as int] == after.registrations@[b.len() as int]@);
    }
}

/// A callback is gone exactly where it was removed, whether its last delivery failed or not. What
/// went wrong is told with the registration.
pub proof fn law_removed_callbacks_are_gone(
    registration: RegistrationView,
    e: PluginError,
    message: String,
)
    ensures
        callback_gone(PluginRegistrationCleanupOutcome::Removed),
        callback_gone(PluginRegistrationCleanupOutcome::RemovedWithError(e)),
        !callback_gone(PluginRegistrationCleanupOutcome::NotRemoved(e)),
        !callback_gone(PluginRegistrationCleanupOutcome::Panicked(message)),
        cleanup_error(registration, PluginRegistrationCleanupOutcome::Removed) is None,
        cleanup_error(registration, PluginRegistrationCleanupOutcome::RemovedWithError(e)) == Some(
            registration.0 + " registration '"@ + registration.1
                + "' reported a delivery failure: "@ + error::error_text(e@),
        ),
        cleanup_error(registration, PluginRegistrationCleanupOutcome::NotRemoved(e)) == Some(
            registration.0 + " registration '"@ + registration.1 + "' could not be removed: "@
                + error::error_text(e@),
        ),
        cleanup_error(registration, PluginRegistrationCleanupOutcome::Panicked(message)) == Some(
            registration.0 + " registration '"@ + registration.1
                + "' could not be removed: deregistration panicked: "@ + message@,
        ),
{
}

/// A rollback goes from the last registration to the first, and stops when all are asked for. It is
/// clean where every callback was removed without an error, and callbacks are cleared where all of
/// them were asked for and none may still be there.
pub proof fn law_rollback_goes_backwards(
    total: nat,
    removed: nat,
    cleanups: Seq<PluginRegistrationCleanupOutcome>,
    removal: RollbackRun,
)
    ensures
        removed < total ==> next_removal(total, removed) == Some(total - removed - 1),
        removed >= total ==> next_removal(total, removed) is None,
        all_gone(cleanups) <==> (forall|i: int|
            0 <= i < cleanups.len() ==> (#[trigger] cleanups[i]) is Removed || cleanups[i]
                is RemovedWithError),
        all_removed(cleanups) <==> (forall|i: int|
            0 <= i < cleanups.len() ==> (#[trigger] cleanups[i]) is Removed),
        removal.gone() <==> removal.answers().len() == removal.total() && all_gone(
            removal.answers(),
        ),
{
    if forall|i: int|
        0 <= i < cleanups.len() ==> (#[trigger] cleanups[i]) is Removed || cleanups[i]
            is RemovedWithError {
        assert forall|i: int| 0 <= i < cleanups.len() implies callback_gone(
            #[trigger] cleanups[i],
        ) by {}
    }
}

/// Names are put behind the namespace; failures say what was registered or taken back.
pub proof fn law_registrations_are_named_and_told(
    prefix: String,
    name: Seq<char>,
    surface: RegistrationSurface,
    detail: Seq<char>,
)
    ensures
        qualified(Some(prefix), name) == prefix@ + name,
        qualified(None, name) == name,
        registration_error(surface, detail) == (
            PluginErrorKind::RegistrationFailed,
            surface.description() + ": "@ + detail,
        ),
        deregistration_error(surface, detail) == (
            PluginErrorKind::RegistrationFailed,
            surface.description() + " deregistration failed: "@ + detail,
        ),
{
}

} // verus!
