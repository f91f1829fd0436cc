//! Registration of a native plugin's callbacks.

use vstd::prelude::*;

use crate::error::error_text;
use crate::native::status::{
    first_report, plugin_error_status, quiet, status_from_plugin_error, told, CallReport,
    LastError, NemoRelayStatus,
};
use crate::native::strings::{name_argument, name_report, read_name, NativeString};
use crate::registrations::{
    breaks_chains, qualified, registration_error, registration_views, PluginRegistrationContext,
    RegistrationSurface,
};
use crate::relay_version::{consumer_problem, validate_annotated_request_consumer_compatibility};

verus! {

/// Where an asynchronous middleware callback belongs.
#[derive(Debug, Clone, Copy, PartialEq, Eq, Structural)]
pub enum NativeAsyncMiddlewareKind {
    /// Sanitizer of tool requests.
    ToolSanitizeRequest,
    /// Sanitizer of tool responses.
    ToolSanitizeResponse,
    /// Gate on tool execution.
    ToolConditionalExecution,
    /// Intercept of tool requests.
    ToolRequestIntercept,
    /// Intercept of tool execution.
    ToolExecutionIntercept,
    /// Sanitizer of LLM requests.
    LlmSanitizeRequest,
    /// Sanitizer of LLM responses.
    LlmSanitizeResponse,
    /// Gate on LLM execution.
    LlmConditionalExecution,
    /// Intercept of LLM requests.
    LlmRequestIntercept,
    /// Intercept of LLM execution.
    LlmExecutionIntercept,
    /// Intercept of streaming LLM execution.
    LlmStreamExecutionIntercept,
    /// Sanitizer of mark events.
    MarkSanitize,
    /// Sanitizer of scope-start events.
    ScopeSanitizeStart,
    /// Sanitizer of scope-end events.
    ScopeSanitizeEnd,
}

impl NativeAsyncMiddlewareKind {
    /// The surface that the callback is registered on.
    pub open spec fn surface_of(self) -> RegistrationSurface {
        match self {
            NativeAsyncMiddlewareKind::ToolSanitizeRequest => {
                RegistrationSurface::ToolSanitizeRequestGuardrail
            },
            NativeAsyncMiddlewareKind::ToolSanitizeResponse => {
                RegistrationSurface::ToolSanitizeResponseGuardrail
            },
            NativeAsyncMiddlewareKind::ToolConditionalExecution => {
                RegistrationSurface::ToolConditionalExecutionGuardrail
            },
            NativeAsyncMiddlewareKind::ToolRequestIntercept => {
                RegistrationSurface::ToolRequestIntercept
            },
            NativeAsyncMiddlewareKind::ToolExecutionIntercept => {
                RegistrationSurface::ToolExecutionIntercept
            },
            NativeAsyncMiddlewareKind::LlmSanitizeRequest => {
                RegistrationSurface::LlmSanitizeRequestGuardrail
            },
            NativeAsyncMiddlewareKind::LlmSanitizeResponse => {
                RegistrationSurface::LlmSanitizeResponseGuardrail
            },
            NativeAsyncMiddlewareKind::LlmConditionalExecution => {
                RegistrationSurface::LlmConditionalExecutionGuardrail
            },
            NativeAsyncMiddlewareKind::LlmRequestIntercept => {
                RegistrationSurface::LlmRequestIntercept
            },
            NativeAsyncMiddlewareKind::LlmExecutionIntercept => {
                RegistrationSurface::LlmExecutionIntercept
            },
            NativeAsyncMiddlewareKind::LlmStreamExecutionIntercept => {
                RegistrationSurface::LlmStreamExecutionIntercept
            },
            NativeAsyncMiddlewareKind::MarkSanitize => RegistrationSurface::MarkSanitizeGuardrail,
            NativeAsyncMiddlewareKind::ScopeSanitizeStart => {
                RegistrationSurface::ScopeSanitizeStartGuardrail
            },
            NativeAsyncMiddlewareKind::ScopeSanitizeEnd => {
                RegistrationSurface::ScopeSanitizeEndGuardrail
            },
        }
    }

    /// The surface that the callback is registered on.
    pub fn surface(&self) -> (r: RegistrationSurface)
        ensures
            r == self.surface_of(),
    {
        match self {
            NativeAsyncMiddlewareKind::ToolSanitizeRequest => {
                RegistrationSurface::ToolSanitizeRequestGuardrail
            },
            NativeAsyncMiddlewareKind::ToolSanitizeResponse => {
                RegistrationSurface::ToolSanitizeResponseGuardrail
            },
            NativeAsyncMiddlewareKind::ToolConditionalExecution => {
                RegistrationSurface::ToolConditionalExecutionGuardrail
            },
            NativeAsyncMiddlewareKind::ToolRequestIntercept => {
                RegistrationSurface::ToolRequestIntercept
            },
            NativeAsyncMiddlewareKind::ToolExecutionIntercept => {
                RegistrationSurface::ToolExecutionIntercept
            },
            NativeAsyncMiddlewareKind::LlmSanitizeRequest => {
                RegistrationSurface::LlmSanitizeRequestGuardrail
            },
            NativeAsyncMiddlewareKind::LlmSanitizeResponse => {
                RegistrationSurface::LlmSanitizeResponseGuardrail
            },
            NativeAsyncMiddlewareKind::LlmConditionalExecution => {
                RegistrationSurface::LlmConditionalExecutionGuardrail
            },
            NativeAsyncMiddlewareKind::LlmRequestIntercept => {
                RegistrationSurface::LlmRequestIntercept
            },
            NativeAsyncMiddlewareKind::LlmExecutionIntercept => {
                RegistrationSurface::LlmExecutionIntercept
            },
            NativeAsyncMiddlewareKind::LlmStreamExecutionIntercept => {
                RegistrationSurface::LlmStreamExecutionIntercept
            },
            NativeAsyncMiddlewareKind::MarkSanitize => RegistrationSurface::MarkSanitizeGuardrail,
            NativeAsyncMiddlewareKind::ScopeSanitizeStart => {
                RegistrationSurface::ScopeSanitizeStartGuardrail
            },
            NativeAsyncMiddlewareKind::ScopeSanitizeEnd => {
                RegistrationSurface::ScopeSanitizeEndGuardrail
            },
        }
    }
}

/// What a missing plugin context is reported as.
pub open spec fn context_report(context_is_null: bool, inner_is_null: bool) -> Option<CallReport> {
    if context_is_null {
        Some(told(NemoRelayStatus::NullPointer, "plugin context is null"@))
    } else if inner_is_null {
        Some(told(NemoRelayStatus::NullPointer, "plugin context inner pointer is null"@))
    } else {
        None
    }
}

/// Checks that a plugin passes a context, before anything is registered in it. The last
/// error is forgotten first.
pub fn check_host_context(
    last_error: &mut LastError,
    context_is_null: bool,
    inner_is_null: bool,
) -> (r: Result<(), NemoRelayStatus>)
    ensures
        match context_report(context_is_null, inner_is_null) {
            None => r is Ok && final(last_error)@ is None,
            Some(report) => r == Err::<(), NemoRelayStatus>(report.status) && final(last_error)@
                == report.message,
        },
{
    last_error.clear();
    if context_is_null {
        last_error.set_text("plugin context is null");
        return Err(NemoRelayStatus::NullPointer);
    }
    if inner_is_null {
        last_error.set_text("plugin context inner pointer is null");
        return Err(NemoRelayStatus::NullPointer);
    }
    Ok(())
}

/// What an LLM request intercept is refused with, by its plugin's Relay requirement.
pub open spec fn consumer_report(
    surface: RegistrationSurface,
    relay_compat: Seq<char>,
    plugin_kind: Seq<char>,
) -> Option<CallReport> {
    if surface == RegistrationSurface::LlmRequestIntercept {
        match consumer_problem(relay_compat, plugin_kind) {
            Some(e) => Some(told(plugin_error_status(e.0), error_text(e))),
            None => None,
        }
    } else {
        None
    }
}

/// What the runtime's answer to a callback is reported as.
pub open spec fn installed_report(surface: RegistrationSurface, outcome: Result<(), Seq<char>>) ->
    CallReport {
    match outcome {
        Ok(()) => quiet(NemoRelayStatus::Success),
        Err(e) => {
            let error = registration_error(surface, e);
            told(plugin_error_status(error.0), error_text(error))
        },
    }
}

/// Owes a plugin the release of the user data that came with a callback.
#[derive(Debug, PartialEq, Eq, Structural)]
pub struct UserDataGuard {
    /// Whether the release is still owed.
    pub armed: bool,
}

impl UserDataGuard {
    /// A release that is owed.
    pub fn new() -> (r: Self)
        ensures
            r.armed,
    {
        UserDataGuard { armed: true }
    }

    /// Hands the user data on: its new owner owes the release.
    pub fn transfer(&mut self)
        ensures
            !final(self).armed,
    {
        self.armed = false;
    }

    /// Lets the guard go, and says whether the user data is released with it.
    pub fn release(self) -> (r: bool)
        ensures
            r == self.armed,
    {
        self.armed
    }
}

/// How a registration call ended.
#[derive(Debug, Clone, Copy, PartialEq, Eq, Structural)]
pub struct RegistrationEnd {
    /// What the plugin is told.
    pub status: NemoRelayStatus,
    /// Whether the user data of the callback is released.
    pub released: bool,
}

/// Where a callback stands among those of its surface.
#[derive(Debug, Clone, Copy, PartialEq, Eq, Structural)]
pub struct CallbackOrder {
    /// Priority among the callbacks of the surface, where these are ordered.
    pub priority: Option<i32>,
    /// Whether later intercepts are left out, where the surface has them.
    pub break_chain: Option<bool>,
}

/// Where a callback stands that is registered with a priority: all surfaces but that of
/// subscribers are ordered, and the intercepts of requests may break their chain.
pub open spec fn callback_order(
    surface: RegistrationSurface,
    priority: i32,
    break_chain: bool,
) -> CallbackOrder {
    CallbackOrder {
        priority: if surface == RegistrationSurface::Subscriber {
            None
        } else {
            Some(priority)
        },
        break_chain: if breaks_chains(surface) {
            Some(break_chain)
        } else {
            None
        },
    }
}

/// Where a callback stands that is registered with a priority.
fn order_of(surface: RegistrationSurface, priority: i32, break_chain: bool) -> (r: CallbackOrder)
    ensures
        r == callback_order(surface, priority, break_chain),
{
    CallbackOrder {
        priority: if surface == RegistrationSurface::Subscriber {
            None
        } else {
            Some(priority)
        },
        break_chain: if surface == RegistrationSurface::ToolRequestIntercept || surface
            == RegistrationSurface::LlmRequestIntercept {
            Some(break_chain)
        } else {
            None
        },
    }
}

/// A callback that passed the checks of its registration: what the runtime is asked to take it
/// as, and the user data that goes with it.
#[derive(Debug)]
pub struct CheckedCallback {
    /// Surface to register it on.
    pub surface: RegistrationSurface,
    /// Name to register it under.
    pub name: String,
    /// Where it stands among the callbacks of the surface.
    pub order: CallbackOrder,
    /// Owes the release of its user data.
    pub data: UserDataGuard,
}

/// Whether checking a registration came to what it has to: the refusal, or the surface and name
/// that the runtime is asked for.
pub open spec fn planned_as(
    refusal: Option<CallReport>,
    surface: RegistrationSurface,
    name: Option<&NativeString>,
    r: Result<(RegistrationSurface, String), NemoRelayStatus>,
    message: Option<Seq<char>>,
) -> bool {
    match (refusal, r) {
        (Some(report), Err(status)) => status == report.status && message == report.message,
        (None, Ok(plan)) => plan.0 == surface && plan.1@ == name_argument(name)->Ok_0 && message
            is None,
        _ => false,
    }
}

/// What registering a callback that answers before it returns is refused with, before the
/// runtime is asked.
pub open spec fn callback_refusal(
    surface: RegistrationSurface,
    name: Option<&NativeString>,
    relay_compat: Seq<char>,
    plugin_kind: Seq<char>,
) -> Option<CallReport> {
    first_report(consumer_report(surface, relay_compat, plugin_kind), name_report(name))
}

/// Checks the registration of a callback that answers before it returns. An intercept of LLM
/// requests is refused for a plugin that may run on a release without annotated requests.
pub fn plan_native_callback(
    last_error: &mut LastError,
    surface: RegistrationSurface,
    name: Option<&NativeString>,
    relay_compat: &str,
    plugin_kind: &str,
) -> (r: Result<(RegistrationSurface, String), NemoRelayStatus>)
    ensures
        planned_as(
            callback_refusal(surface, name, relay_compat@, plugin_kind@),
            surface,
            name,
            r,
            final(last_error)@,
        ),
{
    last_error.clear();
    if surface == RegistrationSurface::LlmRequestIntercept {
        if let Err(e) = validate_annotated_request_consumer_compatibility(
            relay_compat,
            plugin_kind,
        ) {
            return Err(status_from_plugin_error(last_error, e));
        }
    }
    match read_name(last_error, name) {
        Err(status) => Err(status),
        Ok(text) => Ok((surface, text)),
    }
}

/// What registering an asynchronous callback is refused with, before the runtime is asked;
/// `kind` is nothing for a number that stands for none.
pub open spec fn async_refusal(
    kind: Option<NativeAsyncMiddlewareKind>,
    name: Option<&NativeString>,
    relay_compat: Seq<char>,
    plugin_kind: Seq<char>,
) -> Option<CallReport> {
    match name_report(name) {
        Some(report) => Some(report),
        None => match kind {
            None => Some(
                told(NemoRelayStatus::InvalidArg, "invalid native async middleware kind"@),
            ),
            Some(NativeAsyncMiddlewareKind::LlmStreamExecutionIntercept) => Some(
                told(
                    NemoRelayStatus::InvalidArg,
                    "completion-based LLM stream middleware is unsupported; use plugin_context_register_async_stream_middleware"@,
                ),
            ),
            Some(k) => consumer_report(k.surface_of(), relay_compat, plugin_kind),
        },
    }
}

/// The surface of an asynchronous callback.
pub open spec fn async_surface(kind: Option<NativeAsyncMiddlewareKind>) -> RegistrationSurface {
    match kind {
        Some(k) => k.surface_of(),
        None => RegistrationSurface::Subscriber,
    }
}

/// Checks the registration of an asynchronous callback. A stream intercept is refused here, as
/// a completion cannot hold its chunks.
pub fn plan_async_middleware(
    last_error: &mut LastError,
    kind: Option<NativeAsyncMiddlewareKind>,
    name: Option<&NativeString>,
    relay_compat: &str,
    plugin_kind: &str,
) -> (r: Result<(RegistrationSurface, String), NemoRelayStatus>)
    ensures
        planned_as(
            async_refusal(kind, name, relay_compat@, plugin_kind@),
            async_surface(kind),
            name,
            r,
            final(last_error)@,
        ),
{
    last_error.clear();
    let text = match read_name(last_error, name) {
        Err(status) => {
            return Err(status);
        },
        Ok(text) => text,
    };
    let kind = match kind {
        None => {
            last_error.set_text("invalid native async middleware kind");
            return Err(NemoRelayStatus::InvalidArg);
        },
        Some(kind) => kind,
    };
    if kind == NativeAsyncMiddlewareKind::LlmStreamExecutionIntercept {
        last_error.set_text(
            "completion-based LLM stream middleware is unsupported; use plugin_context_register_async_stream_middleware",
        );
        return Err(NemoRelayStatus::InvalidArg);
    }
    if kind == NativeAsyncMiddlewareKind::LlmRequestIntercept {
        if let Err(e) = validate_annotated_request_consumer_compatibility(
            relay_compat,
            plugin_kind,
        ) {
            return Err(status_from_plugin_error(last_error, e));
        }
    }
    Ok((kind.surface(), text))
}

/// Checks the registration of an asynchronous callback that fills a stream.
pub fn plan_async_stream_middleware(last_error: &mut LastError, name: Option<&NativeString>) -> (r:
    Result<(RegistrationSurface, String), NemoRelayStatus>)
    ensures
        planned_as(
            name_report(name),
            RegistrationSurface::LlmStreamExecutionIntercept,
            name,
            r,
            final(last_error)@,
        ),
{
    last_error.clear();
    match read_name(last_error, name) {
        Err(status) => Err(status),
        Ok(text) => Ok((RegistrationSurface::LlmStreamExecutionIntercept, text)),
    }
}

/// Whether the first part of a registration call came to what it has to. Where it is refused,
/// the call is over, and the user data is released where the host owned it from the start.
/// Where it is not, the runtime is asked to take the callback, which now owes the release.
pub open spec fn begins_as(
    refusal: Option<CallReport>,
    owned: bool,
    surface: RegistrationSurface,
    name: Option<&NativeString>,
    order: CallbackOrder,
    r: Result<CheckedCallback, RegistrationEnd>,
    message: Option<Seq<char>>,
) -> bool {
    match (refusal, r) {
        (Some(report), Err(end)) => end.status == report.status && end.released == owned && message
            == report.message,
        (None, Ok(callback)) => callback.surface == surface && callback.name@ == name_argument(
            name,
        )->Ok_0 && callback.order == order && callback.data.armed && message is None,
        _ => false,
    }
}

/// Ends the first part of a registration call in which the host owns the user data from the
/// start.
fn begun(
    guard: UserDataGuard,
    plan: Result<(RegistrationSurface, String), NemoRelayStatus>,
    priority: i32,
    break_chain: bool,
) -> (r: Result<CheckedCallback, RegistrationEnd>)
    requires
        guard.armed,
    ensures
        match (plan, r) {
            (Err(status), Err(end)) => end == (RegistrationEnd { status, released: true }),
            (Ok(plan), Ok(callback)) => callback.surface == plan.0 && callback.name == plan.1
                && callback.order == callback_order(plan.0, priority, break_chain)
                && callback.data.armed,
            _ => false,
        },
{
    let mut guard = guard;
    match plan {
        Err(status) => Err(RegistrationEnd { status, released: guard.release() }),
        Ok((surface, name)) => {
            guard.transfer();
            let order = order_of(surface, priority, break_chain);
            Ok(CheckedCallback { surface, name, order, data: UserDataGuard::new() })
        },
    }
}

/// Begins the registration of a callback that answers before it returns. Until the checks have
/// passed, the user data stays with the plugin.
pub fn begin_native_callback(
    last_error: &mut LastError,
    context_is_null: bool,
    inner_is_null: bool,
    surface: RegistrationSurface,
    name: Option<&NativeString>,
    priority: i32,
    break_chain: bool,
    relay_compat: &str,
    plugin_kind: &str,
) -> (r: Result<CheckedCallback, RegistrationEnd>)
    ensures
        begins_as(
            first_report(
                context_report(context_is_null, inner_is_null),
                callback_refusal(surface, name, relay_compat@, plugin_kind@),
            ),
            false,
            surface,
            name,
            callback_order(surface, priority, break_chain),
            r,
            final(last_error)@,
        ),
{
    if let Err(status) = check_host_context(last_error, context_is_null, inner_is_null) {
        return Err(RegistrationEnd { status, released: false });
    }
    match plan_native_callback(last_error, surface, name, relay_compat, plugin_kind) {
        Err(status) => Err(RegistrationEnd { status, released: false }),
        Ok((surface, name)) => {
            let order = order_of(surface, priority, break_chain);
            Ok(CheckedCallback { surface, name, order, data: UserDataGuard::new() })
        },
    }
}

/// Begins the registration of an asynchronous callback. The host owns the user data as soon as
/// the registration is attempted, whatever is wrong with it.
pub fn begin_async_middleware(
    last_error: &mut LastError,
    context_is_null: bool,
    inner_is_null: bool,
    kind: Option<NativeAsyncMiddlewareKind>,
    name: Option<&NativeString>,
    priority: i32,
    break_chain: bool,
    relay_compat: &str,
    plugin_kind: &str,
) -> (r: Result<CheckedCallback, RegistrationEnd>)
    ensures
        begins_as(
            first_report(
                context_report(context_is_null, inner_is_null),
                async_refusal(kind, name, relay_compat@, plugin_kind@),
            ),
            true,
            async_surface(kind),
            name,
            callback_order(async_surface(kind), priority, break_chain),
            r,
            final(last_error)@,
        ),
{
    let guard = UserDataGuard::new();
    let plan = match check_host_context(last_error, context_is_null, inner_is_null) {
        Err(status) => Err(status),
        Ok(()) => plan_async_middleware(last_error, kind, name, relay_compat, plugin_kind),
    };
    begun(guard, plan, priority, break_chain)
}

/// Begins the registration of an asynchronous callback that fills a stream. The host owns the
/// user data as soon as the registration is attempted, whatever is wrong with it.
pub fn begin_async_stream_middleware(
    last_error: &mut LastError,
    context_is_null: bool,
    inner_is_null: bool,
    name: Option<&NativeString>,
    priority: i32,
) -> (r: Result<CheckedCallback, RegistrationEnd>)
    ensures
        begins_as(
            first_report(context_report(context_is_null, inner_is_null), name_report(name)),
            true,
            RegistrationSurface::LlmStreamExecutionIntercept,
            name,
            callback_order(RegistrationSurface::LlmStreamExecutionIntercept, priority, false),
            r,
            final(last_error)@,
        ),
{
    let guard = UserDataGuard::new();
    let plan = match check_host_context(last_error, context_is_null, inner_is_null) {
        Err(status) => Err(status),
        Ok(()) => plan_async_stream_middleware(last_error, name),
    };
    begun(guard, plan, priority, false)
}

/// Whether the runtime's answer to a callback was taken as it has to be: the callback is
/// recorded where the runtime took it, and let go with its user data otherwise.
pub open spec fn ends_as(
    callback: CheckedCallback,
    outcome: Result<(), Seq<char>>,
    end: RegistrationEnd,
    before: PluginRegistrationContext,
    after: PluginRegistrationContext,
    message: Option<Seq<char>>,
) -> bool {
    let report = installed_report(callback.surface, outcome);
    &&& end.status == report.status
    &&& message == report.message
    &&& end.released == (end.status != NemoRelayStatus::Success && callback.data.armed)
    &&& if end.status == NemoRelayStatus::Success {
        &&& after.namespace == before.namespace
        &&& registration_views(after.registrations@) == registration_views(
            before.registrations@,
        ).push(("plugin"@, qualified(before.namespace, callback.name@)))
    } else {
        after == before
    }
}

/// Ends the registration of a callback that passed the checks; `outcome` is what the runtime
/// said to it. A callback that the runtime refused is let go, and its user data with it.
pub fn register_native_callback(
    context: &mut PluginRegistrationContext,
    last_error: &mut LastError,
    callback: CheckedCallback,
    outcome: Result<(), String>,
) -> (r: RegistrationEnd)
    ensures
        ends_as(
            callback,
            match outcome {
                Ok(()) => Ok(()),
                Err(e) => Err(e@),
            },
            r,
            *old(context),
            *final(context),
            final(last_error)@,
        ),
{
    last_error.clear();
    let CheckedCallback { surface, name, order: _, data } = callback;
    match context.record(surface, name.as_str(), outcome) {
        Ok(()) => RegistrationEnd { status: NemoRelayStatus::Success, released: false },
        Err(e) => {
            let status = status_from_plugin_error(last_error, e);
            RegistrationEnd { status, released: data.release() }
        },
    }
}

/// A plugin that may run on a release without annotated requests registers no intercept of
/// LLM requests, synchronous or not, and says so.
pub proof fn law_old_plugins_do_not_intercept_requests(
    name: Option<&NativeString>,
    relay_compat: Seq<char>,
    plugin_kind: Seq<char>,
)
    requires
        consumer_problem(relay_compat, plugin_kind) is Some,
    ensures
        callback_refusal(
            RegistrationSurface::LlmRequestIntercept,
            name,
            relay_compat,
            plugin_kind,
        ) matches Some(report) && report.status != NemoRelayStatus::Success,
        async_refusal(
            Some(NativeAsyncMiddlewareKind::LlmRequestIntercept),
            name,
            relay_compat,
            plugin_kind,
        ) matches Some(report) && report.status != NemoRelayStatus::Success,
{
}

/// The user data of an asynchronous callback is released exactly once where its registration is
/// refused, by a check or by the runtime, and stays with the callback where it succeeds. The
/// context gains one registration where it succeeds, and the runtime is asked only after the
/// checks, which no missing context passes.
pub proof fn law_user_data_is_released_on_refusal(
    context_is_null: bool,
    inner_is_null: bool,
    kind: Option<NativeAsyncMiddlewareKind>,
    name: Option<&NativeString>,
    relay_compat: Seq<char>,
    plugin_kind: Seq<char>,
    order: CallbackOrder,
    begun: Result<CheckedCallback, RegistrationEnd>,
    checked: Option<Seq<char>>,
    outcome: Result<(), Seq<char>>,
    end: RegistrationEnd,
    before: PluginRegistrationContext,
    after: PluginRegistrationContext,
    message: Option<Seq<char>>,
)
    requires
        begins_as(
            first_report(
                context_report(context_is_null, inner_is_null),
                async_refusal(kind, name, relay_compat, plugin_kind),
            ),
            true,
            async_surface(kind),
            name,
            order,
            begun,
            checked,
        ),
    ensures
        context_is_null ==> (begun matches Err(refused) && refused.status
            == NemoRelayStatus::NullPointer && checked == Some("plugin context is null"@)),
        begun matches Err(refused) ==> refused.status != NemoRelayStatus::Success
            && refused.released,
        begun matches Ok(callback) ==> {
            &&& callback.data.armed
            &&& ends_as(callback, outcome, end, before, after, message) ==> {
                &&& end.released <==> end.status != NemoRelayStatus::Success
                &&& end.status == NemoRelayStatus::Success ==> registration_views(
                    after.registrations@,
                ).len() == registration_views(before.registrations@).len() + 1
                &&& end.status != NemoRelayStatus::Success ==> after == before
            }
        },
{
}

/// The user data of an asynchronous callback that fills a stream is released exactly once where
/// its registration is refused, by a check or by the runtime, and stays with the callback where
/// it succeeds.
pub proof fn law_stream_user_data_is_released_on_refusal(
    context_is_null: bool,
    inner_is_null: bool,
    name: Option<&NativeString>,
    order: CallbackOrder,
    begun: Result<CheckedCallback, RegistrationEnd>,
    checked: Option<Seq<char>>,
    outcome: Result<(), Seq<char>>,
    end: RegistrationEnd,
    before: PluginRegistrationContext,
    after: PluginRegistrationContext,
    message: Option<Seq<char>>,
)
    requires
        begins_as(
            first_report(context_report(context_is_null, inner_is_null), name_report(name)),
            true,
            RegistrationSurface::LlmStreamExecutionIntercept,
            name,
            order,
            begun,
            checked,
        ),
    ensures
        begun matches Err(refused) ==> refused.status != NemoRelayStatus::Success
            && refused.released,
        begun matches Ok(callback) ==> callback.data.armed && (ends_as(
            callback,
            outcome,
            end,
            before,
            after,
            message,
        ) ==> (end.released <==> end.status != NemoRelayStatus::Success)),
{
}

/// Which surface each kind of asynchronous middleware belongs to.
pub proof fn law_middleware_kinds_have_surfaces()
    ensures
        NativeAsyncMiddlewareKind::ToolSanitizeRequest.surface_of()
            == RegistrationSurface::ToolSanitizeRequestGuardrail,
        NativeAsyncMiddlewareKind::ToolSanitizeResponse.surface_of()
            == RegistrationSurface::ToolSanitizeResponseGuardrail,
        NativeAsyncMiddlewareKind::ToolConditionalExecution.surface_of()
            == RegistrationSurface::ToolConditionalExecutionGuardrail,
        NativeAsyncMiddlewareKind::ToolRequestIntercept.surface_of()
            == RegistrationSurface::ToolRequestIntercept,
        NativeAsyncMiddlewareKind::ToolExecutionIntercept.surface_of()
            == RegistrationSurface::ToolExecutionIntercept,
        NativeAsyncMiddlewareKind::LlmSanitizeRequest.surface_of()
            == RegistrationSurface::LlmSanitizeRequestGuardrail,
        NativeAsyncMiddlewareKind::LlmSanitizeResponse.surface_of()
            == RegistrationSurface::LlmSanitizeResponseGuardrail,
        NativeAsyncMiddlewareKind::LlmConditionalExecution.surface_of()
            == RegistrationSurface::LlmConditionalExecutionGuardrail,
        NativeAsyncMiddlewareKind::LlmRequestIntercept.surface_of()
            == RegistrationSurface::LlmRequestIntercept,
        NativeAsyncMiddlewareKind::LlmExecutionIntercept.surface_of()
            == RegistrationSurface::LlmExecutionIntercept,
        NativeAsyncMiddlewareKind::LlmStreamExecutionIntercept.surface_of()
            == RegistrationSurface::LlmStreamExecutionIntercept,
        NativeAsyncMiddlewareKind::MarkSanitize.surface_of()
            == RegistrationSurface::MarkSanitizeGuardrail,
        NativeAsyncMiddlewareKind::ScopeSanitizeStart.surface_of()
            == RegistrationSurface::ScopeSanitizeStartGuardrail,
        NativeAsyncMiddlewareKind::ScopeSanitizeEnd.surface_of()
            == RegistrationSurface::ScopeSanitizeEndGuardrail,
        forall|kind: NativeAsyncMiddlewareKind| #[trigger]
            async_surface(Some(kind)) == kind.surface_of(),
{
}

/// A callback stands among those of its surface by the priority that it was registered with, unless
/// it is a subscriber; only intercepts of requests may break their chain.
pub proof fn law_callbacks_are_ordered_as_asked(
    surface: RegistrationSurface,
    priority: i32,
    break_chain: bool,
)
    ensures
        callback_order(RegistrationSurface::Subscriber, priority, break_chain).priority is None,
        surface != RegistrationSurface::Subscriber ==> callback_order(
            surface,
            priority,
            break_chain,
        ).priority == Some(priority),
        callback_order(RegistrationSurface::ToolRequestIntercept, priority, break_chain).break_chain
            == Some(break_chain),
        callback_order(RegistrationSurface::LlmRequestIntercept, priority, break_chain).break_chain
            == Some(break_chain),
        surface != RegistrationSurface::ToolRequestIntercept && surface
            != RegistrationSurface::LlmRequestIntercept ==> callback_order(
            surface,
            priority,
            break_chain,
        ).break_chain is None,
{
}

/// A registration is refused without a context, where its name cannot be read, and where it
/// intercepts LLM requests for a plugin that may not; an asynchronous one also without a known kind
/// or with that of streams.
pub proof fn law_registrations_are_refused(
    surface: RegistrationSurface,
    kind: Option<NativeAsyncMiddlewareKind>,
    name: Option<&NativeString>,
    relay_compat: Seq<char>,
    plugin_kind: Seq<char>,
    context_is_null: bool,
    inner_is_null: bool,
)
    ensures
        context_report(context_is_null, inner_is_null) is None <==> !context_is_null
            && !inner_is_null,
        context_report(context_is_null, inner_is_null) matches Some(report) ==> report.status
            == NemoRelayStatus::NullPointer,
        consumer_report(surface, relay_compat, plugin_kind) is None <==> surface
            != RegistrationSurface::LlmRequestIntercept || consumer_problem(
            relay_compat,
            plugin_kind,
        ) is None,
        callback_refusal(surface, name, relay_compat, plugin_kind) is None <==> consumer_report(
            surface,
            relay_compat,
            plugin_kind,
        ) is None && name_report(name) is None,
        async_refusal(kind, name, relay_compat, plugin_kind) is None <==> name_report(name) is None
            && kind is Some && kind
            != Some(NativeAsyncMiddlewareKind::LlmStreamExecutionIntercept) && consumer_report(
            kind->0.surface_of(),
            relay_compat,
            plugin_kind,
        ) is None,
        name_report(name) is None && kind is None ==> async_refusal(
            kind,
            name,
            relay_compat,
            plugin_kind,
        ) == Some(told(NemoRelayStatus::InvalidArg, "invalid native async middleware kind"@)),
{
}

/// A callback that was accepted is registered under the name and on the surface that were asked for;
/// one that the runtime took is remembered and keeps its user data, and one that it refused leaves
/// nothing behind.
pub proof fn law_accepted_callbacks_are_registered(
    surface: RegistrationSurface,
    name: Option<&NativeString>,
    order: CallbackOrder,
    owned: bool,
    begun: Result<CheckedCallback, RegistrationEnd>,
    message: Option<Seq<char>>,
    callback: CheckedCallback,
    outcome: Result<(), Seq<char>>,
    end: RegistrationEnd,
    before: PluginRegistrationContext,
    after: PluginRegistrationContext,
)
    ensures
        begins_as(None, owned, surface, name, order, begun, message) ==> begun is Ok
            && begun->Ok_0.surface == surface && begun->Ok_0.order == order
            && begun->Ok_0.data.armed && begun->Ok_0.name@ == name_argument(name)->Ok_0,
        outcome is Ok && ends_as(callback, outcome, end, before, after, message) ==> end.status
            == NemoRelayStatus::Success && !end.released && after.registrations@.len()
            == before.registrations@.len() + 1 && after.registrations@.last().name@ == (
        match before.namespace {
            Some(namespace) => namespace@ + callback.name@,
            None => callback.name@,
        }),
        outcome is Err && ends_as(callback, outcome, end, before, after, message) ==> end.status
            == NemoRelayStatus::Internal && after == before && end.released == callback.data.armed
            && message == Some(
            "registration failed: "@ + (callback.surface.description() + ": "@ + outcome->Err_0),
        ),
{
    if outcome is Ok && ends_as(callback, outcome, end, before, after, message) {
        let a = registration_views(after.registrations@);
        let b = registration_views(before.registrations@);
        assert(a.len() == b.len() + 1);
        assert(a[b.len() as int] == after.registrations@[b.len() as int]@);
    }
}

/// What is told where a registration is refused.
pub proof fn law_refused_registrations_are_told(
    name: Option<&NativeString>,
    relay_compat: Seq<char>,
    plugin_kind: Seq<char>,
    inner_is_null: bool,
)
    requires
        name_report(name) is None,
    ensures
        context_report(true, inner_is_null) == Some(
            told(NemoRelayStatus::NullPointer, "plugin context is null"@),
        ),
        context_report(false, true) == Some(
            told(NemoRelayStatus::NullPointer, "plugin context inner pointer is null"@),
        ),
        async_refusal(
            Some(NativeAsyncMiddlewareKind::LlmStreamExecutionIntercept),
            name,
            relay_compat,
            plugin_kind,
        ) == Some(
            told(
                NemoRelayStatus::InvalidArg,
                "completion-based LLM stream middleware is unsupported; use plugin_context_register_async_stream_middleware"@,
            ),
        ),
{
}

/// A registration is planned on the asked surface and under the asked name, or refused as told.
pub proof fn law_registrations_are_planned_as_asked(
    surface: RegistrationSurface,
    name: Option<&NativeString>,
    report: CallReport,
    r: Result<(RegistrationSurface, String), NemoRelayStatus>,
    message: Option<Seq<char>>,
    e: Seq<char>,
)
    ensures
        planned_as(None, surface, name, r, message) <==> r is Ok && (r->Ok_0).0 == surface && (
        r->Ok_0).1@ == name_argument(name)->Ok_0 && message is None,
        planned_as(Some(report), surface, name, r, message) <==> r == Err::<
            (RegistrationSurface, String),
            NemoRelayStatus,
        >(report.status) && message == report.message,
        installed_report(surface, Ok(())) == quiet(NemoRelayStatus::Success),
        installed_report(surface, Err(e)) == told(
            NemoRelayStatus::Internal,
            "registration failed: "@ + (surface.description() + ": "@ + e),
        ),
{
}

} // verus!
