//! Status codes, runtime errors and the last error message.

use vstd::prelude::*;

use crate::error::{error_text, PluginError, PluginErrorKind};
use crate::text::{concat3, opt_text};

verus! {

/// What a host function or a plugin callback reports.
#[derive(Debug, Clone, Copy, PartialEq, Eq, Structural)]
pub enum NemoRelayStatus {
    /// The call succeeded.
    Success,
    /// What was to be created exists already.
    AlreadyExists,
    /// What was asked for does not exist.
    NotFound,
    /// An argument was not accepted.
    InvalidArg,
    /// A text was no JSON.
    InvalidJson,
    /// A text was not UTF-8.
    InvalidUtf8,
    /// A required pointer was null.
    NullPointer,
    /// There is no scope to work on.
    ScopeStackEmpty,
    /// A guardrail rejected the call.
    GuardrailRejected,
    /// A stream has no further chunk.
    StreamEnd,
    /// A stream cannot take a further chunk yet.
    Backpressured,
    /// Something failed inside the host or the plugin.
    Internal,
}

impl NemoRelayStatus {
    /// The name that the status is shown as.
    pub open spec fn name(self) -> Seq<char> {
        match self {
            NemoRelayStatus::Success => "Ok"@,
            NemoRelayStatus::AlreadyExists => "AlreadyExists"@,
            NemoRelayStatus::NotFound => "NotFound"@,
            NemoRelayStatus::InvalidArg => "InvalidArg"@,
            NemoRelayStatus::InvalidJson => "InvalidJson"@,
            NemoRelayStatus::InvalidUtf8 => "InvalidUtf8"@,
            NemoRelayStatus::NullPointer => "NullPointer"@,
            NemoRelayStatus::ScopeStackEmpty => "ScopeStackEmpty"@,
            NemoRelayStatus::GuardrailRejected => "GuardrailRejected"@,
            NemoRelayStatus::StreamEnd => "StreamEnd"@,
            NemoRelayStatus::Backpressured => "Backpressured"@,
            NemoRelayStatus::Internal => "Internal"@,
        }
    }

    /// The name that the status is shown as.
    pub fn as_str(&self) -> (r: &'static str)
        ensures
            r@ == self.name(),
    {
        match self {
            NemoRelayStatus::Success => "Ok",
            NemoRelayStatus::AlreadyExists => "AlreadyExists",
            NemoRelayStatus::NotFound => "NotFound",
            NemoRelayStatus::InvalidArg => "InvalidArg",
            NemoRelayStatus::InvalidJson => "InvalidJson",
            NemoRelayStatus::InvalidUtf8 => "InvalidUtf8",
            NemoRelayStatus::NullPointer => "NullPointer",
            NemoRelayStatus::ScopeStackEmpty => "ScopeStackEmpty",
            NemoRelayStatus::GuardrailRejected => "GuardrailRejected",
            NemoRelayStatus::StreamEnd => "StreamEnd",
            NemoRelayStatus::Backpressured => "Backpressured",
            NemoRelayStatus::Internal => "Internal",
        }
    }
}

/// What a runtime operation failed at.
#[derive(Debug, Clone, Copy, PartialEq, Eq, Structural)]
pub enum FlowErrorKind {
    /// What was to be created exists already.
    AlreadyExists,
    /// What was asked for does not exist.
    NotFound,
    /// An argument was not accepted.
    InvalidArgument,
    /// There is no scope to work on.
    ScopeStackEmpty,
    /// A guardrail rejected the call.
    GuardrailRejected,
    /// The provider behind the call failed.
    Upstream,
    /// Something failed inside the runtime.
    Internal,
    /// A callback of the application failed.
    CallbackException,
}

/// Error of a runtime operation: its kind, and its detail text where it has one.
#[derive(Debug)]
pub struct FlowError {
    /// What the operation failed at.
    pub kind: FlowErrorKind,
    /// Detail text, which is empty for an empty scope stack.
    pub message: String,
}

/// The kind of a runtime error with its detail text.
pub type FlowErrorView = (FlowErrorKind, Seq<char>);

impl View for FlowError {
    type V = FlowErrorView;

    open spec fn view(&self) -> FlowErrorView {
        (self.kind, self.message@)
    }
}

impl FlowError {
    /// An internal error.
    pub fn internal(message: String) -> (r: Self)
        ensures
            r@ == (FlowErrorKind::Internal, message@),
    {
        FlowError { kind: FlowErrorKind::Internal, message }
    }
}

/// The view of an internal runtime error.
pub open spec fn internal(message: Seq<char>) -> Option<FlowErrorView> {
    Some((FlowErrorKind::Internal, message))
}

/// The error of a runtime result, where it is one.
pub open spec fn flow_failure<T>(result: Result<T, FlowError>) -> Option<FlowErrorView> {
    match result {
        Ok(_) => None,
        Err(e) => Some(e@),
    }
}

/// The message that a host keeps for the last failed call of a thread.
#[derive(Debug)]
pub struct LastError {
    /// The message, where there is one.
    pub message: Option<String>,
}

impl View for LastError {
    type V = Option<Seq<char>>;

    open spec fn view(&self) -> Option<Seq<char>> {
        opt_text(self.message)
    }
}

impl LastError {
    /// No message.
    pub fn new() -> (r: Self)
        ensures
            r@ is None,
    {
        LastError { message: None }
    }

    /// Keeps a message.
    pub fn set(&mut self, message: String)
        ensures
            final(self)@ == Some(message@),
    {
        self.message = Some(message);
    }

    /// Keeps a fixed message.
    pub fn set_text(&mut self, message: &str)
        ensures
            final(self)@ == Some(message@),
    {
        self.message = Some(message.to_owned());
    }

    /// Forgets the message.
    pub fn clear(&mut self)
        ensures
            final(self)@ is None,
    {
        self.message = None;
    }

    /// The message, or another one where there is none.
    pub fn message_or(&self, fallback: &str) -> (r: String)
        ensures
            r@ == message_or(self@, fallback@),
    {
        match &self.message {
            Some(message) => message.clone(),
            None => fallback.to_owned(),
        }
    }
}

/// What a call of a plugin reports: a status, and the last error message where
/// the call sets one.
pub ghost struct CallReport {
    /// The status.
    pub status: NemoRelayStatus,
    /// The message that the call sets.
    pub message: Option<Seq<char>>,
}

/// A report without a message.
pub open spec fn quiet(status: NemoRelayStatus) -> CallReport {
    CallReport { status, message: None }
}

/// A report with a message.
pub open spec fn told(status: NemoRelayStatus, message: Seq<char>) -> CallReport {
    CallReport { status, message: Some(message) }
}

/// Whether the last error is what a report leaves.
pub open spec fn leaves(report: CallReport, before: LastError, after: LastError) -> bool {
    match report.message {
        Some(m) => after@ == Some(m),
        None => after == before,
    }
}

/// The first of two reports.
pub open spec fn first_report(a: Option<CallReport>, b: Option<CallReport>) -> Option<CallReport> {
    match a {
        Some(report) => Some(report),
        None => b,
    }
}

/// A message, or another one where there is none.
pub open spec fn message_or(message: Option<Seq<char>>, fallback: Seq<char>) -> Seq<char> {
    match message {
        Some(m) => m,
        None => fallback,
    }
}

/// The runtime error that a failed callback stands for. A callback that set a
/// message gives it; any other is described by a given text and its status.
pub open spec fn status_error(
    status: NemoRelayStatus,
    message: Option<Seq<char>>,
    fallback: Seq<char>,
) -> FlowErrorView {
    let message = message_or(message, fallback + ": "@ + status.name());
    match status {
        NemoRelayStatus::AlreadyExists => (FlowErrorKind::AlreadyExists, message),
        NemoRelayStatus::NotFound => (FlowErrorKind::NotFound, message),
        NemoRelayStatus::ScopeStackEmpty => (FlowErrorKind::ScopeStackEmpty, ""@),
        NemoRelayStatus::GuardrailRejected => (FlowErrorKind::GuardrailRejected, message),
        NemoRelayStatus::InvalidArg => (FlowErrorKind::InvalidArgument, message),
        _ => (FlowErrorKind::Internal, message),
    }
}

/// The runtime error that a failed callback stands for.
pub fn flow_error_from_status(
    status: NemoRelayStatus,
    last_error: &LastError,
    fallback: &str,
) -> (r: FlowError)
    ensures
        r@ == status_error(status, last_error@, fallback@),
{
    let described = concat3(fallback, ": ", status.as_str());
    let message = last_error.message_or(described.as_str());
    match status {
        NemoRelayStatus::AlreadyExists => FlowError {
            kind: FlowErrorKind::AlreadyExists,
            message,
        },
        NemoRelayStatus::NotFound => FlowError { kind: FlowErrorKind::NotFound, message },
        NemoRelayStatus::ScopeStackEmpty => FlowError {
            kind: FlowErrorKind::ScopeStackEmpty,
            message: "".to_owned(),
        },
        NemoRelayStatus::GuardrailRejected => FlowError {
            kind: FlowErrorKind::GuardrailRejected,
            message,
        },
        NemoRelayStatus::InvalidArg => FlowError { kind: FlowErrorKind::InvalidArgument, message },
        _ => FlowError { kind: FlowErrorKind::Internal, message },
    }
}

/// The status that a kind of plugin error is reported as.
pub open spec fn plugin_error_status(kind: PluginErrorKind) -> NemoRelayStatus {
    match kind {
        PluginErrorKind::NotFound => NemoRelayStatus::NotFound,
        PluginErrorKind::Conflict => NemoRelayStatus::AlreadyExists,
        PluginErrorKind::InvalidConfig | PluginErrorKind::Serialization => {
            NemoRelayStatus::InvalidArg
        },
        PluginErrorKind::Internal | PluginErrorKind::RegistrationFailed => {
            NemoRelayStatus::Internal
        },
    }
}

/// Reports a plugin error: keeps its text and gives its status.
pub fn status_from_plugin_error(last_error: &mut LastError, error: PluginError) -> (r:
    NemoRelayStatus)
    ensures
        r == plugin_error_status(error@.0),
        final(last_error)@ == Some(error_text(error@)),
{
    last_error.set(error.to_text());
    match error {
        PluginError::NotFound(_) => NemoRelayStatus::NotFound,
        PluginError::Conflict(_) => NemoRelayStatus::AlreadyExists,
        PluginError::InvalidConfig(_) | PluginError::Serialization(_) => {
            NemoRelayStatus::InvalidArg
        },
        PluginError::Internal(_) | PluginError::RegistrationFailed(_) => {
            NemoRelayStatus::Internal
        },
    }
}

/// The status that a kind of runtime error is reported as.
pub open spec fn flow_error_status(kind: FlowErrorKind) -> NemoRelayStatus {
    match kind {
        FlowErrorKind::AlreadyExists => NemoRelayStatus::AlreadyExists,
        FlowErrorKind::NotFound => NemoRelayStatus::NotFound,
        FlowErrorKind::InvalidArgument => NemoRelayStatus::InvalidArg,
        FlowErrorKind::ScopeStackEmpty => NemoRelayStatus::ScopeStackEmpty,
        FlowErrorKind::GuardrailRejected => NemoRelayStatus::GuardrailRejected,
        FlowErrorKind::Upstream | FlowErrorKind::Internal | FlowErrorKind::CallbackException => {
            NemoRelayStatus::Internal
        },
    }
}

/// Reports a runtime error: keeps the text that it is shown as and gives its
/// status.
pub fn status_from_flow_error(last_error: &mut LastError, kind: FlowErrorKind, shown: String) -> (r:
    NemoRelayStatus)
    ensures
        r == flow_error_status(kind),
        final(last_error)@ == Some(shown@),
{
    last_error.set(shown);
    match kind {
        FlowErrorKind::AlreadyExists => NemoRelayStatus::AlreadyExists,
        FlowErrorKind::NotFound => NemoRelayStatus::NotFound,
        FlowErrorKind::InvalidArgument => NemoRelayStatus::InvalidArg,
        FlowErrorKind::ScopeStackEmpty => NemoRelayStatus::ScopeStackEmpty,
        FlowErrorKind::GuardrailRejected => NemoRelayStatus::GuardrailRejected,
        FlowErrorKind::Upstream | FlowErrorKind::Internal | FlowErrorKind::CallbackException => {
            NemoRelayStatus::Internal
        },
    }
}

/// A runtime error that is reported to a plugin and comes back from it unchanged
/// keeps its kind, unless that has no status of its own.
pub proof fn law_status_keeps_error_kind(kind: FlowErrorKind, message: Option<Seq<char>>)
    ensures
        ({
            let back = status_error(flow_error_status(kind), message, ""@).0;
            back == (if kind == FlowErrorKind::Upstream || kind
                == FlowErrorKind::CallbackException {
                FlowErrorKind::Internal
            } else {
                kind
            })
        }),
        flow_error_status(kind) != NemoRelayStatus::Success,
{
}

/// The names of the statuses.
pub proof fn law_statuses_are_named()
    ensures
        NemoRelayStatus::Success.name() == "Ok"@,
        NemoRelayStatus::AlreadyExists.name() == "AlreadyExists"@,
        NemoRelayStatus::NotFound.name() == "NotFound"@,
        NemoRelayStatus::InvalidArg.name() == "InvalidArg"@,
        NemoRelayStatus::InvalidJson.name() == "InvalidJson"@,
        NemoRelayStatus::InvalidUtf8.name() == "InvalidUtf8"@,
        NemoRelayStatus::NullPointer.name() == "NullPointer"@,
        NemoRelayStatus::ScopeStackEmpty.name() == "ScopeStackEmpty"@,
        NemoRelayStatus::GuardrailRejected.name() == "GuardrailRejected"@,
        NemoRelayStatus::StreamEnd.name() == "StreamEnd"@,
        NemoRelayStatus::Backpressured.name() == "Backpressured"@,
        NemoRelayStatus::Internal.name() == "Internal"@,
{
}

/// Which error each status of a plugin stands for. Its text is the plugin's last error, or else says
/// which status it was; an empty scope stack has none.
pub proof fn law_statuses_stand_for_errors(
    status: NemoRelayStatus,
    message: Option<Seq<char>>,
    fallback: Seq<char>,
)
    ensures
        status_error(NemoRelayStatus::AlreadyExists, message, fallback).0
            == FlowErrorKind::AlreadyExists,
        status_error(NemoRelayStatus::NotFound, message, fallback).0 == FlowErrorKind::NotFound,
        status_error(NemoRelayStatus::ScopeStackEmpty, message, fallback) == (
            FlowErrorKind::ScopeStackEmpty,
            ""@,
        ),
        status_error(NemoRelayStatus::GuardrailRejected, message, fallback).0
            == FlowErrorKind::GuardrailRejected,
        status_error(NemoRelayStatus::InvalidArg, message, fallback).0
            == FlowErrorKind::InvalidArgument,
        status != NemoRelayStatus::AlreadyExists && status != NemoRelayStatus::NotFound && status
            != NemoRelayStatus::ScopeStackEmpty && status != NemoRelayStatus::GuardrailRejected
            && status != NemoRelayStatus::InvalidArg ==> status_error(status, message, fallback).0
            == FlowErrorKind::Internal,
        status != NemoRelayStatus::ScopeStackEmpty && message is Some ==> status_error(
            status,
            message,
            fallback,
        ).1 == message->0,
        status != NemoRelayStatus::ScopeStackEmpty && message is None ==> status_error(
            status,
            message,
            fallback,
        ).1 == fallback + ": "@ + status.name(),
{
}

/// Which status an error of the plugin system or of the runtime gives to a plugin.
pub proof fn law_errors_give_statuses()
    ensures
        plugin_error_status(PluginErrorKind::NotFound) == NemoRelayStatus::NotFound,
        plugin_error_status(PluginErrorKind::Conflict) == NemoRelayStatus::AlreadyExists,
        plugin_error_status(PluginErrorKind::InvalidConfig) == NemoRelayStatus::InvalidArg,
        plugin_error_status(PluginErrorKind::Serialization) == NemoRelayStatus::InvalidArg,
        plugin_error_status(PluginErrorKind::Internal) == NemoRelayStatus::Internal,
        plugin_error_status(PluginErrorKind::RegistrationFailed) == NemoRelayStatus::Internal,
        flow_error_status(FlowErrorKind::AlreadyExists) == NemoRelayStatus::AlreadyExists,
        flow_error_status(FlowErrorKind::NotFound) == NemoRelayStatus::NotFound,
        flow_error_status(FlowErrorKind::InvalidArgument) == NemoRelayStatus::InvalidArg,
        flow_error_status(FlowErrorKind::ScopeStackEmpty) == NemoRelayStatus::ScopeStackEmpty,
        flow_error_status(FlowErrorKind::GuardrailRejected) == NemoRelayStatus::GuardrailRejected,
        flow_error_status(FlowErrorKind::Upstream) == NemoRelayStatus::Internal,
        flow_error_status(FlowErrorKind::Internal) == NemoRelayStatus::Internal,
        flow_error_status(FlowErrorKind::CallbackException) == NemoRelayStatus::Internal,
{
}

/// A call's report: one with a message sets the last error, and a quiet one leaves it.
pub proof fn law_reports_set_the_last_error(
    status: NemoRelayStatus,
    message: Seq<char>,
    before: LastError,
    after: LastError,
    a: CallReport,
    b: Option<CallReport>,
)
    ensures
        leaves(told(status, message), before, after) ==> after@ == Some(message),
        leaves(quiet(status), before, after) ==> after == before,
        told(status, message).status == status,
        quiet(status).status == status && quiet(status).message is None,
        first_report(Some(a), b) == Some(a),
        first_report(None, b) == b,
        message_or(Some(message), ""@) == message,
        message_or(None, message) == message,
        internal(message) == Some((FlowErrorKind::Internal, message)),
{
}

} // verus!
