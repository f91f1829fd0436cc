//! Error types shared by the plugin system.

use vstd::prelude::*;

use crate::text::concat2;

verus! {

/// What a plugin operation failed at.
#[derive(Clone, Copy, Debug, PartialEq, Eq, Structural)]
pub enum PluginErrorKind {
    /// Configuration validation failed.
    InvalidConfig,
    /// The requested mutation conflicts with current plugin state.
    Conflict,
    /// The requested plugin resource was not found.
    NotFound,
    /// A serialization or deserialization operation failed.
    Serialization,
    /// An internal plugin-system error occurred.
    Internal,
    /// A runtime middleware or subscriber registration failed.
    RegistrationFailed,
}

/// Error type for generic plugin operations.
#[derive(Debug)]
pub enum PluginError {
    /// Configuration validation failed.
    InvalidConfig(String),
    /// The requested mutation conflicts with current plugin state.
    Conflict(String),
    /// The requested plugin resource was not found.
    NotFound(String),
    /// A serialization or deserialization operation failed.
    Serialization(String),
    /// An internal plugin-system error occurred.
    Internal(String),
    /// A runtime middleware or subscriber registration failed.
    RegistrationFailed(String),
}

/// The kind of an error with its detail text.
pub type ErrorView = (PluginErrorKind, Seq<char>);

impl View for PluginError {
    type V = ErrorView;

    open spec fn view(&self) -> ErrorView {
        match *self {
            PluginError::InvalidConfig(m) => (PluginErrorKind::InvalidConfig, m@),
            PluginError::Conflict(m) => (PluginErrorKind::Conflict, m@),
            PluginError::NotFound(m) => (PluginErrorKind::NotFound, m@),
            PluginError::Serialization(m) => (PluginErrorKind::Serialization, m@),
            PluginError::Internal(m) => (PluginErrorKind::Internal, m@),
            PluginError::RegistrationFailed(m) => (PluginErrorKind::RegistrationFailed, m@),
        }
    }
}

/// The heading that a kind of error is shown under.
pub open spec fn error_heading(kind: PluginErrorKind) -> Seq<char> {
    match kind {
        PluginErrorKind::InvalidConfig => "invalid config: "@,
        PluginErrorKind::Conflict => "conflict: "@,
        PluginErrorKind::NotFound => "not found: "@,
        PluginErrorKind::Serialization => "serialization error: "@,
        PluginErrorKind::Internal => "internal error: "@,
        PluginErrorKind::RegistrationFailed => "registration failed: "@,
    }
}

/// The text that an error is shown as.
pub open spec fn error_text(error: ErrorView) -> Seq<char> {
    error_heading(error.0) + error.1
}

/// The error of a result, where it is one.
pub open spec fn failure<T>(result: Result<T, PluginError>) -> Option<ErrorView> {
    match result {
        Ok(_) => None,
        Err(e) => Some(e@),
    }
}

/// The view of an invalid-configuration error.
pub open spec fn invalid(message: Seq<char>) -> Option<ErrorView> {
    Some((PluginErrorKind::InvalidConfig, message))
}

impl PluginError {
    /// The text that the error is shown as.
    pub fn to_text(&self) -> (r: String)
        ensures
            r@ == error_text(self@),
    {
        match self {
            PluginError::InvalidConfig(m) => concat2("invalid config: ", m.as_str()),
            PluginError::Conflict(m) => concat2("conflict: ", m.as_str()),
            PluginError::NotFound(m) => concat2("not found: ", m.as_str()),
            PluginError::Serialization(m) => concat2("serialization error: ", m.as_str()),
            PluginError::Internal(m) => concat2("internal error: ", m.as_str()),
            PluginError::RegistrationFailed(m) => concat2("registration failed: ", m.as_str()),
        }
    }
}

/// An invalid-configuration error with a fixed text.
pub fn invalid_config(message: &str) -> (r: PluginError)
    ensures
        r@ == (PluginErrorKind::InvalidConfig, message@),
{
    PluginError::InvalidConfig(message.to_owned())
}

/// Errors are shown by their kind and their text, and a result fails exactly where it is an error.
pub proof fn law_errors_are_shown_by_kind(message: Seq<char>, r: Result<(), PluginError>)
    ensures
        error_text((PluginErrorKind::InvalidConfig, message)) == "invalid config: "@ + message,
        error_text((PluginErrorKind::Conflict, message)) == "conflict: "@ + message,
        error_text((PluginErrorKind::NotFound, message)) == "not found: "@ + message,
        error_text((PluginErrorKind::Serialization, message)) == "serialization error: "@ + message,
        error_text((PluginErrorKind::Internal, message)) == "internal error: "@ + message,
        error_text((PluginErrorKind::RegistrationFailed, message)) == "registration failed: "@
            + message,
        invalid(message) == Some((PluginErrorKind::InvalidConfig, message)),
        failure(r) is None <==> r is Ok,
        r matches Err(e) ==> failure(r) == Some(e@),
{
}

} // verus!
