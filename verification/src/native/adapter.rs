//! What a loaded native plugin's validate and register callbacks lead to.

use vstd::prelude::*;

use crate::config::{findings, ConfigDiagnostic, DiagnosticLevel, DiagnosticView};
use crate::error::{failure, ErrorView, PluginError, PluginErrorKind};
use crate::native::status::{message_or, LastError, NemoRelayStatus};
use crate::native::strings::{native_text, read_native_string, NativeString};
use crate::text::{concat2, concat3};

verus! {

/// The error finding of a native plugin's kind.
pub open spec fn native_finding(plugin_kind: Seq<char>, code: Seq<char>, message: Seq<char>) ->
    DiagnosticView {
    DiagnosticView {
        level: DiagnosticLevel::Error,
        code,
        component: Some(plugin_kind),
        field: None,
        message,
    }
}

/// An error finding of a native plugin's kind.
pub fn native_error_diagnostic(plugin_kind: &str, code: &str, message: &str) -> (r:
    ConfigDiagnostic)
    ensures
        r@ == native_finding(plugin_kind@, code@, message@),
{
    ConfigDiagnostic {
        level: DiagnosticLevel::Error,
        code: code.to_owned(),
        component: Some(plugin_kind.to_owned()),
        field: None,
        message: message.to_owned(),
    }
}

/// What a validate callback finds. `returned` is the text that it returned, `decoded`
/// the findings that the text stands for, where it stands for any.
pub open spec fn native_findings(
    plugin_kind: Seq<char>,
    has_validate: bool,
    status: NemoRelayStatus,
    message: Option<Seq<char>>,
    returned: Option<&NativeString>,
    decoded: Option<Seq<DiagnosticView>>,
) -> Seq<DiagnosticView> {
    let code = "plugin.native_validate_failed"@;
    if !has_validate {
        Seq::empty()
    } else if status != NemoRelayStatus::Success {
        seq![
            native_finding(
                plugin_kind,
                code,
                message_or(message, "native validate callback returned "@ + status.name()),
            ),
        ]
    } else if returned is None {
        Seq::empty()
    } else if native_text(returned) is Ok && decoded is Some {
        decoded->0
    } else {
        seq![
            native_finding(
                plugin_kind,
                code,
                "native validate callback returned invalid diagnostics JSON"@,
            ),
        ]
    }
}

/// One finding as a list.
fn one_finding(finding: ConfigDiagnostic) -> (r: Vec<ConfigDiagnostic>)
    ensures
        findings(r@) == seq![finding@],
{
    let mut found: Vec<ConfigDiagnostic> = Vec::new();
    found.push(finding);
    assert(findings(found@) =~= seq![finding@]);
    found
}

/// The findings of a validate callback, given how it was answered. A plugin without
/// one finds nothing.
pub fn native_validation_findings(
    plugin_kind: &str,
    has_validate: bool,
    status: NemoRelayStatus,
    last_error: &LastError,
    returned: Option<&NativeString>,
    decoded: Option<Vec<ConfigDiagnostic>>,
) -> (r: Vec<ConfigDiagnostic>)
    ensures
        findings(r@) == native_findings(
            plugin_kind@,
            has_validate,
            status,
            last_error@,
            returned,
            match decoded {
                Some(d) => Some(findings(d@)),
                None => None,
            },
        ),
{
    if !has_validate {
        let none: Vec<ConfigDiagnostic> = Vec::new();
        assert(findings(none@) =~= Seq::empty());
        return none;
    }
    if status != NemoRelayStatus::Success {
        let described = concat2("native validate callback returned ", status.as_str());
        let message = last_error.message_or(described.as_str());
        return one_finding(
            native_error_diagnostic(
                plugin_kind,
                "plugin.native_validate_failed",
                message.as_str(),
            ),
        );
    }
    if returned.is_none() {
        let none: Vec<ConfigDiagnostic> = Vec::new();
        assert(findings(none@) =~= Seq::empty());
        return none;
    }
    let readable = read_native_string(returned).is_ok();
    match decoded {
        Some(found) => {
            if readable {
                return found;
            }
        },
        None => {},
    }
    one_finding(
        native_error_diagnostic(
            plugin_kind,
            "plugin.native_validate_failed",
            "native validate callback returned invalid diagnostics JSON",
        ),
    )
}

/// The problem of a register callback, given how it was answered.
pub open spec fn native_register_problem(
    plugin_kind: Seq<char>,
    has_register: bool,
    status: NemoRelayStatus,
    message: Option<Seq<char>>,
) -> Option<ErrorView> {
    if !has_register {
        Some(
            (
                PluginErrorKind::RegistrationFailed,
                "native plugin '"@ + plugin_kind + "' did not return a register callback"@,
            ),
        )
    } else if status == NemoRelayStatus::Success {
        None
    } else {
        Some(
            (
                PluginErrorKind::RegistrationFailed,
                message_or(message, "native register callback returned "@ + status.name()),
            ),
        )
    }
}

/// The result of a register callback, given how it was answered.
pub fn native_register_result(
    plugin_kind: &str,
    has_register: bool,
    status: NemoRelayStatus,
    last_error: &LastError,
) -> (r: Result<(), PluginError>)
    ensures
        failure(r) == native_register_problem(plugin_kind@, has_register, status, last_error@),
{
    if !has_register {
        return Err(
            PluginError::RegistrationFailed(
                concat3(
                    "native plugin '",
                    plugin_kind,
                    "' did not return a register callback",
                ),
            ),
        );
    }
    if status == NemoRelayStatus::Success {
        Ok(())
    } else {
        let described = concat2("native register callback returned ", status.as_str());
        Err(PluginError::RegistrationFailed(last_error.message_or(described.as_str())))
    }
}

/// What a plugin's validate callback leads to: nothing where there is none or it returns nothing,
/// the findings that it returns, and one error where it fails or what it returns cannot be read.
pub proof fn law_native_findings_are_reported(
    plugin_kind: Seq<char>,
    status: NemoRelayStatus,
    message: Option<Seq<char>>,
    returned: Option<&NativeString>,
    decoded: Option<Seq<DiagnosticView>>,
)
    ensures
        native_findings(plugin_kind, false, status, message, returned, decoded).len() == 0,
        native_findings(
            plugin_kind,
            true,
            NemoRelayStatus::Success,
            message,
            None,
            decoded,
        ).len() == 0,
        status != NemoRelayStatus::Success ==> {
            let found = native_findings(plugin_kind, true, status, message, returned, decoded);
            &&& found.len() == 1
            &&& found[0].level == DiagnosticLevel::Error
            &&& found[0].code == "plugin.native_validate_failed"@
            &&& found[0].component == Some(plugin_kind)
            &&& message matches Some(m) ==> found[0].message == m
            &&& message is None ==> found[0].message == "native validate callback returned "@
                + status.name()
        },
        returned is Some && native_text(returned) is Ok && decoded is Some ==> native_findings(
            plugin_kind,
            true,
            NemoRelayStatus::Success,
            message,
            returned,
            decoded,
        ) == decoded->0,
        returned is Some && (native_text(returned) is Err || decoded is None) ==> {
            let found = native_findings(
                plugin_kind,
                true,
                NemoRelayStatus::Success,
                message,
                returned,
                decoded,
            );
            &&& found.len() == 1
            &&& found[0].level == DiagnosticLevel::Error
            &&& found[0].message == "native validate callback returned invalid diagnostics JSON"@
        },
{
}

/// A plugin is registered exactly where it has a register callback and that succeeds.
pub proof fn law_native_plugins_register_themselves(
    plugin_kind: Seq<char>,
    has_register: bool,
    status: NemoRelayStatus,
    message: Option<Seq<char>>,
)
    ensures
        native_register_problem(plugin_kind, has_register, status, message) is None <==> has_register
            && status == NemoRelayStatus::Success,
        native_register_problem(plugin_kind, has_register, status, message) matches Some(e) ==> e.0
            == PluginErrorKind::RegistrationFailed,
        has_register && status != NemoRelayStatus::Success && message is Some
            ==> native_register_problem(plugin_kind, has_register, status, message) == Some(
            (PluginErrorKind::RegistrationFailed, message->0),
        ),
{
}

/// What is told where a plugin does not register.
pub proof fn law_failed_registrations_are_told(plugin_kind: Seq<char>, status: NemoRelayStatus)
    requires
        status != NemoRelayStatus::Success,
    ensures
        native_register_problem(plugin_kind, false, status, None) == Some(
            (
                PluginErrorKind::RegistrationFailed,
                "native plugin '"@ + plugin_kind + "' did not return a register callback"@,
            ),
        ),
        native_register_problem(plugin_kind, true, status, None) == Some(
            (
                PluginErrorKind::RegistrationFailed,
                "native register callback returned "@ + status.name(),
            ),
        ),
{
}

} // verus!
