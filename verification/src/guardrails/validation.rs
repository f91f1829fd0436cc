//! Validation of a NeMo Guardrails component configuration.

use vstd::prelude::*;
use vstd::utf8::encode_utf8;

use crate::config::{
    apply_global_config_policy, behavior_level, effective_policy, findings, policy_finding, push_policy_diag,
    ConfigDiagnostic, ConfigPolicy, DiagnosticLevel, DiagnosticView, UnsupportedBehavior,
};
use crate::error::{error_text, PluginErrorKind};
use crate::guardrails::component::{
    undecodable_guardrails_config, LocalBackendConfig, NeMoGuardrailsConfig, RailSelector,
    RemoteBackendConfig, RequestDefaultsConfig, RequestRailsConfig, NEMO_GUARDRAILS_PLUGIN_KIND,
};
use crate::json::Json;
use crate::text::{
    blank, bytes_of, concat2, concat3, concat4, concat5, decimal, format_u64, is_blank, join, joined,
    opt_str, text_eq, texts, trim, trimmed,
};
use crate::text_map::{entry_keys, TextMap};

verus! {

/// The code of a setting that has an unsupported value.
pub const UNSUPPORTED_VALUE: &'static str = "nemo_guardrails.unsupported_value";

/// The code of a configuration whose source is missing or ambiguous.
pub const INVALID_CONFIG_SOURCE: &'static str = "nemo_guardrails.invalid_config_source";

/// The views of literals.
pub open spec fn literals(items: Seq<&'static str>) -> Seq<Seq<char>> {
    Seq::new(items.len(), |i: int| items[i]@)
}

/// Findings that hold under a condition.
pub open spec fn when(condition: bool, found: Seq<DiagnosticView>) -> Seq<DiagnosticView> {
    if condition {
        found
    } else {
        Seq::empty()
    }
}

/// The finding on a setting, by its code.
pub open spec fn finding(
    policy: ConfigPolicy,
    code: Seq<char>,
    field: Option<Seq<char>>,
    message: Seq<char>,
) -> Seq<DiagnosticView> {
    policy_finding(
        policy.unsupported_value,
        code,
        Some("nemo_guardrails"@),
        field,
        message,
    )
}

/// The finding that a setting has an unsupported value.
pub open spec fn value_finding(
    policy: ConfigPolicy,
    field: Seq<char>,
    message: Seq<char>,
) -> Seq<DiagnosticView> {
    finding(policy, "nemo_guardrails.unsupported_value"@, Some(field), message)
}

/// Findings that are added one after another are added together.
proof fn lemma_regroup(
    start: Seq<DiagnosticView>,
    added: Seq<DiagnosticView>,
    next: Seq<DiagnosticView>,
)
    ensures
        (start + added) + next == start + (added + next),
{
    assert((start + added) + next =~= start + (added + next));
}

/// Adds a finding where a condition holds.
fn flag(
    diagnostics: &mut Vec<ConfigDiagnostic>,
    policy: &ConfigPolicy,
    condition: bool,
    code: &str,
    field: Option<&str>,
    message: &str,
)
    ensures
        findings(final(diagnostics)@) == findings(old(diagnostics)@) + when(
            condition,
            finding(*policy, code@, opt_str(field), message@),
        ),
{
    if condition {
        let field = match field {
            Some(f) => Some(f.to_owned()),
            None => None,
        };
        push_policy_diag(
            diagnostics,
            policy.unsupported_value,
            code,
            Some(NEMO_GUARDRAILS_PLUGIN_KIND.to_owned()),
            field,
            message.to_owned(),
        );
    } else {
        assert(findings(diagnostics@) =~= findings(diagnostics@) + Seq::empty());
    }
}

/// Adds the finding that a setting has an unsupported value, where a condition holds.
fn flag_value(
    diagnostics: &mut Vec<ConfigDiagnostic>,
    policy: &ConfigPolicy,
    condition: bool,
    field: &str,
    message: &str,
)
    ensures
        findings(final(diagnostics)@) == findings(old(diagnostics)@) + when(
            condition,
            value_finding(*policy, field@, message@),
        ),
{
    flag(diagnostics, policy, condition, UNSUPPORTED_VALUE, Some(field), message)
}

/// The finding that every validation starts with.
pub open spec fn deprecation_finding() -> DiagnosticView {
    DiagnosticView {
        level: DiagnosticLevel::Warning,
        code: "nemo_guardrails.deprecated"@,
        component: Some("nemo_guardrails"@),
        field: None,
        message:
            "the built-in `nemo_guardrails` plugin is deprecated and scheduled for removal in NeMo Relay 0.9"@,
    }
}

/// The deprecation warning of the built-in plugin.
pub fn nemo_guardrails_deprecation_diagnostic() -> (r: ConfigDiagnostic)
    ensures
        r@ == deprecation_finding(),
{
    ConfigDiagnostic {
        level: DiagnosticLevel::Warning,
        code: "nemo_guardrails.deprecated".to_owned(),
        component: Some(NEMO_GUARDRAILS_PLUGIN_KIND.to_owned()),
        field: None,
        message:
            "the built-in `nemo_guardrails` plugin is deprecated and scheduled for removal in NeMo Relay 0.9".to_owned(),
    }
}

/// The findings on the fields of an object that are not known ones, in the object's order.
pub open spec fn unknown_field_findings(
    policy: ConfigPolicy,
    component: Seq<char>,
    keys: Seq<Seq<char>>,
    known: Seq<Seq<char>>,
) -> Seq<DiagnosticView>
    decreases keys.len(),
{
    if keys.len() == 0 {
        Seq::empty()
    } else {
        unknown_field_findings(policy, component, keys.drop_last(), known) + when(
            !known.contains(keys.last()),
            policy_finding(
                policy.unknown_field,
                "nemo_guardrails.unknown_field"@,
                Some(component),
                Some(keys.last()),
                "field '"@ + keys.last() + "' is not recognized for '"@ + component + "'"@,
            ),
        )
    }
}

/// Whether a name is among literals.
fn is_known(known: &Vec<&'static str>, name: &str) -> (r: bool)
    ensures
        r == literals(known@).contains(name@),
{
    let mut i: usize = 0;
    while i < known.len()
        invariant
            i <= known.len(),
            forall|k: int| 0 <= k < i ==> literals(known@)[k] != name@,
        decreases known.len() - i,
    {
        if text_eq(known[i], name) {
            assert(literals(known@)[i as int] == name@);
            return true;
        }
        i += 1;
    }
    false
}

/// Adds the findings on the fields of an object that are not known ones.
fn validate_unknown_fields(
    diagnostics: &mut Vec<ConfigDiagnostic>,
    policy: &ConfigPolicy,
    component: &str,
    config: &TextMap<Json>,
    known_fields: &Vec<&'static str>,
)
    ensures
        findings(final(diagnostics)@) == findings(old(diagnostics)@) + unknown_field_findings(
            *policy,
            component@,
            entry_keys(config.entries@),
            literals(known_fields@),
        ),
{
    let ghost start = findings(diagnostics@);
    let ghost keys = entry_keys(config.entries@);
    let ghost known = literals(known_fields@);
    let mut i: usize = 0;
    assert(keys.take(0) =~= seq![]);
    assert(start =~= start + Seq::empty());
    while i < config.entries.len()
        invariant
            i <= config.entries.len(),
            keys == entry_keys(config.entries@),
            known == literals(known_fields@),
            findings(diagnostics@) == start + unknown_field_findings(
                *policy,
                component@,
                keys.take(i as int),
                known,
            ),
        decreases config.entries.len() - i,
    {
        let field = config.entries[i].0.as_str();
        let ghost before = findings(diagnostics@);
        let ghost next = keys.take(i + 1);
        assert(next.drop_last() =~= keys.take(i as int));
        assert(next.last() == field@);
        if !is_known(known_fields, field) {
            push_policy_diag(
                diagnostics,
                policy.unknown_field,
                "nemo_guardrails.unknown_field",
                Some(component.to_owned()),
                Some(field.to_owned()),
                concat5("field '", field, "' is not recognized for '", component, "'"),
            );
        } else {
            assert(before =~= before + Seq::empty());
        }
        proof {
            let added = when(
                !known.contains(field@),
                policy_finding(
                    policy.unknown_field,
                    "nemo_guardrails.unknown_field"@,
                    Some(component@),
                    Some(field@),
                    "field '"@ + field@ + "' is not recognized for '"@ + component@ + "'"@,
                ),
            );
            assert(findings(diagnostics@) == before + added);
            assert(before + added =~= start + (unknown_field_findings(
                *policy,
                component@,
                keys.take(i as int),
                known,
            ) + added));
        }
        i += 1;
    }
    assert(keys.take(keys.len() as int) =~= keys);
}

/// The fields of the component itself.
pub open spec fn top_level_fields() -> Seq<Seq<char>> {
    seq![
        "version"@,
        "mode"@,
        "config_path"@,
        "config_yaml"@,
        "colang_content"@,
        "codec"@,
        "input"@,
        "output"@,
        "tool_input"@,
        "tool_output"@,
        "priority"@,
        "remote"@,
        "local"@,
        "request_defaults"@,
        "policy"@,
    ]
}

/// The fields of the component itself.
fn known_top_level_fields() -> (r: Vec<&'static str>)
    ensures
        literals(r@) == top_level_fields(),
{
    let r: Vec<&'static str> = vec![
        "version",
        "mode",
        "config_path",
        "config_yaml",
        "colang_content",
        "codec",
        "input",
        "output",
        "tool_input",
        "tool_output",
        "priority",
        "remote",
        "local",
        "request_defaults",
        "policy",
    ];
    assert(literals(r@) =~= top_level_fields());
    r
}

/// The fields of a policy.
pub open spec fn policy_fields() -> Seq<Seq<char>> {
    seq![
        "unknown_component"@,
        "unknown_field"@,
        "unsupported_value"@,
    ]
}

/// The fields of a policy.
fn known_policy_fields() -> (r: Vec<&'static str>)
    ensures
        literals(r@) == policy_fields(),
{
    let r: Vec<&'static str> = vec![
        "unknown_component",
        "unknown_field",
        "unsupported_value",
    ];
    assert(literals(r@) =~= policy_fields());
    r
}

/// The fields of the remote backend.
pub open spec fn remote_fields() -> Seq<Seq<char>> {
    seq![
        "endpoint"@,
        "config_id"@,
        "config_ids"@,
        "headers"@,
        "timeout_millis"@,
    ]
}

/// The fields of the remote backend.
fn known_remote_fields() -> (r: Vec<&'static str>)
    ensures
        literals(r@) == remote_fields(),
{
    let r: Vec<&'static str> = vec![
        "endpoint",
        "config_id",
        "config_ids",
        "headers",
        "timeout_millis",
    ];
    assert(literals(r@) =~= remote_fields());
    r
}

/// The fields of the local backend.
pub open spec fn local_fields() -> Seq<Seq<char>> {
    seq![
        "python_module"@,
        "python_executable"@,
        "python_path"@,
    ]
}

/// The fields of the local backend.
fn known_local_fields() -> (r: Vec<&'static str>)
    ensures
        literals(r@) == local_fields(),
{
    let r: Vec<&'static str> = vec![
        "python_module",
        "python_executable",
        "python_path",
    ];
    assert(literals(r@) =~= local_fields());
    r
}

/// The fields of the request defaults.
pub open spec fn request_default_fields() -> Seq<Seq<char>> {
    seq![
        "context"@,
        "thread_id"@,
        "state"@,
        "rails"@,
        "llm_params"@,
        "llm_output"@,
        "output_vars"@,
        "log"@,
    ]
}

/// The fields of the request defaults.
fn known_request_default_fields() -> (r: Vec<&'static str>)
    ensures
        literals(r@) == request_default_fields(),
{
    let r: Vec<&'static str> = vec![
        "context",
        "thread_id",
        "state",
        "rails",
        "llm_params",
        "llm_output",
        "output_vars",
        "log",
    ];
    assert(literals(r@) =~= request_default_fields());
    r
}

/// The fields of the rails of the request defaults.
pub open spec fn rail_fields() -> Seq<Seq<char>> {
    seq![
        "input"@,
        "output"@,
        "retrieval"@,
        "dialog"@,
        "tool_output"@,
        "tool_input"@,
    ]
}

/// The fields of the rails of the request defaults.
fn known_rail_fields() -> (r: Vec<&'static str>)
    ensures
        literals(r@) == rail_fields(),
{
    let r: Vec<&'static str> = vec![
        "input",
        "output",
        "retrieval",
        "dialog",
        "tool_output",
        "tool_input",
    ];
    assert(literals(r@) =~= rail_fields());
    r
}

/// The object that a field holds, where it holds one.
pub open spec fn section_of(config: TextMap<Json>, section: Seq<char>) -> Option<TextMap<Json>> {
    if config@.contains_key(section) {
        match config@[section] {
            Json::Object(entries) => Some(entries),
            _ => None,
        }
    } else {
        None
    }
}

/// The findings on the fields of a section, where it is an object.
pub open spec fn section_findings(
    policy: ConfigPolicy,
    component: Seq<char>,
    section: Option<TextMap<Json>>,
    known: Seq<Seq<char>>,
) -> Seq<DiagnosticView> {
    match section {
        Some(object) => unknown_field_findings(
            policy,
            component,
            entry_keys(object.entries@),
            known,
        ),
        None => Seq::empty(),
    }
}

/// The rails section of the request defaults, where both are objects.
pub open spec fn rails_section(config: TextMap<Json>) -> Option<TextMap<Json>> {
    match section_of(config, "request_defaults"@) {
        Some(defaults) => section_of(defaults, "rails"@),
        None => None,
    }
}

/// The object that a field holds, where it holds one.
fn section<'a>(config: &'a TextMap<Json>, name: &str) -> (r: Option<&'a TextMap<Json>>)
    ensures
        match r {
            Some(object) => section_of(*config, name@) == Some(*object),
            None => section_of(*config, name@) is None,
        },
{
    match config.get(name) {
        Some(Json::Object(entries)) => Some(entries),
        _ => None,
    }
}

/// Adds the findings on the fields of a section.
fn validate_section_fields(
    diagnostics: &mut Vec<ConfigDiagnostic>,
    policy: &ConfigPolicy,
    plugin_config: &TextMap<Json>,
    name: &str,
    known_fields: &Vec<&'static str>,
)
    ensures
        findings(final(diagnostics)@) == findings(old(diagnostics)@) + section_findings(
            *policy,
            name@,
            section_of(*plugin_config, name@),
            literals(known_fields@),
        ),
{
    match section(plugin_config, name) {
        Some(object) => validate_unknown_fields(diagnostics, policy, name, object, known_fields),
        None => {
            assert(findings(diagnostics@) =~= findings(diagnostics@) + Seq::empty());
        },
    }
}

/// Adds the findings on the fields of the rails in the request defaults.
fn validate_rails_section_fields(
    diagnostics: &mut Vec<ConfigDiagnostic>,
    policy: &ConfigPolicy,
    plugin_config: &TextMap<Json>,
)
    ensures
        findings(final(diagnostics)@) == findings(old(diagnostics)@) + section_findings(
            *policy,
            "request_defaults.rails"@,
            rails_section(*plugin_config),
            rail_fields(),
        ),
{
    let rails = match section(plugin_config, "request_defaults") {
        Some(defaults) => section(defaults, "rails"),
        None => None,
    };
    match rails {
        Some(object) => validate_unknown_fields(
            diagnostics,
            policy,
            "request_defaults.rails",
            object,
            &known_rail_fields(),
        ),
        None => {
            assert(findings(diagnostics@) =~= findings(diagnostics@) + Seq::empty());
        },
    }
}

/// The findings on a version.
pub open spec fn version_findings(policy: ConfigPolicy, version: u32) -> Seq<DiagnosticView> {
    when(
        version != 1,
        finding(
            policy,
            "nemo_guardrails.unsupported_config_version"@,
            Some("version"@),
            "NeMo Guardrails config version "@ + decimal(version as nat) + " is unsupported"@,
        ),
    )
}

/// Adds the findings on a version.
fn validate_version(diagnostics: &mut Vec<ConfigDiagnostic>, policy: &ConfigPolicy, version: u32)
    ensures
        findings(final(diagnostics)@) == findings(old(diagnostics)@) + version_findings(
            *policy,
            version,
        ),
{
    let shown = format_u64(version as u64);
    let message = concat3("NeMo Guardrails config version ", shown.as_str(), " is unsupported");
    flag(
        diagnostics,
        policy,
        version != 1,
        "nemo_guardrails.unsupported_config_version",
        Some("version"),
        message.as_str(),
    )
}

/// The findings on a mode.
pub open spec fn mode_findings(policy: ConfigPolicy, mode: Seq<char>) -> Seq<DiagnosticView> {
    when(
        mode != "remote"@ && mode != "local"@,
        value_finding(policy, "mode"@, "mode must be 'remote' or 'local'"@),
    )
}

/// Adds the findings on a mode.
fn validate_mode(diagnostics: &mut Vec<ConfigDiagnostic>, policy: &ConfigPolicy, mode: &str)
    ensures
        findings(final(diagnostics)@) == findings(old(diagnostics)@) + mode_findings(*policy, mode@),
{
    let unknown = !text_eq(mode, "remote") && !text_eq(mode, "local");
    flag_value(diagnostics, policy, unknown, "mode", "mode must be 'remote' or 'local'")
}

/// The finding on a text that is given but blank.
pub open spec fn blank_findings(
    policy: ConfigPolicy,
    field: Seq<char>,
    value: Option<String>,
    message: Seq<char>,
) -> Seq<DiagnosticView> {
    when(
        match value {
            Some(text) => blank(text@),
            None => false,
        },
        value_finding(policy, field, message),
    )
}

/// Adds the finding on a text that is given but blank.
fn validate_optional_non_empty_string(
    diagnostics: &mut Vec<ConfigDiagnostic>,
    policy: &ConfigPolicy,
    field: &str,
    value: &Option<String>,
    message: &str,
)
    ensures
        findings(final(diagnostics)@) == findings(old(diagnostics)@) + blank_findings(
            *policy,
            field@,
            *value,
            message@,
        ),
{
    let is_empty = match value {
        Some(text) => is_blank(text.as_str()),
        None => false,
    };
    flag_value(diagnostics, policy, is_empty, field, message)
}

/// The findings on the entries of a list, in the list's order.
pub open spec fn entry_findings(
    policy: ConfigPolicy,
    field: Seq<char>,
    bad: Seq<bool>,
    message: Seq<char>,
) -> Seq<DiagnosticView>
    decreases bad.len(),
{
    if bad.len() == 0 {
        Seq::empty()
    } else {
        entry_findings(policy, field, bad.drop_last(), message) + when(
            bad.last(),
            value_finding(
                policy,
                field + "["@ + decimal((bad.len() - 1) as nat) + "]"@,
                message,
            ),
        )
    }
}

/// Which texts are blank.
pub open spec fn blanks(items: Seq<String>) -> Seq<bool> {
    Seq::new(items.len(), |i: int| blank(items[i]@))
}

/// Adds the findings on the entries of a list.
fn flag_entries(
    diagnostics: &mut Vec<ConfigDiagnostic>,
    policy: &ConfigPolicy,
    field: &str,
    bad: &Vec<bool>,
    message: &str,
)
    ensures
        findings(final(diagnostics)@) == findings(old(diagnostics)@) + entry_findings(
            *policy,
            field@,
            bad@,
            message@,
        ),
{
    let ghost start = findings(diagnostics@);
    let mut i: usize = 0;
    assert(bad@.take(0) =~= seq![]);
    assert(start =~= start + Seq::empty());
    while i < bad.len()
        invariant
            i <= bad.len(),
            findings(diagnostics@) == start + entry_findings(
                *policy,
                field@,
                bad@.take(i as int),
                message@,
            ),
        decreases bad.len() - i,
    {
        let ghost before = findings(diagnostics@);
        let ghost next = bad@.take(i + 1);
        let shown = format_u64(i as u64);
        let name = concat4(field, "[", shown.as_str(), "]");
        flag_value(diagnostics, policy, bad[i], name.as_str(), message);
        proof {
            assert(next.drop_last() =~= bad@.take(i as int));
            let added = when(next.last(), value_finding(*policy, name@, message@));
            assert(before + added =~= start + (entry_findings(
                *policy,
                field@,
                bad@.take(i as int),
                message@,
            ) + added));
        }
        i += 1;
    }
    assert(bad@.take(bad@.len() as int) =~= bad@);
}

/// Which texts are blank.
fn blank_entries(items: &Vec<String>) -> (r: Vec<bool>)
    ensures
        r@ == blanks(items@),
{
    let mut r: Vec<bool> = Vec::new();
    let mut i: usize = 0;
    while i < items.len()
        invariant
            i <= items.len(),
            r.len() == i,
            forall|k: int| 0 <= k < i ==> r@[k] == blank(#[trigger] items@[k]@),
        decreases items.len() - i,
    {
        r.push(is_blank(items[i].as_str()));
        i += 1;
    }
    assert(r@ =~= blanks(items@));
    r
}

/// The findings on blank texts of the remote backend.
pub open spec fn remote_blank_findings(
    policy: ConfigPolicy,
    remote: RemoteBackendConfig,
) -> Seq<DiagnosticView> {
    blank_findings(
        policy,
        "remote.endpoint"@,
        remote.endpoint,
        "remote.endpoint must not be empty"@,
    ) + blank_findings(
        policy,
        "remote.config_id"@,
        remote.config_id,
        "remote.config_id must not be empty"@,
    ) + entry_findings(
        policy,
        "remote.config_ids"@,
        blanks(remote.config_ids@),
        "remote.config_ids entries must not be empty"@,
    )
}

/// Adds the findings on blank texts of the remote backend.
fn validate_remote_non_empty_strings(
    diagnostics: &mut Vec<ConfigDiagnostic>,
    policy: &ConfigPolicy,
    remote: &RemoteBackendConfig,
)
    ensures
        findings(final(diagnostics)@) == findings(old(diagnostics)@) + remote_blank_findings(
            *policy,
            *remote,
        ),
{
    let ghost start = findings(diagnostics@);
    validate_optional_non_empty_string(
        diagnostics,
        policy,
        "remote.endpoint",
        &remote.endpoint,
        "remote.endpoint must not be empty",
    );
    validate_optional_non_empty_string(
        diagnostics,
        policy,
        "remote.config_id",
        &remote.config_id,
        "remote.config_id must not be empty",
    );
    flag_entries(
        diagnostics,
        policy,
        "remote.config_ids",
        &blank_entries(&remote.config_ids),
        "remote.config_ids entries must not be empty",
    );
    assert(findings(diagnostics@) =~= start + remote_blank_findings(*policy, *remote));
}

/// The findings on blank texts of the local backend.
pub open spec fn local_blank_findings(
    policy: ConfigPolicy,
    local: LocalBackendConfig,
) -> Seq<DiagnosticView> {
    blank_findings(
        policy,
        "local.python_module"@,
        local.python_module,
        "local.python_module must not be empty"@,
    ) + blank_findings(
        policy,
        "local.python_executable"@,
        local.python_executable,
        "local.python_executable must not be empty"@,
    ) + blank_findings(
        policy,
        "local.python_path"@,
        local.python_path,
        "local.python_path must not be empty"@,
    )
}

/// Adds the findings on blank texts of the local backend.
fn validate_local_non_empty_strings(
    diagnostics: &mut Vec<ConfigDiagnostic>,
    policy: &ConfigPolicy,
    local: &LocalBackendConfig,
)
    ensures
        findings(final(diagnostics)@) == findings(old(diagnostics)@) + local_blank_findings(
            *policy,
            *local,
        ),
{
    let ghost start = findings(diagnostics@);
    validate_optional_non_empty_string(
        diagnostics,
        policy,
        "local.python_module",
        &local.python_module,
        "local.python_module must not be empty",
    );
    validate_optional_non_empty_string(
        diagnostics,
        policy,
        "local.python_executable",
        &local.python_executable,
        "local.python_executable must not be empty",
    );
    validate_optional_non_empty_string(
        diagnostics,
        policy,
        "local.python_path",
        &local.python_path,
        "local.python_path must not be empty",
    );
    assert(findings(diagnostics@) =~= start + local_blank_findings(*policy, *local));
}

/// The findings on blank texts.
pub open spec fn text_findings(
    policy: ConfigPolicy,
    config: NeMoGuardrailsConfig,
) -> Seq<DiagnosticView> {
    blank_findings(
        policy,
        "config_path"@,
        config.config_path,
        "config_path must not be empty"@,
    ) + blank_findings(
        policy,
        "config_yaml"@,
        config.config_yaml,
        "config_yaml must not be empty"@,
    ) + blank_findings(
        policy,
        "colang_content"@,
        config.colang_content,
        "colang_content must not be empty"@,
    ) + match config.remote {
        Some(remote) => remote_blank_findings(policy, remote),
        None => Seq::empty(),
    } + match config.local {
        Some(local) => local_blank_findings(policy, local),
        None => Seq::empty(),
    }
}

/// Adds the findings on blank texts.
#[verifier::spinoff_prover]
fn validate_non_empty_strings(
    diagnostics: &mut Vec<ConfigDiagnostic>,
    policy: &ConfigPolicy,
    config: &NeMoGuardrailsConfig,
)
    ensures
        findings(final(diagnostics)@) == findings(old(diagnostics)@) + text_findings(
            *policy,
            *config,
        ),
{
    let ghost start = findings(diagnostics@);
    validate_optional_non_empty_string(
        diagnostics,
        policy,
        "config_path",
        &config.config_path,
        "config_path must not be empty",
    );
    validate_optional_non_empty_string(
        diagnostics,
        policy,
        "config_yaml",
        &config.config_yaml,
        "config_yaml must not be empty",
    );
    validate_optional_non_empty_string(
        diagnostics,
        policy,
        "colang_content",
        &config.colang_content,
        "colang_content must not be empty",
    );
    match &config.remote {
        Some(remote) => validate_remote_non_empty_strings(diagnostics, policy, remote),
        None => {},
    }
    match &config.local {
        Some(local) => validate_local_non_empty_strings(diagnostics, policy, local),
        None => {},
    }
    assert(findings(diagnostics@) =~= start + text_findings(*policy, *config));
}

/// Whether the remote backend names one configuration.
pub open spec fn names_one_config(config: NeMoGuardrailsConfig) -> bool {
    match config.remote {
        Some(remote) => remote.config_id is Some,
        None => false,
    }
}

/// Whether the remote backend names a list of configurations.
pub open spec fn names_configs(config: NeMoGuardrailsConfig) -> bool {
    match config.remote {
        Some(remote) => remote.config_ids@.len() > 0,
        None => false,
    }
}

/// Whether the remote backend has an endpoint.
pub open spec fn has_endpoint(config: NeMoGuardrailsConfig) -> bool {
    match config.remote {
        Some(remote) => match remote.endpoint {
            Some(endpoint) => !blank(endpoint@),
            None => false,
        },
        None => false,
    }
}

/// The finding that the configuration source is missing or ambiguous.
pub open spec fn source_finding(policy: ConfigPolicy, message: Seq<char>) -> Seq<DiagnosticView> {
    finding(policy, "nemo_guardrails.invalid_config_source"@, None, message)
}

/// The findings on the settings that go together in local mode.
pub open spec fn local_shape_findings(
    policy: ConfigPolicy,
    config: NeMoGuardrailsConfig,
) -> Seq<DiagnosticView> {
    when(
        (config.config_path is Some) == (config.config_yaml is Some),
        source_finding(
            policy,
            "exactly one of config_path or config_yaml is required in local mode"@,
        ),
    ) + when(
        config.colang_content is Some && config.config_yaml is None,
        value_finding(
            policy,
            "colang_content"@,
            "colang_content can only be used with config_yaml"@,
        ),
    ) + when(
        config.remote is Some,
        value_finding(
            policy,
            "remote"@,
            "remote backend settings cannot be used when mode is 'local'"@,
        ),
    )
}

/// The findings on the settings that go together in remote mode.
pub open spec fn remote_shape_findings(
    policy: ConfigPolicy,
    config: NeMoGuardrailsConfig,
) -> Seq<DiagnosticView> {
    when(
        config.config_path is Some || config.config_yaml is Some || config.colang_content is Some,
        source_finding(
            policy,
            "remote mode uses remote config identity and cannot include config_path, config_yaml, or colang_content"@,
        ),
    ) + when(
        config.local is Some,
        value_finding(
            policy,
            "local"@,
            "local backend settings cannot be used when mode is 'remote'"@,
        ),
    ) + when(
        !has_endpoint(config),
        value_finding(
            policy,
            "remote.endpoint"@,
            "remote.endpoint is required when mode is 'remote'"@,
        ),
    ) + when(
        names_one_config(config) && names_configs(config),
        value_finding(
            policy,
            "remote"@,
            "remote.config_id and remote.config_ids cannot be used together"@,
        ),
    ) + when(
        !names_one_config(config) && !names_configs(config),
        source_finding(policy, "remote mode requires remote.config_id or remote.config_ids"@),
    )
}

/// The findings on the settings that go together.
pub open spec fn shape_findings(
    policy: ConfigPolicy,
    config: NeMoGuardrailsConfig,
) -> Seq<DiagnosticView> {
    if config.mode@ == "local"@ {
        local_shape_findings(policy, config)
    } else if config.mode@ == "remote"@ {
        remote_shape_findings(policy, config)
    } else {
        Seq::empty()
    }
}

/// Adds the findings on the settings that go together in local mode.
fn validate_local_config_shape(
    diagnostics: &mut Vec<ConfigDiagnostic>,
    policy: &ConfigPolicy,
    config: &NeMoGuardrailsConfig,
)
    ensures
        findings(final(diagnostics)@) == findings(old(diagnostics)@) + local_shape_findings(
            *policy,
            *config,
        ),
{
    let ghost start = findings(diagnostics@);
    flag(
        diagnostics,
        policy,
        config.config_path.is_some() == config.config_yaml.is_some(),
        INVALID_CONFIG_SOURCE,
        None,
        "exactly one of config_path or config_yaml is required in local mode",
    );
    flag_value(
        diagnostics,
        policy,
        config.colang_content.is_some() && config.config_yaml.is_none(),
        "colang_content",
        "colang_content can only be used with config_yaml",
    );
    flag_value(
        diagnostics,
        policy,
        config.remote.is_some(),
        "remote",
        "remote backend settings cannot be used when mode is 'local'",
    );
    assert(findings(diagnostics@) =~= start + local_shape_findings(*policy, *config));
}

/// Adds the findings on the settings that go together in remote mode.
#[verifier::spinoff_prover]
fn validate_remote_config_shape(
    diagnostics: &mut Vec<ConfigDiagnostic>,
    policy: &ConfigPolicy,
    config: &NeMoGuardrailsConfig,
)
    ensures
        findings(final(diagnostics)@) == findings(old(diagnostics)@) + remote_shape_findings(
            *policy,
            *config,
        ),
{
    let ghost start = findings(diagnostics@);
    let one = match &config.remote {
        Some(remote) => remote.config_id.is_some(),
        None => false,
    };
    let several = match &config.remote {
        Some(remote) => remote.config_ids.len() > 0,
        None => false,
    };
    let endpoint = match &config.remote {
        Some(remote) => match &remote.endpoint {
            Some(endpoint) => !is_blank(endpoint.as_str()),
            None => false,
        },
        None => false,
    };
    flag(
        diagnostics,
        policy,
        config.config_path.is_some() || config.config_yaml.is_some()
            || config.colang_content.is_some(),
        INVALID_CONFIG_SOURCE,
        None,
        "remote mode uses remote config identity and cannot include config_path, config_yaml, or colang_content",
    );
    flag_value(
        diagnostics,
        policy,
        config.local.is_some(),
        "local",
        "local backend settings cannot be used when mode is 'remote'",
    );
    flag_value(
        diagnostics,
        policy,
        !endpoint,
        "remote.endpoint",
        "remote.endpoint is required when mode is 'remote'",
    );
    flag_value(
        diagnostics,
        policy,
        one && several,
        "remote",
        "remote.config_id and remote.config_ids cannot be used together",
    );
    flag(
        diagnostics,
        policy,
        !(one || several),
        INVALID_CONFIG_SOURCE,
        None,
        "remote mode requires remote.config_id or remote.config_ids",
    );
    assert(findings(diagnostics@) =~= start + remote_shape_findings(*policy, *config));
}

/// Adds the findings on the settings that go together.
fn validate_config_shape(
    diagnostics: &mut Vec<ConfigDiagnostic>,
    policy: &ConfigPolicy,
    config: &NeMoGuardrailsConfig,
)
    ensures
        findings(final(diagnostics)@) == findings(old(diagnostics)@) + shape_findings(
            *policy,
            *config,
        ),
{
    if text_eq(config.mode.as_str(), "local") {
        validate_local_config_shape(diagnostics, policy, config)
    } else if text_eq(config.mode.as_str(), "remote") {
        validate_remote_config_shape(diagnostics, policy, config)
    } else {
        assert(findings(diagnostics@) =~= findings(diagnostics@) + Seq::empty());
    }
}

/// The findings on the codec that managed LLM calls need, by the codecs that there are.
pub open spec fn codec_findings(
    policy: ConfigPolicy,
    config: NeMoGuardrailsConfig,
    codecs: Seq<Seq<char>>,
) -> Seq<DiagnosticView> {
    match config.codec {
        None => when(
            config.input || config.output,
            value_finding(
                policy,
                "codec"@,
                "codec is required when any LLM surface is enabled"@,
            ),
        ),
        Some(codec) => when(
            (config.input || config.output) && !codecs.contains(codec@),
            value_finding(policy, "codec"@, "codec must be one of: "@ + joined(codecs, ", "@)),
        ),
    }
}

/// Whether a text is among texts.
fn contains_text(items: &Vec<String>, text: &str) -> (r: bool)
    ensures
        r == texts(items@).contains(text@),
{
    let mut i: usize = 0;
    while i < items.len()
        invariant
            i <= items.len(),
            forall|k: int| 0 <= k < i ==> texts(items@)[k] != text@,
        decreases items.len() - i,
    {
        if text_eq(items[i].as_str(), text) {
            assert(texts(items@)[i as int] == text@);
            return true;
        }
        i += 1;
    }
    false
}

/// Adds the findings on the codec that managed LLM calls need.
fn validate_codec_requirements(
    diagnostics: &mut Vec<ConfigDiagnostic>,
    policy: &ConfigPolicy,
    config: &NeMoGuardrailsConfig,
    codecs: &Vec<String>,
)
    ensures
        findings(final(diagnostics)@) == findings(old(diagnostics)@) + codec_findings(
            *policy,
            *config,
            texts(codecs@),
        ),
{
    let llm_surface_enabled = config.input || config.output;
    match &config.codec {
        None => flag_value(
            diagnostics,
            policy,
            llm_surface_enabled,
            "codec",
            "codec is required when any LLM surface is enabled",
        ),
        Some(codec) => {
            let names = join(codecs, ", ");
            let message = concat2("codec must be one of: ", names.as_str());
            flag_value(
                diagnostics,
                policy,
                llm_surface_enabled && !contains_text(codecs, codec.as_str()),
                "codec",
                message.as_str(),
            )
        },
    }
}

/// The findings on the surfaces that are enabled.
pub open spec fn surface_findings(
    policy: ConfigPolicy,
    config: NeMoGuardrailsConfig,
) -> Seq<DiagnosticView> {
    when(
        !config.input && !config.output && !config.tool_input && !config.tool_output,
        finding(
            policy,
            "nemo_guardrails.unsupported_value"@,
            None,
            "at least one Guardrails surface must be enabled"@,
        ),
    )
}

/// Adds the findings on the surfaces that are enabled.
fn validate_surface_selection(
    diagnostics: &mut Vec<ConfigDiagnostic>,
    policy: &ConfigPolicy,
    config: &NeMoGuardrailsConfig,
)
    ensures
        findings(final(diagnostics)@) == findings(old(diagnostics)@) + surface_findings(
            *policy,
            *config,
        ),
{
    flag(
        diagnostics,
        policy,
        !(config.input || config.output || config.tool_input || config.tool_output),
        UNSUPPORTED_VALUE,
        None,
        "at least one Guardrails surface must be enabled",
    )
}

/// The findings on what the remote backend does not support.
pub open spec fn remote_support_findings(
    policy: ConfigPolicy,
    config: NeMoGuardrailsConfig,
) -> Seq<DiagnosticView> {
    when(
        config.mode@ == "remote"@ && (config.input || config.output) && match config.codec {
            Some(codec) => codec@ != "openai_chat"@,
            None => false,
        },
        value_finding(
            policy,
            "codec"@,
            "remote mode currently supports only codec = 'openai_chat'"@,
        ),
    ) + when(
        config.mode@ == "remote"@ && config.tool_input,
        value_finding(
            policy,
            "tool_input"@,
            "remote mode does not currently support managed tool_input against the stock Guardrails remote contract"@,
        ),
    )
}

/// Adds the findings on what the remote backend does not support.
fn validate_remote_backend_support(
    diagnostics: &mut Vec<ConfigDiagnostic>,
    policy: &ConfigPolicy,
    config: &NeMoGuardrailsConfig,
)
    ensures
        findings(final(diagnostics)@) == findings(old(diagnostics)@) + remote_support_findings(
            *policy,
            *config,
        ),
{
    let ghost start = findings(diagnostics@);
    let remote = text_eq(config.mode.as_str(), "remote");
    let other_codec = match &config.codec {
        Some(codec) => !text_eq(codec.as_str(), "openai_chat"),
        None => false,
    };
    flag_value(
        diagnostics,
        policy,
        remote && (config.input || config.output) && other_codec,
        "codec",
        "remote mode currently supports only codec = 'openai_chat'",
    );
    flag_value(
        diagnostics,
        policy,
        remote && config.tool_input,
        "tool_input",
        "remote mode does not currently support managed tool_input against the stock Guardrails remote contract",
    );
    assert(findings(diagnostics@) =~= start + remote_support_findings(*policy, *config));
}

/// The finding on a setting that is given but not a JSON object.
pub open spec fn object_findings(
    policy: ConfigPolicy,
    value: Option<Json>,
    field: Seq<char>,
    message: Seq<char>,
) -> Seq<DiagnosticView> {
    when(
        match value {
            Some(v) => !(v is Object),
            None => false,
        },
        value_finding(policy, field, message),
    )
}

/// Adds the finding on a setting that is given but not a JSON object.
fn validate_json_object_field(
    diagnostics: &mut Vec<ConfigDiagnostic>,
    policy: &ConfigPolicy,
    value: &Option<Json>,
    field: &str,
    message: &str,
)
    ensures
        findings(final(diagnostics)@) == findings(old(diagnostics)@) + object_findings(
            *policy,
            *value,
            field@,
            message@,
        ),
{
    let other = match value {
        Some(Json::Object(_)) => false,
        Some(_) => true,
        None => false,
    };
    flag_value(diagnostics, policy, other, field, message)
}

/// The findings on a thread identifier, whose length is counted in bytes.
pub open spec fn thread_findings(
    policy: ConfigPolicy,
    thread_id: Option<String>,
) -> Seq<DiagnosticView> {
    match thread_id {
        Some(id) => if blank(id@) {
            value_finding(
                policy,
                "request_defaults.thread_id"@,
                "request_defaults.thread_id must not be empty"@,
            )
        } else {
            when(
                encode_utf8(trimmed(id@)).len() < 16,
                value_finding(
                    policy,
                    "request_defaults.thread_id"@,
                    "request_defaults.thread_id must be at least 16 characters long"@,
                ),
            )
        },
        None => Seq::empty(),
    }
}

/// Adds the findings on a thread identifier.
fn validate_request_thread_id(
    diagnostics: &mut Vec<ConfigDiagnostic>,
    policy: &ConfigPolicy,
    thread_id: &Option<String>,
)
    ensures
        findings(final(diagnostics)@) == findings(old(diagnostics)@) + thread_findings(
            *policy,
            *thread_id,
        ),
{
    match thread_id {
        Some(id) => {
            let trimmed_thread_id = trim(id.as_str());
            if is_blank(id.as_str()) {
                flag_value(
                    diagnostics,
                    policy,
                    true,
                    "request_defaults.thread_id",
                    "request_defaults.thread_id must not be empty",
                )
            } else {
                flag_value(
                    diagnostics,
                    policy,
                    bytes_of(trimmed_thread_id).len() < 16,
                    "request_defaults.thread_id",
                    "request_defaults.thread_id must be at least 16 characters long",
                )
            }
        },
        None => {
            assert(findings(diagnostics@) =~= findings(diagnostics@) + Seq::empty());
        },
    }
}

/// Whether a key is one that a state may have.
pub open spec fn state_key(key: Seq<char>) -> bool {
    key == "events"@ || key == "state"@
}

/// Whether an object has a key that a state may not have.
pub open spec fn has_foreign_key(object: TextMap<Json>) -> bool {
    exists|i: int| 0 <= i < object.entries@.len() && !state_key(#[trigger] object.entries@[i].0@)
}

/// Whether a state object has a key that is neither `events` nor `state`.
pub open spec fn has_other_state_key(state: Option<Json>) -> bool {
    match state {
        Some(Json::Object(object)) => has_foreign_key(object),
        _ => false,
    }
}

/// The findings on the keys of a state.
pub open spec fn state_findings(policy: ConfigPolicy, state: Option<Json>) -> Seq<DiagnosticView> {
    when(
        has_other_state_key(state),
        value_finding(
            policy,
            "request_defaults.state"@,
            "request_defaults.state must be empty or contain only 'events' or 'state'"@,
        ),
    )
}

/// Whether an object has a key that a state may not have.
fn foreign_key(object: &TextMap<Json>) -> (r: bool)
    ensures
        r == has_foreign_key(*object),
{
    let mut i: usize = 0;
    while i < object.entries.len()
        invariant
            i <= object.entries.len(),
            forall|k: int| 0 <= k < i ==> state_key(#[trigger] object.entries@[k].0@),
        decreases object.entries.len() - i,
    {
        let key = object.entries[i].0.as_str();
        if !text_eq(key, "events") && !text_eq(key, "state") {
            assert(!state_key(object.entries@[i as int].0@));
            return true;
        }
        i += 1;
    }
    false
}

/// Whether a state object has a key that is neither `events` nor `state`.
fn other_state_key(state: &Option<Json>) -> (r: bool)
    ensures
        r == has_other_state_key(*state),
{
    match state {
        Some(Json::Object(object)) => foreign_key(object),
        _ => false,
    }
}

/// Adds the findings on the keys of a state.
fn validate_request_state_keys(
    diagnostics: &mut Vec<ConfigDiagnostic>,
    policy: &ConfigPolicy,
    state: &Option<Json>,
)
    ensures
        findings(final(diagnostics)@) == findings(old(diagnostics)@) + state_findings(
            *policy,
            *state,
        ),
{
    flag_value(
        diagnostics,
        policy,
        other_state_key(state),
        "request_defaults.state",
        "request_defaults.state must be empty or contain only 'events' or 'state'",
    )
}

/// Whether a value is no text, or a blank one.
pub open spec fn no_name(value: Json) -> bool {
    match value {
        Json::Text(text) => blank(text@),
        _ => true,
    }
}

/// The findings on the output variables.
pub open spec fn output_var_findings(
    policy: ConfigPolicy,
    output_vars: Option<Json>,
) -> Seq<DiagnosticView> {
    match output_vars {
        None => Seq::empty(),
        Some(Json::Bool(_)) => Seq::empty(),
        Some(Json::Array(values)) => entry_findings(
            policy,
            "request_defaults.output_vars"@,
            Seq::new(values@.len(), |i: int| no_name(values@[i])),
            "request_defaults.output_vars array entries must be non-empty strings"@,
        ),
        Some(_) => value_finding(
            policy,
            "request_defaults.output_vars"@,
            "request_defaults.output_vars must be a boolean or an array of strings"@,
        ),
    }
}

/// Which values are no texts, or blank ones.
fn nameless_entries(values: &Vec<Json>) -> (r: Vec<bool>)
    ensures
        r@ == Seq::new(values@.len(), |i: int| no_name(values@[i])),
{
    let mut r: Vec<bool> = Vec::new();
    let mut i: usize = 0;
    while i < values.len()
        invariant
            i <= values.len(),
            r.len() == i,
            forall|k: int| 0 <= k < i ==> r@[k] == no_name(#[trigger] values@[k]),
        decreases values.len() - i,
    {
        let bad = match &values[i] {
            Json::Text(text) => is_blank(text.as_str()),
            _ => true,
        };
        r.push(bad);
        i += 1;
    }
    assert(r@ =~= Seq::new(values@.len(), |i: int| no_name(values@[i])));
    r
}

/// Adds the findings on the output variables.
fn validate_output_vars(
    diagnostics: &mut Vec<ConfigDiagnostic>,
    policy: &ConfigPolicy,
    output_vars: &Option<Json>,
)
    ensures
        findings(final(diagnostics)@) == findings(old(diagnostics)@) + output_var_findings(
            *policy,
            *output_vars,
        ),
{
    match output_vars {
        Some(Json::Array(values)) => flag_entries(
            diagnostics,
            policy,
            "request_defaults.output_vars",
            &nameless_entries(values),
            "request_defaults.output_vars array entries must be non-empty strings",
        ),
        other => {
            let bad = match other {
                None => false,
                Some(Json::Bool(_)) => false,
                Some(_) => true,
            };
            flag_value(
                diagnostics,
                policy,
                bad,
                "request_defaults.output_vars",
                "request_defaults.output_vars must be a boolean or an array of strings",
            )
        },
    }
}

/// The findings on a rail selection.
pub open spec fn selector_findings(
    policy: ConfigPolicy,
    selector: Option<RailSelector>,
    field: Seq<char>,
) -> Seq<DiagnosticView> {
    match selector {
        Some(RailSelector::Named(names)) => entry_findings(
            policy,
            field,
            blanks(names@),
            "named rail selections must not contain empty strings"@,
        ),
        _ => Seq::empty(),
    }
}

/// Adds the findings on a rail selection.
fn validate_rail_selector(
    diagnostics: &mut Vec<ConfigDiagnostic>,
    policy: &ConfigPolicy,
    value: &Option<RailSelector>,
    field: &str,
)
    ensures
        findings(final(diagnostics)@) == findings(old(diagnostics)@) + selector_findings(
            *policy,
            *value,
            field@,
        ),
{
    match value {
        Some(RailSelector::Named(names)) => flag_entries(
            diagnostics,
            policy,
            field,
            &blank_entries(names),
            "named rail selections must not contain empty strings",
        ),
        _ => {
            assert(findings(diagnostics@) =~= findings(diagnostics@) + Seq::empty());
        },
    }
}

/// The findings on the rails of the request defaults.
pub open spec fn rail_findings(
    policy: ConfigPolicy,
    rails: Option<RequestRailsConfig>,
) -> Seq<DiagnosticView> {
    match rails {
        Some(rails) => selector_findings(policy, rails.input, "request_defaults.rails.input"@)
            + selector_findings(policy, rails.output, "request_defaults.rails.output"@)
            + selector_findings(policy, rails.retrieval, "request_defaults.rails.retrieval"@)
            + selector_findings(policy, rails.tool_output, "request_defaults.rails.tool_output"@)
            + selector_findings(policy, rails.tool_input, "request_defaults.rails.tool_input"@),
        None => Seq::empty(),
    }
}

/// Adds the findings on the rails of the request defaults.
#[verifier::spinoff_prover]
fn validate_request_rails(
    diagnostics: &mut Vec<ConfigDiagnostic>,
    policy: &ConfigPolicy,
    rails: &Option<RequestRailsConfig>,
)
    ensures
        findings(final(diagnostics)@) == findings(old(diagnostics)@) + rail_findings(
            *policy,
            *rails,
        ),
{
    let ghost start = findings(diagnostics@);
    match rails {
        Some(r) => {
            validate_rail_selector(diagnostics, policy, &r.input, "request_defaults.rails.input");
            validate_rail_selector(diagnostics, policy, &r.output, "request_defaults.rails.output");
            validate_rail_selector(
                diagnostics,
                policy,
                &r.retrieval,
                "request_defaults.rails.retrieval",
            );
            validate_rail_selector(
                diagnostics,
                policy,
                &r.tool_output,
                "request_defaults.rails.tool_output",
            );
            validate_rail_selector(
                diagnostics,
                policy,
                &r.tool_input,
                "request_defaults.rails.tool_input",
            );
        },
        None => {},
    }
    assert(findings(diagnostics@) =~= start + rail_findings(*policy, *rails));
}

/// The findings on the request defaults of a backend that takes them.
pub open spec fn default_value_findings(
    policy: ConfigPolicy,
    defaults: RequestDefaultsConfig,
) -> Seq<DiagnosticView> {
    object_findings(
        policy,
        defaults.context,
        "request_defaults.context"@,
        "request_defaults.context must be a JSON object"@,
    ) + thread_findings(policy, defaults.thread_id) + object_findings(
        policy,
        defaults.state,
        "request_defaults.state"@,
        "request_defaults.state must be a JSON object"@,
    ) + state_findings(policy, defaults.state) + object_findings(
        policy,
        defaults.llm_params,
        "request_defaults.llm_params"@,
        "request_defaults.llm_params must be a JSON object"@,
    ) + object_findings(
        policy,
        defaults.log,
        "request_defaults.log"@,
        "request_defaults.log must be a JSON object"@,
    ) + output_var_findings(policy, defaults.output_vars) + rail_findings(policy, defaults.rails)
}

/// The findings on the request defaults.
pub open spec fn request_default_findings(
    policy: ConfigPolicy,
    config: NeMoGuardrailsConfig,
) -> Seq<DiagnosticView> {
    match config.request_defaults {
        Some(defaults) => if config.mode@ == "local"@ {
            value_finding(
                policy,
                "request_defaults"@,
                "local mode does not currently support request_defaults"@,
            )
        } else {
            default_value_findings(policy, defaults)
        },
        None => Seq::empty(),
    }
}

/// Adds the findings on the request defaults of a backend that takes them.
#[verifier::spinoff_prover]
fn validate_default_values(
    diagnostics: &mut Vec<ConfigDiagnostic>,
    policy: &ConfigPolicy,
    request_defaults: &RequestDefaultsConfig,
)
    ensures
        findings(final(diagnostics)@) == findings(old(diagnostics)@) + default_value_findings(
            *policy,
            *request_defaults,
        ),
{
    let ghost start = findings(diagnostics@);
    let ghost a = object_findings(
        *policy,
        request_defaults.context,
        "request_defaults.context"@,
        "request_defaults.context must be a JSON object"@,
    );
    let ghost b = thread_findings(*policy, request_defaults.thread_id);
    let ghost c = object_findings(
        *policy,
        request_defaults.state,
        "request_defaults.state"@,
        "request_defaults.state must be a JSON object"@,
    );
    let ghost d = state_findings(*policy, request_defaults.state);
    let ghost e = object_findings(
        *policy,
        request_defaults.llm_params,
        "request_defaults.llm_params"@,
        "request_defaults.llm_params must be a JSON object"@,
    );
    let ghost f = object_findings(
        *policy,
        request_defaults.log,
        "request_defaults.log"@,
        "request_defaults.log must be a JSON object"@,
    );
    let ghost g = output_var_findings(*policy, request_defaults.output_vars);
    let ghost h = rail_findings(*policy, request_defaults.rails);
    validate_json_object_field(
        diagnostics,
        policy,
        &request_defaults.context,
        "request_defaults.context",
        "request_defaults.context must be a JSON object",
    );
    validate_request_thread_id(diagnostics, policy, &request_defaults.thread_id);
    validate_json_object_field(
        diagnostics,
        policy,
        &request_defaults.state,
        "request_defaults.state",
        "request_defaults.state must be a JSON object",
    );
    validate_request_state_keys(diagnostics, policy, &request_defaults.state);
    validate_json_object_field(
        diagnostics,
        policy,
        &request_defaults.llm_params,
        "request_defaults.llm_params",
        "request_defaults.llm_params must be a JSON object",
    );
    validate_json_object_field(
        diagnostics,
        policy,
        &request_defaults.log,
        "request_defaults.log",
        "request_defaults.log must be a JSON object",
    );
    validate_output_vars(diagnostics, policy, &request_defaults.output_vars);
    validate_request_rails(diagnostics, policy, &request_defaults.rails);
    proof {
        lemma_regroup(start, a, b);
        lemma_regroup(start, a + b, c);
        lemma_regroup(start, a + b + c, d);
        lemma_regroup(start, a + b + c + d, e);
        lemma_regroup(start, a + b + c + d + e, f);
        lemma_regroup(start, a + b + c + d + e + f, g);
        lemma_regroup(start, a + b + c + d + e + f + g, h);
    }
}

/// Adds the findings on the request defaults.
fn validate_request_defaults(
    diagnostics: &mut Vec<ConfigDiagnostic>,
    policy: &ConfigPolicy,
    config: &NeMoGuardrailsConfig,
)
    ensures
        findings(final(diagnostics)@) == findings(old(diagnostics)@) + request_default_findings(
            *policy,
            *config,
        ),
{
    match &config.request_defaults {
        Some(defaults) => {
            if text_eq(config.mode.as_str(), "local") {
                flag_value(
                    diagnostics,
                    policy,
                    true,
                    "request_defaults",
                    "local mode does not currently support request_defaults",
                )
            } else {
                validate_default_values(diagnostics, policy, defaults)
            }
        },
        None => {
            assert(findings(diagnostics@) =~= findings(diagnostics@) + Seq::empty());
        },
    }
}

/// The findings on the fields of a component configuration that are not known ones.
pub open spec fn field_findings(
    policy: ConfigPolicy,
    plugin_config: TextMap<Json>,
) -> Seq<DiagnosticView> {
    unknown_field_findings(
        policy,
        "nemo_guardrails"@,
        entry_keys(plugin_config.entries@),
        top_level_fields(),
    ) + section_findings(
        policy,
        "policy"@,
        section_of(plugin_config, "policy"@),
        policy_fields(),
    ) + section_findings(
        policy,
        "remote"@,
        section_of(plugin_config, "remote"@),
        remote_fields(),
    ) + section_findings(
        policy,
        "local"@,
        section_of(plugin_config, "local"@),
        local_fields(),
    ) + section_findings(
        policy,
        "request_defaults"@,
        section_of(plugin_config, "request_defaults"@),
        request_default_fields(),
    ) + section_findings(
        policy,
        "request_defaults.rails"@,
        rails_section(plugin_config),
        rail_fields(),
    )
}

/// The findings on the values of a configuration.
pub open spec fn setting_findings(
    policy: ConfigPolicy,
    config: NeMoGuardrailsConfig,
    codecs: Seq<Seq<char>>,
) -> Seq<DiagnosticView> {
    version_findings(policy, config.version) + mode_findings(policy, config.mode@) + text_findings(
        policy,
        config,
    ) + shape_findings(policy, config) + codec_findings(policy, config, codecs) + surface_findings(
        policy,
        config,
    ) + remote_support_findings(policy, config) + request_default_findings(policy, config)
}

/// The policy that a configuration is held to.
pub open spec fn held_policy(
    config: NeMoGuardrailsConfig,
    global: Option<ConfigPolicy>,
) -> ConfigPolicy {
    match global {
        Some(policy) => effective_policy(config.policy, policy),
        None => config.policy,
    }
}

/// Everything that is found on a component configuration: the deprecation, and then either that it
/// does not decode, or what its fields and values give.
pub open spec fn guardrails_findings(
    plugin_config: TextMap<Json>,
    decoded: Result<NeMoGuardrailsConfig, String>,
    global: Option<ConfigPolicy>,
    codecs: Seq<Seq<char>>,
) -> Seq<DiagnosticView> {
    match decoded {
        Err(shown) => seq![
            deprecation_finding(),
            DiagnosticView {
                level: DiagnosticLevel::Error,
                code: "nemo_guardrails.invalid_plugin_config"@,
                component: Some("nemo_guardrails"@),
                field: None,
                message: error_text(
                    (
                        PluginErrorKind::InvalidConfig,
                        "invalid NeMo Guardrails plugin config: "@ + shown@,
                    ),
                ),
            },
        ],
        Ok(config) => seq![deprecation_finding()] + field_findings(
            held_policy(config, global),
            plugin_config,
        ) + setting_findings(held_policy(config, global), config, codecs),
    }
}

/// Adds the findings on the fields of a component configuration.
#[verifier::spinoff_prover]
fn validate_fields(
    diagnostics: &mut Vec<ConfigDiagnostic>,
    policy: &ConfigPolicy,
    plugin_config: &TextMap<Json>,
)
    ensures
        findings(final(diagnostics)@) == findings(old(diagnostics)@) + field_findings(
            *policy,
            *plugin_config,
        ),
{
    let ghost start = findings(diagnostics@);
    validate_unknown_fields(
        diagnostics,
        policy,
        NEMO_GUARDRAILS_PLUGIN_KIND,
        plugin_config,
        &known_top_level_fields(),
    );
    validate_section_fields(diagnostics, policy, plugin_config, "policy", &known_policy_fields());
    validate_section_fields(diagnostics, policy, plugin_config, "remote", &known_remote_fields());
    validate_section_fields(diagnostics, policy, plugin_config, "local", &known_local_fields());
    validate_section_fields(
        diagnostics,
        policy,
        plugin_config,
        "request_defaults",
        &known_request_default_fields(),
    );
    validate_rails_section_fields(diagnostics, policy, plugin_config);
    assert(findings(diagnostics@) =~= start + field_findings(*policy, *plugin_config));
}

/// Adds the findings on the values of a configuration.
#[verifier::spinoff_prover]
fn validate_settings(
    diagnostics: &mut Vec<ConfigDiagnostic>,
    policy: &ConfigPolicy,
    config: &NeMoGuardrailsConfig,
    codecs: &Vec<String>,
)
    ensures
        findings(final(diagnostics)@) == findings(old(diagnostics)@) + setting_findings(
            *policy,
            *config,
            texts(codecs@),
        ),
{
    let ghost start = findings(diagnostics@);
    let ghost a = version_findings(*policy, config.version);
    let ghost b = mode_findings(*policy, config.mode@);
    let ghost c = text_findings(*policy, *config);
    let ghost d = shape_findings(*policy, *config);
    let ghost e = codec_findings(*policy, *config, texts(codecs@));
    let ghost f = surface_findings(*policy, *config);
    let ghost g = remote_support_findings(*policy, *config);
    let ghost h = request_default_findings(*policy, *config);
    validate_version(diagnostics, policy, config.version);
    validate_mode(diagnostics, policy, config.mode.as_str());
    validate_non_empty_strings(diagnostics, policy, config);
    validate_config_shape(diagnostics, policy, config);
    validate_codec_requirements(diagnostics, policy, config, codecs);
    validate_surface_selection(diagnostics, policy, config);
    validate_remote_backend_support(diagnostics, policy, config);
    validate_request_defaults(diagnostics, policy, config);
    proof {
        lemma_regroup(start, a, b);
        lemma_regroup(start, a + b, c);
        lemma_regroup(start, a + b + c, d);
        lemma_regroup(start, a + b + c + d, e);
        lemma_regroup(start, a + b + c + d + e, f);
        lemma_regroup(start, a + b + c + d + e + f, g);
        lemma_regroup(start, a + b + c + d + e + f + g, h);
    }
}

/// Validates a component configuration, given with what it decodes to.
///
/// Where a global policy is given, it goes before the component's own.
pub fn validate_nemo_guardrails_plugin_config_with_policy(
    plugin_config: &TextMap<Json>,
    decoded: &Result<NeMoGuardrailsConfig, String>,
    policy: Option<&ConfigPolicy>,
    codecs: &Vec<String>,
) -> (r: Vec<ConfigDiagnostic>)
    ensures
        findings(r@) == guardrails_findings(
            *plugin_config,
            *decoded,
            match policy {
                Some(p) => Some(*p),
                None => None,
            },
            texts(codecs@),
        ),
{
    let mut diagnostics: Vec<ConfigDiagnostic> = Vec::new();
    diagnostics.push(nemo_guardrails_deprecation_diagnostic());
    let config = match decoded {
        Ok(config) => config,
        Err(shown) => {
            diagnostics.push(
                ConfigDiagnostic {
                    level: DiagnosticLevel::Error,
                    code: "nemo_guardrails.invalid_plugin_config".to_owned(),
                    component: Some(NEMO_GUARDRAILS_PLUGIN_KIND.to_owned()),
                    field: None,
                    message: undecodable_guardrails_config(shown.as_str()).to_text(),
                },
            );
            assert(findings(diagnostics@) =~= guardrails_findings(
                *plugin_config,
                *decoded,
                None,
                texts(codecs@),
            ));
            return diagnostics;
        },
    };
    let held = match policy {
        Some(p) => apply_global_config_policy(config.policy, p),
        None => config.policy,
    };
    assert(findings(diagnostics@) =~= seq![deprecation_finding()]);
    validate_fields(&mut diagnostics, &held, plugin_config);
    validate_settings(&mut diagnostics, &held, config, codecs);
    diagnostics
}

/// Validates a component configuration under the component's own policy.
pub fn validate_nemo_guardrails_plugin_config(
    plugin_config: &TextMap<Json>,
    decoded: &Result<NeMoGuardrailsConfig, String>,
    codecs: &Vec<String>,
) -> (r: Vec<ConfigDiagnostic>)
    ensures
        findings(r@) == guardrails_findings(*plugin_config, *decoded, None, texts(codecs@)),
{
    validate_nemo_guardrails_plugin_config_with_policy(plugin_config, decoded, None, codecs)
}

/// Whatever a configuration is, the first finding on it is that the plugin is deprecated.
pub proof fn law_deprecation_is_always_reported(
    plugin_config: TextMap<Json>,
    decoded: Result<NeMoGuardrailsConfig, String>,
    global: Option<ConfigPolicy>,
    codecs: Seq<Seq<char>>,
)
    ensures
        guardrails_findings(plugin_config, decoded, global, codecs).len() >= 1,
        guardrails_findings(plugin_config, decoded, global, codecs)[0] == deprecation_finding(),
{
}

/// A policy that ignores unknown fields yields no finding on any.
proof fn lemma_ignored_fields(
    policy: ConfigPolicy,
    component: Seq<char>,
    keys: Seq<Seq<char>>,
    known: Seq<Seq<char>>,
)
    requires
        policy.unknown_field == UnsupportedBehavior::Ignore,
    ensures
        unknown_field_findings(policy, component, keys, known) == Seq::<DiagnosticView>::empty(),
    decreases keys.len(),
{
    if keys.len() > 0 {
        lemma_ignored_fields(policy, component, keys.drop_last(), known);
        assert(unknown_field_findings(policy, component, keys, known) =~= Seq::empty());
    }
}

/// A policy that ignores unsupported values yields no finding on the entries of a list.
proof fn lemma_ignored_entries(
    policy: ConfigPolicy,
    field: Seq<char>,
    bad: Seq<bool>,
    message: Seq<char>,
)
    requires
        policy.unsupported_value == UnsupportedBehavior::Ignore,
    ensures
        entry_findings(policy, field, bad, message) == Seq::<DiagnosticView>::empty(),
    decreases bad.len(),
{
    if bad.len() > 0 {
        lemma_ignored_entries(policy, field, bad.drop_last(), message);
        assert(entry_findings(policy, field, bad, message) =~= Seq::empty());
    }
}

/// A policy that ignores unsupported values yields no finding on a rail selection.
proof fn lemma_ignored_selector(
    policy: ConfigPolicy,
    selector: Option<RailSelector>,
    field: Seq<char>,
)
    requires
        policy.unsupported_value == UnsupportedBehavior::Ignore,
    ensures
        selector_findings(policy, selector, field) == Seq::<DiagnosticView>::empty(),
{
    match selector {
        Some(RailSelector::Named(names)) => {
            lemma_ignored_entries(
                policy,
                field,
                blanks(names@),
                "named rail selections must not contain empty strings"@,
            );
        },
        _ => {},
    }
}

/// A policy that ignores unsupported values yields no finding on the request defaults.
#[verifier::spinoff_prover]
proof fn lemma_ignored_defaults(policy: ConfigPolicy, config: NeMoGuardrailsConfig)
    requires
        policy.unsupported_value == UnsupportedBehavior::Ignore,
    ensures
        request_default_findings(policy, config) == Seq::<DiagnosticView>::empty(),
{
    match config.request_defaults {
        Some(defaults) => {
            match defaults.output_vars {
                Some(Json::Array(values)) => {
                    lemma_ignored_entries(
                        policy,
                        "request_defaults.output_vars"@,
                        Seq::new(values@.len(), |i: int| no_name(values@[i])),
                        "request_defaults.output_vars array entries must be non-empty strings"@,
                    );
                },
                _ => {},
            }
            match defaults.rails {
                Some(rails) => {
                    lemma_ignored_selector(policy, rails.input, "request_defaults.rails.input"@);
                    lemma_ignored_selector(policy, rails.output, "request_defaults.rails.output"@);
                    lemma_ignored_selector(
                        policy,
                        rails.retrieval,
                        "request_defaults.rails.retrieval"@,
                    );
                    lemma_ignored_selector(
                        policy,
                        rails.tool_output,
                        "request_defaults.rails.tool_output"@,
                    );
                    lemma_ignored_selector(
                        policy,
                        rails.tool_input,
                        "request_defaults.rails.tool_input"@,
                    );
                },
                None => {},
            }
            assert(rail_findings(policy, defaults.rails) =~= Seq::empty());
            assert(output_var_findings(policy, defaults.output_vars) =~= Seq::empty());
            assert(thread_findings(policy, defaults.thread_id) =~= Seq::empty());
            assert(default_value_findings(policy, defaults) =~= Seq::empty());
        },
        None => {},
    }
}

/// Under a policy that ignores unknown fields and unsupported values, nothing but the deprecation is
/// reported on a configuration that decodes.
#[verifier::spinoff_prover]
pub proof fn law_ignoring_policy_reports_only_the_deprecation(
    plugin_config: TextMap<Json>,
    config: NeMoGuardrailsConfig,
    global: Option<ConfigPolicy>,
    codecs: Seq<Seq<char>>,
)
    requires
        held_policy(config, global).unknown_field == UnsupportedBehavior::Ignore,
        held_policy(config, global).unsupported_value == UnsupportedBehavior::Ignore,
    ensures
        guardrails_findings(plugin_config, Ok(config), global, codecs) == seq![
            deprecation_finding(),
        ],
{
    let policy = held_policy(config, global);
    let none = Seq::<DiagnosticView>::empty();
    lemma_ignored_fields(
        policy,
        "nemo_guardrails"@,
        entry_keys(plugin_config.entries@),
        top_level_fields(),
    );
    lemma_ignored_section(
        policy,
        "policy"@,
        section_of(plugin_config, "policy"@),
        policy_fields(),
    );
    lemma_ignored_section(
        policy,
        "remote"@,
        section_of(plugin_config, "remote"@),
        remote_fields(),
    );
    lemma_ignored_section(policy, "local"@, section_of(plugin_config, "local"@), local_fields());
    lemma_ignored_section(
        policy,
        "request_defaults"@,
        section_of(plugin_config, "request_defaults"@),
        request_default_fields(),
    );
    lemma_ignored_section(
        policy,
        "request_defaults.rails"@,
        rails_section(plugin_config),
        rail_fields(),
    );
    assert(field_findings(policy, plugin_config) =~= none);
    lemma_ignored_defaults(policy, config);
    lemma_ignored_texts(policy, config);
    assert(shape_findings(policy, config) =~= none);
    assert(setting_findings(policy, config, codecs) =~= none);
    assert(guardrails_findings(plugin_config, Ok(config), global, codecs) =~= seq![
        deprecation_finding(),
    ]);
}

/// A policy that ignores unknown fields yields no finding on a section.
proof fn lemma_ignored_section(
    policy: ConfigPolicy,
    component: Seq<char>,
    section: Option<TextMap<Json>>,
    known: Seq<Seq<char>>,
)
    requires
        policy.unknown_field == UnsupportedBehavior::Ignore,
    ensures
        section_findings(policy, component, section, known) == Seq::<DiagnosticView>::empty(),
{
    match section {
        Some(object) => lemma_ignored_fields(
            policy,
            component,
            entry_keys(object.entries@),
            known,
        ),
        None => {},
    }
}

/// A policy that ignores unsupported values yields no finding on blank texts.
proof fn lemma_ignored_texts(policy: ConfigPolicy, config: NeMoGuardrailsConfig)
    requires
        policy.unsupported_value == UnsupportedBehavior::Ignore,
    ensures
        text_findings(policy, config) == Seq::<DiagnosticView>::empty(),
{
    match config.remote {
        Some(remote) => {
            lemma_ignored_entries(
                policy,
                "remote.config_ids"@,
                blanks(remote.config_ids@),
                "remote.config_ids entries must not be empty"@,
            );
            assert(remote_blank_findings(policy, remote) =~= Seq::empty());
        },
        None => {},
    }
    match config.local {
        Some(local) => {
            assert(local_blank_findings(policy, local) =~= Seq::empty());
        },
        None => {},
    }
    assert(text_findings(policy, config) =~= Seq::empty());
}

/// Whether a configuration has what the remote backend needs and nothing that it does not take.
pub open spec fn remote_ready(config: NeMoGuardrailsConfig, codecs: Seq<Seq<char>>) -> bool {
    &&& config.version == 1
    &&& config.mode@ == "remote"@
    &&& config.config_path is None && config.config_yaml is None && config.colang_content is None
    &&& config.local is None
    &&& config.request_defaults is None
    &&& has_endpoint(config)
    &&& config.remote->0.config_id is Some
    &&& !blank(config.remote->0.config_id->0@)
    &&& config.remote->0.config_ids@.len() == 0
    &&& config.codec is Some && config.codec->0@ == "openai_chat"@
    &&& codecs.contains("openai_chat"@)
    &&& !config.tool_input
    &&& config.input || config.output || config.tool_output
}

/// A configuration that is ready for the remote backend has no finding on its values.
pub proof fn law_ready_remote_configuration_is_accepted(
    policy: ConfigPolicy,
    config: NeMoGuardrailsConfig,
    codecs: Seq<Seq<char>>,
)
    requires
        remote_ready(config, codecs),
    ensures
        setting_findings(policy, config, codecs) == Seq::<DiagnosticView>::empty(),
{
    let none = Seq::<DiagnosticView>::empty();
    reveal_strlit("local");
    reveal_strlit("remote");
    assert("local"@.len() != "remote"@.len());
    assert(blanks(config.remote->0.config_ids@) =~= seq![]);
    assert(remote_blank_findings(policy, config.remote->0) =~= none);
    assert(text_findings(policy, config) =~= none);
    assert(remote_shape_findings(policy, config) =~= none);
    assert(remote_support_findings(policy, config) =~= none);
    assert(setting_findings(policy, config, codecs) =~= none);
}

/// Whether a configuration has what the local backend needs and nothing that it does not take.
pub open spec fn local_ready(config: NeMoGuardrailsConfig, codecs: Seq<Seq<char>>) -> bool {
    &&& config.version == 1
    &&& config.mode@ == "local"@
    &&& config.config_path is Some && !blank(config.config_path->0@)
    &&& config.config_yaml is None && config.colang_content is None
    &&& config.remote is None
    &&& config.local is None
    &&& config.request_defaults is None
    &&& config.codec is Some && codecs.contains(config.codec->0@)
    &&& config.input || config.output || config.tool_input || config.tool_output
}

/// A configuration that is ready for the local backend has no finding on its values.
pub proof fn law_ready_local_configuration_is_accepted(
    policy: ConfigPolicy,
    config: NeMoGuardrailsConfig,
    codecs: Seq<Seq<char>>,
)
    requires
        local_ready(config, codecs),
    ensures
        setting_findings(policy, config, codecs) == Seq::<DiagnosticView>::empty(),
{
    let none = Seq::<DiagnosticView>::empty();
    reveal_strlit("local");
    reveal_strlit("remote");
    assert("local"@.len() != "remote"@.len());
    assert(text_findings(policy, config) =~= none);
    assert(local_shape_findings(policy, config) =~= none);
    assert(remote_support_findings(policy, config) =~= none);
    assert(setting_findings(policy, config, codecs) =~= none);
}

/// The finding on a component of this kind, as a reader of the report sees it.
pub open spec fn told_finding(
    level: DiagnosticLevel,
    code: Seq<char>,
    field: Option<Seq<char>>,
    message: Seq<char>,
) -> DiagnosticView {
    DiagnosticView { level, code, component: Some("nemo_guardrails"@), field, message }
}

/// A finding is told at the level that the policy asks for.
pub proof fn law_findings_are_told_at_the_asked_level(
    policy: ConfigPolicy,
    level: DiagnosticLevel,
    code: Seq<char>,
    field: Option<Seq<char>>,
    message: Seq<char>,
)
    requires
        behavior_level(policy.unsupported_value) == Some(level),
    ensures
        finding(policy, code, field, message) == seq![told_finding(level, code, field, message)],
        field is Some ==> value_finding(policy, field->0, message) == seq![
            told_finding(level, "nemo_guardrails.unsupported_value"@, field, message),
        ],
        source_finding(policy, message) == seq![
            told_finding(level, "nemo_guardrails.invalid_config_source"@, None, message),
        ],
        (when(true, seq![told_finding(level, code, field, message)])).len() == 1,
        (when(false, seq![told_finding(level, code, field, message)])).len() == 0,
        deprecation_finding() == told_finding(
            DiagnosticLevel::Warning,
            "nemo_guardrails.deprecated"@,
            None,
            "the built-in `nemo_guardrails` plugin is deprecated and scheduled for removal in NeMo Relay 0.9"@,
        ),
{
}

/// Every field that is not known is reported under its name, in order, and no other.
pub proof fn law_unknown_fields_are_reported(
    policy: ConfigPolicy,
    level: DiagnosticLevel,
    component: Seq<char>,
    keys: Seq<Seq<char>>,
    key: Seq<char>,
    known: Seq<Seq<char>>,
)
    requires
        behavior_level(policy.unknown_field) == Some(level),
    ensures
        unknown_field_findings(policy, component, Seq::empty(), known)
            == Seq::<DiagnosticView>::empty(),
        known.contains(key) ==> unknown_field_findings(policy, component, keys.push(key), known)
            == unknown_field_findings(policy, component, keys, known),
        !known.contains(key) ==> unknown_field_findings(policy, component, keys.push(key), known)
            == unknown_field_findings(policy, component, keys, known).push(
            DiagnosticView {
                level,
                code: "nemo_guardrails.unknown_field"@,
                component: Some(component),
                field: Some(key),
                message: "field '"@ + key + "' is not recognized for '"@ + component + "'"@,
            },
        ),
{
    assert(keys.push(key).drop_last() =~= keys);
}

/// The fields that each section may have.
pub proof fn law_known_fields_are_listed(name: Seq<char>)
    ensures
        top_level_fields().contains(name) <==> name == "version"@ || name == "mode"@ || name
            == "config_path"@ || name == "config_yaml"@ || name == "colang_content"@ || name
            == "codec"@ || name == "input"@ || name == "output"@ || name == "tool_input"@ || name
            == "tool_output"@ || name == "priority"@ || name == "remote"@ || name == "local"@
            || name == "request_defaults"@ || name == "policy"@,
        policy_fields().contains(name) <==> name == "unknown_component"@ || name == "unknown_field"@
            || name == "unsupported_value"@,
        remote_fields().contains(name) <==> name == "endpoint"@ || name == "config_id"@ || name
            == "config_ids"@ || name == "headers"@ || name == "timeout_millis"@,
        local_fields().contains(name) <==> name == "python_module"@ || name == "python_executable"@
            || name == "python_path"@,
        request_default_fields().contains(name) <==> name == "context"@ || name == "thread_id"@
            || name == "state"@ || name == "rails"@ || name == "llm_params"@ || name
            == "llm_output"@ || name == "output_vars"@ || name == "log"@,
        rail_fields().contains(name) <==> name == "input"@ || name == "output"@ || name
            == "retrieval"@ || name == "dialog"@ || name == "tool_output"@ || name == "tool_input"@,
{
    let t = top_level_fields();
    assert(t[0] == "version"@ && t[1] == "mode"@ && t[2] == "config_path"@ && t[3]
        == "config_yaml"@ && t[4] == "colang_content"@ && t[5] == "codec"@ && t[6] == "input"@
        && t[7] == "output"@ && t[8] == "tool_input"@ && t[9] == "tool_output"@ && t[10]
        == "priority"@ && t[11] == "remote"@ && t[12] == "local"@ && t[13] == "request_defaults"@
        && t[14] == "policy"@ && t.len() == 15);
    let p = policy_fields();
    assert(p[0] == "unknown_component"@ && p[1] == "unknown_field"@ && p[2] == "unsupported_value"@
        && p.len() == 3);
    let r = remote_fields();
    assert(r[0] == "endpoint"@ && r[1] == "config_id"@ && r[2] == "config_ids"@ && r[3]
        == "headers"@ && r[4] == "timeout_millis"@ && r.len() == 5);
    let l = local_fields();
    assert(l[0] == "python_module"@ && l[1] == "python_executable"@ && l[2] == "python_path"@
        && l.len() == 3);
    let d = request_default_fields();
    assert(d[0] == "context"@ && d[1] == "thread_id"@ && d[2] == "state"@ && d[3] == "rails"@
        && d[4] == "llm_params"@ && d[5] == "llm_output"@ && d[6] == "output_vars"@ && d[7]
        == "log"@ && d.len() == 8);
    let x = rail_fields();
    assert(x[0] == "input"@ && x[1] == "output"@ && x[2] == "retrieval"@ && x[3] == "dialog"@
        && x[4] == "tool_output"@ && x[5] == "tool_input"@ && x.len() == 6);
}

/// A section is the object under its name; the rails are one inside the request defaults.
pub proof fn law_sections_are_objects(
    config: TextMap<Json>,
    name: Seq<char>,
    object: TextMap<Json>,
    defaults: TextMap<Json>,
)
    ensures
        section_of(config, name) == Some(object) <==> config@.contains_key(name) && config@[name]
            == Json::Object(object),
        section_of(config, "request_defaults"@) == Some(defaults) ==> rails_section(config)
            == section_of(defaults, "rails"@),
        section_of(config, "request_defaults"@) is None ==> rails_section(config) is None,
{
}

/// The fields of a configuration are known exactly where those of every section are.
pub proof fn law_fields_are_known_in_every_section(
    policy: ConfigPolicy,
    plugin_config: TextMap<Json>,
)
    requires
        policy.unknown_field != UnsupportedBehavior::Ignore,
    ensures
        field_findings(policy, plugin_config).len() == 0 <==> {
            &&& all_known(entry_keys(plugin_config.entries@), top_level_fields())
            &&& section_of(plugin_config, "policy"@) matches Some(o) ==> all_known(
                entry_keys(o.entries@),
                policy_fields(),
            )
            &&& section_of(plugin_config, "remote"@) matches Some(o) ==> all_known(
                entry_keys(o.entries@),
                remote_fields(),
            )
            &&& section_of(plugin_config, "local"@) matches Some(o) ==> all_known(
                entry_keys(o.entries@),
                local_fields(),
            )
            &&& section_of(plugin_config, "request_defaults"@) matches Some(o) ==> all_known(
                entry_keys(o.entries@),
                request_default_fields(),
            )
            &&& rails_section(plugin_config) matches Some(o) ==> all_known(
                entry_keys(o.entries@),
                rail_fields(),
            )
        },
{
    lemma_known_fields(
        policy,
        "nemo_guardrails"@,
        entry_keys(plugin_config.entries@),
        top_level_fields(),
    );
    lemma_known_section(policy, "policy"@, section_of(plugin_config, "policy"@), policy_fields());
    lemma_known_section(policy, "remote"@, section_of(plugin_config, "remote"@), remote_fields());
    lemma_known_section(policy, "local"@, section_of(plugin_config, "local"@), local_fields());
    lemma_known_section(
        policy,
        "request_defaults"@,
        section_of(plugin_config, "request_defaults"@),
        request_default_fields(),
    );
    lemma_known_section(
        policy,
        "request_defaults.rails"@,
        rails_section(plugin_config),
        rail_fields(),
    );
}

/// Whether every key is one of those that are known.
pub open spec fn all_known(keys: Seq<Seq<char>>, known: Seq<Seq<char>>) -> bool {
    forall|i: int| 0 <= i < keys.len() ==> known.contains(#[trigger] keys[i])
}

/// Nothing is reported exactly where every key is known.
proof fn lemma_known_fields(
    policy: ConfigPolicy,
    component: Seq<char>,
    keys: Seq<Seq<char>>,
    known: Seq<Seq<char>>,
)
    requires
        policy.unknown_field != UnsupportedBehavior::Ignore,
    ensures
        unknown_field_findings(policy, component, keys, known).len() == 0 <==> all_known(keys, known),
    decreases keys.len(),
{
    if keys.len() > 0 {
        let rest = keys.drop_last();
        lemma_known_fields(policy, component, rest, known);
        if all_known(rest, known) && known.contains(keys.last()) {
            assert forall|i: int| 0 <= i < keys.len() implies known.contains(
                #[trigger] keys[i],
            ) by {
                if i < rest.len() {
                    assert(rest[i] == keys[i]);
                }
            }
        }
        if all_known(keys, known) {
            assert forall|i: int| 0 <= i < rest.len() implies known.contains(
                #[trigger] rest[i],
            ) by {
                assert(rest[i] == keys[i]);
            }
            assert(known.contains(keys[keys.len() - 1]));
        }
    }
}

/// Nothing is reported on a section that is absent or has known keys alone.
proof fn lemma_known_section(
    policy: ConfigPolicy,
    component: Seq<char>,
    section: Option<TextMap<Json>>,
    known: Seq<Seq<char>>,
)
    requires
        policy.unknown_field != UnsupportedBehavior::Ignore,
    ensures
        section_findings(policy, component, section, known).len() == 0 <==> (section matches Some(o)
            ==> all_known(entry_keys(o.entries@), known)),
{
    match section {
        Some(o) => lemma_known_fields(policy, component, entry_keys(o.entries@), known),
        None => {},
    }
}

/// Bad entries of a list are reported under their number.
pub proof fn law_bad_entries_are_numbered(
    policy: ConfigPolicy,
    level: DiagnosticLevel,
    field: Seq<char>,
    bad: Seq<bool>,
    message: Seq<char>,
    items: Seq<String>,
    i: int,
)
    requires
        behavior_level(policy.unsupported_value) == Some(level),
    ensures
        entry_findings(policy, field, Seq::empty(), message) == Seq::<DiagnosticView>::empty(),
        entry_findings(policy, field, bad.push(false), message) == entry_findings(
            policy,
            field,
            bad,
            message,
        ),
        entry_findings(policy, field, bad.push(true), message) == entry_findings(
            policy,
            field,
            bad,
            message,
        ).push(
            told_finding(
                level,
                "nemo_guardrails.unsupported_value"@,
                Some(field + "["@ + decimal(bad.len()) + "]"@),
                message,
            ),
        ),
        blanks(items).len() == items.len(),
        0 <= i < items.len() ==> blanks(items)[i] == blank(items[i]@),
{
    assert(bad.push(false).drop_last() =~= bad);
    assert(bad.push(true).drop_last() =~= bad);
}

/// A setting that is given is not blank.
pub open spec fn filled_if_given(value: Option<String>) -> bool {
    value matches Some(text) ==> !blank(text@)
}

/// No entry of a list is blank.
pub open spec fn all_filled(items: Seq<String>) -> bool {
    forall|i: int| 0 <= i < items.len() ==> !blank((#[trigger] items[i])@)
}

/// Nothing is reported on a list exactly where no entry is bad.
proof fn lemma_good_entries(
    policy: ConfigPolicy,
    field: Seq<char>,
    bad: Seq<bool>,
    message: Seq<char>,
)
    requires
        policy.unsupported_value != UnsupportedBehavior::Ignore,
    ensures
        entry_findings(policy, field, bad, message).len() == 0 <==> forall|i: int|
            0 <= i < bad.len() ==> !(#[trigger] bad[i]),
    decreases bad.len(),
{
    if bad.len() > 0 {
        let rest = bad.drop_last();
        lemma_good_entries(policy, field, rest, message);
        if forall|i: int| 0 <= i < bad.len() ==> !(#[trigger] bad[i]) {
            assert forall|i: int| 0 <= i < rest.len() implies !(#[trigger] rest[i]) by {
                assert(rest[i] == bad[i]);
            }
            assert(!bad[bad.len() - 1]);
        }
        if (forall|i: int| 0 <= i < rest.len() ==> !(#[trigger] rest[i])) && !bad.last() {
            assert forall|i: int| 0 <= i < bad.len() implies !(#[trigger] bad[i]) by {
                if i < rest.len() {
                    assert(rest[i] == bad[i]);
                }
            }
        }
    }
}

/// Nothing is reported on a list of texts exactly where none is blank.
proof fn lemma_filled_entries(
    policy: ConfigPolicy,
    field: Seq<char>,
    items: Seq<String>,
    message: Seq<char>,
)
    requires
        policy.unsupported_value != UnsupportedBehavior::Ignore,
    ensures
        entry_findings(policy, field, blanks(items), message).len() == 0 <==> all_filled(items),
{
    lemma_good_entries(policy, field, blanks(items), message);
    let bad = blanks(items);
    if forall|i: int| 0 <= i < bad.len() ==> !(#[trigger] bad[i]) {
        assert forall|i: int| 0 <= i < items.len() implies !blank((#[trigger] items[i])@) by {
            assert(!bad[i]);
        }
    }
    if all_filled(items) {
        assert forall|i: int| 0 <= i < bad.len() implies !(#[trigger] bad[i]) by {
            assert(!blank(items[i]@));
        }
    }
}

/// Texts are accepted exactly where none that is given is blank.
pub proof fn law_given_texts_are_filled(policy: ConfigPolicy, config: NeMoGuardrailsConfig)
    requires
        policy.unsupported_value != UnsupportedBehavior::Ignore,
    ensures
        text_findings(policy, config).len() == 0 <==> {
            &&& filled_if_given(config.config_path)
            &&& filled_if_given(config.config_yaml)
            &&& filled_if_given(config.colang_content)
            &&& config.remote matches Some(remote) ==> filled_if_given(remote.endpoint)
                && filled_if_given(remote.config_id) && all_filled(remote.config_ids@)
            &&& config.local matches Some(local) ==> filled_if_given(local.python_module)
                && filled_if_given(local.python_executable) && filled_if_given(local.python_path)
        },
{
    match config.remote {
        Some(remote) => {
            lemma_filled_entries(
                policy,
                "remote.config_ids"@,
                remote.config_ids@,
                "remote.config_ids entries must not be empty"@,
            );
        },
        None => {},
    }
}

/// A blank text is reported under its field.
pub proof fn law_blank_texts_are_reported(
    policy: ConfigPolicy,
    level: DiagnosticLevel,
    field: Seq<char>,
    message: Seq<char>,
    text: String,
    config: NeMoGuardrailsConfig,
)
    requires
        behavior_level(policy.unsupported_value) == Some(level),
    ensures
        blank(text@) ==> blank_findings(policy, field, Some(text), message) == seq![
            told_finding(level, "nemo_guardrails.unsupported_value"@, Some(field), message),
        ],
        !filled_if_given(config.config_path) ==> text_findings(policy, config).contains(
            told_finding(
                level,
                "nemo_guardrails.unsupported_value"@,
                Some("config_path"@),
                "config_path must not be empty"@,
            ),
        ),
        !filled_if_given(config.config_yaml) ==> text_findings(policy, config).contains(
            told_finding(
                level,
                "nemo_guardrails.unsupported_value"@,
                Some("config_yaml"@),
                "config_yaml must not be empty"@,
            ),
        ),
        !filled_if_given(config.colang_content) ==> text_findings(policy, config).contains(
            told_finding(
                level,
                "nemo_guardrails.unsupported_value"@,
                Some("colang_content"@),
                "colang_content must not be empty"@,
            ),
        ),
{
    let path = blank_findings(
        policy,
        "config_path"@,
        config.config_path,
        "config_path must not be empty"@,
    );
    let yaml = blank_findings(
        policy,
        "config_yaml"@,
        config.config_yaml,
        "config_yaml must not be empty"@,
    );
    let colang = blank_findings(
        policy,
        "colang_content"@,
        config.colang_content,
        "colang_content must not be empty"@,
    );
    let all = text_findings(policy, config);
    if path.len() > 0 {
        assert(all[0] == path[0]);
    }
    if yaml.len() > 0 {
        assert(all[path.len() as int] == yaml[0]);
    }
    if colang.len() > 0 {
        assert(all[(path.len() + yaml.len()) as int] == colang[0]);
    }
}

/// Version 1 and the two modes are accepted, and nothing else.
pub proof fn law_versions_and_modes_are_checked(
    policy: ConfigPolicy,
    level: DiagnosticLevel,
    version: u32,
    mode: Seq<char>,
)
    requires
        behavior_level(policy.unsupported_value) == Some(level),
    ensures
        version_findings(policy, 1).len() == 0,
        version != 1 ==> version_findings(policy, version) == seq![
            told_finding(
                level,
                "nemo_guardrails.unsupported_config_version"@,
                Some("version"@),
                "NeMo Guardrails config version "@ + decimal(version as nat) + " is unsupported"@,
            ),
        ],
        mode_findings(policy, "remote"@).len() == 0,
        mode_findings(policy, "local"@).len() == 0,
        mode != "remote"@ && mode != "local"@ ==> mode_findings(policy, mode) == seq![
            told_finding(
                level,
                "nemo_guardrails.unsupported_value"@,
                Some("mode"@),
                "mode must be 'remote' or 'local'"@,
            ),
        ],
{
}

/// In local mode exactly one configuration source is given, Colang content only with inline YAML, and
/// no remote settings.
pub proof fn law_local_shapes_are_checked(policy: ConfigPolicy, config: NeMoGuardrailsConfig)
    requires
        policy.unsupported_value != UnsupportedBehavior::Ignore,
        config.mode@ == "local"@,
    ensures
        shape_findings(policy, config).len() == 0 <==> {
            &&& config.config_path is Some && config.config_yaml is None || config.config_path
                is None && config.config_yaml is Some
            &&& config.colang_content is Some ==> config.config_yaml is Some
            &&& config.remote is None
        },
{
    reveal_strlit("local");
    reveal_strlit("remote");
    assert("local"@.len() != "remote"@.len());
}

/// In remote mode there is no local source and no local settings, an endpoint is given, and the
/// configuration is named in one of the two ways.
pub proof fn law_remote_shapes_are_checked(policy: ConfigPolicy, config: NeMoGuardrailsConfig)
    requires
        policy.unsupported_value != UnsupportedBehavior::Ignore,
        config.mode@ == "remote"@,
    ensures
        shape_findings(policy, config).len() == 0 <==> {
            &&& config.config_path is None && config.config_yaml is None && config.colang_content
                is None
            &&& config.local is None
            &&& config.remote is Some
            &&& config.remote->0.endpoint is Some && !blank(config.remote->0.endpoint->0@)
            &&& config.remote->0.config_id is Some && config.remote->0.config_ids@.len() == 0
                || config.remote->0.config_id is None && config.remote->0.config_ids@.len() > 0
        },
{
    reveal_strlit("local");
    reveal_strlit("remote");
    assert("local"@.len() != "remote"@.len());
}

/// In a mode that is neither, nothing is asked of the shape.
pub proof fn law_unknown_modes_have_no_shape(policy: ConfigPolicy, config: NeMoGuardrailsConfig)
    requires
        config.mode@ != "local"@,
        config.mode@ != "remote"@,
    ensures
        shape_findings(policy, config).len() == 0,
{
}

/// What is told where the shape is wrong.
pub proof fn law_wrong_shapes_are_told(
    policy: ConfigPolicy,
    level: DiagnosticLevel,
    config: NeMoGuardrailsConfig,
)
    requires
        behavior_level(policy.unsupported_value) == Some(level),
    ensures
        (config.config_path is Some) == (config.config_yaml is Some) ==> local_shape_findings(
            policy,
            config,
        ).contains(
            told_finding(
                level,
                "nemo_guardrails.invalid_config_source"@,
                None,
                "exactly one of config_path or config_yaml is required in local mode"@,
            ),
        ),
        config.remote is Some ==> local_shape_findings(policy, config).contains(
            told_finding(
                level,
                "nemo_guardrails.unsupported_value"@,
                Some("remote"@),
                "remote backend settings cannot be used when mode is 'local'"@,
            ),
        ),
        config.colang_content is Some && config.config_yaml is None ==> local_shape_findings(
            policy,
            config,
        ).contains(
            told_finding(
                level,
                "nemo_guardrails.unsupported_value"@,
                Some("colang_content"@),
                "colang_content can only be used with config_yaml"@,
            ),
        ),
        config.config_path is Some || config.config_yaml is Some || config.colang_content is Some
            ==> remote_shape_findings(policy, config).contains(
            told_finding(
                level,
                "nemo_guardrails.invalid_config_source"@,
                None,
                "remote mode uses remote config identity and cannot include config_path, config_yaml, or colang_content"@,
            ),
        ),
        config.local is Some ==> remote_shape_findings(policy, config).contains(
            told_finding(
                level,
                "nemo_guardrails.unsupported_value"@,
                Some("local"@),
                "local backend settings cannot be used when mode is 'remote'"@,
            ),
        ),
        config.remote is None ==> remote_shape_findings(policy, config).contains(
            told_finding(
                level,
                "nemo_guardrails.unsupported_value"@,
                Some("remote.endpoint"@),
                "remote.endpoint is required when mode is 'remote'"@,
            ),
        ),
        config.remote is Some && config.remote->0.config_id is Some
            && config.remote->0.config_ids@.len() > 0 ==> remote_shape_findings(
            policy,
            config,
        ).contains(
            told_finding(
                level,
                "nemo_guardrails.unsupported_value"@,
                Some("remote"@),
                "remote.config_id and remote.config_ids cannot be used together"@,
            ),
        ),
        config.remote is None ==> remote_shape_findings(policy, config).contains(
            told_finding(
                level,
                "nemo_guardrails.invalid_config_source"@,
                None,
                "remote mode requires remote.config_id or remote.config_ids"@,
            ),
        ),
{
    let local = local_shape_findings(policy, config);
    let l1: int = if (config.config_path is Some) == (config.config_yaml is Some) {
        1
    } else {
        0
    };
    let l2: int = if config.colang_content is Some && config.config_yaml is None {
        1
    } else {
        0
    };
    if l1 == 1 {
        assert(local[0].message
            == "exactly one of config_path or config_yaml is required in local mode"@);
    }
    if l2 == 1 {
        assert(local[l1].message == "colang_content can only be used with config_yaml"@);
    }
    if config.remote is Some {
        assert(local[l1 + l2].message
            == "remote backend settings cannot be used when mode is 'local'"@);
    }
    let remote = remote_shape_findings(policy, config);
    let r1: int = if config.config_path is Some || config.config_yaml is Some
        || config.colang_content is Some {
        1
    } else {
        0
    };
    let r2: int = if config.local is Some {
        1
    } else {
        0
    };
    let r3: int = if !has_endpoint(config) {
        1
    } else {
        0
    };
    if r1 == 1 {
        assert(remote[0].message
            == "remote mode uses remote config identity and cannot include config_path, config_yaml, or colang_content"@);
    }
    if r2 == 1 {
        assert(remote[r1].message == "local backend settings cannot be used when mode is 'remote'"@);
    }
    if config.remote is None {
        assert(remote[r1 + r2].message == "remote.endpoint is required when mode is 'remote'"@);
        assert(remote[r1 + r2 + r3].message
            == "remote mode requires remote.config_id or remote.config_ids"@);
    }
    if names_one_config(config) && names_configs(config) {
        assert(remote[r1 + r2 + r3].message
            == "remote.config_id and remote.config_ids cannot be used together"@);
    }
}

/// LLM surfaces need a codec of those that are registered; at least one surface is enabled.
pub proof fn law_codecs_and_surfaces_are_checked(
    policy: ConfigPolicy,
    level: DiagnosticLevel,
    config: NeMoGuardrailsConfig,
    codecs: Seq<Seq<char>>,
)
    requires
        behavior_level(policy.unsupported_value) == Some(level),
    ensures
        codec_findings(policy, config, codecs).len() == 0 <==> !config.input && !config.output
            || config.codec is Some && codecs.contains(config.codec->0@),
        (config.input || config.output) && config.codec is None ==> codec_findings(
            policy,
            config,
            codecs,
        ) == seq![
            told_finding(
                level,
                "nemo_guardrails.unsupported_value"@,
                Some("codec"@),
                "codec is required when any LLM surface is enabled"@,
            ),
        ],
        (config.input || config.output) && config.codec is Some && !codecs.contains(
            config.codec->0@,
        ) ==> codec_findings(policy, config, codecs) == seq![
            told_finding(
                level,
                "nemo_guardrails.unsupported_value"@,
                Some("codec"@),
                "codec must be one of: "@ + joined(codecs, ", "@),
            ),
        ],
        surface_findings(policy, config).len() == 0 <==> config.input || config.output
            || config.tool_input || config.tool_output,
        !config.input && !config.output && !config.tool_input && !config.tool_output
            ==> surface_findings(policy, config) == seq![
            told_finding(
                level,
                "nemo_guardrails.unsupported_value"@,
                None,
                "at least one Guardrails surface must be enabled"@,
            ),
        ],
        remote_support_findings(policy, config).len() == 0 <==> config.mode@ != "remote"@ || (
        !config.tool_input && ((config.input || config.output) && config.codec is Some
            ==> config.codec->0@ == "openai_chat"@)),
        config.mode@ == "remote"@ && config.tool_input ==> remote_support_findings(
            policy,
            config,
        ).last() == told_finding(
            level,
            "nemo_guardrails.unsupported_value"@,
            Some("tool_input"@),
            "remote mode does not currently support managed tool_input against the stock Guardrails remote contract"@,
        ),
        config.mode@ == "remote"@ && (config.input || config.output) && config.codec is Some
            && config.codec->0@ != "openai_chat"@ ==> remote_support_findings(policy, config)[0]
            == told_finding(
            level,
            "nemo_guardrails.unsupported_value"@,
            Some("codec"@),
            "remote mode currently supports only codec = 'openai_chat'"@,
        ),
{
}

/// A value is absent or an object.
pub open spec fn object_if_given(value: Option<Json>) -> bool {
    value matches Some(v) ==> v is Object
}

/// A rail selection is absent, a switch, or a list of names.
pub open spec fn names_if_given(selector: Option<RailSelector>) -> bool {
    selector matches Some(RailSelector::Named(names)) ==> all_filled(names@)
}

/// Request defaults: a thread is at least 16 bytes long, the state has the two known keys alone, and
/// output variables are a switch or a list of names.
pub proof fn law_default_values_are_checked(
    policy: ConfigPolicy,
    level: DiagnosticLevel,
    id: String,
    object: TextMap<Json>,
    values: Vec<Json>,
    value: Json,
    field: Seq<char>,
    message: Seq<char>,
)
    requires
        behavior_level(policy.unsupported_value) == Some(level),
    ensures
        object_findings(policy, None, field, message).len() == 0,
        object_findings(policy, Some(value), field, message).len() == 0 <==> value is Object,
        !(value is Object) ==> object_findings(policy, Some(value), field, message) == seq![
            told_finding(level, "nemo_guardrails.unsupported_value"@, Some(field), message),
        ],
        thread_findings(policy, None).len() == 0,
        thread_findings(policy, Some(id)).len() == 0 <==> !blank(id@) && encode_utf8(
            trimmed(id@),
        ).len() >= 16,
        blank(id@) ==> thread_findings(policy, Some(id)) == seq![
            told_finding(
                level,
                "nemo_guardrails.unsupported_value"@,
                Some("request_defaults.thread_id"@),
                "request_defaults.thread_id must not be empty"@,
            ),
        ],
        !blank(id@) && encode_utf8(trimmed(id@)).len() < 16 ==> thread_findings(policy, Some(id))
            == seq![
            told_finding(
                level,
                "nemo_guardrails.unsupported_value"@,
                Some("request_defaults.thread_id"@),
                "request_defaults.thread_id must be at least 16 characters long"@,
            ),
        ],
        state_findings(policy, None).len() == 0,
        state_findings(policy, Some(Json::Object(object))).len() == 0 <==> forall|i: int|
            0 <= i < object.entries@.len() ==> (#[trigger] object.entries@[i]).0@ == "events"@
                || object.entries@[i].0@ == "state"@,
        state_findings(policy, Some(value)).len() > 0 ==> state_findings(policy, Some(value))
            == seq![
            told_finding(
                level,
                "nemo_guardrails.unsupported_value"@,
                Some("request_defaults.state"@),
                "request_defaults.state must be empty or contain only 'events' or 'state'"@,
            ),
        ],
        output_var_findings(policy, None).len() == 0,
        value is Bool ==> output_var_findings(policy, Some(value)).len() == 0,
        !(value is Bool) && !(value is Array) ==> output_var_findings(policy, Some(value)) == seq![
            told_finding(
                level,
                "nemo_guardrails.unsupported_value"@,
                Some("request_defaults.output_vars"@),
                "request_defaults.output_vars must be a boolean or an array of strings"@,
            ),
        ],
        output_var_findings(policy, Some(Json::Array(values))).len() == 0 <==> forall|i: int|
            0 <= i < values@.len() ==> (#[trigger] values@[i]) is Text && !blank(
                values@[i]->Text_0@,
            ),
{
    if has_foreign_key(object) {
        let i = choose|i: int|
            0 <= i < object.entries@.len() && !state_key(#[trigger] object.entries@[i].0@);
        assert(!state_key(object.entries@[i].0@));
        assert(object.entries@[i] == object.entries@[i]);
    } else {
        assert forall|i: int| 0 <= i < object.entries@.len() implies (
        #[trigger] object.entries@[i]).0@ == "events"@ || object.entries@[i].0@ == "state"@ by {
            assert(state_key(object.entries@[i].0@));
        }
    }
    let bad = Seq::new(values@.len(), |i: int| no_name(values@[i]));
    lemma_good_entries(
        policy,
        "request_defaults.output_vars"@,
        bad,
        "request_defaults.output_vars array entries must be non-empty strings"@,
    );
    if forall|i: int| 0 <= i < bad.len() ==> !(#[trigger] bad[i]) {
        assert forall|i: int| 0 <= i < values@.len() implies (#[trigger] values@[i]) is Text
            && !blank(values@[i]->Text_0@) by {
            assert(!bad[i]);
        }
    }
    if forall|i: int|
        0 <= i < values@.len() ==> (#[trigger] values@[i]) is Text && !blank(
            values@[i]->Text_0@,
        ) {
        assert forall|i: int| 0 <= i < bad.len() implies !(#[trigger] bad[i]) by {
            assert(values@[i] is Text);
        }
    }
}

/// Nothing is reported on a selection exactly where it names no blank rail.
proof fn lemma_named_rails(policy: ConfigPolicy, selector: Option<RailSelector>, field: Seq<char>)
    requires
        policy.unsupported_value != UnsupportedBehavior::Ignore,
    ensures
        selector_findings(policy, selector, field).len() == 0 <==> names_if_given(selector),
{
    match selector {
        Some(RailSelector::Named(names)) => lemma_filled_entries(
            policy,
            field,
            names@,
            "named rail selections must not contain empty strings"@,
        ),
        _ => {},
    }
}

/// Default rails are accepted exactly where no selection names a blank rail.
pub proof fn law_selected_rails_are_named(policy: ConfigPolicy, rails: RequestRailsConfig)
    requires
        policy.unsupported_value != UnsupportedBehavior::Ignore,
    ensures
        rail_findings(policy, None).len() == 0,
        rail_findings(policy, Some(rails)).len() == 0 <==> names_if_given(rails.input)
            && names_if_given(rails.output) && names_if_given(rails.retrieval) && names_if_given(
            rails.tool_output,
        ) && names_if_given(rails.tool_input),
{
    lemma_named_rails(policy, rails.input, "request_defaults.rails.input"@);
    lemma_named_rails(policy, rails.output, "request_defaults.rails.output"@);
    lemma_named_rails(policy, rails.retrieval, "request_defaults.rails.retrieval"@);
    lemma_named_rails(policy, rails.tool_output, "request_defaults.rails.tool_output"@);
    lemma_named_rails(policy, rails.tool_input, "request_defaults.rails.tool_input"@);
}

/// Request defaults are accepted in remote mode exactly where each of them is; local mode takes none.
pub proof fn law_request_defaults_are_checked(
    policy: ConfigPolicy,
    level: DiagnosticLevel,
    config: NeMoGuardrailsConfig,
)
    requires
        behavior_level(policy.unsupported_value) == Some(level),
    ensures
        config.request_defaults is None ==> request_default_findings(policy, config).len() == 0,
        config.request_defaults is Some && config.mode@ == "local"@ ==> request_default_findings(
            policy,
            config,
        ) == seq![
            told_finding(
                level,
                "nemo_guardrails.unsupported_value"@,
                Some("request_defaults"@),
                "local mode does not currently support request_defaults"@,
            ),
        ],
        config.request_defaults is Some && config.mode@ != "local"@ ==> (request_default_findings(
            policy,
            config,
        ).len() == 0 <==> ({
            let d = config.request_defaults->0;
            &&& object_if_given(d.context)
            &&& object_if_given(d.state)
            &&& object_if_given(d.llm_params)
            &&& object_if_given(d.log)
            &&& thread_findings(policy, d.thread_id).len() == 0
            &&& state_findings(policy, d.state).len() == 0
            &&& output_var_findings(policy, d.output_vars).len() == 0
            &&& rail_findings(policy, d.rails).len() == 0
        })),
{
}

/// A configuration is accepted exactly where its fields are known and each part of it is accepted;
/// the policy that counts is the global one where it is set.
pub proof fn law_configurations_are_accepted_part_by_part(
    plugin_config: TextMap<Json>,
    config: NeMoGuardrailsConfig,
    global: ConfigPolicy,
    codecs: Seq<Seq<char>>,
    shown: String,
)
    ensures
        held_policy(config, None) == config.policy,
        held_policy(config, Some(global)) == effective_policy(config.policy, global),
        ({
            let policy = held_policy(config, Some(global));
            guardrails_findings(plugin_config, Ok(config), Some(global), codecs).len() == 1 <==> {
                &&& field_findings(policy, plugin_config).len() == 0
                &&& version_findings(policy, config.version).len() == 0
                &&& mode_findings(policy, config.mode@).len() == 0
                &&& text_findings(policy, config).len() == 0
                &&& shape_findings(policy, config).len() == 0
                &&& codec_findings(policy, config, codecs).len() == 0
                &&& surface_findings(policy, config).len() == 0
                &&& remote_support_findings(policy, config).len() == 0
                &&& request_default_findings(policy, config).len() == 0
            }
        }),
        guardrails_findings(plugin_config, Err(shown), Some(global), codecs).len() == 2,
        guardrails_findings(plugin_config, Err(shown), Some(global), codecs)[1] == told_finding(
            DiagnosticLevel::Error,
            "nemo_guardrails.invalid_plugin_config"@,
            None,
            error_text(
                (
                    PluginErrorKind::InvalidConfig,
                    "invalid NeMo Guardrails plugin config: "@ + shown@,
                ),
            ),
        ),
        guardrails_findings(plugin_config, Err(shown), None, codecs) == guardrails_findings(
            plugin_config,
            Err(shown),
            Some(global),
            codecs,
        ),
{
}

/// What is told of the settings of the backends and of the request defaults, field by field.
pub proof fn law_settings_are_told_by_field(
    policy: ConfigPolicy,
    remote: RemoteBackendConfig,
    local: LocalBackendConfig,
    defaults: RequestDefaultsConfig,
    names: Vec<String>,
    field: Seq<char>,
)
    ensures
        remote_blank_findings(policy, remote) == blank_findings(
            policy,
            "remote.endpoint"@,
            remote.endpoint,
            "remote.endpoint must not be empty"@,
        ) + blank_findings(
            policy,
            "remote.config_id"@,
            remote.config_id,
            "remote.config_id must not be empty"@,
        ) + entry_findings(
            policy,
            "remote.config_ids"@,
            blanks(remote.config_ids@),
            "remote.config_ids entries must not be empty"@,
        ),
        local_blank_findings(policy, local) == blank_findings(
            policy,
            "local.python_module"@,
            local.python_module,
            "local.python_module must not be empty"@,
        ) + blank_findings(
            policy,
            "local.python_executable"@,
            local.python_executable,
            "local.python_executable must not be empty"@,
        ) + blank_findings(
            policy,
            "local.python_path"@,
            local.python_path,
            "local.python_path must not be empty"@,
        ),
        selector_findings(policy, Some(RailSelector::Named(names)), field) == entry_findings(
            policy,
            field,
            blanks(names@),
            "named rail selections must not contain empty strings"@,
        ),
        default_value_findings(policy, defaults) == object_findings(
            policy,
            defaults.context,
            "request_defaults.context"@,
            "request_defaults.context must be a JSON object"@,
        ) + thread_findings(policy, defaults.thread_id) + object_findings(
            policy,
            defaults.state,
            "request_defaults.state"@,
            "request_defaults.state must be a JSON object"@,
        ) + state_findings(policy, defaults.state) + object_findings(
            policy,
            defaults.llm_params,
            "request_defaults.llm_params"@,
            "request_defaults.llm_params must be a JSON object"@,
        ) + object_findings(
            policy,
            defaults.log,
            "request_defaults.log"@,
            "request_defaults.log must be a JSON object"@,
        ) + output_var_findings(policy, defaults.output_vars) + rail_findings(
            policy,
            defaults.rails,
        ),
{
}

} // verus!
