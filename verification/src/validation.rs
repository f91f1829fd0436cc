//! Validation of plugin configuration documents.

use vstd::prelude::*;

use crate::config::{
    extend_diagnostics, findings, policy_finding, push_diagnostic, push_policy_diag,
    ConfigDiagnostic, ConfigReport, DiagnosticLevel, DiagnosticView, PluginComponentSpec,
    PluginConfig, UnsupportedBehavior, PLUGIN_CONFIG_VERSION,
};
use crate::error::{self, ErrorView};
use crate::handlers::{
    builtins_registered, ensure_builtin_plugins_registered, lookup_registered_plugin, BuiltinPlugin,
    HandlersView, PluginHandlers,
};
use crate::text::{self, concat2, concat3, format_u64, text_eq};

verus! {

/// How many components of a list have a kind.
pub open spec fn kind_total(components: Seq<PluginComponentSpec>, kind: Seq<char>) -> nat
    decreases components.len(),
{
    if components.len() == 0 {
        0
    } else {
        kind_total(components.drop_last(), kind) + if components.last().kind@ == kind {
            1nat
        } else {
            0nat
        }
    }
}

/// Counts the components of a kind among the first `n`.
pub fn count_components(components: &Vec<PluginComponentSpec>, n: usize, kind: &str) -> (r: usize)
    requires
        n <= components.len(),
    ensures
        r == kind_total(components@.take(n as int), kind@),
        r <= n,
{
    let mut total: usize = 0;
    let mut i: usize = 0;
    assert(components@.take(0) =~= Seq::empty());
    while i < n
        invariant
            i <= n <= components.len(),
            total <= i,
            total == kind_total(components@.take(i as int), kind@),
        decreases n - i,
    {
        assert(components@.take(i + 1).drop_last() =~= components@.take(i as int));
        if text_eq(components[i].kind.as_str(), kind) {
            total += 1;
        }
        i += 1;
    }
    total
}

/// Whether a registered kind may occur only once.
pub open spec fn is_singleton(handlers: HandlersView, kind: Seq<char>) -> bool {
    handlers.plugins.contains_key(kind) && !handlers.plugins[kind].allows_multiple_components
}

/// The finding for a kind that occurs too often.
pub open spec fn duplicate_component(kind: Seq<char>) -> DiagnosticView {
    DiagnosticView {
        level: DiagnosticLevel::Error,
        code: "plugin.duplicate_component"@,
        component: Some(kind),
        field: None,
        message: "plugin component kind '"@ + kind + "' may only appear once"@,
    }
}

/// The findings on the number of components per kind, for the first `n`
/// components: one at the first occurrence of each repeated kind that may occur
/// only once.
pub open spec fn multiplicity_findings(
    handlers: HandlersView,
    components: Seq<PluginComponentSpec>,
    n: nat,
) -> Seq<DiagnosticView>
    decreases n,
{
    if n == 0 {
        Seq::empty()
    } else {
        let i = n - 1;
        let kind = components[i].kind@;
        let before = multiplicity_findings(handlers, components, i as nat);
        if kind_total(components.take(i), kind) == 0 && kind_total(components, kind) > 1
            && is_singleton(handlers, kind) {
            before.push(duplicate_component(kind))
        } else {
            before
        }
    }
}

/// Reports kinds that may occur only once and occur more often.
pub fn validate_plugin_multiplicity(
    report: &mut ConfigReport,
    handlers: &PluginHandlers,
    config: &PluginConfig,
)
    ensures
        findings(final(report).diagnostics@) == findings(old(report).diagnostics@)
            + multiplicity_findings(handlers@, config.components@, config.components@.len()),
        final(report).runtime_diagnostics@ == old(report).runtime_diagnostics@,
{
    let ghost start = findings(report.diagnostics@);
    let components = &config.components;
    let mut i: usize = 0;
    assert(start + Seq::<DiagnosticView>::empty() =~= start);
    assert(components@.take(components@.len() as int) =~= components@);
    while i < components.len()
        invariant
            i <= components.len(),
            components@ == config.components@,
            components@.take(components@.len() as int) == components@,
            findings(report.diagnostics@) == start + multiplicity_findings(
                handlers@,
                components@,
                i as nat,
            ),
            report.runtime_diagnostics@ == old(report).runtime_diagnostics@,
        decreases components.len() - i,
    {
        let kind = components[i].kind.as_str();
        let earlier = count_components(components, i, kind);
        let total = count_components(components, components.len(), kind);
        let allows_multiple = match lookup_registered_plugin(handlers, kind) {
            Some(plugin) => plugin.allows_multiple_components,
            None => true,
        };
        if earlier == 0 && total > 1 && !allows_multiple {
            let message = concat3("plugin component kind '", kind, "' may only appear once");
            let ghost known = findings(report.diagnostics@);
            push_diagnostic(
                &mut report.diagnostics,
                ConfigDiagnostic {
                    level: DiagnosticLevel::Error,
                    code: "plugin.duplicate_component".to_owned(),
                    component: Some(kind.to_owned()),
                    field: None,
                    message,
                },
            );
            assert(findings(report.diagnostics@) =~= start + multiplicity_findings(
                handlers@,
                components@,
                i as nat,
            ).push(duplicate_component(kind@)));
        }
        i += 1;
    }
}

/// The findings on each of the first `n` components: what its plugin reported, or
/// that its kind is unknown.
pub open spec fn component_findings(
    handlers: HandlersView,
    config: PluginConfig,
    hooks: Seq<Vec<ConfigDiagnostic>>,
    n: nat,
) -> Seq<DiagnosticView>
    decreases n,
{
    if n == 0 {
        Seq::empty()
    } else {
        let i = n - 1;
        let kind = config.components@[i].kind@;
        component_findings(handlers, config, hooks, i as nat) + (
        if handlers.plugins.contains_key(kind) {
            findings(hooks[i]@)
        } else {
            policy_finding(
                config.policy.unknown_component,
                "plugin.unknown_component"@,
                Some(kind),
                None,
                "plugin component kind '"@ + kind + "' is unsupported"@,
            )
        })
    }
}

/// The findings on the schema version.
pub open spec fn version_findings(config: PluginConfig) -> Seq<DiagnosticView> {
    if config.version == PLUGIN_CONFIG_VERSION {
        Seq::empty()
    } else {
        policy_finding(
            config.policy.unsupported_value,
            "plugin.unsupported_config_version"@,
            None,
            Some("version"@),
            "plugin config version "@ + text::decimal(config.version as nat) + " is unsupported"@,
        )
    }
}

/// The finding for builtins that could not be registered.
pub open spec fn builtin_failure(e: ErrorView) -> DiagnosticView {
    DiagnosticView {
        level: DiagnosticLevel::Error,
        code: "plugin.builtin_registration_failed"@,
        component: None,
        field: None,
        message: "built-in plugin registration failed: "@ + error::error_text(e),
    }
}

/// All findings on a configuration, `hooks` being what the plugin of each
/// component reported and `problem` the failure to register builtins.
pub open spec fn validation_findings(
    handlers: HandlersView,
    problem: Option<ErrorView>,
    config: PluginConfig,
    hooks: Seq<Vec<ConfigDiagnostic>>,
) -> Seq<DiagnosticView> {
    match problem {
        Some(e) => seq![builtin_failure(e)],
        None => version_findings(config) + multiplicity_findings(
            handlers,
            config.components@,
            config.components@.len(),
        ) + component_findings(handlers, config, hooks, config.components@.len()),
    }
}

/// Validates a plugin configuration document.
///
/// `hooks` holds, for each component, what the plugin of its kind reported. The
/// report lists findings on the schema version, on kinds that occur too often, and
/// on each component in turn.
pub fn validate_plugin_config(
    handlers: &mut PluginHandlers,
    builtins: &Vec<BuiltinPlugin>,
    config: &PluginConfig,
    hooks: &Vec<Vec<ConfigDiagnostic>>,
) -> (r: ConfigReport)
    requires
        old(handlers).wf(),
        hooks@.len() == config.components@.len(),
    ensures
        final(handlers).wf(),
        final(handlers)@ == builtins_registered(old(handlers)@, builtins@).0,
        findings(r.diagnostics@) == validation_findings(
            final(handlers)@,
            builtins_registered(old(handlers)@, builtins@).1,
            *config,
            hooks@,
        ),
        r.runtime_diagnostics@.len() == 0,
{
    let mut report = ConfigReport::default();
    assert(findings(report.diagnostics@) =~= Seq::empty());
    match ensure_builtin_plugins_registered(handlers, builtins) {
        Err(e) => {
            let detail = e.to_text();
            push_diagnostic(
                &mut report.diagnostics,
                ConfigDiagnostic {
                    level: DiagnosticLevel::Error,
                    code: "plugin.builtin_registration_failed".to_owned(),
                    component: None,
                    field: None,
                    message: concat2("built-in plugin registration failed: ", detail.as_str()),
                },
            );
            assert(findings(report.diagnostics@) =~= seq![builtin_failure(e@)]);
            return report;
        },
        Ok(()) => {},
    }
    if config.version != PLUGIN_CONFIG_VERSION {
        let version = format_u64(config.version as u64);
        push_policy_diag(
            &mut report.diagnostics,
            config.policy.unsupported_value,
            "plugin.unsupported_config_version",
            None,
            Some("version".to_owned()),
            concat3("plugin config version ", version.as_str(), " is unsupported"),
        );
    }
    assert(findings(report.diagnostics@) =~= version_findings(*config));
    validate_plugin_multiplicity(&mut report, handlers, config);
    let ghost start = findings(report.diagnostics@);
    let mut i: usize = 0;
    assert(start + Seq::<DiagnosticView>::empty() =~= start);
    while i < config.components.len()
        invariant
            i <= config.components.len(),
            hooks@.len() == config.components@.len(),
            findings(report.diagnostics@) == start + component_findings(
                handlers@,
                *config,
                hooks@,
                i as nat,
            ),
            report.runtime_diagnostics@.len() == 0,
        decreases config.components.len() - i,
    {
        let kind = config.components[i].kind.as_str();
        let ghost known = component_findings(handlers@, *config, hooks@, i as nat);
        if lookup_registered_plugin(handlers, kind).is_some() {
            let reported = clone_diagnostics(&hooks[i]);
            extend_diagnostics(&mut report.diagnostics, reported);
            assert(findings(report.diagnostics@) =~= start + (known + findings(
                hooks@[i as int]@,
            )));
        } else {
            push_policy_diag(
                &mut report.diagnostics,
                config.policy.unknown_component,
                "plugin.unknown_component",
                Some(kind.to_owned()),
                None,
                concat3("plugin component kind '", kind, "' is unsupported"),
            );
            assert(findings(report.diagnostics@) =~= start + component_findings(
                handlers@,
                *config,
                hooks@,
                (i + 1) as nat,
            ));
        }
        i += 1;
    }
    report
}

/// A copy of a list of diagnostics.
pub fn clone_diagnostics(diagnostics: &Vec<ConfigDiagnostic>) -> (r: Vec<ConfigDiagnostic>)
    ensures
        r@ == diagnostics@,
{
    let mut out: Vec<ConfigDiagnostic> = Vec::new();
    let mut i: usize = 0;
    while i < diagnostics.len()
        invariant
            i <= diagnostics.len(),
            out@ == diagnostics@.take(i as int),
        decreases diagnostics.len() - i,
    {
        out.push(diagnostics[i].clone());
        i += 1;
    }
    assert(out@ =~= diagnostics@);
    out
}

/// A configuration of the supported version, of registered kinds that their
/// plugins find nothing wrong with and that occur no more often than they may, has
/// no findings.
pub proof fn law_clean_configuration_has_no_findings(
    handlers: HandlersView,
    config: PluginConfig,
    hooks: Seq<Vec<ConfigDiagnostic>>,
)
    requires
        config.version == PLUGIN_CONFIG_VERSION,
        hooks.len() == config.components@.len(),
        forall|i: int|
            0 <= i < hooks.len() ==> (#[trigger] hooks[i])@.len() == 0
                && handlers.plugins.contains_key(config.components@[i].kind@) && (is_singleton(
                handlers,
                config.components@[i].kind@,
            ) ==> kind_total(config.components@, config.components@[i].kind@) <= 1),
    ensures
        validation_findings(handlers, None, config, hooks) == Seq::<DiagnosticView>::empty(),
{
    assert forall|i: int| 0 <= i < hooks.len() implies (#[trigger] hooks[i])@.len() == 0 && (
    is_singleton(handlers, config.components@[i].kind@) ==> kind_total(
        config.components@,
        config.components@[i].kind@,
    ) <= 1) by {
        assert(hooks[i]@.len() == 0);
        let kind = config.components@[i].kind@;
        assert(is_singleton(handlers, kind) ==> kind_total(config.components@, kind) <= 1);
    }
    lemma_no_multiplicity_findings(handlers, config, hooks, hooks.len());
    lemma_no_component_findings(handlers, config, hooks, hooks.len());
    assert(validation_findings(handlers, None, config, hooks) =~= Seq::<DiagnosticView>::empty());
}

/// Kinds that occur no more often than they may give no findings.
proof fn lemma_no_multiplicity_findings(
    handlers: HandlersView,
    config: PluginConfig,
    hooks: Seq<Vec<ConfigDiagnostic>>,
    n: nat,
)
    requires
        n <= hooks.len() == config.components@.len(),
        forall|i: int|
            0 <= i < hooks.len() ==> (#[trigger] hooks[i])@.len() == 0 && (is_singleton(
                handlers,
                config.components@[i].kind@,
            ) ==> kind_total(config.components@, config.components@[i].kind@) <= 1),
    ensures
        multiplicity_findings(handlers, config.components@, n) == Seq::<DiagnosticView>::empty(),
    decreases n,
{
    if n > 0 {
        lemma_no_multiplicity_findings(handlers, config, hooks, (n - 1) as nat);
        assert(hooks[n - 1]@.len() == 0);
    }
}

/// Components that nothing is reported on give no findings.
proof fn lemma_no_component_findings(
    handlers: HandlersView,
    config: PluginConfig,
    hooks: Seq<Vec<ConfigDiagnostic>>,
    n: nat,
)
    requires
        n <= hooks.len() == config.components@.len(),
        forall|i: int|
            0 <= i < hooks.len() ==> (#[trigger] hooks[i])@.len() == 0
                && handlers.plugins.contains_key(config.components@[i].kind@),
    ensures
        component_findings(handlers, config, hooks, n) == Seq::<DiagnosticView>::empty(),
    decreases n,
{
    if n > 0 {
        lemma_no_component_findings(handlers, config, hooks, (n - 1) as nat);
        assert(hooks[n - 1]@.len() == 0);
        assert(component_findings(handlers, config, hooks, n) =~= Seq::<DiagnosticView>::empty());
    }
}

/// A kind that may occur only once is reported exactly where it occurs again: the
/// report then holds an error for it.
pub proof fn law_repeated_singleton_is_an_error(
    handlers: HandlersView,
    config: PluginConfig,
    hooks: Seq<Vec<ConfigDiagnostic>>,
    kind: Seq<char>,
)
    requires
        is_singleton(handlers, kind),
        kind_total(config.components@, kind) > 1,
    ensures
        validation_findings(handlers, None, config, hooks).contains(duplicate_component(kind)),
{
    let components = config.components@;
    lemma_first_occurrence(components, kind, components.len() as int);
    let i = choose|i: int|
        0 <= i < components.len() && (#[trigger] components[i]).kind@ == kind && kind_total(
            components.take(i),
            kind,
        ) == 0;
    lemma_multiplicity_contains(handlers, components, components.len(), i);
    let m = multiplicity_findings(handlers, components, components.len());
    let j = m.index_of(duplicate_component(kind));
    let v = version_findings(config);
    let all = validation_findings(handlers, None, config, hooks);
    assert(all[v.len() + j] == duplicate_component(kind));
}

/// A kind that occurs has a first occurrence.
proof fn lemma_first_occurrence(components: Seq<PluginComponentSpec>, kind: Seq<char>, n: int)
    requires
        0 <= n <= components.len(),
        kind_total(components.take(n), kind) > 0 || (n == components.len() && kind_total(
            components,
            kind,
        ) > 0),
    ensures
        exists|i: int|
            0 <= i < components.len() && (#[trigger] components[i]).kind@ == kind && kind_total(
                components.take(i),
                kind,
            ) == 0,
    decreases n,
{
    assert(components.take(components.len() as int) =~= components);
    assert(components.take(0) =~= Seq::empty());
    if n > 0 {
        assert(components.take(n).drop_last() =~= components.take(n - 1));
        if kind_total(components.take(n - 1), kind) > 0 {
            lemma_first_occurrence(components, kind, n - 1);
        } else {
            assert(components[n - 1].kind@ == kind);
        }
    }
}

/// The finding at the first occurrence of a repeated kind is among the findings.
proof fn lemma_multiplicity_contains(
    handlers: HandlersView,
    components: Seq<PluginComponentSpec>,
    n: nat,
    i: int,
)
    requires
        0 <= i < n <= components.len(),
        kind_total(components.take(i), components[i].kind@) == 0,
        kind_total(components, components[i].kind@) > 1,
        is_singleton(handlers, components[i].kind@),
    ensures
        multiplicity_findings(handlers, components, n).contains(
            duplicate_component(components[i].kind@),
        ),
    decreases n,
{
    let target = duplicate_component(components[i].kind@);
    let all = multiplicity_findings(handlers, components, n);
    if i == n - 1 {
        assert(all[all.len() - 1] == target);
    } else {
        lemma_multiplicity_contains(handlers, components, (n - 1) as nat, i);
        let before = multiplicity_findings(handlers, components, (n - 1) as nat);
        let k = before.index_of(target);
        assert(all[k] == target);
    }
}

/// Counting the components of a kind adds up, and each component of the kind counts once.
pub proof fn law_components_of_a_kind_add_up(
    a: Seq<PluginComponentSpec>,
    component: PluginComponentSpec,
    kind: Seq<char>,
)
    ensures
        kind_total(Seq::empty(), kind) == 0,
        component.kind@ == kind ==> kind_total(a.push(component), kind) == kind_total(a, kind) + 1,
        component.kind@ != kind ==> kind_total(a.push(component), kind) == kind_total(a, kind),
{
    assert(a.push(component).drop_last() =~= a);
}

/// A finding among those of the components.
proof fn lemma_component_finding(
    handlers: HandlersView,
    config: PluginConfig,
    hooks: Seq<Vec<ConfigDiagnostic>>,
    n: nat,
    i: int,
    d: DiagnosticView,
)
    requires
        0 <= i < n,
        n <= config.components@.len(),
        ({
            let kind = config.components@[i].kind@;
            let own = if handlers.plugins.contains_key(kind) {
                findings(hooks[i]@)
            } else {
                policy_finding(
                    config.policy.unknown_component,
                    "plugin.unknown_component"@,
                    Some(kind),
                    None,
                    "plugin component kind '"@ + kind + "' is unsupported"@,
                )
            };
            own.contains(d)
        }),
    ensures
        component_findings(handlers, config, hooks, n).contains(d),
    decreases n,
{
    let all = component_findings(handlers, config, hooks, n);
    let before = component_findings(handlers, config, hooks, (n - 1) as nat);
    if i < n - 1 {
        lemma_component_finding(handlers, config, hooks, (n - 1) as nat, i, d);
        let j = before.index_of(d);
        assert(all[j] == d);
    } else {
        let kind = config.components@[i].kind@;
        let own = if handlers.plugins.contains_key(kind) {
            findings(hooks[i]@)
        } else {
            policy_finding(
                config.policy.unknown_component,
                "plugin.unknown_component"@,
                Some(kind),
                None,
                "plugin component kind '"@ + kind + "' is unsupported"@,
            )
        };
        let j = own.index_of(d);
        assert(all[before.len() + j] == d);
    }
}

/// A component of an unknown kind is reported as the policy for unknown components says, whether
/// it is enabled or not: as an error, as a warning, or not at all.
pub proof fn law_unknown_components_are_reported(
    handlers: HandlersView,
    config: PluginConfig,
    hooks: Seq<Vec<ConfigDiagnostic>>,
    i: int,
)
    requires
        0 <= i < config.components@.len(),
        !handlers.plugins.contains_key(config.components@[i].kind@),
    ensures
        ({
            let kind = config.components@[i].kind@;
            let report = validation_findings(handlers, None, config, hooks);
            let found = |level: DiagnosticLevel|
                DiagnosticView {
                    level,
                    code: "plugin.unknown_component"@,
                    component: Some(kind),
                    field: None,
                    message: "plugin component kind '"@ + kind + "' is unsupported"@,
                };
            &&& config.policy.unknown_component == UnsupportedBehavior::Error ==> report.contains(
                found(DiagnosticLevel::Error),
            )
            &&& config.policy.unknown_component == UnsupportedBehavior::Warn ==> report.contains(
                found(DiagnosticLevel::Warning),
            )
        }),
{
    let kind = config.components@[i].kind@;
    let n = config.components@.len();
    let level = if config.policy.unknown_component == UnsupportedBehavior::Error {
        DiagnosticLevel::Error
    } else {
        DiagnosticLevel::Warning
    };
    let d = DiagnosticView {
        level,
        code: "plugin.unknown_component"@,
        component: Some(kind),
        field: None,
        message: "plugin component kind '"@ + kind + "' is unsupported"@,
    };
    if config.policy.unknown_component != UnsupportedBehavior::Ignore {
        let own = policy_finding(
            config.policy.unknown_component,
            "plugin.unknown_component"@,
            Some(kind),
            None,
            "plugin component kind '"@ + kind + "' is unsupported"@,
        );
        assert(own[0] == d);
        lemma_component_finding(handlers, config, hooks, n, i, d);
        let last = component_findings(handlers, config, hooks, n);
        let first = version_findings(config) + multiplicity_findings(
            handlers,
            config.components@,
            n,
        );
        let j = last.index_of(d);
        assert((first + last)[first.len() + j] == d);
    }
}

/// What a registered plugin finds in its component is part of the report.
pub proof fn law_plugins_findings_are_reported(
    handlers: HandlersView,
    config: PluginConfig,
    hooks: Seq<Vec<ConfigDiagnostic>>,
    i: int,
    d: DiagnosticView,
)
    requires
        0 <= i < config.components@.len(),
        handlers.plugins.contains_key(config.components@[i].kind@),
        findings(hooks[i]@).contains(d),
    ensures
        validation_findings(handlers, None, config, hooks).contains(d),
{
    let n = config.components@.len();
    lemma_component_finding(handlers, config, hooks, n, i, d);
    let last = component_findings(handlers, config, hooks, n);
    let first = version_findings(config) + multiplicity_findings(handlers, config.components@, n);
    let j = last.index_of(d);
    assert((first + last)[first.len() + j] == d);
}

/// Only version 1 is supported: any other version is reported first, as the policy for unsupported
/// values says. Where the builtin plugins cannot be registered, that error is the whole report.
pub proof fn law_other_versions_are_reported(
    handlers: HandlersView,
    config: PluginConfig,
    hooks: Seq<Vec<ConfigDiagnostic>>,
    e: ErrorView,
)
    ensures
        ({
            let report = validation_findings(handlers, None, config, hooks);
            &&& config.version != 1 && config.policy.unsupported_value
                == UnsupportedBehavior::Error ==> report.len() > 0 && report[0].level
                == DiagnosticLevel::Error && report[0].code == "plugin.unsupported_config_version"@
                && report[0].field == Some("version"@)
            &&& config.version != 1 && config.policy.unsupported_value == UnsupportedBehavior::Warn
                ==> report.len() > 0 && report[0].level == DiagnosticLevel::Warning
                && report[0].code == "plugin.unsupported_config_version"@
        }),
        config.version == 1 ==> version_findings(config).len() == 0,
        config.policy.unsupported_value == UnsupportedBehavior::Ignore ==> version_findings(
            config,
        ).len() == 0,
        ({
            let report = validation_findings(handlers, Some(e), config, hooks);
            &&& report.len() == 1
            &&& report[0].level == DiagnosticLevel::Error
            &&& report[0].code == "plugin.builtin_registration_failed"@
            &&& report[0].message == "built-in plugin registration failed: "@ + error::error_text(e)
        }),
{
}

/// Only a kind that may appear once and appears more often is reported for that, and as an error.
pub proof fn law_only_repeated_singletons_are_reported(
    handlers: HandlersView,
    components: Seq<PluginComponentSpec>,
    n: nat,
    k: int,
)
    requires
        n <= components.len(),
        0 <= k < multiplicity_findings(handlers, components, n).len(),
    ensures
        ({
            let d = multiplicity_findings(handlers, components, n)[k];
            &&& d.level == DiagnosticLevel::Error
            &&& d.code == "plugin.duplicate_component"@
            &&& d.component is Some
            &&& handlers.plugins.contains_key(d.component->0)
            &&& !handlers.plugins[d.component->0].allows_multiple_components
            &&& kind_total(components, d.component->0) > 1
            &&& d.message == "plugin component kind '"@ + d.component->0
                + "' may only appear once"@
        }),
    decreases n,
{
    let before = multiplicity_findings(handlers, components, (n - 1) as nat);
    if k < before.len() {
        law_only_repeated_singletons_are_reported(handlers, components, (n - 1) as nat, k);
    }
}

} // verus!
