//! Plugin configuration documents, policies and diagnostics.

use vstd::prelude::*;

use crate::json::{copy_json, json_view, object_view, Json, JsonView};
use crate::text::{self, clone_opt, opt_eq, opt_text, text_eq};
use crate::text_map::TextMap;

verus! {

/// Severity of a configuration diagnostic.
#[derive(Debug, Clone, Copy, PartialEq, Eq, Structural)]
pub enum DiagnosticLevel {
    /// The configuration is usable.
    Warning,
    /// The configuration must not be activated.
    Error,
}

/// One validation or compatibility finding.
#[derive(Debug, PartialEq, Eq)]
pub struct ConfigDiagnostic {
    /// Severity.
    pub level: DiagnosticLevel,
    /// Stable machine-readable code.
    pub code: String,
    /// Component that the finding is about.
    pub component: Option<String>,
    /// Field that the finding is about.
    pub field: Option<String>,
    /// Human-readable text.
    pub message: String,
}

/// The texts of a diagnostic.
pub ghost struct DiagnosticView {
    /// Severity.
    pub level: DiagnosticLevel,
    /// Stable machine-readable code.
    pub code: Seq<char>,
    /// Component that the finding is about.
    pub component: Option<Seq<char>>,
    /// Field that the finding is about.
    pub field: Option<Seq<char>>,
    /// Human-readable text.
    pub message: Seq<char>,
}

impl View for ConfigDiagnostic {
    type V = DiagnosticView;

    open spec fn view(&self) -> DiagnosticView {
        DiagnosticView {
            level: self.level,
            code: self.code@,
            component: opt_text(self.component),
            field: opt_text(self.field),
            message: self.message@,
        }
    }
}

/// The texts of a list of diagnostics.
pub open spec fn findings(diagnostics: Seq<ConfigDiagnostic>) -> Seq<DiagnosticView> {
    Seq::new(diagnostics.len(), |i: int| diagnostics[i]@)
}

impl Clone for ConfigDiagnostic {
    fn clone(&self) -> (r: Self)
        ensures
            r == *self,
    {
        ConfigDiagnostic {
            level: self.level,
            code: self.code.clone(),
            component: clone_opt(&self.component),
            field: clone_opt(&self.field),
            message: self.message.clone(),
        }
    }
}

/// Per-policy behavior for unsupported configuration.
#[derive(Debug, Clone, Copy, PartialEq, Eq, Structural)]
pub enum UnsupportedBehavior {
    /// Suppress the diagnostic entirely.
    Ignore,
    /// Emit a warning diagnostic.
    Warn,
    /// Emit an error diagnostic.
    Error,
}

impl Default for UnsupportedBehavior {
    fn default() -> (r: Self)
        ensures
            r == UnsupportedBehavior::Warn,
    {
        UnsupportedBehavior::Warn
    }
}

/// Policy for how unsupported plugin/runtime config is handled.
#[derive(Debug, Clone, Copy, PartialEq, Eq, Structural)]
pub struct ConfigPolicy {
    /// Policy applied when a component kind is unknown to the plugin registry.
    pub unknown_component: UnsupportedBehavior,
    /// Policy applied when a known component contains an unknown field.
    pub unknown_field: UnsupportedBehavior,
    /// Policy applied when a known field contains an unsupported value.
    pub unsupported_value: UnsupportedBehavior,
}

/// The policy that holds where none is declared.
pub open spec fn default_policy() -> ConfigPolicy {
    ConfigPolicy {
        unknown_component: UnsupportedBehavior::Warn,
        unknown_field: UnsupportedBehavior::Warn,
        unsupported_value: UnsupportedBehavior::Error,
    }
}

impl Default for ConfigPolicy {
    fn default() -> (r: Self)
        ensures
            r == default_policy(),
    {
        ConfigPolicy {
            unknown_component: UnsupportedBehavior::Warn,
            unknown_field: UnsupportedBehavior::Warn,
            unsupported_value: UnsupportedBehavior::Error,
        }
    }
}

/// The behavior of a global setting where it is not the default, else that of the
/// component.
pub open spec fn overriding(
    component: UnsupportedBehavior,
    global: UnsupportedBehavior,
    default: UnsupportedBehavior,
) -> UnsupportedBehavior {
    if global != default {
        global
    } else {
        component
    }
}

/// The policy of a component under a global policy.
pub open spec fn effective_policy(component: ConfigPolicy, global: ConfigPolicy) -> ConfigPolicy {
    let default = default_policy();
    ConfigPolicy {
        unknown_component: overriding(
            component.unknown_component,
            global.unknown_component,
            default.unknown_component,
        ),
        unknown_field: overriding(
            component.unknown_field,
            global.unknown_field,
            default.unknown_field,
        ),
        unsupported_value: overriding(
            component.unsupported_value,
            global.unsupported_value,
            default.unsupported_value,
        ),
    }
}

/// Applies non-default global policy fields to a component policy.
///
/// Component-specific policy remains in effect when the corresponding global
/// setting is left at its default value.
pub fn apply_global_config_policy(
    component_policy: ConfigPolicy,
    global_policy: &ConfigPolicy,
) -> (r: ConfigPolicy)
    ensures
        r == effective_policy(component_policy, *global_policy),
        r.unknown_component == (match global_policy.unknown_component {
            UnsupportedBehavior::Warn => component_policy.unknown_component,
            set => set,
        }),
        r.unknown_field == (match global_policy.unknown_field {
            UnsupportedBehavior::Warn => component_policy.unknown_field,
            set => set,
        }),
        r.unsupported_value == (match global_policy.unsupported_value {
            UnsupportedBehavior::Error => component_policy.unsupported_value,
            set => set,
        }),
{
    let default_policy = ConfigPolicy::default();
    ConfigPolicy {
        unknown_component: if global_policy.unknown_component != default_policy.unknown_component {
            global_policy.unknown_component
        } else {
            component_policy.unknown_component
        },
        unknown_field: if global_policy.unknown_field != default_policy.unknown_field {
            global_policy.unknown_field
        } else {
            component_policy.unknown_field
        },
        unsupported_value: if global_policy.unsupported_value != default_policy.unsupported_value {
            global_policy.unsupported_value
        } else {
            component_policy.unsupported_value
        },
    }
}

/// A global policy left at its defaults does not touch component policies, and
/// applying a global policy twice is the same as applying it once.
pub proof fn law_global_policy_overrides_by_field(component: ConfigPolicy, global: ConfigPolicy)
    ensures
        effective_policy(component, default_policy()) == component,
        effective_policy(effective_policy(component, global), global) == effective_policy(
            component,
            global,
        ),
{
}

/// One configured plugin component.
pub struct PluginComponentSpec {
    /// Registered plugin kind string.
    pub kind: String,
    /// Whether the component should be activated.
    ///
    /// Disabled components are still validated but skipped during runtime
    /// registration.
    pub enabled: bool,
    /// Component-local JSON config object passed to the plugin.
    pub config: TextMap<Json>,
}

/// The mathematical form of a component.
pub ghost struct ComponentView {
    /// Registered plugin kind.
    pub kind: Seq<char>,
    /// Whether the component should be activated.
    pub enabled: bool,
    /// Component-local configuration.
    pub config: Map<Seq<char>, JsonView>,
}

impl View for PluginComponentSpec {
    type V = ComponentView;

    open spec fn view(&self) -> ComponentView {
        ComponentView {
            kind: self.kind@,
            enabled: self.enabled,
            config: object_view(self.config.entries@),
        }
    }
}

impl PluginComponentSpec {
    /// Creates a new enabled component spec with empty config.
    pub fn new(kind: String) -> (r: Self)
        ensures
            r.kind == kind,
            r.enabled,
            r.config@ == Map::<Seq<char>, Json>::empty(),
            r.config.entries@ == Seq::<(String, Json)>::empty(),
    {
        PluginComponentSpec { kind, enabled: true, config: TextMap::new() }
    }
}

/// Canonical plugin configuration document.
pub struct PluginConfig {
    /// Plugin config schema version.
    pub version: u32,
    /// Ordered list of top-level plugin components to validate and activate.
    pub components: Vec<PluginComponentSpec>,
    /// Plugin-level policy for unsupported plugin kinds, fields, and values.
    ///
    /// Non-default field values override the corresponding component policy.
    pub policy: ConfigPolicy,
}

/// The config schema version that is supported.
pub const PLUGIN_CONFIG_VERSION: u32 = 1;

impl Default for PluginConfig {
    fn default() -> (r: Self)
        ensures
            r.version == PLUGIN_CONFIG_VERSION,
            r.components@ == Seq::<PluginComponentSpec>::empty(),
            r.policy == default_policy(),
    {
        PluginConfig {
            version: PLUGIN_CONFIG_VERSION,
            components: Vec::new(),
            policy: ConfigPolicy::default(),
        }
    }
}

/// The mathematical form of a configuration document.
pub ghost struct PluginConfigView {
    /// Schema version.
    pub version: u32,
    /// Components.
    pub components: Seq<ComponentView>,
    /// Policy.
    pub policy: ConfigPolicy,
}

impl View for PluginConfig {
    type V = PluginConfigView;

    open spec fn view(&self) -> PluginConfigView {
        PluginConfigView {
            version: self.version,
            components: Seq::new(self.components@.len(), |i: int| self.components@[i]@),
            policy: self.policy,
        }
    }
}

/// A copy of an object.
pub fn copy_object(object: &TextMap<Json>) -> (r: TextMap<Json>)
    ensures
        object_view(r.entries@) == object_view(object.entries@),
        crate::json::json_wf(Json::Object(*object)) ==> crate::json::json_wf(Json::Object(r)),
        r.key_list() == object.key_list(),
{
    let mut out: Vec<(String, Json)> = Vec::new();
    let mut i: usize = 0;
    while i < object.entries.len()
        invariant
            i <= object.entries.len(),
            out.len() == i,
            forall|k: int|
                0 <= k < i ==> (#[trigger] out@[k]).0 == object.entries@[k].0 && json_view(
                    out@[k].1,
                ) == json_view(object.entries@[k].1),
            crate::json::json_wf(Json::Object(*object)) ==> forall|k: int|
                0 <= k < i ==> crate::json::json_wf((#[trigger] out@[k]).1),
        decreases object.entries.len() - i,
    {
        assert(crate::json::json_wf(Json::Object(*object)) ==> crate::json::json_wf(
            object.entries@[i as int].1,
        ));
        out.push((object.entries[i].0.clone(), copy_json(&object.entries[i].1)));
        i += 1;
    }
    proof {
        crate::json::lemma_same_entries(out@, object.entries@);
        if crate::text_map::keys_ascend(object.entries@) {
            assert forall|a: int, b: int| 0 <= a < b < out.len() implies text::less(
                (#[trigger] out@[a]).0@,
                (#[trigger] out@[b]).0@,
            ) by {
                assert(text::less(object.entries@[a].0@, object.entries@[b].0@));
            }
        }
        assert(crate::text_map::entry_keys(out@) =~= object.key_list());
    }
    TextMap { entries: out }
}

impl Clone for PluginComponentSpec {
    fn clone(&self) -> (r: Self)
        ensures
            r@ == self@,
            crate::json::json_wf(Json::Object(self.config)) ==> crate::json::json_wf(
                Json::Object(r.config),
            ),
    {
        PluginComponentSpec {
            kind: self.kind.clone(),
            enabled: self.enabled,
            config: copy_object(&self.config),
        }
    }
}

impl Clone for PluginConfig {
    fn clone(&self) -> (r: Self)
        ensures
            r@ == self@,
    {
        let mut components: Vec<PluginComponentSpec> = Vec::new();
        let mut i: usize = 0;
        while i < self.components.len()
            invariant
                i <= self.components.len(),
                components.len() == i,
                forall|k: int| 0 <= k < i ==> (#[trigger] components@[k])@ == self.components@[k]@,
            decreases self.components.len() - i,
        {
            components.push(self.components[i].clone());
            i += 1;
        }
        let r = PluginConfig { version: self.version, components, policy: self.policy };
        assert(r@.components =~= self@.components);
        r
    }
}

/// Bounded aggregate for a runtime failure observed by an active plugin.
#[derive(Debug, PartialEq, Eq)]
pub struct RuntimeDiagnostic {
    /// Stable failure classification.
    pub code: String,
    /// Plugin component that reported the failure.
    pub component: String,
    /// Optional configuration field associated with the failure.
    pub field: Option<String>,
    /// Latest human-readable failure detail.
    pub message: String,
    /// Latest affected trajectory session identifier.
    pub session_id: Option<String>,
    /// Number of failures aggregated into this entry.
    pub count: u64,
}

impl Clone for RuntimeDiagnostic {
    fn clone(&self) -> (r: Self)
        ensures
            r == *self,
    {
        RuntimeDiagnostic {
            code: self.code.clone(),
            component: self.component.clone(),
            field: clone_opt(&self.field),
            message: self.message.clone(),
            session_id: clone_opt(&self.session_id),
            count: self.count,
        }
    }
}

/// Structured validation report.
#[derive(Debug)]
pub struct ConfigReport {
    /// Validation and compatibility diagnostics in evaluation order.
    pub diagnostics: Vec<ConfigDiagnostic>,
    /// Runtime delivery diagnostics recorded after activation.
    pub runtime_diagnostics: Vec<RuntimeDiagnostic>,
}

impl Default for ConfigReport {
    fn default() -> (r: Self)
        ensures
            r.diagnostics@ == Seq::<ConfigDiagnostic>::empty(),
            r.runtime_diagnostics@ == Seq::<RuntimeDiagnostic>::empty(),
    {
        ConfigReport { diagnostics: Vec::new(), runtime_diagnostics: Vec::new() }
    }
}

impl Clone for ConfigReport {
    fn clone(&self) -> (r: Self)
        ensures
            r.diagnostics@ == self.diagnostics@,
            r.runtime_diagnostics@ == self.runtime_diagnostics@,
    {
        let mut diagnostics: Vec<ConfigDiagnostic> = Vec::new();
        let mut i: usize = 0;
        while i < self.diagnostics.len()
            invariant
                i <= self.diagnostics.len(),
                diagnostics@ == self.diagnostics@.take(i as int),
            decreases self.diagnostics.len() - i,
        {
            diagnostics.push(self.diagnostics[i].clone());
            i += 1;
        }
        let mut runtime_diagnostics: Vec<RuntimeDiagnostic> = Vec::new();
        let mut j: usize = 0;
        while j < self.runtime_diagnostics.len()
            invariant
                j <= self.runtime_diagnostics.len(),
                runtime_diagnostics@ == self.runtime_diagnostics@.take(j as int),
            decreases self.runtime_diagnostics.len() - j,
        {
            runtime_diagnostics.push(self.runtime_diagnostics[j].clone());
            j += 1;
        }
        assert(diagnostics@ =~= self.diagnostics@);
        assert(runtime_diagnostics@ =~= self.runtime_diagnostics@);
        ConfigReport { diagnostics, runtime_diagnostics }
    }
}

/// Whether some finding is an error.
pub open spec fn holds_error(diagnostics: Seq<DiagnosticView>) -> bool {
    exists|i: int|
        0 <= i < diagnostics.len() && (#[trigger] diagnostics[i]).level == DiagnosticLevel::Error
}

/// Whether a list holds an error diagnostic.
pub fn diagnostics_have_errors(diagnostics: &Vec<ConfigDiagnostic>) -> (r: bool)
    ensures
        r == holds_error(findings(diagnostics@)),
{
    let mut i: usize = 0;
    while i < diagnostics.len()
        invariant
            i <= diagnostics.len(),
            forall|k: int| 0 <= k < i ==> (#[trigger] diagnostics@[k]).level != DiagnosticLevel::Error,
        decreases diagnostics.len() - i,
    {
        if diagnostics[i].level == DiagnosticLevel::Error {
            assert(findings(diagnostics@)[i as int].level == DiagnosticLevel::Error);
            return true;
        }
        i += 1;
    }
    false
}

impl ConfigReport {
    /// Returns `true` when the report contains at least one error diagnostic.
    pub fn has_errors(&self) -> (r: bool)
        ensures
            r == holds_error(findings(self.diagnostics@)),
    {
        diagnostics_have_errors(&self.diagnostics)
    }
}

/// The severity that a behavior asks for.
pub open spec fn behavior_level(behavior: UnsupportedBehavior) -> Option<DiagnosticLevel> {
    match behavior {
        UnsupportedBehavior::Ignore => None,
        UnsupportedBehavior::Warn => Some(DiagnosticLevel::Warning),
        UnsupportedBehavior::Error => Some(DiagnosticLevel::Error),
    }
}

/// The findings that a policy behavior gives: none, or one of its severity.
pub open spec fn policy_finding(
    behavior: UnsupportedBehavior,
    code: Seq<char>,
    component: Option<Seq<char>>,
    field: Option<Seq<char>>,
    message: Seq<char>,
) -> Seq<DiagnosticView> {
    match behavior_level(behavior) {
        None => Seq::empty(),
        Some(level) => seq![DiagnosticView { level, code, component, field, message }],
    }
}

/// Adds the diagnostic that a policy behavior asks for, if any.
pub fn push_policy_diag(
    diagnostics: &mut Vec<ConfigDiagnostic>,
    behavior: UnsupportedBehavior,
    code: &str,
    component: Option<String>,
    field: Option<String>,
    message: String,
)
    ensures
        findings(final(diagnostics)@) == findings(old(diagnostics)@) + policy_finding(
            behavior,
            code@,
            opt_text(component),
            opt_text(field),
            message@,
        ),
{
    let level = match behavior {
        UnsupportedBehavior::Ignore => {
            assert(findings(diagnostics@) =~= findings(diagnostics@) + Seq::empty());
            return ;
        },
        UnsupportedBehavior::Warn => DiagnosticLevel::Warning,
        UnsupportedBehavior::Error => DiagnosticLevel::Error,
    };
    push_diagnostic(
        diagnostics,
        ConfigDiagnostic { level, code: code.to_owned(), component, field, message },
    );
}

/// Adds a diagnostic to a list.
pub fn push_diagnostic(diagnostics: &mut Vec<ConfigDiagnostic>, diagnostic: ConfigDiagnostic)
    ensures
        findings(final(diagnostics)@) == findings(old(diagnostics)@) + seq![diagnostic@],
        findings(final(diagnostics)@) == findings(old(diagnostics)@).push(diagnostic@),
{
    let ghost before = diagnostics@;
    diagnostics.push(diagnostic);
    assert(findings(diagnostics@) =~= findings(before) + seq![diagnostic@]);
    assert(findings(diagnostics@) =~= findings(before).push(diagnostic@));
}

/// Adds all diagnostics of a list to another.
pub fn extend_diagnostics(diagnostics: &mut Vec<ConfigDiagnostic>, more: Vec<ConfigDiagnostic>)
    ensures
        findings(final(diagnostics)@) == findings(old(diagnostics)@) + findings(more@),
{
    let mut more = more;
    let ghost before = diagnostics@;
    let ghost added = more@;
    diagnostics.append(&mut more);
    assert(findings(diagnostics@) =~= findings(before) + findings(added));
}

/// The texts of the error findings of a list.
pub open spec fn error_messages(diagnostics: Seq<DiagnosticView>) -> Seq<Seq<char>>
    decreases diagnostics.len(),
{
    if diagnostics.len() == 0 {
        Seq::empty()
    } else {
        let before = error_messages(diagnostics.drop_last());
        if diagnostics.last().level == DiagnosticLevel::Error {
            before.push(diagnostics.last().message)
        } else {
            before
        }
    }
}

/// Joins the texts of a report's error diagnostics.
pub fn join_error_messages(report: &ConfigReport) -> (r: String)
    ensures
        r@ == text::joined(error_messages(findings(report.diagnostics@)), "; "@),
{
    let mut messages: Vec<String> = Vec::new();
    let mut i: usize = 0;
    let ghost all = findings(report.diagnostics@);
    assert(all.take(0) =~= Seq::empty());
    assert(text::texts(messages@) =~= Seq::empty());
    while i < report.diagnostics.len()
        invariant
            i <= report.diagnostics.len(),
            all == findings(report.diagnostics@),
            text::texts(messages@) == error_messages(all.take(i as int)),
        decreases report.diagnostics.len() - i,
    {
        let diagnostic = &report.diagnostics[i];
        assert(all.take(i + 1).drop_last() =~= all.take(i as int));
        assert(all.take(i + 1).last() == diagnostic@);
        if diagnostic.level == DiagnosticLevel::Error {
            let ghost before = messages@;
            messages.push(diagnostic.message.clone());
            assert(text::texts(messages@) =~= text::texts(before).push(diagnostic.message@));
        }
        i += 1;
    }
    assert(all.take(all.len() as int) =~= all);
    text::join(&messages, "; ")
}

/// Whether two runtime diagnostics aggregate into one entry.
pub open spec fn same_failure(a: RuntimeDiagnostic, b: RuntimeDiagnostic) -> bool {
    a.code@ == b.code@ && a.component@ == b.component@ && opt_text(a.field) == opt_text(b.field)
}

/// An entry with a further failure of its kind counted in.
pub open spec fn aggregated(
    entry: RuntimeDiagnostic,
    diagnostic: RuntimeDiagnostic,
) -> RuntimeDiagnostic {
    RuntimeDiagnostic {
        message: diagnostic.message,
        session_id: diagnostic.session_id,
        count: if entry.count + diagnostic.count <= u64::MAX {
            (entry.count + diagnostic.count) as u64
        } else {
            u64::MAX
        },
        ..entry
    }
}

/// The entries after a failure was recorded: counted into the first entry of its
/// kind, or added as a new one.
pub open spec fn with_failure(
    entries: Seq<RuntimeDiagnostic>,
    diagnostic: RuntimeDiagnostic,
) -> Seq<RuntimeDiagnostic>
    decreases entries.len(),
{
    if entries.len() == 0 {
        seq![diagnostic]
    } else if same_failure(entries[0], diagnostic) {
        entries.update(0, aggregated(entries[0], diagnostic))
    } else {
        seq![entries[0]] + with_failure(entries.subrange(1, entries.len() as int), diagnostic)
    }
}

/// Recording a failure at the first entry of its kind.
proof fn lemma_with_failure(
    entries: Seq<RuntimeDiagnostic>,
    diagnostic: RuntimeDiagnostic,
    i: int,
)
    requires
        0 <= i <= entries.len(),
        forall|j: int| 0 <= j < i ==> !same_failure(#[trigger] entries[j], diagnostic),
        i < entries.len() ==> same_failure(entries[i], diagnostic),
    ensures
        with_failure(entries, diagnostic) == (if i < entries.len() {
            entries.update(i, aggregated(entries[i], diagnostic))
        } else {
            entries.push(diagnostic)
        }),
    decreases entries.len(),
{
    if entries.len() == 0 {
        assert(seq![diagnostic] =~= entries.push(diagnostic));
    } else if i > 0 {
        let rest = entries.subrange(1, entries.len() as int);
        assert(!same_failure(entries[0], diagnostic));
        assert forall|j: int| 0 <= j < i - 1 implies !same_failure(
            #[trigger] rest[j],
            diagnostic,
        ) by {
            assert(rest[j] == entries[j + 1]);
        }
        lemma_with_failure(rest, diagnostic, i - 1);
        if i < entries.len() {
            assert(seq![entries[0]] + rest.update(i - 1, aggregated(entries[i], diagnostic))
                =~= entries.update(i, aggregated(entries[i], diagnostic)));
        } else {
            assert(seq![entries[0]] + rest.push(diagnostic) =~= entries.push(diagnostic));
        }
    }
}

/// Records a runtime failure in a list of bounded aggregates.
pub fn record_runtime_diagnostic(
    entries: &mut Vec<RuntimeDiagnostic>,
    diagnostic: RuntimeDiagnostic,
)
    ensures
        final(entries)@ == with_failure(old(entries)@, diagnostic),
{
    let mut i: usize = 0;
    while i < entries.len()
        invariant_except_break
            i <= entries.len(),
            entries@ == old(entries)@,
            forall|j: int| 0 <= j < i ==> !same_failure(#[trigger] entries@[j], diagnostic),
        ensures
            i <= entries.len(),
            entries@ == old(entries)@,
            forall|j: int| 0 <= j < i ==> !same_failure(#[trigger] entries@[j], diagnostic),
            i < entries.len() ==> same_failure(entries@[i as int], diagnostic),
        decreases entries.len() - i,
    {
        let entry = &entries[i];
        if text_eq(entry.code.as_str(), diagnostic.code.as_str()) && text_eq(
            entry.component.as_str(),
            diagnostic.component.as_str(),
        ) && opt_eq(&entry.field, &diagnostic.field) {
            break;
        }
        i += 1;
    }
    proof {
        lemma_with_failure(entries@, diagnostic, i as int);
    }
    if i < entries.len() {
        let entry = entries[i].clone();
        let ghost before = entries@;
        let count: u64 = if entry.count <= u64::MAX - diagnostic.count {
            entry.count + diagnostic.count
        } else {
            u64::MAX
        };
        entries[i] = RuntimeDiagnostic {
            code: entry.code,
            component: entry.component,
            field: entry.field,
            message: diagnostic.message,
            session_id: diagnostic.session_id,
            count,
        };
        assert(entries@ =~= before.update(i as int, aggregated(before[i as int], diagnostic)));
    } else {
        entries.push(diagnostic);
    }
}

/// Whether no two entries of a list aggregate into one.
pub open spec fn all_distinct(entries: Seq<RuntimeDiagnostic>) -> bool {
    forall|i: int, j: int|
        0 <= i < j < entries.len() ==> !same_failure(
            #[trigger] entries[i],
            #[trigger] entries[j],
        )
}

/// Recording a failure keeps one entry per failure kind, so the entries are
/// bounded by the kinds of failures: the list grows by one exactly where the kind
/// is new.
pub proof fn law_runtime_diagnostics_are_bounded(
    entries: Seq<RuntimeDiagnostic>,
    diagnostic: RuntimeDiagnostic,
)
    requires
        all_distinct(entries),
    ensures
        all_distinct(with_failure(entries, diagnostic)),
        with_failure(entries, diagnostic).len() == entries.len() + (if exists|i: int|
            0 <= i < entries.len() && same_failure(#[trigger] entries[i], diagnostic) {
            0int
        } else {
            1int
        }),
{
    let after = with_failure(entries, diagnostic);
    if exists|i: int| 0 <= i < entries.len() && same_failure(#[trigger] entries[i], diagnostic) {
        let i = choose|i: int|
            0 <= i < entries.len() && same_failure(#[trigger] entries[i], diagnostic);
        assert forall|j: int| 0 <= j < i implies !same_failure(
            #[trigger] entries[j],
            diagnostic,
        ) by {
            assert(!same_failure(entries[j], entries[i]));
        }
        lemma_with_failure(entries, diagnostic, i);
        assert forall|a: int, b: int| 0 <= a < b < after.len() implies !same_failure(
            #[trigger] after[a],
            #[trigger] after[b],
        ) by {
            assert(!same_failure(entries[a], entries[b]));
        }
    } else {
        lemma_with_failure(entries, diagnostic, entries.len() as int);
        assert forall|a: int, b: int| 0 <= a < b < after.len() implies !same_failure(
            #[trigger] after[a],
            #[trigger] after[b],
        ) by {
            if b < entries.len() {
                assert(!same_failure(entries[a], entries[b]));
            } else {
                assert(!same_failure(entries[a], diagnostic));
            }
        }
    }
}

/// Each field of a global policy that differs from its default (warn about unknown components and
/// fields, fail on unsupported values) is what holds for a component; each that does not leaves
/// the component's own setting.
pub proof fn law_global_settings_win_where_set(
    component: ConfigPolicy,
    global: ConfigPolicy,
    r: ConfigPolicy,
)
    requires
        r == effective_policy(component, global),
    ensures
        r.unknown_component == (match global.unknown_component {
            UnsupportedBehavior::Warn => component.unknown_component,
            set => set,
        }),
        r.unknown_field == (match global.unknown_field {
            UnsupportedBehavior::Warn => component.unknown_field,
            set => set,
        }),
        r.unsupported_value == (match global.unsupported_value {
            UnsupportedBehavior::Error => component.unsupported_value,
            set => set,
        }),
        global.unknown_component != default_policy().unknown_component ==> r.unknown_component
            == global.unknown_component,
        global.unknown_component == default_policy().unknown_component ==> r.unknown_component
            == component.unknown_component,
        global.unknown_field != default_policy().unknown_field ==> r.unknown_field
            == global.unknown_field,
        global.unknown_field == default_policy().unknown_field ==> r.unknown_field
            == component.unknown_field,
        global.unsupported_value != default_policy().unsupported_value ==> r.unsupported_value
            == global.unsupported_value,
        global.unsupported_value == default_policy().unsupported_value ==> r.unsupported_value
            == component.unsupported_value,
{
}

/// What a policy makes of a finding: nothing where it is ignored, one warning where it is warned
/// about, and one error, which makes the configuration invalid, where it is an error.
pub proof fn law_policies_decide_severity(
    behavior: UnsupportedBehavior,
    code: Seq<char>,
    component: Option<Seq<char>>,
    field: Option<Seq<char>>,
    message: Seq<char>,
)
    ensures
        ({
            let found = policy_finding(behavior, code, component, field, message);
            &&& found.len() == 0 <==> behavior == UnsupportedBehavior::Ignore
            &&& holds_error(found) <==> behavior == UnsupportedBehavior::Error
            &&& behavior != UnsupportedBehavior::Ignore ==> found.len() == 1 && found[0].code
                == code && found[0].component == component && found[0].field == field
                && found[0].message == message
        }),
{
    let found = policy_finding(behavior, code, component, field, message);
    if behavior == UnsupportedBehavior::Error {
        assert(found[0].level == DiagnosticLevel::Error);
    }
}

/// The errors of two reports are those of one that holds both, in order; an error gives its
/// message, and a warning none.
pub proof fn law_error_messages_are_those_of_errors(
    a: Seq<DiagnosticView>,
    b: Seq<DiagnosticView>,
    d: DiagnosticView,
)
    ensures
        error_messages(a + b) == error_messages(a) + error_messages(b),
        error_messages(seq![d]) == (match d.level {
            DiagnosticLevel::Error => seq![d.message],
            DiagnosticLevel::Warning => Seq::empty(),
        }),
        error_messages(a).len() == 0 <==> !holds_error(a),
    decreases a.len() + b.len(),
{
    assert(seq![d].drop_last() =~= Seq::empty());
    assert(error_messages(seq![d].drop_last()) =~= Seq::empty());
    if b.len() > 0 {
        law_error_messages_are_those_of_errors(a, b.drop_last(), d);
        assert((a + b).drop_last() =~= a + b.drop_last());
        assert((a + b).last() == b.last());
        assert(error_messages(a + b) =~= error_messages(a) + error_messages(b));
    } else {
        assert(a + b =~= a);
        assert(error_messages(a + b) =~= error_messages(a) + error_messages(b));
        if a.len() > 0 {
            law_error_messages_are_those_of_errors(a.drop_last(), b, d);
            if holds_error(a) {
                let i = choose|i: int|
                    0 <= i < a.len() && (#[trigger] a[i]).level == DiagnosticLevel::Error;
                if i < a.len() - 1 {
                    assert(a.drop_last()[i].level == DiagnosticLevel::Error);
                }
            }
            if holds_error(a.drop_last()) {
                let i = choose|i: int|
                    0 <= i < a.drop_last().len() && (#[trigger] a.drop_last()[i]).level
                        == DiagnosticLevel::Error;
                assert(a[i].level == DiagnosticLevel::Error);
            }
            if a.last().level == DiagnosticLevel::Error {
                assert(a[a.len() - 1].level == DiagnosticLevel::Error);
            }
        }
    }
}

/// A failure that was recorded before, told by its code, component and field, is counted at its
/// place: the counts add up without overflow, the latest message and session are kept, and no
/// other entry changes. A new one is added at the end.
pub proof fn law_repeated_failures_are_counted(
    entries: Seq<RuntimeDiagnostic>,
    diagnostic: RuntimeDiagnostic,
    i: int,
)
    requires
        0 <= i <= entries.len(),
        forall|j: int|
            0 <= j < i ==> (#[trigger] entries[j]).code@ != diagnostic.code@
                || entries[j].component@ != diagnostic.component@ || opt_text(entries[j].field)
                != opt_text(diagnostic.field),
        i < entries.len() ==> entries[i].code@ == diagnostic.code@ && entries[i].component@
            == diagnostic.component@ && opt_text(entries[i].field) == opt_text(diagnostic.field),
    ensures
        ({
            let r = with_failure(entries, diagnostic);
            &&& i == entries.len() ==> r == entries.push(diagnostic)
            &&& i < entries.len() ==> {
                &&& r.len() == entries.len()
                &&& forall|j: int| 0 <= j < r.len() && j != i ==> r[j] == #[trigger] entries[j]
                &&& r[i].code == entries[i].code && r[i].component == entries[i].component
                &&& r[i].field == entries[i].field
                &&& r[i].message == diagnostic.message
                &&& r[i].session_id == diagnostic.session_id
                &&& r[i].count as int == if entries[i].count + diagnostic.count > u64::MAX {
                    u64::MAX as int
                } else {
                    entries[i].count + diagnostic.count
                }
            }
        }),
{
    lemma_with_failure(entries, diagnostic, i);
}

/// A configuration is of the version that is understood, and without settings it warns about what
/// is unknown and fails on what is unsupported.
pub proof fn law_default_settings()
    ensures
        PLUGIN_CONFIG_VERSION == 1,
        default_policy().unknown_component == UnsupportedBehavior::Warn,
        default_policy().unknown_field == UnsupportedBehavior::Warn,
        default_policy().unsupported_value == UnsupportedBehavior::Error,
{
}

/// A diagnostic that comes again is counted on the entry that it has, with its newest text and
/// session; the count stops at the largest number.
pub proof fn law_repeated_diagnostics_are_counted(
    entry: RuntimeDiagnostic,
    diagnostic: RuntimeDiagnostic,
)
    ensures
        aggregated(entry, diagnostic).message == diagnostic.message,
        aggregated(entry, diagnostic).session_id == diagnostic.session_id,
        entry.count + diagnostic.count <= u64::MAX ==> aggregated(entry, diagnostic).count
            == entry.count + diagnostic.count,
        entry.count + diagnostic.count > u64::MAX ==> aggregated(entry, diagnostic).count
            == u64::MAX,
{
}

} // verus!
