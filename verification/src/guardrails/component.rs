//! Configuration of the NeMo Guardrails component.

use vstd::prelude::*;

use crate::config::{default_policy, ComponentView, ConfigPolicy, PluginComponentSpec};
use crate::discovery::{behavior_name, behavior_text};
use crate::error::{failure, invalid, PluginError, PluginErrorKind};
use crate::handlers::{builtin_problem, with_builtin, HandlersView, PluginHandlers};
use crate::json::{
    array_view, copy_json, json_view, json_wf, new_object, object3, object_view, put, text_json, Json, JsonNumber,
    JsonView, NumberView,
};
use crate::text::{concat2, concat3, text_eq};
use crate::text_map::{entries_map, TextMap};

verus! {

/// The built-in NeMo Guardrails plugin kind.
pub const NEMO_GUARDRAILS_PLUGIN_KIND: &'static str = "nemo_guardrails";

/// Remote-backend settings for a hosted NeMo Guardrails service.
pub struct RemoteBackendConfig {
    /// Base URL for the remote Guardrails service.
    pub endpoint: Option<String>,
    /// One remote Guardrails config identifier.
    pub config_id: Option<String>,
    /// Multiple remote Guardrails config identifiers to combine.
    pub config_ids: Vec<String>,
    /// Static request headers sent to the remote service.
    pub headers: TextMap<String>,
    /// Request timeout in milliseconds.
    pub timeout_millis: u64,
}

impl Default for RemoteBackendConfig {
    fn default() -> (r: Self)
        ensures
            r.endpoint is None,
            r.config_id is None,
            r.config_ids@.len() == 0,
            r.headers@ == Map::<Seq<char>, String>::empty(),
            r.timeout_millis == 3000,
    {
        RemoteBackendConfig {
            endpoint: None,
            config_id: None,
            config_ids: Vec::new(),
            headers: TextMap::new(),
            timeout_millis: 3000,
        }
    }
}

/// Local-backend settings for the Python `nemoguardrails` runtime.
pub struct LocalBackendConfig {
    /// Optional import path for the Python runtime module.
    pub python_module: Option<String>,
    /// Optional Python executable used to run the local Guardrails worker.
    pub python_executable: Option<String>,
    /// Optional PYTHONPATH used only by the local Guardrails worker subprocess.
    pub python_path: Option<String>,
}

impl Default for LocalBackendConfig {
    fn default() -> (r: Self)
        ensures
            r.python_module is None,
            r.python_executable is None,
            r.python_path is None,
    {
        LocalBackendConfig { python_module: None, python_executable: None, python_path: None }
    }
}

/// Rail-selection shape used by Guardrails generation options.
pub enum RailSelector {
    /// Enable or disable the whole rail family.
    Enabled(bool),
    /// Enable only named rails within a family.
    Named(Vec<String>),
}

/// Request-time rail selection for Guardrails generation.
///
/// These are backend request options, not top-level NeMo Relay interception surfaces.
pub struct RequestRailsConfig {
    /// Input rails selection.
    pub input: Option<RailSelector>,
    /// Output rails selection.
    pub output: Option<RailSelector>,
    /// Retrieval rails selection.
    pub retrieval: Option<RailSelector>,
    /// Dialog rails selection.
    pub dialog: Option<bool>,
    /// Tool-output rails selection.
    pub tool_output: Option<RailSelector>,
    /// Tool-input rails selection.
    pub tool_input: Option<RailSelector>,
}

impl Default for RequestRailsConfig {
    fn default() -> (r: Self)
        ensures
            r.input is None,
            r.output is None,
            r.retrieval is None,
            r.dialog is None,
            r.tool_output is None,
            r.tool_input is None,
    {
        RequestRailsConfig {
            input: None,
            output: None,
            retrieval: None,
            dialog: None,
            tool_output: None,
            tool_input: None,
        }
    }
}

/// Default request semantics applied by the selected Guardrails backend.
pub struct RequestDefaultsConfig {
    /// Default context object passed into Guardrails requests.
    pub context: Option<Json>,
    /// Default remote thread identifier for continuation-aware requests.
    pub thread_id: Option<String>,
    /// Default remote Guardrails state payload for continuation-aware requests.
    pub state: Option<Json>,
    /// Default request-time rail selection.
    pub rails: Option<RequestRailsConfig>,
    /// Default model parameters applied to Guardrails-backed LLM calls.
    pub llm_params: Option<Json>,
    /// Whether to include raw LLM output in Guardrails responses.
    pub llm_output: Option<bool>,
    /// Default output variables selection.
    pub output_vars: Option<Json>,
    /// Default generation-log selection.
    pub log: Option<Json>,
}

impl Default for RequestDefaultsConfig {
    fn default() -> (r: Self)
        ensures
            r.context is None,
            r.thread_id is None,
            r.state is None,
            r.rails is None,
            r.llm_params is None,
            r.llm_output is None,
            r.output_vars is None,
            r.log is None,
    {
        RequestDefaultsConfig {
            context: None,
            thread_id: None,
            state: None,
            rails: None,
            llm_params: None,
            llm_output: None,
            output_vars: None,
            log: None,
        }
    }
}

/// Canonical config document for the built-in NeMo Guardrails component.
pub struct NeMoGuardrailsConfig {
    /// NeMo Guardrails config schema version.
    pub version: u32,
    /// Backend mode: `remote` or `local`.
    pub mode: String,
    /// Path to a native NeMo Guardrails config directory.
    pub config_path: Option<String>,
    /// Inline native NeMo Guardrails YAML config.
    pub config_yaml: Option<String>,
    /// Optional inline Colang content. Valid only with `config_yaml`.
    pub colang_content: Option<String>,
    /// Provider request/response codec for LLM-managed surfaces.
    pub codec: Option<String>,
    /// Whether to run input rails around managed LLM execution.
    pub input: bool,
    /// Whether to run output rails around managed LLM execution.
    pub output: bool,
    /// Whether to run tool-input rails around managed tool execution.
    pub tool_input: bool,
    /// Whether to run tool-output rails around managed tool execution.
    pub tool_output: bool,
    /// Intercept priority. Lower values run earlier.
    pub priority: i32,
    /// Remote-backend settings used when `mode = "remote"`.
    pub remote: Option<RemoteBackendConfig>,
    /// Local-backend settings used when `mode = "local"`.
    pub local: Option<LocalBackendConfig>,
    /// Default request semantics passed through to the selected Guardrails backend.
    ///
    /// This models request-time concepts such as rail selection and generation options
    /// without claiming backend parity for every Guardrails feature.
    pub request_defaults: Option<RequestDefaultsConfig>,
    /// Component-local unsupported-config policy.
    pub policy: ConfigPolicy,
}

impl Default for NeMoGuardrailsConfig {
    fn default() -> (r: Self)
        ensures
            r.version == 1,
            r.mode@ == "remote"@,
            r.config_path is None,
            r.config_yaml is None,
            r.colang_content is None,
            r.codec is None,
            r.input,
            r.output,
            !r.tool_input,
            !r.tool_output,
            r.priority == 100,
            r.remote is None,
            r.local is None,
            r.request_defaults is None,
            r.policy == default_policy(),
    {
        NeMoGuardrailsConfig {
            version: 1,
            mode: "remote".to_owned(),
            config_path: None,
            config_yaml: None,
            colang_content: None,
            codec: None,
            input: true,
            output: true,
            tool_input: false,
            tool_output: false,
            priority: 100,
            remote: None,
            local: None,
            request_defaults: None,
            policy: ConfigPolicy::default(),
        }
    }
}

/// Top-level NeMo Guardrails component wrapper.
pub struct ComponentSpec {
    /// Whether the component should be activated.
    pub enabled: bool,
    /// Component-local NeMo Guardrails config.
    pub config: NeMoGuardrailsConfig,
}

/// An object with a further field, where there is a value for it.
pub open spec fn with_field(
    object: Map<Seq<char>, JsonView>,
    key: Seq<char>,
    value: Option<JsonView>,
) -> Map<Seq<char>, JsonView> {
    match value {
        Some(v) => object.insert(key, v),
        None => object,
    }
}

/// An optional text as JSON.
pub open spec fn opt_text_json(value: Option<String>) -> Option<JsonView> {
    match value {
        Some(s) => Some(JsonView::Text(s@)),
        None => None,
    }
}

/// An optional boolean as JSON.
pub open spec fn opt_bool_json(value: Option<bool>) -> Option<JsonView> {
    match value {
        Some(b) => Some(JsonView::Bool(b)),
        None => None,
    }
}

/// An optional value.
pub open spec fn opt_value(value: Option<Json>) -> Option<JsonView> {
    match value {
        Some(v) => Some(json_view(v)),
        None => None,
    }
}

/// A list of texts as JSON.
pub open spec fn texts_json(items: Seq<String>) -> JsonView {
    JsonView::Array(Seq::new(items.len(), |i: int| JsonView::Text(items[i]@)))
}

/// Headers as JSON.
pub open spec fn headers_json(headers: TextMap<String>) -> JsonView {
    JsonView::Object(headers@.map_values(|v: String| JsonView::Text(v@)))
}

/// A rail selection as JSON.
pub open spec fn selector_json(selector: RailSelector) -> JsonView {
    match selector {
        RailSelector::Enabled(b) => JsonView::Bool(b),
        RailSelector::Named(names) => texts_json(names@),
    }
}

/// An optional rail selection as JSON.
pub open spec fn opt_selector(selector: Option<RailSelector>) -> Option<JsonView> {
    match selector {
        Some(s) => Some(selector_json(s)),
        None => None,
    }
}

/// Rails as the fields of a JSON object.
pub open spec fn rails_map(rails: RequestRailsConfig) -> Map<Seq<char>, JsonView> {
    let a = with_field(Map::empty(), "input"@, opt_selector(rails.input));
    let b = with_field(a, "output"@, opt_selector(rails.output));
    let c = with_field(b, "retrieval"@, opt_selector(rails.retrieval));
    let d = with_field(c, "dialog"@, opt_bool_json(rails.dialog));
    let e = with_field(d, "tool_output"@, opt_selector(rails.tool_output));
    with_field(e, "tool_input"@, opt_selector(rails.tool_input))
}

/// Request defaults as JSON.
pub open spec fn defaults_json(d: RequestDefaultsConfig) -> JsonView {
    let a = with_field(Map::empty(), "context"@, opt_value(d.context));
    let b = with_field(a, "thread_id"@, opt_text_json(d.thread_id));
    let c = with_field(b, "state"@, opt_value(d.state));
    let e = with_field(
        c,
        "rails"@,
        match d.rails {
            Some(rails) => Some(JsonView::Object(rails_map(rails))),
            None => None,
        },
    );
    let f = with_field(e, "llm_params"@, opt_value(d.llm_params));
    let g = with_field(f, "llm_output"@, opt_bool_json(d.llm_output));
    let h = with_field(g, "output_vars"@, opt_value(d.output_vars));
    JsonView::Object(with_field(h, "log"@, opt_value(d.log)))
}

/// Remote-backend settings as JSON.
pub open spec fn remote_json(remote: RemoteBackendConfig) -> JsonView {
    let a = with_field(Map::empty(), "endpoint"@, opt_text_json(remote.endpoint));
    let b = with_field(a, "config_id"@, opt_text_json(remote.config_id));
    let c = if remote.config_ids@.len() == 0 {
        b
    } else {
        b.insert("config_ids"@, texts_json(remote.config_ids@))
    };
    let d = c.insert("headers"@, headers_json(remote.headers));
    JsonView::Object(
        d.insert(
            "timeout_millis"@,
            JsonView::Number(NumberView::Unsigned(remote.timeout_millis)),
        ),
    )
}

/// Local-backend settings as JSON.
pub open spec fn local_json(local: LocalBackendConfig) -> JsonView {
    let a = with_field(Map::empty(), "python_module"@, opt_text_json(local.python_module));
    let b = with_field(a, "python_executable"@, opt_text_json(local.python_executable));
    JsonView::Object(with_field(b, "python_path"@, opt_text_json(local.python_path)))
}

/// A policy as JSON.
pub open spec fn policy_json(policy: ConfigPolicy) -> JsonView {
    JsonView::Object(
        map![
            "unknown_component"@ => JsonView::Text(behavior_name(policy.unknown_component)),
            "unknown_field"@ => JsonView::Text(behavior_name(policy.unknown_field)),
            "unsupported_value"@ => JsonView::Text(behavior_name(policy.unsupported_value)),
        ],
    )
}

/// A priority as a JSON number.
pub open spec fn priority_json(priority: i32) -> JsonView {
    if priority < 0 {
        JsonView::Number(NumberView::Negative(priority as i64))
    } else {
        JsonView::Number(NumberView::Unsigned(priority as u64))
    }
}

/// The object that a configuration is written as. Settings that are not given are left out.
pub open spec fn config_json(c: NeMoGuardrailsConfig) -> Map<Seq<char>, JsonView> {
    let a = map![
        "version"@ => JsonView::Number(NumberView::Unsigned(c.version as u64)),
        "mode"@ => JsonView::Text(c.mode@),
    ];
    let b = with_field(a, "config_path"@, opt_text_json(c.config_path));
    let d = with_field(b, "config_yaml"@, opt_text_json(c.config_yaml));
    let e = with_field(d, "colang_content"@, opt_text_json(c.colang_content));
    let f = with_field(e, "codec"@, opt_text_json(c.codec));
    let g = f.insert("input"@, JsonView::Bool(c.input)).insert(
        "output"@,
        JsonView::Bool(c.output),
    ).insert("tool_input"@, JsonView::Bool(c.tool_input)).insert(
        "tool_output"@,
        JsonView::Bool(c.tool_output),
    ).insert("priority"@, priority_json(c.priority));
    let h = with_field(
        g,
        "remote"@,
        match c.remote {
            Some(remote) => Some(remote_json(remote)),
            None => None,
        },
    );
    let i = with_field(
        h,
        "local"@,
        match c.local {
            Some(local) => Some(local_json(local)),
            None => None,
        },
    );
    let j = with_field(
        i,
        "request_defaults"@,
        match c.request_defaults {
            Some(defaults) => Some(defaults_json(defaults)),
            None => None,
        },
    );
    j.insert("policy"@, policy_json(c.policy))
}

/// Sets a field, where there is a value for it.
pub fn put_opt(object: &mut TextMap<Json>, key: &str, value: Option<Json>)
    ensures
        object_view(final(object).entries@) == with_field(
            object_view(old(object).entries@),
            key@,
            opt_value(value),
        ),
        json_wf(Json::Object(*old(object))) && (value matches Some(v) ==> json_wf(v)) ==> json_wf(
            Json::Object(*final(object)),
        ),
{
    match value {
        Some(v) => put(object, key, v),
        None => {},
    }
}

/// An optional text as JSON.
pub fn opt_text_value(value: &Option<String>) -> (r: Option<Json>)
    ensures
        opt_value(r) == opt_text_json(*value),
        r matches Some(v) ==> json_wf(v),
{
    match value {
        Some(s) => Some(text_json(s.as_str())),
        None => None,
    }
}

/// A copy of an optional value.
pub fn opt_copy(value: &Option<Json>) -> (r: Option<Json>)
    ensures
        opt_value(r) == opt_value(*value),
{
    match value {
        Some(v) => Some(copy_json(v)),
        None => None,
    }
}

/// An optional boolean as JSON.
pub fn opt_bool_value(value: Option<bool>) -> (r: Option<Json>)
    ensures
        opt_value(r) == opt_bool_json(value),
        r matches Some(v) ==> json_wf(v),
{
    match value {
        Some(b) => Some(Json::Bool(b)),
        None => None,
    }
}

/// A list of texts as JSON.
pub fn texts_value(items: &Vec<String>) -> (r: Json)
    ensures
        json_view(r) == texts_json(items@),
        json_wf(r),
{
    let mut values: Vec<Json> = Vec::new();
    let mut i: usize = 0;
    while i < items.len()
        invariant
            i <= items.len(),
            values.len() == i,
            forall|k: int|
                0 <= k < i ==> json_view(#[trigger] values@[k]) == JsonView::Text(items@[k]@)
                    && json_wf(values@[k]),
        decreases items.len() - i,
    {
        values.push(text_json(items[i].as_str()));
        i += 1;
    }
    assert(array_view(values@) =~= Seq::new(items@.len(), |k: int| JsonView::Text(items@[k]@)));
    Json::Array(values)
}

/// A rail selection as JSON.
pub fn selector_value(selector: &RailSelector) -> (r: Json)
    ensures
        json_view(r) == selector_json(*selector),
        json_wf(r),
{
    match selector {
        RailSelector::Enabled(b) => Json::Bool(*b),
        RailSelector::Named(names) => texts_value(names),
    }
}

/// An optional rail selection as JSON.
fn opt_selector_value(selector: &Option<RailSelector>) -> (r: Option<Json>)
    ensures
        opt_value(r) == opt_selector(*selector),
        r matches Some(v) ==> json_wf(v),
{
    match selector {
        Some(s) => Some(selector_value(s)),
        None => None,
    }
}

/// Rails as a JSON object.
pub fn rails_object(rails: &RequestRailsConfig) -> (r: TextMap<Json>)
    ensures
        object_view(r.entries@) == rails_map(*rails),
        json_wf(Json::Object(r)),
{
    let mut object = new_object();
    put_opt(&mut object, "input", opt_selector_value(&rails.input));
    put_opt(&mut object, "output", opt_selector_value(&rails.output));
    put_opt(&mut object, "retrieval", opt_selector_value(&rails.retrieval));
    put_opt(&mut object, "dialog", opt_bool_value(rails.dialog));
    put_opt(&mut object, "tool_output", opt_selector_value(&rails.tool_output));
    put_opt(&mut object, "tool_input", opt_selector_value(&rails.tool_input));
    object
}

/// Request defaults as JSON.
pub fn defaults_value(defaults: &RequestDefaultsConfig) -> (r: Json)
    ensures
        json_view(r) == defaults_json(*defaults),
{
    let mut object = new_object();
    put_opt(&mut object, "context", opt_copy(&defaults.context));
    put_opt(&mut object, "thread_id", opt_text_value(&defaults.thread_id));
    put_opt(&mut object, "state", opt_copy(&defaults.state));
    let rails = match &defaults.rails {
        Some(rails) => Some(Json::Object(rails_object(rails))),
        None => None,
    };
    put_opt(&mut object, "rails", rails);
    put_opt(&mut object, "llm_params", opt_copy(&defaults.llm_params));
    put_opt(&mut object, "llm_output", opt_bool_value(defaults.llm_output));
    put_opt(&mut object, "output_vars", opt_copy(&defaults.output_vars));
    put_opt(&mut object, "log", opt_copy(&defaults.log));
    Json::Object(object)
}

/// Local-backend settings as JSON.
fn local_value(local: &LocalBackendConfig) -> (r: Json)
    ensures
        json_view(r) == local_json(*local),
{
    let mut object = new_object();
    put_opt(&mut object, "python_module", opt_text_value(&local.python_module));
    put_opt(&mut object, "python_executable", opt_text_value(&local.python_executable));
    put_opt(&mut object, "python_path", opt_text_value(&local.python_path));
    Json::Object(object)
}

/// A policy as JSON.
fn policy_value(policy: &ConfigPolicy) -> (r: Json)
    ensures
        json_view(r) == policy_json(*policy),
{
    object3(
        "unknown_component",
        text_json(behavior_text(policy.unknown_component)),
        "unknown_field",
        text_json(behavior_text(policy.unknown_field)),
        "unsupported_value",
        text_json(behavior_text(policy.unsupported_value)),
    )
}

/// Headers as JSON.
fn headers_value(headers: &TextMap<String>) -> (r: Json)
    ensures
        json_view(r) == headers_json(*headers),
{
    let mut object = new_object();
    let mut i: usize = headers.entries.len();
    let ghost entries = headers.entries@;
    let ghost text = |v: String| JsonView::Text(v@);
    assert(entries.subrange(i as int, i as int) =~= seq![]);
    assert(object_view(object.entries@) =~= entries_map(entries.subrange(i as int, i as int)).map_values(
        text,
    ));
    while i > 0
        invariant
            i <= entries.len(),
            entries == headers.entries@,
            text == (|v: String| JsonView::Text(v@)),
            object_view(object.entries@) == entries_map(
                entries.subrange(i as int, entries.len() as int),
            ).map_values(text),
        decreases i,
    {
        i -= 1;
        put(&mut object, headers.entries[i].0.as_str(), text_json(headers.entries[i].1.as_str()));
        proof {
            let rest = entries.subrange(i + 1, entries.len() as int);
            let next = entries.subrange(i as int, entries.len() as int);
            assert(next.subrange(1, next.len() as int) =~= rest);
            assert(next[0] == entries[i as int]);
            assert(entries_map(next).map_values(text) =~= entries_map(rest).map_values(text).insert(
                entries[i as int].0@,
                JsonView::Text(entries[i as int].1@),
            ));
        }
    }
    assert(entries.subrange(0, entries.len() as int) =~= entries);
    Json::Object(object)
}

/// Remote-backend settings as JSON.
fn remote_value(remote: &RemoteBackendConfig) -> (r: Json)
    ensures
        json_view(r) == remote_json(*remote),
{
    let mut object = new_object();
    put_opt(&mut object, "endpoint", opt_text_value(&remote.endpoint));
    put_opt(&mut object, "config_id", opt_text_value(&remote.config_id));
    if remote.config_ids.len() > 0 {
        put(&mut object, "config_ids", texts_value(&remote.config_ids));
    }
    put(&mut object, "headers", headers_value(&remote.headers));
    put(
        &mut object,
        "timeout_millis",
        Json::Number(JsonNumber::Unsigned(remote.timeout_millis)),
    );
    Json::Object(object)
}

/// A priority as a JSON number.
fn priority_value(priority: i32) -> (r: Json)
    ensures
        json_view(r) == priority_json(priority),
{
    if priority < 0 {
        Json::Number(JsonNumber::Negative(priority as i64))
    } else {
        Json::Number(JsonNumber::Unsigned(priority as u64))
    }
}

/// The object that a configuration is written as.
pub fn config_object(c: &NeMoGuardrailsConfig) -> (r: TextMap<Json>)
    ensures
        object_view(r.entries@) == config_json(*c),
{
    let mut object = new_object();
    put(&mut object, "version", Json::Number(JsonNumber::Unsigned(c.version as u64)));
    put(&mut object, "mode", text_json(c.mode.as_str()));
    proof {
        reveal_strlit("version");
        reveal_strlit("mode");
        assert("version"@.len() != "mode"@.len());
        assert(object_view(object.entries@) =~= map![
            "version"@ => JsonView::Number(NumberView::Unsigned(c.version as u64)),
            "mode"@ => JsonView::Text(c.mode@),
        ]);
    }
    put_opt(&mut object, "config_path", opt_text_value(&c.config_path));
    put_opt(&mut object, "config_yaml", opt_text_value(&c.config_yaml));
    put_opt(&mut object, "colang_content", opt_text_value(&c.colang_content));
    put_opt(&mut object, "codec", opt_text_value(&c.codec));
    put(&mut object, "input", Json::Bool(c.input));
    put(&mut object, "output", Json::Bool(c.output));
    put(&mut object, "tool_input", Json::Bool(c.tool_input));
    put(&mut object, "tool_output", Json::Bool(c.tool_output));
    put(&mut object, "priority", priority_value(c.priority));
    match &c.remote {
        Some(remote) => put(&mut object, "remote", remote_value(remote)),
        None => {},
    }
    match &c.local {
        Some(local) => put(&mut object, "local", local_value(local)),
        None => {},
    }
    match &c.request_defaults {
        Some(defaults) => put(&mut object, "request_defaults", defaults_value(defaults)),
        None => {},
    }
    put(&mut object, "policy", policy_value(&c.policy));
    object
}

impl ComponentSpec {
    /// Creates an enabled NeMo Guardrails component spec.
    pub fn new(config: NeMoGuardrailsConfig) -> (r: Self)
        ensures
            r.enabled,
            r.config == config,
    {
        ComponentSpec { enabled: true, config }
    }

    /// The component as an entry of a plugin configuration.
    pub fn into_component(self) -> (r: PluginComponentSpec)
        ensures
            r@ == (ComponentView {
                kind: "nemo_guardrails"@,
                enabled: self.enabled,
                config: config_json(self.config),
            }),
    {
        PluginComponentSpec {
            kind: NEMO_GUARDRAILS_PLUGIN_KIND.to_owned(),
            enabled: self.enabled,
            config: config_object(&self.config),
        }
    }
}

/// Registers the `nemo_guardrails` component kind in the plugin registry.
pub fn register_nemo_guardrails_component(handlers: &mut PluginHandlers) -> (r: Result<
    (),
    PluginError,
>)
    requires
        old(handlers).wf(),
    ensures
        final(handlers).wf(),
        failure(r) == builtin_problem(old(handlers)@, "nemo_guardrails"@),
        final(handlers)@ == with_builtin(old(handlers)@, "nemo_guardrails"@, false),
{
    handlers.register_builtin_plugin(NEMO_GUARDRAILS_PLUGIN_KIND, false)
}

/// Deregisters the `nemo_guardrails` component kind from the plugin registry.
pub fn deregister_nemo_guardrails_component(handlers: &mut PluginHandlers) -> (r: bool)
    requires
        old(handlers).wf(),
    ensures
        final(handlers).wf(),
        r == old(handlers)@.plugins.contains_key("nemo_guardrails"@),
        final(handlers)@ == (HandlersView {
            plugins: old(handlers)@.plugins.remove("nemo_guardrails"@),
            ..old(handlers)@
        }),
{
    handlers.deregister_plugin(NEMO_GUARDRAILS_PLUGIN_KIND)
}

/// The error of a component configuration that does not decode, by the decoder's text.
pub fn undecodable_guardrails_config(shown: &str) -> (r: PluginError)
    ensures
        r@ == (
            PluginErrorKind::InvalidConfig,
            "invalid NeMo Guardrails plugin config: "@ + shown@,
        ),
{
    PluginError::InvalidConfig(concat2("invalid NeMo Guardrails plugin config: ", shown))
}

/// The backend that a component runs its rails on.
#[derive(Clone, Copy, Debug, PartialEq, Eq, Structural)]
pub enum GuardrailsBackend {
    /// A hosted Guardrails service.
    Remote,
    /// A local Python worker.
    Local,
}

/// The backend of a mode, where there is one.
pub open spec fn backend_of(mode: Seq<char>) -> Option<GuardrailsBackend> {
    if mode == "remote"@ {
        Some(GuardrailsBackend::Remote)
    } else if mode == "local"@ {
        Some(GuardrailsBackend::Local)
    } else {
        None
    }
}

/// Chooses the backend that a configuration asks for.
pub fn select_guardrails_backend(config: &NeMoGuardrailsConfig) -> (r: Result<
    GuardrailsBackend,
    PluginError,
>)
    ensures
        failure(r) == match backend_of(config.mode@) {
            Some(_) => None,
            None => invalid(
                "unsupported NeMo Guardrails mode '"@ + config.mode@ + "'"@,
            ),
        },
        r matches Ok(backend) ==> backend_of(config.mode@) == Some(backend),
{
    if text_eq(config.mode.as_str(), "remote") {
        Ok(GuardrailsBackend::Remote)
    } else if text_eq(config.mode.as_str(), "local") {
        Ok(GuardrailsBackend::Local)
    } else {
        Err(
            PluginError::InvalidConfig(
                concat3("unsupported NeMo Guardrails mode '", config.mode.as_str(), "'"),
            ),
        )
    }
}

/// How single settings are written: texts, booleans and documents as they are, lists item by item,
/// and nothing where nothing is set.
pub proof fn law_settings_are_written_as_they_are(
    text: String,
    flag: bool,
    value: Json,
    items: Seq<String>,
    names: Vec<String>,
    headers: TextMap<String>,
    priority: i32,
    i: int,
    key: Seq<char>,
)
    ensures
        opt_text_json(Some(text)) == Some(JsonView::Text(text@)),
        opt_text_json(None) is None,
        opt_bool_json(Some(flag)) == Some(JsonView::Bool(flag)),
        opt_bool_json(None) is None,
        opt_value(Some(value)) == Some(json_view(value)),
        opt_value(None) is None,
        texts_json(items) is Array && texts_json(items)->Array_0.len() == items.len(),
        0 <= i < items.len() ==> texts_json(items)->Array_0[i] == JsonView::Text(items[i]@),
        selector_json(RailSelector::Enabled(flag)) == JsonView::Bool(flag),
        selector_json(RailSelector::Named(names)) == texts_json(names@),
        opt_selector(Some(RailSelector::Enabled(flag))) == Some(JsonView::Bool(flag)),
        opt_selector(Some(RailSelector::Named(names))) == Some(texts_json(names@)),
        opt_selector(None) is None,
        crate::json::field(headers_json(headers), key) is Some <==> headers@.contains_key(key),
        headers@.contains_key(key) ==> crate::json::field(headers_json(headers), key) == Some(
            JsonView::Text(headers@[key]@),
        ),
        priority >= 0 ==> priority_json(priority) == JsonView::Number(
            NumberView::Unsigned(priority as u64),
        ),
        priority < 0 ==> priority_json(priority) == JsonView::Number(
            NumberView::Negative(priority as i64),
        ),
{
}

/// A field that is set is added or replaced, one that is not leaves the object as it is.
pub proof fn law_set_fields_are_added(
    object: Map<Seq<char>, JsonView>,
    key: Seq<char>,
    value: JsonView,
    other: Seq<char>,
)
    ensures
        with_field(object, key, None) == object,
        with_field(object, key, Some(value)).contains_key(key),
        with_field(object, key, Some(value))[key] == value,
        other != key ==> crate::json::field(
            JsonView::Object(with_field(object, key, Some(value))),
            other,
        ) == crate::json::field(JsonView::Object(object), other),
{
}

/// The default rails of a request are written under their names.
pub proof fn law_rails_are_written_by_name(rails: RequestRailsConfig)
    ensures
        crate::json::field(JsonView::Object(rails_map(rails)), "input"@) == opt_selector(
            rails.input,
        ),
        crate::json::field(JsonView::Object(rails_map(rails)), "output"@) == opt_selector(
            rails.output,
        ),
        crate::json::field(JsonView::Object(rails_map(rails)), "retrieval"@) == opt_selector(
            rails.retrieval,
        ),
        crate::json::field(JsonView::Object(rails_map(rails)), "dialog"@) == opt_bool_json(
            rails.dialog,
        ),
        crate::json::field(JsonView::Object(rails_map(rails)), "tool_output"@) == opt_selector(
            rails.tool_output,
        ),
        crate::json::field(JsonView::Object(rails_map(rails)), "tool_input"@) == opt_selector(
            rails.tool_input,
        ),
{
    reveal_strlit("input");
    reveal_strlit("output");
    reveal_strlit("retrieval");
    reveal_strlit("dialog");
    reveal_strlit("tool_output");
    reveal_strlit("tool_input");
    assert("input"@.len() == 5 && "output"@.len() == 6 && "retrieval"@.len() == 9
        && "dialog"@.len() == 6 && "tool_output"@.len() == 11 && "tool_input"@.len() == 10);
    assert("output"@[0] == 'o' && "dialog"@[0] == 'd');
}

/// The request defaults are written under their names.
pub proof fn law_defaults_are_written_by_name(d: RequestDefaultsConfig)
    ensures
        crate::json::field(defaults_json(d), "context"@) == opt_value(d.context),
        crate::json::field(defaults_json(d), "thread_id"@) == opt_text_json(d.thread_id),
        crate::json::field(defaults_json(d), "state"@) == opt_value(d.state),
        d.rails is None ==> crate::json::field(defaults_json(d), "rails"@) is None,
        d.rails matches Some(rails) ==> crate::json::field(defaults_json(d), "rails"@) == Some(
            JsonView::Object(rails_map(rails)),
        ),
        crate::json::field(defaults_json(d), "llm_params"@) == opt_value(d.llm_params),
        crate::json::field(defaults_json(d), "llm_output"@) == opt_bool_json(d.llm_output),
        crate::json::field(defaults_json(d), "output_vars"@) == opt_value(d.output_vars),
        crate::json::field(defaults_json(d), "log"@) == opt_value(d.log),
{
    reveal_strlit("context");
    reveal_strlit("thread_id");
    reveal_strlit("state");
    reveal_strlit("rails");
    reveal_strlit("llm_params");
    reveal_strlit("llm_output");
    reveal_strlit("output_vars");
    reveal_strlit("log");
    assert("context"@.len() == 7 && "thread_id"@.len() == 9 && "state"@.len() == 5
        && "rails"@.len() == 5 && "llm_params"@.len() == 10 && "llm_output"@.len() == 10
        && "output_vars"@.len() == 11 && "log"@.len() == 3);
    assert("state"@[0] == 's' && "rails"@[0] == 'r');
    assert("llm_params"@[4] == 'p' && "llm_output"@[4] == 'o');
}

/// The settings of both backends and the policy are written under their names.
pub proof fn law_backends_are_written_by_name(
    remote: RemoteBackendConfig,
    local: LocalBackendConfig,
    policy: ConfigPolicy,
)
    ensures
        crate::json::field(remote_json(remote), "endpoint"@) == opt_text_json(remote.endpoint),
        crate::json::field(remote_json(remote), "config_id"@) == opt_text_json(remote.config_id),
        remote.config_ids@.len() == 0 ==> crate::json::field(remote_json(remote), "config_ids"@)
            is None,
        remote.config_ids@.len() > 0 ==> crate::json::field(remote_json(remote), "config_ids"@)
            == Some(texts_json(remote.config_ids@)),
        crate::json::field(remote_json(remote), "headers"@) == Some(headers_json(remote.headers)),
        crate::json::field(remote_json(remote), "timeout_millis"@) == Some(
            JsonView::Number(NumberView::Unsigned(remote.timeout_millis)),
        ),
        crate::json::field(local_json(local), "python_module"@) == opt_text_json(
            local.python_module,
        ),
        crate::json::field(local_json(local), "python_executable"@) == opt_text_json(
            local.python_executable,
        ),
        crate::json::field(local_json(local), "python_path"@) == opt_text_json(local.python_path),
        crate::json::field(policy_json(policy), "unknown_component"@) == Some(
            JsonView::Text(behavior_name(policy.unknown_component)),
        ),
        crate::json::field(policy_json(policy), "unknown_field"@) == Some(
            JsonView::Text(behavior_name(policy.unknown_field)),
        ),
        crate::json::field(policy_json(policy), "unsupported_value"@) == Some(
            JsonView::Text(behavior_name(policy.unsupported_value)),
        ),
{
    reveal_strlit("endpoint");
    reveal_strlit("config_id");
    reveal_strlit("config_ids");
    reveal_strlit("headers");
    reveal_strlit("timeout_millis");
    reveal_strlit("python_module");
    reveal_strlit("python_executable");
    reveal_strlit("python_path");
    reveal_strlit("unknown_component");
    reveal_strlit("unknown_field");
    reveal_strlit("unsupported_value");
    assert("endpoint"@.len() == 8 && "config_id"@.len() == 9 && "config_ids"@.len() == 10
        && "headers"@.len() == 7 && "timeout_millis"@.len() == 14);
    assert("python_module"@.len() == 13 && "python_executable"@.len() == 17 && "python_path"@.len()
        == 11);
    assert("unknown_component"@.len() == 17 && "unknown_field"@.len() == 13
        && "unsupported_value"@.len() == 17);
    assert("unknown_component"@[2] == 'k' && "unsupported_value"@[2] == 's');
}

/// A configuration is written setting by setting under its name.
pub proof fn law_configurations_are_written_by_name(c: NeMoGuardrailsConfig)
    ensures
        config_json(c)["version"@] == JsonView::Number(NumberView::Unsigned(c.version as u64)),
        config_json(c)["mode"@] == JsonView::Text(c.mode@),
        crate::json::field(JsonView::Object(config_json(c)), "config_path"@) == opt_text_json(
            c.config_path,
        ),
        crate::json::field(JsonView::Object(config_json(c)), "config_yaml"@) == opt_text_json(
            c.config_yaml,
        ),
        crate::json::field(JsonView::Object(config_json(c)), "colang_content"@) == opt_text_json(
            c.colang_content,
        ),
        crate::json::field(JsonView::Object(config_json(c)), "codec"@) == opt_text_json(c.codec),
        crate::json::field(JsonView::Object(config_json(c)), "input"@) == Some(
            JsonView::Bool(c.input),
        ),
        crate::json::field(JsonView::Object(config_json(c)), "output"@) == Some(
            JsonView::Bool(c.output),
        ),
        crate::json::field(JsonView::Object(config_json(c)), "tool_input"@) == Some(
            JsonView::Bool(c.tool_input),
        ),
        crate::json::field(JsonView::Object(config_json(c)), "tool_output"@) == Some(
            JsonView::Bool(c.tool_output),
        ),
        crate::json::field(JsonView::Object(config_json(c)), "priority"@) == Some(
            priority_json(c.priority),
        ),
        c.remote is None ==> crate::json::field(JsonView::Object(config_json(c)), "remote"@) is None,
        c.remote matches Some(remote) ==> crate::json::field(
            JsonView::Object(config_json(c)),
            "remote"@,
        ) == Some(remote_json(remote)),
        c.local is None ==> crate::json::field(JsonView::Object(config_json(c)), "local"@) is None,
        c.local matches Some(local) ==> crate::json::field(
            JsonView::Object(config_json(c)),
            "local"@,
        ) == Some(local_json(local)),
        c.request_defaults is None ==> crate::json::field(
            JsonView::Object(config_json(c)),
            "request_defaults"@,
        ) is None,
        c.request_defaults matches Some(defaults) ==> crate::json::field(
            JsonView::Object(config_json(c)),
            "request_defaults"@,
        ) == Some(defaults_json(defaults)),
        crate::json::field(JsonView::Object(config_json(c)), "policy"@) == Some(
            policy_json(c.policy),
        ),
{
    reveal_strlit("version");
    reveal_strlit("mode");
    reveal_strlit("config_path");
    reveal_strlit("config_yaml");
    reveal_strlit("colang_content");
    reveal_strlit("codec");
    reveal_strlit("input");
    reveal_strlit("output");
    reveal_strlit("tool_input");
    reveal_strlit("tool_output");
    reveal_strlit("priority");
    reveal_strlit("remote");
    reveal_strlit("local");
    reveal_strlit("request_defaults");
    reveal_strlit("policy");
    assert("version"@.len() == 7 && "mode"@.len() == 4 && "config_path"@.len() == 11
        && "config_yaml"@.len() == 11 && "colang_content"@.len() == 14 && "codec"@.len() == 5
        && "input"@.len() == 5 && "output"@.len() == 6 && "tool_input"@.len() == 10
        && "tool_output"@.len() == 11 && "priority"@.len() == 8 && "remote"@.len() == 6
        && "local"@.len() == 5 && "request_defaults"@.len() == 16 && "policy"@.len() == 6);
    assert("config_path"@[7] == 'p' && "config_yaml"@[7] == 'y' && "tool_output"@[7] == 't');
    assert("config_path"@[0] == 'c' && "config_yaml"@[0] == 'c' && "tool_output"@[0] == 't');
    assert("codec"@[0] == 'c' && "input"@[0] == 'i' && "local"@[0] == 'l');
    assert("output"@[0] == 'o' && "remote"@[0] == 'r' && "policy"@[0] == 'p');
}

/// The mode names the backend.
pub proof fn law_modes_select_the_backend(mode: Seq<char>)
    ensures
        backend_of(mode) == Some(GuardrailsBackend::Remote) <==> mode == "remote"@,
        backend_of(mode) == Some(GuardrailsBackend::Local) <==> mode == "local"@,
        NEMO_GUARDRAILS_PLUGIN_KIND@ == "nemo_guardrails"@,
{
    reveal_strlit("remote");
    reveal_strlit("local");
    assert("remote"@.len() == 6 && "local"@.len() == 5);
}

} // verus!
