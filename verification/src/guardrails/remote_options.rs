//! The Guardrails options that requests to a hosted service carry.

use vstd::prelude::*;

use crate::config::copy_object;
use crate::guardrails::component::{
    opt_bool_json, opt_bool_value, opt_copy, opt_selector, opt_text_json, opt_text_value, opt_value,
    put_opt, rails_map, rails_object, selector_value, texts_json, texts_value, with_field,
    RequestDefaultsConfig, RequestRailsConfig,
};
use crate::json::{json_view, new_object, object_view, put, Json, JsonView};
use crate::text_map::TextMap;

verus! {

/// Which side of a tool call a check is about.
#[derive(Clone, Copy, Debug, PartialEq, Eq, Structural)]
pub enum RemoteCheckKind {
    /// Its arguments.
    Input,
    /// Its result.
    Output,
}

/// The identity of the configuration, and what every request carries by default.
pub open spec fn base_map(
    config_id: Option<String>,
    config_ids: Seq<String>,
    defaults: Option<RequestDefaultsConfig>,
) -> Map<Seq<char>, JsonView> {
    let a = with_field(Map::empty(), "config_id"@, opt_text_json(config_id));
    let b = if config_ids.len() == 0 {
        a
    } else {
        a.insert("config_ids"@, texts_json(config_ids))
    };
    match defaults {
        None => b,
        Some(d) => with_field(
            with_field(
                with_field(b, "context"@, opt_value(d.context)),
                "thread_id"@,
                opt_text_json(d.thread_id),
            ),
            "state"@,
            opt_value(d.state),
        ),
    }
}

/// The rails that requests select by default.
pub open spec fn default_rails(defaults: Option<RequestDefaultsConfig>) -> Option<
    RequestRailsConfig,
> {
    match defaults {
        Some(d) => d.rails,
        None => None,
    }
}

/// The rails that an LLM request selects: the default ones, without the surfaces that are not enabled.
pub open spec fn llm_rails_map(
    defaults: Option<RequestDefaultsConfig>,
    input_enabled: bool,
    output_enabled: bool,
) -> Map<Seq<char>, JsonView> {
    let selected = match default_rails(defaults) {
        Some(rails) => rails_map(rails),
        None => Map::empty(),
    };
    let a = if input_enabled {
        selected
    } else {
        selected.insert("input"@, JsonView::Bool(false))
    };
    if output_enabled {
        a
    } else {
        a.insert("output"@, JsonView::Bool(false))
    }
}

/// An object, where it has fields.
pub open spec fn unless_empty(object: Map<Seq<char>, JsonView>) -> Option<JsonView> {
    if object == Map::<Seq<char>, JsonView>::empty() {
        None
    } else {
        Some(JsonView::Object(object))
    }
}

/// The generation options of an LLM request.
pub open spec fn llm_options_map(
    defaults: Option<RequestDefaultsConfig>,
    input_enabled: bool,
    output_enabled: bool,
) -> Map<Seq<char>, JsonView> {
    let a = with_field(
        Map::empty(),
        "rails"@,
        unless_empty(llm_rails_map(defaults, input_enabled, output_enabled)),
    );
    match defaults {
        None => a,
        Some(d) => with_field(
            with_field(
                with_field(
                    with_field(a, "llm_params"@, opt_value(d.llm_params)),
                    "llm_output"@,
                    opt_bool_json(d.llm_output),
                ),
                "output_vars"@,
                opt_value(d.output_vars),
            ),
            "log"@,
            opt_value(d.log),
        ),
    }
}

/// What an LLM request tells the service about rails.
pub open spec fn llm_guardrails_map(
    config_id: Option<String>,
    config_ids: Seq<String>,
    defaults: Option<RequestDefaultsConfig>,
    input_enabled: bool,
    output_enabled: bool,
) -> Map<Seq<char>, JsonView> {
    with_field(
        base_map(config_id, config_ids, defaults),
        "options"@,
        unless_empty(llm_options_map(defaults, input_enabled, output_enabled)),
    )
}

/// The rail selection that is configured for a side of a tool call; every rail where none is.
pub open spec fn tool_selection(
    defaults: Option<RequestDefaultsConfig>,
    kind: RemoteCheckKind,
) -> JsonView {
    let configured = match default_rails(defaults) {
        Some(rails) => match kind {
            RemoteCheckKind::Input => opt_selector(rails.tool_input),
            RemoteCheckKind::Output => opt_selector(rails.tool_output),
        },
        None => None,
    };
    match configured {
        Some(selection) => selection,
        None => JsonView::Bool(true),
    }
}

/// The rails that a check of a tool call selects. The service sees a call that it has not made itself
/// from the other side: arguments are its tool output, and a result is its tool input.
pub open spec fn tool_rails_map(
    defaults: Option<RequestDefaultsConfig>,
    kind: RemoteCheckKind,
) -> Map<Seq<char>, JsonView> {
    let off = JsonView::Bool(false);
    map![
        "input"@ => off,
        "output"@ => off,
        "dialog"@ => off,
        "retrieval"@ => off,
        "tool_input"@ => match kind {
            RemoteCheckKind::Input => off,
            RemoteCheckKind::Output => tool_selection(defaults, kind),
        },
        "tool_output"@ => match kind {
            RemoteCheckKind::Input => tool_selection(defaults, kind),
            RemoteCheckKind::Output => off,
        },
    ]
}

/// The log selection of a check: the default one, with the rails that were activated.
pub open spec fn tool_log_map(defaults: Option<RequestDefaultsConfig>) -> Map<
    Seq<char>,
    JsonView,
> {
    let selected = match defaults {
        Some(d) => match opt_value(d.log) {
            Some(JsonView::Object(log)) => log,
            _ => Map::empty(),
        },
        None => Map::empty(),
    };
    selected.insert("activated_rails"@, JsonView::Bool(true))
}

/// What a check of a tool call tells the service about rails.
pub open spec fn tool_guardrails_map(
    kind: RemoteCheckKind,
    config_id: Option<String>,
    config_ids: Seq<String>,
    defaults: Option<RequestDefaultsConfig>,
) -> Map<Seq<char>, JsonView> {
    base_map(config_id, config_ids, defaults).insert(
        "options"@,
        JsonView::Object(
            map![
                "rails"@ => JsonView::Object(tool_rails_map(defaults, kind)),
                "log"@ => JsonView::Object(tool_log_map(defaults)),
            ],
        ),
    )
}

/// The default request semantics, where they are given.
pub open spec fn opt_defaults(defaults: Option<&RequestDefaultsConfig>) -> Option<
    RequestDefaultsConfig,
> {
    match defaults {
        Some(d) => Some(*d),
        None => None,
    }
}

/// The identity of the configuration, and what every request carries by default.
pub fn build_base_guardrails_config(
    config_id: &Option<String>,
    config_ids: &Vec<String>,
    request_defaults: Option<&RequestDefaultsConfig>,
) -> (r: TextMap<Json>)
    ensures
        object_view(r.entries@) == base_map(
            *config_id,
            config_ids@,
            opt_defaults(request_defaults),
        ),
{
    let mut guardrails = new_object();
    put_opt(&mut guardrails, "config_id", opt_text_value(config_id));
    if config_ids.len() > 0 {
        put(&mut guardrails, "config_ids", texts_value(config_ids));
    }
    match request_defaults {
        Some(defaults) => {
            put_opt(&mut guardrails, "context", opt_copy(&defaults.context));
            put_opt(&mut guardrails, "thread_id", opt_text_value(&defaults.thread_id));
            put_opt(&mut guardrails, "state", opt_copy(&defaults.state));
        },
        None => {},
    }
    guardrails
}

/// An object, where it has fields.
fn filled_object(object: TextMap<Json>) -> (r: Option<Json>)
    ensures
        opt_value(r) == unless_empty(object_view(object.entries@)),
{
    if object.entries.len() == 0 {
        None
    } else {
        assert(object_view(object.entries@).contains_key(object.entries@[0].0@));
        Some(Json::Object(object))
    }
}

/// The rails that an LLM request selects.
fn build_llm_rails_option(
    request_defaults: Option<&RequestDefaultsConfig>,
    input_enabled: bool,
    output_enabled: bool,
) -> (r: Option<Json>)
    ensures
        opt_value(r) == unless_empty(
            llm_rails_map(opt_defaults(request_defaults), input_enabled, output_enabled),
        ),
{
    let mut rails = match request_defaults {
        Some(defaults) => match &defaults.rails {
            Some(rails) => rails_object(rails),
            None => new_object(),
        },
        None => new_object(),
    };
    if !input_enabled {
        put(&mut rails, "input", Json::Bool(false));
    }
    if !output_enabled {
        put(&mut rails, "output", Json::Bool(false));
    }
    filled_object(rails)
}

/// The generation options of an LLM request.
fn build_llm_options(
    request_defaults: Option<&RequestDefaultsConfig>,
    input_enabled: bool,
    output_enabled: bool,
) -> (r: TextMap<Json>)
    ensures
        object_view(r.entries@) == llm_options_map(
            opt_defaults(request_defaults),
            input_enabled,
            output_enabled,
        ),
{
    let mut options = new_object();
    put_opt(
        &mut options,
        "rails",
        build_llm_rails_option(request_defaults, input_enabled, output_enabled),
    );
    match request_defaults {
        Some(defaults) => {
            put_opt(&mut options, "llm_params", opt_copy(&defaults.llm_params));
            put_opt(&mut options, "llm_output", opt_bool_value(defaults.llm_output));
            put_opt(&mut options, "output_vars", opt_copy(&defaults.output_vars));
            put_opt(&mut options, "log", opt_copy(&defaults.log));
        },
        None => {},
    }
    options
}

/// What an LLM request tells the service about rails, where it tells anything.
pub fn build_llm_guardrails_config(
    config_id: &Option<String>,
    config_ids: &Vec<String>,
    request_defaults: Option<&RequestDefaultsConfig>,
    input_enabled: bool,
    output_enabled: bool,
) -> (r: Option<Json>)
    ensures
        opt_value(r) == unless_empty(
            llm_guardrails_map(
                *config_id,
                config_ids@,
                opt_defaults(request_defaults),
                input_enabled,
                output_enabled,
            ),
        ),
{
    let mut guardrails = build_base_guardrails_config(config_id, config_ids, request_defaults);
    let options = build_llm_options(request_defaults, input_enabled, output_enabled);
    put_opt(&mut guardrails, "options", filled_object(options));
    filled_object(guardrails)
}

/// The rail selection that is configured for a side of a tool call.
fn configured_tool_selector(
    request_defaults: Option<&RequestDefaultsConfig>,
    kind: RemoteCheckKind,
) -> (r: Json)
    ensures
        json_view(r) == tool_selection(opt_defaults(request_defaults), kind),
{
    let rails = match request_defaults {
        Some(defaults) => &defaults.rails,
        None => {
            return Json::Bool(true);
        },
    };
    match rails {
        Some(rails) => {
            let selector = match kind {
                RemoteCheckKind::Input => &rails.tool_input,
                RemoteCheckKind::Output => &rails.tool_output,
            };
            match selector {
                Some(s) => selector_value(s),
                None => Json::Bool(true),
            }
        },
        None => Json::Bool(true),
    }
}

/// The rails that a check of a tool call selects.
fn build_tool_rails(
    kind: RemoteCheckKind,
    request_defaults: Option<&RequestDefaultsConfig>,
) -> (r: TextMap<Json>)
    ensures
        object_view(r.entries@) == tool_rails_map(opt_defaults(request_defaults), kind),
{
    let mut rails = new_object();
    put(&mut rails, "input", Json::Bool(false));
    put(&mut rails, "output", Json::Bool(false));
    put(&mut rails, "dialog", Json::Bool(false));
    put(&mut rails, "retrieval", Json::Bool(false));
    match kind {
        RemoteCheckKind::Input => {
            put(&mut rails, "tool_input", Json::Bool(false));
            put(&mut rails, "tool_output", configured_tool_selector(request_defaults, kind));
        },
        RemoteCheckKind::Output => {
            put(&mut rails, "tool_input", configured_tool_selector(request_defaults, kind));
            put(&mut rails, "tool_output", Json::Bool(false));
        },
    }
    assert(object_view(rails.entries@) =~= tool_rails_map(opt_defaults(request_defaults), kind));
    rails
}

/// The log selection of a check.
fn build_tool_log(request_defaults: Option<&RequestDefaultsConfig>) -> (r: TextMap<Json>)
    ensures
        object_view(r.entries@) == tool_log_map(opt_defaults(request_defaults)),
{
    let mut log = match request_defaults {
        Some(defaults) => match &defaults.log {
            Some(Json::Object(log)) => copy_object(log),
            _ => new_object(),
        },
        None => new_object(),
    };
    put(&mut log, "activated_rails", Json::Bool(true));
    log
}

/// What a check of a tool call tells the service about rails.
pub fn build_tool_check_guardrails_config(
    kind: RemoteCheckKind,
    config_id: &Option<String>,
    config_ids: &Vec<String>,
    request_defaults: Option<&RequestDefaultsConfig>,
) -> (r: TextMap<Json>)
    ensures
        object_view(r.entries@) == tool_guardrails_map(
            kind,
            *config_id,
            config_ids@,
            opt_defaults(request_defaults),
        ),
{
    let mut guardrails = build_base_guardrails_config(config_id, config_ids, request_defaults);
    let mut options = new_object();
    put(&mut options, "rails", Json::Object(build_tool_rails(kind, request_defaults)));
    put(&mut options, "log", Json::Object(build_tool_log(request_defaults)));
    put(&mut guardrails, "options", Json::Object(options));
    guardrails
}

/// A check of a tool call asks for no rails on LLM calls, and for those of one side of the tool call
/// alone.
pub proof fn law_tool_checks_run_only_tool_rails(
    defaults: Option<RequestDefaultsConfig>,
    kind: RemoteCheckKind,
)
    ensures
        tool_rails_map(defaults, kind)["input"@] == JsonView::Bool(false),
        tool_rails_map(defaults, kind)["output"@] == JsonView::Bool(false),
        tool_rails_map(defaults, kind)["dialog"@] == JsonView::Bool(false),
        tool_rails_map(defaults, kind)["retrieval"@] == JsonView::Bool(false),
        kind == RemoteCheckKind::Input ==> tool_rails_map(defaults, kind)["tool_input"@]
            == JsonView::Bool(false),
        kind == RemoteCheckKind::Output ==> tool_rails_map(defaults, kind)["tool_output"@]
            == JsonView::Bool(false),
        tool_log_map(defaults)["activated_rails"@] == JsonView::Bool(true),
{
    reveal_strlit("input");
    reveal_strlit("output");
    reveal_strlit("dialog");
    reveal_strlit("retrieval");
    reveal_strlit("tool_input");
    reveal_strlit("tool_output");
    assert("input"@.len() == 5 && "output"@.len() == 6 && "dialog"@.len() == 6 && "retrieval"@.len()
        == 9 && "tool_input"@.len() == 10 && "tool_output"@.len() == 11);
    assert("output"@[0] != "dialog"@[0]);
}

/// A surface that is not enabled is switched off in every LLM request, whatever the default rails
/// select.
pub proof fn law_disabled_surfaces_are_switched_off(
    defaults: Option<RequestDefaultsConfig>,
    input_enabled: bool,
    output_enabled: bool,
)
    ensures
        !input_enabled ==> llm_rails_map(defaults, input_enabled, output_enabled).contains_key(
            "input"@,
        ) && llm_rails_map(defaults, input_enabled, output_enabled)["input"@] == JsonView::Bool(
            false,
        ),
        !output_enabled ==> llm_rails_map(defaults, input_enabled, output_enabled).contains_key(
            "output"@,
        ) && llm_rails_map(defaults, input_enabled, output_enabled)["output"@] == JsonView::Bool(
            false,
        ),
{
    reveal_strlit("input");
    reveal_strlit("output");
    assert("input"@.len() != "output"@.len());
}

/// Every request names its configuration and carries the default context, thread and state.
pub proof fn law_requests_name_their_configuration(
    config_id: Option<String>,
    config_ids: Seq<String>,
    d: RequestDefaultsConfig,
)
    ensures
        crate::json::field(
            JsonView::Object(base_map(config_id, config_ids, None)),
            "config_id"@,
        ) == opt_text_json(config_id),
        crate::json::field(
            JsonView::Object(base_map(config_id, config_ids, Some(d))),
            "config_id"@,
        ) == opt_text_json(config_id),
        config_ids.len() == 0 ==> crate::json::field(
            JsonView::Object(base_map(config_id, config_ids, Some(d))),
            "config_ids"@,
        ) is None,
        config_ids.len() > 0 ==> crate::json::field(
            JsonView::Object(base_map(config_id, config_ids, Some(d))),
            "config_ids"@,
        ) == Some(texts_json(config_ids)),
        config_ids.len() > 0 ==> crate::json::field(
            JsonView::Object(base_map(config_id, config_ids, None)),
            "config_ids"@,
        ) == Some(texts_json(config_ids)),
        crate::json::field(
            JsonView::Object(base_map(config_id, config_ids, Some(d))),
            "context"@,
        ) == opt_value(d.context),
        crate::json::field(
            JsonView::Object(base_map(config_id, config_ids, Some(d))),
            "thread_id"@,
        ) == opt_text_json(d.thread_id),
        crate::json::field(
            JsonView::Object(base_map(config_id, config_ids, Some(d))),
            "state"@,
        ) == opt_value(d.state),
        default_rails(Some(d)) == d.rails,
        default_rails(None) is None,
{
    reveal_strlit("config_id");
    reveal_strlit("config_ids");
    reveal_strlit("context");
    reveal_strlit("thread_id");
    reveal_strlit("state");
    assert("config_id"@.len() == 9 && "config_ids"@.len() == 10 && "context"@.len() == 7
        && "thread_id"@.len() == 9 && "state"@.len() == 5);
    assert("config_id"@[0] == 'c' && "thread_id"@[0] == 't');
}

/// LLM requests carry the default rails, except on surfaces that are switched off, and the default
/// options; an object without entries is left out.
pub proof fn law_llm_requests_carry_the_defaults(
    config_id: Option<String>,
    config_ids: Seq<String>,
    d: RequestDefaultsConfig,
    input_enabled: bool,
    output_enabled: bool,
    object: Map<Seq<char>, JsonView>,
    key: Seq<char>,
)
    ensures
        unless_empty(Map::empty()) is None,
        object.contains_key(key) ==> unless_empty(object) == Some(JsonView::Object(object)),
        d.rails matches Some(rails) ==> llm_rails_map(Some(d), true, true) == rails_map(rails),
        llm_rails_map(None, true, true) == Map::<Seq<char>, JsonView>::empty(),
        key != "input"@ && key != "output"@ ==> crate::json::field(
            JsonView::Object(llm_rails_map(Some(d), input_enabled, output_enabled)),
            key,
        ) == (match d.rails {
            Some(rails) => crate::json::field(JsonView::Object(rails_map(rails)), key),
            None => None,
        }),
        input_enabled && (d.rails matches Some(rails)) ==> crate::json::field(
            JsonView::Object(llm_rails_map(Some(d), input_enabled, output_enabled)),
            "input"@,
        ) == crate::json::field(JsonView::Object(rails_map(d.rails->0)), "input"@),
        output_enabled && (d.rails matches Some(rails)) ==> crate::json::field(
            JsonView::Object(llm_rails_map(Some(d), input_enabled, output_enabled)),
            "output"@,
        ) == crate::json::field(JsonView::Object(rails_map(d.rails->0)), "output"@),
        crate::json::field(
            JsonView::Object(llm_options_map(Some(d), input_enabled, output_enabled)),
            "rails"@,
        ) == unless_empty(llm_rails_map(Some(d), input_enabled, output_enabled)),
        crate::json::field(
            JsonView::Object(llm_options_map(Some(d), input_enabled, output_enabled)),
            "llm_params"@,
        ) == opt_value(d.llm_params),
        crate::json::field(
            JsonView::Object(llm_options_map(Some(d), input_enabled, output_enabled)),
            "llm_output"@,
        ) == opt_bool_json(d.llm_output),
        crate::json::field(
            JsonView::Object(llm_options_map(Some(d), input_enabled, output_enabled)),
            "output_vars"@,
        ) == opt_value(d.output_vars),
        crate::json::field(
            JsonView::Object(llm_options_map(Some(d), input_enabled, output_enabled)),
            "log"@,
        ) == opt_value(d.log),
        unless_empty(llm_options_map(Some(d), input_enabled, output_enabled)) is Some
            ==> crate::json::field(
            JsonView::Object(
                llm_guardrails_map(config_id, config_ids, Some(d), input_enabled, output_enabled),
            ),
            "options"@,
        ) == unless_empty(llm_options_map(Some(d), input_enabled, output_enabled)),
        key != "options"@ ==> crate::json::field(
            JsonView::Object(
                llm_guardrails_map(config_id, config_ids, Some(d), input_enabled, output_enabled),
            ),
            key,
        ) == crate::json::field(JsonView::Object(base_map(config_id, config_ids, Some(d))), key),
{
    reveal_strlit("input");
    reveal_strlit("output");
    reveal_strlit("rails");
    reveal_strlit("llm_params");
    reveal_strlit("llm_output");
    reveal_strlit("output_vars");
    reveal_strlit("log");
    assert("input"@.len() == 5 && "output"@.len() == 6 && "rails"@.len() == 5 && "llm_params"@.len()
        == 10 && "llm_output"@.len() == 10 && "output_vars"@.len() == 11 && "log"@.len() == 3);
    assert("llm_params"@[4] == 'p' && "llm_output"@[4] == 'o');
}

/// A check of a tool call selects the configured rails of its side, or all of them, and keeps what
/// the default log asks for.
pub proof fn law_tool_checks_select_the_configured_rails(
    kind: RemoteCheckKind,
    config_id: Option<String>,
    config_ids: Seq<String>,
    d: RequestDefaultsConfig,
    defaults: Option<RequestDefaultsConfig>,
    key: Seq<char>,
)
    ensures
        tool_selection(None, kind) == JsonView::Bool(true),
        d.rails is None ==> tool_selection(Some(d), kind) == JsonView::Bool(true),
        d.rails matches Some(rails) ==> (rails.tool_input is Some ==> Some(
            tool_selection(Some(d), RemoteCheckKind::Input),
        ) == opt_selector(rails.tool_input)),
        d.rails matches Some(rails) ==> (rails.tool_input is None ==> tool_selection(
            Some(d),
            RemoteCheckKind::Input,
        ) == JsonView::Bool(true)),
        d.rails matches Some(rails) ==> (rails.tool_output is Some ==> Some(
            tool_selection(Some(d), RemoteCheckKind::Output),
        ) == opt_selector(rails.tool_output)),
        d.rails matches Some(rails) ==> (rails.tool_output is None ==> tool_selection(
            Some(d),
            RemoteCheckKind::Output,
        ) == JsonView::Bool(true)),
        tool_rails_map(defaults, RemoteCheckKind::Input)["tool_output"@] == tool_selection(
            defaults,
            RemoteCheckKind::Input,
        ),
        tool_rails_map(defaults, RemoteCheckKind::Output)["tool_input"@] == tool_selection(
            defaults,
            RemoteCheckKind::Output,
        ),
        key != "activated_rails"@ ==> crate::json::field(
            JsonView::Object(tool_log_map(Some(d))),
            key,
        ) == (match opt_value(d.log) {
            Some(log) => crate::json::field(log, key),
            None => None,
        }),
        crate::json::found_at(
            JsonView::Object(tool_guardrails_map(kind, config_id, config_ids, defaults)),
            seq!["options"@, "rails"@],
        ) == Some(JsonView::Object(tool_rails_map(defaults, kind))),
        crate::json::found_at(
            JsonView::Object(tool_guardrails_map(kind, config_id, config_ids, defaults)),
            seq!["options"@, "log"@],
        ) == Some(JsonView::Object(tool_log_map(defaults))),
        key != "options"@ ==> crate::json::field(
            JsonView::Object(tool_guardrails_map(kind, config_id, config_ids, defaults)),
            key,
        ) == crate::json::field(JsonView::Object(base_map(config_id, config_ids, defaults)), key),
{
    reveal_strlit("tool_input");
    reveal_strlit("tool_output");
    reveal_strlit("rails");
    reveal_strlit("log");
    assert("tool_input"@.len() == 10 && "tool_output"@.len() == 11);
    assert("rails"@.len() == 5 && "log"@.len() == 3);
    reveal_with_fuel(crate::json::found_at, 3);
    assert(seq!["options"@, "rails"@].drop_first() =~= seq!["rails"@]);
    assert(seq!["options"@, "log"@].drop_first() =~= seq!["log"@]);
    assert(seq!["rails"@].drop_first() =~= Seq::<Seq<char>>::empty());
    assert(seq!["log"@].drop_first() =~= Seq::<Seq<char>>::empty());
}

} // verus!
