//! What a hosted service's answer to a check of a tool call means.

use vstd::prelude::*;

use crate::guardrails::local::{message_json, message_value, parsed_view};
use crate::guardrails::remote_options::RemoteCheckKind;
use crate::json::{
    array_view, bool_field, bool_of, copy_json, field, first_item, first_of, found_at, inner_field,
    inner_value, is_text, items_of, json_view, new_object, object2, object3, put, text_field,
    text_json, text_of, Json, JsonView,
};
use crate::json_text::{json_of, json_text, json_text_of, parse_json};
use crate::native::completion::result_view;
use crate::native::status::{FlowError, FlowErrorKind, FlowErrorView};
use crate::text::{concat2, concat3, concat5, has_prefix, opt_text, starts_with, text_eq};

verus! {

/// The identifier that a checked tool call has.
pub open spec fn call_id(tool_name: Seq<char>) -> Seq<char> {
    "nemo_guardrails_"@ + tool_name + "_call"@
}

/// The request that a checked tool call answers.
pub open spec fn tool_user_json(tool_name: Seq<char>) -> JsonView {
    message_json("user"@, "Run the tool '"@ + tool_name + "' and validate the result."@)
}

/// A tool call as a model makes it.
pub open spec fn tool_call_json(tool_name: Seq<char>, args: JsonView) -> JsonView {
    JsonView::Object(
        map![
            "role"@ => JsonView::Text("assistant"@),
            "content"@ => JsonView::Text(""@),
            "tool_calls"@ => JsonView::Array(
                seq![
                    JsonView::Object(
                        map![
                            "id"@ => JsonView::Text(call_id(tool_name)),
                            "type"@ => JsonView::Text("function"@),
                            "function"@ => JsonView::Object(
                                map![
                                    "name"@ => JsonView::Text(tool_name),
                                    "arguments"@ => JsonView::Text(json_text_of(args)),
                                ],
                            ),
                        ],
                    ),
                ],
            ),
        ],
    )
}

/// A tool result as it is handed back to a model.
pub open spec fn tool_result_json(tool_name: Seq<char>, result: JsonView) -> JsonView {
    JsonView::Object(
        map![
            "role"@ => JsonView::Text("tool"@),
            "name"@ => JsonView::Text(tool_name),
            "tool_call_id"@ => JsonView::Text(call_id(tool_name)),
            "content"@ => JsonView::Text(json_text_of(result)),
        ],
    )
}

/// The identifier that a checked tool call has.
fn tool_call_id(tool_name: &str) -> (r: String)
    ensures
        r@ == call_id(tool_name@),
{
    concat3("nemo_guardrails_", tool_name, "_call")
}

/// The request that a checked tool call answers.
fn tool_user_message(tool_name: &str) -> (r: Json)
    ensures
        json_view(r) == tool_user_json(tool_name@),
{
    let content = concat3("Run the tool '", tool_name, "' and validate the result.");
    message_value("user", content.as_str())
}

/// A tool call as a model makes it.
fn tool_call_message(tool_name: &str, args: &Json) -> (r: Json)
    ensures
        json_view(r) == tool_call_json(tool_name@, json_view(*args)),
{
    let function = object2(
        "name",
        text_json(tool_name),
        "arguments",
        Json::Text(json_text(args)),
    );
    let call = object3(
        "id",
        Json::Text(tool_call_id(tool_name)),
        "type",
        text_json("function"),
        "function",
        function,
    );
    let ghost call_view = json_view(call);
    let calls: Vec<Json> = vec![call];
    assert(array_view(calls@) =~= seq![call_view]);
    object3(
        "role",
        text_json("assistant"),
        "content",
        text_json(""),
        "tool_calls",
        Json::Array(calls),
    )
}

/// The messages that a check of a tool call's arguments sends.
pub fn tool_input_messages(tool_name: &str, args: &Json) -> (r: Vec<Json>)
    ensures
        array_view(r@) == seq![
            tool_user_json(tool_name@),
            tool_call_json(tool_name@, json_view(*args)),
        ],
{
    let messages: Vec<Json> = vec![
        tool_user_message(tool_name),
        tool_call_message(tool_name, args),
    ];
    assert(array_view(messages@) =~= seq![
        tool_user_json(tool_name@),
        tool_call_json(tool_name@, json_view(*args)),
    ]);
    messages
}

/// The messages that a check of a tool call's result sends.
pub fn tool_output_messages(tool_name: &str, args: &Json, result: &Json) -> (r: Vec<Json>)
    ensures
        array_view(r@) == seq![
            tool_user_json(tool_name@),
            tool_call_json(tool_name@, json_view(*args)),
            tool_result_json(tool_name@, json_view(*result)),
        ],
{
    let mut outcome = new_object();
    put(&mut outcome, "role", text_json("tool"));
    put(&mut outcome, "name", text_json(tool_name));
    put(&mut outcome, "tool_call_id", Json::Text(tool_call_id(tool_name)));
    put(&mut outcome, "content", Json::Text(json_text(result)));
    let messages: Vec<Json> = vec![
        tool_user_message(tool_name),
        tool_call_message(tool_name, args),
        Json::Object(outcome),
    ];
    assert(array_view(messages@) =~= seq![
        tool_user_json(tool_name@),
        tool_call_json(tool_name@, json_view(*args)),
        tool_result_json(tool_name@, json_view(*result)),
    ]);
    messages
}

/// Whether a decision of a rail refuses.
pub open spec fn refuses(decision: JsonView) -> bool {
    match decision {
        JsonView::Text(text) => has_prefix(text, "refuse "@),
        _ => false,
    }
}

/// Whether one of some decisions refuses.
pub open spec fn some_refuses(decisions: Seq<JsonView>) -> bool {
    exists|i: int| 0 <= i < decisions.len() && refuses(#[trigger] decisions[i])
}

/// Whether an activated rail blocks: it stopped, or one of its decisions refuses.
pub open spec fn rail_blocks(rail: JsonView) -> bool {
    ||| bool_of(field(rail, "stop"@)) == Some(true)
    ||| match items_of(field(rail, "decisions"@)) {
        Some(decisions) => some_refuses(decisions),
        None => false,
    }
}

/// The name of an activated rail, where it blocks and has one.
pub open spec fn blocking_name(rail: JsonView) -> Option<Seq<char>> {
    if rail_blocks(rail) {
        text_of(field(rail, "name"@))
    } else {
        None
    }
}

/// The name of the first of some rails that blocks and has one.
pub open spec fn first_blocking(rails: Seq<JsonView>) -> Option<Seq<char>>
    decreases rails.len(),
{
    if rails.len() == 0 {
        None
    } else {
        match blocking_name(rails[0]) {
            Some(name) => Some(name),
            None => first_blocking(rails.skip(1)),
        }
    }
}

/// The rail that blocked, by the log of an answer.
pub open spec fn blocking_rail(response: JsonView) -> Option<Seq<char>> {
    match items_of(
        inner_field(
            inner_field(field(response, "guardrails"@), "log"@),
            "activated_rails"@,
        ),
    ) {
        Some(rails) => first_blocking(rails),
        None => None,
    }
}

/// Whether a decision refuses.
fn decision_refuses(decision: &Json) -> (r: bool)
    ensures
        r == refuses(json_view(*decision)),
{
    match decision {
        Json::Text(text) => starts_with(text.as_str(), "refuse "),
        _ => false,
    }
}

/// Whether one of some decisions refuses.
fn any_refuses(decisions: &Vec<Json>) -> (r: bool)
    ensures
        r == some_refuses(array_view(decisions@)),
{
    let ghost all = array_view(decisions@);
    let mut i: usize = 0;
    while i < decisions.len()
        invariant
            i <= decisions.len(),
            all == array_view(decisions@),
            forall|k: int| 0 <= k < i ==> !refuses(#[trigger] all[k]),
        decreases decisions.len() - i,
    {
        assert(all[i as int] == json_view(decisions@[i as int]));
        if decision_refuses(&decisions[i]) {
            assert(refuses(array_view(decisions@)[i as int]));
            return true;
        }
        i += 1;
    }
    false
}

/// The name of an activated rail, where it blocks and has one.
fn rail_name_if_blocking(rail: &Json) -> (r: Option<String>)
    ensures
        opt_text(r) == blocking_name(json_view(*rail)),
{
    let stopped = match bool_field(rail, "stop") {
        Some(stop) => stop,
        None => false,
    };
    let refused = match rail.get("decisions") {
        Some(value) => match value.as_array() {
            Some(decisions) => any_refuses(decisions),
            None => false,
        },
        None => false,
    };
    if stopped || refused {
        match text_field(rail, "name") {
            Some(name) => Some(name.to_owned()),
            None => None,
        }
    } else {
        None
    }
}

/// The rail that blocked, by the log of an answer.
pub fn blocking_rail_name(response: &Json) -> (r: Option<String>)
    ensures
        opt_text(r) == blocking_rail(json_view(*response)),
{
    let log = inner_value(response.get("guardrails"), "log");
    let rails = match inner_value(log, "activated_rails") {
        Some(value) => match value.as_array() {
            Some(rails) => rails,
            None => {
                return None;
            },
        },
        None => {
            return None;
        },
    };
    let ghost all = array_view(rails@);
    let mut i: usize = 0;
    assert(all.skip(0) =~= all);
    while i < rails.len()
        invariant
            i <= rails.len(),
            all == array_view(rails@),
            blocking_rail(json_view(*response)) == first_blocking(all),
            first_blocking(all) == first_blocking(all.skip(i as int)),
        decreases rails.len() - i,
    {
        proof {
            assert(all.skip(i as int)[0] == json_view(rails@[i as int]));
            assert(all.skip(i as int).skip(1) =~= all.skip(i + 1));
        }
        match rail_name_if_blocking(&rails[i]) {
            Some(name) => {
                return Some(name);
            },
            None => {},
        }
        i += 1;
    }
    None
}

/// The part of a tool call that an answer may change.
pub open spec fn part_name(kind: RemoteCheckKind) -> Seq<char> {
    match kind {
        RemoteCheckKind::Input => "arguments"@,
        RemoteCheckKind::Output => "result"@,
    }
}

/// The part of a tool call that an answer may change.
fn part_str(kind: RemoteCheckKind) -> (r: &'static str)
    ensures
        r@ == part_name(kind),
{
    match kind {
        RemoteCheckKind::Input => "arguments",
        RemoteCheckKind::Output => "result",
    }
}

/// Where an answer carries a changed part of a tool call.
pub enum ModifiedSource {
    /// Nowhere.
    Absent,
    /// In a text that is the part.
    Whole(String),
    /// In a text that may be an object with the part.
    Wrapped(String),
}

/// The mathematical form of where an answer carries a changed part.
pub ghost enum SourceView {
    /// Nowhere.
    Absent,
    /// In a text that is the part.
    Whole(Seq<char>),
    /// In a text that may be an object with the part.
    Wrapped(Seq<char>),
}

impl View for ModifiedSource {
    type V = SourceView;

    open spec fn view(&self) -> SourceView {
        match *self {
            ModifiedSource::Absent => SourceView::Absent,
            ModifiedSource::Whole(text) => SourceView::Whole(text@),
            ModifiedSource::Wrapped(text) => SourceView::Wrapped(text@),
        }
    }
}

/// The view of an internal error.
pub open spec fn fault(message: Seq<char>) -> FlowErrorView {
    (FlowErrorKind::Internal, message)
}

/// The first message of an answer.
pub open spec fn first_message(response: JsonView) -> Option<JsonView> {
    inner_field(first_of(field(response, "choices"@)), "message"@)
}

/// The text of a message that may be an object with a changed part.
pub open spec fn wrapped_source(message: JsonView) -> SourceView {
    match text_of(field(message, "content"@)) {
        Some(content) => if content.len() == 0 {
            SourceView::Absent
        } else {
            SourceView::Wrapped(content)
        },
        None => SourceView::Absent,
    }
}

/// Where a message carries changed arguments: in its first tool call, which has to be a call of the
/// tool that was checked, else in its content.
pub open spec fn arguments_source(message: JsonView, expected: Seq<char>) -> Result<
    SourceView,
    FlowErrorView,
> {
    match first_of(field(message, "tool_calls"@)) {
        Some(JsonView::Object(call)) => match field(JsonView::Object(call), "function"@) {
            Some(JsonView::Object(f)) => {
                let function = JsonView::Object(f);
                match text_of(field(function, "name"@)) {
                    None => Err(
                        fault(
                            "nemo_guardrails returned modified tool arguments without a function name"@,
                        ),
                    ),
                    Some(name) => if name != expected {
                        Err(
                            fault(
                                "nemo_guardrails returned modified tool arguments for unexpected tool '"@
                                    + name + "'"@,
                            ),
                        )
                    } else {
                        match text_of(field(function, "arguments"@)) {
                            None => Err(
                                fault(
                                    "nemo_guardrails returned modified tool arguments without function.arguments"@,
                                ),
                            ),
                            Some(arguments) => Ok(SourceView::Whole(arguments)),
                        }
                    },
                }
            },
            _ => Err(
                fault(
                    "nemo_guardrails returned modified tool arguments without a function payload"@,
                ),
            ),
        },
        _ => Ok(wrapped_source(message)),
    }
}

/// Where a message carries a changed result: in its content where it is a tool message, which may not
/// be of another tool than the one that was checked; else possibly inside its content.
pub open spec fn result_source(message: JsonView, expected: Seq<char>) -> Result<
    SourceView,
    FlowErrorView,
> {
    if text_of(field(message, "role"@)) == Some("tool"@) {
        match text_of(field(message, "name"@)) {
            Some(name) => if name != expected {
                Err(
                    fault(
                        "nemo_guardrails returned modified tool result for unexpected tool '"@
                            + name + "'"@,
                    ),
                )
            } else {
                whole_result(message)
            },
            None => whole_result(message),
        }
    } else {
        Ok(wrapped_source(message))
    }
}

/// The content of a tool message.
pub open spec fn whole_result(message: JsonView) -> Result<SourceView, FlowErrorView> {
    match text_of(field(message, "content"@)) {
        Some(content) => Ok(SourceView::Whole(content)),
        None => Err(
            fault("nemo_guardrails returned modified tool result without message.content"@),
        ),
    }
}

/// Where an answer carries a changed part of a tool call.
pub open spec fn modified_source(
    response: JsonView,
    kind: RemoteCheckKind,
    expected: Seq<char>,
) -> Result<SourceView, FlowErrorView> {
    match first_message(response) {
        Some(JsonView::Object(m)) => match kind {
            RemoteCheckKind::Input => arguments_source(JsonView::Object(m), expected),
            RemoteCheckKind::Output => result_source(JsonView::Object(m), expected),
        },
        _ => Err(
            fault("nemo_guardrails remote response did not contain choices[0].message"@),
        ),
    }
}

/// The changed part that a source gives, by what its text parses to.
pub open spec fn modified_part(
    source: SourceView,
    parsed: Result<JsonView, Seq<char>>,
    kind: RemoteCheckKind,
    expected: Seq<char>,
) -> Result<Option<JsonView>, FlowErrorView> {
    match source {
        SourceView::Absent => Ok(None),
        SourceView::Whole(_) => match parsed {
            Ok(value) => Ok(Some(value)),
            Err(shown) => Err(
                fault(
                    match kind {
                        RemoteCheckKind::Input =>
                            "nemo_guardrails returned modified tool arguments that are not valid JSON: "@,
                        RemoteCheckKind::Output =>
                            "nemo_guardrails returned modified tool result that is not valid JSON: "@,
                    } + shown,
                ),
            ),
        },
        SourceView::Wrapped(_) => match parsed {
            Err(_) => Ok(None),
            Ok(value) => match text_of(field(value, "tool_name"@)) {
                Some(name) => if name != expected {
                    Err(
                        fault(
                            "nemo_guardrails returned modified tool "@ + part_name(kind)
                                + " content for unexpected tool '"@ + name + "'"@,
                        ),
                    )
                } else {
                    Ok(field(value, part_name(kind)))
                },
                None => Ok(field(value, part_name(kind))),
            },
        },
    }
}

/// The text of a source.
pub open spec fn source_text(source: SourceView) -> Seq<char> {
    match source {
        SourceView::Absent => Seq::empty(),
        SourceView::Whole(text) => text,
        SourceView::Wrapped(text) => text,
    }
}

/// The changed part of a tool call that an answer carries.
pub open spec fn modified(response: JsonView, kind: RemoteCheckKind, expected: Seq<char>) -> Result<
    Option<JsonView>,
    FlowErrorView,
> {
    match modified_source(response, kind, expected) {
        Err(e) => Err(e),
        Ok(source) => modified_part(source, json_of(source_text(source)), kind, expected),
    }
}

/// A source or the error of reading it, in its mathematical form.
pub open spec fn source_view(source: Result<ModifiedSource, FlowError>) -> Result<
    SourceView,
    FlowErrorView,
> {
    match source {
        Ok(s) => Ok(s@),
        Err(e) => Err(e@),
    }
}

/// A changed part or the error of reading it, in its mathematical form.
pub open spec fn part_view(part: Result<Option<Json>, FlowError>) -> Result<
    Option<JsonView>,
    FlowErrorView,
> {
    match part {
        Ok(Some(value)) => Ok(Some(json_view(value))),
        Ok(None) => Ok(None),
        Err(e) => Err(e@),
    }
}

/// An internal error.
fn fault_error(message: &str) -> (r: FlowError)
    ensures
        r@ == fault(message@),
{
    FlowError::internal(message.to_owned())
}

/// The text of a message that may be an object with a changed part.
fn read_wrapped_source(message: &Json) -> (r: ModifiedSource)
    ensures
        r@ == wrapped_source(json_view(*message)),
{
    match text_field(message, "content") {
        Some(content) => if content.is_empty() {
            ModifiedSource::Absent
        } else {
            ModifiedSource::Wrapped(content.to_owned())
        },
        None => ModifiedSource::Absent,
    }
}

/// Where a message carries changed arguments.
fn read_arguments_source(message: &Json, expected: &str) -> (r: Result<ModifiedSource, FlowError>)
    ensures
        source_view(r) == arguments_source(json_view(*message), expected@),
{
    let call = match first_item(message.get("tool_calls")) {
        Some(call) => match call {
            Json::Object(_) => call,
            _ => {
                return Ok(read_wrapped_source(message));
            },
        },
        None => {
            return Ok(read_wrapped_source(message));
        },
    };
    let function = match call.get("function") {
        Some(function) => match function {
            Json::Object(_) => function,
            _ => {
                return Err(
                    fault_error(
                        "nemo_guardrails returned modified tool arguments without a function payload",
                    ),
                );
            },
        },
        None => {
            return Err(
                fault_error(
                    "nemo_guardrails returned modified tool arguments without a function payload",
                ),
            );
        },
    };
    let name = match text_field(function, "name") {
        Some(name) => name,
        None => {
            return Err(
                fault_error(
                    "nemo_guardrails returned modified tool arguments without a function name",
                ),
            );
        },
    };
    if !text_eq(name, expected) {
        return Err(
            FlowError::internal(
                concat3(
                    "nemo_guardrails returned modified tool arguments for unexpected tool '",
                    name,
                    "'",
                ),
            ),
        );
    }
    match text_field(function, "arguments") {
        Some(arguments) => Ok(ModifiedSource::Whole(arguments.to_owned())),
        None => Err(
            fault_error(
                "nemo_guardrails returned modified tool arguments without function.arguments",
            ),
        ),
    }
}

/// Where a message carries a changed result.
fn read_result_source(message: &Json, expected: &str) -> (r: Result<ModifiedSource, FlowError>)
    ensures
        source_view(r) == result_source(json_view(*message), expected@),
{
    if !is_text(text_field(message, "role"), "tool") {
        return Ok(read_wrapped_source(message));
    }
    match text_field(message, "name") {
        Some(name) => if !text_eq(name, expected) {
            return Err(
                FlowError::internal(
                    concat3(
                        "nemo_guardrails returned modified tool result for unexpected tool '",
                        name,
                        "'",
                    ),
                ),
            );
        },
        None => {},
    }
    match text_field(message, "content") {
        Some(content) => Ok(ModifiedSource::Whole(content.to_owned())),
        None => Err(
            fault_error("nemo_guardrails returned modified tool result without message.content"),
        ),
    }
}

/// Where an answer carries a changed part of a tool call.
pub fn find_modified_source(response: &Json, kind: RemoteCheckKind, expected: &str) -> (r: Result<
    ModifiedSource,
    FlowError,
>)
    ensures
        source_view(r) == modified_source(json_view(*response), kind, expected@),
{
    let message = match inner_value(first_item(response.get("choices")), "message") {
        Some(message) => match message {
            Json::Object(_) => message,
            _ => {
                return Err(
                    fault_error(
                        "nemo_guardrails remote response did not contain choices[0].message",
                    ),
                );
            },
        },
        None => {
            return Err(
                fault_error("nemo_guardrails remote response did not contain choices[0].message"),
            );
        },
    };
    match kind {
        RemoteCheckKind::Input => read_arguments_source(message, expected),
        RemoteCheckKind::Output => read_result_source(message, expected),
    }
}

/// Reads the changed part that a source gives, given with what its text parses to.
pub fn read_modified_part(
    source: &ModifiedSource,
    parsed: Result<Json, String>,
    kind: RemoteCheckKind,
    expected: &str,
) -> (r: Result<Option<Json>, FlowError>)
    ensures
        part_view(r) == modified_part(source@, parsed_view(parsed), kind, expected@),
{
    match source {
        ModifiedSource::Absent => Ok(None),
        ModifiedSource::Whole(_) => match parsed {
            Ok(value) => Ok(Some(value)),
            Err(shown) => {
                let text = match kind {
                    RemoteCheckKind::Input =>
                        "nemo_guardrails returned modified tool arguments that are not valid JSON: ",
                    RemoteCheckKind::Output =>
                        "nemo_guardrails returned modified tool result that is not valid JSON: ",
                };
                Err(FlowError::internal(concat2(text, shown.as_str())))
            },
        },
        ModifiedSource::Wrapped(_) => match parsed {
            Err(_) => Ok(None),
            Ok(value) => {
                match text_field(&value, "tool_name") {
                    Some(name) => if !text_eq(name, expected) {
                        return Err(
                            FlowError::internal(
                                concat5(
                                    "nemo_guardrails returned modified tool ",
                                    part_str(kind),
                                    " content for unexpected tool '",
                                    name,
                                    "'",
                                ),
                            ),
                        );
                    },
                    None => {},
                }
                match value.get(part_str(kind)) {
                    Some(part) => Ok(Some(copy_json(part))),
                    None => Ok(None),
                }
            },
        },
    }
}

/// Reads the changed part of a tool call that an answer carries.
pub fn read_modified(response: &Json, kind: RemoteCheckKind, expected: &str) -> (r: Result<
    Option<Json>,
    FlowError,
>)
    ensures
        part_view(r) == modified(json_view(*response), kind, expected@),
{
    let source = match find_modified_source(response, kind, expected) {
        Ok(source) => source,
        Err(e) => {
            return Err(e);
        },
    };
    let parsed = match &source {
        ModifiedSource::Absent => {
            return Ok(None);
        },
        ModifiedSource::Whole(text) => parse_json(text.as_str()),
        ModifiedSource::Wrapped(text) => parse_json(text.as_str()),
    };
    read_modified_part(&source, parsed, kind, expected)
}

/// Which surface a check is about.
pub open spec fn surface_name(kind: RemoteCheckKind) -> Seq<char> {
    match kind {
        RemoteCheckKind::Input => "tool_input"@,
        RemoteCheckKind::Output => "tool_output"@,
    }
}

/// Which surface a check is about.
pub fn surface_str(kind: RemoteCheckKind) -> (r: &'static str)
    ensures
        r@ == surface_name(kind),
{
    match kind {
        RemoteCheckKind::Input => "tool_input",
        RemoteCheckKind::Output => "tool_output",
    }
}

/// What a tool call goes on with after an answer: nothing where a rail blocked, else the changed part,
/// else the part that was checked.
pub open spec fn verdict(
    response: JsonView,
    kind: RemoteCheckKind,
    tool_name: Seq<char>,
    checked: JsonView,
) -> Result<JsonView, FlowErrorView> {
    match blocking_rail(response) {
        Some(rail) => Err(
            (
                FlowErrorKind::GuardrailRejected,
                "nemo_guardrails "@ + surface_name(kind) + " rail blocked tool call by rail '"@
                    + rail + "'"@,
            ),
        ),
        None => match modified(response, kind, tool_name) {
            Err(e) => Err(e),
            Ok(Some(value)) => Ok(value),
            Ok(None) => Ok(checked),
        },
    }
}

/// Decides what a tool call goes on with after an answer.
pub fn remote_check_verdict(
    response: &Json,
    kind: RemoteCheckKind,
    tool_name: &str,
    checked: &Json,
) -> (r: Result<Json, FlowError>)
    ensures
        result_view(r) == verdict(json_view(*response), kind, tool_name@, json_view(*checked)),
{
    match blocking_rail_name(response) {
        Some(rail) => {
            return Err(
                FlowError {
                    kind: FlowErrorKind::GuardrailRejected,
                    message: concat5(
                        "nemo_guardrails ",
                        surface_str(kind),
                        " rail blocked tool call by rail '",
                        rail.as_str(),
                        "'",
                    ),
                },
            );
        },
        None => {},
    }
    match read_modified(response, kind, tool_name) {
        Err(e) => Err(e),
        Ok(Some(value)) => Ok(value),
        Ok(None) => Ok(copy_json(checked)),
    }
}

/// Where a rail blocked, the tool call is rejected, whatever else the answer carries.
pub proof fn law_blocking_rail_rejects(
    response: JsonView,
    kind: RemoteCheckKind,
    tool_name: Seq<char>,
    checked: JsonView,
)
    requires
        blocking_rail(response) is Some,
    ensures
        verdict(response, kind, tool_name, checked) matches Err(e) ==> e.0
            == FlowErrorKind::GuardrailRejected,
        verdict(response, kind, tool_name, checked) is Err,
{
}

/// The first rail that blocks is one of the rails, and no rail before it blocks by name.
pub proof fn law_first_blocking_rail_is_named(rails: Seq<JsonView>)
    ensures
        first_blocking(rails) matches Some(name) ==> exists|i: int|
            0 <= i < rails.len() && blocking_name(#[trigger] rails[i]) == Some(name) && (forall|
                k: int,
            |
                0 <= k < i ==> blocking_name(#[trigger] rails[k]) is None),
        first_blocking(rails) is None ==> (forall|i: int|
            0 <= i < rails.len() ==> blocking_name(#[trigger] rails[i]) is None),
    decreases rails.len(),
{
    if rails.len() > 0 {
        match blocking_name(rails[0]) {
            Some(_) => {},
            None => {
                let rest = rails.skip(1);
                law_first_blocking_rail_is_named(rest);
                assert forall|k: int| 0 < k < rails.len() implies #[trigger] rails[k] == rest[k
                    - 1] by {}
                match first_blocking(rest) {
                    Some(name) => {
                        let j = choose|i: int|
                            0 <= i < rest.len() && blocking_name(#[trigger] rest[i]) == Some(name)
                                && (forall|k: int|
                                0 <= k < i ==> blocking_name(#[trigger] rest[k]) is None);
                        assert(blocking_name(rails[j + 1]) == Some(name));
                        assert forall|k: int| 0 <= k < j + 1 implies blocking_name(
                            #[trigger] rails[k],
                        ) is None by {
                            if k > 0 {
                                assert(blocking_name(rest[k - 1]) is None);
                            }
                        }
                    },
                    None => {
                        assert forall|i: int| 0 <= i < rails.len() implies blocking_name(
                            #[trigger] rails[i],
                        ) is None by {
                            if i > 0 {
                                assert(blocking_name(rest[i - 1]) is None);
                            }
                        }
                    },
                }
            },
        }
    }
}

/// An answer never changes the call of another tool than the one that was checked.
pub proof fn law_other_tools_are_not_changed(message: JsonView, name: Seq<char>, expected: Seq<char>)
    requires
        name != expected,
    ensures
        text_of(inner_field(inner_field(first_of(field(message, "tool_calls"@)), "function"@), "name"@))
            == Some(name) ==> arguments_source(message, expected) is Err,
        text_of(field(message, "role"@)) == Some("tool"@) && text_of(field(message, "name"@)) == Some(
            name,
        ) ==> result_source(message, expected) is Err,
{
}

/// Where an activated rail of an answer's log has a name, and it stopped the call or one of its
/// decisions is a text that begins with `refuse `, the tool call is rejected. The rail that is
/// named did so.
pub proof fn law_refusing_rails_reject(
    response: JsonView,
    kind: RemoteCheckKind,
    tool_name: Seq<char>,
    checked: JsonView,
    rails: Seq<JsonView>,
    i: int,
    name: Seq<char>,
    decisions: Seq<JsonView>,
    k: int,
    text: Seq<char>,
)
    requires
        found_at(response, seq!["guardrails"@, "log"@, "activated_rails"@]) == Some(
            JsonView::Array(rails),
        ),
        0 <= i < rails.len(),
        found_at(rails[i], seq!["name"@]) == Some(JsonView::Text(name)),
        ({
            ||| found_at(rails[i], seq!["stop"@]) == Some(JsonView::Bool(true))
            ||| found_at(rails[i], seq!["decisions"@]) == Some(JsonView::Array(decisions)) && 0 <= k
                < decisions.len() && decisions[k] == JsonView::Text(text) && "refuse "@.len()
                <= text.len() && text.take("refuse "@.len() as int) == "refuse "@
        }),
    ensures
        verdict(response, kind, tool_name, checked) is Err,
        (verdict(response, kind, tool_name, checked)->Err_0).0
            == FlowErrorKind::GuardrailRejected,
        i == 0 ==> (verdict(response, kind, tool_name, checked)->Err_0).1 == (match kind {
            RemoteCheckKind::Input => "nemo_guardrails tool_input rail blocked tool call by rail '"@,
            RemoteCheckKind::Output => "nemo_guardrails tool_output rail blocked tool call by rail '"@,
        }) + name + "'"@,
{
    reveal_with_fuel(found_at, 4);
    lemma_rows(response, rails[i]);
    if found_at(rails[i], seq!["stop"@]) != Some(JsonView::Bool(true)) {
        assert(text.subrange(0, "refuse "@.len() as int) =~= text.take("refuse "@.len() as int));
        assert(refuses(decisions[k]));
    }
    assert(blocking_name(rails[i]) == Some(name));
    law_first_blocking_rail_is_named(rails);
    lemma_refusal_texts(kind);
}

/// The parts of a refusal's text.
proof fn lemma_refusal_texts(kind: RemoteCheckKind)
    ensures
        "nemo_guardrails "@ + surface_name(kind) + " rail blocked tool call by rail '"@ == (
        match kind {
            RemoteCheckKind::Input => "nemo_guardrails tool_input rail blocked tool call by rail '"@,
            RemoteCheckKind::Output => "nemo_guardrails tool_output rail blocked tool call by rail '"@,
        }),
{
    reveal_strlit("nemo_guardrails ");
    reveal_strlit("tool_input");
    reveal_strlit("tool_output");
    reveal_strlit(" rail blocked tool call by rail '");
    reveal_strlit("nemo_guardrails tool_input rail blocked tool call by rail '");
    reveal_strlit("nemo_guardrails tool_output rail blocked tool call by rail '");
    match kind {
        RemoteCheckKind::Input => {
            assert("nemo_guardrails "@ + "tool_input"@ + " rail blocked tool call by rail '"@
                =~= "nemo_guardrails tool_input rail blocked tool call by rail '"@);
        },
        RemoteCheckKind::Output => {
            assert("nemo_guardrails "@ + "tool_output"@ + " rail blocked tool call by rail '"@
                =~= "nemo_guardrails tool_output rail blocked tool call by rail '"@);
        },
    }
}

/// Rows of keys step by step.
proof fn lemma_rows(response: JsonView, rail: JsonView)
    ensures
        found_at(response, seq!["guardrails"@, "log"@, "activated_rails"@]) == inner_field(
            inner_field(field(response, "guardrails"@), "log"@),
            "activated_rails"@,
        ),
        found_at(rail, seq!["name"@]) == field(rail, "name"@),
        found_at(rail, seq!["stop"@]) == field(rail, "stop"@),
        found_at(rail, seq!["decisions"@]) == field(rail, "decisions"@),
{
    reveal_with_fuel(found_at, 4);
    let keys = seq!["guardrails"@, "log"@, "activated_rails"@];
    assert(keys.drop_first() =~= seq!["log"@, "activated_rails"@]);
    assert(seq!["log"@, "activated_rails"@].drop_first() =~= seq!["activated_rails"@]);
    assert(seq!["activated_rails"@].drop_first() =~= Seq::empty());
    assert(seq!["name"@].drop_first() =~= Seq::empty());
    assert(seq!["stop"@].drop_first() =~= Seq::empty());
    assert(seq!["decisions"@].drop_first() =~= Seq::empty());
}

/// An answer whose log names no rail that stopped the call or refused it does not reject the
/// tool call.
pub proof fn law_other_rails_do_not_reject(
    response: JsonView,
    kind: RemoteCheckKind,
    tool_name: Seq<char>,
    checked: JsonView,
)
    requires
        forall|rails: Seq<JsonView>, i: int|
            found_at(response, seq!["guardrails"@, "log"@, "activated_rails"@]) == Some(
                JsonView::Array(rails),
            ) && 0 <= i < rails.len() ==> {
                &&& found_at(#[trigger] rails[i], seq!["stop"@]) != Some(JsonView::Bool(true))
                &&& forall|decisions: Seq<JsonView>, k: int, text: Seq<char>|
                    found_at(rails[i], seq!["decisions"@]) == Some(JsonView::Array(decisions)) && 0
                        <= k < decisions.len() && #[trigger] decisions[k] == JsonView::Text(text)
                        ==> !#[trigger] has_prefix(text, "refuse "@)
            },
    ensures
        verdict(response, kind, tool_name, checked) matches Err(e) ==> e.0
            != FlowErrorKind::GuardrailRejected,
{
    let found = found_at(response, seq!["guardrails"@, "log"@, "activated_rails"@]);
    lemma_rows(response, JsonView::Null);
    if let Some(JsonView::Array(rails)) = found {
        assert forall|i: int| 0 <= i < rails.len() implies blocking_name(#[trigger] rails[i])
            is None by {
            lemma_rows(response, rails[i]);
            if let Some(JsonView::Array(decisions)) = found_at(rails[i], seq!["decisions"@]) {
                assert forall|k: int| 0 <= k < decisions.len() implies !refuses(
                    #[trigger] decisions[k],
                ) by {
                    if let JsonView::Text(text) = decisions[k] {
                        assert(!has_prefix(text, "refuse "@));
                    }
                }
            }
        }
        law_first_blocking_rail_is_named(rails);
    }
}

/// What an answer that no rail blocks makes of the arguments: those of its tool call, where that
/// names the tool and can be read, and the checked ones where it has neither a call nor content.
pub proof fn law_checked_arguments_go_on(
    response: JsonView,
    message: Map<Seq<char>, JsonView>,
    calls: Seq<JsonView>,
    arguments: Seq<char>,
    value: JsonView,
    tool_name: Seq<char>,
    checked: JsonView,
)
    requires
        blocking_rail(response) is None,
        first_of(found_at(response, seq!["choices"@])) is Some,
        found_at(first_of(found_at(response, seq!["choices"@]))->0, seq!["message"@]) == Some(
            JsonView::Object(message),
        ),
    ensures
        field(JsonView::Object(message), "tool_calls"@) == Some(JsonView::Array(calls))
            && calls.len() > 0 && found_at(calls[0], seq!["function"@, "name"@]) == Some(
            JsonView::Text(tool_name),
        ) && found_at(calls[0], seq!["function"@, "arguments"@]) == Some(JsonView::Text(arguments))
            && json_of(arguments) == Ok::<JsonView, Seq<char>>(value) ==> verdict(
            response,
            RemoteCheckKind::Input,
            tool_name,
            checked,
        ) == Ok::<JsonView, FlowErrorView>(value),
        !message.contains_key("tool_calls"@) && !message.contains_key("content"@) ==> verdict(
            response,
            RemoteCheckKind::Input,
            tool_name,
            checked,
        ) == Ok::<JsonView, FlowErrorView>(checked),
        field(JsonView::Object(message), "role"@) == Some(JsonView::Text("tool"@)) && field(
            JsonView::Object(message),
            "name"@,
        ) == Some(JsonView::Text(tool_name)) && field(JsonView::Object(message), "content"@) == Some(
            JsonView::Text(arguments),
        ) && json_of(arguments) == Ok::<JsonView, Seq<char>>(value) ==> verdict(
            response,
            RemoteCheckKind::Output,
            tool_name,
            checked,
        ) == Ok::<JsonView, FlowErrorView>(value),
        !message.contains_key("role"@) && !message.contains_key("content"@) ==> verdict(
            response,
            RemoteCheckKind::Output,
            tool_name,
            checked,
        ) == Ok::<JsonView, FlowErrorView>(checked),
{
    reveal_with_fuel(found_at, 3);
    assert(seq!["choices"@].drop_first() =~= Seq::empty());
    assert(seq!["message"@].drop_first() =~= Seq::empty());
    assert(seq!["function"@, "name"@].drop_first() =~= seq!["name"@]);
    assert(seq!["function"@, "arguments"@].drop_first() =~= seq!["arguments"@]);
    assert(seq!["name"@].drop_first() =~= Seq::empty());
    assert(seq!["arguments"@].drop_first() =~= Seq::empty());
    assert(first_message(response) == Some(JsonView::Object(message)));
}

/// A message that wraps the checked part in its content gives that part: under `arguments` for a
/// call and under `result` for its result. Content for another tool is an error, and content that
/// cannot be read or lacks the part changes nothing.
pub proof fn law_wrapped_parts_are_unwrapped(
    text: Seq<char>,
    parsed: Result<JsonView, Seq<char>>,
    expected: Seq<char>,
)
    ensures
        ({
            let input = modified_part(
                SourceView::Wrapped(text),
                parsed,
                RemoteCheckKind::Input,
                expected,
            );
            let output = modified_part(
                SourceView::Wrapped(text),
                parsed,
                RemoteCheckKind::Output,
                expected,
            );
            &&& parsed is Err ==> input == Ok::<Option<JsonView>, FlowErrorView>(None) && output
                == Ok::<Option<JsonView>, FlowErrorView>(None)
            &&& parsed matches Ok(value) ==> {
                let other = field(value, "tool_name"@) matches Some(JsonView::Text(name)) && name
                    != expected;
                &&& other <==> input is Err
                &&& other <==> output is Err
                &&& !other ==> input == Ok::<Option<JsonView>, FlowErrorView>(
                    field(value, "arguments"@),
                )
                &&& !other ==> output == Ok::<Option<JsonView>, FlowErrorView>(
                    field(value, "result"@),
                )
            }
        }),
{
}

/// The messages of a check carry the call: its tool, its arguments as JSON text, and, for a result,
/// the result as JSON text under the identifier of the call that it answers.
pub proof fn law_checks_carry_the_call(tool_name: Seq<char>, args: JsonView, result: JsonView)
    ensures
        ({
            let call = tool_call_json(tool_name, args);
            let answer = tool_result_json(tool_name, result);
            let calls = items_of(field(call, "tool_calls"@));
            &&& field(call, "role"@) == Some(JsonView::Text("assistant"@))
            &&& calls is Some && calls->0.len() == 1
            &&& text_of(inner_field(field(calls->0[0], "function"@), "name"@)) == Some(tool_name)
            &&& text_of(inner_field(field(calls->0[0], "function"@), "arguments"@)) == Some(
                json_text_of(args),
            )
            &&& field(calls->0[0], "type"@) == Some(JsonView::Text("function"@))
            &&& field(answer, "role"@) == Some(JsonView::Text("tool"@))
            &&& field(answer, "name"@) == Some(JsonView::Text(tool_name))
            &&& field(answer, "content"@) == Some(JsonView::Text(json_text_of(result)))
            &&& field(answer, "tool_call_id"@) is Some
            &&& field(answer, "tool_call_id"@) == field(calls->0[0], "id"@)
        }),
{
    reveal_strlit("role");
    reveal_strlit("content");
    reveal_strlit("tool_calls");
    reveal_strlit("id");
    reveal_strlit("type");
    reveal_strlit("function");
    reveal_strlit("name");
    reveal_strlit("arguments");
    reveal_strlit("tool_call_id");
    assert("name"@[0] != "role"@[0]);
    assert("role"@.len() == 4 && "name"@.len() == 4 && "type"@.len() == 4 && "id"@.len() == 2);
    assert("content"@.len() == 7 && "tool_calls"@.len() == 10 && "function"@.len() == 8);
    assert("arguments"@.len() == 9 && "tool_call_id"@.len() == 12);
    let call = tool_call_json(tool_name, args);
    let calls = items_of(field(call, "tool_calls"@));
    assert(calls is Some && calls->0.len() == 1);
    assert(field(calls->0[0], "id"@) == Some(JsonView::Text(call_id(tool_name))));
}

/// What is told where the service changes another tool's call, or changes it in a way that cannot be
/// read.
pub proof fn law_unusable_changes_are_told(
    response: JsonView,
    message: JsonView,
    function: JsonView,
    call: JsonView,
    kind: RemoteCheckKind,
    expected: Seq<char>,
    name: Seq<char>,
    shown: Seq<char>,
    text: Seq<char>,
    value: JsonView,
)
    requires
        name != expected,
        call is Object,
        function is Object,
    ensures
        !(first_message(response) matches Some(m) && m is Object) ==> modified_source(
            response,
            kind,
            expected,
        ) == Err::<SourceView, FlowErrorView>(
            (
                FlowErrorKind::Internal,
                "nemo_guardrails remote response did not contain choices[0].message"@,
            ),
        ),
        first_of(field(message, "tool_calls"@)) == Some(call) && field(call, "function"@) is None
            ==> arguments_source(message, expected) == Err::<SourceView, FlowErrorView>(
            (
                FlowErrorKind::Internal,
                "nemo_guardrails returned modified tool arguments without a function payload"@,
            ),
        ),
        first_of(field(message, "tool_calls"@)) == Some(call) && field(call, "function"@) == Some(
            function,
        ) && text_of(field(function, "name"@)) is None ==> arguments_source(message, expected)
            == Err::<SourceView, FlowErrorView>(
            (
                FlowErrorKind::Internal,
                "nemo_guardrails returned modified tool arguments without a function name"@,
            ),
        ),
        first_of(field(message, "tool_calls"@)) == Some(call) && field(call, "function"@) == Some(
            function,
        ) && text_of(field(function, "name"@)) == Some(name) ==> arguments_source(message, expected)
            == Err::<SourceView, FlowErrorView>(
            (
                FlowErrorKind::Internal,
                "nemo_guardrails returned modified tool arguments for unexpected tool '"@ + name
                    + "'"@,
            ),
        ),
        first_of(field(message, "tool_calls"@)) == Some(call) && field(call, "function"@) == Some(
            function,
        ) && text_of(field(function, "name"@)) == Some(expected) && text_of(
            field(function, "arguments"@),
        ) is None ==> arguments_source(message, expected) == Err::<SourceView, FlowErrorView>(
            (
                FlowErrorKind::Internal,
                "nemo_guardrails returned modified tool arguments without function.arguments"@,
            ),
        ),
        text_of(field(message, "role"@)) == Some("tool"@) && text_of(field(message, "name"@))
            == Some(name) ==> result_source(message, expected) == Err::<SourceView, FlowErrorView>(
            (
                FlowErrorKind::Internal,
                "nemo_guardrails returned modified tool result for unexpected tool '"@ + name
                    + "'"@,
            ),
        ),
        text_of(field(message, "role"@)) == Some("tool"@) && text_of(field(message, "name"@)) is None
            && text_of(field(message, "content"@)) is None ==> result_source(message, expected)
            == Err::<SourceView, FlowErrorView>(
            (
                FlowErrorKind::Internal,
                "nemo_guardrails returned modified tool result without message.content"@,
            ),
        ),
        modified_part(
            SourceView::Whole(text),
            Err(shown),
            RemoteCheckKind::Input,
            expected,
        ) == Err::<Option<JsonView>, FlowErrorView>(
            (
                FlowErrorKind::Internal,
                "nemo_guardrails returned modified tool arguments that are not valid JSON: "@
                    + shown,
            ),
        ),
        modified_part(
            SourceView::Whole(text),
            Err(shown),
            RemoteCheckKind::Output,
            expected,
        ) == Err::<Option<JsonView>, FlowErrorView>(
            (
                FlowErrorKind::Internal,
                "nemo_guardrails returned modified tool result that is not valid JSON: "@ + shown,
            ),
        ),
        text_of(field(value, "tool_name"@)) == Some(name) ==> modified_part(
            SourceView::Wrapped(text),
            Ok(value),
            RemoteCheckKind::Input,
            expected,
        ) == Err::<Option<JsonView>, FlowErrorView>(
            (
                FlowErrorKind::Internal,
                "nemo_guardrails returned modified tool "@ + "arguments"@
                    + " content for unexpected tool '"@ + name + "'"@,
            ),
        ),
        text_of(field(value, "tool_name"@)) == Some(name) ==> modified_part(
            SourceView::Wrapped(text),
            Ok(value),
            RemoteCheckKind::Output,
            expected,
        ) == Err::<Option<JsonView>, FlowErrorView>(
            (
                FlowErrorKind::Internal,
                "nemo_guardrails returned modified tool "@ + "result"@
                    + " content for unexpected tool '"@ + name + "'"@,
            ),
        ),
        blocking_rail(response) == Some(name) ==> verdict(
            response,
            RemoteCheckKind::Input,
            expected,
            value,
        ) == Err::<JsonView, FlowErrorView>(
            (
                FlowErrorKind::GuardrailRejected,
                "nemo_guardrails "@ + "tool_input"@ + " rail blocked tool call by rail '"@ + name
                    + "'"@,
            ),
        ),
        blocking_rail(response) == Some(name) ==> verdict(
            response,
            RemoteCheckKind::Output,
            expected,
            value,
        ) == Err::<JsonView, FlowErrorView>(
            (
                FlowErrorKind::GuardrailRejected,
                "nemo_guardrails "@ + "tool_output"@ + " rail blocked tool call by rail '"@ + name
                    + "'"@,
            ),
        ),
        call_id(name) == "nemo_guardrails_"@ + name + "_call"@,
        tool_user_json(name) == message_json(
            "user"@,
            "Run the tool '"@ + name + "' and validate the result."@,
        ),
{
}

} // verus!
