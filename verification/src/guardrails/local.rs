//! Rails that a local Guardrails worker checks.

use vstd::prelude::*;

use crate::error::{failure, invalid, invalid_config, ErrorView, PluginError};
use crate::guardrails::component::NeMoGuardrailsConfig;
use crate::guardrails::stream_text::LocalGuardrailsCodec;
use crate::json::{
    array_view, bool_field, bool_of, copy_json, field, json_view, object1, object2, object3, text_json,
    Json, JsonView,
};
use crate::json_text::{json_of, json_text, json_text_of, parse_json};
use crate::native::completion::result_view;
use crate::native::status::{flow_failure, internal, FlowError, FlowErrorKind, FlowErrorView};
use crate::registrations::RegistrationSurface;
use crate::text::{blank, concat2, concat3, concat5, is_blank, opt_text, text_eq, trim, trimmed};

verus! {

/// An intercept that a backend registers.
pub struct GuardrailsRegistration {
    /// Where the intercept is registered.
    pub surface: RegistrationSurface,
    /// Name of the registration.
    pub name: &'static str,
    /// Priority of the intercept.
    pub priority: i32,
}

/// The mathematical form of an intercept.
pub type RegistrationFacts = (RegistrationSurface, Seq<char>, i32);

/// The mathematical form of intercepts.
pub open spec fn registration_facts(items: Seq<GuardrailsRegistration>) -> Seq<RegistrationFacts> {
    Seq::new(items.len(), |i: int| (items[i].surface, items[i].name@, items[i].priority))
}

/// The intercepts of a backend: both LLM ones where an LLM surface is enabled, then the tool one where
/// a tool surface is.
pub open spec fn intercepts(
    config: NeMoGuardrailsConfig,
    llm: Seq<char>,
    llm_stream: Seq<char>,
    tool: Seq<char>,
) -> Seq<RegistrationFacts> {
    let llm_intercepts = if config.input || config.output {
        seq![
            (RegistrationSurface::LlmExecutionIntercept, llm, config.priority),
            (RegistrationSurface::LlmStreamExecutionIntercept, llm_stream, config.priority),
        ]
    } else {
        Seq::empty()
    };
    if config.tool_input || config.tool_output {
        llm_intercepts.push((RegistrationSurface::ToolExecutionIntercept, tool, config.priority))
    } else {
        llm_intercepts
    }
}

/// The intercepts of a backend, by their names.
pub fn plan_intercepts(
    config: &NeMoGuardrailsConfig,
    llm: &'static str,
    llm_stream: &'static str,
    tool: &'static str,
) -> (r: Vec<GuardrailsRegistration>)
    ensures
        registration_facts(r@) == intercepts(*config, llm@, llm_stream@, tool@),
{
    let mut plan: Vec<GuardrailsRegistration> = Vec::new();
    if config.input || config.output {
        plan.push(
            GuardrailsRegistration {
                surface: RegistrationSurface::LlmExecutionIntercept,
                name: llm,
                priority: config.priority,
            },
        );
        plan.push(
            GuardrailsRegistration {
                surface: RegistrationSurface::LlmStreamExecutionIntercept,
                name: llm_stream,
                priority: config.priority,
            },
        );
    }
    if config.tool_input || config.tool_output {
        plan.push(
            GuardrailsRegistration {
                surface: RegistrationSurface::ToolExecutionIntercept,
                name: tool,
                priority: config.priority,
            },
        );
    }
    assert(registration_facts(plan@) =~= intercepts(*config, llm@, llm_stream@, tool@));
    plan
}

/// The intercepts of the local backend.
pub fn plan_local_backend(config: &NeMoGuardrailsConfig) -> (r: Vec<GuardrailsRegistration>)
    ensures
        registration_facts(r@) == intercepts(
            *config,
            "nemo_guardrails_local"@,
            "nemo_guardrails_local_stream"@,
            "nemo_guardrails_local"@,
        ),
{
    plan_intercepts(
        config,
        "nemo_guardrails_local",
        "nemo_guardrails_local_stream",
        "nemo_guardrails_local",
    )
}

/// Why a configuration has no codec for its LLM surfaces, by the surface that its codec name stands
/// for.
pub open spec fn codec_problem(
    config: NeMoGuardrailsConfig,
    surface: Option<LocalGuardrailsCodec>,
) -> Option<ErrorView> {
    if !config.input && !config.output {
        None
    } else {
        match (config.codec, surface) {
            (None, _) => invalid("local NeMo Guardrails backend requires a supported codec"@),
            (Some(name), None) => invalid(
                "unsupported local NeMo Guardrails codec '"@ + name@ + "'"@,
            ),
            (Some(_), Some(_)) => None,
        }
    }
}

/// The codec that managed LLM calls are read with, by the surface that the configured codec name stands
/// for.
pub fn resolve_codec(config: &NeMoGuardrailsConfig, surface: Option<LocalGuardrailsCodec>) -> (r:
    Result<Option<LocalGuardrailsCodec>, PluginError>)
    ensures
        failure(r) == codec_problem(*config, surface),
        r matches Ok(codec) ==> codec == if config.input || config.output {
            surface
        } else {
            None
        },
{
    if !(config.input || config.output) {
        return Ok(None);
    }
    match &config.codec {
        Some(name) => match surface {
            Some(codec) => Ok(Some(codec)),
            None => Err(
                PluginError::InvalidConfig(
                    concat3("unsupported local NeMo Guardrails codec '", name.as_str(), "'"),
                ),
            ),
        },
        None => Err(invalid_config("local NeMo Guardrails backend requires a supported codec")),
    }
}

/// The codec of a runtime, or the error of a call that needs one.
pub fn require_codec(codec: Option<LocalGuardrailsCodec>) -> (r: Result<
    LocalGuardrailsCodec,
    FlowError,
>)
    ensures
        match codec {
            Some(c) => r == Ok::<LocalGuardrailsCodec, FlowError>(c),
            None => flow_failure(r) == internal(
                "local NeMo Guardrails backend requires a supported codec"@,
            ),
        },
{
    match codec {
        Some(c) => Ok(c),
        None => Err(
            FlowError::internal(
                "local NeMo Guardrails backend requires a supported codec".to_owned(),
            ),
        ),
    }
}

/// A text without the white space around it, where anything is left.
pub open spec fn given(value: Option<String>) -> Option<Seq<char>> {
    match value {
        Some(text) => if blank(text@) {
            None
        } else {
            Some(trimmed(text@))
        },
        None => None,
    }
}

/// A text without the white space around it, where anything is left.
pub fn trimmed_setting(value: &Option<String>) -> (r: Option<String>)
    ensures
        opt_text(r) == given(*value),
{
    match value {
        Some(text) => if is_blank(text.as_str()) {
            None
        } else {
            Some(trim(text.as_str()).to_owned())
        },
        None => None,
    }
}

/// The first of two texts that is there.
pub open spec fn first_given(a: Option<Seq<char>>, b: Option<Seq<char>>) -> Option<Seq<char>> {
    match a {
        Some(_) => a,
        None => b,
    }
}

/// What a setting of the local backend holds.
pub open spec fn local_executable(config: NeMoGuardrailsConfig) -> Option<String> {
    match config.local {
        Some(local) => local.python_executable,
        None => None,
    }
}

/// The Python executable that a worker is started with: the configured one, else the first that the
/// environment gives, else the default.
pub fn python_executable(
    config: &NeMoGuardrailsConfig,
    relay_python: &Option<String>,
    pyo3_python: &Option<String>,
    uv_python: &Option<String>,
    default_executable: &str,
) -> (r: String)
    ensures
        r@ == match first_given(
            given(local_executable(*config)),
            first_given(
                given(*relay_python),
                first_given(given(*pyo3_python), given(*uv_python)),
            ),
        ) {
            Some(executable) => executable,
            None => default_executable@,
        },
{
    let configured = match &config.local {
        Some(local) => trimmed_setting(&local.python_executable),
        None => None,
    };
    match configured {
        Some(executable) => return executable,
        None => {},
    }
    match trimmed_setting(relay_python) {
        Some(executable) => return executable,
        None => {},
    }
    match trimmed_setting(pyo3_python) {
        Some(executable) => return executable,
        None => {},
    }
    match trimmed_setting(uv_python) {
        Some(executable) => executable,
        None => default_executable.to_owned(),
    }
}

/// The module search path that a worker is given before the inherited one.
pub fn python_path(config: &NeMoGuardrailsConfig) -> (r: Option<String>)
    ensures
        opt_text(r) == match config.local {
            Some(local) => given(local.python_path),
            None => None,
        },
{
    match &config.local {
        Some(local) => trimmed_setting(&local.python_path),
        None => None,
    }
}

/// The rails that a check runs.
#[derive(Clone, Copy, Debug, PartialEq, Eq, Structural)]
pub enum LocalRailKind {
    /// Input rails.
    Input,
    /// Output rails.
    Output,
}

impl LocalRailKind {
    /// How the worker names the rails.
    pub open spec fn name(self) -> Seq<char> {
        match self {
            LocalRailKind::Input => "input"@,
            LocalRailKind::Output => "output"@,
        }
    }

    /// How the worker names the rails.
    pub fn as_str(&self) -> (r: &'static str)
        ensures
            r@ == self.name(),
    {
        match self {
            LocalRailKind::Input => "input",
            LocalRailKind::Output => "output",
        }
    }
}

/// What a check came to.
pub enum LocalCheckOutcome {
    /// The content may pass as it is.
    Passed,
    /// A rail blocked the content.
    Blocked {
        /// Name of the rail.
        rail: Option<String>,
    },
    /// A rail changed the content.
    Modified {
        /// The content that stands for it.
        content: String,
    },
}

/// A check result as the worker writes it.
pub struct WorkerCheckResult {
    /// What the check came to.
    pub status: String,
    /// The content that stands for the checked one.
    pub content: Option<String>,
    /// The rail that blocked it.
    pub rail: Option<String>,
}

/// Whether a check result stands for an outcome.
pub open spec fn stands_for(result: WorkerCheckResult, outcome: LocalCheckOutcome) -> bool {
    match outcome {
        LocalCheckOutcome::Blocked { rail } => result.status@ == "blocked"@ && rail == result.rail,
        LocalCheckOutcome::Modified { content } => result.status@ == "modified"@ && content@
            == match result.content {
            Some(text) => text@,
            None => Seq::empty(),
        },
        LocalCheckOutcome::Passed => result.status@ == "passed"@,
    }
}

/// Why a check result is refused.
pub open spec fn check_problem(decoded: Result<WorkerCheckResult, String>) -> Option<
    FlowErrorView,
> {
    match decoded {
        Err(shown) => internal("worker returned invalid check result: "@ + shown@),
        Ok(result) => if result.status@ == "blocked"@ || result.status@ == "modified"@
            || result.status@ == "passed"@ {
            None
        } else {
            internal("unexpected worker check status: "@ + result.status@)
        },
    }
}

/// Reads a check result, given with what it decodes to.
pub fn parse_check_result(decoded: Result<WorkerCheckResult, String>) -> (r: Result<
    LocalCheckOutcome,
    FlowError,
>)
    ensures
        flow_failure(r) == check_problem(decoded),
        r matches Ok(outcome) ==> stands_for(decoded->Ok_0, outcome),
{
    let result = match decoded {
        Ok(result) => result,
        Err(shown) => {
            return Err(
                FlowError::internal(
                    concat2("worker returned invalid check result: ", shown.as_str()),
                ),
            );
        },
    };
    if text_eq(result.status.as_str(), "blocked") {
        Ok(LocalCheckOutcome::Blocked { rail: result.rail })
    } else if text_eq(result.status.as_str(), "modified") {
        let content = match result.content {
            Some(content) => content,
            None => String::new(),
        };
        Ok(LocalCheckOutcome::Modified { content })
    } else if text_eq(result.status.as_str(), "passed") {
        Ok(LocalCheckOutcome::Passed)
    } else {
        Err(
            FlowError::internal(
                concat2("unexpected worker check status: ", result.status.as_str()),
            ),
        )
    }
}

/// The text of the error of a blocked call.
pub open spec fn blocked_text(rail_type: Seq<char>, rail: Option<Seq<char>>) -> Seq<char> {
    let subject = if rail_type == "input"@ || rail_type == "output"@ {
        "LLM call"@
    } else {
        "tool call"@
    };
    let detail = match rail {
        Some(name) => if name.len() > 0 {
            " by rail '"@ + name + "'"@
        } else {
            Seq::empty()
        },
        None => Seq::empty(),
    };
    "NeMo Guardrails "@ + rail_type + " rail blocked the "@ + subject + detail + "."@
}

/// The error of a blocked call.
pub fn blocked_error(rail_type: &str, rail: &Option<String>) -> (r: FlowError)
    ensures
        r@ == (FlowErrorKind::Internal, blocked_text(rail_type@, opt_text(*rail))),
{
    let detail = match rail {
        Some(name) => if name.as_str().is_empty() {
            String::new()
        } else {
            concat3(" by rail '", name.as_str(), "'")
        },
        None => String::new(),
    };
    let subject = if text_eq(rail_type, "input") || text_eq(rail_type, "output") {
        "LLM call"
    } else {
        "tool call"
    };
    let text = concat5(
        "NeMo Guardrails ",
        rail_type,
        " rail blocked the ",
        subject,
        detail.as_str(),
    );
    FlowError::internal(concat2(text.as_str(), "."))
}

/// Content of a message.
pub enum MessageContent {
    /// One text.
    Text(String),
    /// Anything else, as JSON.
    Parts(Json),
}

/// A message of an LLM request, as far as rails change it.
pub enum AnnotatedMessage {
    /// A message of the user, by its content.
    User(MessageContent),
    /// A message of the assistant, by its content where there is any.
    Assistant(Option<MessageContent>),
    /// A message with another role.
    Other,
}

/// Whether a message has a role.
pub open spec fn has_role(message: AnnotatedMessage, role: Seq<char>) -> bool {
    match message {
        AnnotatedMessage::User(_) => role == "user"@,
        AnnotatedMessage::Assistant(_) => role == "assistant"@,
        AnnotatedMessage::Other => false,
    }
}

/// A message with another content.
pub open spec fn with_content(message: AnnotatedMessage, content: String) -> AnnotatedMessage {
    match message {
        AnnotatedMessage::User(_) => AnnotatedMessage::User(
            MessageContent::Text(content),
        ),
        AnnotatedMessage::Assistant(_) => AnnotatedMessage::Assistant(
            Some(MessageContent::Text(content)),
        ),
        AnnotatedMessage::Other => message,
    }
}

/// Where the last message with a role stands.
pub open spec fn last_with_role(messages: Seq<AnnotatedMessage>, role: Seq<char>) -> Option<int>
    decreases messages.len(),
{
    if messages.len() == 0 {
        None
    } else if has_role(messages.last(), role) {
        Some(messages.len() - 1)
    } else {
        last_with_role(messages.drop_last(), role)
    }
}

/// Messages whose last one with a role has another content.
pub open spec fn with_last_content(
    messages: Seq<AnnotatedMessage>,
    role: Seq<char>,
    content: String,
) -> Seq<AnnotatedMessage> {
    match last_with_role(messages, role) {
        Some(i) => messages.update(i, with_content(messages[i], content)),
        None => messages,
    }
}

/// Why the content of the last message with a role cannot be replaced.
pub open spec fn replace_problem(messages: Seq<AnnotatedMessage>, role: Seq<char>) -> Option<
    FlowErrorView,
> {
    match last_with_role(messages, role) {
        Some(_) => None,
        None => internal(
            "NeMo Guardrails returned modified "@ + role + " content but no "@ + role
                + " message was present."@,
        ),
    }
}

/// Replaces the content of the last message with a role.
pub fn replace_last_role_content(
    messages: &mut Vec<AnnotatedMessage>,
    role: &str,
    content: String,
) -> (r: Result<(), FlowError>)
    ensures
        flow_failure(r) == replace_problem(old(messages)@, role@),
        final(messages)@ == with_last_content(old(messages)@, role@, content),
{
    let ghost all = messages@;
    let mut i: usize = messages.len();
    assert(all.take(i as int) =~= all);
    while i > 0
        invariant
            i <= all.len(),
            messages@ == all,
            all == old(messages)@,
            last_with_role(all, role@) == last_with_role(all.take(i as int), role@),
        decreases i,
    {
        i -= 1;
        let ghost part = all.take(i + 1);
        assert(part.last() == all[i as int]);
        assert(part.drop_last() =~= all.take(i as int));
        let next = match &messages[i] {
            AnnotatedMessage::User(_) => if text_eq(role, "user") {
                Some(AnnotatedMessage::User(MessageContent::Text(content.clone())))
            } else {
                None
            },
            AnnotatedMessage::Assistant(_) => if text_eq(role, "assistant") {
                Some(
                    AnnotatedMessage::Assistant(
                        Some(MessageContent::Text(content.clone())),
                    ),
                )
            } else {
                None
            },
            AnnotatedMessage::Other => None,
        };
        match next {
            Some(message) => {
                messages.set(i, message);
                return Ok(());
            },
            None => {},
        }
    }
    let text = concat5(
        "NeMo Guardrails returned modified ",
        role,
        " content but no ",
        role,
        " message was present.",
    );
    Err(FlowError::internal(text))
}

/// Why what the request's messages serialize to cannot be sent to the worker.
pub open spec fn messages_problem(serialized: Result<Json, String>) -> Option<FlowErrorView> {
    match serialized {
        Err(shown) => internal("failed to serialize messages: "@ + shown@),
        Ok(Json::Array(_)) => None,
        Ok(_) => internal("serialized messages were not a JSON array"@),
    }
}

/// The messages that the worker is sent, given with what the request's messages serialize to.
pub fn messages_from_annotated(serialized: Result<Json, String>) -> (r: Result<
    Vec<Json>,
    FlowError,
>)
    ensures
        flow_failure(r) == messages_problem(serialized),
        r matches Ok(messages) ==> serialized == Ok::<Json, String>(Json::Array(messages)),
{
    match serialized {
        Err(shown) => Err(
            FlowError::internal(concat2("failed to serialize messages: ", shown.as_str())),
        ),
        Ok(Json::Array(messages)) => Ok(messages),
        Ok(_) => Err(FlowError::internal("serialized messages were not a JSON array".to_owned())),
    }
}

/// Why an LLM call does not go on after the input rails.
pub open spec fn input_check_problem(
    outcome: LocalCheckOutcome,
    messages: Seq<AnnotatedMessage>,
) -> Option<FlowErrorView> {
    match outcome {
        LocalCheckOutcome::Passed => None,
        LocalCheckOutcome::Blocked { rail } => internal(
            blocked_text("input"@, opt_text(rail)),
        ),
        LocalCheckOutcome::Modified { .. } => replace_problem(messages, "user"@),
    }
}

/// Takes what the input rails came to: whether the request changed, and has to be encoded again.
///
/// Changed content takes the place of the last user message's.
pub fn after_input_check(outcome: LocalCheckOutcome, messages: &mut Vec<AnnotatedMessage>) -> (r:
    Result<bool, FlowError>)
    ensures
        flow_failure(r) == input_check_problem(outcome, old(messages)@),
        r matches Ok(changed) ==> changed == (outcome is Modified),
        final(messages)@ == match outcome {
            LocalCheckOutcome::Modified { content } => with_last_content(
                old(messages)@,
                "user"@,
                content,
            ),
            _ => old(messages)@,
        },
{
    match outcome {
        LocalCheckOutcome::Passed => Ok(false),
        LocalCheckOutcome::Blocked { rail } => Err(blocked_error("input", &rail)),
        LocalCheckOutcome::Modified { content } => match replace_last_role_content(
            messages,
            "user",
            content,
        ) {
            Ok(()) => Ok(true),
            Err(e) => Err(e),
        },
    }
}

/// A message as the worker is sent it.
pub open spec fn message_json(role: Seq<char>, content: Seq<char>) -> JsonView {
    JsonView::Object(
        map!["role"@ => JsonView::Text(role), "content"@ => JsonView::Text(content)],
    )
}

/// A message as the worker is sent it.
pub fn message_value(role: &str, content: &str) -> (r: Json)
    ensures
        json_view(r) == message_json(role@, content@),
{
    object2("role", text_json(role), "content", text_json(content))
}

/// The messages that the output rails check: those of the request, and the response.
pub fn output_check_messages(messages: &Vec<Json>, response_text: &str) -> (r: Vec<Json>)
    ensures
        array_view(r@) == array_view(messages@).push(message_json("assistant"@, response_text@)),
{
    let mut out: Vec<Json> = Vec::new();
    let mut i: usize = 0;
    while i < messages.len()
        invariant
            i <= messages.len(),
            out.len() == i,
            forall|k: int|
                0 <= k < i ==> json_view(#[trigger] out@[k]) == json_view(messages@[k]),
        decreases messages.len() - i,
    {
        out.push(copy_json(&messages[i]));
        i += 1;
    }
    out.push(message_value("assistant", response_text));
    assert(array_view(out@) =~= array_view(messages@).push(
        message_json("assistant"@, response_text@),
    ));
    out
}

/// Why an LLM response is withheld after the output rails.
pub open spec fn output_check_problem(outcome: LocalCheckOutcome) -> Option<FlowErrorView> {
    match outcome {
        LocalCheckOutcome::Passed => None,
        LocalCheckOutcome::Blocked { rail } => internal(
            blocked_text("output"@, opt_text(rail)),
        ),
        LocalCheckOutcome::Modified { .. } => internal(
            "NeMo Guardrails output rail returned modified content, but the local backend does not rewrite provider responses yet."@,
        ),
    }
}

/// Takes what the output rails came to.
pub fn after_output_check(outcome: LocalCheckOutcome) -> (r: Result<(), FlowError>)
    ensures
        flow_failure(r) == output_check_problem(outcome),
{
    match outcome {
        LocalCheckOutcome::Passed => Ok(()),
        LocalCheckOutcome::Blocked { rail } => Err(blocked_error("output", &rail)),
        LocalCheckOutcome::Modified { .. } => Err(
            FlowError::internal(
                "NeMo Guardrails output rail returned modified content, but the local backend does not rewrite provider responses yet.".to_owned(),
            ),
        ),
    }
}

/// A tool call as rails see it.
pub open spec fn tool_input_json(name: Seq<char>, args: JsonView) -> JsonView {
    JsonView::Object(map!["tool_name"@ => JsonView::Text(name), "arguments"@ => args])
}

/// A tool call and its result as rails see it.
pub open spec fn tool_output_json(name: Seq<char>, args: JsonView, result: JsonView) -> JsonView {
    JsonView::Object(
        map!["tool_name"@ => JsonView::Text(name), "arguments"@ => args, "result"@ => result],
    )
}

/// The content that a tool call is checked as.
pub fn tool_input_content(name: &str, args: &Json) -> (r: String)
    ensures
        r@ == json_text_of(tool_input_json(name@, json_view(*args))),
{
    json_text(&object2("tool_name", text_json(name), "arguments", copy_json(args)))
}

/// The content that a tool result is checked as.
pub fn tool_output_content(name: &str, args: &Json, result: &Json) -> (r: String)
    ensures
        r@ == json_text_of(tool_output_json(name@, json_view(*args), json_view(*result))),
{
    json_text(
        &object3(
            "tool_name",
            text_json(name),
            "arguments",
            copy_json(args),
            "result",
            copy_json(result),
        ),
    )
}

/// The messages that a tool call is checked as.
pub fn tool_input_messages(name: &str, args: &Json) -> (r: Vec<Json>)
    ensures
        array_view(r@) == seq![
            message_json("user"@, json_text_of(tool_input_json(name@, json_view(*args)))),
        ],
{
    let content = tool_input_content(name, args);
    let messages: Vec<Json> = vec![message_value("user", content.as_str())];
    assert(array_view(messages@) =~= seq![message_json("user"@, content@)]);
    messages
}

/// The messages that a tool result is checked as.
pub fn tool_output_messages(name: &str, args: &Json, result: &Json) -> (r: Vec<Json>)
    ensures
        array_view(r@) == seq![
            message_json("user"@, json_text_of(tool_input_json(name@, json_view(*args)))),
            message_json(
                "assistant"@,
                json_text_of(tool_output_json(name@, json_view(*args), json_view(*result))),
            ),
        ],
{
    let input = tool_input_content(name, args);
    let output = tool_output_content(name, args, result);
    let messages: Vec<Json> = vec![
        message_value("user", input.as_str()),
        message_value("assistant", output.as_str()),
    ];
    assert(array_view(messages@) =~= seq![
        message_json("user"@, input@),
        message_json("assistant"@, output@),
    ]);
    messages
}

/// The value that changed content gives for a field, by what the content parses to.
pub open spec fn modified_value(parsed: Result<JsonView, Seq<char>>, name: Seq<char>) -> Result<
    JsonView,
    FlowErrorView,
> {
    match parsed {
        Err(_) => Err(
            (
                FlowErrorKind::Internal,
                "NeMo Guardrails returned modified tool "@ + name
                    + " content that is not valid JSON."@,
            ),
        ),
        Ok(value) => match field(value, name) {
            Some(v) => Ok(v),
            None => Err(
                (
                    FlowErrorKind::Internal,
                    "NeMo Guardrails returned modified tool "@ + name + " content without a '"@
                        + name + "' field."@,
                ),
            ),
        },
    }
}

/// What a text parses to, in its mathematical form.
pub open spec fn parsed_view(parsed: Result<Json, String>) -> Result<JsonView, Seq<char>> {
    match parsed {
        Ok(value) => Ok(json_view(value)),
        Err(shown) => Err(shown@),
    }
}

/// Reads a field of changed content, given with what the content parses to.
pub fn read_modified_value(parsed: &Result<Json, String>, name: &str) -> (r: Result<
    Json,
    FlowError,
>)
    ensures
        result_view(r) == modified_value(parsed_view(*parsed), name@),
{
    match parsed {
        Err(_) => Err(
            FlowError::internal(
                concat3(
                    "NeMo Guardrails returned modified tool ",
                    name,
                    " content that is not valid JSON.",
                ),
            ),
        ),
        Ok(value) => match value.get(name) {
            Some(v) => Ok(copy_json(v)),
            None => Err(
                FlowError::internal(
                    concat5(
                        "NeMo Guardrails returned modified tool ",
                        name,
                        " content without a '",
                        name,
                        "' field.",
                    ),
                ),
            ),
        },
    }
}

/// Reads a field of changed content.
pub fn modified_tool_payload(content: &str, name: &str) -> (r: Result<Json, FlowError>)
    ensures
        result_view(r) == modified_value(json_of(content@), name@),
{
    read_modified_value(&parse_json(content), name)
}

/// What a tool call goes on with after its rails: the value that was checked, or the one that the
/// changed content gives.
pub open spec fn tool_check_result(
    outcome: LocalCheckOutcome,
    rail_type: Seq<char>,
    name: Seq<char>,
    checked: JsonView,
) -> Result<JsonView, FlowErrorView> {
    match outcome {
        LocalCheckOutcome::Passed => Ok(checked),
        LocalCheckOutcome::Blocked { rail } => Err(
            (FlowErrorKind::Internal, blocked_text(rail_type, opt_text(rail))),
        ),
        LocalCheckOutcome::Modified { content } => modified_value(json_of(content@), name),
    }
}

/// Takes what the rails on a tool call's arguments came to.
pub fn after_tool_input_check(outcome: LocalCheckOutcome, args: &Json) -> (r: Result<
    Json,
    FlowError,
>)
    ensures
        result_view(r) == tool_check_result(
            outcome,
            "tool_input"@,
            "arguments"@,
            json_view(*args),
        ),
{
    match outcome {
        LocalCheckOutcome::Passed => Ok(copy_json(args)),
        LocalCheckOutcome::Blocked { rail } => Err(blocked_error("tool_input", &rail)),
        LocalCheckOutcome::Modified { content } => modified_tool_payload(
            content.as_str(),
            "arguments",
        ),
    }
}

/// Takes what the rails on a tool call's result came to.
pub fn after_tool_output_check(outcome: LocalCheckOutcome, result: &Json) -> (r: Result<
    Json,
    FlowError,
>)
    ensures
        result_view(r) == tool_check_result(
            outcome,
            "tool_output"@,
            "result"@,
            json_view(*result),
        ),
{
    match outcome {
        LocalCheckOutcome::Passed => Ok(copy_json(result)),
        LocalCheckOutcome::Blocked { rail } => Err(blocked_error("tool_output", &rail)),
        LocalCheckOutcome::Modified { content } => modified_tool_payload(
            content.as_str(),
            "result",
        ),
    }
}

/// A command that has no arguments.
pub open spec fn bare_command(command: Seq<char>) -> JsonView {
    JsonView::Object(map!["command"@ => JsonView::Text(command)])
}

/// The command that checks messages.
pub fn check_command(messages: Vec<Json>, kind: LocalRailKind) -> (r: Json)
    ensures
        json_view(r) == JsonView::Object(
            map![
                "command"@ => JsonView::Text("check"@),
                "messages"@ => JsonView::Array(array_view(messages@)),
                "rail_type"@ => JsonView::Text(kind.name()),
            ],
        ),
{
    object3(
        "command",
        text_json("check"),
        "messages",
        Json::Array(messages),
        "rail_type",
        text_json(kind.as_str()),
    )
}

/// The command that asks whether output rails run on streams.
pub fn streaming_probe_command() -> (r: Json)
    ensures
        json_view(r) == bare_command("has_streaming_output_rails"@),
{
    object1("command", text_json("has_streaming_output_rails"))
}

/// The command that makes sure that output rails can run on streams.
pub fn streaming_support_command() -> (r: Json)
    ensures
        json_view(r) == bare_command("ensure_streaming_output_supported"@),
{
    object1("command", text_json("ensure_streaming_output_supported"))
}

/// Why the answer to whether output rails run on streams cannot be read.
pub open spec fn probe_problem(answer: JsonView) -> Option<FlowErrorView> {
    match bool_of(field(answer, "enabled"@)) {
        Some(_) => None,
        None => internal("worker returned invalid streaming probe"@),
    }
}

/// Reads the answer to whether output rails run on streams.
pub fn read_streaming_probe(result: &Json) -> (r: Result<bool, FlowError>)
    ensures
        flow_failure(r) == probe_problem(json_view(*result)),
        r matches Ok(enabled) ==> bool_of(field(json_view(*result), "enabled"@)) == Some(enabled),
{
    match bool_field(result, "enabled") {
        Some(enabled) => Ok(enabled),
        None => Err(FlowError::internal("worker returned invalid streaming probe".to_owned())),
    }
}

/// Whether a stream is watched by output rails, by the answer to whether they run on streams.
pub fn guards_stream(enable_output: bool, streaming_rails: bool) -> (r: bool)
    ensures
        r == (enable_output && streaming_rails),
{
    enable_output && streaming_rails
}

/// Content that passes the rails goes on unchanged, and blocked content never goes on.
pub proof fn law_rails_decide_what_goes_on(
    outcome: LocalCheckOutcome,
    rail_type: Seq<char>,
    name: Seq<char>,
    checked: JsonView,
    messages: Seq<AnnotatedMessage>,
)
    ensures
        outcome is Passed ==> tool_check_result(outcome, rail_type, name, checked)
            == Ok::<JsonView, FlowErrorView>(checked) && input_check_problem(outcome, messages)
            is None && output_check_problem(outcome) is None,
        outcome is Blocked ==> tool_check_result(outcome, rail_type, name, checked) is Err
            && input_check_problem(outcome, messages) is Some && output_check_problem(outcome)
            is Some,
{
}

/// Replacing the content of the last message with a role leaves every other message as it is.
pub proof fn law_only_the_last_message_changes(
    messages: Seq<AnnotatedMessage>,
    role: Seq<char>,
    content: String,
    i: int,
)
    requires
        0 <= i < messages.len(),
        last_with_role(messages, role) != Some(i),
    ensures
        with_last_content(messages, role, content).len() == messages.len(),
        with_last_content(messages, role, content)[i] == messages[i],
{
    lemma_last_with_role(messages, role);
}

/// The last message with a role is one of the messages, and none after it has the role.
pub proof fn lemma_last_with_role(messages: Seq<AnnotatedMessage>, role: Seq<char>)
    ensures
        last_with_role(messages, role) matches Some(i) ==> 0 <= i < messages.len() && has_role(
            messages[i],
            role,
        ) && (forall|k: int| i < k < messages.len() ==> !has_role(#[trigger] messages[k], role)),
        last_with_role(messages, role) is None ==> (forall|k: int|
            0 <= k < messages.len() ==> !has_role(#[trigger] messages[k], role)),
    decreases messages.len(),
{
    if messages.len() > 0 && !has_role(messages.last(), role) {
        let rest = messages.drop_last();
        lemma_last_with_role(rest, role);
        assert forall|k: int| 0 <= k < rest.len() implies #[trigger] messages[k] == rest[k] by {}
    }
}

/// The rails intercept LLM calls, streamed and not, where an LLM surface is enabled, and tool calls
/// where a tool surface is; each at the configured priority.
pub proof fn law_enabled_surfaces_are_intercepted(
    config: NeMoGuardrailsConfig,
    llm: Seq<char>,
    llm_stream: Seq<char>,
    tool: Seq<char>,
)
    ensures
        intercepts(config, llm, llm_stream, tool).contains(
            (RegistrationSurface::LlmExecutionIntercept, llm, config.priority),
        ) <==> config.input || config.output,
        intercepts(config, llm, llm_stream, tool).contains(
            (RegistrationSurface::LlmStreamExecutionIntercept, llm_stream, config.priority),
        ) <==> config.input || config.output,
        intercepts(config, llm, llm_stream, tool).contains(
            (RegistrationSurface::ToolExecutionIntercept, tool, config.priority),
        ) <==> config.tool_input || config.tool_output,
        intercepts(config, llm, llm_stream, tool).len() == (if config.input || config.output {
            2int
        } else {
            0
        }) + (if config.tool_input || config.tool_output {
            1int
        } else {
            0
        }),
{
    let all = intercepts(config, llm, llm_stream, tool);
    if config.input || config.output {
        assert(all[0] == (RegistrationSurface::LlmExecutionIntercept, llm, config.priority));
        assert(all[1] == (
            RegistrationSurface::LlmStreamExecutionIntercept,
            llm_stream,
            config.priority,
        ));
    }
    if config.tool_input || config.tool_output {
        assert(all.last() == (RegistrationSurface::ToolExecutionIntercept, tool, config.priority));
    }
}

/// A codec is needed exactly for LLM surfaces, and must be one that the backend knows.
pub proof fn law_llm_rails_need_a_codec(
    config: NeMoGuardrailsConfig,
    surface: Option<LocalGuardrailsCodec>,
)
    ensures
        codec_problem(config, surface) is None <==> !config.input && !config.output || config.codec
            is Some && surface is Some,
        (config.input || config.output) && config.codec is None ==> codec_problem(config, surface)
            == Some(
            (
                crate::error::PluginErrorKind::InvalidConfig,
                "local NeMo Guardrails backend requires a supported codec"@,
            ),
        ),
{
}

/// Settings are trimmed, and blank ones count as absent; of several the first that is given is used.
pub proof fn law_blank_settings_are_absent(
    text: String,
    a: Option<Seq<char>>,
    b: Option<Seq<char>>,
)
    ensures
        given(None) is None,
        blank(text@) ==> given(Some(text)) is None,
        !blank(text@) ==> given(Some(text)) == Some(trimmed(text@)),
        a is Some ==> first_given(a, b) == a,
        first_given(None, b) == b,
        LocalRailKind::Input.name() == "input"@,
        LocalRailKind::Output.name() == "output"@,
{
}

/// A worker's answer passes, blocks or changes what was checked, as its status says; another status
/// is an error.
pub proof fn law_worker_statuses_decide(
    result: WorkerCheckResult,
    outcome: LocalCheckOutcome,
    shown: String,
)
    ensures
        check_problem(Ok(result)) is None <==> result.status@ == "passed"@ || result.status@
            == "blocked"@ || result.status@ == "modified"@,
        check_problem(Ok(result)) is Some ==> check_problem(Ok(result)) == Some(
            (FlowErrorKind::Internal, "unexpected worker check status: "@ + result.status@),
        ),
        check_problem(Err(shown)) == Some(
            (FlowErrorKind::Internal, "worker returned invalid check result: "@ + shown@),
        ),
        stands_for(result, outcome) && result.status@ == "passed"@ ==> outcome is Passed,
        stands_for(result, outcome) && result.status@ == "blocked"@ ==> outcome is Blocked
            && outcome->rail == result.rail,
        stands_for(result, outcome) && result.status@ == "modified"@ ==> outcome is Modified,
        stands_for(result, outcome) && result.status@ == "modified"@ && result.content is Some
            ==> outcome->content@ == result.content->0@,
        stands_for(result, outcome) && result.status@ == "modified"@ && result.content is None
            ==> outcome->content@.len() == 0,
{
    reveal_strlit("passed");
    reveal_strlit("blocked");
    reveal_strlit("modified");
    assert("passed"@.len() == 6 && "blocked"@.len() == 7 && "modified"@.len() == 8);
}

/// The text of a block names the rails, what they blocked, and the rail where it is known.
pub proof fn law_blocks_name_their_rail(rail: Seq<char>)
    ensures
        blocked_text("input"@, None) == "NeMo Guardrails "@ + "input"@ + " rail blocked the "@
            + "LLM call"@ + "."@,
        blocked_text("output"@, None) == "NeMo Guardrails "@ + "output"@ + " rail blocked the "@
            + "LLM call"@ + "."@,
        blocked_text("tool_input"@, None) == "NeMo Guardrails "@ + "tool_input"@
            + " rail blocked the "@ + "tool call"@ + "."@,
        blocked_text("tool_output"@, None) == "NeMo Guardrails "@ + "tool_output"@
            + " rail blocked the "@ + "tool call"@ + "."@,
        rail.len() > 0 ==> blocked_text("input"@, Some(rail)) == "NeMo Guardrails "@ + "input"@
            + " rail blocked the "@ + "LLM call"@ + (" by rail '"@ + rail + "'"@) + "."@,
        rail.len() == 0 ==> blocked_text("input"@, Some(rail)) == blocked_text("input"@, None),
{
    reveal_strlit("input");
    reveal_strlit("output");
    reveal_strlit("tool_input");
    reveal_strlit("tool_output");
    assert("input"@.len() == 5 && "output"@.len() == 6 && "tool_input"@.len() == 10
        && "tool_output"@.len() == 11);
    let i = "NeMo Guardrails "@ + "input"@ + " rail blocked the "@ + "LLM call"@;
    let o = "NeMo Guardrails "@ + "output"@ + " rail blocked the "@ + "LLM call"@;
    let ti = "NeMo Guardrails "@ + "tool_input"@ + " rail blocked the "@ + "tool call"@;
    let to = "NeMo Guardrails "@ + "tool_output"@ + " rail blocked the "@ + "tool call"@;
    assert(i + Seq::<char>::empty() =~= i);
    assert(o + Seq::<char>::empty() =~= o);
    assert(ti + Seq::<char>::empty() =~= ti);
    assert(to + Seq::<char>::empty() =~= to);
}

/// Changed content goes into the last message with the role; where there is none, it is an error.
pub proof fn law_changed_content_replaces_the_last_message(
    messages: Seq<AnnotatedMessage>,
    message: AnnotatedMessage,
    role: Seq<char>,
    content: String,
    old_content: MessageContent,
    answer: Option<MessageContent>,
)
    ensures
        has_role(AnnotatedMessage::User(old_content), role) <==> role == "user"@,
        has_role(AnnotatedMessage::Assistant(answer), role) <==> role == "assistant"@,
        !has_role(AnnotatedMessage::Other, role),
        with_content(AnnotatedMessage::User(old_content), content) == AnnotatedMessage::User(
            MessageContent::Text(content),
        ),
        with_content(AnnotatedMessage::Assistant(answer), content) == AnnotatedMessage::Assistant(
            Some(MessageContent::Text(content)),
        ),
        has_role(message, role) ==> with_last_content(messages.push(message), role, content)
            =~= messages.push(with_content(message, content)),
        !has_role(message, role) ==> with_last_content(messages.push(message), role, content)
            =~= with_last_content(messages, role, content).push(message),
        with_last_content(Seq::empty(), role, content) =~= Seq::<AnnotatedMessage>::empty(),
        replace_problem(messages, role) is None <==> exists|i: int|
            0 <= i < messages.len() && has_role(#[trigger] messages[i], role),
        replace_problem(messages, role) matches Some(e) ==> e == (
            FlowErrorKind::Internal,
            "NeMo Guardrails returned modified "@ + role + " content but no "@ + role
                + " message was present."@,
        ),
{
    let all = messages.push(message);
    assert(all.drop_last() =~= messages);
    assert(all.last() == message);
    lemma_last_with_role(messages, role);
    reveal_strlit("user");
    reveal_strlit("assistant");
    assert("user"@.len() == 4 && "assistant"@.len() == 9);
}

/// What a check of LLM content leads to.
pub proof fn law_llm_checks_decide(
    rail: Option<String>,
    content: String,
    messages: Seq<AnnotatedMessage>,
)
    ensures
        input_check_problem(LocalCheckOutcome::Blocked { rail }, messages) == Some(
            (FlowErrorKind::Internal, blocked_text("input"@, opt_text(rail))),
        ),
        output_check_problem(LocalCheckOutcome::Blocked { rail }) == Some(
            (FlowErrorKind::Internal, blocked_text("output"@, opt_text(rail))),
        ),
        input_check_problem(LocalCheckOutcome::Modified { content }, messages) is None <==> exists|
            i: int,
        |
            0 <= i < messages.len() && (#[trigger] messages[i]) is User,
        output_check_problem(LocalCheckOutcome::Modified { content }) is Some,
{
    reveal_strlit("user");
    reveal_strlit("assistant");
    assert("user"@.len() == 4 && "assistant"@.len() == 9);
    lemma_last_with_role(messages, "user"@);
    assert forall|i: int| 0 <= i < messages.len() implies ((#[trigger] messages[i]) is User
        <==> has_role(messages[i], "user"@)) by {}
}

/// Messages are sent as they serialize, which must be a list.
pub proof fn law_messages_serialize_to_lists(shown: String, value: Json)
    ensures
        messages_problem(Ok(value)) is None <==> value is Array,
        messages_problem(Err(shown)) == Some(
            (FlowErrorKind::Internal, "failed to serialize messages: "@ + shown@),
        ),
        probe_problem(json_view(value)) is None <==> bool_of(field(json_view(value), "enabled"@))
            is Some,
{
}

/// A check of a tool call gives the checked value, the changed one, or the block.
pub proof fn law_tool_checks_decide(
    rail: Option<String>,
    content: String,
    rail_type: Seq<char>,
    name: Seq<char>,
    checked: JsonView,
    value: JsonView,
)
    ensures
        tool_check_result(LocalCheckOutcome::Blocked { rail }, rail_type, name, checked) == Err::<
            JsonView,
            FlowErrorView,
        >((FlowErrorKind::Internal, blocked_text(rail_type, opt_text(rail)))),
        tool_check_result(LocalCheckOutcome::Modified { content }, rail_type, name, checked)
            == Ok::<JsonView, FlowErrorView>(value) <==> json_of(content@) is Ok && field(
            json_of(content@)->Ok_0,
            name,
        ) == Some(value),
        modified_value(Ok(value), name) is Ok <==> field(value, name) is Some,
        field(value, name) is Some ==> modified_value(Ok(value), name) == Ok::<
            JsonView,
            FlowErrorView,
        >(field(value, name)->0),
{
}

/// What the worker is asked about: messages with a role and content, and tool calls by name,
/// arguments and result.
pub proof fn law_checked_messages_tell_the_call(
    role: Seq<char>,
    content: Seq<char>,
    name: Seq<char>,
    args: JsonView,
    result: JsonView,
    command: Seq<char>,
)
    ensures
        field(message_json(role, content), "role"@) == Some(JsonView::Text(role)),
        field(message_json(role, content), "content"@) == Some(JsonView::Text(content)),
        field(tool_input_json(name, args), "tool_name"@) == Some(JsonView::Text(name)),
        field(tool_input_json(name, args), "arguments"@) == Some(args),
        field(tool_input_json(name, args), "result"@) is None,
        field(tool_output_json(name, args, result), "tool_name"@) == Some(JsonView::Text(name)),
        field(tool_output_json(name, args, result), "arguments"@) == Some(args),
        field(tool_output_json(name, args, result), "result"@) == Some(result),
        field(bare_command(command), "command"@) == Some(JsonView::Text(command)),
{
    reveal_strlit("role");
    reveal_strlit("content");
    reveal_strlit("tool_name");
    reveal_strlit("arguments");
    reveal_strlit("result");
    assert("role"@.len() == 4 && "content"@.len() == 7 && "tool_name"@.len() == 9
        && "arguments"@.len() == 9 && "result"@.len() == 6);
    assert("tool_name"@[0] == 't' && "arguments"@[0] == 'a');
}

/// What is told where the backend cannot go on.
pub proof fn law_unusable_checks_are_told(
    config: NeMoGuardrailsConfig,
    name: String,
    value: Json,
    document: JsonView,
    shown: Seq<char>,
    part: Seq<char>,
    content: String,
)
    ensures
        (config.input || config.output) && config.codec == Some(name) ==> codec_problem(config, None)
            == Some(
            (
                crate::error::PluginErrorKind::InvalidConfig,
                "unsupported local NeMo Guardrails codec '"@ + name@ + "'"@,
            ),
        ),
        !(value is Array) ==> messages_problem(Ok(value)) == Some(
            (FlowErrorKind::Internal, "serialized messages were not a JSON array"@),
        ),
        output_check_problem(LocalCheckOutcome::Modified { content }) == Some(
            (
                FlowErrorKind::Internal,
                "NeMo Guardrails output rail returned modified content, but the local backend does not rewrite provider responses yet."@,
            ),
        ),
        modified_value(Err(shown), part) == Err::<JsonView, FlowErrorView>(
            (
                FlowErrorKind::Internal,
                "NeMo Guardrails returned modified tool "@ + part
                    + " content that is not valid JSON."@,
            ),
        ),
        field(document, part) is None ==> modified_value(Ok(document), part) == Err::<
            JsonView,
            FlowErrorView,
        >(
            (
                FlowErrorKind::Internal,
                "NeMo Guardrails returned modified tool "@ + part + " content without a '"@ + part
                    + "' field."@,
            ),
        ),
        bool_of(field(document, "enabled"@)) is None ==> probe_problem(document) == Some(
            (FlowErrorKind::Internal, "worker returned invalid streaming probe"@),
        ),
{
}

} // verus!
