use relay_plugin::config::{ConfigDiagnostic, ConfigPolicy, DiagnosticLevel, UnsupportedBehavior};
use relay_plugin::discovery::parse_plugin_config_document;
use relay_plugin::guardrails::bridge::{
    accept_init, finish_request, init_command, react_to_read, worker_start_error,
    EnvelopeTarget, LocalGuardrailsWorker, LocalWorkerEnvelope, ReadStep, WorkerRead, WorkerReply,
};
use relay_plugin::guardrails::component::{
    deregister_nemo_guardrails_component, register_nemo_guardrails_component,
    select_guardrails_backend, ComponentSpec, GuardrailsBackend, LocalBackendConfig,
    NeMoGuardrailsConfig, RailSelector, RemoteBackendConfig, RequestDefaultsConfig,
    RequestRailsConfig,
};
use relay_plugin::guardrails::guarded_stream::{
    ChunkSend, ForwardStep, GuardedForward, MonitorEnd, MonitorFinish, MonitorInput, MonitorStep,
    StreamMonitor,
};
use relay_plugin::guardrails::local::{
    after_input_check, after_output_check, after_tool_input_check, after_tool_output_check,
    blocked_error, check_command, output_check_messages, parse_check_result, plan_local_backend,
    python_executable, python_path, read_streaming_probe, replace_last_role_content, require_codec,
    resolve_codec, tool_input_content, tool_output_messages, AnnotatedMessage, LocalCheckOutcome,
    LocalRailKind, MessageContent, WorkerCheckResult,
};
use relay_plugin::guardrails::remote::{
    check_client_settings, plan_remote_backend, redact_remote_error_payload, AccessNote,
    MarkSubject, RemoteBackendRuntime, StreamRead,
};
use relay_plugin::guardrails::remote_options::RemoteCheckKind;
use relay_plugin::guardrails::remote_verdict::{
    blocking_rail_name, remote_check_verdict, tool_input_messages,
    tool_output_messages as remote_tool_output_messages,
};
use relay_plugin::guardrails::stream_text::{extract_stream_text, LocalGuardrailsCodec};
use relay_plugin::guardrails::validation::{
    validate_nemo_guardrails_plugin_config, validate_nemo_guardrails_plugin_config_with_policy,
};
use relay_plugin::handlers::{lookup_registered_plugin, PluginHandlers};
use relay_plugin::json::{Json, JsonNumber};
use relay_plugin::native::status::{FlowError, FlowErrorKind, LastError};
use relay_plugin::native::strings::{
    json_from_native_string, native_string_from_json, native_string_from_str, read_native_string,
};
use relay_plugin::text_map::TextMap;

fn some(text: &str) -> Option<String> {
    Some(text.to_string())
}

fn json(text: &str) -> Json {
    json_from_native_string(Some(&native_string_from_str(text)), &LastError::new(), "none")
        .ok()
        .unwrap()
}

fn written(value: &Json) -> String {
    read_native_string(Some(&native_string_from_json(value))).unwrap()
}

fn object(text: &str) -> TextMap<Json> {
    match parse_plugin_config_document("inline", text).unwrap().value {
        Json::Object(entries) => entries,
        _ => panic!("not an object"),
    }
}

fn codecs() -> Vec<String> {
    ["openai_chat", "openai_responses", "anthropic_messages", "oci_genai", "gemini_generate_content"]
        .iter()
        .map(|s| s.to_string())
        .collect()
}

fn remote_config() -> NeMoGuardrailsConfig {
    NeMoGuardrailsConfig {
        codec: some("openai_chat"),
        remote: Some(RemoteBackendConfig {
            endpoint: some("http://rails/"),
            config_id: some("main"),
            ..RemoteBackendConfig::default()
        }),
        ..NeMoGuardrailsConfig::default()
    }
}

fn local_config() -> NeMoGuardrailsConfig {
    NeMoGuardrailsConfig {
        mode: "local".to_string(),
        codec: some("anthropic_messages"),
        config_path: some("/rails"),
        ..NeMoGuardrailsConfig::default()
    }
}

fn messages(config: NeMoGuardrailsConfig) -> Vec<String> {
    let found = validate_nemo_guardrails_plugin_config(&TextMap::new(), &Ok(config), &codecs());
    assert_eq!(found[0].code, "nemo_guardrails.deprecated");
    assert_eq!(found[0].level, DiagnosticLevel::Warning);
    found.into_iter().skip(1).map(|d| d.message).collect()
}

fn runtime() -> RemoteBackendRuntime {
    RemoteBackendRuntime::new(&remote_config(), Ok(())).ok().unwrap()
}

fn failure<T>(result: Result<T, FlowError>) -> String {
    match result {
        Ok(_) => panic!("expected an error"),
        Err(e) => e.message,
    }
}

fn envelope(id: &str, ok: bool, event: Option<&str>) -> LocalWorkerEnvelope {
    LocalWorkerEnvelope {
        id: id.to_string(),
        ok,
        result: None,
        error: None,
        event: event.map(|e| e.to_string()),
        message: None,
    }
}

#[test]
fn guardrails_defaults() {
    let config = NeMoGuardrailsConfig::default();
    assert!(config.version == 1 && config.mode == "remote" && config.priority == 100);
    assert!(config.input && config.output && !config.tool_input && !config.tool_output);
    assert_eq!(RemoteBackendConfig::default().timeout_millis, 3000);
}

#[test]
fn components_are_written_as_configuration() {
    let mut config = remote_config();
    config.priority = -5;
    config.request_defaults = Some(RequestDefaultsConfig {
        thread_id: some("t"),
        rails: Some(RequestRailsConfig {
            input: Some(RailSelector::Named(vec!["a".to_string()])),
            dialog: Some(false),
            ..RequestRailsConfig::default()
        }),
        ..RequestDefaultsConfig::default()
    });
    let component = ComponentSpec::new(config).into_component();
    assert!(component.kind == "nemo_guardrails" && component.enabled);
    assert_eq!(
        written(&Json::Object(component.config)),
        "{\"codec\":\"openai_chat\",\"input\":true,\"mode\":\"remote\",\"output\":true,\
         \"policy\":{\"unknown_component\":\"warn\",\"unknown_field\":\"warn\",\
         \"unsupported_value\":\"error\"},\"priority\":-5,\"remote\":{\"config_id\":\"main\",\
         \"endpoint\":\"http://rails/\",\"headers\":{},\"timeout_millis\":3000},\
         \"request_defaults\":{\"rails\":{\"dialog\":false,\"input\":[\"a\"]},\"thread_id\":\"t\"},\
         \"tool_input\":false,\"tool_output\":false,\"version\":1}"
    );
}

#[test]
fn the_component_kind_is_registered() {
    let mut handlers = PluginHandlers::new();
    register_nemo_guardrails_component(&mut handlers).unwrap();
    register_nemo_guardrails_component(&mut handlers).unwrap();
    let registered = lookup_registered_plugin(&handlers, "nemo_guardrails").unwrap();
    assert!(!registered.allows_multiple_components);
    assert!(deregister_nemo_guardrails_component(&mut handlers));
    assert!(!deregister_nemo_guardrails_component(&mut handlers));
}

#[test]
fn modes_choose_a_backend() {
    assert_eq!(
        select_guardrails_backend(&remote_config()).unwrap(),
        GuardrailsBackend::Remote
    );
    assert_eq!(select_guardrails_backend(&local_config()).unwrap(), GuardrailsBackend::Local);
    let mut other = local_config();
    other.mode = "cloud".to_string();
    assert_eq!(
        select_guardrails_backend(&other).unwrap_err().to_text(),
        "invalid config: unsupported NeMo Guardrails mode 'cloud'"
    );
}

#[test]
fn ready_configurations_are_accepted() {
    assert!(messages(remote_config()).is_empty());
    assert!(messages(local_config()).is_empty());
}

#[test]
fn undecodable_configurations_are_errors() {
    let found = validate_nemo_guardrails_plugin_config(
        &TextMap::new(),
        &Err("missing field".to_string()),
        &codecs(),
    );
    assert_eq!(found.len(), 2);
    assert_eq!(found[1].code, "nemo_guardrails.invalid_plugin_config");
    assert_eq!(
        found[1].message,
        "invalid config: invalid NeMo Guardrails plugin config: missing field"
    );
}

#[test]
fn unknown_fields_are_reported() {
    let raw = object(
        "mode = \"remote\"\nextra = 1\n[policy]\nsurprise = 1\n[remote]\nport = 1\n\
         [request_defaults]\nodd = 1\n[request_defaults.rails]\nstray = true\n",
    );
    let found: Vec<ConfigDiagnostic> =
        validate_nemo_guardrails_plugin_config(&raw, &Ok(remote_config()), &codecs());
    let shown: Vec<&str> = found.iter().skip(1).map(|d| d.message.as_str()).collect();
    assert_eq!(
        shown,
        [
            "field 'extra' is not recognized for 'nemo_guardrails'",
            "field 'surprise' is not recognized for 'policy'",
            "field 'port' is not recognized for 'remote'",
            "field 'odd' is not recognized for 'request_defaults'",
            "field 'stray' is not recognized for 'request_defaults.rails'",
        ]
    );
    assert_eq!(found[1].code, "nemo_guardrails.unknown_field");
}

#[test]
fn ignoring_policies_leave_the_deprecation() {
    let ignore = ConfigPolicy {
        unknown_component: UnsupportedBehavior::Ignore,
        unknown_field: UnsupportedBehavior::Ignore,
        unsupported_value: UnsupportedBehavior::Ignore,
    };
    let config = NeMoGuardrailsConfig { version: 9, ..NeMoGuardrailsConfig::default() };
    let found = validate_nemo_guardrails_plugin_config_with_policy(
        &object("extra = 1"),
        &Ok(config),
        Some(&ignore),
        &codecs(),
    );
    assert_eq!(found.len(), 1);
}

#[test]
fn versions_modes_and_texts_are_checked() {
    let mut config = remote_config();
    config.version = 2;
    config.mode = "cloud".to_string();
    assert_eq!(
        messages(config),
        ["NeMo Guardrails config version 2 is unsupported", "mode must be 'remote' or 'local'"]
    );
    let mut config = remote_config();
    config.remote = Some(RemoteBackendConfig {
        endpoint: some(" "),
        config_ids: vec!["a".to_string(), " ".to_string()],
        ..RemoteBackendConfig::default()
    });
    assert_eq!(
        messages(config),
        [
            "remote.endpoint must not be empty",
            "remote.config_ids entries must not be empty",
            "remote.endpoint is required when mode is 'remote'",
        ]
    );
}

#[test]
fn settings_have_to_fit_the_mode() {
    let mut config = local_config();
    config.config_yaml = some("rails: []");
    config.remote = Some(RemoteBackendConfig::default());
    config.request_defaults = Some(RequestDefaultsConfig::default());
    assert_eq!(
        messages(config),
        [
            "exactly one of config_path or config_yaml is required in local mode",
            "remote backend settings cannot be used when mode is 'local'",
            "local mode does not currently support request_defaults",
        ]
    );
    let mut config = local_config();
    config.colang_content = some("define flow");
    assert_eq!(messages(config), ["colang_content can only be used with config_yaml"]);
    let mut config = remote_config();
    config.local = Some(LocalBackendConfig::default());
    config.config_path = some("/rails");
    config.remote = Some(RemoteBackendConfig {
        endpoint: some("http://x"),
        ..RemoteBackendConfig::default()
    });
    assert_eq!(
        messages(config),
        [
            "remote mode uses remote config identity and cannot include config_path, config_yaml, \
             or colang_content",
            "local backend settings cannot be used when mode is 'remote'",
            "remote mode requires remote.config_id or remote.config_ids",
        ]
    );
}

#[test]
fn codecs_and_surfaces_are_checked() {
    let mut config = remote_config();
    config.codec = None;
    assert_eq!(messages(config), ["codec is required when any LLM surface is enabled"]);
    let mut config = remote_config();
    config.codec = some("smoke_signals");
    assert_eq!(
        messages(config),
        [
            "codec must be one of: openai_chat, openai_responses, anthropic_messages, oci_genai, \
             gemini_generate_content",
            "remote mode currently supports only codec = 'openai_chat'",
        ]
    );
    let mut config = remote_config();
    config.input = false;
    config.output = false;
    assert_eq!(messages(config), ["at least one Guardrails surface must be enabled"]);
    let mut config = remote_config();
    config.tool_input = true;
    assert_eq!(
        messages(config),
        ["remote mode does not currently support managed tool_input against the stock Guardrails \
          remote contract"]
    );
}

#[test]
fn request_defaults_are_checked() {
    let mut config = remote_config();
    config.request_defaults = Some(RequestDefaultsConfig {
        context: Some(Json::Null),
        thread_id: some("short"),
        state: Some(json("{\"other\":1}")),
        output_vars: Some(json("[\"a\",1,\" \"]")),
        rails: Some(RequestRailsConfig {
            output: Some(RailSelector::Named(vec![" ".to_string()])),
            ..RequestRailsConfig::default()
        }),
        ..RequestDefaultsConfig::default()
    });
    let found = validate_nemo_guardrails_plugin_config(&TextMap::new(), &Ok(config), &codecs());
    let fields: Vec<&str> = found.iter().skip(1).map(|d| d.field.as_deref().unwrap()).collect();
    assert_eq!(
        fields,
        [
            "request_defaults.context",
            "request_defaults.thread_id",
            "request_defaults.state",
            "request_defaults.output_vars[1]",
            "request_defaults.output_vars[2]",
            "request_defaults.rails.output[0]",
        ]
    );
    let mut config = remote_config();
    config.request_defaults = Some(RequestDefaultsConfig {
        thread_id: some("0123456789abcdef"),
        state: Some(json("{\"events\":[],\"state\":{}}")),
        output_vars: Some(Json::Bool(true)),
        ..RequestDefaultsConfig::default()
    });
    assert!(messages(config).is_empty());
    let mut config = remote_config();
    config.request_defaults = Some(RequestDefaultsConfig {
        thread_id: some("éééééééé"),
        ..RequestDefaultsConfig::default()
    });
    assert!(messages(config).is_empty());
}

#[test]
fn stream_texts_are_extracted() {
    let text = |codec, chunk: &str| extract_stream_text(codec, &json(chunk));
    let chat = LocalGuardrailsCodec::OpenAIChat;
    assert_eq!(
        text(chat, "{\"choices\":[{\"delta\":{\"content\":\"a\"}},{\"delta\":{}},{\"delta\":{\"content\":\"b\"}}]}"),
        some("ab")
    );
    assert_eq!(text(chat, "{\"choices\":[{\"delta\":{\"content\":\"\"}}]}"), None);
    let responses = LocalGuardrailsCodec::OpenAIResponses;
    assert_eq!(text(responses, "{\"type\":\"response.output_text.delta\",\"delta\":\"x\"}"), some("x"));
    assert_eq!(text(responses, "{\"type\":\"response.done\",\"delta\":\"x\"}"), None);
    let anthropic = LocalGuardrailsCodec::AnthropicMessages;
    assert_eq!(
        text(anthropic, "{\"type\":\"content_block_delta\",\"delta\":{\"type\":\"text_delta\",\"text\":\"t\"}}"),
        some("t")
    );
    assert_eq!(
        text(anthropic, "{\"type\":\"content_block_delta\",\"delta\":{\"type\":\"input_json_delta\",\"text\":\"t\"}}"),
        None
    );
    let gemini = LocalGuardrailsCodec::GeminiGenerateContent;
    assert_eq!(
        text(gemini, "{\"candidates\":[{\"content\":{\"parts\":[{\"text\":\"a\",\"thought\":true},{\"text\":\"b\"}]}}]}"),
        some("b")
    );
    assert_eq!(text(gemini, "[]"), None);
}

#[test]
fn oci_texts_are_not_repeated() {
    let oci = LocalGuardrailsCodec::OCIGenAI;
    let text = |chunk: &str| extract_stream_text(oci, &json(chunk));
    assert_eq!(text("{\"text\":\"a\"}"), some("a"));
    assert_eq!(text("{\"text\":\"abc\",\"finishReason\":\"COMPLETE\"}"), None);
    assert_eq!(
        text("{\"chatResponse\":{\"choices\":[{\"message\":{\"content\":[{\"type\":\"TEXT\",\"text\":\"a\"},{\"type\":\"IMAGE\",\"text\":\"x\"}]}},{\"message\":{\"content\":[{\"type\":\"TEXT\",\"text\":\"b\"}]}}]}}"),
        some("ab")
    );
    assert_eq!(
        text("{\"message\":{\"content\":[{\"type\":\"TEXT\",\"text\":\"m\"}]}}"),
        some("m")
    );
}

#[test]
fn backends_plan_their_intercepts() {
    let names = |config: &NeMoGuardrailsConfig| {
        plan_local_backend(config).iter().map(|r| r.name).collect::<Vec<&str>>()
    };
    let mut config = local_config();
    assert_eq!(names(&config), ["nemo_guardrails_local", "nemo_guardrails_local_stream"]);
    config.tool_output = true;
    config.input = false;
    config.output = false;
    assert_eq!(names(&config), ["nemo_guardrails_local"]);
    let remote = plan_remote_backend(&remote_config());
    assert_eq!(remote[0].name, "llm_remote_backend");
    assert_eq!(remote[1].name, "llm_stream_remote_backend");
    assert_eq!(remote[0].priority, 100);
}

#[test]
fn codecs_are_resolved() {
    let chat = Some(LocalGuardrailsCodec::OpenAIChat);
    assert_eq!(resolve_codec(&local_config(), chat).unwrap(), chat);
    assert_eq!(
        resolve_codec(&local_config(), None).unwrap_err().to_text(),
        "invalid config: unsupported local NeMo Guardrails codec 'anthropic_messages'"
    );
    let mut bare = local_config();
    bare.codec = None;
    assert_eq!(
        resolve_codec(&bare, None).unwrap_err().to_text(),
        "invalid config: local NeMo Guardrails backend requires a supported codec"
    );
    bare.input = false;
    bare.output = false;
    assert_eq!(resolve_codec(&bare, None).unwrap(), None);
    assert!(require_codec(None).is_err() && require_codec(chat).is_ok());
}

#[test]
fn python_is_found_by_precedence() {
    let mut config = local_config();
    let find = |config: &NeMoGuardrailsConfig, a: &Option<String>, b: &Option<String>| {
        python_executable(config, a, b, &None, "python3")
    };
    assert_eq!(find(&config, &None, &None), "python3");
    assert_eq!(find(&config, &some("  "), &some("/pyo3")), "/pyo3");
    assert_eq!(find(&config, &some(" /relay "), &some("/pyo3")), "/relay");
    config.local = Some(LocalBackendConfig {
        python_executable: some(" /own "),
        python_path: some(" /lib "),
        ..LocalBackendConfig::default()
    });
    assert_eq!(find(&config, &some("/relay"), &None), "/own");
    assert_eq!(python_path(&config), some("/lib"));
    let shown = worker_start_error("my \"python\"", "denied").to_text();
    assert_eq!(
        shown,
        "registration failed: failed to start NeMo Guardrails local Python worker with \
         \"my \\\"python\\\"\": denied"
    );
}

#[test]
fn check_results_are_read() {
    let result = |status: &str| {
        Ok(WorkerCheckResult { status: status.to_string(), content: None, rail: some("r") })
    };
    assert!(matches!(parse_check_result(result("passed")), Ok(LocalCheckOutcome::Passed)));
    assert!(matches!(
        parse_check_result(result("blocked")),
        Ok(LocalCheckOutcome::Blocked { rail: Some(r) }) if r == "r"
    ));
    assert!(matches!(
        parse_check_result(result("modified")),
        Ok(LocalCheckOutcome::Modified { content }) if content.is_empty()
    ));
    assert_eq!(
        failure(parse_check_result(result("maybe"))),
        "unexpected worker check status: maybe"
    );
    assert_eq!(
        failure(parse_check_result(Err("x".to_string()))),
        "worker returned invalid check result: x"
    );
}

#[test]
fn blocked_calls_name_the_rail() {
    assert_eq!(
        blocked_error("input", &some("jailbreak")).message,
        "NeMo Guardrails input rail blocked the LLM call by rail 'jailbreak'."
    );
    assert_eq!(
        blocked_error("tool_output", &None).message,
        "NeMo Guardrails tool_output rail blocked the tool call."
    );
    assert_eq!(
        blocked_error("output", &some("")).message,
        "NeMo Guardrails output rail blocked the LLM call."
    );
}

#[test]
fn only_the_last_message_of_a_role_changes() {
    let text = |m: &AnnotatedMessage| match m {
        AnnotatedMessage::User(MessageContent::Text(t)) => t.clone(),
        _ => "-".to_string(),
    };
    let user = |t: &str| AnnotatedMessage::User(MessageContent::Text(t.to_string()));
    let mut conversation =
        vec![user("one"), AnnotatedMessage::Assistant(None), user("two"), AnnotatedMessage::Other];
    let changed =
        after_input_check(LocalCheckOutcome::Modified { content: "new".to_string() }, &mut conversation);
    assert!(changed.unwrap());
    assert_eq!(conversation.iter().map(text).collect::<Vec<String>>(), ["one", "-", "new", "-"]);
    assert!(!after_input_check(LocalCheckOutcome::Passed, &mut conversation).unwrap());
    assert!(after_input_check(LocalCheckOutcome::Blocked { rail: None }, &mut conversation).is_err());
    assert_eq!(
        failure(replace_last_role_content(&mut vec![], "user", "x".to_string())),
        "NeMo Guardrails returned modified user content but no user message was present."
    );
}

#[test]
fn output_checks_see_the_response() {
    let checked = output_check_messages(&vec![json("{\"role\":\"user\"}")], "hi");
    assert_eq!(checked.len(), 2);
    assert_eq!(written(&checked[1]), "{\"content\":\"hi\",\"role\":\"assistant\"}");
    assert!(after_output_check(LocalCheckOutcome::Passed).is_ok());
    assert_eq!(
        failure(after_output_check(LocalCheckOutcome::Modified { content: String::new() })),
        "NeMo Guardrails output rail returned modified content, but the local backend does not \
         rewrite provider responses yet."
    );
    assert_eq!(
        written(&check_command(checked, LocalRailKind::Output)),
        "{\"command\":\"check\",\"messages\":[{\"role\":\"user\"},{\"content\":\"hi\",\"role\":\
         \"assistant\"}],\"rail_type\":\"output\"}"
    );
    assert!(read_streaming_probe(&json("{\"enabled\":true}")).unwrap());
    assert!(read_streaming_probe(&json("{}")).is_err());
}

#[test]
fn tool_checks_change_or_keep_values() {
    let args = json("{\"x\":1}");
    assert_eq!(
        tool_input_content("calc", &args),
        "{\"arguments\":{\"x\":1},\"tool_name\":\"calc\"}"
    );
    assert_eq!(tool_output_messages("calc", &args, &Json::Null).len(), 2);
    let passed = after_tool_input_check(LocalCheckOutcome::Passed, &args);
    assert_eq!(written(&passed.ok().unwrap()), "{\"x\":1}");
    let modify = |content: &str| LocalCheckOutcome::Modified { content: content.to_string() };
    let changed = after_tool_input_check(modify("{\"arguments\":{\"x\":2}}"), &args);
    assert_eq!(written(&changed.ok().unwrap()), "{\"x\":2}");
    assert_eq!(
        failure(after_tool_input_check(modify("nope"), &args)),
        "NeMo Guardrails returned modified tool arguments content that is not valid JSON."
    );
    assert_eq!(
        failure(after_tool_output_check(modify("{}"), &args)),
        "NeMo Guardrails returned modified tool result content without a 'result' field."
    );
}

#[test]
fn commands_are_answered_once() {
    let mut worker = LocalGuardrailsWorker::new();
    let command = worker.begin_request(json("{\"command\":\"check\"}")).ok().unwrap();
    assert_eq!(command.id, "1");
    assert_eq!(command.line, "{\"command\":\"check\",\"id\":\"1\"}");
    assert_eq!(worker.dispatch(&envelope("1", true, None)), EnvelopeTarget::Waiter);
    assert_eq!(worker.dispatch(&envelope("1", true, None)), EnvelopeTarget::Nobody);
    assert_eq!(
        failure(worker.begin_request(Json::Null)),
        "worker command payload must be a JSON object"
    );
    let third = worker.begin_request(json("{}")).ok().unwrap();
    assert_eq!(third.id, "3");
    assert_eq!(
        worker.abandon_request("3", "gone").message,
        "worker command writer channel closed: gone"
    );
    assert_eq!(worker.dispatch(&envelope("3", true, None)), EnvelopeTarget::Nobody);
}

#[test]
fn streams_of_a_worker_take_events() {
    let mut worker = LocalGuardrailsWorker::new();
    let started = worker.start_stream(vec![]).ok().unwrap();
    assert_eq!(started.line, "{\"command\":\"stream_start\",\"id\":\"1\",\"messages\":[]}");
    assert_eq!(
        worker.send_stream_text("1", "t").ok().unwrap(),
        "{\"command\":\"stream_text\",\"id\":\"1\",\"text\":\"t\"}"
    );
    assert_eq!(
        worker.send_stream_end("1").ok().unwrap(),
        "{\"command\":\"stream_end\",\"id\":\"1\"}"
    );
    let event = envelope("1", true, Some("done"));
    assert_eq!(worker.dispatch(&event), EnvelopeTarget::Stream);
    worker.forget_stream("1");
    assert_eq!(worker.dispatch(&event), EnvelopeTarget::Nobody);
}

#[test]
fn nothing_is_written_after_shutdown() {
    let mut worker = LocalGuardrailsWorker::new();
    assert!(worker.begin_shutdown());
    assert!(!worker.begin_shutdown());
    assert_eq!(failure(worker.begin_request(json("{}"))), "worker command writer is closed");
    assert!(worker.start_stream(vec![]).is_err());
    assert!(worker.waiters.len() == 0 && worker.streams.len() == 0);
    let mut broken = LocalGuardrailsWorker::new();
    broken.writer_error = some("pipe");
    assert_eq!(
        failure(broken.begin_request(json("{}"))),
        "failed to write worker command: pipe"
    );
}

#[test]
fn everyone_is_told_that_a_worker_is_gone() {
    let mut worker = LocalGuardrailsWorker::new();
    worker.begin_request(json("{}")).ok().unwrap();
    worker.start_stream(vec![]).ok().unwrap();
    let (answers, events) = worker.notify_closed("worker exited");
    assert_eq!(answers.len(), 1);
    assert!(answers[0].id == "1" && !answers[0].ok && answers[0].event.is_none());
    assert_eq!(events[0].event.as_deref(), Some("error"));
    assert_eq!(events[0].error.as_deref(), Some("worker exited"));
    assert!(worker.waiters.len() == 0 && worker.streams.len() == 0);
}

#[test]
fn worker_output_is_read() {
    let line = |text: &str, decoded| WorkerRead::Line { text: text.to_string(), decoded };
    assert!(matches!(react_to_read(line("  ", Err("x".to_string()))), ReadStep::Skip));
    assert!(matches!(
        react_to_read(line("{..}", Ok(envelope("1", true, None)))),
        ReadStep::Dispatch(e) if e.id == "1"
    ));
    assert!(matches!(
        react_to_read(line("{", Err("x".to_string()))),
        ReadStep::Close(m) if m == "invalid worker response: x"
    ));
    assert!(matches!(react_to_read(WorkerRead::Ended), ReadStep::Close(m) if m == "worker exited"));
}

#[test]
fn worker_replies_are_taken() {
    let mut answer = envelope("1", true, None);
    answer.result = Some(Json::Bool(true));
    let (result, stop) = finish_request(WorkerReply::Answered(answer), 30);
    assert!(matches!(result, Ok(Json::Bool(true))) && !stop);
    let (result, _) = finish_request(WorkerReply::Answered(envelope("1", false, None)), 30);
    assert_eq!(failure(result), "NeMo Guardrails local Python worker failed");
    let (result, stop) = finish_request(WorkerReply::TimedOut, 30);
    assert!(stop && failure(result) == "worker request timed out after 30 seconds");
    assert!(accept_init(Ok(envelope("1", true, None))).is_ok());
    assert!(accept_init(Err("silent".to_string())).is_err());
    assert!(written(&init_command(&local_config())).starts_with("{\"command\":\"init\",\"config\":{"));
}

#[test]
fn blocked_streams_deliver_nothing() {
    let chunk = || Some(Ok(json("{\"choices\":[{\"delta\":{\"content\":\"a\"}}]}")));
    let chat = LocalGuardrailsCodec::OpenAIChat;
    let mut forward = GuardedForward::new();
    assert!(matches!(
        forward.take_item(chat, chunk(), None),
        ForwardStep::Deliver { text: Some(t), .. } if t == "a"
    ));
    assert!(!forward.chunk_sent(ChunkSend::Sent));
    match forward.take_item(chat, chunk(), some("toxic")) {
        ForwardStep::Refuse(e) => assert_eq!(
            e.message,
            "NeMo Guardrails output rail blocked the LLM call: toxic"
        ),
        _ => panic!("a blocked chunk went on"),
    }
    assert!(matches!(forward.take_item(chat, chunk(), None), ForwardStep::Finish));
    assert_eq!(forward.finish(false), MonitorFinish::Leave);
    let mut cancelled = GuardedForward::new();
    assert!(!cancelled.chunk_sent(ChunkSend::Cancelled));
    assert_eq!(cancelled.finish(true), MonitorFinish::Abort);
    let mut refused = GuardedForward::new();
    let error = refused.text_refused(MonitorEnd::Panicked("boom".to_string()), None);
    assert_eq!(error.unwrap().message, "nemo_guardrails stream monitor task failed: boom");
}

#[test]
fn stream_text_ends_once() {
    let mut monitor = StreamMonitor::new();
    assert!(matches!(
        monitor.take(MonitorInput::Text("a".to_string())),
        MonitorStep::SendText(t) if t == "a"
    ));
    assert!(matches!(monitor.take(MonitorInput::TextEnd), MonitorStep::SendEnd));
    assert!(matches!(monitor.take(MonitorInput::TextEnd), MonitorStep::Continue));
    let mut block = envelope("1", true, Some("blocked"));
    block.message = some("toxic");
    assert!(matches!(
        monitor.take(MonitorInput::Event(Some(block))),
        MonitorStep::Done(Some(m)) if m == "toxic"
    ));
    assert!(matches!(
        monitor.take(MonitorInput::Event(Some(envelope("1", true, Some("odd"))))),
        MonitorStep::Failed(e)
            if e.message == "NeMo Guardrails local Python worker returned unknown stream event 'odd'"
    ));
    assert!(matches!(
        monitor.take(MonitorInput::Event(None)),
        MonitorStep::Failed(e)
            if e.message == "NeMo Guardrails local Python worker stream closed unexpectedly"
    ));
}

#[test]
fn remote_settings_are_checked() {
    let with_header = |name: &str, value: &str| {
        let mut config = remote_config();
        let mut remote = config.remote.take().unwrap();
        remote.headers.insert(name.to_string(), value.to_string());
        config.remote = Some(remote);
        check_client_settings(&config)
    };
    assert!(with_header("x-api-key", "secret\tvalue").is_ok());
    assert_eq!(
        with_header("bad name", "v").unwrap_err().to_text(),
        "invalid config: remote.headers contains invalid header name 'bad name': invalid HTTP \
         header name"
    );
    assert_eq!(
        with_header("x-key", "line\nbreak").unwrap_err().to_text(),
        "invalid config: remote.headers[x-key] has an invalid value: failed to parse header value"
    );
    assert!(with_header("", "v").is_err());
    let mut config = remote_config();
    config.remote = None;
    assert_eq!(
        check_client_settings(&config).unwrap_err().to_text(),
        "invalid config: remote config is required when mode is 'remote'"
    );
    assert_eq!(
        RemoteBackendRuntime::new(&remote_config(), Err("tls".to_string()))
            .err()
            .unwrap()
            .to_text(),
        "registration failed: failed to construct NeMo Guardrails remote client: tls"
    );
}

#[test]
fn requests_carry_the_options() {
    let runtime = runtime();
    assert_eq!(runtime.chat_completions_url(), "http://rails/v1/chat/completions");
    let body = runtime.build_request_body(&json("{\"model\":\"m\"}"), Ok(false), true);
    assert_eq!(
        written(&body.ok().unwrap()),
        "{\"guardrails\":{\"config_id\":\"main\"},\"model\":\"m\",\"stream\":true}"
    );
    assert_eq!(
        failure(runtime.build_request_body(&json("{}"), Ok(true), false)),
        "nemo_guardrails remote backend does not support OpenAI tool definitions or tool_choice yet"
    );
    assert_eq!(
        failure(runtime.build_request_body(&Json::Null, Ok(false), false)),
        "LLM request content is not a JSON object"
    );
}

#[test]
fn disabled_surfaces_are_switched_off() {
    let mut config = remote_config();
    config.output = false;
    config.request_defaults = Some(RequestDefaultsConfig {
        rails: Some(RequestRailsConfig {
            output: Some(RailSelector::Enabled(true)),
            ..RequestRailsConfig::default()
        }),
        llm_output: Some(true),
        ..RequestDefaultsConfig::default()
    });
    let runtime = RemoteBackendRuntime::new(&config, Ok(())).ok().unwrap();
    let body = runtime.build_request_body(&json("{}"), Ok(false), false);
    assert_eq!(
        written(&body.ok().unwrap()),
        "{\"guardrails\":{\"config_id\":\"main\",\"options\":{\"llm_output\":true,\"rails\":\
         {\"output\":false}}},\"stream\":false}"
    );
}

#[test]
fn tool_checks_run_only_tool_rails() {
    let body = runtime().build_check_body(vec![], RemoteCheckKind::Input);
    assert_eq!(
        written(&body),
        "{\"guardrails\":{\"config_id\":\"main\",\"options\":{\"log\":{\"activated_rails\":true},\
         \"rails\":{\"dialog\":false,\"input\":false,\"output\":false,\"retrieval\":false,\
         \"tool_input\":false,\"tool_output\":true}}},\"messages\":[],\"model\":\"\",\"stream\":false}"
    );
    let args = json("{\"x\":1}");
    let sent = tool_input_messages("calc", &args);
    assert_eq!(
        written(&sent[1]),
        "{\"content\":\"\",\"role\":\"assistant\",\"tool_calls\":[{\"function\":{\"arguments\":\
         \"{\\\"x\\\":1}\",\"name\":\"calc\"},\"id\":\"nemo_guardrails_calc_call\",\"type\":\
         \"function\"}]}"
    );
    assert_eq!(remote_tool_output_messages("calc", &args, &Json::Null).len(), 3);
}

#[test]
fn blocking_rails_reject() {
    let blocked = json(
        "{\"guardrails\":{\"log\":{\"activated_rails\":[{\"name\":\"fine\"},\
         {\"decisions\":[\"refuse to answer\"]},{\"name\":\"strict\",\"stop\":true}]}}}",
    );
    assert_eq!(blocking_rail_name(&blocked), some("strict"));
    let refused =
        remote_check_verdict(&blocked, RemoteCheckKind::Input, "calc", &Json::Null).err().unwrap();
    assert_eq!(refused.kind, FlowErrorKind::GuardrailRejected);
    assert_eq!(
        refused.message,
        "nemo_guardrails tool_input rail blocked tool call by rail 'strict'"
    );
    assert_eq!(blocking_rail_name(&json("{}")), None);
}

#[test]
fn answers_change_only_the_checked_tool() {
    let verdict = |message: &str, kind| {
        let response = json(&format!("{{\"choices\":[{{\"message\":{message}}}]}}"));
        remote_check_verdict(&response, kind, "calc", &Json::Bool(true))
    };
    let input = RemoteCheckKind::Input;
    let output = RemoteCheckKind::Output;
    let call = |name: &str, arguments: &str| {
        format!("{{\"tool_calls\":[{{\"function\":{{\"name\":\"{name}\",\"arguments\":\"{arguments}\"}}}}]}}")
    };
    assert_eq!(written(&verdict(&call("calc", "[1]"), input).ok().unwrap()), "[1]");
    assert_eq!(
        failure(verdict(&call("other", "[1]"), input)),
        "nemo_guardrails returned modified tool arguments for unexpected tool 'other'"
    );
    assert!(failure(verdict(&call("calc", "["), input))
        .starts_with("nemo_guardrails returned modified tool arguments that are not valid JSON: "));
    assert_eq!(
        failure(verdict("{\"tool_calls\":[{}]}", input)),
        "nemo_guardrails returned modified tool arguments without a function payload"
    );
    assert_eq!(
        written(&verdict("{\"role\":\"tool\",\"content\":\"7\"}", output).ok().unwrap()),
        "7"
    );
    assert_eq!(
        failure(verdict("{\"role\":\"tool\",\"name\":\"other\",\"content\":\"7\"}", output)),
        "nemo_guardrails returned modified tool result for unexpected tool 'other'"
    );
    assert_eq!(
        written(&verdict("{\"content\":\"{\\\"result\\\":3}\"}", output).ok().unwrap()),
        "3"
    );
    assert_eq!(written(&verdict("{\"content\":\"fine\"}", output).ok().unwrap()), "true");
    assert_eq!(
        failure(verdict("{\"content\":\"{\\\"tool_name\\\":\\\"other\\\"}\"}", output)),
        "nemo_guardrails returned modified tool result content for unexpected tool 'other'"
    );
    assert_eq!(
        failure(remote_check_verdict(&json("{}"), input, "calc", &Json::Null)),
        "nemo_guardrails remote response did not contain choices[0].message"
    );
}

#[test]
fn access_is_noted_once() {
    let mut runtime = runtime();
    assert_eq!(runtime.record_access_status(200), Some(AccessNote::Validated));
    assert_eq!(runtime.record_access_status(204), None);
    assert_eq!(runtime.record_access_status(403), Some(AccessNote::PermissionDenied));
    assert_eq!(runtime.record_access_status(500), None);
    assert_eq!(runtime.record_access_failure(), None);
    assert_eq!(runtime.record_access_status(299), Some(AccessNote::Validated));
    assert_eq!(runtime.record_access_status(300), Some(AccessNote::UnsuccessfulStatus));
    assert_eq!(runtime.record_access_status(200), Some(AccessNote::Validated));
    assert_eq!(runtime.record_access_failure(), Some(AccessNote::ConnectionFailed));
}

#[test]
fn answers_of_the_service_are_taken() {
    let runtime = runtime();
    let llm = MarkSubject::Llm { stream: false };
    let good = runtime.take_response(llm, "", 200, Ok("{\"a\":1}".to_string()));
    assert_eq!(good.mark.name, "nemo_guardrails.remote.end");
    assert_eq!(
        written(&good.mark.data),
        "{\"config_id\":\"main\",\"http_status\":200,\"stream\":false}"
    );
    assert_eq!(written(&good.result.ok().unwrap()), "{\"a\":1}");
    let refused = runtime.take_response(llm, "", 404, Ok("secret".to_string()));
    assert_eq!(
        failure(refused.result),
        "nemo_guardrails remote request failed with status 404 Not Found: secret"
    );
    assert!(!written(&refused.mark.data).contains("secret"));
    assert_eq!(
        redact_remote_error_payload(404, "grün"),
        "remote request failed with status 404; error body omitted from marks (5 bytes)"
    );
    let broken = runtime.take_response(llm, "", 200, Ok("{".to_string()));
    assert!(failure(broken.result)
        .starts_with("nemo_guardrails failed to parse remote response JSON: "));
    let tool = MarkSubject::Tool(RemoteCheckKind::Output);
    let unread = runtime.take_response(tool, "calc", 200, Err("reset".to_string()));
    assert_eq!(
        failure(unread.result),
        "nemo_guardrails failed to read remote response body: reset"
    );
    assert_eq!(
        written(&unread.mark.data),
        "{\"config_id\":\"main\",\"error\":\"nemo_guardrails failed to read remote response body: \
         reset\",\"http_status\":200,\"stream\":false,\"surface\":\"tool_output\",\"tool_name\":\
         \"calc\"}"
    );
    let stream = MarkSubject::Llm { stream: true };
    assert_eq!(
        failure(runtime.send_failed(stream, "", "refused").result),
        "nemo_guardrails remote stream request failed: refused"
    );
    assert_eq!(
        failure(runtime.status_refused(stream, "", 299, "x").result),
        "nemo_guardrails remote stream request failed with status 299 <unknown status code>: x"
    );
}

#[test]
fn streamed_answers_are_taken() {
    let runtime = runtime();
    let step = runtime.take_stream_read(200, StreamRead::Events(vec![Json::Null, Json::Bool(true)]));
    assert!(step.items.len() == 2 && step.mark.is_none() && !step.stop);
    let end = runtime.take_stream_read(
        200,
        StreamRead::Ended(Some(Json::Number(JsonNumber::Unsigned(1)))),
    );
    assert!(end.items.len() == 1 && end.stop);
    assert_eq!(end.mark.unwrap().name, "nemo_guardrails.remote.end");
    let failed = runtime.take_stream_read(200, StreamRead::Failed("reset".to_string()));
    assert!(failed.stop);
    match failed.items.into_iter().next() {
        Some(Err(e)) => assert_eq!(
            e.message,
            "nemo_guardrails failed to read remote stream chunk: reset"
        ),
        _ => panic!("no error was sent"),
    }
}
