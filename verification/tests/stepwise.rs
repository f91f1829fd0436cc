use relay_plugin::activation::{
    initialize_plugins_exact_for_host, initialize_plugins_with_diagnostics, ActivationAnswers,
    PluginMutationOwner, PluginRuntime,
};
use relay_plugin::activation_steps::{ActivationEvent, ActivationRun, ActivationStep};
use relay_plugin::config::{
    ConfigDiagnostic, ConfigReport, DiagnosticLevel, PluginComponentSpec, PluginConfig,
};
use relay_plugin::dynamic::manifest::{
    DynamicPluginManifest, DynamicPluginManifestCapabilities, DynamicPluginManifestCompat,
    DynamicPluginManifestDefaults, DynamicPluginManifestIntegrity, DynamicPluginManifestLoad,
    DynamicPluginManifestPlugin, DynamicPluginManifestRustDynamicLoad,
    DynamicPluginManifestWorkerLoad,
};
use relay_plugin::dynamic::record::{DynamicPluginCapability, DynamicPluginKind, WorkerRuntime};
use relay_plugin::error::PluginError;
use relay_plugin::guardrails::component::{NeMoGuardrailsConfig, RemoteBackendConfig};
use relay_plugin::guardrails::guarded_call::{
    LlmGuard, LlmGuardEvent, LlmGuardStage, ToolExecutionResult, ToolGuard, ToolGuardEvent,
    ToolGuardStage,
};
use relay_plugin::guardrails::local::{AnnotatedMessage, LocalCheckOutcome, MessageContent};
use relay_plugin::guardrails::remote::{AccessNote, MarkSubject, RemoteBackendRuntime};
use relay_plugin::guardrails::remote_exchange::{opens_stream, take_check_answer, HttpAnswer};
use relay_plugin::guardrails::remote_options::RemoteCheckKind;
use relay_plugin::guardrails::stream_text::LocalGuardrailsCodec;
use relay_plugin::json::{json_eq, text_json, Json};
use relay_plugin::native::load::{NativeAbi, NativePluginDescriptor};
use relay_plugin::native::loading::{LoadingAction, LoadingEvent, LoadingStage, NativeLoading};
use relay_plugin::native::status::{FlowError, FlowErrorKind, LastError, NemoRelayStatus};
use relay_plugin::native::strings::{
    json_from_native_string, native_string_from_json, native_string_from_str, read_native_string,
};
use relay_plugin::registrations::{
    PluginRegistration, PluginRegistrationCleanupOutcome, RegistrationSurface, RollbackRun,
};
use relay_plugin::text_map::TextMap;
use relay_plugin::worker::host::WorkerHostRuntimeState;
use relay_plugin::worker::invocation::{
    invocation_as, stream_never_opened, StreamEvent, StreamRunEvent, StreamRunStage,
    WorkerStreamRun,
};
use relay_plugin::worker::load::{
    planned_callback, StartupCall, WorkerCallback, WorkerHandshake, WorkerPluginInstance,
    WorkerPluginLoadSpec, WorkerRegistration, WorkerSurface,
};
use relay_plugin::worker::messages::{RpcCode, StreamChunkItem, WorkerEnvelope, WorkerError};
use relay_plugin::worker::process::{ConnectAttempt, HostStop, ProcessStatus, ShutdownRpc};
use relay_plugin::worker::startup::{StartupAction, StartupEvent, WorkerStartup};
use relay_plugin::worker::teardown::{TeardownEvent, TeardownStage, WorkerTeardown};

fn some(text: &str) -> Option<String> {
    Some(text.to_string())
}

fn json(text: &str) -> Json {
    json_from_native_string(Some(&native_string_from_str(text)), &LastError::new(), "none")
        .ok()
        .unwrap()
}

fn written(value: &Json) -> String {
    read_native_string(Some(&native_string_from_json(value))).unwrap()
}

fn flow(message: &str) -> FlowError {
    FlowError { kind: FlowErrorKind::Upstream, message: message.to_string() }
}

fn manifest(kind: DynamicPluginKind) -> DynamicPluginManifest {
    let native = kind == DynamicPluginKind::RustDynamic;
    DynamicPluginManifest {
        manifest_version: 1,
        plugin: DynamicPluginManifestPlugin {
            id: "acme".to_string(),
            name: None,
            version: None,
            kind,
        },
        compat: DynamicPluginManifestCompat {
            relay: some(">=0.8.0"),
            native_api: if native { some("1") } else { None },
            worker_protocol: if native { None } else { some("grpc-v1") },
        },
        defaults: DynamicPluginManifestDefaults { enabled: false },
        capabilities: DynamicPluginManifestCapabilities {
            items: vec![if native {
                DynamicPluginCapability::PluginNative
            } else {
                DynamicPluginCapability::PluginWorker
            }],
        },
        config_schema: None,
        load: if native {
            DynamicPluginManifestLoad::RustDynamic(DynamicPluginManifestRustDynamicLoad {
                library: some("/lib/libacme.so"),
                symbol: some("acme_entry"),
            })
        } else {
            DynamicPluginManifestLoad::Worker(DynamicPluginManifestWorkerLoad {
                runtime: Some(WorkerRuntime::Rust),
                entrypoint: some("bin/acme"),
            })
        },
        source: None,
        integrity: None,
        description: None,
    }
}

fn startup() -> WorkerStartup {
    let spec = WorkerPluginLoadSpec {
        plugin_id: "acme".to_string(),
        manifest_ref: "relay-plugin.toml".to_string(),
        environment_ref: None,
        config: TextMap::new(),
    };
    WorkerStartup::begin(spec, &manifest(DynamicPluginKind::Worker), "0.8.0").ok().unwrap()
}

fn handshake(id: &str) -> WorkerHandshake {
    WorkerHandshake {
        plugin_id: id.to_string(),
        plugin_kind: id.to_string(),
        worker_protocol: "grpc-v1".to_string(),
        allows_multiple_components: true,
    }
}

fn registration(surface: RegistrationSurface) -> WorkerRegistration {
    WorkerRegistration {
        local_name: "one".to_string(),
        surface: WorkerSurface::Known(surface),
        priority: 7,
        break_chain: true,
    }
}

fn finding(level: DiagnosticLevel) -> ConfigDiagnostic {
    ConfigDiagnostic {
        level,
        code: "c".to_string(),
        component: None,
        field: None,
        message: "m".to_string(),
    }
}

fn call(action: StartupAction) -> StartupCall {
    match action {
        StartupAction::Call(call) => call,
        _ => panic!("expected a call"),
    }
}

fn failed(action: StartupAction) -> String {
    match action {
        StartupAction::Fail(err) => err.to_text(),
        _ => panic!("expected a failure"),
    }
}

fn ready(action: StartupAction) -> WorkerPluginInstance {
    match action {
        StartupAction::Ready(instance) => instance,
        _ => panic!("expected a plugin"),
    }
}

fn validating() -> WorkerStartup {
    let (next, action) = startup().take(StartupEvent::Attempt(0, ConnectAttempt::Connected));
    assert_eq!(call(action), StartupCall::Health);
    let (next, action) = next.take(StartupEvent::Health(true, String::new()));
    assert_eq!(call(action), StartupCall::Handshake);
    let (next, action) = next.take(StartupEvent::Handshake(handshake("acme")));
    assert_eq!(call(action), StartupCall::Validate);
    next
}

#[test]
fn workers_start_step_by_step() {
    let (next, action) =
        validating().take(StartupEvent::Validated(None, Some(Ok(vec![finding(
            DiagnosticLevel::Warning,
        )]))));
    assert_eq!(call(action), StartupCall::Register);
    let registrations = vec![registration(RegistrationSurface::Subscriber)];
    let (next, action) = next.take(StartupEvent::Registered(None, registrations));
    let instance = ready(action);
    assert_eq!(instance.plugin_kind, "acme");
    assert!(instance.allows_multiple_components);
    assert_eq!(instance.validation_diagnostics.len(), 1);
    assert_eq!(instance.registrations.len(), 1);
    let (_, action) = next.take(StartupEvent::Health(true, String::new()));
    assert!(matches!(action, StartupAction::Ignore));
}

#[test]
fn workers_with_errors_register_nothing() {
    let found = Some(Ok(vec![finding(DiagnosticLevel::Error)]));
    let (_, action) = validating().take(StartupEvent::Validated(None, found));
    let instance = ready(action);
    assert_eq!(instance.registrations.len(), 0);
    assert_eq!(instance.validation_diagnostics[0].level, DiagnosticLevel::Error);
}

#[test]
fn worker_startups_fail_with_the_call() {
    let refused = || PluginError::RegistrationFailed("refused".to_string());
    let (next, action) =
        startup().take(StartupEvent::Attempt(9_999, ConnectAttempt::Failed(refused())));
    assert!(matches!(action, StartupAction::Retry));
    let (next, action) =
        next.take(StartupEvent::Attempt(10_000, ConnectAttempt::Failed(refused())));
    assert!(failed(action).contains("worker did not start within 10s: "));
    let (_, action) = next.take(StartupEvent::Attempt(10_001, ConnectAttempt::Connected));
    assert!(matches!(action, StartupAction::Ignore));

    let (next, _) = startup().take(StartupEvent::Attempt(0, ConnectAttempt::Connected));
    let (_, action) = next.take(StartupEvent::Health(false, "tired".to_string()));
    assert!(failed(action).ends_with("worker plugin health check failed: tired"));

    let (next, _) = startup().take(StartupEvent::Attempt(0, ConnectAttempt::Connected));
    let (next, _) = next.take(StartupEvent::Health(true, String::new()));
    let (_, action) = next.take(StartupEvent::Handshake(handshake("other")));
    assert!(failed(action)
        .ends_with("worker plugin returned id 'other' kind 'other' but manifest id is 'acme'"));

    let (_, action) = validating().take(StartupEvent::CallFailed("gone".to_string()));
    assert!(failed(action).ends_with("worker validation RPC failed: gone"));
    let error = WorkerError { code: "x".to_string(), message: "y".to_string(), retryable: false };
    let (_, action) = validating().take(StartupEvent::Validated(Some(error), None));
    assert!(failed(action).ends_with("x: y"));
    let (next, _) = validating().take(StartupEvent::Validated(None, None));
    let unknown = WorkerRegistration {
        surface: WorkerSurface::Unspecified,
        ..registration(RegistrationSurface::Subscriber)
    };
    let (_, action) = next.take(StartupEvent::Registered(None, vec![unknown]));
    assert!(failed(action).ends_with("returned unspecified registration surface"));
}

fn teardown() -> WorkerTeardown {
    WorkerTeardown::begin(&mut false, "acme".to_string(), "/tmp/nmrw".to_string())
}

#[test]
fn workers_are_torn_down_step_by_step() {
    let next = teardown().take(TeardownEvent::Host(HostStop::Told));
    assert!(matches!(next.stage, TeardownStage::Shutdown));
    let next = next.take(TeardownEvent::Shutdown(ShutdownRpc::Failed("late".to_string())));
    let next = next.take(TeardownEvent::Host(HostStop::Closed));
    let next = next.take(TeardownEvent::Status(ProcessStatus::Running));
    assert!(matches!(next.stage, TeardownStage::Kill));
    let next = next.take(TeardownEvent::Killed(Ok(())));
    assert!(matches!(next.stage, TeardownStage::Wait));
    assert!(!next.released);
    let next = next.take(TeardownEvent::Waited(Ok(())));
    assert!(next.released);
    assert!(matches!(next.stage, TeardownStage::Directory));
    let next = next.take(TeardownEvent::Removed(some("busy")));
    assert!(matches!(next.stage, TeardownStage::Over));
    assert!(next.outcome.safe_to_unload);
    assert_eq!(
        next.outcome.errors,
        vec![
            "worker plugin 'acme' shutdown RPC failed: late",
            "worker plugin 'acme' host runtime shutdown channel was closed",
            "worker plugin 'acme' activation directory cleanup failed for '/tmp/nmrw': busy",
        ]
    );
}

#[test]
fn directories_outlive_their_process() {
    let status = |status: ProcessStatus| {
        teardown()
            .take(TeardownEvent::Shutdown(ShutdownRpc::Done))
            .take(TeardownEvent::Host(HostStop::Told))
            .take(TeardownEvent::Status(status))
    };
    assert!(matches!(status(ProcessStatus::Absent).stage, TeardownStage::Directory));
    let gone = status(ProcessStatus::Exited);
    assert!(gone.released);
    assert!(matches!(gone.stage, TeardownStage::Directory));
    let unknown = status(ProcessStatus::Unknown("odd".to_string()));
    assert!(matches!(unknown.stage, TeardownStage::Over));
    assert!(!unknown.outcome.safe_to_unload);

    let kept = status(ProcessStatus::Running)
        .take(TeardownEvent::Killed(Err("denied".to_string())))
        .take(TeardownEvent::Exited(false));
    assert!(!kept.released);
    assert!(matches!(kept.stage, TeardownStage::Over));
    assert_eq!(kept.outcome.errors, vec!["worker plugin 'acme' process kill failed: denied"]);
    let left = status(ProcessStatus::Running)
        .take(TeardownEvent::Killed(Err("denied".to_string())))
        .take(TeardownEvent::Exited(true));
    assert!(left.released && left.outcome.safe_to_unload);
}

#[test]
fn streamed_invocations_end_once() {
    let state = WorkerHostRuntimeState::new("activation".to_string(), "token".to_string());
    let run = || {
        WorkerStreamRun::begin(&invocation_as(
            &state,
            "invocation".to_string(),
            "one",
            RegistrationSurface::LlmStreamExecutionIntercept,
            None,
            "stack",
        ))
    };
    let mut open = run();
    let step = open.take(StreamRunEvent::Opened);
    assert!(step.ready && step.cancel.is_none() && !step.finish);
    let item = StreamChunkItem::Value(WorkerEnvelope {
        schema: "nemo.relay.Json@1".to_string(),
        payload: Ok(text_json("chunk")),
    });
    let step = open.take(StreamRunEvent::Stream(StreamEvent::Item(Some(item))));
    assert_eq!(written(&step.forward.unwrap().ok().unwrap()), "\"chunk\"");
    let step = open.take(StreamRunEvent::Stream(StreamEvent::ConsumerGone));
    let cancel = step.cancel.unwrap();
    assert_eq!(cancel.invocation_id, "invocation");
    assert_eq!(cancel.reason, "host stopped consuming the worker stream");
    assert!(step.finish);
    let step = open.take(StreamRunEvent::Stream(StreamEvent::ConsumerGone));
    assert!(step.cancel.is_none() && !step.finish);

    let mut late = run();
    let step = late.take(StreamRunEvent::OpenFailed(
        RpcCode::DeadlineExceeded,
        "slow".to_string(),
    ));
    assert!(step.ready && step.finish);
    assert_eq!(step.cancel.unwrap().reason, "worker stream invocation timed out");
    assert!(step.forward.unwrap().is_err());
    assert_eq!(late.stage, StreamRunStage::Over);
    assert_eq!(
        stream_never_opened().message,
        "worker stream invocation ended before the downstream stream opened"
    );
}

#[test]
fn callbacks_follow_their_surface() {
    let plan = |surface| planned_callback(&registration(surface)).unwrap();
    let subscriber = plan(RegistrationSurface::Subscriber);
    assert_eq!(subscriber.callback, WorkerCallback::Subscriber);
    assert_eq!((subscriber.priority, subscriber.break_chain), (None, None));
    let intercept = plan(RegistrationSurface::LlmRequestIntercept);
    assert_eq!(intercept.callback, WorkerCallback::LlmRequestIntercept);
    assert_eq!((intercept.priority, intercept.break_chain), (Some(7), Some(true)));
    let sanitizer = plan(RegistrationSurface::MarkSanitizeGuardrail);
    assert_eq!(sanitizer.callback, WorkerCallback::EventSanitizer);
    assert_eq!((sanitizer.priority, sanitizer.break_chain), (Some(7), None));
    let unknown = WorkerRegistration {
        surface: WorkerSurface::Unsupported(99),
        ..registration(RegistrationSurface::Subscriber)
    };
    assert!(planned_callback(&unknown).is_none());
}

fn loading(sha256: Option<&str>) -> NativeLoading {
    let mut manifest = manifest(DynamicPluginKind::RustDynamic);
    manifest.integrity = sha256
        .map(|s| DynamicPluginManifestIntegrity { sha256: some(s), signature: None });
    NativeLoading::begin("acme".to_string(), &manifest, "/etc/relay-plugin.toml", "0.8.0")
        .ok()
        .unwrap()
}

fn descriptor() -> NativePluginDescriptor {
    NativePluginDescriptor {
        struct_size: 64,
        plugin_kind: Some(native_string_from_str("acme")),
        has_validate: false,
        has_register: true,
        allows_multiple_components: true,
    }
}

fn entered(status: NemoRelayStatus) -> LoadingEvent {
    LoadingEvent::Entered(status, LastError::new())
}

#[test]
fn native_plugins_are_loaded_step_by_step() {
    let first = loading(None);
    assert_eq!(first.path, "/lib/libacme.so");
    assert!(!first.reads_library());
    let (next, action) = first.take(LoadingEvent::Library(true, Ok(vec![])));
    assert!(matches!(action, LoadingAction::Open));
    let (next, action) = next.take(LoadingEvent::Opened(Ok(())));
    assert!(matches!(action, LoadingAction::Enter(NativeAbi::V4)));
    let (next, action) = next.take(entered(NemoRelayStatus::InvalidArg));
    assert!(matches!(action, LoadingAction::Reenter(NativeAbi::V3)));
    let (next, action) = next.take(entered(NemoRelayStatus::Success));
    assert!(matches!(action, LoadingAction::Describe));
    let (next, action) = next.take(LoadingEvent::Described(descriptor(), 64));
    match action {
        LoadingAction::Ready(plugin) => {
            assert_eq!(plugin.plugin_kind, "acme");
            assert_eq!(plugin.relay_compat, ">=0.8.0");
            assert!(plugin.allows_multiple_components && !plugin.has_validate);
        }
        _ => panic!("expected a plugin"),
    }
    assert!(matches!(next.stage, LoadingStage::Over));
    let (_, action) = next.take(entered(NemoRelayStatus::Success));
    assert!(matches!(action, LoadingAction::Ignore));
}

#[test]
fn unchecked_libraries_stay_closed() {
    let missing = loading(None).take(LoadingEvent::Library(false, Ok(vec![]))).1;
    match missing {
        LoadingAction::Fail(err) => {
            assert!(err.to_text().contains("native plugin library '/lib/libacme.so' does not exist"))
        }
        _ => panic!("expected a failure"),
    }
    let checked = loading(Some("sha256:00"));
    assert!(checked.reads_library());
    let (_, action) = checked.take(LoadingEvent::Library(true, Ok(b"abc".to_vec())));
    assert!(matches!(action, LoadingAction::Fail(_)));
    let digest = "ba7816bf8f01cfea414140de5dae2223b00361a396177a9cb410ff61f20015ad";
    let (_, action) =
        loading(Some(digest)).take(LoadingEvent::Library(true, Ok(b"abc".to_vec())));
    assert!(matches!(action, LoadingAction::Open));
}

#[test]
fn rejected_descriptors_are_dropped() {
    let entering = || {
        let (next, _) = loading(None).take(LoadingEvent::Library(true, Ok(vec![])));
        next.take(LoadingEvent::Opened(Ok(()))).0
    };
    let (_, action) = entering().take(LoadingEvent::SymbolMissing("none".to_string()));
    match action {
        LoadingAction::Fail(err) => assert!(err.to_text().ends_with(
            "native plugin symbol 'acme_entry' not found in '/lib/libacme.so': none"
        )),
        _ => panic!("expected a failure"),
    }
    let (_, action) = entering().take(entered(NemoRelayStatus::Internal));
    assert!(matches!(action, LoadingAction::DropAndFail(_)));
    let (next, _) = entering().take(entered(NemoRelayStatus::Success));
    let (_, action) = next.take(LoadingEvent::Described(descriptor(), 65));
    assert!(matches!(action, LoadingAction::DropAndFail(_)));
}

fn gave(result: Json) -> ToolExecutionResult {
    ToolExecutionResult { result, annotation: Some(text_json("note")) }
}

#[test]
fn tools_get_checked_arguments() {
    let guard = ToolGuard::begin(true, true, json("{\"a\":1}"));
    let guard = guard.take(ToolGuardEvent::Called(Ok(gave(Json::Null))));
    assert!(matches!(guard.stage, ToolGuardStage::Input(_)));
    let guard = guard.take(ToolGuardEvent::InputChecked(Ok(json("{\"a\":2}"))));
    match &guard.stage {
        ToolGuardStage::Call(args) => assert_eq!(written(args), "{\"a\":2}"),
        _ => panic!("expected the call"),
    }
    let guard = guard.take(ToolGuardEvent::Called(Ok(gave(text_json("raw")))));
    match &guard.stage {
        ToolGuardStage::Output(args, given) => {
            assert_eq!(written(args), "{\"a\":2}");
            assert_eq!(written(&given.result), "\"raw\"");
        }
        _ => panic!("expected the output check"),
    }
    let guard = guard.take(ToolGuardEvent::OutputChecked(Ok(text_json("clean"))));
    match guard.stage {
        ToolGuardStage::Over(Ok(given)) => {
            assert_eq!(written(&given.result), "\"clean\"");
            assert_eq!(written(&given.annotation.unwrap()), "\"note\"");
        }
        _ => panic!("expected a result"),
    }

    let guard = ToolGuard::begin(true, false, Json::Null)
        .take(ToolGuardEvent::InputChecked(Err(flow("no"))));
    assert!(matches!(guard.stage, ToolGuardStage::Over(Err(_))));
    let guard =
        ToolGuard::begin(false, false, Json::Null).take(ToolGuardEvent::Called(Ok(gave(Json::Null))));
    assert!(matches!(guard.stage, ToolGuardStage::Over(Ok(_))));
}

fn user(text: &str) -> AnnotatedMessage {
    AnnotatedMessage::User(MessageContent::Text(text.to_string()))
}

fn decoded(text: &str) -> LlmGuardEvent {
    LlmGuardEvent::Decoded(
        Ok(vec![user(text)]),
        Ok(Json::Array(vec![text_json(text)])),
    )
}

fn llm(streamed: bool, input: bool, output: bool) -> LlmGuard {
    let codec = Some(LocalGuardrailsCodec::OpenAIChat);
    LlmGuard::begin(codec, streamed, input, output, text_json("request"))
}

fn passed() -> Result<LocalCheckOutcome, FlowError> {
    Ok(LocalCheckOutcome::Passed)
}

#[test]
fn blocked_requests_are_not_sent() {
    let guard = llm(false, true, true).take(decoded("hello"));
    let blocked = LocalCheckOutcome::Blocked { rail: some("self check") };
    let guard = guard.take(LlmGuardEvent::InputChecked(Ok(blocked)));
    match guard.stage {
        LlmGuardStage::Over(Err(e)) => assert!(e.message.contains("self check")),
        _ => panic!("expected an error"),
    }

    let guard = llm(false, true, true).take(decoded("hello"));
    let modified = LocalCheckOutcome::Modified { content: "other".to_string() };
    let guard = guard.take(LlmGuardEvent::InputChecked(Ok(modified)));
    match &guard.stage {
        LlmGuardStage::Encode(request, messages) => {
            assert_eq!(written(request), "\"request\"");
            assert!(matches!(
                &messages[0],
                AnnotatedMessage::User(MessageContent::Text(text)) if text == "other"
            ));
        }
        _ => panic!("expected the encoding"),
    }
    let sent = Json::Array(vec![text_json("other")]);
    let guard = guard.take(LlmGuardEvent::Encoded(Ok(text_json("changed")), Ok(sent)));
    match &guard.stage {
        LlmGuardStage::Call(request, messages) => {
            assert_eq!(written(request), "\"changed\"");
            assert_eq!(messages.len(), 1);
        }
        _ => panic!("expected the call"),
    }

    let guard = LlmGuard::begin(None, false, true, true, Json::Null);
    match guard.stage {
        LlmGuardStage::Over(Err(e)) => assert_eq!(
            e.message,
            "local NeMo Guardrails backend requires a supported codec"
        ),
        _ => panic!("expected an error"),
    }
    let guard = llm(false, false, false)
        .take(LlmGuardEvent::Decoded(Ok(vec![]), Ok(Json::Null)));
    match guard.stage {
        LlmGuardStage::Over(Err(e)) => {
            assert_eq!(e.message, "serialized messages were not a JSON array")
        }
        _ => panic!("expected an error"),
    }
}

#[test]
fn blocked_responses_are_withheld() {
    let responded = || {
        llm(false, true, true)
            .take(decoded("hello"))
            .take(LlmGuardEvent::InputChecked(passed()))
            .take(LlmGuardEvent::Called(Ok(text_json("answer"))))
    };
    assert!(matches!(responded().stage, LlmGuardStage::Respond(_, _)));
    let silent = responded().take(LlmGuardEvent::Text(Ok(None)));
    assert!(matches!(silent.stage, LlmGuardStage::Over(Ok(_))));
    let checking = || responded().take(LlmGuardEvent::Text(Ok(some("said"))));
    match &checking().stage {
        LlmGuardStage::Output(messages, _) => assert_eq!(
            messages.iter().map(written).collect::<Vec<_>>(),
            vec!["\"hello\"", "{\"content\":\"said\",\"role\":\"assistant\"}"]
        ),
        _ => panic!("expected the output check"),
    }
    match checking().take(LlmGuardEvent::OutputChecked(passed())).stage {
        LlmGuardStage::Over(Ok(response)) => assert_eq!(written(&response), "\"answer\""),
        _ => panic!("expected the response"),
    }
    let blocked = LocalCheckOutcome::Blocked { rail: None };
    let withheld = checking().take(LlmGuardEvent::OutputChecked(Ok(blocked)));
    assert!(matches!(withheld.stage, LlmGuardStage::Over(Err(_))));
}

#[test]
fn streams_pass_only_without_rails() {
    let opened = |output: bool| {
        llm(true, false, output).take(decoded("hello")).take(LlmGuardEvent::Opened(Ok(())))
    };
    assert!(matches!(opened(false).stage, LlmGuardStage::Pass));
    assert!(matches!(opened(true).stage, LlmGuardStage::Probe(_)));
    let probed = |answer: &str| opened(true).take(LlmGuardEvent::Probed(Ok(json(answer))));
    assert!(matches!(probed("{\"enabled\":false}").stage, LlmGuardStage::Pass));
    assert!(matches!(probed("{}").stage, LlmGuardStage::Over(Err(_))));
    let support = probed("{\"enabled\":true}");
    assert!(matches!(support.stage, LlmGuardStage::Support(_)));
    let watched = support.take(LlmGuardEvent::Supported(Ok(Json::Null)));
    match &watched.stage {
        LlmGuardStage::Watch(messages) => assert_eq!(written(&messages[0]), "\"hello\""),
        _ => panic!("expected the watch"),
    }
    let ignored = llm(true, false, true).take(decoded("hello"));
    let ignored = ignored.take(LlmGuardEvent::Called(Ok(Json::Null)));
    assert!(matches!(ignored.stage, LlmGuardStage::Call(_, _)));
}

fn remote() -> RemoteBackendRuntime {
    let config = NeMoGuardrailsConfig {
        remote: Some(RemoteBackendConfig {
            endpoint: some("http://rails"),
            config_id: some("main"),
            ..RemoteBackendConfig::default()
        }),
        ..NeMoGuardrailsConfig::default()
    };
    RemoteBackendRuntime::new(&config, Ok(())).ok().unwrap()
}

#[test]
fn tool_calls_go_on_only_when_let() {
    let mut runtime = remote();
    let (mark, body) = runtime.begin_check(vec![], RemoteCheckKind::Input, "search");
    assert_eq!(mark.name, "nemo_guardrails.remote.start");
    assert!(json_eq(body.get("messages").unwrap(), &Json::Array(vec![])));
    let checked = json("{\"q\":1}");
    let fine = "{\"choices\":[{\"message\":{\"content\":\"fine\"}}]}";
    let answer = HttpAnswer::Answered(200, Ok(fine.to_string()));
    let end = runtime.finish_check(RemoteCheckKind::Input, "search", &checked, answer);
    assert_eq!(end.note, Some(AccessNote::Validated));
    assert_eq!(end.mark.name, "nemo_guardrails.remote.end");
    assert_eq!(written(&end.result.ok().unwrap()), "{\"q\":1}");
    let answer = HttpAnswer::Answered(403, Ok("secret".to_string()));
    let end = runtime.finish_check(RemoteCheckKind::Input, "search", &checked, answer);
    assert_eq!(end.note, Some(AccessNote::PermissionDenied));
    assert_eq!(end.mark.name, "nemo_guardrails.remote.error");
    assert!(!written(&end.mark.data).contains("secret"));
    assert!(end.result.is_err());
    let answer = HttpAnswer::Unsent("offline".to_string());
    let end = runtime.finish_exchange(MarkSubject::Llm { stream: true }, "", answer);
    assert_eq!(end.note, None);
    match end.outcome.result {
        Err(e) => assert_eq!(e.message, "nemo_guardrails remote stream request failed: offline"),
        Ok(_) => panic!("expected an error"),
    }
    assert!(opens_stream(204) && !opens_stream(301));
    let kept = take_check_answer(Err(flow("no")), RemoteCheckKind::Output, "search", &checked);
    assert_eq!(kept.err().unwrap().message, "no");
}

fn plugin_config(kind: &str) -> PluginConfig {
    PluginConfig {
        components: vec![PluginComponentSpec::new(kind.to_string())],
        ..PluginConfig::default()
    }
}

fn activated() -> PluginRuntime {
    let mut runtime = PluginRuntime::new();
    let answers = ActivationAnswers {
        teardown: RollbackRun::begin(0),
        observed: vec![],
        activation: Ok(vec![PluginRegistration::new("plugin".to_string(), "a".to_string())]),
        restoration: Ok(vec![]),
    };
    initialize_plugins_with_diagnostics(
        &mut runtime,
        plugin_config("acme"),
        vec![],
        ConfigReport::default(),
        answers,
        vec![],
    )
    .unwrap();
    runtime
}

#[test]
fn later_shutdowns_do_nothing() {
    let mut started = true;
    let later =
        WorkerTeardown::begin(&mut started, "acme".to_string(), "/tmp/nmrw".to_string());
    let later = later.take(TeardownEvent::Shutdown(ShutdownRpc::Failed("late".to_string())));
    assert!(matches!(later.stage, TeardownStage::Over));
    assert!(later.outcome.errors.is_empty() && later.outcome.safe_to_unload);
}

#[test]
fn activations_ask_only_what_they_need() {
    let clean = ConfigReport::default();
    let failure = || ActivationEvent::Registered(Err(PluginError::Internal("x".to_string())));
    let fresh = PluginRuntime::new();
    let (run, step) = ActivationRun::begin(&fresh, &vec![], &clean);
    assert_eq!(step, ActivationStep::Activate);
    let (run, step) = run.take(failure());
    assert_eq!(step, ActivationStep::Finish);
    assert!(run.into_answers(vec![]).activation.is_err());
    let errors = vec![finding(DiagnosticLevel::Error)];
    assert_eq!(ActivationRun::begin(&fresh, &errors, &clean).1, ActivationStep::Finish);

    let active = activated();
    let (run, step) = ActivationRun::begin(&active, &vec![], &clean);
    assert_eq!(step, ActivationStep::Remove(0));
    let (run, step) = run.take(failure());
    assert_eq!(step, ActivationStep::Remove(0));
    let removed = ActivationEvent::Removed(PluginRegistrationCleanupOutcome::Removed);
    let (run, step) = run.take(removed);
    assert_eq!(step, ActivationStep::Activate);
    let (run, step) = run.take(failure());
    assert_eq!(step, ActivationStep::Restore);
    let (run, step) = run.take(ActivationEvent::Registered(Ok(vec![])));
    assert_eq!(step, ActivationStep::Finish);
    assert!(run.into_answers(vec![]).teardown.is_done());

    let (run, _) = ActivationRun::begin(&active, &vec![], &clean);
    let late = PluginError::Internal("late".to_string());
    let odd = PluginRegistrationCleanupOutcome::RemovedWithError(late);
    assert_eq!(run.take(ActivationEvent::Removed(odd)).1, ActivationStep::Finish);
}

#[test]
fn hosts_initialize_what_they_own() {
    let mut runtime = PluginRuntime::new();
    let owner = runtime.acquire_plugin_host_lease().unwrap();
    let answers = || ActivationAnswers {
        teardown: RollbackRun::begin(0),
        observed: vec![],
        activation: Ok(vec![]),
        restoration: Ok(vec![]),
    };
    let mut failures = vec![];
    let other = initialize_plugins_exact_for_host(
        &mut runtime,
        owner + 1,
        plugin_config("acme"),
        vec![],
        ConfigReport::default(),
        answers(),
        &mut failures,
    );
    assert!(matches!(other, Err(PluginError::Conflict(_))));
    assert!(runtime.active.is_none());
    initialize_plugins_exact_for_host(
        &mut runtime,
        owner,
        plugin_config("acme"),
        vec![],
        ConfigReport::default(),
        answers(),
        &mut failures,
    )
    .unwrap();
    assert!(runtime.active.is_some());
    assert_eq!(runtime.owner, PluginMutationOwner::Host(owner));
}
