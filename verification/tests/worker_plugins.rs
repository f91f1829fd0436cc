use relay_plugin::config::{ConfigDiagnostic, DiagnosticLevel};
use relay_plugin::dynamic::manifest::{
    DynamicPluginManifest, DynamicPluginManifestCapabilities, DynamicPluginManifestCompat,
    DynamicPluginManifestDefaults, DynamicPluginManifestLoad, DynamicPluginManifestPlugin,
    DynamicPluginManifestWorkerLoad,
};
use relay_plugin::dynamic::record::{DynamicPluginCapability, DynamicPluginKind, WorkerRuntime};
use relay_plugin::dynamic::teardown::DynamicPluginTeardownOutcome;
use relay_plugin::error::PluginError;
use relay_plugin::handlers::{lookup_registered_plugin, PluginHandlers};
use relay_plugin::json::{put, text_json, Json};
use relay_plugin::native::completion::{CodecCapability, NextKind};
use relay_plugin::native::status::{FlowError, FlowErrorKind};
use relay_plugin::registrations::{PluginRegistrationContext, RegistrationSurface};
use relay_plugin::text_map::TextMap;
use relay_plugin::worker::host::{
    fresh_invocation_stack_id, next_unwind_step, CallStack, HostStatusCode, UnwindEvent,
    UnwindStep, WorkerHostRuntimeState,
};
use relay_plugin::worker::invocation::{
    after_invoke, invocation_as, new_invocation, react_to_stream, stream_open_failed, StreamEvent,
    StreamReaction, WorkerInvocationGuard,
};
use relay_plugin::worker::load::{
    accept_worker_registrations, accept_worker_validation, check_worker_health,
    load_worker_plugins, merge_worker_shutdowns, plan_worker_load, startup_call_error,
    validate_worker_handshake, wants_registration, worker_instance, StartupCall, WorkerHandshake,
    WorkerPluginInstance, WorkerPluginLoadSpec, WorkerRegistration, WorkerSurface,
};
use relay_plugin::worker::messages::{
    guardrail_from_invoke_response, host_ack, json_from_invoke_response, json_from_stream_chunk,
    llm_intercept_from_invoke_response, optional_json_from_invoke_response, rpc_timeout_text,
    subscriber_from_invoke_response, tool_execution_intercept_outcome, worker_error_to_flow,
    worker_error_to_plugin, worker_status_to_flow, InvokeResult, RpcCode, StreamChunkItem,
    ToolOutcomeMessage, WorkerEnvelope, WorkerError,
};
use relay_plugin::worker::process::{
    after_failed_kill, after_kill, after_process_status, after_wait, begin_worker_teardown,
    check_python_environment, connect_step, may_remove_directory, new_worker_identity,
    normalize_worker_tcp_endpoint, note_directory_removal, note_host_stop, note_shutdown_rpc,
    plan_executable_launch, plan_python_launch, resolve_announced_endpoint,
    python_executable, python_layout, resolve_python_executable, spawn_error,
    worker_executable_path, worker_identity, ConnectAttempt, ConnectStep, HostStop, ProcessStatus,
    ProcessStep, ShutdownRpc, WorkerLaunchSpec,
};
use relay_plugin::worker::service::{
    accept_codec_call, accept_create_stack, accept_decode, accept_drop_stack, accept_encode,
    accept_mark, accept_next, accept_pop, accept_push, finish_push, forward_next_stream,
    refuse_call, stream_not_opened, CallRefusal, CodecArgumentKind, HostCall, NextStreamItem,
    NextStreamStep, RefusedAnswer, StreamFailure, WorkerCaller,
};

fn error(code: &str, message: &str) -> WorkerError {
    WorkerError { code: code.to_string(), message: message.to_string(), retryable: false }
}

fn envelope(value: Json) -> WorkerEnvelope {
    WorkerEnvelope { schema: "nemo.relay.Json@1".to_string(), payload: Ok(value) }
}

fn broken() -> WorkerEnvelope {
    WorkerEnvelope { schema: "nemo.relay.Json@1".to_string(), payload: Err("bad".to_string()) }
}

fn message<T>(result: Result<T, FlowError>) -> String {
    match result {
        Ok(_) => panic!("expected an error"),
        Err(e) => e.message,
    }
}

fn manifest() -> DynamicPluginManifest {
    let some = |s: &str| Some(s.to_string());
    DynamicPluginManifest {
        manifest_version: 1,
        plugin: DynamicPluginManifestPlugin {
            id: "acme".to_string(),
            name: None,
            version: None,
            kind: DynamicPluginKind::Worker,
        },
        compat: DynamicPluginManifestCompat {
            relay: some(">=0.8.0"),
            native_api: None,
            worker_protocol: some("grpc-v1"),
        },
        defaults: DynamicPluginManifestDefaults { enabled: false },
        capabilities: DynamicPluginManifestCapabilities {
            items: vec![DynamicPluginCapability::PluginWorker],
        },
        config_schema: None,
        load: DynamicPluginManifestLoad::Worker(DynamicPluginManifestWorkerLoad {
            runtime: Some(WorkerRuntime::Python),
            entrypoint: some("acme:main"),
        }),
        source: None,
        integrity: None,
        description: None,
    }
}

fn registration(name: &str, surface: WorkerSurface) -> WorkerRegistration {
    WorkerRegistration { local_name: name.to_string(), surface, priority: 1, break_chain: false }
}

fn handshake() -> WorkerHandshake {
    WorkerHandshake {
        plugin_id: "acme".to_string(),
        plugin_kind: "acme".to_string(),
        worker_protocol: "grpc-v1".to_string(),
        allows_multiple_components: false,
    }
}

fn load_spec(config: TextMap<Json>) -> WorkerPluginLoadSpec {
    WorkerPluginLoadSpec {
        plugin_id: "acme".to_string(),
        manifest_ref: "m".to_string(),
        environment_ref: None,
        config,
    }
}

fn instance(kind: &str) -> WorkerPluginInstance {
    let mut made = worker_instance(&load_spec(TextMap::new()), &handshake(), vec![], vec![]);
    made.plugin_kind = kind.to_string();
    made
}

fn launch_spec<'a>(runtime: WorkerRuntime, file: Option<&'a str>) -> WorkerLaunchSpec<'a> {
    WorkerLaunchSpec {
        runtime,
        plugin_id: "acme",
        entrypoint: "acme:main",
        activation_id: "act",
        auth_token: "tok",
        host_endpoint: "unix:///h",
        worker_endpoint: "unix:///w",
        worker_endpoint_file: file,
    }
}

fn state() -> WorkerHostRuntimeState {
    WorkerHostRuntimeState::new("act".to_string(), "tok".to_string())
}

fn caller<'a>(token: &'a str) -> WorkerCaller<'a> {
    WorkerCaller { activation_id: "act", auth_token: token, scope_stack_id: None }
}

#[test]
fn teardown_begins_once() {
    let mut started = false;
    assert!(begin_worker_teardown(&mut started));
    assert!(!begin_worker_teardown(&mut started));
}

#[test]
fn unloading_is_safe_only_without_a_process() {
    let mut outcome = DynamicPluginTeardownOutcome::success();
    note_shutdown_rpc(&mut outcome, "acme", ShutdownRpc::Failed("late".to_string()));
    note_host_stop(&mut outcome, "acme", HostStop::Closed);
    assert_eq!(
        after_process_status(&mut outcome, "acme", ProcessStatus::Running),
        ProcessStep::Kill
    );
    assert_eq!(after_kill(true), ProcessStep::Wait);
    assert_eq!(after_wait(&mut outcome, "acme", Ok(())), ProcessStep::Release);
    assert!(outcome.safe_to_unload && may_remove_directory(&outcome));
    assert_eq!(
        outcome.errors,
        [
            "worker plugin 'acme' shutdown RPC failed: late",
            "worker plugin 'acme' host runtime shutdown channel was closed",
        ]
    );
    let mut stuck = DynamicPluginTeardownOutcome::success();
    assert_eq!(after_kill(false), ProcessStep::Recheck);
    assert_eq!(after_failed_kill(&mut stuck, "acme", "denied", false), ProcessStep::Keep);
    assert!(!stuck.safe_to_unload && !may_remove_directory(&stuck));
    assert_eq!(stuck.errors, ["worker plugin 'acme' process kill failed: denied"]);
    let mut unknown = DynamicPluginTeardownOutcome::success();
    assert_eq!(
        after_process_status(&mut unknown, "acme", ProcessStatus::Unknown("e".to_string())),
        ProcessStep::Keep
    );
    assert!(!unknown.safe_to_unload);
    note_directory_removal(&mut unknown, "acme", "/tmp/x", Some("busy".to_string()));
    assert_eq!(
        unknown.errors[1],
        "worker plugin 'acme' activation directory cleanup failed for '/tmp/x': busy"
    );
}

#[test]
fn startup_is_bounded() {
    assert!(matches!(connect_step(0, ConnectAttempt::NotAnnounced), ConnectStep::Retry));
    assert!(matches!(connect_step(99_999, ConnectAttempt::Connected), ConnectStep::Proceed));
    match connect_step(10_000, ConnectAttempt::NotAnnounced) {
        ConnectStep::GiveUp(e) => assert_eq!(
            e.to_text(),
            "registration failed: worker did not announce endpoint within 10s"
        ),
        _ => panic!("went on"),
    }
    let refused = ConnectAttempt::Failed(PluginError::Internal("no".to_string()));
    assert!(matches!(connect_step(9_999, refused), ConnectStep::Retry));
    let refused = ConnectAttempt::Failed(PluginError::Internal("no".to_string()));
    match connect_step(10_000, refused) {
        ConnectStep::GiveUp(e) => assert_eq!(
            e.to_text(),
            "registration failed: worker did not start within 10s: internal error: no"
        ),
        _ => panic!("went on"),
    }
}

#[test]
fn endpoints_are_normalized() {
    assert_eq!(
        normalize_worker_tcp_endpoint("tcp://127.0.0.1:80").unwrap(),
        "http://127.0.0.1:80"
    );
    assert_eq!(normalize_worker_tcp_endpoint("http://h:1").unwrap(), "http://h:1");
    assert_eq!(
        normalize_worker_tcp_endpoint("tcp://").unwrap_err().to_text(),
        "registration failed: worker announced an empty TCP endpoint"
    );
    assert_eq!(
        normalize_worker_tcp_endpoint("ftp://x").unwrap_err().to_text(),
        "registration failed: worker announced unsupported endpoint 'ftp://x'"
    );
    assert_eq!(resolve_announced_endpoint("f", None).unwrap(), None);
    assert_eq!(
        resolve_announced_endpoint("f", Some(Ok(" tcp://a:1\n".to_string()))).unwrap(),
        Some("http://a:1".to_string())
    );
    assert!(resolve_announced_endpoint("f", Some(Err("denied".to_string()))).is_err());
}

#[test]
fn identities_are_fresh() {
    let made = worker_identity("id".to_string(), "simple", "token".to_string());
    assert_eq!(made.directory, "nmrw-simple");
    let a = new_worker_identity();
    let b = new_worker_identity();
    assert_ne!(a.activation_id, b.activation_id);
    assert_ne!(a.activation_id, a.auth_token);
    assert!(a.directory.starts_with("nmrw-") && a.directory.len() == 5 + 32);
    assert_eq!(a.directory, format!("nmrw-{}", a.activation_id.replace('-', "")));
    assert_eq!(a.auth_token.len(), 36);
    for (i, c) in a.auth_token.chars().enumerate() {
        let hyphen = i == 8 || i == 13 || i == 18 || i == 23;
        assert!(if hyphen { c == '-' } else { matches!(c, '0'..='9' | 'a'..='f') });
    }
    assert!(fresh_invocation_stack_id().starts_with("invoke-"));
    assert_eq!(fresh_invocation_stack_id().len(), 7 + 36);
}

#[test]
fn python_environments_are_managed() {
    let name = "ba7816bf8f01cfea414140de5dae2223b00361a396177a9cb410ff61f20015ad";
    let managed = Some(".dynamic-plugin-environments");
    assert!(check_python_environment("abc", "/e", true, Some(name), managed, false).is_ok());
    let refused = |absolute, name, parent, link| {
        check_python_environment("abc", "/e", absolute, name, parent, link).unwrap_err().to_text()
    };
    let unmanaged = "invalid config: Python worker environment_ref '/e' is not the \
                     lifecycle-managed path for plugin 'abc'";
    assert_eq!(refused(true, Some("abc"), managed, false), unmanaged);
    assert_eq!(refused(false, Some(name), managed, false), unmanaged);
    assert_eq!(refused(true, Some(name), Some("elsewhere"), false), unmanaged);
    assert_eq!(
        refused(true, Some(name), managed, true),
        "invalid config: Python worker environment_ref '/e' must not be a symbolic link"
    );
    assert!(resolve_python_executable("abc", None, false, false).is_err());
    let environment = format!("/p/.dynamic-plugin-environments/{name}");
    assert_eq!(
        resolve_python_executable("abc", Some(&environment), false, false).unwrap(),
        format!("{environment}/bin/python")
    );
    assert!(resolve_python_executable("abd", Some(&environment), false, false).is_err());
    for elsewhere in [
        format!("/p/environments/{name}"),
        format!("p/.dynamic-plugin-environments/{name}"),
        "/p/.dynamic-plugin-environments/abc".to_string(),
    ] {
        assert_eq!(
            resolve_python_executable("abc", Some(&elsewhere), false, false).unwrap_err().to_text(),
            format!(
                "invalid config: Python worker environment_ref '{elsewhere}' is not the \
                 lifecycle-managed path for plugin 'abc'"
            )
        );
    }
    assert_eq!(worker_executable_path("/p/relay-plugin.toml", "bin/run"), "/p/bin/run");
    assert_eq!(worker_executable_path("/p/relay-plugin.toml", "/bin/run"), "/bin/run");
    assert_eq!(
        resolve_python_executable("abc", Some(&environment), true, false).unwrap_err().to_text(),
        format!(
            "invalid config: Python worker environment_ref '{environment}' must not be a symbolic link"
        )
    );
    assert_eq!(python_layout(false), ("bin", "python"));
    assert_eq!(python_layout(true), ("Scripts", "python.exe"));
    let joined = || "/e/bin/python".to_string();
    assert_eq!(
        python_executable("abc", "/e", true, Some(name), managed, false, joined()).unwrap(),
        "/e/bin/python"
    );
    assert!(python_executable("abc", "/e", true, Some(name), managed, true, joined()).is_err());
    let made = resolve_python_executable("abc", Some(&environment), false, true).unwrap();
    assert!(made.starts_with(&environment) && made.ends_with("python.exe"));
}

#[test]
fn launches_are_planned() {
    let spec = launch_spec(WorkerRuntime::Python, Some("/f"));
    let launch = plan_python_launch(&spec, "/v/bin/python", true, "boot").ok().unwrap();
    assert_eq!(launch.arguments, ["-c", "boot", "acme:main"]);
    assert_eq!(launch.removed_variables, ["PYTHONHOME", "PYTHONPATH", "VIRTUAL_ENV"]);
    assert_eq!(launch.variables.len(), 6);
    assert_eq!(
        launch.variables[5],
        ("NEMO_RELAY_WORKER_ENDPOINT_FILE".to_string(), "/f".to_string())
    );
    assert_eq!(
        plan_python_launch(&spec, "/v/bin/python", false, "boot").err().unwrap().to_text(),
        "registration failed: configured Python worker environment interpreter '/v/bin/python' does \
         not exist"
    );
    let direct = plan_executable_launch(&launch_spec(WorkerRuntime::Rust, None), "/bin/acme");
    assert_eq!(direct.program, "/bin/acme");
    assert_eq!(direct.variables.len(), 5);
    assert!(spawn_error(WorkerRuntime::Rust, "/bin/acme", "denied")
        .to_text()
        .contains("failed to spawn rust worker '/bin/acme': denied"));
}

#[test]
fn worker_errors_become_host_errors() {
    let cancelled = worker_error_to_flow(error("worker.cancelled", "stop"));
    assert_eq!(cancelled.message, "worker invocation cancelled: stop");
    assert_eq!(worker_error_to_flow(error("x", "y")).message, "x: y");
    assert!(worker_error_to_plugin(error("x", "y"), "fallback").to_text().ends_with("x: y"));
    assert_eq!(
        worker_status_to_flow("ctx", RpcCode::DeadlineExceeded, "late").message,
        "worker invocation timed out: late"
    );
    assert_eq!(worker_status_to_flow("ctx", RpcCode::Other, "e").message, "ctx: e");
    assert_eq!(rpc_timeout_text(30_000), "worker RPC timed out after 30000ms");
    let ack = host_ack(Err("no".to_string()));
    assert!(!ack.ok && ack.error.unwrap().code == "host.runtime_error");
    assert!(host_ack(Ok(())).ok);
}

#[test]
fn invoke_answers_are_read() {
    let value = InvokeResult::Json(Some(envelope(Json::Bool(true))), None);
    assert!(matches!(json_from_invoke_response(Some(value)), Ok(Json::Bool(true))));
    assert_eq!(
        message(json_from_invoke_response(Some(InvokeResult::Json(None, None)))),
        "worker JSON result is missing"
    );
    assert_eq!(
        message(json_from_invoke_response(Some(InvokeResult::Json(Some(broken()), None)))),
        "worker returned invalid JSON result: bad"
    );
    assert_eq!(
        message(json_from_invoke_response(Some(InvokeResult::Error(error("a", "b"))))),
        "a: b"
    );
    assert_eq!(
        message(json_from_invoke_response(Some(InvokeResult::Empty))),
        "worker returned unexpected invoke result"
    );
    assert!(matches!(
        optional_json_from_invoke_response(Some(InvokeResult::Empty)),
        Ok(None)
    ));
    assert!(matches!(
        guardrail_from_invoke_response(Some(InvokeResult::Guardrail("why".to_string()))),
        Ok(Some(reason)) if reason == "why"
    ));
    assert!(subscriber_from_invoke_response(Some(InvokeResult::Empty)).is_ok());
}

#[test]
fn intercept_outcomes_need_their_schema() {
    let given = |schema: &str| {
        Some(InvokeResult::LlmRequest(Some(WorkerEnvelope {
            schema: schema.to_string(),
            payload: Ok(Json::Null),
        })))
    };
    assert!(llm_intercept_from_invoke_response(given("s@1"), "s@1").is_ok());
    assert!(message(llm_intercept_from_invoke_response(given("other"), "s@1"))
        .starts_with("worker returned unsupported LLM request intercept outcome schema: other"));
}

#[test]
fn tool_outcomes_are_read() {
    let outcome = |result, annotation, marks| {
        tool_execution_intercept_outcome(ToolOutcomeMessage {
            result,
            annotation,
            pending_marks: marks,
        })
    };
    let made = outcome(Some(Ok(Json::Null)), None, None).ok().unwrap();
    assert!(made.annotation.is_none() && made.pending_marks.is_empty());
    assert_eq!(
        message(outcome(None, None, None)),
        "worker tool execution intercept outcome result is missing"
    );
    assert_eq!(
        message(outcome(Some(Err("x".to_string())), None, None)),
        "invalid worker tool execution result JSON: x"
    );
    assert_eq!(
        message(outcome(Some(Ok(Json::Null)), None, Some(Err("x".to_string())))),
        "invalid worker pending marks JSON: x"
    );
}

#[test]
fn stream_chunks_are_read() {
    assert!(json_from_stream_chunk(Some(StreamChunkItem::Value(envelope(Json::Null)))).is_ok());
    assert_eq!(
        message(json_from_stream_chunk(Some(StreamChunkItem::Value(broken())))),
        "invalid worker stream chunk: bad"
    );
    assert_eq!(message(json_from_stream_chunk(None)), "worker stream chunk was empty");
    assert!(matches!(react_to_stream(StreamEvent::ConsumerGone), StreamReaction::Cancel(_)));
    assert!(matches!(react_to_stream(StreamEvent::End), StreamReaction::Stop));
    let failed = stream_open_failed(RpcCode::Other, "e");
    assert_eq!(failed.0, "worker stream transport failed");
    assert_eq!(failed.1.message, "worker stream invoke failed: e");
}

#[test]
fn worker_loads_are_planned() {
    let target = plan_worker_load("acme", &manifest(), "0.8.0").unwrap();
    assert_eq!(target.runtime, WorkerRuntime::Python);
    assert_eq!(target.entrypoint, "acme:main");
    let mut native = manifest();
    native.plugin.kind = DynamicPluginKind::RustDynamic;
    assert_eq!(
        plan_worker_load("acme", &native, "0.8.0").unwrap_err().to_text(),
        "invalid config: dynamic plugin 'acme' is kind rust_dynamic; worker loader only supports \
         worker"
    );
    let mut bare = manifest();
    bare.load = DynamicPluginManifestLoad::Worker(DynamicPluginManifestWorkerLoad {
        runtime: Some(WorkerRuntime::Rust),
        entrypoint: None,
    });
    assert_eq!(
        plan_worker_load("acme", &bare, "0.8.0").unwrap_err().to_text(),
        "invalid config: load.entrypoint is required"
    );
}

#[test]
fn startup_answers_are_checked() {
    assert!(check_worker_health(true, "").is_ok());
    assert!(check_worker_health(false, "sick")
        .unwrap_err()
        .to_text()
        .contains("worker plugin health check failed: sick"));
    assert!(startup_call_error(StartupCall::Handshake, "x")
        .to_text()
        .contains("worker handshake failed: x"));
    assert!(validate_worker_handshake("acme", &handshake()).is_ok());
    assert_eq!(
        validate_worker_handshake("other", &handshake()).unwrap_err().to_text(),
        "invalid config: worker plugin returned id 'acme' kind 'acme' but manifest id is 'other'"
    );
    let mut old = handshake();
    old.worker_protocol = "grpc-v0".to_string();
    assert_eq!(
        validate_worker_handshake("acme", &old).unwrap_err().to_text(),
        "invalid config: unsupported worker_protocol 'grpc-v0'"
    );
    assert!(accept_worker_validation(None, None).unwrap().is_empty());
    assert!(accept_worker_validation(Some(error("c", "m")), None).is_err());
}

#[test]
fn registration_plans_are_checked() {
    let gate = WorkerSurface::Known(RegistrationSurface::ToolConditionalExecutionGuardrail);
    let intercept = WorkerSurface::Known(RegistrationSurface::LlmRequestIntercept);
    let accept = |surface, name: &str, relay: &str| {
        accept_worker_registrations("acme", relay, None, vec![registration(name, surface)])
    };
    assert_eq!(accept(gate, "gate", ">=0.8.0").unwrap().len(), 1);
    assert_eq!(
        accept(gate, " ", ">=0.8.0").unwrap_err().to_text(),
        "registration failed: worker plugin 'acme' returned a registration with empty local_name"
    );
    assert_eq!(
        accept(WorkerSurface::Unspecified, "x", ">=0.8.0").unwrap_err().to_text(),
        "registration failed: worker plugin 'acme' returned unspecified registration surface"
    );
    assert!(accept(WorkerSurface::Unsupported(99), "x", ">=0.8.0").is_err());
    assert!(accept(intercept, "x", ">=0.8.0").is_ok());
    assert!(accept(intercept, "x", ">=0.5").is_err());
    assert!(accept_worker_registrations("acme", ">=0.8.0", Some(error("c", "m")), vec![]).is_err());
    assert!(wants_registration(&vec![]));
    let finding = ConfigDiagnostic {
        level: DiagnosticLevel::Error,
        code: "c".to_string(),
        component: None,
        field: None,
        message: "m".to_string(),
    };
    assert!(!wants_registration(&vec![finding]));
}

#[test]
fn workers_keep_their_configuration() {
    let mut config = TextMap::new();
    put(&mut config, "a", text_json("1"));
    let gate = WorkerSurface::Known(RegistrationSurface::ToolConditionalExecutionGuardrail);
    let made = worker_instance(
        &load_spec(config),
        &handshake(),
        vec![],
        vec![registration("gate", gate)],
    );
    let mut same = TextMap::new();
    put(&mut same, "a", text_json("1"));
    assert!(made.validate(&same).is_empty());
    assert!(made.check_registration_config(&same).is_ok());
    put(&mut same, "a", text_json("2"));
    assert_eq!(made.validate(&same)[0].code, "plugin.worker_config_mismatch");
    assert!(made.check_registration_config(&same).is_err());
    let mut context = PluginRegistrationContext::with_namespace("ns__".to_string());
    made.install_registrations(&mut context, &vec![Ok(())]).unwrap();
    assert_eq!(context.registrations[0].name, "ns__gate");
    assert!(made.install_registrations(&mut context, &vec![Err("no".to_string())]).is_err());
}

#[test]
fn failed_worker_loads_leave_no_kind_behind() {
    let mut handlers = PluginHandlers::new();
    assert!(load_worker_plugins(
        &mut handlers,
        vec![Ok(instance("one")), Err(PluginError::Internal("no".to_string()))]
    )
    .is_err());
    assert!(lookup_registered_plugin(&handlers, "one").is_none());
    match load_worker_plugins(&mut handlers, vec![Ok(instance("one"))]) {
        Ok(activation) => {
            assert!(!activation.is_empty());
            activation.clear(&mut handlers);
            assert!(handlers.kinds().is_empty());
        }
        Err(e) => panic!("{}", e.to_text()),
    }
    let mut bad = DynamicPluginTeardownOutcome::success();
    bad.record_error("x".to_string(), false);
    let merged = merge_worker_shutdowns(vec![DynamicPluginTeardownOutcome::success(), bad]);
    assert!(merged.errors == ["x"] && !merged.safe_to_unload);
}

#[test]
fn strangers_are_refused() {
    let refused = accept_mark(&state(), &caller("wrong"), None, None).err().unwrap();
    match refused {
        CallRefusal::Status(s) => {
            assert_eq!(s.code, HostStatusCode::PermissionDenied);
            assert_eq!(s.message, "invalid worker host token");
        }
        _ => panic!("another refusal"),
    }
    assert!(accept_push(&state(), &caller("wrong"), None, None, None).is_err());
    assert!(accept_codec_call(&state(), &caller("wrong"), "c", "i", CodecCapability::Request)
        .is_err());
    assert!(state().authorize("act", "tok").is_ok());
    assert!(state().authorize("other", "tok").is_err());
}

#[test]
fn calls_name_their_stack() {
    let mut host = state();
    let called = accept_mark(&host, &caller("tok"), Some(envelope(Json::Null)), None);
    assert!(matches!(called, Ok(call) if call.stack == CallStack::Current && call.data.is_some()));
    host.create_scope_stack("s".to_string(), 7);
    let named = WorkerCaller { scope_stack_id: Some("s"), ..caller("tok") };
    let pushed = accept_push(&host, &named, None, None, None);
    assert!(matches!(pushed, Ok(call) if call.stack == CallStack::Named(7)));
    let unknown = WorkerCaller { scope_stack_id: Some("x"), ..caller("tok") };
    assert!(matches!(
        accept_mark(&host, &unknown, None, None),
        Err(CallRefusal::Stack(s)) if s.message == "scope stack not found"
    ));
    host.drop_scope_stack("s");
    assert!(accept_push(&host, &named, None, None, None).is_err());
}

#[test]
fn refused_calls_are_answered() {
    let stack = |id| WorkerCaller { scope_stack_id: Some(id), ..caller("tok") };
    let refused = || accept_mark(&state(), &stack("x"), None, None).err().unwrap();
    let shown = || "internal error: no stack".to_string();
    match refuse_call(HostCall::EmitMark, refused(), shown()) {
        RefusedAnswer::Ack(ack) => {
            assert!(!ack.ok);
            let error = ack.error.unwrap();
            assert_eq!(error.code, "host.runtime_error");
            assert_eq!(error.message, "internal error: no stack");
            assert!(!error.retryable);
        }
        _ => panic!("another answer"),
    }
    match refuse_call(HostCall::PushScope, refused(), shown()) {
        RefusedAnswer::Push(answer) => {
            assert_eq!(answer.scope_handle_id, "");
            assert_eq!(answer.error.unwrap().message, "internal error: no stack");
        }
        _ => panic!("another answer"),
    }
    let stranger = accept_mark(&state(), &caller("wrong"), None, None).err().unwrap();
    match refuse_call(HostCall::EmitMark, stranger, shown()) {
        RefusedAnswer::Status(s) => {
            assert_eq!(s.code, HostStatusCode::PermissionDenied);
            assert_eq!(s.message, "invalid worker host token");
        }
        _ => panic!("another answer"),
    }
    let flow = CallRefusal::Flow(FlowError::internal("codec request is missing".to_string()));
    let call = HostCall::Codec(CodecArgumentKind::Request);
    match refuse_call(call, flow, "internal error: codec request is missing".to_string()) {
        RefusedAnswer::Status(s) => {
            assert_eq!(s.code, HostStatusCode::Internal);
            assert_eq!(s.message, "internal error: codec request is missing");
        }
        _ => panic!("another answer"),
    }
}

#[test]
fn unopened_streams_fail_with_a_status() {
    let failed = stream_not_opened(StreamFailure::Failed("no provider".to_string()));
    assert_eq!(failed.code, HostStatusCode::Internal);
    assert_eq!(failed.message, "no provider");
    let panicked = stream_not_opened(StreamFailure::Panicked("boom".to_string()));
    assert_eq!(panicked.code, HostStatusCode::Internal);
    assert_eq!(panicked.message, "worker stream continuation panicked: boom");
}

#[test]
fn scopes_are_closed_once() {
    let mut host = state();
    let id = host.insert_scope_handle("u", "");
    assert_eq!(id, "scope-u");
    let popped = accept_pop(&mut host, &caller("tok"), &id, None, None);
    assert!(matches!(popped, Ok(call) if call.uuid == "u"));
    assert!(accept_pop(&mut host, &caller("tok"), &id, None, None).is_err());
}

#[test]
fn opened_scopes_keep_their_stack() {
    let mut host = state();
    let named = WorkerCaller { scope_stack_id: Some("s"), ..caller("tok") };
    let answer = finish_push(&mut host, &named, Ok("u".to_string()));
    assert_eq!(answer.scope_handle_id, "scope-u");
    assert!(answer.error.is_none());
    assert!(matches!(
        accept_pop(&mut host, &caller("tok"), "scope-u", None, None),
        Err(CallRefusal::Status(s)) if s.message == "scope stack not found"
    ));
    let answer = finish_push(&mut host, &named, Err("full".to_string()));
    assert_eq!(answer.scope_handle_id, "");
    assert_eq!(answer.error.unwrap().message, "full");
}

#[test]
fn workers_have_stacks_of_their_own() {
    let mut host = state();
    assert!(accept_create_stack(&mut host, &caller("wrong"), 7).is_err());
    let id = match accept_create_stack(&mut host, &caller("tok"), 7) {
        Ok(id) => id,
        Err(_) => panic!("refused"),
    };
    assert!(id.starts_with("stack-"));
    assert_eq!(host.call_stack(Some(&id)).ok().unwrap(), CallStack::Named(7));
    assert!(accept_drop_stack(&mut host, &caller("wrong"), &id).is_err());
    assert!(host.call_stack(Some(&id)).is_ok());
    assert!(accept_drop_stack(&mut host, &caller("tok"), &id).is_ok());
    assert!(host.call_stack(Some(&id)).is_err());
}

#[test]
fn borrowed_codecs_take_arguments_in_order() {
    let mut host = state();
    host.insert_codec_as("c".to_string(), "inv", CodecCapability::Request);
    let request = CodecArgumentKind::Request;
    let given = Some(envelope(Json::Null));
    assert!(accept_decode(&host, &caller("tok"), "c", "inv", request, given).is_ok());
    let given = Some(envelope(Json::Null));
    assert!(matches!(
        accept_decode(&host, &caller("tok"), "c", "inv", CodecArgumentKind::Response, given),
        Err(CallRefusal::Status(s)) if s.message == "codec capability is request-only"
    ));
    assert!(matches!(
        accept_encode(&host, &caller("tok"), "c", "inv", None, None),
        Err(CallRefusal::Flow(e)) if e.message == "annotated codec request is missing"
    ));
    assert!(matches!(
        accept_encode(&host, &caller("tok"), "c", "inv", Some(envelope(Json::Null)), None),
        Err(CallRefusal::Flow(e)) if e.message == "original codec request is missing"
    ));
}

#[test]
fn continuation_streams_are_forwarded() {
    assert!(matches!(
        forward_next_stream(NextStreamItem::Value(Json::Null)),
        NextStreamStep::Send(Ok(Json::Null))
    ));
    let failure = NextStreamItem::Failure(FlowError::internal("no".to_string()));
    assert!(matches!(
        forward_next_stream(failure),
        NextStreamStep::Send(Err(e)) if e.message == "no"
    ));
    assert!(matches!(
        forward_next_stream(NextStreamItem::Panicked("boom".to_string())),
        NextStreamStep::SendLast(e)
            if e.message == "worker stream continuation panicked: boom"
    ));
    assert!(matches!(forward_next_stream(NextStreamItem::End), NextStreamStep::Stop));
    assert!(matches!(forward_next_stream(NextStreamItem::Closed), NextStreamStep::Stop));
}

#[test]
fn continuations_have_a_kind() {
    let mut host = state();
    host.insert_continuation_as("k".to_string(), NextKind::Tool);
    assert!(host.check_continuation("k", NextKind::Tool).is_ok());
    assert_eq!(
        host.check_continuation("k", NextKind::Llm).unwrap_err().message,
        "continuation is not an LLM continuation"
    );
    assert!(accept_next(&host, &caller("tok"), "k", NextKind::Tool, Some(envelope(Json::Null)))
        .is_ok());
    assert!(matches!(
        accept_next(&host, &caller("tok"), "k", NextKind::Tool, None),
        Err(CallRefusal::Flow(e)) if e.message == "tool next value is missing"
    ));
    host.remove_continuation("k");
    assert_eq!(
        host.check_continuation("k", NextKind::Tool).unwrap_err().message,
        "continuation not found"
    );
    let fresh = host.insert_continuation(NextKind::LlmStream);
    assert!(host.check_continuation(&fresh, NextKind::LlmStream).is_ok());
}

#[test]
fn codecs_serve_their_invocation() {
    let mut host = state();
    host.insert_codec_as("c".to_string(), "inv", CodecCapability::Request);
    assert!(host.check_codec("c", "inv", CodecCapability::Request).is_ok());
    assert_eq!(
        host.check_codec("c", "inv", CodecCapability::Response).unwrap_err().message,
        "codec capability is request-only"
    );
    assert_eq!(
        host.check_codec("c", "other", CodecCapability::Request).unwrap_err().message,
        "codec capability does not belong to this invocation"
    );
    host.remove_codec("c");
    assert_eq!(
        host.check_codec("c", "inv", CodecCapability::Request).unwrap_err().message,
        "codec capability is unavailable"
    );
}

#[test]
fn shared_stacks_are_unwound_once() {
    let mut host = state();
    host.insert_invocation_scope_stack("a".to_string(), 5, 2);
    host.insert_invocation_scope_stack("b".to_string(), 5, 3);
    assert_eq!(host.take_invocation_scope_cleanup("a"), None);
    let cleanup = host.take_invocation_scope_cleanup("b");
    assert!(matches!(cleanup, Some((5, _))));
    assert!(host.is_unwinding(5));
    host.finish_cleanup(5);
    assert!(!host.is_unwinding(5));
    let next = |step, event| next_unwind_step(step, event, 3);
    assert_eq!(next(UnwindStep::Look, UnwindEvent::Depth(3)), UnwindStep::Done);
    assert_eq!(next(UnwindStep::Look, UnwindEvent::Depth(4)), UnwindStep::Pop);
    assert_eq!(next(UnwindStep::Look, UnwindEvent::Unreachable), UnwindStep::Done);
    assert_eq!(next(UnwindStep::Pop, UnwindEvent::Popped(true)), UnwindStep::Look);
    assert_eq!(next(UnwindStep::Pop, UnwindEvent::Popped(false)), UnwindStep::Remove);
    assert_eq!(next(UnwindStep::Remove, UnwindEvent::Removed(true)), UnwindStep::Look);
    assert_eq!(next(UnwindStep::Remove, UnwindEvent::Removed(false)), UnwindStep::Done);
    assert_eq!(next(UnwindStep::Done, UnwindEvent::Depth(9)), UnwindStep::Done);
}

#[test]
fn invocations_are_cancelled_once() {
    let host = state();
    let invocation = invocation_as(
        &host,
        "inv".to_string(),
        "gate",
        RegistrationSurface::ToolConditionalExecutionGuardrail,
        None,
        "s",
    );
    assert_eq!(invocation.continuation_id, "");
    assert_eq!(invocation.auth_token, "tok");
    let mut guard = WorkerInvocationGuard::new(&invocation);
    let sent = guard.cancel("why").unwrap();
    assert_eq!(sent.reason, "why");
    assert!(guard.cancel("again").is_none());
    assert!(guard.release().is_none());
    let mut dropped = WorkerInvocationGuard::new(&invocation);
    assert_eq!(
        dropped.release().unwrap().reason,
        "host caller cancelled the worker invocation"
    );
    let mut late = WorkerInvocationGuard::new(&invocation);
    let (cancel, result) =
        after_invoke(&mut late, Err((RpcCode::DeadlineExceeded, "late".to_string())));
    assert_eq!(cancel.unwrap().reason, "worker invocation timed out");
    assert_eq!(result.unwrap_err().kind, FlowErrorKind::Internal);
    let fresh = new_invocation(&host, "gate", RegistrationSurface::Subscriber, None, "s");
    assert_ne!(fresh.invocation_id, "inv");
}

#[test]
fn finished_invocations_leave_nothing() {
    let mut host = state();
    host.insert_continuation_as("k".to_string(), NextKind::Tool);
    host.insert_invocation_scope_stack("s".to_string(), 5, 2);
    let invocation = invocation_as(
        &host,
        "inv".to_string(),
        "tool",
        RegistrationSurface::ToolExecutionIntercept,
        Some("k".to_string()),
        "s",
    );
    let mut guard = WorkerInvocationGuard::new(&invocation);
    let unwound = guard.finish(&mut host);
    assert!(matches!(unwound, Some((5, 2))));
    assert!(host.check_continuation("k", NextKind::Tool).is_err());
    guard.end_cleanup(&mut host, Some(5));
    assert!(!host.is_unwinding(5));
    assert!(guard.release().is_none());
}
