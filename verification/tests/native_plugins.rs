use relay_plugin::config::{ConfigDiagnostic, DiagnosticLevel};
use relay_plugin::dynamic::manifest::{
    DynamicPluginManifest, DynamicPluginManifestCapabilities, DynamicPluginManifestCompat,
    DynamicPluginManifestDefaults, DynamicPluginManifestLoad, DynamicPluginManifestPlugin,
    DynamicPluginManifestRustDynamicLoad,
};
use relay_plugin::dynamic::record::{DynamicPluginCapability, DynamicPluginKind};
use relay_plugin::error::PluginError;
use relay_plugin::handlers::{lookup_registered_plugin, register_plugin, PluginHandlers};
use relay_plugin::json::{object1, text_json, Json};
use relay_plugin::native::adapter::{native_register_result, native_validation_findings};
use relay_plugin::native::callbacks::{
    async_gate_reason, async_optional_value, callback_json, callback_reason, finish_next_call,
    llm_request_invocation, native_async_codec_identity, read_next_call, undecodable_answer,
    LlmCodecIdentity, NativeCallback, NativeNext, NextRun,
};
use relay_plugin::native::codecs::{
    check_codec_pointers, check_lent_codec, finish_codec_call, read_codec_response, CodecOperation,
    CodecRun,
};
use relay_plugin::native::completion::{
    accept_answer, continuation_result, receive, AsyncCallbackAnswer, CodecCapability,
    NativeAsyncCompletion, NextKind,
};
use relay_plugin::native::handoff::{
    NativeAsyncResultCallbackGuard, NativeAsyncStreamCallbackGuard, NativeCallbackHandoff,
    ResultDelivery, StreamDelivery, StreamItem,
};
use relay_plugin::native::load::{
    accept_native_plugin, entry_failure, load_native_plugins, negotiate_entry, plan_native_load,
    prepare_native_library, EntryStep, NativeAbi, NativePluginDescriptor, NativePluginInstance,
};
use relay_plugin::native::pull::{
    pull_callback, NativePullOpenCallbackGuard, NativePullStreamState, OpenRun,
};
use relay_plugin::native::register::{
    begin_async_middleware, begin_async_stream_middleware, begin_native_callback,
    register_native_callback, CallbackOrder, NativeAsyncMiddlewareKind, RegistrationEnd,
    UserDataGuard,
};
use relay_plugin::native::relay_stream::{HostPoll, NativeHostLlmStream, NativeRelayLlmStream};
use relay_plugin::native::scope::{
    read_mark, read_scope_push, require_pointer, RequiredPointer, ScopePushArguments,
};
use relay_plugin::native::status::{
    flow_error_from_status, status_from_flow_error, status_from_plugin_error, FlowError,
    FlowErrorKind, LastError, NemoRelayStatus,
};
use relay_plugin::native::stream::{NativeAsyncStream, SendOutcome};
use relay_plugin::native::strings::{
    json_from_native_string, native_string_from_json, native_string_from_str, native_string_new,
    optional_timestamp_from_native, parse_json_arg, read_name, read_native_string,
    FIRST_TIMESTAMP_MICROS, LAST_TIMESTAMP_MICROS,
    sanitizer_strings_to_free, NativeString,
};
use relay_plugin::registrations::{PluginRegistrationContext, RegistrationSurface};

fn text(value: &str) -> NativeString {
    native_string_from_str(value)
}

fn bytes(value: &[u8]) -> NativeString {
    NativeString { bytes: value.to_vec() }
}

fn written(value: &Json) -> String {
    read_native_string(Some(&native_string_from_json(value))).unwrap()
}

fn manifest() -> DynamicPluginManifest {
    let some = |s: &str| Some(s.to_string());
    DynamicPluginManifest {
        manifest_version: 1,
        plugin: DynamicPluginManifestPlugin {
            id: "acme".to_string(),
            name: None,
            version: None,
            kind: DynamicPluginKind::RustDynamic,
        },
        compat: DynamicPluginManifestCompat {
            relay: some(">=0.8.0"),
            native_api: some("1"),
            worker_protocol: None,
        },
        defaults: DynamicPluginManifestDefaults { enabled: false },
        capabilities: DynamicPluginManifestCapabilities {
            items: vec![DynamicPluginCapability::PluginNative],
        },
        config_schema: None,
        load: DynamicPluginManifestLoad::RustDynamic(DynamicPluginManifestRustDynamicLoad {
            library: some("libacme.so"),
            symbol: some("acme_entry"),
        }),
        source: None,
        integrity: None,
        description: None,
    }
}

fn instance(kind: &str) -> NativePluginInstance {
    NativePluginInstance {
        plugin_kind: kind.to_string(),
        relay_compat: ">=0.8.0".to_string(),
        allows_multiple_components: false,
        has_validate: true,
        has_register: true,
    }
}

#[test]
fn status_keeps_the_kind_of_an_error() {
    let mut last = LastError::new();
    for kind in [
        FlowErrorKind::AlreadyExists,
        FlowErrorKind::NotFound,
        FlowErrorKind::InvalidArgument,
        FlowErrorKind::ScopeStackEmpty,
        FlowErrorKind::GuardrailRejected,
        FlowErrorKind::Internal,
    ] {
        let status = status_from_flow_error(&mut last, kind, "shown".to_string());
        assert_eq!(last.message_or("none"), "shown");
        assert_eq!(flow_error_from_status(status, &last, "fallback").kind, kind);
    }
}

#[test]
fn errors_without_a_message_name_the_status() {
    let last = LastError::new();
    let error = flow_error_from_status(NemoRelayStatus::NotFound, &last, "call failed");
    assert_eq!(error.kind, FlowErrorKind::NotFound);
    assert_eq!(error.message, "call failed: NotFound");
}

#[test]
fn plugin_errors_have_a_status() {
    let mut last = LastError::new();
    let status = status_from_plugin_error(&mut last, PluginError::Conflict("busy".to_string()));
    assert_eq!(status, NemoRelayStatus::AlreadyExists);
    assert_eq!(last.message_or(""), "conflict: busy");
    assert_eq!(
        status_from_plugin_error(&mut last, PluginError::InvalidConfig("x".to_string())),
        NemoRelayStatus::InvalidArg
    );
    assert_eq!(NemoRelayStatus::Success.as_str(), "Ok");
}

#[test]
fn created_strings_read_back() {
    let mut last = LastError::new();
    let made = native_string_new(&mut last, Some("grün".as_bytes().to_vec()), 5, false).unwrap();
    assert_eq!(read_native_string(Some(&made)).unwrap(), "grün");
    assert_eq!(read_native_string(None).unwrap(), "");
    assert_eq!(
        native_string_new(&mut last, Some(vec![0xff]), 1, false).unwrap_err(),
        NemoRelayStatus::InvalidUtf8
    );
    assert!(last.message_or("").starts_with("string data is not valid UTF-8: "));
    assert_eq!(
        native_string_new(&mut last, Some(vec![]), 0, true).unwrap_err(),
        NemoRelayStatus::NullPointer
    );
    assert_eq!(last.message_or(""), "out string pointer is null");
    let broken = read_native_string(Some(&bytes(&[0xc3, 0x28]))).unwrap_err().to_text();
    assert!(broken.contains("native string is not valid UTF-8: "));
}

#[test]
fn json_strings_round_trip() {
    let value = object1("a", Json::Array(vec![Json::Null, Json::Bool(true), text_json("x")]));
    assert_eq!(written(&value), "{\"a\":[null,true,\"x\"]}");
    let back =
        json_from_native_string(Some(&native_string_from_json(&value)), &LastError::new(), "none");
    assert_eq!(written(&back.unwrap()), "{\"a\":[null,true,\"x\"]}");
    let broken = json_from_native_string(Some(&text("{")), &LastError::new(), "none");
    assert!(broken.err().unwrap().message.starts_with("invalid JSON: "));
}

#[test]
fn arguments_are_read_and_reported() {
    let mut last = LastError::new();
    assert_eq!(read_name(&mut last, Some(&text("gate"))).unwrap(), "gate");
    assert!(read_name(&mut last, Some(&bytes(&[0xff]))).is_err());
    assert!(parse_json_arg(&mut last, Some(&text("[1]")), "arg").is_ok());
    assert_eq!(
        parse_json_arg(&mut last, Some(&text("[")), "arg").err().unwrap(),
        NemoRelayStatus::InvalidJson
    );
    assert!(last.message_or("").starts_with("arg was invalid JSON: "));
}

#[test]
fn timestamps_have_a_range() {
    let mut last = LastError::new();
    assert_eq!(optional_timestamp_from_native(&mut last, None).unwrap(), None);
    assert_eq!(
        optional_timestamp_from_native(&mut last, Some(1_700_000_000_000_000)).unwrap(),
        Some(1_700_000_000_000_000)
    );
    let first = chrono::DateTime::<chrono::Utc>::MIN_UTC.timestamp_micros();
    let end = chrono::DateTime::<chrono::Utc>::MAX_UTC.timestamp_micros();
    assert_eq!((first, end), (FIRST_TIMESTAMP_MICROS, LAST_TIMESTAMP_MICROS));
    assert!(optional_timestamp_from_native(&mut last, Some(first)).is_ok());
    assert!(optional_timestamp_from_native(&mut last, Some(end)).is_ok());
    assert!(optional_timestamp_from_native(&mut last, Some(first - 1)).is_err());
    assert!(optional_timestamp_from_native(&mut last, Some(end + 1)).is_err());
    assert_eq!(
        optional_timestamp_from_native(&mut last, Some(i64::MAX)).unwrap_err(),
        NemoRelayStatus::InvalidArg
    );
    assert_eq!(
        last.message_or(""),
        "timestamp unix microseconds are outside supported range"
    );
}

#[test]
fn strings_are_freed_once() {
    assert_eq!(sanitizer_strings_to_free(1, Some(2), Some(3)).len(), 3);
    assert_eq!(sanitizer_strings_to_free(1, None, Some(1)).len(), 1);
}

#[test]
fn native_loads_are_planned() {
    let target = plan_native_load("acme", &manifest(), "0.8.0").unwrap();
    assert_eq!(target.library, "libacme.so");
    assert_eq!(target.symbol.as_deref(), Some("acme_entry"));
    let refused = |m: &DynamicPluginManifest, id: &str| {
        plan_native_load(id, m, "0.8.0").unwrap_err().to_text()
    };
    assert_eq!(
        refused(&manifest(), "other"),
        "invalid config: dynamic plugin manifest id 'acme' does not match expected id 'other'"
    );
    let mut worker = manifest();
    worker.plugin.kind = DynamicPluginKind::Worker;
    assert_eq!(
        refused(&worker, "acme"),
        "invalid config: dynamic plugin 'acme' is kind worker; native loader only supports \
         rust_dynamic"
    );
    let mut api = manifest();
    api.compat.native_api = Some("2".to_string());
    assert_eq!(
        refused(&api, "acme"),
        "invalid config: dynamic plugin 'acme' declares unsupported compat.native_api '2'; \
         expected 1"
    );
}

#[test]
fn libraries_are_checked_before_they_are_opened() {
    let mut target = plan_native_load("acme", &manifest(), "0.8.0").unwrap();
    let contents = || Ok(b"abc".to_vec());
    assert_eq!(prepare_native_library(&target, "/l.so", true, contents()).unwrap(), "acme_entry");
    assert_eq!(
        prepare_native_library(&target, "/l.so", false, contents()).unwrap_err().to_text(),
        "not found: native plugin library '/l.so' does not exist"
    );
    target.expected_digest = Some("00".to_string());
    assert_eq!(
        prepare_native_library(&target, "/l.so", true, contents()).unwrap_err().to_text(),
        "invalid config: native plugin library '/l.so' sha256 mismatch"
    );
    target.expected_digest =
        Some("ba7816bf8f01cfea414140de5dae2223b00361a396177a9cb410ff61f20015ad".to_string());
    assert!(prepare_native_library(&target, "/l.so", true, contents()).is_ok());
}

#[test]
fn newest_accepted_table_wins() {
    let invalid = NemoRelayStatus::InvalidArg;
    assert_eq!(negotiate_entry(NativeAbi::V4, NemoRelayStatus::Success), EntryStep::Accepted);
    assert_eq!(negotiate_entry(NativeAbi::V4, invalid), EntryStep::Retry(NativeAbi::V3));
    assert_eq!(negotiate_entry(NativeAbi::V3, invalid), EntryStep::Retry(NativeAbi::V2));
    assert_eq!(negotiate_entry(NativeAbi::V2, invalid), EntryStep::Failed);
    assert_eq!(negotiate_entry(NativeAbi::V4, NemoRelayStatus::Internal), EntryStep::Failed);
    let shown = entry_failure("acme_entry", NemoRelayStatus::Internal, &LastError::new());
    assert!(shown.to_text().contains("native plugin entry symbol 'acme_entry' failed: "));
}

#[test]
fn descriptors_are_checked() {
    let descriptor = || NativePluginDescriptor {
        struct_size: 64,
        plugin_kind: Some(text("acme")),
        has_validate: false,
        has_register: true,
        allows_multiple_components: true,
    };
    let made = accept_native_plugin("acme", ">=0.8.0", &descriptor(), 64).unwrap();
    assert!(made.plugin_kind == "acme" && made.allows_multiple_components && !made.has_validate);
    let mut small = descriptor();
    small.struct_size = 8;
    assert!(accept_native_plugin("acme", ">=0.8.0", &small, 64).is_err());
    let mut silent = descriptor();
    silent.has_register = false;
    assert_eq!(
        accept_native_plugin("acme", ">=0.8.0", &silent, 64).unwrap_err().to_text(),
        "invalid config: native plugin 'acme' returned no register callback"
    );
    let mut other = descriptor();
    other.plugin_kind = Some(text("other"));
    assert_eq!(
        accept_native_plugin("acme", ">=0.8.0", &other, 64).unwrap_err().to_text(),
        "invalid config: native plugin returned kind 'other' but manifest id is 'acme'"
    );
}

#[test]
fn failed_loads_leave_no_kind_behind() {
    let mut handlers = PluginHandlers::new();
    register_plugin(&mut handlers, "taken", true).unwrap();
    let failed = load_native_plugins(
        &mut handlers,
        vec![Ok(instance("one")), Err(PluginError::Internal("no".to_string()))],
    );
    assert!(failed.is_err());
    assert!(lookup_registered_plugin(&handlers, "one").is_none());
    assert!(load_native_plugins(&mut handlers, vec![Ok(instance("taken"))]).is_err());
    assert_eq!(handlers.kinds(), ["taken"]);
    match load_native_plugins(&mut handlers, vec![Ok(instance("one")), Ok(instance("two"))]) {
        Ok(mut activation) => {
            assert_eq!(handlers.kinds(), ["one", "taken", "two"]);
            let outcome = activation.deregister_plugin_kinds_checked(&mut handlers);
            assert!(outcome.errors.is_empty() && outcome.safe_to_unload);
            assert_eq!(handlers.kinds(), ["taken"]);
        }
        Err(e) => panic!("{}", e.to_text()),
    }
}

#[test]
fn native_validation_findings_are_taken() {
    let last = LastError::new();
    let ok = NemoRelayStatus::Success;
    assert!(native_validation_findings("acme", false, ok, &last, None, None).is_empty());
    let failed =
        native_validation_findings("acme", true, NemoRelayStatus::Internal, &last, None, None);
    assert_eq!(failed[0].code, "plugin.native_validate_failed");
    assert_eq!(failed[0].message, "native validate callback returned Internal");
    let finding = ConfigDiagnostic {
        level: DiagnosticLevel::Warning,
        code: "w".to_string(),
        component: None,
        field: None,
        message: "m".to_string(),
    };
    let taken = native_validation_findings(
        "acme",
        true,
        ok,
        &last,
        Some(&text("[..]")),
        Some(vec![finding.clone()]),
    );
    assert_eq!(taken, [finding]);
    let broken = native_validation_findings("acme", true, ok, &last, Some(&text("x")), None);
    assert_eq!(
        broken[0].message,
        "native validate callback returned invalid diagnostics JSON"
    );
    assert!(native_register_result("acme", true, ok, &last).is_ok());
    assert!(native_register_result("acme", false, ok, &last).is_err());
    assert!(native_register_result("acme", true, NemoRelayStatus::Internal, &last).is_err());
}

#[test]
fn completions_settle_once() {
    let mut last = LastError::new();
    let mut completion = NativeAsyncCompletion::new(None);
    assert_eq!(
        completion.resolve_json(&mut last, Some(&text("1"))).0,
        NemoRelayStatus::Success
    );
    assert_ne!(
        completion.resolve_json(&mut last, Some(&text("2"))).0,
        NemoRelayStatus::Success
    );
    assert_ne!(completion.reject(&mut last, Some(&text("no"))).0, NemoRelayStatus::Success);
    assert!(accept_answer(AsyncCallbackAnswer::Complete, &completion).is_ok());
    assert_eq!(written(&receive(completion.outcome).unwrap()), "1");
}

#[test]
fn unusable_results_leave_a_completion_open() {
    let mut last = LastError::new();
    let mut completion = NativeAsyncCompletion::new(None);
    assert_eq!(
        completion.resolve_json(&mut last, Some(&text("{"))).0,
        NemoRelayStatus::InvalidJson
    );
    assert_eq!(completion.reject(&mut last, Some(&text("why"))).0, NemoRelayStatus::Success);
    assert_eq!(receive(completion.outcome).err().unwrap().message, "why");
    let silent = NativeAsyncCompletion::new(None);
    assert_eq!(
        accept_answer(AsyncCallbackAnswer::Complete, &silent).unwrap_err().message,
        "native async callback returned Complete without settling"
    );
    assert_eq!(
        receive(silent.outcome).err().unwrap().message,
        "native async callback dropped without settling"
    );
}

#[test]
fn next_is_invoked_once() {
    let mut last = LastError::new();
    let mut completion = NativeAsyncCompletion::new(None);
    let argument = text("{\"x\":1}");
    let value = completion
        .invoke_next(&mut last, NextKind::Tool, Some(&argument), Ok(()), None, 7)
        .ok()
        .unwrap();
    assert_eq!(written(&value), "{\"x\":1}");
    assert_eq!(
        completion
            .invoke_next(&mut last, NextKind::Tool, Some(&argument), Ok(()), None, 8)
            .err()
            .unwrap(),
        NemoRelayStatus::InvalidArg
    );
    assert_eq!(
        last.message_or(""),
        "native async next was already invoked for this completion"
    );
    assert_eq!(completion.stop_waiting(false), [7]);
    assert!(completion.is_cancelled());
}

#[test]
fn streams_are_not_buffered_by_completions() {
    let mut last = LastError::new();
    let mut completion = NativeAsyncCompletion::new(None);
    assert!(completion
        .invoke_next(&mut last, NextKind::LlmStream, Some(&text("{}")), Ok(()), None, 1)
        .is_err());
    assert!(last.message_or("").starts_with("stream continuations require "));
    assert_eq!(
        continuation_result(Err("boom".to_string())).err().unwrap().message,
        "native async next continuation panicked: boom"
    );
}

#[test]
fn closed_streams_take_nothing() {
    let mut last = LastError::new();
    let mut stream = NativeAsyncStream::new();
    assert!(stream.begin_push(&mut last, Some(&text("1"))).is_ok());
    assert_eq!(stream.end_push(&mut last, SendOutcome::Sent), NemoRelayStatus::Success);
    assert!(stream.begin_push(&mut last, Some(&text("2"))).is_ok());
    assert_eq!(stream.end_push(&mut last, SendOutcome::Full), NemoRelayStatus::Backpressured);
    assert!(stream.is_backpressured());
    assert_eq!(
        last.message_or(""),
        "native async stream is backpressured; retry the chunk after the consumer advances"
    );
    assert_eq!(stream.finish().0, NemoRelayStatus::Success);
    assert!(stream.begin_push(&mut last, Some(&text("3"))).is_err());
    assert!(stream.begin_reject(&mut last, Some(&text("late"))).is_err());
}

#[test]
fn dropped_receivers_cancel_a_stream() {
    let mut stream = NativeAsyncStream::new();
    assert!(stream.register_operation(4));
    assert_eq!(stream.drop_receiver(), [4]);
    assert!(stream.is_cancelled());
    assert!(!stream.register_operation(5));
}

#[test]
fn accepted_starts_report_once() {
    let (handoff, early) = NativeCallbackHandoff::new(1).accept();
    assert!(early.is_none());
    let (handoff, guard) = handoff.claim();
    assert_eq!(guard, 1);
    let (handoff, again) = handoff.drop_task();
    assert!(again.is_none() && matches!(handoff, NativeCallbackHandoff::Complete));
}

#[test]
fn refused_starts_report_nothing() {
    let (handoff, suppressed) = NativeCallbackHandoff::new(2).reject();
    assert_eq!(suppressed, Some(2));
    let (_, nothing) = handoff.drop_task();
    assert!(nothing.is_none());
}

#[test]
fn result_guards_deliver_once() {
    let mut guard = NativeAsyncResultCallbackGuard::new();
    assert!(matches!(
        guard.deliver(Ok(Json::Bool(true))),
        Some(ResultDelivery::Value(Json::Bool(true)))
    ));
    assert!(guard.deliver(Ok(Json::Null)).is_none());
    assert!(guard.release().is_none());
    match NativeAsyncResultCallbackGuard::new().release() {
        Some(ResultDelivery::Failure(m)) => {
            assert_eq!(m, "native async next continuation was cancelled")
        }
        _ => panic!("nothing was reported"),
    }
}

#[test]
fn stream_guards_end_once() {
    let stream = NativeAsyncStream::new();
    let mut guard = NativeAsyncStreamCallbackGuard::new();
    assert!(matches!(
        guard.forward(&stream, StreamItem::Chunk(Json::Null)),
        Some(StreamDelivery::Chunk(Json::Null))
    ));
    assert!(matches!(guard.forward(&stream, StreamItem::End), Some(StreamDelivery::End)));
    assert!(guard.release(&stream).is_none());
    assert!(matches!(
        NativeAsyncStreamCallbackGuard::new().release(&stream),
        Some(StreamDelivery::End)
    ));
    let mut cancelled = NativeAsyncStream::new();
    cancelled.drop_receiver();
    match NativeAsyncStreamCallbackGuard::new().release(&cancelled) {
        Some(StreamDelivery::Failure(m)) => {
            assert_eq!(m, "native async stream continuation was cancelled")
        }
        _ => panic!("nothing was reported"),
    }
}

#[test]
fn ended_pull_streams_stay_ended() {
    let mut last = LastError::new();
    let mut state = NativePullStreamState::Idle;
    assert_eq!(state.begin_pull(&mut last, 1), NemoRelayStatus::Success);
    assert_eq!(state.begin_pull(&mut last, 2), NemoRelayStatus::InvalidArg);
    assert!(matches!(state.end_pull(Ok(Some(Json::Null))), Ok(Some(Json::Null))));
    assert_eq!(state, NativePullStreamState::Idle);
    assert_eq!(state.begin_pull(&mut last, 3), NemoRelayStatus::Success);
    assert!(matches!(state.end_pull(Ok(None)), Ok(None)));
    assert_eq!(state, NativePullStreamState::Terminal);
    assert_ne!(state.begin_pull(&mut last, 4), NemoRelayStatus::Success);
    let mut running = NativePullStreamState::Pulling(9);
    assert_eq!(running.cancel().1, Some(9));
    assert_eq!(
        running.end_pull(Ok(Some(Json::Null))).err().unwrap().message,
        "native pull stream was cancelled"
    );
}

#[test]
fn pull_callbacks_tell_chunk_end_and_error() {
    let chunk = pull_callback(Ok(Some(Json::Bool(false))));
    assert!(matches!(chunk.chunk, Some(Json::Bool(false))) && !chunk.done);
    let end = pull_callback(Ok(None));
    assert!(end.chunk.is_none() && end.error.is_none() && end.done);
    let failed = pull_callback(Err("boom".to_string()));
    assert_eq!(failed.error.as_deref(), Some("boom"));
    let mut guard = NativePullOpenCallbackGuard::new();
    assert_eq!(guard.deliver(OpenRun::Opened), Some(None));
    assert!(guard.deliver(OpenRun::Opened).is_none());
    assert_eq!(
        NativePullOpenCallbackGuard::new().release().as_deref(),
        Some("native pull stream open was cancelled")
    );
}

#[test]
fn callback_answers_are_read() {
    let last = LastError::new();
    let ok = NemoRelayStatus::Success;
    let json = NativeCallback::ToolJson;
    assert!(callback_json(json, ok, &last, Some(&text("[]"))).is_ok());
    assert_eq!(
        callback_json(json, ok, &last, None).err().unwrap().message,
        "native JSON callback returned null"
    );
    assert_eq!(
        callback_json(json, NemoRelayStatus::Internal, &last, None).err().unwrap().message,
        "native JSON callback failed: Internal"
    );
    let gate = NativeCallback::ToolConditional;
    assert!(matches!(callback_reason(gate, ok, &last, None), Ok(None)));
    assert!(matches!(
        callback_reason(gate, ok, &last, Some(&text("why"))),
        Ok(Some(reason)) if reason == "why"
    ));
    assert_eq!(
        undecodable_answer(NativeCallback::EventSanitizer, "x").message,
        "invalid event sanitize fields: x"
    );
}

#[test]
fn continuations_of_callbacks_are_called() {
    let mut last = LastError::new();
    assert!(read_next_call(&mut last, NativeNext::Tool, false, Some(&text("{}")), Ok(())).is_ok());
    assert_eq!(
        read_next_call(&mut last, NativeNext::Llm, true, None, Ok(())).err().unwrap(),
        NemoRelayStatus::NullPointer
    );
    assert_eq!(last.message_or(""), "native LLM next received null pointer");
    assert!(finish_next_call(&mut last, NativeNext::Tool, NextRun::Value(Json::Null)).is_ok());
    assert_eq!(
        finish_next_call(&mut last, NativeNext::Tool, NextRun::Panicked).err().unwrap(),
        NemoRelayStatus::Internal
    );
    assert_eq!(last.message_or(""), "native tool next panicked");
    assert_eq!(
        finish_next_call(
            &mut last,
            NativeNext::Tool,
            NextRun::Failure(FlowErrorKind::GuardrailRejected, "no".to_string())
        )
        .err()
        .unwrap(),
        NemoRelayStatus::GuardrailRejected
    );
}

#[test]
fn codec_identities_are_written() {
    let identity = native_async_codec_identity(&LlmCodecIdentity::BuiltIn("chat".to_string()));
    assert_eq!(written(&identity), "{\"codec_id\":\"chat\",\"codec_kind\":\"builtin\"}");
    let absent = native_async_codec_identity(&LlmCodecIdentity::Absent);
    assert_eq!(written(&absent), "{\"codec_id\":null,\"codec_kind\":\"none\"}");
    let call = llm_request_invocation(Json::Null, &LlmCodecIdentity::Opaque);
    assert_eq!(
        written(&call),
        "{\"context\":{\"codec_id\":null,\"codec_kind\":\"opaque\"},\"request\":null}"
    );
}

#[test]
fn asynchronous_gates_give_a_reason_or_null() {
    assert!(matches!(async_gate_reason("tool", Json::Null), Ok(None)));
    assert!(matches!(
        async_gate_reason("tool", text_json("why")),
        Ok(Some(reason)) if reason == "why"
    ));
    assert_eq!(
        async_gate_reason("tool", Json::Bool(true)).err().unwrap().message,
        "native async tool conditional callback returned true; expected string or null"
    );
    assert!(async_optional_value(Json::Null).is_none());
    assert!(async_optional_value(Json::Bool(true)).is_some());
}

#[test]
fn codecs_expire_with_their_completion() {
    let mut last = LastError::new();
    let mut completion = NativeAsyncCompletion::new(Some(CodecCapability::Request));
    let decode = CodecOperation::RequestDecode;
    assert!(check_lent_codec(&mut last, Some(&completion), decode, false).is_ok());
    assert!(check_lent_codec(&mut last, Some(&completion), CodecOperation::ResponseDecode, false)
        .is_err());
    assert_eq!(last.message_or(""), "async completion has no response codec capability");
    completion.resolve_json(&mut last, Some(&text("null")));
    assert!(check_lent_codec(&mut last, Some(&completion), decode, false).is_err());
    assert_eq!(last.message_or(""), "native async completion capability is expired");
}

#[test]
fn codec_calls_report() {
    let mut last = LastError::new();
    let decode = CodecOperation::RequestDecode;
    assert!(check_codec_pointers(&mut last, decode, false, false, false, true).is_ok());
    assert!(check_codec_pointers(&mut last, decode, true, false, false, true).is_err());
    assert_eq!(last.message_or(""), "request codec decode output pointer is null");
    assert!(finish_codec_call(&mut last, decode, CodecRun::Value(Json::Null)).is_ok());
    assert!(finish_codec_call(&mut last, decode, CodecRun::Failure("x".to_string())).is_err());
    assert_eq!(last.message_or(""), "request codec decode failed: x");
    assert!(finish_codec_call(&mut last, decode, CodecRun::Panicked).is_err());
    assert_eq!(last.message_or(""), "request codec decode panicked");
    assert!(read_codec_response(Some(&text("{}"))).is_ok());
    assert!(read_codec_response(Some(&text("{"))).err().unwrap().starts_with("invalid response JSON"));
}

#[test]
fn native_callbacks_are_registered() {
    let mut last = LastError::new();
    let mut context = PluginRegistrationContext::with_namespace("ns__".to_string());
    let begin = |last: &mut LastError, compat: &str| {
        begin_native_callback(
            last,
            false,
            false,
            RegistrationSurface::LlmRequestIntercept,
            Some(&text("intercept")),
            7,
            true,
            compat,
            "acme",
        )
    };
    let callback = begin(&mut last, ">=0.8.0").unwrap();
    assert_eq!(callback.order, CallbackOrder { priority: Some(7), break_chain: Some(true) });
    let end = register_native_callback(&mut context, &mut last, callback, Ok(()));
    assert_eq!(end, RegistrationEnd { status: NemoRelayStatus::Success, released: false });
    assert_eq!(context.registrations[0].name, "ns__intercept");
    let refused = begin(&mut last, ">=0.5").unwrap_err();
    assert_eq!(refused, RegistrationEnd { status: NemoRelayStatus::InvalidArg, released: false });
    assert_eq!(context.registrations.len(), 1);
}

#[test]
fn asynchronous_middleware_is_registered() {
    let mut last = LastError::new();
    let mut context = PluginRegistrationContext::new();
    let begin = |kind, last: &mut LastError| {
        begin_async_middleware(
            last,
            false,
            false,
            kind,
            Some(&text("m")),
            -3,
            true,
            ">=0.8.0",
            "acme",
        )
    };
    let mark = Some(NativeAsyncMiddlewareKind::MarkSanitize);
    let callback = begin(mark, &mut last).unwrap();
    assert_eq!(callback.surface, RegistrationSurface::MarkSanitizeGuardrail);
    assert_eq!(callback.name, "m");
    assert_eq!(callback.order, CallbackOrder { priority: Some(-3), break_chain: None });
    let end = register_native_callback(&mut context, &mut last, callback, Ok(()));
    assert_eq!(end, RegistrationEnd { status: NemoRelayStatus::Success, released: false });
    assert_eq!(context.registrations.len(), 1);

    let refused = begin(None, &mut last).unwrap_err();
    assert_eq!(refused, RegistrationEnd { status: NemoRelayStatus::InvalidArg, released: true });
    assert_eq!(last.message_or(""), "invalid native async middleware kind");
    let stream = Some(NativeAsyncMiddlewareKind::LlmStreamExecutionIntercept);
    let refused = begin(stream, &mut last).unwrap_err();
    assert_eq!(refused, RegistrationEnd { status: NemoRelayStatus::InvalidArg, released: true });
    assert!(last.message_or("").starts_with("completion-based LLM stream middleware"));

    let callback = begin(mark, &mut last).unwrap();
    let taken = Err("taken".to_string());
    let end = register_native_callback(&mut context, &mut last, callback, taken);
    assert_ne!(end.status, NemoRelayStatus::Success);
    assert!(end.released);
    assert_eq!(context.registrations.len(), 1);
}

#[test]
fn user_data_is_released_on_refusal() {
    let mut last = LastError::new();
    let kind = Some(NativeAsyncMiddlewareKind::ToolSanitizeRequest);
    let refused = begin_async_middleware(&mut last, true, true, kind, None, 0, false, "", "acme")
        .unwrap_err();
    assert_eq!(refused, RegistrationEnd { status: NemoRelayStatus::NullPointer, released: true });
    assert_eq!(last.message_or(""), "plugin context is null");
    let refused = begin_async_stream_middleware(&mut last, false, true, None, 0).unwrap_err();
    assert_eq!(refused, RegistrationEnd { status: NemoRelayStatus::NullPointer, released: true });
    assert_eq!(last.message_or(""), "plugin context inner pointer is null");
    let broken = bytes(&[0xff]);
    let refused =
        begin_async_stream_middleware(&mut last, false, false, Some(&broken), 0).unwrap_err();
    assert_eq!(refused, RegistrationEnd { status: NemoRelayStatus::InvalidUtf8, released: true });
    let callback =
        begin_async_stream_middleware(&mut last, false, false, Some(&text("s")), 2).unwrap();
    assert_eq!(callback.surface, RegistrationSurface::LlmStreamExecutionIntercept);
    assert!(callback.data.armed);
    assert_eq!(callback.order, CallbackOrder { priority: Some(2), break_chain: None });
    let mut guard = UserDataGuard::new();
    guard.transfer();
    assert!(!guard.release());
    assert!(UserDataGuard::new().release());
}

#[test]
fn scope_arguments_are_read() {
    let mut last = LastError::new();
    let name = text("scope");
    let data = text("{\"a\":1}");
    let args = |data| ScopePushArguments {
        name: Some(&name),
        data,
        metadata: None,
        input: None,
        timestamp: None,
    };
    let push = read_scope_push(&mut last, false, args(Some(&data))).ok().unwrap();
    assert_eq!(push.name, "scope");
    assert!(push.data.is_some() && push.input.is_none());
    let broken = text("{");
    assert!(read_scope_push(&mut last, false, args(Some(&broken))).is_err());
    assert!(last.message_or("").starts_with("scope data is not valid JSON: "));
    assert!(read_scope_push(&mut last, true, args(None)).is_err());
    assert_eq!(last.message_or(""), "out scope handle pointer is null");
    assert_eq!(read_mark(&mut last, Some(&name), None, None, None).ok().unwrap().name, "scope");
    assert_eq!(
        require_pointer(&mut last, RequiredPointer::ScopeStack, true),
        NemoRelayStatus::NullPointer
    );
    assert_eq!(last.message_or(""), "scope stack is null");
}

#[test]
fn plugin_streams_finish_once() {
    let last = LastError::new();
    let mut stream = NativeRelayLlmStream::from_raw(32, 32, true, true, true).unwrap();
    let (item, _) = stream.take_answer(NemoRelayStatus::Success, &last, Some(&text("1")));
    assert!(matches!(item, Some(Ok(Json::Number(_)))));
    let (end, _) = stream.take_answer(NemoRelayStatus::StreamEnd, &last, None);
    assert!(end.is_none());
    assert!(stream.finished);
    assert_eq!(
        NativeRelayLlmStream::from_raw(8, 32, true, true, true).unwrap_err().message,
        "unsupported native LLM stream struct size: 8"
    );
    assert_eq!(
        NativeRelayLlmStream::from_raw(32, 32, false, true, true).unwrap_err().message,
        "native LLM stream next callback was null"
    );
}

#[test]
fn host_streams_are_polled() {
    let mut last = LastError::new();
    let mut stream = NativeHostLlmStream::new();
    assert!(stream.begin_poll(&mut last, false).unwrap());
    assert!(stream.end_poll(&mut last, HostPoll::Chunk(Json::Null)).is_ok());
    assert_eq!(
        stream.end_poll(&mut last, HostPoll::End).err().unwrap(),
        NemoRelayStatus::StreamEnd
    );
    assert_eq!(
        stream.begin_poll(&mut last, true).unwrap_err(),
        NemoRelayStatus::NullPointer
    );
    let error = FlowError::internal("x".to_string());
    assert_eq!(error.kind, FlowErrorKind::Internal);
}
