use relay_plugin::json::Json;
use relay_plugin::native::async_call::{
    begin_stream_call, end_stream_call, AsyncCall, AsyncCallAction, AsyncCallEvent, AsyncCallStage,
};
use relay_plugin::native::callbacks::{
    take_callback_json, take_callback_optional_json, take_next_call, NativeCallback, NativeNext,
};
use relay_plugin::native::codecs::take_codec_response;
use relay_plugin::native::completion::{AsyncCallbackAnswer, NativeAsyncCompletion, NextKind};
use relay_plugin::native::handoff::{invoke_next_result_parsed, NativeCallbackHandoff};
use relay_plugin::native::pull::open_llm_stream_parsed;
use relay_plugin::native::relay_stream::NativeRelayLlmStream;
use relay_plugin::native::scope::{take_mark, take_scope_pop, take_scope_push, ParsedScopePush};
use relay_plugin::native::status::{LastError, NemoRelayStatus};
use relay_plugin::native::stream::NativeAsyncStream;
use relay_plugin::native::strings::{
    given_time, native_string_from_str, parse_argument, parse_optional, take_json_arg,
    take_llm_request_arg, take_optional_json, take_returned_json, GivenTime, NativeString,
    ParsedArgument,
};

fn value() -> ParsedArgument {
    ParsedArgument::Value(Json::Bool(true))
}

fn unreadable() -> ParsedArgument {
    ParsedArgument::Unreadable("no text".to_string())
}

fn malformed() -> ParsedArgument {
    ParsedArgument::Malformed("no JSON".to_string())
}

fn is_true(value: &Json) -> bool {
    matches!(value, Json::Bool(true))
}

fn now() -> GivenTime {
    GivenTime { micros: Some(1), supported: true }
}

#[test]
fn strings_are_read_as_json() {
    assert!(matches!(
        parse_argument(Some(&native_string_from_str("true"))),
        ParsedArgument::Value(Json::Bool(true))
    ));
    assert!(matches!(
        parse_argument(Some(&native_string_from_str("tru"))),
        ParsedArgument::Malformed(_)
    ));
    let broken = NativeString { bytes: vec![0xff] };
    match parse_argument(Some(&broken)) {
        ParsedArgument::Unreadable(e) => {
            assert!(e.contains("native string is not valid UTF-8: "))
        }
        _ => panic!("read"),
    }
    assert!(parse_optional(None).is_none());
    assert!(matches!(
        parse_optional(Some(&native_string_from_str("true"))),
        Some(ParsedArgument::Value(Json::Bool(true)))
    ));
}

#[test]
fn json_arguments_are_reported() {
    let mut last = LastError::new();
    assert!(is_true(&take_json_arg(&mut last, value(), "arg", " is bad: ").ok().unwrap()));
    assert_eq!(
        take_json_arg(&mut last, unreadable(), "arg", " is bad: ").err().unwrap(),
        NemoRelayStatus::InvalidUtf8
    );
    assert_eq!(last.message_or(""), "no text");
    assert_eq!(
        take_json_arg(&mut last, malformed(), "arg", " is bad: ").err().unwrap(),
        NemoRelayStatus::InvalidJson
    );
    assert_eq!(last.message_or(""), "arg is bad: no JSON");
    assert!(take_optional_json(&mut last, None, "field").ok().unwrap().is_none());
    assert!(take_optional_json(&mut last, Some(value()), "field").ok().unwrap().is_some());
    assert!(take_optional_json(&mut last, Some(malformed()), "field").is_err());
    assert_eq!(last.message_or(""), "field is not valid JSON: no JSON");
    assert_eq!(
        take_llm_request_arg(&mut last, value(), "arg", Err("no model".to_string())).err().unwrap(),
        NemoRelayStatus::InvalidJson
    );
    assert_eq!(last.message_or(""), "arg was not an LLM request: no model");
}

#[test]
fn returned_json_is_taken() {
    let mut last = LastError::new();
    assert!(is_true(&take_returned_json(Some(value()), &last, "nothing").ok().unwrap()));
    assert_eq!(take_returned_json(None, &last, "nothing").err().unwrap().message, "nothing");
    assert_eq!(
        take_returned_json(Some(unreadable()), &last, "nothing").err().unwrap().message,
        "no text"
    );
    assert_eq!(
        take_returned_json(Some(malformed()), &last, "nothing").err().unwrap().message,
        "invalid JSON: no JSON"
    );
    last.set_text("set");
    assert_eq!(take_returned_json(None, &last, "nothing").err().unwrap().message, "set");
}

#[test]
fn callback_answers_are_taken() {
    let last = LastError::new();
    let ok = NemoRelayStatus::Success;
    let callback = NativeCallback::ToolExecution;
    assert!(is_true(&take_callback_json(callback, ok, &last, Some(value())).ok().unwrap()));
    assert!(take_callback_json(callback, NemoRelayStatus::Internal, &last, Some(value())).is_err());
    assert!(take_callback_optional_json(callback, ok, &last, None).ok().unwrap().is_none());
    assert!(take_callback_optional_json(callback, ok, &last, Some(value())).ok().unwrap().is_some());
    assert_eq!(
        take_callback_optional_json(callback, ok, &last, Some(malformed())).err().unwrap().message,
        "invalid JSON: no JSON"
    );
    assert!(is_true(&take_codec_response(value()).ok().unwrap()));
    assert_eq!(take_codec_response(unreadable()).err().unwrap(), "no text");
    assert_eq!(
        take_codec_response(malformed()).err().unwrap(),
        "invalid response JSON: no JSON"
    );
}

#[test]
fn next_calls_are_taken() {
    let mut last = LastError::new();
    assert!(take_next_call(&mut last, NativeNext::Tool, false, value(), Ok(())).is_ok());
    assert_eq!(
        take_next_call(&mut last, NativeNext::Tool, true, value(), Ok(())).err().unwrap(),
        NemoRelayStatus::NullPointer
    );
    assert_eq!(last.message_or(""), "native tool next received null pointer");
    assert!(take_next_call(&mut last, NativeNext::Tool, false, malformed(), Ok(())).is_err());
    assert_eq!(last.message_or(""), "native tool next args was invalid JSON: no JSON");
    assert!(take_next_call(&mut last, NativeNext::Llm, false, malformed(), Ok(())).is_err());
    assert_eq!(last.message_or(""), "native LLM next request was invalid JSON: no JSON");
}

#[test]
fn completions_take_parsed_results() {
    let mut last = LastError::new();
    let mut completion = NativeAsyncCompletion::new(None);
    assert_eq!(
        completion.resolve_parsed(&mut last, malformed()).0,
        NemoRelayStatus::InvalidJson
    );
    assert_eq!(
        last.message_or(""),
        "native async completion result was invalid JSON: no JSON"
    );
    let context = None;
    assert!(completion
        .invoke_next_parsed(&mut last, NextKind::Tool, value(), Ok(()), context, 3)
        .is_ok());
    let (status, tasks) = completion.resolve_parsed(&mut last, value());
    assert_eq!(status, NemoRelayStatus::Success);
    assert_eq!(tasks, [3]);
    assert_eq!(completion.resolve_parsed(&mut last, value()).0, NemoRelayStatus::InvalidArg);
    assert_eq!(
        invoke_next_result_parsed(
            &mut last,
            NextKind::Llm,
            value(),
            Err("no request".to_string()),
            None
        )
        .err()
        .unwrap(),
        NemoRelayStatus::InvalidJson
    );
    assert_eq!(last.message_or(""), "no request");
}

#[test]
fn streams_take_parsed_chunks() {
    let mut last = LastError::new();
    let mut stream = NativeAsyncStream::new();
    assert!(stream.begin_push_parsed(&mut last, value()).is_ok());
    assert_eq!(
        stream.begin_push_parsed(&mut last, unreadable()).err().unwrap(),
        NemoRelayStatus::InvalidUtf8
    );
    assert_eq!(
        stream
            .invoke_next_stream_parsed(&mut last, NextKind::Tool, value(), Ok(()), None, 1)
            .err()
            .unwrap(),
        NemoRelayStatus::InvalidArg
    );
    assert!(stream
        .invoke_next_stream_parsed(&mut last, NextKind::LlmStream, value(), Ok(()), None, 1)
        .is_ok());
    assert_eq!(stream.finish().1, [1]);
    assert!(stream.begin_push_parsed(&mut last, value()).is_err());
    assert!(open_llm_stream_parsed(&mut last, NextKind::LlmStream, value(), Ok(()), None).is_ok());
    assert!(open_llm_stream_parsed(&mut last, NextKind::Tool, value(), Ok(()), None).is_err());
    assert_eq!(last.message_or(""), "pull streams require an LLM stream continuation");
    let mut relay = NativeRelayLlmStream::from_raw(8, 8, true, false, true).ok().unwrap();
    let (item, told) =
        relay.take_parsed_answer(NemoRelayStatus::Success, &last, Some(value()));
    assert!(item.unwrap().is_ok());
    assert!(!told);
    let (item, told) =
        relay.take_parsed_answer(NemoRelayStatus::Success, &last, Some(malformed()));
    assert_eq!(item.unwrap().err().unwrap().message, "invalid JSON: no JSON");
    assert!(told);
}

#[test]
fn scope_arguments_are_taken_in_order() {
    let mut last = LastError::new();
    let name = native_string_from_str("scope");
    let args = |data: Option<ParsedArgument>, time: GivenTime| ParsedScopePush {
        name: Some(&name),
        data,
        metadata: None,
        input: Some(value()),
        time,
    };
    let push = take_scope_push(&mut last, false, args(Some(value()), now())).ok().unwrap();
    assert_eq!(push.name, "scope");
    assert!(push.data.is_some() && push.metadata.is_none() && push.input.is_some());
    assert_eq!(push.timestamp, Some(1));
    let late = GivenTime { micros: Some(1), supported: false };
    assert!(take_scope_push(&mut last, false, args(Some(malformed()), late)).is_err());
    assert_eq!(last.message_or(""), "scope data is not valid JSON: no JSON");
    assert_eq!(
        take_scope_push(&mut last, false, args(None, late)).err().unwrap(),
        NemoRelayStatus::InvalidArg
    );
    assert_eq!(
        last.message_or(""),
        "timestamp unix microseconds are outside supported range"
    );
    assert!(take_scope_pop(&mut last, true, None, None, now()).is_err());
    assert_eq!(last.message_or(""), "scope handle is null");
    assert!(take_scope_pop(&mut last, false, Some(value()), None, now()).ok().unwrap().output.is_some());
    assert_eq!(
        take_mark(&mut last, Some(&name), None, Some(value()), now()).ok().unwrap().name,
        "scope"
    );
    assert!(take_mark(&mut last, Some(&name), None, Some(unreadable()), now()).is_err());
    assert_eq!(last.message_or(""), "no text");
    assert!(given_time(Some(0)).supported);
    assert!(!given_time(Some(i64::MAX)).supported);
}

#[test]
fn async_calls_end_with_their_completion() {
    let mut last = LastError::new();
    let call = AsyncCall::begin(true, Ok(()), None).ok().unwrap();
    let (mut call, action) =
        call.take(AsyncCallEvent::Answered(AsyncCallbackAnswer::Pending));
    assert!(matches!(action, AsyncCallAction::Wait));
    assert_eq!(call.completion.resolve_parsed(&mut last, value()).0, NemoRelayStatus::Success);
    let (call, action) = call.take(AsyncCallEvent::Ended);
    match action {
        AsyncCallAction::Finish(tasks, result) => {
            assert!(tasks.is_empty());
            assert!(is_true(&result.ok().unwrap()));
        }
        _ => panic!("the call goes on"),
    }
    let (call, action) = call.take(AsyncCallEvent::GivenUp);
    assert!(matches!(action, AsyncCallAction::Ignore));
    assert_eq!(call.stage, AsyncCallStage::Over);
}

#[test]
fn failed_and_abandoned_async_calls_abort_their_tasks() {
    let mut last = LastError::new();
    let refused = AsyncCall::begin(true, Err("none".to_string()), None).err().unwrap();
    assert_eq!(refused.message, "native async intercept requires a Tokio runtime: none");
    assert!(AsyncCall::begin(false, Err("none".to_string()), None).is_ok());

    let mut call = AsyncCall::begin(true, Ok(()), None).ok().unwrap();
    let started =
        call.completion.start_next_result(&mut last, NextKind::Tool, value(), Ok(()), None, 4);
    assert!(started.is_ok());
    let (mut call, action) =
        call.take(AsyncCallEvent::Answered(AsyncCallbackAnswer::Complete));
    match action {
        AsyncCallAction::Finish(tasks, result) => {
            assert_eq!(tasks, [4]);
            assert_eq!(
                result.err().unwrap().message,
                "native async callback returned Complete without settling"
            );
        }
        _ => panic!("the call goes on"),
    }
    assert!(call.completion.is_cancelled());
    let late =
        call.completion.start_next_result(&mut last, NextKind::Tool, value(), Ok(()), None, 5);
    assert_eq!(late.err().unwrap(), NemoRelayStatus::InvalidArg);

    let mut call = AsyncCall::begin(true, Ok(()), None).ok().unwrap();
    let opened =
        call.completion.start_llm_stream(&mut last, NextKind::LlmStream, value(), Ok(()), None, 6);
    assert!(opened.is_ok());
    let (_, action) = call.take(AsyncCallEvent::GivenUp);
    match action {
        AsyncCallAction::Abandon(tasks) => assert_eq!(tasks, [6]),
        _ => panic!("the call goes on"),
    }
}

#[test]
fn stream_calls_are_cancelled_where_they_fail() {
    let mut last = LastError::new();
    assert!(begin_stream_call(Err("none".to_string())).is_err());
    let mut stream = begin_stream_call(Ok(())).ok().unwrap();
    assert!(end_stream_call(&mut stream, AsyncCallbackAnswer::Pending).is_ok());
    assert!(!stream.is_cancelled());
    let started =
        stream.start_next_result(&mut last, NextKind::Llm, value(), Ok(()), None, 8);
    assert!(started.is_ok());
    let (error, tasks) =
        end_stream_call(&mut stream, AsyncCallbackAnswer::Complete).err().unwrap();
    assert_eq!(
        error.message,
        "native async stream callback returned Complete without finishing"
    );
    assert_eq!(tasks, [8]);
    assert!(stream.is_cancelled());
    assert!(stream
        .start_llm_stream(&mut last, NextKind::LlmStream, value(), Ok(()), None, 9)
        .is_err());
}

#[test]
fn started_tasks_report_once() {
    let (handoff, back) = NativeCallbackHandoff::new(1u8).decide(true);
    assert!(back.is_none());
    assert_eq!(handoff.drop_task().1, Some(1));
    let (handoff, back) = NativeCallbackHandoff::new(2u8).decide(false);
    assert_eq!(back, Some(2));
    assert!(handoff.drop_task().1.is_none());
}
