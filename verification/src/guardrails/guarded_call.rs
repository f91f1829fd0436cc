//! Calls that rails guard: what happens around an LLM request or a tool call, in order.
//!
//! The backend has the rails run, decodes and encodes requests and makes the call; each
//! outcome moves the guard on to its next stage, which says what is done next.

use vstd::prelude::*;

use crate::guardrails::local::{
    after_input_check, after_output_check, guards_stream, input_check_problem, message_json,
    messages_from_annotated, messages_problem, output_check_messages, output_check_problem,
    probe_problem, read_streaming_probe, require_codec, with_last_content, AnnotatedMessage,
    LocalCheckOutcome,
};
use crate::guardrails::stream_text::LocalGuardrailsCodec;
use crate::json::{array_view, bool_of, field, json_view, Json};
use crate::native::status::{internal, FlowError, FlowErrorView};

verus! {

/// What a tool gave.
pub struct ToolExecutionResult {
    /// Result of the tool.
    pub result: Json,
    /// Annotation of the result.
    pub annotation: Option<Json>,
}

/// How far a guarded tool call is.
pub enum ToolGuardStage {
    /// The rails check the arguments.
    Input(Json),
    /// The tool is called with the arguments.
    Call(Json),
    /// The rails check what the tool gave for the arguments.
    Output(Json, ToolExecutionResult),
    /// The call is over.
    Over(Result<ToolExecutionResult, FlowError>),
}

/// Something that happens during a guarded tool call.
pub enum ToolGuardEvent {
    /// The arguments that the rails let pass, or why they let none.
    InputChecked(Result<Json, FlowError>),
    /// What the tool gave.
    Called(Result<ToolExecutionResult, FlowError>),
    /// The result that the rails let pass, or why they let none.
    OutputChecked(Result<Json, FlowError>),
}

/// A guarded tool call.
pub struct ToolGuard {
    /// Whether rails check the result.
    pub check_output: bool,
    /// How far the call is.
    pub stage: ToolGuardStage,
}

/// Where an event leads a tool call to. An event that nobody waits for changes nothing.
pub open spec fn tool_next(
    check_output: bool,
    stage: ToolGuardStage,
    event: ToolGuardEvent,
) -> ToolGuardStage {
    match (stage, event) {
        (ToolGuardStage::Input(_), ToolGuardEvent::InputChecked(checked)) => match checked {
            Ok(args) => ToolGuardStage::Call(args),
            Err(e) => ToolGuardStage::Over(Err(e)),
        },
        (ToolGuardStage::Call(args), ToolGuardEvent::Called(called)) => match called {
            Ok(result) => if check_output {
                ToolGuardStage::Output(args, result)
            } else {
                ToolGuardStage::Over(Ok(result))
            },
            Err(e) => ToolGuardStage::Over(Err(e)),
        },
        (ToolGuardStage::Output(_, given), ToolGuardEvent::OutputChecked(checked)) => match checked {
            Ok(result) => ToolGuardStage::Over(Ok(ToolExecutionResult { result, ..given })),
            Err(e) => ToolGuardStage::Over(Err(e)),
        },
        (stage, _) => stage,
    }
}

impl ToolGuard {
    /// Begins a tool call with arguments.
    pub fn begin(check_input: bool, check_output: bool, args: Json) -> (r: Self)
        ensures
            r.check_output == check_output,
            r.stage == if check_input {
                ToolGuardStage::Input(args)
            } else {
                ToolGuardStage::Call(args)
            },
    {
        let stage = if check_input {
            ToolGuardStage::Input(args)
        } else {
            ToolGuardStage::Call(args)
        };
        ToolGuard { check_output, stage }
    }

    /// Takes what happened, and goes on to what is done next.
    pub fn take(self, event: ToolGuardEvent) -> (r: Self)
        ensures
            r.check_output == self.check_output,
            r.stage == tool_next(self.check_output, self.stage, event),
    {
        let ToolGuard { check_output, stage } = self;
        let stage = match (stage, event) {
            (ToolGuardStage::Input(_), ToolGuardEvent::InputChecked(checked)) => match checked {
                Ok(args) => ToolGuardStage::Call(args),
                Err(e) => ToolGuardStage::Over(Err(e)),
            },
            (ToolGuardStage::Call(args), ToolGuardEvent::Called(called)) => match called {
                Ok(result) => if check_output {
                    ToolGuardStage::Output(args, result)
                } else {
                    ToolGuardStage::Over(Ok(result))
                },
                Err(e) => ToolGuardStage::Over(Err(e)),
            },
            (ToolGuardStage::Output(_, given), ToolGuardEvent::OutputChecked(checked)) => {
                match checked {
                    Ok(result) => ToolGuardStage::Over(
                        Ok(ToolExecutionResult { result, annotation: given.annotation }),
                    ),
                    Err(e) => ToolGuardStage::Over(Err(e)),
                }
            },
            (stage, _) => stage,
        };
        ToolGuard { check_output, stage }
    }
}

/// A tool whose arguments are checked is called only with arguments that the rails let pass.
pub proof fn law_tools_get_checked_arguments(
    check_output: bool,
    stage: ToolGuardStage,
    event: ToolGuardEvent,
    args: Json,
)
    requires
        stage is Input,
        tool_next(check_output, stage, event) == ToolGuardStage::Call(args),
    ensures
        event == ToolGuardEvent::InputChecked(Ok(args)),
{
}

/// Where results are checked, a call gives only a result that the rails let pass, with the
/// annotation that the tool gave.
pub proof fn law_unchecked_results_are_withheld(
    stage: ToolGuardStage,
    event: ToolGuardEvent,
    given: ToolExecutionResult,
)
    requires
        !(stage is Over),
        tool_next(true, stage, event) == ToolGuardStage::Over(Ok(given)),
    ensures
        event == ToolGuardEvent::OutputChecked(Ok(given.result)),
        stage matches ToolGuardStage::Output(_, tool) && given.annotation == tool.annotation,
{
}

/// How far a guarded LLM request is.
pub enum LlmGuardStage {
    /// The messages of the request are decoded.
    Decode(Json),
    /// The rails check the messages of a request, which are also given as they are sent.
    Input(Json, Vec<AnnotatedMessage>, Vec<Json>),
    /// A request gets other messages.
    Encode(Json, Vec<AnnotatedMessage>),
    /// The provider is called with a request, whose messages are given as they are sent.
    Call(Json, Vec<Json>),
    /// The text of the provider's response to messages is read.
    Respond(Vec<Json>, Json),
    /// The rails check messages that end with the text of a response.
    Output(Vec<Json>, Json),
    /// The worker is asked whether output rails run on streams, for a stream that answers
    /// messages.
    Probe(Vec<Json>),
    /// The worker is asked to make sure that output rails can run on such a stream.
    Support(Vec<Json>),
    /// The provider's stream is handed on with the output rails watching it.
    Watch(Vec<Json>),
    /// The provider's stream is handed on as it is.
    Pass,
    /// The call is over.
    Over(Result<Json, FlowError>),
}

/// Something that happens during a guarded LLM request.
pub enum LlmGuardEvent {
    /// The messages of the request, and what they serialize to.
    Decoded(Result<Vec<AnnotatedMessage>, FlowError>, Result<Json, String>),
    /// What the input rails came to.
    InputChecked(Result<LocalCheckOutcome, FlowError>),
    /// The request with other messages, and what these serialize to.
    Encoded(Result<Json, FlowError>, Result<Json, String>),
    /// What the provider responded.
    Called(Result<Json, FlowError>),
    /// The text of the response, where it has one.
    Text(Result<Option<String>, FlowError>),
    /// What the output rails came to.
    OutputChecked(Result<LocalCheckOutcome, FlowError>),
    /// Whether the provider opened its stream.
    Opened(Result<(), FlowError>),
    /// The answer to whether output rails run on streams.
    Probed(Result<Json, FlowError>),
    /// The answer to whether output rails can run on the stream.
    Supported(Result<Json, FlowError>),
}

/// A guarded LLM request.
pub struct LlmGuard {
    /// Whether the response is a stream.
    pub streamed: bool,
    /// Whether input rails run.
    pub input: bool,
    /// Whether output rails run.
    pub output: bool,
    /// How far the request is.
    pub stage: LlmGuardStage,
}

/// Whether a request waits for an event.
pub open spec fn llm_awaits(guard: LlmGuard, event: LlmGuardEvent) -> bool {
    match event {
        LlmGuardEvent::Decoded(_, _) => guard.stage is Decode,
        LlmGuardEvent::InputChecked(_) => guard.stage is Input,
        LlmGuardEvent::Encoded(_, _) => guard.stage is Encode,
        LlmGuardEvent::Called(_) => guard.stage is Call && !guard.streamed,
        LlmGuardEvent::Text(_) => guard.stage is Respond,
        LlmGuardEvent::OutputChecked(_) => guard.stage is Output,
        LlmGuardEvent::Opened(_) => guard.stage is Call && guard.streamed,
        LlmGuardEvent::Probed(_) => guard.stage is Probe,
        LlmGuardEvent::Supported(_) => guard.stage is Support,
    }
}

/// The error that an event itself brings.
pub open spec fn event_error(event: LlmGuardEvent) -> Option<FlowError> {
    match event {
        LlmGuardEvent::Decoded(Err(e), _) => Some(e),
        LlmGuardEvent::InputChecked(Err(e)) => Some(e),
        LlmGuardEvent::Encoded(Err(e), _) => Some(e),
        LlmGuardEvent::Called(Err(e)) => Some(e),
        LlmGuardEvent::Text(Err(e)) => Some(e),
        LlmGuardEvent::OutputChecked(Err(e)) => Some(e),
        LlmGuardEvent::Opened(Err(e)) => Some(e),
        LlmGuardEvent::Probed(Err(e)) => Some(e),
        LlmGuardEvent::Supported(Err(e)) => Some(e),
        _ => None,
    }
}

/// The error that the guard makes of an event without an error of its own.
pub open spec fn guard_problem(guard: LlmGuard, event: LlmGuardEvent) -> Option<FlowErrorView> {
    match event {
        LlmGuardEvent::Decoded(_, serialized) => messages_problem(serialized),
        LlmGuardEvent::InputChecked(checked) => input_check_problem(
            checked->Ok_0,
            guard.stage->Input_1@,
        ),
        LlmGuardEvent::Encoded(_, serialized) => messages_problem(serialized),
        LlmGuardEvent::OutputChecked(checked) => output_check_problem(checked->Ok_0),
        LlmGuardEvent::Probed(answer) => probe_problem(json_view(answer->Ok_0)),
        _ => None,
    }
}

/// The messages that a serialized form holds.
pub open spec fn sent_messages(serialized: Result<Json, String>) -> Vec<Json> {
    serialized->Ok_0->Array_0
}

/// Where an event without any error leads a request to.
pub open spec fn llm_advances(guard: LlmGuard, event: LlmGuardEvent, stage: LlmGuardStage) -> bool {
    match event {
        LlmGuardEvent::Decoded(decoded, serialized) => {
            let request = guard.stage->Decode_0;
            if guard.input {
                stage == LlmGuardStage::Input(request, decoded->Ok_0, sent_messages(serialized))
            } else {
                stage == LlmGuardStage::Call(request, sent_messages(serialized))
            }
        },
        LlmGuardEvent::InputChecked(checked) => match checked->Ok_0 {
            LocalCheckOutcome::Modified { content } => {
                &&& stage matches LlmGuardStage::Encode(request, annotated)
                &&& request == guard.stage->Input_0
                &&& annotated@ == with_last_content(guard.stage->Input_1@, "user"@, content)
            },
            _ => stage == LlmGuardStage::Call(guard.stage->Input_0, guard.stage->Input_2),
        },
        LlmGuardEvent::Encoded(encoded, serialized) => stage == LlmGuardStage::Call(
            encoded->Ok_0,
            sent_messages(serialized),
        ),
        LlmGuardEvent::Called(called) => if guard.output {
            stage == LlmGuardStage::Respond(guard.stage->Call_1, called->Ok_0)
        } else {
            stage == LlmGuardStage::Over(called)
        },
        LlmGuardEvent::Text(text) => match text->Ok_0 {
            None => stage == LlmGuardStage::Over(Ok(guard.stage->Respond_1)),
            Some(text) => {
                &&& stage matches LlmGuardStage::Output(messages, response)
                &&& response == guard.stage->Respond_1
                &&& array_view(messages@) == array_view(guard.stage->Respond_0@).push(
                    message_json("assistant"@, text@),
                )
            },
        },
        LlmGuardEvent::OutputChecked(_) => stage == LlmGuardStage::Over(
            Ok(guard.stage->Output_1),
        ),
        LlmGuardEvent::Opened(_) => if guard.output {
            stage == LlmGuardStage::Probe(guard.stage->Call_1)
        } else {
            stage is Pass
        },
        LlmGuardEvent::Probed(answer) => if bool_of(
            field(json_view(answer->Ok_0), "enabled"@),
        ) == Some(true) {
            stage == LlmGuardStage::Support(guard.stage->Probe_0)
        } else {
            stage is Pass
        },
        LlmGuardEvent::Supported(_) => stage == LlmGuardStage::Watch(guard.stage->Support_0),
    }
}

/// Where an event leads a request to. An event that nobody waits for changes nothing.
pub open spec fn llm_moves(guard: LlmGuard, event: LlmGuardEvent, stage: LlmGuardStage) -> bool {
    if !llm_awaits(guard, event) {
        stage == guard.stage
    } else {
        match event_error(event) {
            Some(e) => stage == LlmGuardStage::Over(Err(e)),
            None => match guard_problem(guard, event) {
                Some(e) => stage matches LlmGuardStage::Over(Err(given)) && given@ == e,
                None => llm_advances(guard, event, stage),
            },
        }
    }
}

/// Ends a request with an error.
fn failed(error: FlowError) -> (r: LlmGuardStage)
    ensures
        r == LlmGuardStage::Over(Err(error)),
{
    LlmGuardStage::Over(Err(error))
}

/// Takes what the input rails came to.
fn take_input_check(
    request: Json,
    annotated: Vec<AnnotatedMessage>,
    messages: Vec<Json>,
    outcome: LocalCheckOutcome,
) -> (r: LlmGuardStage)
    ensures
        match input_check_problem(outcome, annotated@) {
            Some(e) => r matches LlmGuardStage::Over(Err(given)) && given@ == e,
            None => match outcome {
                LocalCheckOutcome::Modified { content } => {
                    &&& r matches LlmGuardStage::Encode(kept, changed)
                    &&& kept == request
                    &&& changed@ == with_last_content(annotated@, "user"@, content)
                },
                _ => r == LlmGuardStage::Call(request, messages),
            },
        },
{
    let mut annotated = annotated;
    match after_input_check(outcome, &mut annotated) {
        Err(e) => failed(e),
        Ok(true) => LlmGuardStage::Encode(request, annotated),
        Ok(false) => LlmGuardStage::Call(request, messages),
    }
}

/// Takes a request's messages as they are sent, where they can be.
fn take_messages(serialized: Result<Json, String>) -> (r: Result<Vec<Json>, LlmGuardStage>)
    ensures
        match messages_problem(serialized) {
            Some(e) => r matches Err(stage) && (stage matches LlmGuardStage::Over(Err(given))
                && given@ == e),
            None => r == Ok::<Vec<Json>, LlmGuardStage>(sent_messages(serialized)),
        },
{
    match messages_from_annotated(serialized) {
        Ok(messages) => Ok(messages),
        Err(e) => Err(failed(e)),
    }
}

/// Takes what the output rails came to.
fn take_output_check(response: Json, outcome: LocalCheckOutcome) -> (r: LlmGuardStage)
    ensures
        match output_check_problem(outcome) {
            Some(e) => r matches LlmGuardStage::Over(Err(given)) && given@ == e,
            None => r == LlmGuardStage::Over(Ok(response)),
        },
{
    match after_output_check(outcome) {
        Err(e) => failed(e),
        Ok(()) => LlmGuardStage::Over(Ok(response)),
    }
}

/// Takes the answer to whether output rails run on streams.
fn take_probe(messages: Vec<Json>, answer: &Json) -> (r: LlmGuardStage)
    ensures
        match probe_problem(json_view(*answer)) {
            Some(e) => r matches LlmGuardStage::Over(Err(given)) && given@ == e,
            None => if bool_of(field(json_view(*answer), "enabled"@)) == Some(true) {
                r == LlmGuardStage::Support(messages)
            } else {
                r is Pass
            },
        },
{
    match read_streaming_probe(answer) {
        Err(e) => failed(e),
        Ok(enabled) => if guards_stream(true, enabled) {
            LlmGuardStage::Support(messages)
        } else {
            LlmGuardStage::Pass
        },
    }
}

impl LlmGuard {
    /// Begins a request. Without a codec its messages cannot be read.
    pub fn begin(
        codec: Option<LocalGuardrailsCodec>,
        streamed: bool,
        input: bool,
        output: bool,
        request: Json,
    ) -> (r: Self)
        ensures
            r.streamed == streamed,
            r.input == input,
            r.output == output,
            codec is Some ==> r.stage == LlmGuardStage::Decode(request),
            codec is None ==> (r.stage matches LlmGuardStage::Over(Err(e)) && Some(e@) == internal(
                "local NeMo Guardrails backend requires a supported codec"@,
            )),
    {
        let stage = match require_codec(codec) {
            Ok(_) => LlmGuardStage::Decode(request),
            Err(e) => failed(e),
        };
        LlmGuard { streamed, input, output, stage }
    }

    /// Takes what happened, and goes on to what is done next.
    pub fn take(self, event: LlmGuardEvent) -> (r: Self)
        ensures
            r.streamed == self.streamed,
            r.input == self.input,
            r.output == self.output,
            llm_moves(self, event, r.stage),
    {
        let LlmGuard { streamed, input, output, stage } = self;
        let stage = match (stage, event) {
            (LlmGuardStage::Decode(request), LlmGuardEvent::Decoded(decoded, serialized)) => {
                match decoded {
                    Err(e) => failed(e),
                    Ok(annotated) => match take_messages(serialized) {
                        Err(stage) => stage,
                        Ok(messages) => if input {
                            LlmGuardStage::Input(request, annotated, messages)
                        } else {
                            LlmGuardStage::Call(request, messages)
                        },
                    },
                }
            },
            (
                LlmGuardStage::Input(request, annotated, messages),
                LlmGuardEvent::InputChecked(checked),
            ) => match checked {
                Err(e) => failed(e),
                Ok(outcome) => take_input_check(request, annotated, messages, outcome),
            },
            (LlmGuardStage::Encode(_, _), LlmGuardEvent::Encoded(encoded, serialized)) => {
                match encoded {
                    Err(e) => failed(e),
                    Ok(request) => match take_messages(serialized) {
                        Err(stage) => stage,
                        Ok(messages) => LlmGuardStage::Call(request, messages),
                    },
                }
            },
            (LlmGuardStage::Call(request, messages), LlmGuardEvent::Called(called)) => {
                if streamed {
                    LlmGuardStage::Call(request, messages)
                } else {
                    match called {
                        Err(e) => failed(e),
                        Ok(response) => if output {
                            LlmGuardStage::Respond(messages, response)
                        } else {
                            LlmGuardStage::Over(Ok(response))
                        },
                    }
                }
            },
            (LlmGuardStage::Respond(messages, response), LlmGuardEvent::Text(text)) => match text {
                Err(e) => failed(e),
                Ok(None) => LlmGuardStage::Over(Ok(response)),
                Ok(Some(text)) => {
                    let asked = output_check_messages(&messages, text.as_str());
                    LlmGuardStage::Output(asked, response)
                },
            },
            (LlmGuardStage::Output(_, response), LlmGuardEvent::OutputChecked(checked)) => {
                match checked {
                    Err(e) => failed(e),
                    Ok(outcome) => take_output_check(response, outcome),
                }
            },
            (LlmGuardStage::Call(request, messages), LlmGuardEvent::Opened(opened)) => {
                if !streamed {
                    LlmGuardStage::Call(request, messages)
                } else {
                    match opened {
                        Err(e) => failed(e),
                        Ok(()) => if output {
                            LlmGuardStage::Probe(messages)
                        } else {
                            LlmGuardStage::Pass
                        },
                    }
                }
            },
            (LlmGuardStage::Probe(messages), LlmGuardEvent::Probed(answer)) => match answer {
                Err(e) => failed(e),
                Ok(answer) => take_probe(messages, &answer),
            },
            (LlmGuardStage::Support(messages), LlmGuardEvent::Supported(answer)) => match answer {
                Err(e) => failed(e),
                Ok(_) => LlmGuardStage::Watch(messages),
            },
            (stage, _) => stage,
        };
        LlmGuard { streamed, input, output, stage }
    }
}

/// A request whose input is checked reaches the provider only after the rails let it pass, or
/// with the content that they put in its place.
pub proof fn law_blocked_requests_are_not_sent(
    guard: LlmGuard,
    event: LlmGuardEvent,
    stage: LlmGuardStage,
)
    requires
        guard.input,
        !(guard.stage is Call),
        llm_moves(guard, event, stage),
        stage is Call,
    ensures
        event == LlmGuardEvent::InputChecked(Ok(LocalCheckOutcome::Passed)) || (
        guard.stage is Encode && event is Encoded),
{
}

/// Where output rails run, a response that was not streamed is delivered only if it has no text
/// or the rails let it pass; it is the provider's response, unchanged.
pub proof fn law_blocked_responses_are_withheld(
    guard: LlmGuard,
    event: LlmGuardEvent,
    response: Json,
)
    requires
        guard.output,
        !(guard.stage is Over),
        llm_moves(guard, event, LlmGuardStage::Over(Ok(response))),
    ensures
        (guard.stage is Respond && event == LlmGuardEvent::Text(Ok(None)) && response
            == guard.stage->Respond_1) || (guard.stage is Output && event
            == LlmGuardEvent::OutputChecked(Ok(LocalCheckOutcome::Passed)) && response
            == guard.stage->Output_1),
{
}

/// A provider's stream is handed on unwatched only where no output rails run, or the worker
/// answered that they do not run on streams.
pub proof fn law_streams_pass_only_without_rails(
    guard: LlmGuard,
    event: LlmGuardEvent,
    stage: LlmGuardStage,
)
    requires
        !(guard.stage is Pass),
        llm_moves(guard, event, stage),
        stage is Pass,
    ensures
        guard.streamed && !guard.output && event is Opened || (event matches LlmGuardEvent::Probed(
            Ok(answer),
        ) && bool_of(field(json_view(answer), "enabled"@)) == Some(false)),
{
}

/// A guarded tool call, step by step: checked arguments go to the tool, its result is checked where
/// asked and given with the tool's annotation, and every failure ends the call. Anything else leaves
/// it where it is.
pub proof fn law_tool_calls_go_step_by_step(
    check_output: bool,
    args: Json,
    checked: Json,
    result: ToolExecutionResult,
    e: FlowError,
    over: Result<ToolExecutionResult, FlowError>,
    event: ToolGuardEvent,
)
    ensures
        tool_next(
            check_output,
            ToolGuardStage::Input(args),
            ToolGuardEvent::InputChecked(Ok(checked)),
        ) == ToolGuardStage::Call(checked),
        tool_next(
            check_output,
            ToolGuardStage::Input(args),
            ToolGuardEvent::InputChecked(Err(e)),
        ) == ToolGuardStage::Over(Err(e)),
        tool_next(true, ToolGuardStage::Call(args), ToolGuardEvent::Called(Ok(result)))
            == ToolGuardStage::Output(args, result),
        tool_next(false, ToolGuardStage::Call(args), ToolGuardEvent::Called(Ok(result)))
            == ToolGuardStage::Over(Ok(result)),
        tool_next(check_output, ToolGuardStage::Call(args), ToolGuardEvent::Called(Err(e)))
            == ToolGuardStage::Over(Err(e)),
        tool_next(
            check_output,
            ToolGuardStage::Output(args, result),
            ToolGuardEvent::OutputChecked(Ok(checked)),
        ) == ToolGuardStage::Over(
            Ok(ToolExecutionResult { result: checked, annotation: result.annotation }),
        ),
        tool_next(
            check_output,
            ToolGuardStage::Output(args, result),
            ToolGuardEvent::OutputChecked(Err(e)),
        ) == ToolGuardStage::Over(Err(e)),
        tool_next(check_output, ToolGuardStage::Over(over), event) == ToolGuardStage::Over(over),
{
}

/// A guarded LLM request moves on only with the event that its stage waits for, and a failure ends
/// it.
pub proof fn law_llm_guards_wait_for_their_event(
    guard: LlmGuard,
    event: LlmGuardEvent,
    stage: LlmGuardStage,
)
    requires
        llm_moves(guard, event, stage),
    ensures
        guard.stage is Over || guard.stage is Pass || guard.stage is Watch ==> stage == guard.stage,
        guard.stage is Decode && !(event is Decoded) ==> stage == guard.stage,
        guard.stage is Input && !(event is InputChecked) ==> stage == guard.stage,
        guard.stage is Encode && !(event is Encoded) ==> stage == guard.stage,
        guard.stage is Call && guard.streamed && !(event is Opened) ==> stage == guard.stage,
        guard.stage is Call && !guard.streamed && !(event is Called) ==> stage == guard.stage,
        guard.stage is Respond && !(event is Text) ==> stage == guard.stage,
        guard.stage is Output && !(event is OutputChecked) ==> stage == guard.stage,
        guard.stage is Probe && !(event is Probed) ==> stage == guard.stage,
        guard.stage is Support && !(event is Supported) ==> stage == guard.stage,
        guard.stage is Decode && (event matches LlmGuardEvent::Decoded(decoded, _) && decoded is Err)
            ==> stage == LlmGuardStage::Over(Err(event->Decoded_0->Err_0)),
        guard.stage is Input && (event matches LlmGuardEvent::InputChecked(checked) && checked
            is Err) ==> stage == LlmGuardStage::Over(Err(event->InputChecked_0->Err_0)),
        guard.stage is Call && !guard.streamed && (event matches LlmGuardEvent::Called(called)
            && called is Err) ==> stage == LlmGuardStage::Over(Err(event->Called_0->Err_0)),
        guard.stage is Output && (event matches LlmGuardEvent::OutputChecked(checked) && checked
            is Err) ==> stage == LlmGuardStage::Over(Err(event->OutputChecked_0->Err_0)),
{
}

/// Where nothing fails, a request is decoded, its input checked where asked, sent as it is or as the
/// rails changed it, and its response checked where asked.
pub proof fn law_llm_requests_go_step_by_step(
    guard: LlmGuard,
    event: LlmGuardEvent,
    stage: LlmGuardStage,
)
    requires
        llm_moves(guard, event, stage),
    ensures
        guard.stage is Decode && (event matches LlmGuardEvent::Decoded(Ok(_), Ok(Json::Array(_))))
            ==> (if guard.input {
            stage == LlmGuardStage::Input(
                guard.stage->Decode_0,
                event->Decoded_0->Ok_0,
                event->Decoded_1->Ok_0->Array_0,
            )
        } else {
            stage == LlmGuardStage::Call(
                guard.stage->Decode_0,
                event->Decoded_1->Ok_0->Array_0,
            )
        }),
        guard.stage is Input && event == LlmGuardEvent::InputChecked(Ok(LocalCheckOutcome::Passed))
            ==> stage == LlmGuardStage::Call(guard.stage->Input_0, guard.stage->Input_2),
        guard.stage is Input && (event matches LlmGuardEvent::InputChecked(Ok(outcome)) && outcome
            is Blocked) ==> stage is Over && stage->Over_0 is Err,
        guard.stage is Encode && (event matches LlmGuardEvent::Encoded(Ok(_), Ok(Json::Array(_))))
            ==> stage == LlmGuardStage::Call(
            event->Encoded_0->Ok_0,
            event->Encoded_1->Ok_0->Array_0,
        ),
        guard.stage is Call && !guard.streamed && (event matches LlmGuardEvent::Called(Ok(_)))
            ==> stage == (if guard.output {
            LlmGuardStage::Respond(guard.stage->Call_1, event->Called_0->Ok_0)
        } else {
            LlmGuardStage::Over(Ok(event->Called_0->Ok_0))
        }),
        guard.stage is Respond && (event matches LlmGuardEvent::Text(Ok(Some(_)))) ==> stage is Output
            && stage->Output_1 == guard.stage->Respond_1,
        guard.stage is Respond && event == LlmGuardEvent::Text(Ok(None)) ==> stage
            == LlmGuardStage::Over(Ok(guard.stage->Respond_1)),
        guard.stage is Output && event == LlmGuardEvent::OutputChecked(
            Ok(LocalCheckOutcome::Passed),
        ) ==> stage == LlmGuardStage::Over(Ok(guard.stage->Output_1)),
        guard.stage is Call && guard.streamed && (event matches LlmGuardEvent::Opened(Ok(_)))
            ==> stage == (if guard.output {
            LlmGuardStage::Probe(guard.stage->Call_1)
        } else {
            LlmGuardStage::Pass
        }),
        guard.stage is Probe && (event matches LlmGuardEvent::Probed(Ok(answer)) && bool_of(
            field(json_view(answer), "enabled"@),
        ) == Some(true)) ==> stage == LlmGuardStage::Support(guard.stage->Probe_0),
        guard.stage is Support && (event matches LlmGuardEvent::Supported(Ok(_))) ==> stage
            == LlmGuardStage::Watch(guard.stage->Support_0),
{
}

} // verus!
