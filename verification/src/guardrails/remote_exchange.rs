//! One exchange with the remote service: what is sent, and what its answer leads to.

use vstd::prelude::*;

use crate::guardrails::remote::{
    check_body, request_context, status_note, succeeded, AccessNote, AccessState, MarkSubject,
    OutcomeView, RemoteBackendRuntime, RemoteMark, RemoteOutcome,
};
use crate::guardrails::remote_options::RemoteCheckKind;
use crate::guardrails::remote_verdict::{blocking_rail, remote_check_verdict, verdict};
use crate::json::{array_view, json_view, object_view, Json, JsonView};
use crate::native::completion::result_view;
use crate::native::status::{FlowError, FlowErrorView};

verus! {

/// What became of a request to the service.
pub enum HttpAnswer {
    /// It could not be sent, with the reason.
    Unsent(String),
    /// It was answered with a status, and a body or the error of reading it.
    Answered(u16, Result<String, String>),
}

/// What an exchange leads to.
pub struct ExchangeEnd {
    /// What is new about the access to the service.
    pub note: Option<AccessNote>,
    /// The mark about the answer, and its result.
    pub outcome: RemoteOutcome,
}

/// What the check of a tool call leads to.
pub struct CheckEnd {
    /// What is new about the access to the service.
    pub note: Option<AccessNote>,
    /// The mark about the answer.
    pub mark: RemoteMark,
    /// What the tool call goes on with.
    pub result: Result<Json, FlowError>,
}

/// What is known of the access to the service after an answer.
pub open spec fn access_after(answer: HttpAnswer) -> AccessState {
    match answer {
        HttpAnswer::Unsent(_) => AccessState::Failed,
        HttpAnswer::Answered(status, _) => if succeeded(status) {
            AccessState::Validated
        } else {
            AccessState::Failed
        },
    }
}

/// What an answer tells about the access to the service that was not known.
pub open spec fn access_note(before: AccessState, answer: HttpAnswer) -> Option<AccessNote> {
    match answer {
        HttpAnswer::Unsent(_) => if before == AccessState::Failed {
            None
        } else {
            Some(AccessNote::ConnectionFailed)
        },
        HttpAnswer::Answered(status, _) => status_note(before, status),
    }
}

/// The mark about an answer, and its result.
pub open spec fn exchanged(
    runtime: RemoteBackendRuntime,
    subject: MarkSubject,
    tool_name: Seq<char>,
    answer: HttpAnswer,
) -> OutcomeView {
    match answer {
        HttpAnswer::Unsent(err) => runtime.failed(
            subject,
            tool_name,
            None,
            request_context(subject) + " failed: "@ + err@,
        ),
        HttpAnswer::Answered(status, payload) => runtime.response_view(
            subject,
            tool_name,
            status,
            payload,
        ),
    }
}

/// What a tool call goes on with after its check, by the result of the exchange.
pub open spec fn checked_result(
    answer: Result<JsonView, FlowErrorView>,
    kind: RemoteCheckKind,
    tool_name: Seq<char>,
    checked: JsonView,
) -> Result<JsonView, FlowErrorView> {
    match answer {
        Err(e) => Err(e),
        Ok(response) => verdict(response, kind, tool_name, checked),
    }
}

/// Whether a status opens a stream; any other is answered with an error.
pub fn opens_stream(status: u16) -> (r: bool)
    ensures
        r == succeeded(status),
{
    200 <= status && status < 300
}

/// What a tool call goes on with after its check, given with the result of the exchange.
pub fn take_check_answer(
    answer: Result<Json, FlowError>,
    kind: RemoteCheckKind,
    tool_name: &str,
    checked: &Json,
) -> (r: Result<Json, FlowError>)
    ensures
        result_view(r) == checked_result(
            result_view(answer),
            kind,
            tool_name@,
            json_view(*checked),
        ),
{
    match answer {
        Err(e) => Err(e),
        Ok(response) => remote_check_verdict(&response, kind, tool_name, checked),
    }
}

impl RemoteBackendRuntime {
    /// Begins the check of a tool call: the mark about its start, and the body of the request.
    pub fn begin_check(&self, messages: Vec<Json>, kind: RemoteCheckKind, tool_name: &str) -> (r: (
        RemoteMark,
        Json,
    ))
        ensures
            r.0@ == (
                "nemo_guardrails.remote.start"@,
                self.mark_data(MarkSubject::Tool(kind), tool_name@, None, None),
            ),
            json_view(r.1) == check_body(
                array_view(messages@),
                match kind {
                    RemoteCheckKind::Input => object_view(self.tool_input_guardrails.entries@),
                    RemoteCheckKind::Output => object_view(self.tool_output_guardrails.entries@),
                },
            ),
    {
        let mark = self.start_mark(MarkSubject::Tool(kind), tool_name);
        (mark, self.build_check_body(messages, kind))
    }

    /// Takes what became of a request.
    pub fn finish_exchange(
        &mut self,
        subject: MarkSubject,
        tool_name: &str,
        answer: HttpAnswer,
    ) -> (r: ExchangeEnd)
        ensures
            r.note == access_note(old(self).access_state, answer),
            r.outcome@ == exchanged(*old(self), subject, tool_name@, answer),
            *final(self) == (RemoteBackendRuntime {
                access_state: access_after(answer),
                ..*old(self)
            }),
    {
        match answer {
            HttpAnswer::Unsent(err) => {
                let outcome = self.send_failed(subject, tool_name, err.as_str());
                let note = self.record_access_failure();
                ExchangeEnd { note, outcome }
            },
            HttpAnswer::Answered(status, payload) => {
                let outcome = self.take_response(subject, tool_name, status, payload);
                let note = self.record_access_status(status);
                ExchangeEnd { note, outcome }
            },
        }
    }

    /// Takes what became of the check of a tool call.
    pub fn finish_check(
        &mut self,
        kind: RemoteCheckKind,
        tool_name: &str,
        checked: &Json,
        answer: HttpAnswer,
    ) -> (r: CheckEnd)
        ensures
            ({
                let (mark, result) = exchanged(
                    *old(self),
                    MarkSubject::Tool(kind),
                    tool_name@,
                    answer,
                );
                &&& r.note == access_note(old(self).access_state, answer)
                &&& r.mark@ == mark
                &&& result_view(r.result) == checked_result(
                    result,
                    kind,
                    tool_name@,
                    json_view(*checked),
                )
            }),
            *final(self) == (RemoteBackendRuntime {
                access_state: access_after(answer),
                ..*old(self)
            }),
    {
        let end = self.finish_exchange(MarkSubject::Tool(kind), tool_name, answer);
        let result = take_check_answer(end.outcome.result, kind, tool_name, checked);
        CheckEnd { note: end.note, mark: end.outcome.mark, result }
    }
}

/// A tool call goes on after its check only where the service answered with success and no rail
/// blocked.
pub proof fn law_tool_calls_go_on_only_when_let(
    runtime: RemoteBackendRuntime,
    kind: RemoteCheckKind,
    tool_name: Seq<char>,
    checked: JsonView,
    answer: HttpAnswer,
)
    requires
        checked_result(
            exchanged(runtime, MarkSubject::Tool(kind), tool_name, answer).1,
            kind,
            tool_name,
            checked,
        ) is Ok,
    ensures
        access_after(answer) == AccessState::Validated,
        exchanged(runtime, MarkSubject::Tool(kind), tool_name, answer).1 matches Ok(response)
            && blocking_rail(response) is None,
{
}

/// A result comes only with a mark about the end of the exchange, and an error only with a mark
/// about an error.
pub proof fn law_marks_tell_how_exchanges_end(
    runtime: RemoteBackendRuntime,
    subject: MarkSubject,
    tool_name: Seq<char>,
    answer: HttpAnswer,
)
    ensures
        ({
            let (mark, result) = exchanged(runtime, subject, tool_name, answer);
            &&& result is Ok ==> mark.0 == "nemo_guardrails.remote.end"@
            &&& result is Err ==> mark.0 == "nemo_guardrails.remote.error"@
        }),
{
}

/// Access is validated by a successful answer alone, and noted when that changes.
pub proof fn law_access_follows_the_answer(
    before: AccessState,
    err: String,
    status: u16,
    payload: Result<String, String>,
)
    ensures
        access_after(HttpAnswer::Unsent(err)) is Failed,
        access_after(HttpAnswer::Answered(status, payload)) is Validated <==> 200 <= status <= 299,
        access_after(HttpAnswer::Answered(status, payload)) is Failed <==> !(200 <= status <= 299),
        before is Failed ==> access_note(before, HttpAnswer::Unsent(err)) is None,
        !(before is Failed) ==> access_note(before, HttpAnswer::Unsent(err)) == Some(
            AccessNote::ConnectionFailed,
        ),
        access_note(before, HttpAnswer::Answered(status, payload)) == status_note(before, status),
{
}

/// A request that could not be sent is an error, an answer is judged by what it says, and the verdict
/// of a check is that of its answer.
pub proof fn law_exchanges_end_as_answered(
    runtime: RemoteBackendRuntime,
    subject: MarkSubject,
    tool_name: Seq<char>,
    err: String,
    status: u16,
    payload: Result<String, String>,
    e: FlowErrorView,
    response: JsonView,
    kind: RemoteCheckKind,
    checked: JsonView,
)
    ensures
        exchanged(runtime, subject, tool_name, HttpAnswer::Unsent(err)) == runtime.failed(
            subject,
            tool_name,
            None,
            request_context(subject) + " failed: "@ + err@,
        ),
        exchanged(runtime, subject, tool_name, HttpAnswer::Answered(status, payload))
            == runtime.response_view(subject, tool_name, status, payload),
        checked_result(Err(e), kind, tool_name, checked) == Err::<JsonView, FlowErrorView>(e),
        checked_result(Ok(response), kind, tool_name, checked) == verdict(
            response,
            kind,
            tool_name,
            checked,
        ),
{
}

} // verus!
