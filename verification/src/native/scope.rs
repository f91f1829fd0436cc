//! Scope functions that the host offers to native plugins.

use vstd::prelude::*;

use crate::json::{json_view, Json};
use crate::native::status::{
    first_report, flow_error_status, status_from_flow_error, told, CallReport, FlowErrorKind,
    LastError, NemoRelayStatus,
};
use crate::native::strings::{
    check_timestamp, given_time, name_argument, name_report, opt_parsed, optional_json_argument,
    parse_optional, parsed_optional, read_name, take_optional_json, time_given, GivenTime,
    NativeString, ParsedArgument, ParsedArgumentView,
};
use crate::text::concat2;

verus! {

/// Kind of a scope.
#[derive(Debug, Clone, Copy, PartialEq, Eq, Structural)]
pub enum ScopeType {
    /// Agent.
    Agent,
    /// Function.
    Function,
    /// Tool call.
    Tool,
    /// LLM call.
    Llm,
    /// Retriever call.
    Retriever,
    /// Embedder call.
    Embedder,
    /// Reranker call.
    Reranker,
    /// Guardrail.
    Guardrail,
    /// Evaluator.
    Evaluator,
    /// Application-defined scope.
    Custom,
    /// Unknown scope.
    Unknown,
}

/// What a plugin passes to push a scope.
pub struct ScopePushArguments<'a> {
    /// Name of the scope.
    pub name: Option<&'a NativeString>,
    /// Data, as JSON.
    pub data: Option<&'a NativeString>,
    /// Metadata, as JSON.
    pub metadata: Option<&'a NativeString>,
    /// Input, as JSON.
    pub input: Option<&'a NativeString>,
    /// Start time in microseconds since the Unix epoch.
    pub timestamp: Option<i64>,
}

/// A scope to push.
pub struct ScopePush {
    /// Name of the scope.
    pub name: String,
    /// Data.
    pub data: Option<Json>,
    /// Metadata.
    pub metadata: Option<Json>,
    /// Input.
    pub input: Option<Json>,
    /// Start time in microseconds since the Unix epoch.
    pub timestamp: Option<i64>,
}

/// The report of an optional JSON argument that is none, by what reading it gave.
pub open spec fn json_report(parsed: Option<ParsedArgumentView>, field: Seq<char>) -> Option<
    CallReport,
> {
    match optional_json_argument(parsed, field) {
        Ok(_) => None,
        Err((status, message)) => Some(told(status, message)),
    }
}

/// The report of a timestamp out of range.
pub open spec fn timestamp_report(time: GivenTime) -> Option<CallReport> {
    if time.micros is Some && !time.supported {
        Some(
            told(
                NemoRelayStatus::InvalidArg,
                "timestamp unix microseconds are outside supported range"@,
            ),
        )
    } else {
        None
    }
}

/// Whether an optional value is what reading an argument gave.
pub open spec fn carries(value: Option<Json>, parsed: Option<ParsedArgumentView>) -> bool {
    match parsed {
        None => value is None,
        Some(p) => value is Some && p == ParsedArgumentView::Value(json_view(value->0)),
    }
}

/// What a plugin passes to push a scope, with what reading its JSON gave.
pub struct ParsedScopePush<'a> {
    /// Name of the scope.
    pub name: Option<&'a NativeString>,
    /// Data.
    pub data: Option<ParsedArgument>,
    /// Metadata.
    pub metadata: Option<ParsedArgument>,
    /// Input.
    pub input: Option<ParsedArgument>,
    /// Start time.
    pub time: GivenTime,
}

/// The report of arguments that push no scope, in the order in which they are read.
pub open spec fn push_arguments_report(
    out_is_null: bool,
    name: Option<&NativeString>,
    data: Option<ParsedArgumentView>,
    metadata: Option<ParsedArgumentView>,
    input: Option<ParsedArgumentView>,
    time: GivenTime,
) -> Option<CallReport> {
    if out_is_null {
        Some(told(NemoRelayStatus::NullPointer, "out scope handle pointer is null"@))
    } else {
        first_report(
            first_report(name_report(name), json_report(data, "scope data"@)),
            first_report(
                first_report(
                    json_report(metadata, "scope metadata"@),
                    json_report(input, "scope input"@),
                ),
                timestamp_report(time),
            ),
        )
    }
}

/// Takes what a plugin passes to push a scope, by what reading its JSON gave. The last error
/// is forgotten first.
pub fn take_scope_push(last_error: &mut LastError, out_is_null: bool, args: ParsedScopePush) -> (r:
    Result<ScopePush, NemoRelayStatus>)
    ensures
        ({
            let report = push_arguments_report(
                out_is_null,
                args.name,
                opt_parsed(args.data),
                opt_parsed(args.metadata),
                opt_parsed(args.input),
                args.time,
            );
            match r {
                Ok(push) => report is None && final(last_error)@ is None && name_argument(args.name)
                    == Ok::<Seq<char>, (NemoRelayStatus, Seq<char>)>(push.name@) && carries(
                    push.data,
                    opt_parsed(args.data),
                ) && carries(push.metadata, opt_parsed(args.metadata)) && carries(
                    push.input,
                    opt_parsed(args.input),
                ) && push.timestamp == args.time.micros,
                Err(status) => final(last_error)@ is Some && report == Some(
                    told(status, final(last_error)@->0),
                ),
            }
        }),
{
    last_error.clear();
    if out_is_null {
        last_error.set_text("out scope handle pointer is null");
        return Err(NemoRelayStatus::NullPointer);
    }
    let name = match read_name(last_error, args.name) {
        Err(status) => {
            return Err(status);
        },
        Ok(name) => name,
    };
    let data = match take_optional_json(last_error, args.data, "scope data") {
        Err(status) => {
            return Err(status);
        },
        Ok(data) => data,
    };
    let metadata = match take_optional_json(last_error, args.metadata, "scope metadata") {
        Err(status) => {
            return Err(status);
        },
        Ok(metadata) => metadata,
    };
    let input = match take_optional_json(last_error, args.input, "scope input") {
        Err(status) => {
            return Err(status);
        },
        Ok(input) => input,
    };
    let timestamp = match check_timestamp(last_error, args.time.micros, args.time.supported) {
        Err(status) => {
            return Err(status);
        },
        Ok(timestamp) => timestamp,
    };
    Ok(ScopePush { name, data, metadata, input, timestamp })
}

/// Reads what a plugin passes to push a scope. The last error is forgotten first.
pub fn read_scope_push(
    last_error: &mut LastError,
    out_is_null: bool,
    args: ScopePushArguments,
) -> (r: Result<ScopePush, NemoRelayStatus>)
    ensures
        ({
            let report = push_arguments_report(
                out_is_null,
                args.name,
                parsed_optional(args.data),
                parsed_optional(args.metadata),
                parsed_optional(args.input),
                time_given(args.timestamp),
            );
            match r {
                Ok(push) => report is None && final(last_error)@ is None && name_argument(args.name)
                    == Ok::<Seq<char>, (NemoRelayStatus, Seq<char>)>(push.name@) && carries(
                    push.data,
                    parsed_optional(args.data),
                ) && carries(push.metadata, parsed_optional(args.metadata)) && carries(
                    push.input,
                    parsed_optional(args.input),
                ) && push.timestamp == args.timestamp,
                Err(status) => final(last_error)@ is Some && report == Some(
                    told(status, final(last_error)@->0),
                ),
            }
        }),
{
    let parsed = ParsedScopePush {
        name: args.name,
        data: parse_optional(args.data),
        metadata: parse_optional(args.metadata),
        input: parse_optional(args.input),
        time: given_time(args.timestamp),
    };
    take_scope_push(last_error, out_is_null, parsed)
}

/// A scope to pop.
pub struct ScopePop {
    /// Output.
    pub output: Option<Json>,
    /// Metadata.
    pub metadata: Option<Json>,
    /// End time in microseconds since the Unix epoch.
    pub timestamp: Option<i64>,
}

/// The report of arguments that pop no scope, in the order in which they are read.
pub open spec fn pop_arguments_report(
    handle_is_null: bool,
    output: Option<ParsedArgumentView>,
    metadata: Option<ParsedArgumentView>,
    time: GivenTime,
) -> Option<CallReport> {
    if handle_is_null {
        Some(told(NemoRelayStatus::NullPointer, "scope handle is null"@))
    } else {
        first_report(
            json_report(output, "scope output"@),
            first_report(json_report(metadata, "scope metadata"@), timestamp_report(time)),
        )
    }
}

/// Takes what a plugin passes to pop a scope, by what reading its JSON gave. The last error
/// is forgotten first.
pub fn take_scope_pop(
    last_error: &mut LastError,
    handle_is_null: bool,
    output: Option<ParsedArgument>,
    metadata: Option<ParsedArgument>,
    time: GivenTime,
) -> (r: Result<ScopePop, NemoRelayStatus>)
    ensures
        ({
            let report = pop_arguments_report(handle_is_null, opt_parsed(output), opt_parsed(metadata), time);
            match r {
                Ok(pop) => report is None && final(last_error)@ is None && carries(
                    pop.output,
                    opt_parsed(output),
                ) && carries(pop.metadata, opt_parsed(metadata)) && pop.timestamp == time.micros,
                Err(status) => final(last_error)@ is Some && report == Some(
                    told(status, final(last_error)@->0),
                ),
            }
        }),
{
    last_error.clear();
    if handle_is_null {
        last_error.set_text("scope handle is null");
        return Err(NemoRelayStatus::NullPointer);
    }
    let output = match take_optional_json(last_error, output, "scope output") {
        Err(status) => {
            return Err(status);
        },
        Ok(output) => output,
    };
    let metadata = match take_optional_json(last_error, metadata, "scope metadata") {
        Err(status) => {
            return Err(status);
        },
        Ok(metadata) => metadata,
    };
    let timestamp = match check_timestamp(last_error, time.micros, time.supported) {
        Err(status) => {
            return Err(status);
        },
        Ok(timestamp) => timestamp,
    };
    Ok(ScopePop { output, metadata, timestamp })
}

/// Reads what a plugin passes to pop a scope. The last error is forgotten first.
pub fn read_scope_pop(
    last_error: &mut LastError,
    handle_is_null: bool,
    output: Option<&NativeString>,
    metadata: Option<&NativeString>,
    timestamp: Option<i64>,
) -> (r: Result<ScopePop, NemoRelayStatus>)
    ensures
        ({
            let report = pop_arguments_report(handle_is_null, parsed_optional(output), parsed_optional(metadata), time_given(timestamp));
            match r {
                Ok(pop) => report is None && final(last_error)@ is None && carries(
                    pop.output,
                    parsed_optional(output),
                ) && carries(pop.metadata, parsed_optional(metadata)) && pop.timestamp == timestamp,
                Err(status) => final(last_error)@ is Some && report == Some(
                    told(status, final(last_error)@->0),
                ),
            }
        }),
{
    take_scope_pop(
        last_error,
        handle_is_null,
        parse_optional(output),
        parse_optional(metadata),
        given_time(timestamp),
    )
}

/// A mark to emit.
pub struct MarkEvent {
    /// Name of the mark.
    pub name: String,
    /// Data.
    pub data: Option<Json>,
    /// Metadata.
    pub metadata: Option<Json>,
    /// Time in microseconds since the Unix epoch.
    pub timestamp: Option<i64>,
}

/// The report of arguments that emit no mark, in the order in which they are read.
pub open spec fn mark_arguments_report(
    name: Option<&NativeString>,
    data: Option<ParsedArgumentView>,
    metadata: Option<ParsedArgumentView>,
    time: GivenTime,
) -> Option<CallReport> {
    first_report(
        first_report(name_report(name), json_report(data, "mark data"@)),
        first_report(json_report(metadata, "mark metadata"@), timestamp_report(time)),
    )
}

/// Takes what a plugin passes to emit a mark, by what reading its JSON gave. The last error
/// is forgotten first.
pub fn take_mark(
    last_error: &mut LastError,
    name: Option<&NativeString>,
    data: Option<ParsedArgument>,
    metadata: Option<ParsedArgument>,
    time: GivenTime,
) -> (r: Result<MarkEvent, NemoRelayStatus>)
    ensures
        ({
            let report = mark_arguments_report(name, opt_parsed(data), opt_parsed(metadata), time);
            match r {
                Ok(mark) => report is None && final(last_error)@ is None && name_argument(name)
                    == Ok::<Seq<char>, (NemoRelayStatus, Seq<char>)>(mark.name@) && carries(
                    mark.data,
                    opt_parsed(data),
                ) && carries(mark.metadata, opt_parsed(metadata)) && mark.timestamp == time.micros,
                Err(status) => final(last_error)@ is Some && report == Some(
                    told(status, final(last_error)@->0),
                ),
            }
        }),
{
    last_error.clear();
    let name = match read_name(last_error, name) {
        Err(status) => {
            return Err(status);
        },
        Ok(name) => name,
    };
    let data = match take_optional_json(last_error, data, "mark data") {
        Err(status) => {
            return Err(status);
        },
        Ok(data) => data,
    };
    let metadata = match take_optional_json(last_error, metadata, "mark metadata") {
        Err(status) => {
            return Err(status);
        },
        Ok(metadata) => metadata,
    };
    let timestamp = match check_timestamp(last_error, time.micros, time.supported) {
        Err(status) => {
            return Err(status);
        },
        Ok(timestamp) => timestamp,
    };
    Ok(MarkEvent { name, data, metadata, timestamp })
}

/// Reads what a plugin passes to emit a mark. The last error is forgotten first.
pub fn read_mark(
    last_error: &mut LastError,
    name: Option<&NativeString>,
    data: Option<&NativeString>,
    metadata: Option<&NativeString>,
    timestamp: Option<i64>,
) -> (r: Result<MarkEvent, NemoRelayStatus>)
    ensures
        ({
            let report = mark_arguments_report(name, parsed_optional(data), parsed_optional(metadata), time_given(timestamp));
            match r {
                Ok(mark) => report is None && final(last_error)@ is None && name_argument(name)
                    == Ok::<Seq<char>, (NemoRelayStatus, Seq<char>)>(mark.name@) && carries(
                    mark.data,
                    parsed_optional(data),
                ) && carries(mark.metadata, parsed_optional(metadata)) && mark.timestamp == timestamp,
                Err(status) => final(last_error)@ is Some && report == Some(
                    told(status, final(last_error)@->0),
                ),
            }
        }),
{
    take_mark(
        last_error,
        name,
        parse_optional(data),
        parse_optional(metadata),
        given_time(timestamp),
    )
}

/// Reports what a scope operation of the runtime gave: an error by its kind and the text
/// that it is shown as.
pub fn scope_call_status(last_error: &mut LastError, result: Result<(), (FlowErrorKind, String)>)
    -> (r: NemoRelayStatus)
    ensures
        match result {
            Ok(()) => r == NemoRelayStatus::Success && *final(last_error) == *old(last_error),
            Err((kind, shown)) => r == flow_error_status(kind) && final(last_error)@ == Some(
                shown@,
            ),
        },
{
    match result {
        Ok(()) => NemoRelayStatus::Success,
        Err((kind, shown)) => status_from_flow_error(last_error, kind, shown),
    }
}

/// A pointer that a scope function cannot do without.
#[derive(Debug, Clone, Copy, PartialEq, Eq, Structural)]
pub enum RequiredPointer {
    /// Where a scope handle goes.
    OutScopeHandle,
    /// Where a scope stack goes.
    OutScopeStack,
    /// Where a scope stack binding goes.
    OutScopeStackBinding,
    /// A scope stack.
    ScopeStack,
    /// A scope stack binding.
    ScopeStackBinding,
}

impl RequiredPointer {
    /// What is said where the pointer is null.
    pub open spec fn missing_text(self) -> Seq<char> {
        match self {
            RequiredPointer::OutScopeHandle => "out scope handle pointer is null"@,
            RequiredPointer::OutScopeStack => "out scope stack pointer is null"@,
            RequiredPointer::OutScopeStackBinding => "out scope stack binding pointer is null"@,
            RequiredPointer::ScopeStack => "scope stack is null"@,
            RequiredPointer::ScopeStackBinding => "scope stack binding is null"@,
        }
    }
}

/// Checks a pointer that a scope function cannot do without. The last error is forgotten
/// first.
pub fn require_pointer(last_error: &mut LastError, pointer: RequiredPointer, is_null: bool) -> (r:
    NemoRelayStatus)
    ensures
        is_null ==> r == NemoRelayStatus::NullPointer && final(last_error)@ == Some(
            pointer.missing_text(),
        ),
        !is_null ==> r == NemoRelayStatus::Success && final(last_error)@ is None,
{
    last_error.clear();
    if !is_null {
        return NemoRelayStatus::Success;
    }
    let text = match pointer {
        RequiredPointer::OutScopeHandle => "out scope handle pointer is null",
        RequiredPointer::OutScopeStack => "out scope stack pointer is null",
        RequiredPointer::OutScopeStackBinding => "out scope stack binding pointer is null",
        RequiredPointer::ScopeStack => "scope stack is null",
        RequiredPointer::ScopeStackBinding => "scope stack binding is null",
    };
    last_error.set_text(text);
    NemoRelayStatus::NullPointer
}

/// Passes on what a callback under another scope stack answered; a failure without a
/// message gets one.
pub fn scope_stack_callback_status(last_error: &mut LastError, status: NemoRelayStatus) -> (r:
    NemoRelayStatus)
    ensures
        r == status,
        status != NemoRelayStatus::Success && old(last_error)@ is None ==> final(last_error)@
            == Some("native scope-stack callback returned "@ + status.name()),
        status == NemoRelayStatus::Success || old(last_error)@ is Some ==> *final(last_error)
            == *old(last_error),
{
    if status != NemoRelayStatus::Success && last_error.message.is_none() {
        last_error.set(concat2("native scope-stack callback returned ", status.as_str()));
    }
    status
}

/// A scope is pushed exactly where there is a place for its handle, its name can be read, each
/// document that is given is JSON, and its time is supported. The handle is looked at first.
pub proof fn law_scopes_are_pushed_with_readable_arguments(
    out_is_null: bool,
    name: Option<&NativeString>,
    data: Option<ParsedArgumentView>,
    metadata: Option<ParsedArgumentView>,
    input: Option<ParsedArgumentView>,
    time: GivenTime,
)
    ensures
        push_arguments_report(out_is_null, name, data, metadata, input, time) is None
            <==> !out_is_null && name_argument(name) is Ok && (data matches Some(p) ==> p is Value)
            && (metadata matches Some(p) ==> p is Value) && (input matches Some(p) ==> p is Value)
            && (time.micros is None || time.supported),
        out_is_null ==> push_arguments_report(out_is_null, name, data, metadata, input, time)
            == Some(told(NemoRelayStatus::NullPointer, "out scope handle pointer is null"@)),
        !out_is_null && name_argument(name) is Err ==> push_arguments_report(
            out_is_null,
            name,
            data,
            metadata,
            input,
            time,
        ) == name_report(name),
        !out_is_null && name_argument(name) is Ok && (data matches Some(p) && p is Malformed)
            ==> push_arguments_report(out_is_null, name, data, metadata, input, time) == Some(
            told(
                NemoRelayStatus::InvalidJson,
                "scope data"@ + " is not valid JSON: "@ + data->0->Malformed_0,
            ),
        ),
{
}

/// A scope is popped, and a mark is made, exactly where its arguments can be read.
pub proof fn law_scopes_are_popped_and_marked_with_readable_arguments(
    handle_is_null: bool,
    name: Option<&NativeString>,
    data: Option<ParsedArgumentView>,
    metadata: Option<ParsedArgumentView>,
    time: GivenTime,
)
    ensures
        pop_arguments_report(handle_is_null, data, metadata, time) is None <==> !handle_is_null && (
        data matches Some(p) ==> p is Value) && (metadata matches Some(p) ==> p is Value) && (
        time.micros is None || time.supported),
        handle_is_null ==> pop_arguments_report(handle_is_null, data, metadata, time) == Some(
            told(NemoRelayStatus::NullPointer, "scope handle is null"@),
        ),
        mark_arguments_report(name, data, metadata, time) is None <==> name_argument(name) is Ok && (
        data matches Some(p) ==> p is Value) && (metadata matches Some(p) ==> p is Value) && (
        time.micros is None || time.supported),
        timestamp_report(time) matches Some(report) ==> report == told(
            NemoRelayStatus::InvalidArg,
            "timestamp unix microseconds are outside supported range"@,
        ),
{
}

/// What a call carries is what was handed to it, and nothing where nothing was.
pub proof fn law_arguments_are_carried(value: Option<Json>, document: crate::json::JsonView)
    ensures
        carries(value, None) <==> value is None,
        carries(value, Some(ParsedArgumentView::Value(document))) <==> value is Some && json_view(
            value->0,
        ) == document,
        RequiredPointer::OutScopeHandle.missing_text() == "out scope handle pointer is null"@,
        RequiredPointer::OutScopeStack.missing_text() == "out scope stack pointer is null"@,
        RequiredPointer::OutScopeStackBinding.missing_text()
            == "out scope stack binding pointer is null"@,
        RequiredPointer::ScopeStack.missing_text() == "scope stack is null"@,
        RequiredPointer::ScopeStackBinding.missing_text() == "scope stack binding is null"@,
{
}

/// What is told of an argument of a scope call that is no JSON.
pub proof fn law_unreadable_scope_arguments_are_told(
    name: Option<&NativeString>,
    text: Seq<char>,
    time: GivenTime,
)
    requires
        name_report(name) is None,
    ensures
        push_arguments_report(
            false,
            name,
            None,
            Some(ParsedArgumentView::Malformed(text)),
            None,
            time,
        ) == Some(
            told(
                NemoRelayStatus::InvalidJson,
                "scope metadata"@ + " is not valid JSON: "@ + text,
            ),
        ),
        push_arguments_report(
            false,
            name,
            None,
            None,
            Some(ParsedArgumentView::Malformed(text)),
            time,
        ) == Some(
            told(NemoRelayStatus::InvalidJson, "scope input"@ + " is not valid JSON: "@ + text),
        ),
        pop_arguments_report(false, Some(ParsedArgumentView::Malformed(text)), None, time) == Some(
            told(NemoRelayStatus::InvalidJson, "scope output"@ + " is not valid JSON: "@ + text),
        ),
        pop_arguments_report(false, None, Some(ParsedArgumentView::Malformed(text)), time) == Some(
            told(
                NemoRelayStatus::InvalidJson,
                "scope metadata"@ + " is not valid JSON: "@ + text,
            ),
        ),
        mark_arguments_report(name, Some(ParsedArgumentView::Malformed(text)), None, time) == Some(
            told(NemoRelayStatus::InvalidJson, "mark data"@ + " is not valid JSON: "@ + text),
        ),
        mark_arguments_report(name, None, Some(ParsedArgumentView::Malformed(text)), time) == Some(
            told(NemoRelayStatus::InvalidJson, "mark metadata"@ + " is not valid JSON: "@ + text),
        ),
{
}

} // verus!
