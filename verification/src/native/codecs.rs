//! LLM codecs that the host lends to native plugins.

use vstd::prelude::*;

use crate::json::{json_view, Json, JsonView};
use crate::json_text::json_text_of;
use crate::native::completion::{open_completion, CodecCapability, CompletionView, NativeAsyncCompletion};
use crate::native::status::{told, CallReport, LastError, NemoRelayStatus};
use crate::native::strings::{
    native_string_from_json, native_text, parse_argument, parsed_argument, NativeString,
    ParsedArgument, ParsedArgumentView,
};
use crate::text::{concat2, concat3};

verus! {

/// What a plugin does with a codec.
#[derive(Debug, Clone, Copy, PartialEq, Eq, Structural)]
pub enum CodecOperation {
    /// Decode a request.
    RequestDecode,
    /// Encode an annotated request.
    RequestEncode,
    /// Decode a response.
    ResponseDecode,
}

impl CodecOperation {
    /// How the operation is called.
    pub open spec fn label(self) -> Seq<char> {
        match self {
            CodecOperation::RequestDecode => "request codec decode"@,
            CodecOperation::RequestEncode => "request codec encode"@,
            CodecOperation::ResponseDecode => "response codec decode"@,
        }
    }

    /// How the operation is called.
    pub fn as_str(&self) -> (r: &'static str)
        ensures
            r@ == self.label(),
    {
        match self {
            CodecOperation::RequestDecode => "request codec decode",
            CodecOperation::RequestEncode => "request codec encode",
            CodecOperation::ResponseDecode => "response codec decode",
        }
    }

    /// How its first argument is called.
    pub open spec fn subject_text(self) -> Seq<char> {
        match self {
            CodecOperation::RequestDecode => " request is null"@,
            CodecOperation::RequestEncode => " annotated request is null"@,
            CodecOperation::ResponseDecode => " response is null"@,
        }
    }

    /// The codec that the operation needs.
    pub open spec fn needs(self) -> CodecCapability {
        match self {
            CodecOperation::ResponseDecode => CodecCapability::Response,
            _ => CodecCapability::Request,
        }
    }
}

/// The report of a codec call that lacks a pointer, in the order in which they are checked.
/// Only encoding takes a second argument.
pub open spec fn codec_pointer_report(
    operation: CodecOperation,
    out_is_null: bool,
    codec_is_null: bool,
    argument_is_null: bool,
    original_is_null: bool,
) -> Option<CallReport> {
    let label = operation.label();
    if out_is_null {
        Some(told(NemoRelayStatus::NullPointer, label + " output pointer is null"@))
    } else if codec_is_null {
        Some(told(NemoRelayStatus::NullPointer, label + " capability is null"@))
    } else if argument_is_null {
        Some(told(NemoRelayStatus::NullPointer, label + operation.subject_text()))
    } else if operation == CodecOperation::RequestEncode && original_is_null {
        Some(told(NemoRelayStatus::NullPointer, label + " original request is null"@))
    } else {
        None
    }
}

/// Checks the pointers of a codec call. The last error is forgotten first.
pub fn check_codec_pointers(
    last_error: &mut LastError,
    operation: CodecOperation,
    out_is_null: bool,
    codec_is_null: bool,
    argument_is_null: bool,
    original_is_null: bool,
) -> (r: Result<(), NemoRelayStatus>)
    ensures
        match codec_pointer_report(
            operation,
            out_is_null,
            codec_is_null,
            argument_is_null,
            original_is_null,
        ) {
            None => r is Ok && final(last_error)@ is None,
            Some(report) => r == Err::<(), NemoRelayStatus>(report.status) && final(last_error)@
                == report.message,
        },
{
    last_error.clear();
    let missing = if out_is_null {
        " output pointer is null"
    } else if codec_is_null {
        " capability is null"
    } else if argument_is_null {
        match operation {
            CodecOperation::RequestDecode => " request is null",
            CodecOperation::RequestEncode => " annotated request is null",
            CodecOperation::ResponseDecode => " response is null",
        }
    } else if original_is_null {
        match operation {
            CodecOperation::RequestEncode => " original request is null",
            _ => {
                return Ok(());
            },
        }
    } else {
        return Ok(());
    };
    last_error.set(concat2(operation.as_str(), missing));
    Err(NemoRelayStatus::NullPointer)
}

/// What a codec call led to.
pub enum CodecRun {
    /// A value.
    Value(Json),
    /// An error, by its text.
    Failure(String),
    /// It panicked.
    Panicked,
}

/// Hands the result of a codec to the plugin that called it.
pub fn finish_codec_call(last_error: &mut LastError, operation: CodecOperation, run: CodecRun) -> (r:
    Result<NativeString, NemoRelayStatus>)
    ensures
        match run {
            CodecRun::Value(v) => r is Ok && *final(last_error) == *old(last_error) && native_text(
                Some(&r->Ok_0),
            ) == Ok::<Seq<char>, crate::error::ErrorView>(json_text_of(json_view(v))),
            CodecRun::Failure(e) => r == Err::<NativeString, NemoRelayStatus>(
                NemoRelayStatus::Internal,
            ) && final(last_error)@ == Some(operation.label() + " failed: "@ + e@),
            CodecRun::Panicked => r == Err::<NativeString, NemoRelayStatus>(
                NemoRelayStatus::Internal,
            ) && final(last_error)@ == Some(operation.label() + " panicked"@),
        },
{
    match run {
        CodecRun::Value(value) => Ok(native_string_from_json(&value)),
        CodecRun::Failure(e) => {
            last_error.set(concat3(operation.as_str(), " failed: ", e.as_str()));
            Err(NemoRelayStatus::Internal)
        },
        CodecRun::Panicked => {
            last_error.set(concat2(operation.as_str(), " panicked"));
            Err(NemoRelayStatus::Internal)
        },
    }
}

/// The response that a codec is to decode, by what reading it gave, or the text of the
/// error.
pub open spec fn response_argument(parsed: ParsedArgumentView) -> Result<JsonView, Seq<char>> {
    match parsed {
        ParsedArgumentView::Value(v) => Ok(v),
        ParsedArgumentView::Unreadable(e) => Err(e),
        ParsedArgumentView::Malformed(e) => Err("invalid response JSON: "@ + e),
    }
}

/// Takes the response that a codec is to decode, by what reading it gave.
pub fn take_codec_response(parsed: ParsedArgument) -> (r: Result<Json, String>)
    ensures
        match r {
            Ok(v) => parsed == ParsedArgument::Value(v),
            Err(e) => response_argument(parsed@) == Err::<JsonView, Seq<char>>(e@),
        },
{
    match parsed {
        ParsedArgument::Value(v) => Ok(v),
        ParsedArgument::Unreadable(e) => Err(e),
        ParsedArgument::Malformed(e) => Err(concat2("invalid response JSON: ", e.as_str())),
    }
}

/// Reads the response that a codec is to decode.
pub fn read_codec_response(value: Option<&NativeString>) -> (r: Result<Json, String>)
    ensures
        match r {
            Ok(v) => response_argument(parsed_argument(value)) == Ok::<JsonView, Seq<char>>(
                json_view(v),
            ),
            Err(e) => response_argument(parsed_argument(value)) == Err::<JsonView, Seq<char>>(e@),
        },
{
    take_codec_response(parse_argument(value))
}

/// An argument of a request codec.
#[derive(Debug, Clone, Copy, PartialEq, Eq, Structural)]
pub enum CodecArgument {
    /// A request.
    Request,
    /// An annotated request.
    Annotated,
    /// The request that an annotated one was made from.
    Original,
}

/// The text of the error of an argument that is no such request: `detail` are the decoder's
/// words.
pub fn invalid_codec_argument(argument: CodecArgument, detail: &str) -> (r: String)
    ensures
        r@ == (match argument {
            CodecArgument::Request => "invalid request JSON: "@,
            CodecArgument::Annotated => "invalid annotated request JSON: "@,
            CodecArgument::Original => "invalid original request JSON: "@,
        }) + detail@,
{
    let prefix = match argument {
        CodecArgument::Request => "invalid request JSON: ",
        CodecArgument::Annotated => "invalid annotated request JSON: ",
        CodecArgument::Original => "invalid original request JSON: ",
    };
    concat2(prefix, detail)
}

/// The report of a codec call through a completion that does not lend the codec.
pub open spec fn lent_codec_report(
    c: CompletionView,
    operation: CodecOperation,
    out_is_null: bool,
    completion_is_null: bool,
) -> Option<CallReport> {
    if out_is_null {
        Some(told(NemoRelayStatus::NullPointer, operation.label() + " output is null"@))
    } else if completion_is_null {
        Some((CallReport { status: NemoRelayStatus::NullPointer, message: None }))
    } else if !open_completion(c) {
        Some(
            told(
                NemoRelayStatus::InvalidArg,
                "native async completion capability is expired"@,
            ),
        )
    } else if c.codec != Some(operation.needs()) {
        Some(
            told(
                NemoRelayStatus::InvalidArg,
                if operation.needs() == CodecCapability::Request {
                    "async completion has no request codec capability"@
                } else {
                    "async completion has no response codec capability"@
                },
            ),
        )
    } else {
        None
    }
}

/// Checks that a completion lends the codec that an operation needs.
pub fn check_lent_codec(
    last_error: &mut LastError,
    completion: Option<&NativeAsyncCompletion>,
    operation: CodecOperation,
    out_is_null: bool,
) -> (r: Result<(), NemoRelayStatus>)
    ensures
        ({
            let report = match completion {
                Some(c) => lent_codec_report(c@, operation, out_is_null, false),
                None => lent_codec_report(arbitrary(), operation, out_is_null, true),
            };
            match report {
                None => r is Ok && *final(last_error) == *old(last_error),
                Some(report) => r == Err::<(), NemoRelayStatus>(report.status)
                    && crate::native::status::leaves(
                    report,
                    *old(last_error),
                    *final(last_error),
                ),
            }
        }),
{
    if out_is_null {
        last_error.set(concat2(operation.as_str(), " output is null"));
        return Err(NemoRelayStatus::NullPointer);
    }
    let completion = match completion {
        None => {
            return Err(NemoRelayStatus::NullPointer);
        },
        Some(completion) => completion,
    };
    if let Err(status) = completion.check_active(last_error) {
        return Err(status);
    }
    match operation {
        CodecOperation::ResponseDecode => match completion.codec {
            Some(CodecCapability::Response) => Ok(()),
            _ => {
                last_error.set_text("async completion has no response codec capability");
                Err(NemoRelayStatus::InvalidArg)
            },
        },
        _ => match completion.codec {
            Some(CodecCapability::Request) => Ok(()),
            _ => {
                last_error.set_text("async completion has no request codec capability");
                Err(NemoRelayStatus::InvalidArg)
            },
        },
    }
}

/// A codec is lent only while its completion is open: once that is settled or cancelled,
/// every codec call through it is refused.
pub proof fn law_codec_expires_with_completion(
    c: CompletionView,
    operation: CodecOperation,
    out_is_null: bool,
)
    requires
        !open_completion(c),
    ensures
        lent_codec_report(c, operation, out_is_null, false) is Some,
{
}

/// Codecs for requests decode and encode requests, those for responses decode responses; each
/// operation is named in its errors.
pub proof fn law_codec_operations_need_their_codec()
    ensures
        CodecOperation::RequestDecode.needs() == CodecCapability::Request,
        CodecOperation::RequestEncode.needs() == CodecCapability::Request,
        CodecOperation::ResponseDecode.needs() == CodecCapability::Response,
        CodecOperation::RequestDecode.label() == "request codec decode"@,
        CodecOperation::RequestEncode.label() == "request codec encode"@,
        CodecOperation::ResponseDecode.label() == "response codec decode"@,
{
}

/// A codec call is made exactly where every pointer that it needs is there; encoding needs the
/// original request too.
pub proof fn law_codec_calls_need_their_pointers(
    operation: CodecOperation,
    out_is_null: bool,
    codec_is_null: bool,
    argument_is_null: bool,
    original_is_null: bool,
)
    ensures
        codec_pointer_report(
            operation,
            out_is_null,
            codec_is_null,
            argument_is_null,
            original_is_null,
        ) is None <==> !out_is_null && !codec_is_null && !argument_is_null && !(operation
            == CodecOperation::RequestEncode && original_is_null),
        codec_pointer_report(
            operation,
            out_is_null,
            codec_is_null,
            argument_is_null,
            original_is_null,
        ) matches Some(report) ==> report.status == NemoRelayStatus::NullPointer,
{
}

/// A codec is lent by a completion exactly where both are there, the completion is open, and it
/// carries a codec of the direction that is needed.
pub proof fn law_open_completions_lend_their_codec(
    c: CompletionView,
    operation: CodecOperation,
    out_is_null: bool,
    completion_is_null: bool,
)
    ensures
        lent_codec_report(c, operation, out_is_null, completion_is_null) is None <==> !out_is_null
            && !completion_is_null && open_completion(c) && c.codec == Some(operation.needs()),
        !out_is_null && !completion_is_null && !open_completion(c) ==> lent_codec_report(
            c,
            operation,
            out_is_null,
            completion_is_null,
        ) == Some(
            told(NemoRelayStatus::InvalidArg, "native async completion capability is expired"@),
        ),
        !out_is_null && !completion_is_null && open_completion(c) && c.codec != Some(
            operation.needs(),
        ) ==> (lent_codec_report(c, operation, out_is_null, completion_is_null)->0).status
            == NemoRelayStatus::InvalidArg,
{
}

/// A response is read where its text is JSON.
pub proof fn law_codec_responses_are_json(value: JsonView, e: Seq<char>)
    ensures
        response_argument(ParsedArgumentView::Value(value)) == Ok::<JsonView, Seq<char>>(value),
        response_argument(ParsedArgumentView::Unreadable(e)) == Err::<JsonView, Seq<char>>(e),
        response_argument(ParsedArgumentView::Malformed(e)) == Err::<JsonView, Seq<char>>(
            "invalid response JSON: "@ + e,
        ),
{
}

/// What is told where a codec cannot be called or lent.
pub proof fn law_missing_codecs_are_told(
    operation: CodecOperation,
    c: CompletionView,
    argument_is_null: bool,
    original_is_null: bool,
    codec_is_null: bool,
    completion_is_null: bool,
)
    ensures
        codec_pointer_report(
            operation,
            true,
            codec_is_null,
            argument_is_null,
            original_is_null,
        ) == Some(
            told(NemoRelayStatus::NullPointer, operation.label() + " output pointer is null"@),
        ),
        codec_pointer_report(operation, false, true, argument_is_null, original_is_null) == Some(
            told(NemoRelayStatus::NullPointer, operation.label() + " capability is null"@),
        ),
        codec_pointer_report(
            CodecOperation::RequestDecode,
            false,
            false,
            true,
            original_is_null,
        ) == Some(
            told(NemoRelayStatus::NullPointer, "request codec decode"@ + " request is null"@),
        ),
        codec_pointer_report(
            CodecOperation::RequestEncode,
            false,
            false,
            true,
            original_is_null,
        ) == Some(
            told(
                NemoRelayStatus::NullPointer,
                "request codec encode"@ + " annotated request is null"@,
            ),
        ),
        codec_pointer_report(
            CodecOperation::ResponseDecode,
            false,
            false,
            true,
            original_is_null,
        ) == Some(
            told(NemoRelayStatus::NullPointer, "response codec decode"@ + " response is null"@),
        ),
        codec_pointer_report(CodecOperation::RequestEncode, false, false, false, true) == Some(
            told(
                NemoRelayStatus::NullPointer,
                "request codec encode"@ + " original request is null"@,
            ),
        ),
        lent_codec_report(c, operation, true, completion_is_null) == Some(
            told(NemoRelayStatus::NullPointer, operation.label() + " output is null"@),
        ),
        lent_codec_report(c, operation, false, true) == Some(
            (CallReport { status: NemoRelayStatus::NullPointer, message: None }),
        ),
        open_completion(c) && c.codec is None ==> lent_codec_report(
            c,
            CodecOperation::ResponseDecode,
            false,
            false,
        ) == Some(
            told(
                NemoRelayStatus::InvalidArg,
                "async completion has no response codec capability"@,
            ),
        ),
        open_completion(c) && c.codec is None ==> lent_codec_report(
            c,
            CodecOperation::RequestDecode,
            false,
            false,
        ) == Some(
            told(
                NemoRelayStatus::InvalidArg,
                "async completion has no request codec capability"@,
            ),
        ),
{
}

} // verus!
