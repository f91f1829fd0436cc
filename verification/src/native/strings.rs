//! Texts that cross the plugin boundary.

use vstd::prelude::*;
use vstd::utf8::{decode_utf8, encode_utf8, valid_utf8};

use crate::error::{error_text, ErrorView, PluginError, PluginErrorKind};
use crate::json::{json_view, json_wf, Json, JsonView};
use crate::json_text::{json_of, json_text, json_text_of, parse_json};
use crate::native::status::{
    message_or, told, CallReport, FlowError, FlowErrorKind, FlowErrorView, LastError,
    NemoRelayStatus,
};
use crate::text::{bytes_of, concat2, concat3};

verus! {

/// The text of the error that `std::str::from_utf8` gives for bytes that are not
/// UTF-8.
pub uninterp spec fn utf8_error_of(bytes: Seq<u8>) -> Seq<char>;

/// Reads bytes as a text with `std::str::from_utf8`: the text that they encode where
/// they are UTF-8, or the text of the error, which is named by the bytes.
#[verifier::external_body]
fn utf8_text(bytes: &Vec<u8>) -> (r: Result<String, String>)
    ensures
        match r {
            Ok(text) => valid_utf8(bytes@) && text@ == decode_utf8(bytes@),
            Err(e) => !valid_utf8(bytes@) && e@ == utf8_error_of(bytes@),
        },
{
    std::str::from_utf8(bytes).map(|text| text.to_owned()).map_err(|e| e.to_string())
}

/// A text that is owned by the host and lent to a plugin.
#[derive(Debug)]
pub struct NativeString {
    /// The bytes of the text.
    pub bytes: Vec<u8>,
}

/// What a nullable string holds, or why it cannot be read. A null string is empty.
pub open spec fn native_text(value: Option<&NativeString>) -> Result<Seq<char>, ErrorView> {
    match value {
        None => Ok(""@),
        Some(s) => if valid_utf8(s.bytes@) {
            Ok(decode_utf8(s.bytes@))
        } else {
            Err(
                (
                    PluginErrorKind::InvalidConfig,
                    "native string is not valid UTF-8: "@ + utf8_error_of(s.bytes@),
                ),
            )
        },
    }
}

/// Reads a nullable string.
pub fn read_native_string(value: Option<&NativeString>) -> (r: Result<String, PluginError>)
    ensures
        match r {
            Ok(text) => native_text(value) == Ok::<Seq<char>, ErrorView>(text@),
            Err(e) => native_text(value) == Err::<Seq<char>, ErrorView>(e@),
        },
{
    match value {
        None => Ok("".to_owned()),
        Some(s) => match utf8_text(&s.bytes) {
            Ok(text) => Ok(text),
            Err(e) => Err(
                PluginError::InvalidConfig(
                    concat2("native string is not valid UTF-8: ", e.as_str()),
                ),
            ),
        },
    }
}

/// Creates a string from the bytes that a plugin hands over; `out_is_null` says
/// whether there is nowhere to put it, `data` is `None` for a null pointer.
pub fn native_string_new(
    last_error: &mut LastError,
    data: Option<Vec<u8>>,
    len: usize,
    out_is_null: bool,
) -> (r: Result<NativeString, NemoRelayStatus>)
    requires
        data matches Some(bytes) ==> bytes@.len() == len,
    ensures
        ({
            let (status, message) = string_new_problem(
                match data {
                    Some(bytes) => Some(bytes@),
                    None => None,
                },
                len as nat,
                out_is_null,
            );
            match r {
                Ok(s) => status == NemoRelayStatus::Success && *final(last_error) == *old(last_error)
                    && s.bytes@ == (match data {
                    Some(bytes) => bytes@,
                    None => Seq::empty(),
                }),
                Err(e) => e != NemoRelayStatus::Success && e == status && final(last_error)@ == Some(
                    message,
                ),
            }
        }),
{
    if out_is_null {
        last_error.set_text("out string pointer is null");
        return Err(NemoRelayStatus::NullPointer);
    }
    let bytes: Vec<u8> = match data {
        None => {
            if len > 0 {
                last_error.set_text("string data pointer is null");
                return Err(NemoRelayStatus::NullPointer);
            }
            Vec::new()
        },
        Some(bytes) => bytes,
    };
    match utf8_text(&bytes) {
        Err(e) => {
            last_error.set(concat2("string data is not valid UTF-8: ", e.as_str()));
            Err(NemoRelayStatus::InvalidUtf8)
        },
        Ok(_) => {
            Ok(NativeString { bytes })
        },
    }
}

/// The status and message of creating a string.
pub open spec fn string_new_problem(data: Option<Seq<u8>>, len: nat, out_is_null: bool) -> (
    NemoRelayStatus,
    Seq<char>,
) {
    if out_is_null {
        (NemoRelayStatus::NullPointer, "out string pointer is null"@)
    } else if data is None && len > 0 {
        (NemoRelayStatus::NullPointer, "string data pointer is null"@)
    } else if data matches Some(bytes) && !valid_utf8(bytes) {
        (
            NemoRelayStatus::InvalidUtf8,
            "string data is not valid UTF-8: "@ + utf8_error_of(data->0),
        )
    } else {
        (NemoRelayStatus::Success, ""@)
    }
}

/// A string that was created reads back as the text that its bytes encode.
pub proof fn law_created_string_reads_back(text: Seq<char>, s: NativeString)
    requires
        s.bytes@ == encode_utf8(text),
    ensures
        string_new_problem(Some(s.bytes@), s.bytes@.len(), false).0 == NemoRelayStatus::Success,
        native_text(Some(&s)) == Ok::<Seq<char>, ErrorView>(text),
{
    vstd::utf8::encode_utf8_valid_utf8(text);
    vstd::utf8::encode_utf8_decode_utf8(text);
}

/// A string with a given text.
pub fn native_string_from_str(value: &str) -> (r: NativeString)
    ensures
        r.bytes@ == encode_utf8(value@),
        native_text(Some(&r)) == Ok::<Seq<char>, ErrorView>(value@),
{
    let bytes = bytes_of(value);
    let r = NativeString { bytes };
    proof {
        law_created_string_reads_back(value@, r);
    }
    r
}

/// A string with a value as compact JSON.
pub fn native_string_from_json(value: &Json) -> (r: NativeString)
    ensures
        native_text(Some(&r)) == Ok::<Seq<char>, ErrorView>(json_text_of(json_view(*value))),
{
    let text = json_text(value);
    native_string_from_str(text.as_str())
}

/// What reading a string as JSON gave.
pub enum ParsedArgument {
    /// A value.
    Value(Json),
    /// The string is no text: the words of the error.
    Unreadable(String),
    /// The text is no JSON: the parser's words.
    Malformed(String),
}

/// The mathematical form of what reading a string as JSON gave.
pub ghost enum ParsedArgumentView {
    /// A value.
    Value(JsonView),
    /// The string is no text: the words of the error.
    Unreadable(Seq<char>),
    /// The text is no JSON: the parser's words.
    Malformed(Seq<char>),
}

impl View for ParsedArgument {
    type V = ParsedArgumentView;

    open spec fn view(&self) -> ParsedArgumentView {
        match *self {
            ParsedArgument::Value(v) => ParsedArgumentView::Value(json_view(v)),
            ParsedArgument::Unreadable(e) => ParsedArgumentView::Unreadable(e@),
            ParsedArgument::Malformed(e) => ParsedArgumentView::Malformed(e@),
        }
    }
}

/// What reading a string as JSON gives.
pub open spec fn parsed_argument(value: Option<&NativeString>) -> ParsedArgumentView {
    match native_text(value) {
        Err(e) => ParsedArgumentView::Unreadable(error_text(e)),
        Ok(text) => match json_of(text) {
            Ok(v) => ParsedArgumentView::Value(v),
            Err(e) => ParsedArgumentView::Malformed(e),
        },
    }
}

/// Reads a string as JSON.
pub fn parse_argument(value: Option<&NativeString>) -> (r: ParsedArgument)
    ensures
        r@ == parsed_argument(value),
        r matches ParsedArgument::Value(v) ==> json_wf(v),
{
    match read_native_string(value) {
        Err(e) => ParsedArgument::Unreadable(e.to_text()),
        Ok(text) => match parse_json(text.as_str()) {
            Ok(v) => ParsedArgument::Value(v),
            Err(e) => ParsedArgument::Malformed(e),
        },
    }
}

/// What reading a string as JSON gives, where there is one.
pub open spec fn parsed_optional(value: Option<&NativeString>) -> Option<ParsedArgumentView> {
    match value {
        None => None,
        Some(_) => Some(parsed_argument(value)),
    }
}

/// The mathematical form of what reading an optional string as JSON gave.
pub open spec fn opt_parsed(parsed: Option<ParsedArgument>) -> Option<ParsedArgumentView> {
    match parsed {
        None => None,
        Some(p) => Some(p@),
    }
}

/// Reads a string as JSON, where there is one.
pub fn parse_optional(value: Option<&NativeString>) -> (r: Option<ParsedArgument>)
    ensures
        opt_parsed(r) == parsed_optional(value),
        r matches Some(ParsedArgument::Value(v)) ==> json_wf(v),
{
    if value.is_none() {
        None
    } else {
        Some(parse_argument(value))
    }
}

/// The value that a callback returned, by what reading its string gave, or the error of
/// reading it.
pub open spec fn returned_json(
    parsed: Option<ParsedArgumentView>,
    message: Option<Seq<char>>,
    fallback: Seq<char>,
) -> Result<JsonView, FlowErrorView> {
    match parsed {
        None => Err((FlowErrorKind::Internal, message_or(message, fallback))),
        Some(ParsedArgumentView::Value(v)) => Ok(v),
        Some(ParsedArgumentView::Unreadable(e)) => Err((FlowErrorKind::Internal, e)),
        Some(ParsedArgumentView::Malformed(e)) => Err(
            (FlowErrorKind::Internal, "invalid JSON: "@ + e),
        ),
    }
}

/// Takes the JSON that a callback returned, by what reading its string gave.
pub fn take_returned_json(
    parsed: Option<ParsedArgument>,
    last_error: &LastError,
    fallback: &str,
) -> (r: Result<Json, FlowError>)
    ensures
        match r {
            Ok(v) => parsed == Some(ParsedArgument::Value(v)),
            Err(e) => returned_json(opt_parsed(parsed), last_error@, fallback@) == Err::<
                JsonView,
                FlowErrorView,
            >(e@),
        },
{
    match parsed {
        None => Err(FlowError::internal(last_error.message_or(fallback))),
        Some(ParsedArgument::Value(v)) => Ok(v),
        Some(ParsedArgument::Unreadable(e)) => Err(FlowError::internal(e)),
        Some(ParsedArgument::Malformed(e)) => Err(
            FlowError::internal(concat2("invalid JSON: ", e.as_str())),
        ),
    }
}

/// Reads the JSON that a callback returned. A null string is an error: the message
/// that the plugin set, or a given one.
pub fn json_from_native_string(
    value: Option<&NativeString>,
    last_error: &LastError,
    fallback: &str,
) -> (r: Result<Json, FlowError>)
    ensures
        match r {
            Ok(v) => returned_json(parsed_optional(value), last_error@, fallback@) == Ok::<
                JsonView,
                FlowErrorView,
            >(json_view(v)) && json_wf(v),
            Err(e) => returned_json(parsed_optional(value), last_error@, fallback@) == Err::<
                JsonView,
                FlowErrorView,
            >(e@),
        },
{
    take_returned_json(parse_optional(value), last_error, fallback)
}

/// The text that a callback returned, or the error of reading it.
pub open spec fn returned_text(value: Option<&NativeString>) -> Result<Seq<char>, FlowErrorView> {
    match native_text(value) {
        Ok(text) => Ok(text),
        Err(e) => Err((FlowErrorKind::Internal, error_text(e))),
    }
}

/// Reads the text that a callback returned.
pub fn text_from_native_string(value: Option<&NativeString>) -> (r: Result<String, FlowError>)
    ensures
        match r {
            Ok(text) => returned_text(value) == Ok::<Seq<char>, FlowErrorView>(text@),
            Err(e) => returned_text(value) == Err::<Seq<char>, FlowErrorView>(e@),
        },
{
    match read_native_string(value) {
        Ok(text) => Ok(text),
        Err(e) => Err(FlowError::internal(e.to_text())),
    }
}

/// What reading a text argument is reported as.
pub open spec fn name_argument(value: Option<&NativeString>) -> Result<
    Seq<char>,
    (NemoRelayStatus, Seq<char>),
> {
    match native_text(value) {
        Ok(text) => Ok(text),
        Err(e) => Err((NemoRelayStatus::InvalidUtf8, error_text(e))),
    }
}

/// The report of a name that cannot be read.
pub open spec fn name_report(name: Option<&NativeString>) -> Option<CallReport> {
    match name_argument(name) {
        Ok(_) => None,
        Err((status, message)) => Some(told(status, message)),
    }
}

/// Reads a name that a plugin passes.
pub fn read_name(last_error: &mut LastError, name: Option<&NativeString>) -> (r: Result<
    String,
    NemoRelayStatus,
>)
    ensures
        match r {
            Ok(text) => name_argument(name) == Ok::<Seq<char>, (NemoRelayStatus, Seq<char>)>(text@)
                && *final(last_error) == *old(last_error),
            Err(status) => final(last_error)@ is Some && name_argument(name) == Err::<
                Seq<char>,
                (NemoRelayStatus, Seq<char>),
            >((status, final(last_error)@->0)),
        },
{
    match read_native_string(name) {
        Ok(text) => Ok(text),
        Err(e) => {
            last_error.set(e.to_text());
            Err(NemoRelayStatus::InvalidUtf8)
        },
    }
}

/// What a JSON argument is reported as, by what reading it gave; `joint` stands between its
/// label and the parser's words.
pub open spec fn json_argument(
    parsed: ParsedArgumentView,
    label: Seq<char>,
    joint: Seq<char>,
) -> Result<JsonView, (NemoRelayStatus, Seq<char>)> {
    match parsed {
        ParsedArgumentView::Value(v) => Ok(v),
        ParsedArgumentView::Unreadable(e) => Err((NemoRelayStatus::InvalidUtf8, e)),
        ParsedArgumentView::Malformed(e) => Err(
            (NemoRelayStatus::InvalidJson, label + joint + e),
        ),
    }
}

/// Whether taking a JSON argument gave its value or its report.
pub open spec fn reported_json(
    r: Result<Json, NemoRelayStatus>,
    expected: Result<JsonView, (NemoRelayStatus, Seq<char>)>,
    before: LastError,
    after: LastError,
) -> bool {
    match r {
        Ok(v) => expected == Ok::<JsonView, (NemoRelayStatus, Seq<char>)>(json_view(v)) && after
            == before,
        Err(status) => after@ is Some && expected == Err::<
            JsonView,
            (NemoRelayStatus, Seq<char>),
        >((status, after@->0)),
    }
}

/// Takes a JSON argument, by what reading it gave.
pub fn take_json_arg(last_error: &mut LastError, parsed: ParsedArgument, label: &str, joint: &str)
    -> (r: Result<Json, NemoRelayStatus>)
    ensures
        reported_json(
            r,
            json_argument(parsed@, label@, joint@),
            *old(last_error),
            *final(last_error),
        ),
        r matches Ok(v) ==> parsed == ParsedArgument::Value(v),
{
    match parsed {
        ParsedArgument::Value(v) => Ok(v),
        ParsedArgument::Unreadable(e) => {
            last_error.set(e);
            Err(NemoRelayStatus::InvalidUtf8)
        },
        ParsedArgument::Malformed(e) => {
            last_error.set(concat3(label, joint, e.as_str()));
            Err(NemoRelayStatus::InvalidJson)
        },
    }
}

/// Reads a JSON argument that a plugin passes.
pub fn parse_json_arg(last_error: &mut LastError, value: Option<&NativeString>, label: &str) -> (r:
    Result<Json, NemoRelayStatus>)
    ensures
        reported_json(
            r,
            json_argument(parsed_argument(value), label@, " was invalid JSON: "@),
            *old(last_error),
            *final(last_error),
        ),
        r matches Ok(v) ==> json_wf(v),
{
    take_json_arg(last_error, parse_argument(value), label, " was invalid JSON: ")
}

/// What an LLM request argument is reported as, by what reading it gave; `decoded` says why
/// the JSON is no LLM request, where it is none.
pub open spec fn llm_request_argument(
    parsed: ParsedArgumentView,
    label: Seq<char>,
    decoded: Result<(), Seq<char>>,
) -> Result<JsonView, (NemoRelayStatus, Seq<char>)> {
    match json_argument(parsed, label, " was invalid JSON: "@) {
        Err(e) => Err(e),
        Ok(v) => match decoded {
            Ok(()) => Ok(v),
            Err(e) => Err((NemoRelayStatus::InvalidJson, label + " was not an LLM request: "@ + e)),
        },
    }
}

/// Takes an LLM request argument, by what reading it gave.
pub fn take_llm_request_arg(
    last_error: &mut LastError,
    parsed: ParsedArgument,
    label: &str,
    decoded: Result<(), String>,
) -> (r: Result<Json, NemoRelayStatus>)
    ensures
        reported_json(
            r,
            llm_request_argument(
                parsed@,
                label@,
                match decoded {
                    Ok(()) => Ok(()),
                    Err(e) => Err(e@),
                },
            ),
            *old(last_error),
            *final(last_error),
        ),
        r matches Ok(v) ==> parsed == ParsedArgument::Value(v),
{
    let value = match take_json_arg(last_error, parsed, label, " was invalid JSON: ") {
        Err(status) => {
            return Err(status);
        },
        Ok(value) => value,
    };
    match decoded {
        Ok(()) => Ok(value),
        Err(e) => {
            last_error.set(concat3(label, " was not an LLM request: ", e.as_str()));
            Err(NemoRelayStatus::InvalidJson)
        },
    }
}

/// Reads an LLM request argument that a plugin passes.
pub fn parse_llm_request_arg(
    last_error: &mut LastError,
    value: Option<&NativeString>,
    label: &str,
    decoded: Result<(), String>,
) -> (r: Result<Json, NemoRelayStatus>)
    ensures
        reported_json(
            r,
            llm_request_argument(
                parsed_argument(value),
                label@,
                match decoded {
                    Ok(()) => Ok(()),
                    Err(e) => Err(e@),
                },
            ),
            *old(last_error),
            *final(last_error),
        ),
        r matches Ok(v) ==> json_wf(v),
{
    take_llm_request_arg(last_error, parse_argument(value), label, decoded)
}

/// What an optional JSON argument is reported as, by what reading it gave. A null string is
/// nothing.
pub open spec fn optional_json_argument(
    parsed: Option<ParsedArgumentView>,
    field: Seq<char>,
) -> Result<Option<JsonView>, (NemoRelayStatus, Seq<char>)> {
    match parsed {
        None => Ok(None),
        Some(p) => match json_argument(p, field, " is not valid JSON: "@) {
            Ok(v) => Ok(Some(v)),
            Err(e) => Err(e),
        },
    }
}

/// Takes an optional JSON argument, by what reading it gave.
pub fn take_optional_json(
    last_error: &mut LastError,
    parsed: Option<ParsedArgument>,
    field: &str,
) -> (r: Result<Option<Json>, NemoRelayStatus>)
    ensures
        match r {
            Ok(found) => optional_json_argument(opt_parsed(parsed), field@) == Ok::<
                Option<JsonView>,
                (NemoRelayStatus, Seq<char>),
            >(
                match found {
                    Some(v) => Some(json_view(v)),
                    None => None,
                },
            ) && *final(last_error) == *old(last_error),
            Err(status) => final(last_error)@ is Some && optional_json_argument(
                opt_parsed(parsed),
                field@,
            ) == Err::<Option<JsonView>, (NemoRelayStatus, Seq<char>)>(
                (status, final(last_error)@->0),
            ),
        },
{
    match parsed {
        None => Ok(None),
        Some(argument) => match take_json_arg(last_error, argument, field, " is not valid JSON: ") {
            Ok(v) => Ok(Some(v)),
            Err(status) => Err(status),
        },
    }
}

/// Reads an optional JSON argument that a plugin passes.
pub fn optional_json_from_native_string(
    last_error: &mut LastError,
    value: Option<&NativeString>,
    field: &str,
) -> (r: Result<Option<Json>, NemoRelayStatus>)
    ensures
        match r {
            Ok(found) => optional_json_argument(parsed_optional(value), field@) == Ok::<
                Option<JsonView>,
                (NemoRelayStatus, Seq<char>),
            >(
                match found {
                    Some(v) => Some(json_view(v)),
                    None => None,
                },
            ) && *final(last_error) == *old(last_error),
            Err(status) => final(last_error)@ is Some && optional_json_argument(
                parsed_optional(value),
                field@,
            ) == Err::<Option<JsonView>, (NemoRelayStatus, Seq<char>)>(
                (status, final(last_error)@->0),
            ),
        },
{
    take_optional_json(last_error, parse_optional(value), field)
}

/// Hands a JSON value to a plugin; `out_is_null` says whether there is nowhere to put
/// it.
pub fn write_native_json(last_error: &mut LastError, value: &Json, out_is_null: bool) -> (r: Result<
    NativeString,
    NemoRelayStatus,
>)
    ensures
        match r {
            Ok(s) => !out_is_null && *final(last_error) == *old(last_error) && native_text(
                Some(&s),
            ) == Ok::<Seq<char>, ErrorView>(json_text_of(json_view(*value))),
            Err(status) => out_is_null && status == NemoRelayStatus::NullPointer && final(last_error)@ == Some("out JSON pointer is null"@),
        },
{
    if out_is_null {
        last_error.set_text("out JSON pointer is null");
        return Err(NemoRelayStatus::NullPointer);
    }
    Ok(native_string_from_json(value))
}

/// Keeps the message that a plugin sets, or why it cannot be read.
pub fn native_last_error_set(last_error: &mut LastError, message: Option<&NativeString>)
    ensures
        final(last_error)@ == Some(
            match native_text(message) {
                Ok(text) => text,
                Err(e) => error_text(e),
            },
        ),
{
    match read_native_string(message) {
        Ok(text) => last_error.set(text),
        Err(e) => last_error.set(e.to_text()),
    }
}

/// The first supported time, in microseconds since the Unix epoch.
pub const FIRST_TIMESTAMP_MICROS: i64 = -8_334_601_228_800_000_000;

/// The last supported time, in microseconds since the Unix epoch.
pub const LAST_TIMESTAMP_MICROS: i64 = 8_210_266_876_799_999_999;

/// Whether a number of microseconds since the Unix epoch lies in the supported range.
pub open spec fn timestamp_supported(micros: i64) -> bool {
    FIRST_TIMESTAMP_MICROS <= micros <= LAST_TIMESTAMP_MICROS
}

/// Whether `chrono::DateTime::<chrono::Utc>::from_timestamp_micros` gives a time: it does for
/// the times from the first day of the year -262143 to the last day of the year 262142.
#[verifier::external_body]
fn has_timestamp(micros: i64) -> (r: bool)
    ensures
        r == timestamp_supported(micros),
{
    chrono::DateTime::<chrono::Utc>::from_timestamp_micros(micros).is_some()
}

/// Holds a timestamp that a plugin passes against the supported range; `supported`
/// says whether there is such a time.
pub fn check_timestamp(
    last_error: &mut LastError,
    timestamp_unix_micros: Option<i64>,
    supported: bool,
) -> (r: Result<Option<i64>, NemoRelayStatus>)
    ensures
        timestamp_unix_micros is None || supported ==> r == Ok::<Option<i64>, NemoRelayStatus>(
            timestamp_unix_micros,
        ) && *final(last_error) == *old(last_error),
        timestamp_unix_micros is Some && !supported ==> r == Err::<Option<i64>, NemoRelayStatus>(
            NemoRelayStatus::InvalidArg,
        ) && final(last_error)@ == Some(
            "timestamp unix microseconds are outside supported range"@,
        ),
{
    match timestamp_unix_micros {
        None => Ok(None),
        Some(micros) => if supported {
            Ok(Some(micros))
        } else {
            last_error.set_text("timestamp unix microseconds are outside supported range");
            Err(NemoRelayStatus::InvalidArg)
        },
    }
}

/// A timestamp that a plugin passes.
#[derive(Debug, Clone, Copy, PartialEq, Eq, Structural)]
pub struct GivenTime {
    /// Microseconds since the Unix epoch.
    pub micros: Option<i64>,
    /// Whether there is such a time.
    pub supported: bool,
}

/// A timestamp, with whether there is such a time.
pub open spec fn time_given(timestamp_unix_micros: Option<i64>) -> GivenTime {
    GivenTime {
        micros: timestamp_unix_micros,
        supported: timestamp_unix_micros is None || timestamp_supported(timestamp_unix_micros->0),
    }
}

/// Asks whether there is such a time.
pub fn given_time(timestamp_unix_micros: Option<i64>) -> (r: GivenTime)
    ensures
        r == time_given(timestamp_unix_micros),
{
    let supported = match timestamp_unix_micros {
        Some(micros) => has_timestamp(micros),
        None => true,
    };
    GivenTime { micros: timestamp_unix_micros, supported }
}

/// Reads an optional timestamp that a plugin passes, in microseconds since the Unix
/// epoch.
pub fn optional_timestamp_from_native(
    last_error: &mut LastError,
    timestamp_unix_micros: Option<i64>,
) -> (r: Result<Option<i64>, NemoRelayStatus>)
    ensures
        time_given(timestamp_unix_micros).supported ==> r == Ok::<Option<i64>, NemoRelayStatus>(
            timestamp_unix_micros,
        ) && *final(last_error) == *old(last_error),
        !time_given(timestamp_unix_micros).supported ==> r == Err::<Option<i64>, NemoRelayStatus>(
            NemoRelayStatus::InvalidArg,
        ) && final(last_error)@ == Some(
            "timestamp unix microseconds are outside supported range"@,
        ),
{
    let time = given_time(timestamp_unix_micros);
    check_timestamp(last_error, time.micros, time.supported)
}

/// The strings to free after a sanitizer callback, by their handles: the input, the
/// codec identifier and the output, each once though a plugin may hand the same
/// string back.
pub fn sanitizer_strings_to_free(input: usize, codec_id: Option<usize>, output: Option<usize>) -> (r:
    Vec<usize>)
    ensures
        r@.no_duplicates(),
        forall|h: usize|
            r@.contains(h) <==> h == input || codec_id == Some(h) || output == Some(h),
{
    let mut handles: Vec<usize> = Vec::new();
    handles.push(input);
    assert(handles@ == seq![input]);
    if let Some(id) = codec_id {
        if id != input {
            handles.push(id);
            assert(handles@ == seq![input, id]);
        }
    }
    let same_as_codec = match (codec_id, output) {
        (Some(a), Some(b)) => a == b,
        _ => false,
    };
    let ghost before = handles@;
    if let Some(handle) = output {
        if handle != input && !same_as_codec {
            handles.push(handle);
        }
    }
    proof {
        assert forall|h: usize|
            handles@.contains(h) <==> h == input || codec_id == Some(h) || output == Some(h) by {
            assert(before[0] == input);
            assert(handles@[0] == input);
            if codec_id is Some && codec_id->0 != input {
                assert(handles@[1] == codec_id->0);
            }
            if handles@.len() > before.len() {
                assert(handles@[handles@.len() - 1] == output->0);
            }
        }
    }
    handles
}

/// A text is created where there is a place for it and its bytes are text; bytes may be left out
/// only where there are none.
pub proof fn law_texts_are_created_from_bytes(data: Option<Seq<u8>>, len: nat, out_is_null: bool)
    ensures
        string_new_problem(data, len, out_is_null).0 == NemoRelayStatus::Success <==> !out_is_null
            && (data is Some || len == 0) && (data matches Some(bytes) ==> valid_utf8(bytes)),
        out_is_null ==> string_new_problem(data, len, out_is_null) == (
            NemoRelayStatus::NullPointer,
            "out string pointer is null"@,
        ),
        !out_is_null && data is Some && !valid_utf8(data->0) ==> string_new_problem(
            data,
            len,
            out_is_null,
        ).0 == NemoRelayStatus::InvalidUtf8,
{
}

/// An argument is the document that its text denotes; a text that cannot be read and one that is
/// no JSON are told apart.
pub proof fn law_arguments_are_parsed(value: Option<&NativeString>, document: JsonView)
    ensures
        parsed_argument(value) == ParsedArgumentView::Value(document) <==> native_text(value) is Ok
            && json_of(native_text(value)->Ok_0) == Ok::<JsonView, Seq<char>>(document),
        parsed_argument(value) is Unreadable <==> native_text(value) is Err,
        parsed_optional(value) is None <==> value is None,
        value is Some ==> parsed_optional(value) == Some(parsed_argument(value)),
        native_text(None) == Ok::<Seq<char>, ErrorView>(""@),
        value matches Some(s) ==> (native_text(value) is Ok <==> valid_utf8(s.bytes@)),
        value is Some && valid_utf8(value->0.bytes@) ==> native_text(value) == Ok::<
            Seq<char>,
            ErrorView,
        >(decode_utf8(value->0.bytes@)),
{
}

/// What a callback returned is handed on as it is. Where it returned nothing, the plugin's last
/// error says why, or else the fallback.
pub proof fn law_returned_documents_are_handed_on(
    document: JsonView,
    message: Option<Seq<char>>,
    text: Seq<char>,
    fallback: Seq<char>,
    returned: Option<&NativeString>,
)
    ensures
        returned_json(Some(ParsedArgumentView::Value(document)), message, fallback) == Ok::<
            JsonView,
            FlowErrorView,
        >(document),
        returned_json(None, Some(text), fallback) == Err::<JsonView, FlowErrorView>(
            (FlowErrorKind::Internal, text),
        ),
        returned_json(None, None, fallback) == Err::<JsonView, FlowErrorView>(
            (FlowErrorKind::Internal, fallback),
        ),
        returned_json(Some(ParsedArgumentView::Unreadable(text)), message, fallback) == Err::<
            JsonView,
            FlowErrorView,
        >((FlowErrorKind::Internal, text)),
        returned_json(Some(ParsedArgumentView::Malformed(text)), message, fallback) == Err::<
            JsonView,
            FlowErrorView,
        >((FlowErrorKind::Internal, "invalid JSON: "@ + text)),
        returned_text(returned) is Ok <==> native_text(returned) is Ok,
        native_text(returned) matches Ok(t) ==> returned_text(returned) == Ok::<
            Seq<char>,
            FlowErrorView,
        >(t),
        returned_text(returned) matches Err(e) ==> e.0 == FlowErrorKind::Internal,
{
}

/// Arguments of calls: a document is taken as it is, text that cannot be read or parsed is refused
/// with a status of its own, and one that may be left out is then absent.
pub proof fn law_arguments_are_taken(
    document: JsonView,
    text: Seq<char>,
    label: Seq<char>,
    joint: Seq<char>,
    name: Option<&NativeString>,
)
    ensures
        json_argument(ParsedArgumentView::Value(document), label, joint) == Ok::<
            JsonView,
            (NemoRelayStatus, Seq<char>),
        >(document),
        json_argument(ParsedArgumentView::Unreadable(text), label, joint) == Err::<
            JsonView,
            (NemoRelayStatus, Seq<char>),
        >((NemoRelayStatus::InvalidUtf8, text)),
        json_argument(ParsedArgumentView::Malformed(text), label, joint) == Err::<
            JsonView,
            (NemoRelayStatus, Seq<char>),
        >((NemoRelayStatus::InvalidJson, label + joint + text)),
        llm_request_argument(ParsedArgumentView::Value(document), label, Ok(())) == Ok::<
            JsonView,
            (NemoRelayStatus, Seq<char>),
        >(document),
        llm_request_argument(ParsedArgumentView::Value(document), label, Err(text)) == Err::<
            JsonView,
            (NemoRelayStatus, Seq<char>),
        >((NemoRelayStatus::InvalidJson, label + " was not an LLM request: "@ + text)),
        llm_request_argument(ParsedArgumentView::Malformed(text), label, Ok(())) == Err::<
            JsonView,
            (NemoRelayStatus, Seq<char>),
        >((NemoRelayStatus::InvalidJson, label + " was invalid JSON: "@ + text)),
        optional_json_argument(None, label) == Ok::<
            Option<JsonView>,
            (NemoRelayStatus, Seq<char>),
        >(None),
        optional_json_argument(Some(ParsedArgumentView::Value(document)), label) == Ok::<
            Option<JsonView>,
            (NemoRelayStatus, Seq<char>),
        >(Some(document)),
        optional_json_argument(Some(ParsedArgumentView::Malformed(text)), label) == Err::<
            Option<JsonView>,
            (NemoRelayStatus, Seq<char>),
        >((NemoRelayStatus::InvalidJson, label + " is not valid JSON: "@ + text)),
        optional_json_argument(Some(ParsedArgumentView::Unreadable(text)), label) == Err::<
            Option<JsonView>,
            (NemoRelayStatus, Seq<char>),
        >((NemoRelayStatus::InvalidUtf8, text)),
        name_report(name) is None <==> native_text(name) is Ok,
        name_report(name) matches Some(report) ==> report.status == NemoRelayStatus::InvalidUtf8,
        native_text(name) matches Ok(t) ==> name_argument(name) == Ok::<
            Seq<char>,
            (NemoRelayStatus, Seq<char>),
        >(t),
{
}

/// A time may be left out; one that is given is kept, and is supported within the range of the
/// calendar.
pub proof fn law_times_are_kept(time: Option<i64>)
    ensures
        time_given(time).micros == time,
        time_given(None).supported,
        time matches Some(micros) ==> (time_given(time).supported <==> -8_334_601_228_800_000_000
            <= micros <= 8_210_266_876_799_999_999),
{
}

/// What is told of bytes that are no text, and of missing ones.
pub proof fn law_unreadable_strings_are_told(s: &NativeString, bytes: Seq<u8>, len: nat)
    ensures
        !valid_utf8(s.bytes@) ==> native_text(Some(s)) == Err::<Seq<char>, ErrorView>(
            (
                PluginErrorKind::InvalidConfig,
                "native string is not valid UTF-8: "@ + utf8_error_of(s.bytes@),
            ),
        ),
        len > 0 ==> string_new_problem(None, len, false) == (
            NemoRelayStatus::NullPointer,
            "string data pointer is null"@,
        ),
        !valid_utf8(bytes) ==> string_new_problem(Some(bytes), len, false) == (
            NemoRelayStatus::InvalidUtf8,
            "string data is not valid UTF-8: "@ + utf8_error_of(bytes),
        ),
{
}

/// A document that is taken is the one that was expected and leaves the last error alone; a refusal
/// has the expected status and sets the expected error.
pub proof fn law_documents_are_reported_as_expected(
    r: Result<Json, NemoRelayStatus>,
    document: JsonView,
    status: NemoRelayStatus,
    message: Seq<char>,
    before: LastError,
    after: LastError,
)
    ensures
        reported_json(r, Ok(document), before, after) <==> r is Ok && json_view(r->Ok_0) == document
            && after == before,
        reported_json(r, Err((status, message)), before, after) <==> r == Err::<
            Json,
            NemoRelayStatus,
        >(status) && after@ == Some(message),
{
}

} // verus!
