//! The text that a chunk of a provider's stream carries.

use vstd::prelude::*;

use crate::json::{
    array_view, bool_field, bool_of, field, first_item, first_of, inner_field, inner_text,
    inner_value, is_text, items_of, json_view, opt_view, text_field, text_of, Json, JsonView,
};
use crate::text::{opt_str, opt_text};

verus! {

/// The provider surface whose requests, responses and stream chunks are read.
#[derive(Clone, Copy, Debug, PartialEq, Eq, Structural)]
pub enum LocalGuardrailsCodec {
    /// OpenAI chat completions.
    OpenAIChat,
    /// OpenAI responses.
    OpenAIResponses,
    /// Anthropic messages.
    AnthropicMessages,
    /// OCI generative AI.
    OCIGenAI,
    /// Gemini content generation.
    GeminiGenerateContent,
}

/// A text, or the empty one.
pub open spec fn or_empty(text: Option<Seq<char>>) -> Seq<char> {
    match text {
        Some(t) => t,
        None => Seq::empty(),
    }
}

/// A text, where it is not empty.
pub open spec fn non_empty(text: Seq<char>) -> Option<Seq<char>> {
    if text.len() == 0 {
        None
    } else {
        Some(text)
    }
}

/// What items give, one after another.
pub open spec fn gathered(items: Seq<JsonView>, part: spec_fn(JsonView) -> Seq<char>) -> Seq<
    char,
>
    decreases items.len(),
{
    if items.len() == 0 {
        Seq::empty()
    } else {
        gathered(items.drop_last(), part) + part(items.last())
    }
}

/// The text of a choice of an OpenAI chat chunk.
pub open spec fn chat_delta(choice: JsonView) -> Seq<char> {
    or_empty(text_of(inner_field(field(choice, "delta"@), "content"@)))
}

/// The text of an OpenAI chat chunk: that of its choices, one after another.
pub open spec fn openai_chat_text(chunk: JsonView) -> Option<Seq<char>> {
    match items_of(field(chunk, "choices"@)) {
        Some(choices) => non_empty(gathered(choices, |c: JsonView| chat_delta(c))),
        None => None,
    }
}

/// The text of an OpenAI response event.
pub open spec fn openai_response_text(chunk: JsonView) -> Option<Seq<char>> {
    if text_of(field(chunk, "type"@)) == Some("response.output_text.delta"@) {
        non_empty(or_empty(text_of(field(chunk, "delta"@))))
    } else {
        None
    }
}

/// The text of an Anthropic event.
pub open spec fn anthropic_text(chunk: JsonView) -> Option<Seq<char>> {
    let delta = field(chunk, "delta"@);
    if text_of(field(chunk, "type"@)) == Some("content_block_delta"@) && text_of(
        inner_field(delta, "type"@),
    ) == Some("text_delta"@) {
        non_empty(or_empty(text_of(inner_field(delta, "text"@))))
    } else {
        None
    }
}

/// The text of a part of an OCI message.
pub open spec fn oci_part(part: JsonView) -> Seq<char> {
    if text_of(field(part, "type"@)) == Some("TEXT"@) {
        or_empty(text_of(field(part, "text"@)))
    } else {
        Seq::empty()
    }
}

/// The text of an OCI message: that of its text parts, one after another.
pub open spec fn oci_message(message: Option<JsonView>) -> Seq<char> {
    match items_of(inner_field(message, "content"@)) {
        Some(parts) => gathered(parts, |p: JsonView| oci_part(p)),
        None => Seq::empty(),
    }
}

/// The text of a choice of an OCI event.
pub open spec fn oci_choice(choice: JsonView) -> Seq<char> {
    oci_message(field(choice, "message"@))
}

/// The event inside an OCI envelope, or the event itself.
pub open spec fn oci_event(chunk: JsonView) -> JsonView {
    match field(chunk, "chatResponse"@) {
        Some(JsonView::Object(event)) => JsonView::Object(event),
        _ => chunk,
    }
}

/// The text of an OCI event. A bare text counts unless the event also gives a finish reason, since
/// the last event repeats the whole text; else the choices, or the one message, give theirs.
pub open spec fn oci_genai_text(chunk: JsonView) -> Option<Seq<char>> {
    let event = oci_event(chunk);
    match text_of(field(event, "text"@)) {
        Some(text) => if text_of(field(event, "finishReason"@)) is Some {
            None
        } else {
            non_empty(text)
        },
        None => match items_of(field(event, "choices"@)) {
            Some(choices) => non_empty(gathered(choices, |c: JsonView| oci_choice(c))),
            None => non_empty(oci_message(field(event, "message"@))),
        },
    }
}

/// The text of a part of a Gemini candidate, which a thought does not count as.
pub open spec fn gemini_part(part: JsonView) -> Seq<char> {
    if bool_of(field(part, "thought"@)) == Some(true) {
        Seq::empty()
    } else {
        or_empty(text_of(field(part, "text"@)))
    }
}

/// The text of a Gemini chunk: that of the parts of its first candidate, one after another.
pub open spec fn gemini_text(chunk: JsonView) -> Option<Seq<char>> {
    match items_of(inner_field(inner_field(first_of(field(chunk, "candidates"@)), "content"@), "parts"@)) {
        Some(parts) => non_empty(gathered(parts, |p: JsonView| gemini_part(p))),
        None => None,
    }
}

/// The text that a chunk carries for a codec.
pub open spec fn stream_text(codec: LocalGuardrailsCodec, chunk: JsonView) -> Option<Seq<char>> {
    match codec {
        LocalGuardrailsCodec::OpenAIChat => openai_chat_text(chunk),
        LocalGuardrailsCodec::OpenAIResponses => openai_response_text(chunk),
        LocalGuardrailsCodec::AnthropicMessages => anthropic_text(chunk),
        LocalGuardrailsCodec::OCIGenAI => oci_genai_text(chunk),
        LocalGuardrailsCodec::GeminiGenerateContent => gemini_text(chunk),
    }
}

/// A text, where it is not empty.
fn filled(text: String) -> (r: Option<String>)
    ensures
        opt_text(r) == non_empty(text@),
{
    if text.as_str().is_empty() {
        None
    } else {
        Some(text)
    }
}

/// A copy of a text that may be missing, where it is not empty.
fn filled_str(text: Option<&str>) -> (r: Option<String>)
    ensures
        opt_text(r) == non_empty(or_empty(opt_str(text))),
{
    match text {
        Some(t) => filled(t.to_owned()),
        None => None,
    }
}

/// Adds a text that may be missing.
fn append_opt(out: &mut String, text: Option<&str>)
    ensures
        final(out)@ == old(out)@ + or_empty(opt_str(text)),
{
    match text {
        Some(t) => out.append(t),
        None => {
            assert(out@ =~= out@ + Seq::empty());
        },
    }
}

/// What the first items give does not depend on those that follow.
proof fn lemma_gathered_step(
    items: Seq<JsonView>,
    part: spec_fn(JsonView) -> Seq<char>,
    i: int,
)
    requires
        0 <= i < items.len(),
    ensures
        gathered(items.take(i + 1), part) == gathered(items.take(i), part) + part(items[i]),
{
    assert(items.take(i + 1).drop_last() =~= items.take(i));
}

/// The text of an OpenAI chat chunk.
fn extract_openai_chat_stream_text(chunk: &Json) -> (r: Option<String>)
    ensures
        opt_text(r) == openai_chat_text(json_view(*chunk)),
{
    let choices = match chunk.get("choices") {
        Some(value) => match value.as_array() {
            Some(choices) => choices,
            None => {
                return None;
            },
        },
        None => {
            return None;
        },
    };
    let mut out = String::new();
    let mut i: usize = 0;
    let ghost all = array_view(choices@);
    let ghost part = |c: JsonView| chat_delta(c);
    assert(all.take(0) =~= seq![]);
    while i < choices.len()
        invariant
            i <= choices.len(),
            all == array_view(choices@),
            part == (|c: JsonView| chat_delta(c)),
            out@ == gathered(all.take(i as int), part),
        decreases choices.len() - i,
    {
        append_opt(&mut out, inner_text(choices[i].get("delta"), "content"));
        proof {
            lemma_gathered_step(all, part, i as int);
            assert(all[i as int] == json_view(choices@[i as int]));
        }
        i += 1;
    }
    assert(all.take(all.len() as int) =~= all);
    filled(out)
}

/// The text of an OpenAI response event.
fn extract_openai_response_stream_text(chunk: &Json) -> (r: Option<String>)
    ensures
        opt_text(r) == openai_response_text(json_view(*chunk)),
{
    if is_text(text_field(chunk, "type"), "response.output_text.delta") {
        filled_str(text_field(chunk, "delta"))
    } else {
        None
    }
}

/// The text of an Anthropic event.
fn extract_anthropic_stream_text(chunk: &Json) -> (r: Option<String>)
    ensures
        opt_text(r) == anthropic_text(json_view(*chunk)),
{
    let delta = chunk.get("delta");
    if is_text(text_field(chunk, "type"), "content_block_delta") && is_text(
        inner_text(delta, "type"),
        "text_delta",
    ) {
        filled_str(inner_text(delta, "text"))
    } else {
        None
    }
}

/// Adds the text of an OCI message.
fn collect_generic_text(message: Option<&Json>, out: &mut String)
    ensures
        final(out)@ == old(out)@ + oci_message(opt_view(message)),
{
    let ghost start = out@;
    let parts = match inner_value(message, "content") {
        Some(value) => match value.as_array() {
            Some(parts) => parts,
            None => {
                assert(out@ =~= out@ + Seq::empty());
                return ;
            },
        },
        None => {
            assert(out@ =~= out@ + Seq::empty());
            return ;
        },
    };
    let mut i: usize = 0;
    let ghost all = array_view(parts@);
    let ghost part = |p: JsonView| oci_part(p);
    assert(all.take(0) =~= seq![]);
    assert(start =~= start + Seq::empty());
    while i < parts.len()
        invariant
            i <= parts.len(),
            all == array_view(parts@),
            part == (|p: JsonView| oci_part(p)),
            out@ == start + gathered(all.take(i as int), part),
        decreases parts.len() - i,
    {
        let ghost before = out@;
        if is_text(text_field(&parts[i], "type"), "TEXT") {
            append_opt(out, text_field(&parts[i], "text"));
        } else {
            assert(out@ =~= out@ + Seq::empty());
        }
        proof {
            lemma_gathered_step(all, part, i as int);
            assert(all[i as int] == json_view(parts@[i as int]));
            assert(out@ == before + part(all[i as int]));
            assert(before + part(all[i as int]) =~= start + (gathered(all.take(i as int), part)
                + part(all[i as int])));
        }
        i += 1;
    }
    assert(all.take(all.len() as int) =~= all);
}

/// The text of the choices of an OCI event.
fn collect_choices_text(choices: &Vec<Json>) -> (r: String)
    ensures
        r@ == gathered(array_view(choices@), |c: JsonView| oci_choice(c)),
{
    let mut out = String::new();
    let mut i: usize = 0;
    let ghost all = array_view(choices@);
    let ghost part = |c: JsonView| oci_choice(c);
    assert(all.take(0) =~= seq![]);
    while i < choices.len()
        invariant
            i <= choices.len(),
            all == array_view(choices@),
            part == (|c: JsonView| oci_choice(c)),
            out@ == gathered(all.take(i as int), part),
        decreases choices.len() - i,
    {
        collect_generic_text(choices[i].get("message"), &mut out);
        proof {
            lemma_gathered_step(all, part, i as int);
            assert(all[i as int] == json_view(choices@[i as int]));
        }
        i += 1;
    }
    assert(all.take(all.len() as int) =~= all);
    out
}

/// The text of an OCI event.
fn extract_oci_genai_stream_text(chunk: &Json) -> (r: Option<String>)
    ensures
        opt_text(r) == oci_genai_text(json_view(*chunk)),
{
    let event = match chunk.get("chatResponse") {
        Some(inner) => match inner {
            Json::Object(_) => inner,
            _ => chunk,
        },
        None => chunk,
    };
    match text_field(event, "text") {
        Some(text) => if text_field(event, "finishReason").is_some() {
            None
        } else {
            filled(text.to_owned())
        },
        None => {
            match event.get("choices") {
                Some(value) => match value.as_array() {
                    Some(choices) => {
                        return filled(collect_choices_text(choices));
                    },
                    None => {},
                },
                None => {},
            }
            let mut out = String::new();
            collect_generic_text(event.get("message"), &mut out);
            proof {
                let message = oci_message(field(json_view(*event), "message"@));
                assert(Seq::<char>::empty() + message =~= message);
            }
            filled(out)
        },
    }
}

/// The text of a Gemini chunk.
fn extract_gemini_stream_text(chunk: &Json) -> (r: Option<String>)
    ensures
        opt_text(r) == gemini_text(json_view(*chunk)),
{
    let content = inner_value(first_item(chunk.get("candidates")), "content");
    let parts = match inner_value(content, "parts") {
        Some(value) => match value.as_array() {
            Some(parts) => parts,
            None => {
                return None;
            },
        },
        None => {
            return None;
        },
    };
    let mut out = String::new();
    let mut i: usize = 0;
    let ghost all = array_view(parts@);
    let ghost part = |p: JsonView| gemini_part(p);
    assert(all.take(0) =~= seq![]);
    while i < parts.len()
        invariant
            i <= parts.len(),
            all == array_view(parts@),
            part == (|p: JsonView| gemini_part(p)),
            out@ == gathered(all.take(i as int), part),
        decreases parts.len() - i,
    {
        let thought = match bool_field(&parts[i], "thought") {
            Some(b) => b,
            None => false,
        };
        if !thought {
            append_opt(&mut out, text_field(&parts[i], "text"));
        } else {
            assert(out@ =~= out@ + Seq::empty());
        }
        proof {
            lemma_gathered_step(all, part, i as int);
            assert(all[i as int] == json_view(parts@[i as int]));
        }
        i += 1;
    }
    assert(all.take(all.len() as int) =~= all);
    filled(out)
}

/// The text that a chunk carries, where it carries any.
pub fn extract_stream_text(codec: LocalGuardrailsCodec, chunk: &Json) -> (r: Option<String>)
    ensures
        opt_text(r) == stream_text(codec, json_view(*chunk)),
{
    match codec {
        LocalGuardrailsCodec::OpenAIChat => extract_openai_chat_stream_text(chunk),
        LocalGuardrailsCodec::OpenAIResponses => extract_openai_response_stream_text(chunk),
        LocalGuardrailsCodec::AnthropicMessages => extract_anthropic_stream_text(chunk),
        LocalGuardrailsCodec::OCIGenAI => extract_oci_genai_stream_text(chunk),
        LocalGuardrailsCodec::GeminiGenerateContent => extract_gemini_stream_text(chunk),
    }
}

/// A chunk that is no object carries no text, and no codec gives an empty one.
pub proof fn law_stream_text_is_never_empty(codec: LocalGuardrailsCodec, chunk: JsonView)
    ensures
        stream_text(codec, chunk) matches Some(text) ==> text.len() > 0,
        !(chunk is Object) ==> stream_text(codec, chunk) is None,
{
}

/// The last event of an OCI stream, which gives a finish reason with the whole text, carries none:
/// the text that the earlier events gave is not counted again.
pub proof fn law_oci_final_text_is_not_repeated(chunk: JsonView)
    requires
        text_of(field(oci_event(chunk), "text"@)) is Some,
        text_of(field(oci_event(chunk), "finishReason"@)) is Some,
    ensures
        stream_text(LocalGuardrailsCodec::OCIGenAI, chunk) is None,
{
}

/// The text of a list of parts is that of the parts in order.
pub proof fn law_parts_are_gathered_in_order(
    items: Seq<JsonView>,
    item: JsonView,
    part: spec_fn(JsonView) -> Seq<char>,
    text: Seq<char>,
)
    ensures
        gathered(Seq::empty(), part) == Seq::<char>::empty(),
        gathered(items.push(item), part) == gathered(items, part) + part(item),
        or_empty(Some(text)) == text,
        or_empty(None) == Seq::<char>::empty(),
        text.len() == 0 ==> non_empty(text) is None,
        text.len() > 0 ==> non_empty(text) == Some(text),
{
    assert(items.push(item).drop_last() =~= items);
}

/// Where each provider puts the text of a chunk.
pub proof fn law_chunks_carry_text(chunk: JsonView, part: JsonView, text: Seq<char>)
    requires
        text.len() > 0,
    ensures
        stream_text(LocalGuardrailsCodec::OpenAIChat, chunk) == (match items_of(
            field(chunk, "choices"@),
        ) {
            Some(choices) => non_empty(gathered(choices, |c: JsonView| chat_delta(c))),
            None => None,
        }),
        text_of(inner_field(field(part, "delta"@), "content"@)) == Some(text) ==> chat_delta(part)
            == text,
        text_of(inner_field(field(part, "delta"@), "content"@)) is None ==> chat_delta(part)
            =~= Seq::<char>::empty(),
        stream_text(LocalGuardrailsCodec::OpenAIResponses, chunk) == Some(text) <==> text_of(
            field(chunk, "type"@),
        ) == Some("response.output_text.delta"@) && text_of(field(chunk, "delta"@)) == Some(text),
        stream_text(LocalGuardrailsCodec::AnthropicMessages, chunk) == Some(text) <==> text_of(
            field(chunk, "type"@),
        ) == Some("content_block_delta"@) && text_of(inner_field(field(chunk, "delta"@), "type"@))
            == Some("text_delta"@) && text_of(inner_field(field(chunk, "delta"@), "text"@)) == Some(
            text,
        ),
        text_of(field(part, "type"@)) == Some("TEXT"@) && text_of(field(part, "text"@)) == Some(
            text,
        ) ==> oci_part(part) == text,
        text_of(field(part, "type"@)) != Some("TEXT"@) || text_of(field(part, "text"@)) is None
            ==> oci_part(part) =~= Seq::<char>::empty(),
        bool_of(field(part, "thought"@)) != Some(true) && text_of(field(part, "text"@)) == Some(
            text,
        ) ==> gemini_part(part) == text,
        bool_of(field(part, "thought"@)) == Some(true) || text_of(field(part, "text"@)) is None
            ==> gemini_part(part) =~= Seq::<char>::empty(),
{
}

/// Text of the OCI and the Gemini protocol: the parts of each message, those of the first candidate
/// alone, and no text that repeats a finished answer.
pub proof fn law_messages_carry_text(
    chunk: JsonView,
    message: JsonView,
    parts: Seq<JsonView>,
    choices: Seq<JsonView>,
    text: Seq<char>,
)
    ensures
        items_of(field(message, "content"@)) == Some(parts) ==> oci_message(Some(message))
            == gathered(parts, |p: JsonView| oci_part(p)),
        items_of(field(message, "content"@)) is None ==> oci_message(Some(message))
            =~= Seq::<char>::empty(),
        field(chunk, "chatResponse"@) is None && text_of(field(chunk, "text"@)) == Some(text)
            && text_of(field(chunk, "finishReason"@)) is None && text.len() > 0 ==> stream_text(
            LocalGuardrailsCodec::OCIGenAI,
            chunk,
        ) == Some(text),
        field(chunk, "chatResponse"@) is None && text_of(field(chunk, "text"@)) is None && items_of(
            field(chunk, "choices"@),
        ) == Some(choices) ==> stream_text(LocalGuardrailsCodec::OCIGenAI, chunk) == non_empty(
            gathered(choices, |c: JsonView| oci_message(field(c, "message"@))),
        ),
        field(chunk, "chatResponse"@) is None && text_of(field(chunk, "text"@)) is None && items_of(
            field(chunk, "choices"@),
        ) is None ==> stream_text(LocalGuardrailsCodec::OCIGenAI, chunk) == non_empty(
            oci_message(field(chunk, "message"@)),
        ),
        field(chunk, "chatResponse"@) == Some(message) && message is Object ==> oci_event(chunk)
            == message,
        items_of(field(chunk, "candidates"@)) == Some(choices) && choices.len() > 0 && items_of(
            inner_field(field(choices[0], "content"@), "parts"@),
        ) == Some(parts) ==> stream_text(LocalGuardrailsCodec::GeminiGenerateContent, chunk)
            == non_empty(gathered(parts, |p: JsonView| gemini_part(p))),
        items_of(field(chunk, "candidates"@)) is None ==> stream_text(
            LocalGuardrailsCodec::GeminiGenerateContent,
            chunk,
        ) is None,
{
    lemma_gathered_choices(choices);
}

/// The text of a choice is that of its message.
proof fn lemma_gathered_choices(choices: Seq<JsonView>)
    ensures
        gathered(choices, |c: JsonView| oci_message(field(c, "message"@))) == gathered(
            choices,
            |c: JsonView| oci_choice(c),
        ),
    decreases choices.len(),
{
    if choices.len() > 0 {
        lemma_gathered_choices(choices.drop_last());
    }
}

} // verus!
