//! Streams that cross the plugin boundary poll by poll.

use vstd::prelude::*;

use crate::json::{json_view, Json, JsonView};
use crate::native::completion::result_view;
use crate::native::status::{
    flow_error_from_status, flow_error_status, flow_failure, internal, status_error,
    status_from_flow_error, FlowError, FlowErrorKind, FlowErrorView, LastError, NemoRelayStatus,
};
use crate::native::strings::{
    native_text, opt_parsed, parse_optional, parsed_optional, returned_json, take_returned_json,
    write_native_json, NativeString, ParsedArgument, ParsedArgumentView,
};
use crate::text::{concat2, decimal, format_u64};

verus! {

/// State of a stream that a plugin gave to the host.
#[derive(Debug, Clone, Copy, PartialEq, Eq, Structural)]
pub struct NativeRelayLlmStream {
    /// Whether nothing more comes.
    pub finished: bool,
    /// Whether the plugin offers to cancel the stream.
    pub can_cancel: bool,
    /// Whether the plugin still wants to be told that the stream is dropped.
    pub drop_owed: bool,
}

/// The problem of a stream that a plugin gave.
pub open spec fn stream_handle_problem(struct_size: u64, expected_size: u64, has_next: bool) ->
    Option<FlowErrorView> {
    if struct_size != expected_size {
        internal("unsupported native LLM stream struct size: "@ + decimal(struct_size as nat))
    } else if !has_next {
        internal("native LLM stream next callback was null"@)
    } else {
        None
    }
}

/// What polling a plugin's stream gives, by the plugin's answer and what reading it gave: an
/// item, or the end.
pub open spec fn polled(
    status: NemoRelayStatus,
    message: Option<Seq<char>>,
    parsed: Option<ParsedArgumentView>,
) -> Option<Result<JsonView, FlowErrorView>> {
    match status {
        NemoRelayStatus::Success => Some(
            returned_json(parsed, message, "native LLM stream returned null chunk"@),
        ),
        NemoRelayStatus::StreamEnd => None,
        _ => Some(Err(status_error(status, message, "native LLM stream poll failed"@))),
    }
}

impl NativeRelayLlmStream {
    /// Accepts a stream that a plugin gave. One that is refused is dropped.
    pub fn from_raw(
        struct_size: u64,
        expected_size: u64,
        has_next: bool,
        has_cancel: bool,
        has_drop: bool,
    ) -> (r: Result<Self, FlowError>)
        ensures
            flow_failure(r) == stream_handle_problem(struct_size, expected_size, has_next),
            r matches Ok(stream) ==> stream == (NativeRelayLlmStream {
                finished: false,
                can_cancel: has_cancel,
                drop_owed: has_drop,
            }),
    {
        if struct_size != expected_size {
            let size = format_u64(struct_size);
            return Err(
                FlowError::internal(
                    concat2("unsupported native LLM stream struct size: ", size.as_str()),
                ),
            );
        }
        if !has_next {
            return Err(
                FlowError::internal("native LLM stream next callback was null".to_owned()),
            );
        }
        Ok(NativeRelayLlmStream { finished: false, can_cancel: has_cancel, drop_owed: has_drop })
    }

    /// Finishes the stream; says whether the plugin is to be told that it is dropped, which
    /// happens once.
    pub fn finish(&mut self) -> (r: bool)
        ensures
            r == old(self).drop_owed,
            *final(self) == (NativeRelayLlmStream {
                finished: true,
                drop_owed: false,
                ..*old(self)
            }),
    {
        let owed = self.drop_owed;
        self.finished = true;
        self.drop_owed = false;
        owed
    }

    /// Takes the plugin's answer to a poll, by what reading it gave: the next item or the end,
    /// and whether the plugin is to be told that the stream is dropped. Any answer but a
    /// readable chunk finishes the stream; a finished stream is not polled and gives its end.
    pub fn take_parsed_answer(
        &mut self,
        status: NemoRelayStatus,
        last_error: &LastError,
        parsed: Option<ParsedArgument>,
    ) -> (r: (Option<Result<Json, FlowError>>, bool))
        ensures
            old(self).finished ==> r.0 is None && !r.1 && *final(self) == *old(self),
            !old(self).finished ==> {
                let expected = polled(status, last_error@, opt_parsed(parsed));
                &&& match r.0 {
                    Some(item) => expected == Some(result_view(item)),
                    None => expected is None,
                }
                &&& if expected matches Some(Ok(_)) {
                    *final(self) == *old(self) && !r.1
                } else {
                    r.1 == old(self).drop_owed && *final(self) == (NativeRelayLlmStream {
                        finished: true,
                        drop_owed: false,
                        ..*old(self)
                    })
                }
            },
    {
        if self.finished {
            return (None, false);
        }
        match status {
            NemoRelayStatus::Success => {
                match take_returned_json(
                    parsed,
                    last_error,
                    "native LLM stream returned null chunk",
                ) {
                    Ok(value) => (Some(Ok(value)), false),
                    Err(e) => {
                        let owed = self.finish();
                        (Some(Err(e)), owed)
                    },
                }
            },
            NemoRelayStatus::StreamEnd => {
                let owed = self.finish();
                (None, owed)
            },
            _ => {
                let error = flow_error_from_status(
                    status,
                    last_error,
                    "native LLM stream poll failed",
                );
                let owed = self.finish();
                (Some(Err(error)), owed)
            },
        }
    }

    /// Takes the plugin's answer to a poll: the next item or the end, and whether the plugin
    /// is to be told that the stream is dropped.
    pub fn take_answer(
        &mut self,
        status: NemoRelayStatus,
        last_error: &LastError,
        returned: Option<&NativeString>,
    ) -> (r: (Option<Result<Json, FlowError>>, bool))
        ensures
            old(self).finished ==> r.0 is None && !r.1 && *final(self) == *old(self),
            !old(self).finished ==> {
                let expected = polled(status, last_error@, parsed_optional(returned));
                &&& match r.0 {
                    Some(item) => expected == Some(result_view(item)),
                    None => expected is None,
                }
                &&& if expected matches Some(Ok(_)) {
                    *final(self) == *old(self) && !r.1
                } else {
                    r.1 == old(self).drop_owed && *final(self) == (NativeRelayLlmStream {
                        finished: true,
                        drop_owed: false,
                        ..*old(self)
                    })
                }
            },
    {
        self.take_parsed_answer(status, last_error, parse_optional(returned))
    }

    /// Lets the stream go: says whether to cancel it first and whether the plugin is to be
    /// told that it is dropped.
    pub fn release(self) -> (r: (bool, bool))
        ensures
            r == (!self.finished && self.can_cancel, self.drop_owed),
    {
        (!self.finished && self.can_cancel, self.drop_owed)
    }
}

/// State of a stream that the host gave to a plugin.
#[derive(Debug, Clone, Copy, PartialEq, Eq, Structural)]
pub struct NativeHostLlmStream {
    /// Whether there is still a stream to read.
    pub available: bool,
}

/// What reading the host's stream gave.
pub enum HostPoll {
    /// A chunk.
    Chunk(Json),
    /// The end.
    End,
    /// An error, by its kind and the text that it is shown as.
    Failure(FlowErrorKind, String),
    /// The read panicked.
    Panicked,
}

impl NativeHostLlmStream {
    /// A stream that can be read.
    pub fn new() -> (r: Self)
        ensures
            r.available,
    {
        NativeHostLlmStream { available: true }
    }

    /// Begins a poll: says whether to read the stream, which is taken for it.
    pub fn begin_poll(
        &mut self,
        last_error: &mut LastError,
        null_pointer: bool,
    ) -> (r: Result<bool, NemoRelayStatus>)
        ensures
            null_pointer ==> r == Err::<bool, NemoRelayStatus>(NemoRelayStatus::NullPointer)
                && *final(self) == *old(self) && final(last_error)@ == Some(
                "native host LLM stream poll received null pointer"@,
            ),
            !null_pointer ==> r == Ok::<bool, NemoRelayStatus>(old(self).available) && !final(
                self).available && *final(last_error) == *old(last_error),
    {
        if null_pointer {
            last_error.set_text("native host LLM stream poll received null pointer");
            return Err(NemoRelayStatus::NullPointer);
        }
        let available = self.available;
        self.available = false;
        Ok(available)
    }

    /// Ends a poll: hands a chunk over and puts the stream back for the next one, or reports
    /// the end or the error, after which the stream is gone.
    pub fn end_poll(&mut self, last_error: &mut LastError, poll: HostPoll) -> (r: Result<
        NativeString,
        NemoRelayStatus,
    >)
        ensures
            final(self).available == (poll is Chunk),
            match poll {
                HostPoll::Chunk(v) => r is Ok && native_text(Some(&r->Ok_0)) == Ok::<
                    Seq<char>,
                    crate::error::ErrorView,
                >(crate::json_text::json_text_of(json_view(v))) && *final(last_error) == *old(
                    last_error),
                HostPoll::End => r == Err::<NativeString, NemoRelayStatus>(
                    NemoRelayStatus::StreamEnd,
                ) && *final(last_error) == *old(last_error),
                HostPoll::Failure(kind, shown) => r == Err::<NativeString, NemoRelayStatus>(
                    flow_error_status(kind),
                ) && final(last_error)@ == Some(shown@),
                HostPoll::Panicked => r == Err::<NativeString, NemoRelayStatus>(
                    NemoRelayStatus::Internal,
                ) && final(last_error)@ == Some("native host LLM stream poll panicked"@),
            },
    {
        match poll {
            HostPoll::Chunk(value) => {
                self.available = true;
                write_native_json(last_error, &value, false)
            },
            HostPoll::End => {
                self.available = false;
                Err(NemoRelayStatus::StreamEnd)
            },
            HostPoll::Failure(kind, shown) => {
                self.available = false;
                Err(status_from_flow_error(last_error, kind, shown))
            },
            HostPoll::Panicked => {
                self.available = false;
                last_error.set_text("native host LLM stream poll panicked");
                Err(NemoRelayStatus::Internal)
            },
        }
    }

    /// Cancels the stream; later polls find its end.
    pub fn cancel(&mut self, last_error: &mut LastError, null_pointer: bool) -> (r: NemoRelayStatus)
        ensures
            null_pointer ==> r == NemoRelayStatus::NullPointer && *final(self) == *old(self)
                && final(last_error)@ == Some(
                "native host LLM stream cancel received null pointer"@,
            ),
            !null_pointer ==> r == NemoRelayStatus::Success && !final(self).available
                && *final(last_error) == *old(last_error),
    {
        if null_pointer {
            last_error.set_text("native host LLM stream cancel received null pointer");
            return NemoRelayStatus::NullPointer;
        }
        self.available = false;
        NemoRelayStatus::Success
    }
}

/// A stream handle is taken exactly where it has the expected size and can be polled.
pub proof fn law_stream_handles_are_complete(struct_size: u64, expected_size: u64, has_next: bool)
    ensures
        stream_handle_problem(struct_size, expected_size, has_next) is None <==> struct_size
            == expected_size && has_next,
        stream_handle_problem(struct_size, expected_size, has_next) matches Some(e) ==> e.0
            == FlowErrorKind::Internal,
        struct_size == expected_size && !has_next ==> stream_handle_problem(
            struct_size,
            expected_size,
            has_next,
        ) == Some((FlowErrorKind::Internal, "native LLM stream next callback was null"@)),
{
}

/// A poll gives a chunk, the end of the stream, or an error.
pub proof fn law_polls_give_chunks(
    status: NemoRelayStatus,
    message: Option<Seq<char>>,
    parsed: Option<ParsedArgumentView>,
    chunk: JsonView,
)
    ensures
        polled(status, message, parsed) is None <==> status == NemoRelayStatus::StreamEnd,
        polled(status, message, parsed) == Some(Ok::<JsonView, FlowErrorView>(chunk)) <==> status
            == NemoRelayStatus::Success && parsed == Some(ParsedArgumentView::Value(chunk)),
        polled(NemoRelayStatus::Success, None, None) == Some(
            Err::<JsonView, FlowErrorView>(
                (FlowErrorKind::Internal, "native LLM stream returned null chunk"@),
            ),
        ),
        status != NemoRelayStatus::Success && status != NemoRelayStatus::StreamEnd ==> polled(
            status,
            message,
            parsed,
        ) == Some(
            Err::<JsonView, FlowErrorView>(
                status_error(status, message, "native LLM stream poll failed"@),
            ),
        ),
{
}

/// What is told of a stream handle of another size.
pub proof fn law_unknown_stream_handles_are_told(
    struct_size: u64,
    expected_size: u64,
    has_next: bool,
)
    requires
        struct_size != expected_size,
    ensures
        stream_handle_problem(struct_size, expected_size, has_next) == Some(
            (
                FlowErrorKind::Internal,
                "unsupported native LLM stream struct size: "@ + decimal(struct_size as nat),
            ),
        ),
{
}

} // verus!
