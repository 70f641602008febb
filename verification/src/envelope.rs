//! The flat record in which an error is reported to the remote API.

use crate::api_error::ApiError;
use crate::api_error::API_ERROR_TYPE;
use crate::lines::lines_of;
use crate::lines::split_lines;
use crate::trace::render_backtrace;
use crate::trace::trace_is_empty;
use failure::Backtrace;
use vstd::prelude::*;
use vstd::string::*;

verus! {

/// The tag of errors that declare no tag of their own.
pub const RUNTIME_ERROR_TYPE: &'static str = "RustRuntimeError";

/// What an [`ErrorResponse`] holds, as plain sequences of characters.
pub ghost struct EnvelopeView {
    /// The message.
    pub message: Seq<char>,
    /// The type tag.
    pub tag: Seq<char>,
    /// The lines of the stack trace, where there is one.
    pub trace: Option<Seq<Seq<char>>>,
}

/// An error as it is sent: a message for people, a type tag for the remote
/// side to dispatch on, and the lines of a stack trace where one was captured.
#[derive(Debug)]
pub struct ErrorResponse {
    /// The message of the error, exactly as the error displays.
    pub error_message: String,
    /// The tag that names the error's category.
    pub error_type: String,
    /// One string for each line of the captured trace, in order; `None` where
    /// no trace was captured.
    pub stack_trace: Option<Vec<String>>,
}

impl View for ErrorResponse {
    type V = EnvelopeView;

    open spec fn view(&self) -> EnvelopeView {
        EnvelopeView {
            message: self.error_message@,
            tag: self.error_type@,
            trace: match self.stack_trace {
                Some(lines) => Some(lines.deep_view()),
                None => None,
            },
        }
    }
}

/// The envelope of an error with the given message and tag, whose captured
/// trace, if any, renders as `trace`: the message and the tag as they are, and
/// the trace cut into its lines, none dropped and none moved.
pub open spec fn envelope_of(
    message: Seq<char>,
    tag: Seq<char>,
    trace: Option<Seq<char>>,
) -> EnvelopeView {
    EnvelopeView {
        message,
        tag,
        trace: match trace {
            Some(text) => Some(lines_of(text)),
            None => None,
        },
    }
}

/// The view of an optional text.
pub open spec fn text_view(text: Option<String>) -> Option<Seq<char>> {
    match text {
        Some(t) => Some(t@),
        None => None,
    }
}

impl ErrorResponse {
    /// Builds the envelope from a message, a tag and the rendering of a
    /// captured trace. `None` stands for no capture and gives no stack trace;
    /// a rendering, even an empty one, gives its lines.
    pub fn with_trace(message: String, err_type: String, trace: Option<String>) -> (envelope:
        ErrorResponse)
        ensures
            envelope@ == envelope_of(message@, err_type@, text_view(trace)),
    {
        let stack_trace = match trace {
            Some(text) => Some(split_lines(text.as_str())),
            None => None,
        };
        ErrorResponse { error_message: message, error_type: err_type, stack_trace }
    }

    /// Builds the envelope of an error from its message, its tag and the
    /// backtrace it carries, if it carries one. A backtrace that is empty,
    /// because capturing was switched off when it was taken, counts as none:
    /// the envelope then has no stack trace, not an empty one. Otherwise the
    /// stack trace holds the lines of the backtrace's rendering.
    pub fn new(message: String, err_type: String, backtrace: Option<&Backtrace>) -> (envelope:
        ErrorResponse)
        ensures
            envelope@.message == message@,
            envelope@.tag == err_type@,
            envelope@.trace is Some <==> backtrace is Some && !trace_is_empty(*backtrace->0),
            envelope@.trace is Some ==> exists|text: Seq<char>|
                envelope@.trace == Some(#[trigger] lines_of(text)),
    {
        let captured = match backtrace {
            Some(stack) => {
                if stack.is_empty() {
                    None
                } else {
                    Some(render_backtrace(stack))
                }
            },
            None => None,
        };
        ErrorResponse::with_trace(message, err_type, captured)
    }

    /// Builds the envelope of an API error: the message is the error's
    /// display text, the tag is the one tag of all API errors, and the stack
    /// trace comes from the error's backtrace as [`ErrorResponse::new`] says.
    pub fn from_error(err: &ApiError) -> (envelope: ErrorResponse)
        ensures
            reports(envelope@, err),
    {
        ErrorResponse::new(
            err.to_string(),
            String::from_str(err.error_type()),
            err.backtrace(),
        )
    }
}

/// What holds of every envelope made of `err`: it carries the error's display
/// text in full and the tag of API errors; it has a stack trace exactly where
/// the error's backtrace is not empty, and that trace is the lines of a text.
pub open spec fn reports(envelope: EnvelopeView, err: &ApiError) -> bool {
    &&& envelope.message == err.display_view()
    &&& envelope.tag == API_ERROR_TYPE@
    &&& envelope.trace is Some <==> !trace_is_empty(err.trace_view())
    &&& envelope.trace is Some ==> exists|text: Seq<char>|
        envelope.trace == Some(#[trigger] lines_of(text))
}

impl From<ApiError> for ErrorResponse {
    fn from(err: ApiError) -> (envelope: ErrorResponse)
        ensures
            reports(envelope@, &err),
    {
        ErrorResponse::from_error(&err)
    }
}

impl vstd::std_specs::convert::FromSpecImpl<ApiError> for ErrorResponse {
    /// The stack trace of the envelope depends on what the running process
    /// can resolve, so the envelope is no function of the error alone.
    open spec fn obeys_from_spec() -> bool {
        false
    }

    open spec fn from_spec(err: ApiError) -> ErrorResponse {
        choose|envelope: ErrorResponse| reports(envelope@, &err)
    }
}

/// Converting one error twice gives two envelopes with the same message and
/// the same tag, and with a stack trace in both or in neither.
pub proof fn lemma_conversion_repeats(err: ApiError, first: ErrorResponse, second: ErrorResponse)
    requires
        reports(first@, &err),
        reports(second@, &err),
    ensures
        first@.message == second@.message,
        first@.tag == second@.tag,
        first@.trace is Some <==> second@.trace is Some,
{
}

/// An error whose backtrace is empty, because capturing was switched off when
/// it was taken, is reported without a stack trace, whatever its kind.
pub proof fn lemma_no_capture_no_trace(err: ApiError, envelope: ErrorResponse)
    requires
        reports(envelope@, &err),
        trace_is_empty(err.trace_view()),
    ensures
        envelope.stack_trace is None,
{
}

/// Building twice from one message, one tag and one rendering gives the same
/// envelope: the stack trace is there in both or in neither, and it is there
/// exactly where there is a rendering.
pub proof fn lemma_envelope_determined(
    message: Seq<char>,
    tag: Seq<char>,
    trace: Option<Seq<char>>,
    first: ErrorResponse,
    second: ErrorResponse,
)
    requires
        first@ == envelope_of(message, tag, trace),
        second@ == envelope_of(message, tag, trace),
    ensures
        first@ == second@,
        first@.trace is Some <==> trace is Some,
{
}

} // verus!
