//! The captured call stacks and underlying failures of the `failure` crate,
//! as far as this library touches them. Nothing here is proved: each item
//! states what the library takes on trust about code outside it.

use vstd::prelude::*;

verus! {

/// `failure::Backtrace`: a call stack that may or may not have been captured.
/// Opaque here; it is only carried, asked whether it is empty, and rendered.
#[verifier::external_type_specification]
#[verifier::external_body]
pub struct ExBacktrace(failure::Backtrace);

/// `failure::Error`: a boxed failure of any type together with its backtrace.
/// Opaque here; it is only carried and asked for its backtrace.
#[verifier::external_type_specification]
#[verifier::external_body]
pub struct ExError(failure::Error);

/// `failure::Backtrace::new`. Whether a stack is really captured is decided
/// by the process environment, so nothing is claimed of the value returned.
pub assume_specification[ failure::Backtrace::new ]() -> (trace: failure::Backtrace);

/// Whether a backtrace is empty: whether capturing was switched off when it
/// was taken, so that it holds no stack and renders as nothing.
pub uninterp spec fn trace_is_empty(trace: failure::Backtrace) -> bool;

/// `failure::Backtrace::is_empty`. The answer is read off the backtrace and
/// depends on nothing else, so one backtrace always gives the same answer.
pub assume_specification[ failure::Backtrace::is_empty ](trace: &failure::Backtrace) -> (empty:
    bool)
    ensures
        empty == trace_is_empty(*trace),
;

/// The backtrace that a failure carries: its own where it brought one, else
/// the one taken when it was boxed.
pub uninterp spec fn trace_of_cause(cause: failure::Error) -> failure::Backtrace;

/// `failure::Error::backtrace`. The trace handed out lies inside the failure:
/// the one that the boxed value answers with from its own `Fail::backtrace`,
/// else the one stored beside it. None is taken by the call, so one failure
/// hands out the same trace each time, as long as the boxed value does.
pub assume_specification<'a>[ failure::Error::backtrace ](cause: &'a failure::Error) -> (trace:
    &'a failure::Backtrace)
    ensures
        *trace == trace_of_cause(*cause),
;

/// The `Debug` rendering of a `failure::Backtrace`, as `format!` produces it.
/// The text depends on the symbols that the running binary can resolve, so
/// nothing is claimed of it.
#[verifier::external_body]
pub(crate) fn render_backtrace(trace: &failure::Backtrace) -> (text: String) {
    format!("{:?}", trace)
}

} // verus!
