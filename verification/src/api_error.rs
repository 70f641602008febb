//! The classified error that the client hands to its callers.

use crate::kind::ApiErrorKind;
use crate::trace::trace_of_cause;
use failure::Backtrace;
use failure::Error;
use vstd::prelude::*;
use vstd::string::*;

verus! {

/// The type tag of every [`ApiError`], whatever its kind.
pub const API_ERROR_TYPE: &'static str = "RuntimeApiError";

/// Where an [`ApiError`] comes from.
#[derive(Debug)]
enum Origin {
    /// The error starts a chain; the trace was taken where it was made.
    Captured(Backtrace),
    /// An earlier failure lies under the error and brings its own trace.
    Caused(Error),
}

/// An error of the API client: its classification and its origin. Both are
/// fixed when the error is made.
#[derive(Debug)]
pub struct ApiError {
    kind: ApiErrorKind,
    origin: Origin,
}

impl ApiError {
    /// The classification given when the error was made.
    pub closed spec fn kind_view(&self) -> ApiErrorKind {
        self.kind
    }

    /// The failure under this error, where there is one.
    pub closed spec fn cause_view(&self) -> Option<Error> {
        match self.origin {
            Origin::Captured(_) => None,
            Origin::Caused(cause) => Some(cause),
        }
    }

    /// The trace that the error has held since it was made, where it started
    /// its chain. An error that lies over a cause holds none of its own.
    pub closed spec fn own_trace(&self) -> Option<Backtrace> {
        match self.origin {
            Origin::Captured(own) => Some(own),
            Origin::Caused(_) => None,
        }
    }

    /// The trace that belongs to the error: the one it holds itself where it
    /// started its chain, else the one that its cause carries.
    pub closed spec fn trace_view(&self) -> Backtrace {
        match self.origin {
            Origin::Captured(own) => own,
            Origin::Caused(cause) => trace_of_cause(cause),
        }
    }

    /// True exactly where the error was classified as recoverable.
    pub open spec fn recoverable(&self) -> bool {
        self.kind_view() is Recoverable
    }

    /// The text that the error displays as: that of its kind.
    pub open spec fn display_view(&self) -> Seq<char> {
        self.kind_view().display_view()
    }

    /// Wraps `kind` as the first error of a new chain, with a trace taken
    /// here if capturing is switched on.
    pub fn new(kind: ApiErrorKind) -> (err: ApiError)
        ensures
            err.kind_view() == kind,
            err.cause_view() is None,
            err.own_trace() == Some(err.trace_view()),
    {
        ApiError { kind, origin: Origin::Captured(Backtrace::new()) }
    }

    /// Classifies an earlier failure: the new error keeps `cause` and its
    /// trace and starts no chain of its own.
    pub fn with_cause(kind: ApiErrorKind, cause: Error) -> (err: ApiError)
        ensures
            err.kind_view() == kind,
            err.cause_view() == Some(cause),
            err.own_trace() is None,
            err.trace_view() == trace_of_cause(cause),
    {
        ApiError { kind, origin: Origin::Caused(cause) }
    }

    /// The classification given when the error was made.
    pub fn kind(&self) -> (kind: &ApiErrorKind)
        ensures
            *kind == self.kind_view(),
    {
        &self.kind
    }

    /// Whether the failed call should be retried: true for a recoverable
    /// error and for no other.
    pub fn is_recoverable(&self) -> (retry: bool)
        ensures
            retry == self.recoverable(),
    {
        match &self.kind {
            ApiErrorKind::Recoverable(_) => true,
            ApiErrorKind::Unrecoverable(_) => false,
        }
    }

    /// The failure that this error classifies, if it was made from one.
    pub fn cause(&self) -> (cause: Option<&Error>)
        ensures
            cause is Some == self.cause_view() is Some,
            cause is Some ==> *cause->0 == self.cause_view()->0,
    {
        match &self.origin {
            Origin::Captured(_) => None,
            Origin::Caused(cause) => Some(cause),
        }
    }

    /// The trace that belongs to this error. There always is one, though it
    /// is empty where capturing was switched off. For an error that started
    /// its chain it is the trace held since the error was made; for one that
    /// lies over a cause it is the trace that the cause carries. The call
    /// takes no trace of its own.
    pub fn backtrace(&self) -> (trace: Option<&Backtrace>)
        ensures
            trace is Some,
            *trace->0 == self.trace_view(),
            self.own_trace() is Some ==> *trace->0 == self.own_trace()->0,
            self.cause_view() is Some ==> *trace->0 == trace_of_cause(self.cause_view()->0),
    {
        match &self.origin {
            Origin::Captured(own) => Some(own),
            Origin::Caused(cause) => Some(cause.backtrace()),
        }
    }

    /// Takes the error apart into its kind and the failure under it, if
    /// there is one. An error that started its chain gives up its trace.
    pub fn into_parts(self) -> (parts: (ApiErrorKind, Option<Error>))
        ensures
            parts.0 == self.kind_view(),
            parts.1 == self.cause_view(),
    {
        match self.origin {
            Origin::Captured(_) => (self.kind, None),
            Origin::Caused(cause) => (self.kind, Some(cause)),
        }
    }

    /// The tag under which the error is reported. It is the same for every
    /// error of this type, recoverable or not.
    pub fn error_type(&self) -> (tag: &'static str)
        ensures
            tag@ == API_ERROR_TYPE@,
    {
        API_ERROR_TYPE
    }

    /// Renders the error for a reader, as its kind renders.
    pub fn to_string(&self) -> (text: String)
        ensures
            text@ == self.display_view(),
    {
        self.kind.to_string()
    }
}

/// An error made from a recoverable kind is to be retried, and one made from
/// an unrecoverable kind is not, whatever the message says.
pub proof fn lemma_retry_follows_kind(err: ApiError, message: String)
    ensures
        err.kind_view() == ApiErrorKind::Recoverable(message) ==> err.recoverable(),
        err.kind_view() == ApiErrorKind::Unrecoverable(message) ==> !err.recoverable(),
{
}

impl From<ApiErrorKind> for ApiError {
    fn from(kind: ApiErrorKind) -> (err: ApiError)
        ensures
            err.kind_view() == kind,
            err.cause_view() is None,
            err.own_trace() == Some(err.trace_view()),
    {
        ApiError::new(kind)
    }
}

impl vstd::std_specs::convert::FromSpecImpl<ApiErrorKind> for ApiError {
    /// The trace taken at the conversion depends on the running process, so
    /// the error made is no function of the kind alone.
    open spec fn obeys_from_spec() -> bool {
        false
    }

    open spec fn from_spec(kind: ApiErrorKind) -> ApiError {
        choose|err: ApiError|
            err.kind_view() == kind && err.cause_view() is None && err.own_trace() == Some(
                err.trace_view(),
            )
    }
}

} // verus!
