//! The two-way classification of a failed API call.

use vstd::prelude::*;
use vstd::string::*;

verus! {

/// Whether a failed call may be retried. The classification is made once,
/// where the failure is first recognised, and never changes afterwards.
#[derive(Debug)]
pub enum ApiErrorKind {
    /// The call failed but is safe to retry; the string describes the cause.
    Recoverable(String),
    /// The call failed in a way that must not be retried: the caller reports
    /// a fatal failure and stops the current unit of work.
    Unrecoverable(String),
}

/// What precedes the message when a recoverable kind is displayed.
pub open spec fn recoverable_label() -> Seq<char> {
    "Recoverable API error: "@
}

/// What precedes the message when an unrecoverable kind is displayed.
pub open spec fn unrecoverable_label() -> Seq<char> {
    "Unrecoverable API error: "@
}

impl ApiErrorKind {
    /// The cause description that the kind carries.
    pub open spec fn message_view(&self) -> Seq<char> {
        match self {
            ApiErrorKind::Recoverable(m) => m@,
            ApiErrorKind::Unrecoverable(m) => m@,
        }
    }

    /// True exactly for the `Recoverable` variant.
    pub open spec fn recoverable(&self) -> bool {
        self is Recoverable
    }

    /// The text that the kind displays as: its variant's label, then the
    /// message, unchanged and in full.
    pub open spec fn display_view(&self) -> Seq<char> {
        match self {
            ApiErrorKind::Recoverable(m) => recoverable_label() + m@,
            ApiErrorKind::Unrecoverable(m) => unrecoverable_label() + m@,
        }
    }

    /// Two kinds are alike when they are the same variant with the same
    /// message.
    pub open spec fn alike(&self, other: &ApiErrorKind) -> bool {
        match (self, other) {
            (ApiErrorKind::Recoverable(a), ApiErrorKind::Recoverable(b)) => a@ == b@,
            (ApiErrorKind::Unrecoverable(a), ApiErrorKind::Unrecoverable(b)) => a@ == b@,
            _ => false,
        }
    }

    /// The cause description.
    pub fn message(&self) -> (text: &str)
        ensures
            text@ == self.message_view(),
    {
        match self {
            ApiErrorKind::Recoverable(m) => m.as_str(),
            ApiErrorKind::Unrecoverable(m) => m.as_str(),
        }
    }

    /// Whether a call that failed with this kind should be retried. Every
    /// variant is matched by name, so a new variant has to be decided here.
    pub fn is_recoverable(&self) -> (retry: bool)
        ensures
            retry == self.recoverable(),
    {
        match self {
            ApiErrorKind::Recoverable(_) => true,
            ApiErrorKind::Unrecoverable(_) => false,
        }
    }

    /// Renders the kind for a reader: label and message.
    pub fn to_string(&self) -> (text: String)
        ensures
            text@ == self.display_view(),
    {
        match self {
            ApiErrorKind::Recoverable(m) => {
                String::from_str("Recoverable API error: ").concat(m.as_str())
            },
            ApiErrorKind::Unrecoverable(m) => {
                String::from_str("Unrecoverable API error: ").concat(m.as_str())
            },
        }
    }
}

impl Clone for ApiErrorKind {
    fn clone(&self) -> (copy: Self)
        ensures
            copy == *self,
    {
        match self {
            ApiErrorKind::Recoverable(m) => ApiErrorKind::Recoverable(m.clone()),
            ApiErrorKind::Unrecoverable(m) => ApiErrorKind::Unrecoverable(m.clone()),
        }
    }
}

impl PartialEq for ApiErrorKind {
    fn eq(&self, other: &ApiErrorKind) -> (same: bool) {
        match (self, other) {
            (ApiErrorKind::Recoverable(a), ApiErrorKind::Recoverable(b)) => a.eq(b),
            (ApiErrorKind::Unrecoverable(a), ApiErrorKind::Unrecoverable(b)) => a.eq(b),
            _ => false,
        }
    }
}

impl vstd::std_specs::cmp::PartialEqSpecImpl for ApiErrorKind {
    open spec fn obeys_eq_spec() -> bool {
        true
    }

    open spec fn eq_spec(&self, other: &ApiErrorKind) -> bool {
        self.alike(other)
    }
}

} // verus!
