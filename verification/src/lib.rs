//! Error reporting for a client of a function runtime's control-plane API.
//!
//! A failure of the client is classified once, as retryable or terminal
//! ([`ApiErrorKind`]), wrapped with its origin ([`ApiError`]) and, when it is
//! finally reported, flattened into a wire-ready envelope ([`ErrorResponse`]).

pub mod api_error;
pub mod envelope;
pub mod kind;
pub mod lines;
pub mod trace;

pub use api_error::ApiError;
pub use envelope::ErrorResponse;
pub use envelope::RUNTIME_ERROR_TYPE;
pub use kind::ApiErrorKind;
