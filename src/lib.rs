//! A unified error type for fallible code, with helpers that build failures,
//! add context to them, and bring errors of other types into the unified form.
//!
//! The error type is `anyhow::Error`; the verified model of an error is the
//! sequence of messages of its cause chain, outermost first (`report::chain_of`).

pub mod construct;
pub mod normalize;
pub mod report;

pub use anyhow::{Error, Result};
pub use construct::{anyerr, context, ensure, err, with_context};
pub use normalize::{from_boxed_error, wrap_err, BoxedError};
pub use report::{message, messages};
