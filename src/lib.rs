//! Structured errors in the shape of RFC 7807 problem details, and a
//! background pipeline that reports them to an error tracker.

pub mod error;
pub mod extension;

pub use error::{Builder, Error, ErrorView, InvalidStatusCode, StatusCode};
