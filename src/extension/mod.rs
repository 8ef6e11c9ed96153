//! Integrations with services outside the library.

pub mod sentry;
pub mod worker;
