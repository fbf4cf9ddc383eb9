//! Contact/offer submission service, verified.
//!
//! The library holds the submission pipeline: validating the untrusted form,
//! gating it behind a human-verification round trip, and deciding the outcome
//! of a time-bounded, cancellable notification send. Network transport, the
//! embedded asset store and process bootstrap live outside the library and
//! feed it plain values.

pub mod captcha;
pub mod config;
pub mod err;
pub mod form;
pub mod handler;
pub mod mail;
pub mod resp;
