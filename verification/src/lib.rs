//! Ceremony orchestration for a WebAuthn relying party.
//!
//! The crate tracks, per user, the registration and the authentication that
//! are in flight and the credential that is enrolled, and drives each ceremony
//! from its challenge to a credential record or a structured failure. The
//! cryptography is done by `webauthn_rs`; every call into it is made in
//! [`engine`], and everything decided around those calls is verified.
//!
//! - [`identity`]: the identity of a user and its text.
//! - [`credential`]: the credential store, with the rule of the signature
//!   counter.
//! - [`ceremony`]: the store of pending ceremonies.
//! - [`party`]: the four ceremony operations on the two stores.
//! - [`error`]: what a failed operation reports.
//! - [`model`]: the operations as functions on a mathematical state.
//! - [`laws`]: what holds of those functions in every state.
//! - [`history`]: what holds of every state that can be reached.
//! - [`engine`]: the calls into `webauthn_rs`, and what is believed of them.

pub mod ceremony;
pub mod credential;
pub mod engine;
pub mod error;
pub mod history;
pub mod identity;
pub mod laws;
pub mod model;
pub mod party;
