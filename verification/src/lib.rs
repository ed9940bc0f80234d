//! Verified core of an account-linking service: the lifecycle of one-time
//! verification tokens that tie a chat-platform identity to an external
//! account identity.
//!
//! The library holds the logic worth proving — the token table and its
//! single-use conditional completion, the issuance decision, and the
//! two-step verification endpoint (display, then confirm) — while HTTP
//! transport, the chat-platform client and the durable database sit
//! outside, driven through the state machines defined here.

pub mod endpoint;
pub mod error;
pub mod issuer;
pub mod store;

use vstd::prelude::*;

verus! {

} // verus!
