//! The error taxonomy of the verification flow, and the user-facing
//! error page text built from it.

use vstd::prelude::*;

verus! {

/// An error surfaced by the verification flow.
///
/// `NotFound` covers a token that is absent or already completed (the two
/// are indistinguishable to callers, so a used token leaks nothing).
/// `Storage` means the token table could not be read or durably written;
/// the whole request is safe to retry. `ExternalService` means a platform
/// call failed (membership lookup, privilege grant), with a short
/// user-visible detail naming which; the confirm step never completes a
/// token on this class, so a retry is possible.
/// `Message` carries a free-form user-visible message.
pub enum VerificationError {
    NotFound,
    Storage,
    ExternalService { detail: String },
    Message { field: String },
}

/// The fixed prefix of every user-visible error message.
pub open spec fn error_prefix() -> Seq<char> {
    "Unable to link your accounts: "@
}

impl VerificationError {
    /// The HTTP status class each error maps to: not-found errors are
    /// user errors, storage and platform failures are server errors,
    /// free-form messages are bad requests.
    pub fn status_code(&self) -> (code: u16)
        ensures
            code == match self {
                VerificationError::NotFound => 404u16,
                VerificationError::Storage => 500u16,
                VerificationError::ExternalService { .. } => 500u16,
                VerificationError::Message { .. } => 400u16,
            },
    {
        match self {
            VerificationError::NotFound => 404,
            VerificationError::Storage => 500,
            VerificationError::ExternalService { .. } => 500,
            VerificationError::Message { .. } => 400,
        }
    }

    /// The short human-readable description of the error, without the
    /// user-facing prefix.
    pub fn description(&self) -> (text: String)
        ensures
            text@ == self.description_spec(),
    {
        match self {
            VerificationError::NotFound => String::from_str("invalid or already-used token"),
            VerificationError::Storage => String::from_str("storage failure"),
            VerificationError::ExternalService { detail } => detail.clone(),
            VerificationError::Message { field } => field.clone(),
        }
    }

    /// The full body of the error page shown to the user: the fixed
    /// prefix followed by the error's description. No internal detail
    /// beyond the description is ever exposed.
    pub fn page_body(&self) -> (body: String)
        ensures
            body@ == error_prefix() + self.description_spec(),
    {
        let mut body = String::from_str("Unable to link your accounts: ");
        body.append(self.description().as_str());
        body
    }

    /// What `description` returns, as a spec-level function of the variant.
    pub open spec fn description_spec(&self) -> Seq<char> {
        match self {
            VerificationError::NotFound => "invalid or already-used token"@,
            VerificationError::Storage => "storage failure"@,
            VerificationError::ExternalService { detail } => detail@,
            VerificationError::Message { field } => field@,
        }
    }
}

/// Wraps a free-form message as a user-visible verification error.
pub fn error_page(msg: &str) -> (err: VerificationError)
    ensures
        err matches VerificationError::Message { field } && field@ == msg@,
{
    VerificationError::Message { field: msg.to_owned() }
}

} // verus!
