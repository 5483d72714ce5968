//! The error taxonomy of the authentication and invitation core.
//!
//! Every failure of the core is one of these typed values; the core never
//! chooses how an error is rendered, it only produces the typed failure.

use vstd::prelude::*;

verus! {

/// A typed failure of the authentication or invitation protocol.
#[derive(Clone, Copy, Debug, PartialEq, Eq, Structural)]
pub enum AuthError {
    /// An algorithm tag other than the two supported ones was supplied.
    UnsupportedAlgorithm,
    /// Key material of the wrong size for the chosen algorithm.
    InvalidKeyLength,
    /// An embedded public key that is malformed or of the wrong size.
    InvalidPublicKey,
    /// An embedded signature of the wrong size.
    InvalidSignature,
    /// A signature that does not verify against the payload.
    SignatureMismatch,
    /// An operation was invoked against an envelope of the wrong algorithm.
    WrongMode,
    /// An invite was redeemed for an account identifier that already exists.
    AccountAlreadyExists,
    /// A malformed invite token, or one whose identifier is not a
    /// lowercase version-4 UUID.
    InvalidInvite,
    /// An admin or invite-minting token that does not match the derived secret.
    Unauthorized,
    /// Textual input that is not valid in its expected encoding.
    InvalidEncoding,
    /// A name that exceeds the configured length bound.
    NameTooLong,
}

impl AuthError {
    /// A short textual reason, surfaced to callers by the reporting layer.
    pub fn message(&self) -> (r: &'static str)
        ensures
            *self is UnsupportedAlgorithm ==> r@ == "unsupported algorithm"@,
            *self is Unauthorized ==> r@ == "invalid token"@,
    {
        match self {
            AuthError::UnsupportedAlgorithm => "unsupported algorithm",
            AuthError::InvalidKeyLength => "invalid key length",
            AuthError::InvalidPublicKey => "invalid public key",
            AuthError::InvalidSignature => "invalid signature",
            AuthError::SignatureMismatch => "signature mismatch",
            AuthError::WrongMode => "wrong algorithm for this operation",
            AuthError::AccountAlreadyExists => "author already exists",
            AuthError::InvalidInvite => "invalid invite",
            AuthError::Unauthorized => "invalid token",
            AuthError::InvalidEncoding => "invalid encoding",
            AuthError::NameTooLong => "name is too long",
        }
    }
}

/// How a failure is rendered by the surrounding HTTP layer: as a JSON body
/// or as a generic HTML failure page. The core never picks the rendering.
#[derive(Clone, Copy, Debug, PartialEq, Eq, Structural)]
pub enum ErrorReporting {
    Html,
    Json,
}

} // verus!
