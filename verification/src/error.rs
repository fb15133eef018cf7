//! Why a token was refused.

use vstd::prelude::*;

verus! {

/// The ways in which verification of a token ends without claims. Every
/// kind but `KeyFetchFailed` is final for the token that caused it; a failed
/// key fetch is transient and the same token may be presented again.
#[derive(Clone, Copy, Debug, PartialEq, Eq, Structural)]
pub enum VerificationError {
    /// Not three base64url segments, a header or payload that is no
    /// document, or a document that lacks a member every token must carry.
    MalformedToken,
    /// The header names an algorithm outside the allow-list.
    UnsupportedAlgorithm,
    /// The key set, refreshed once, holds no key under the header's key id.
    UnknownSigningKey,
    /// The signature does not belong to the signed part under the key.
    SignatureInvalid,
    /// The expiry time lies further back than the tolerance.
    Expired,
    /// The not-before time lies further ahead than the tolerance.
    NotYetValid,
    /// The issuer is not the configured one.
    IssuerMismatch,
    /// The configured audience is not among the token's audiences.
    AudienceMismatch,
    /// The provider's key set could not be fetched.
    KeyFetchFailed,
}

impl VerificationError {
    /// Whether presenting the same token again can end differently.
    pub open spec fn transient(self) -> bool {
        self == VerificationError::KeyFetchFailed
    }

    /// Whether the caller may retry: only a failed key fetch is worth it.
    pub fn is_transient(&self) -> (out: bool)
        ensures
            out == self.transient(),
    {
        match self {
            VerificationError::KeyFetchFailed => true,
            _ => false,
        }
    }
}

} // verus!
