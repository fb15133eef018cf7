//! Signature algorithms of the allow-list and the check of a signature
//! against a public key.

use vstd::prelude::*;
use crate::text::same_text;

verus! {

/// The asymmetric algorithms a verifier may allow: RSASSA-PKCS1-v1_5 with
/// one of three SHA-2 digests.
#[derive(Clone, Copy, Debug, PartialEq, Eq, Structural)]
pub enum SigningAlgorithm {
    Rs256,
    Rs384,
    Rs512,
}

/// The algorithm that a header's `alg` member names, if it is one of the
/// asymmetric algorithms this crate knows.
pub open spec fn algorithm_named(name: Seq<char>) -> Option<SigningAlgorithm> {
    if name == "RS256"@ {
        Some(SigningAlgorithm::Rs256)
    } else if name == "RS384"@ {
        Some(SigningAlgorithm::Rs384)
    } else if name == "RS512"@ {
        Some(SigningAlgorithm::Rs512)
    } else {
        None
    }
}

impl SigningAlgorithm {
    /// Reads an algorithm identifier. Identifiers are case-sensitive; any
    /// other text, `none` and the symmetric algorithms among them, names
    /// nothing.
    pub fn named(name: &str) -> (out: Option<SigningAlgorithm>)
        ensures
            out == algorithm_named(name@),
    {
        if same_text(name, "RS256") {
            Some(SigningAlgorithm::Rs256)
        } else if same_text(name, "RS384") {
            Some(SigningAlgorithm::Rs384)
        } else if same_text(name, "RS512") {
            Some(SigningAlgorithm::Rs512)
        } else {
            None
        }
    }
}

/// Whether `signature` is a valid signature of `message` under the RSA
/// public key (`modulus`, `exponent`) and the given algorithm. Modulus,
/// exponent and signature are big-endian byte strings.
pub uninterp spec fn signature_accepted(
    algorithm: SigningAlgorithm,
    modulus: Seq<u8>,
    exponent: Seq<u8>,
    message: Seq<u8>,
    signature: Seq<u8>,
) -> bool;

/// Checks a signature with the RustCrypto verifier that `jsonwebtoken`
/// ships: `jsonwebtoken::crypto::rust_crypto::DEFAULT_PROVIDER`'s
/// `verifier_factory`, then `signature::Verifier::verify` on what it made.
///
/// Nothing is proved of this function. Its contract only gives the answer a
/// name: the same key, message and signature always get the same answer.
/// A key that the `rsa` crate refuses (an even or oversized modulus, an
/// exponent out of range) gets `false`, as does a signature of the wrong
/// length.
#[verifier::external_body]
pub(crate) fn check_signature(
    algorithm: SigningAlgorithm,
    modulus: &[u8],
    exponent: &[u8],
    message: &[u8],
    signature: &[u8],
) -> (accepted: bool)
    ensures
        accepted == signature_accepted(algorithm, modulus@, exponent@, message@, signature@),
{
    let outside = match algorithm {
        SigningAlgorithm::Rs256 => jsonwebtoken::Algorithm::RS256,
        SigningAlgorithm::Rs384 => jsonwebtoken::Algorithm::RS384,
        SigningAlgorithm::Rs512 => jsonwebtoken::Algorithm::RS512,
    };
    let key = jsonwebtoken::DecodingKey::from_rsa_raw_components(modulus, exponent);
    match (jsonwebtoken::crypto::rust_crypto::DEFAULT_PROVIDER.verifier_factory)(&outside, &key) {
        Ok(verifier) => jsonwebtoken::signature::Verifier::verify(verifier.as_ref(), message, &signature.to_vec()).is_ok(),
        Err(_) => false,
    }
}

} // verus!
