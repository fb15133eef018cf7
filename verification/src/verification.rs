//! Verification of a presented token against the provider's keys.
//!
//! Verification never fetches anything itself. Where the key set at hand
//! lacks the token's key, the first pass says so; the provider's current
//! keys are fetched once and the second pass, which is final either way,
//! goes by the outcome of that fetch.

use vstd::prelude::*;
use crate::error::VerificationError;
use crate::keys::KeyMaterial;
use crate::keys::SigningKey;
use crate::keys::SigningKeySet;
use crate::signature::algorithm_named;
use crate::signature::check_signature;
use crate::signature::signature_accepted;
use crate::signature::SigningAlgorithm;
use crate::text::same_text;
use crate::token::ClaimSet;
use crate::token::ClaimTime;
use crate::token::ClaimsView;
use crate::token::HeaderView;
use crate::token::PresentedToken;
use crate::token::TokenHeader;
use crate::token::TokenView;

verus! {

/// The verified identity of a request. A value of this type comes out of
/// verification and out of nothing else, and it cannot be changed.
pub struct Claims {
    subject: String,
}

impl View for Claims {
    type V = Seq<char>;

    /// The subject: the provider's stable identifier of the user.
    closed spec fn view(&self) -> Seq<char> {
        self.subject@
    }
}

impl Claims {
    /// The subject: the provider's stable identifier of the user.
    pub fn subject(&self) -> (out: &str)
        ensures
            out@ == self@,
    {
        self.subject.as_str()
    }
}

/// How a pass over a token ended.
pub enum VerifyStep {
    /// Verification is over.
    Finished(Result<Claims, VerificationError>),
    /// The key set at hand has no key under the token's key id. The caller
    /// fetches the provider's current key set and goes on with
    /// [`TokenVerifier::verify_refreshed`].
    NeedKeys,
}

/// The mathematical content of a [`VerifyStep`].
pub enum StepView {
    Finished(Result<Seq<char>, VerificationError>),
    NeedKeys,
}

/// The subject of the claims, or the error.
pub open spec fn verdict_of(verdict: Result<Claims, VerificationError>) -> Result<
    Seq<char>,
    VerificationError,
> {
    match verdict {
        Ok(claims) => Ok(claims@),
        Err(e) => Err(e),
    }
}

impl View for VerifyStep {
    type V = StepView;

    open spec fn view(&self) -> StepView {
        match self {
            VerifyStep::Finished(verdict) => StepView::Finished(verdict_of(*verdict)),
            VerifyStep::NeedKeys => StepView::NeedKeys,
        }
    }
}

/// The clock skew, in seconds, that a verifier grants unless told otherwise.
pub const DEFAULT_LEEWAY: u64 = 60;

/// What a verifier expects of a token.
pub struct TokenVerifier {
    issuer: String,
    audience: String,
    leeway: u64,
    allowed: Vec<SigningAlgorithm>,
}

/// The mathematical content of a [`TokenVerifier`].
pub struct PolicyView {
    /// The issuer every token must name.
    pub issuer: Seq<char>,
    /// The audience every token must be meant for.
    pub audience: Seq<char>,
    /// The clock skew, in seconds, granted at both ends of a token's life.
    pub leeway: int,
    /// The allow-list of signature algorithms.
    pub allowed: Seq<SigningAlgorithm>,
}

impl View for TokenVerifier {
    type V = PolicyView;

    closed spec fn view(&self) -> PolicyView {
        PolicyView {
            issuer: self.issuer@,
            audience: self.audience@,
            leeway: self.leeway as int,
            allowed: self.allowed@,
        }
    }
}

/// The first two steps: the header must name an algorithm of the allow-list
/// and a key. The algorithm is judged first, and before any key is looked
/// at.
pub open spec fn admitted(policy: PolicyView, header: HeaderView) -> Result<
    (SigningAlgorithm, Seq<char>),
    VerificationError,
> {
    match header.alg {
        None => Err(VerificationError::MalformedToken),
        Some(name) => match algorithm_named(name) {
            None => Err(VerificationError::UnsupportedAlgorithm),
            Some(algorithm) => if !policy.allowed.contains(algorithm) {
                Err(VerificationError::UnsupportedAlgorithm)
            } else {
                match header.kid {
                    None => Err(VerificationError::MalformedToken),
                    Some(kid) => Ok((algorithm, kid)),
                }
            },
        },
    }
}

/// The fifth and sixth step, for a token whose signature holds: the token
/// must carry an expiry, be within its lifetime give or take the leeway,
/// come from the expected issuer, be meant for the expected audience and
/// name a subject.
pub open spec fn claims_verdict(policy: PolicyView, claims: ClaimsView, now: int) -> Result<
    Seq<char>,
    VerificationError,
> {
    match claims.exp {
        ClaimTime::Absent => Err(VerificationError::MalformedToken),
        ClaimTime::Unreadable => Err(VerificationError::MalformedToken),
        ClaimTime::At(exp) => if exp + policy.leeway < now {
            Err(VerificationError::Expired)
        } else if claims.nbf is Unreadable {
            Err(VerificationError::MalformedToken)
        } else if claims.nbf matches ClaimTime::At(nbf) && nbf > now + policy.leeway {
            Err(VerificationError::NotYetValid)
        } else if claims.iss != Some(policy.issuer) {
            Err(VerificationError::IssuerMismatch)
        } else if !claims.aud.contains(policy.audience) {
            Err(VerificationError::AudienceMismatch)
        } else {
            match claims.sub {
                None => Err(VerificationError::MalformedToken),
                Some(subject) => Ok(subject),
            }
        },
    }
}

/// Steps four to six, once the key is at hand.
pub open spec fn keyed_verdict(
    policy: PolicyView,
    token: TokenView,
    algorithm: SigningAlgorithm,
    key: KeyMaterial,
    now: int,
) -> Result<Seq<char>, VerificationError> {
    if !signature_accepted(algorithm, key.modulus, key.exponent, token.signed, token.signature) {
        Err(VerificationError::SignatureInvalid)
    } else {
        claims_verdict(policy, token.claims, now)
    }
}

/// The first pass: all six steps against the key set at hand. Only a
/// missing key leaves the verdict open.
pub open spec fn first_pass(
    policy: PolicyView,
    token: TokenView,
    keys: Map<Seq<char>, KeyMaterial>,
    now: int,
) -> StepView {
    match admitted(policy, token.header) {
        Err(e) => StepView::Finished(Err(e)),
        Ok((algorithm, kid)) => if keys.contains_key(kid) {
            StepView::Finished(keyed_verdict(policy, token, algorithm, keys[kid], now))
        } else {
            StepView::NeedKeys
        },
    }
}

/// The second pass, after the one fetch: `fetched` is the provider's
/// current key set, or `None` where the fetch failed. A key that is still
/// missing ends verification.
pub open spec fn second_pass(
    policy: PolicyView,
    token: TokenView,
    fetched: Option<Map<Seq<char>, KeyMaterial>>,
    now: int,
) -> Result<Seq<char>, VerificationError> {
    match admitted(policy, token.header) {
        Err(e) => Err(e),
        Ok((algorithm, kid)) => match fetched {
            None => Err(VerificationError::KeyFetchFailed),
            Some(keys) => if keys.contains_key(kid) {
                keyed_verdict(policy, token, algorithm, keys[kid], now)
            } else {
                Err(VerificationError::UnknownSigningKey)
            },
        },
    }
}

/// The content of a key set that may be absent.
pub open spec fn fetched_view(fetched: Option<&SigningKeySet>) -> Option<Map<Seq<char>, KeyMaterial>> {
    match fetched {
        Some(keys) => Some(keys@),
        None => None,
    }
}

impl TokenVerifier {
    /// A verifier for tokens of `issuer` meant for `audience`, which grants
    /// `leeway` seconds of clock skew and allows `RS256` alone.
    pub fn new(issuer: String, audience: String, leeway: u64) -> (out: TokenVerifier)
        ensures
            out@ == (PolicyView {
                issuer: issuer@,
                audience: audience@,
                leeway: leeway as int,
                allowed: seq![SigningAlgorithm::Rs256],
            }),
    {
        let mut allowed: Vec<SigningAlgorithm> = Vec::new();
        allowed.push(SigningAlgorithm::Rs256);
        assert(allowed@ =~= seq![SigningAlgorithm::Rs256]);
        TokenVerifier { issuer, audience, leeway, allowed }
    }

    /// The same verifier with one more algorithm on its allow-list.
    pub fn allowing(self, algorithm: SigningAlgorithm) -> (out: TokenVerifier)
        ensures
            out@ == (PolicyView { allowed: self@.allowed.push(algorithm), ..self@ }),
    {
        let mut allowed = self.allowed;
        allowed.push(algorithm);
        TokenVerifier { issuer: self.issuer, audience: self.audience, leeway: self.leeway, allowed }
    }

    /// Whether the allow-list holds `algorithm`.
    pub fn allows(&self, algorithm: SigningAlgorithm) -> (out: bool)
        ensures
            out == self@.allowed.contains(algorithm),
    {
        let n: usize = self.allowed.len();
        let mut i: usize = 0;
        while i < n
            invariant
                n == self.allowed@.len(),
                i <= n,
                forall|k: int| 0 <= k < i ==> self.allowed@[k] != algorithm,
            decreases n - i,
        {
            if self.allowed[i] == algorithm {
                return true;
            }
            i = i + 1;
        }
        false
    }

    /// Steps one and two: judges the header's algorithm and reads its key
    /// id.
    pub fn screen<'a>(&self, header: &'a TokenHeader) -> (out: Result<
        (SigningAlgorithm, &'a str),
        VerificationError,
    >)
        ensures
            match out {
                Ok((algorithm, kid)) => admitted(self@, header@) == Ok::<
                    (SigningAlgorithm, Seq<char>),
                    VerificationError,
                >((algorithm, kid@)),
                Err(e) => admitted(self@, header@) == Err::<
                    (SigningAlgorithm, Seq<char>),
                    VerificationError,
                >(e),
            },
    {
        let name = match &header.alg {
            Some(name) => name,
            None => { return Err(VerificationError::MalformedToken); },
        };
        let algorithm = match SigningAlgorithm::named(name.as_str()) {
            Some(algorithm) => algorithm,
            None => { return Err(VerificationError::UnsupportedAlgorithm); },
        };
        if !self.allows(algorithm) {
            return Err(VerificationError::UnsupportedAlgorithm);
        }
        match &header.kid {
            Some(kid) => Ok((algorithm, kid.as_str())),
            None => Err(VerificationError::MalformedToken),
        }
    }

    /// Whether `wanted` is among `list`.
    fn lists(list: &Vec<String>, wanted: &str) -> (out: bool)
        ensures
            out == crate::token::texts_of(list@).contains(wanted@),
    {
        let n: usize = list.len();
        let mut i: usize = 0;
        while i < n
            invariant
                n == list@.len(),
                i <= n,
                forall|k: int| 0 <= k < i ==> crate::token::texts_of(list@)[k] != wanted@,
            decreases n - i,
        {
            if same_text(list[i].as_str(), wanted) {
                assert(crate::token::texts_of(list@)[i as int] == wanted@);
                return true;
            }
            i = i + 1;
        }
        false
    }

    /// Steps five and six: judges the claims of a token whose signature
    /// holds, at the time `now`. Claims are made here and nowhere else.
    fn judge_claims(&self, claims: &ClaimSet, now: u64) -> (out: Result<Claims, VerificationError>)
        ensures
            verdict_of(out) == claims_verdict(self@, claims@, now as int),
    {
        let exp: u64 = match claims.exp {
            ClaimTime::At(exp) => exp,
            _ => { return Err(VerificationError::MalformedToken); },
        };
        if now > self.leeway && exp < now - self.leeway {
            return Err(VerificationError::Expired);
        }
        match claims.nbf {
            ClaimTime::At(nbf) => {
                if nbf > self.leeway && nbf - self.leeway > now {
                    return Err(VerificationError::NotYetValid);
                }
            },
            ClaimTime::Unreadable => { return Err(VerificationError::MalformedToken); },
            ClaimTime::Absent => {},
        }
        match &claims.iss {
            Some(iss) => {
                if !same_text(iss.as_str(), self.issuer.as_str()) {
                    return Err(VerificationError::IssuerMismatch);
                }
            },
            None => { return Err(VerificationError::IssuerMismatch); },
        }
        if !Self::lists(&claims.aud, self.audience.as_str()) {
            return Err(VerificationError::AudienceMismatch);
        }
        match &claims.sub {
            Some(subject) => Ok(Claims { subject: subject.clone() }),
            None => Err(VerificationError::MalformedToken),
        }
    }

    /// Steps four to six with the key at hand.
    fn judge_with_key(
        &self,
        token: &PresentedToken,
        algorithm: SigningAlgorithm,
        key: &SigningKey,
        now: u64,
    ) -> (out: Result<Claims, VerificationError>)
        ensures
            verdict_of(out) == keyed_verdict(self@, token@, algorithm, key.material(), now as int),
    {
        if !check_signature(
            algorithm,
            key.modulus.as_slice(),
            key.exponent.as_slice(),
            token.signed(),
            token.signature(),
        ) {
            return Err(VerificationError::SignatureInvalid);
        }
        self.judge_claims(token.unverified_claims(), now)
    }

    /// The first pass over a token, against the key set at hand and at the
    /// time `now` (seconds since the epoch).
    pub fn verify(&self, token: &PresentedToken, keys: &SigningKeySet, now: u64) -> (step:
        VerifyStep)
        ensures
            step@ == first_pass(self@, token@, keys@, now as int),
    {
        let (algorithm, kid) = match self.screen(token.header()) {
            Ok(pair) => pair,
            Err(e) => { return VerifyStep::Finished(Err(e)); },
        };
        match keys.find(kid) {
            Some(key) => VerifyStep::Finished(self.judge_with_key(token, algorithm, key, now)),
            None => VerifyStep::NeedKeys,
        }
    }

    /// The second pass, after the one fetch on behalf of this token:
    /// `fetched` is the key set that the fetch brought, or `None` where it
    /// failed. The key is looked up once more and never again; the request
    /// that fetched and the requests that waited for it all end here.
    pub fn verify_refreshed(
        &self,
        token: &PresentedToken,
        fetched: Option<&SigningKeySet>,
        now: u64,
    ) -> (out: Result<Claims, VerificationError>)
        ensures
            verdict_of(out) == second_pass(self@, token@, fetched_view(fetched), now as int),
    {
        let (algorithm, kid) = match self.screen(token.header()) {
            Ok(pair) => pair,
            Err(e) => { return Err(e); },
        };
        let keys = match fetched {
            Some(keys) => keys,
            None => { return Err(VerificationError::KeyFetchFailed); },
        };
        match keys.find(kid) {
            Some(key) => self.judge_with_key(token, algorithm, key, now),
            None => Err(VerificationError::UnknownSigningKey),
        }
    }
}

/// The token's header names an allowed algorithm and a key of `keys`, and
/// that key accepts the signature over the signed part.
pub open spec fn well_signed(
    policy: PolicyView,
    token: TokenView,
    keys: Map<Seq<char>, KeyMaterial>,
) -> bool {
    admitted(policy, token.header) matches Ok((algorithm, kid)) && keys.contains_key(kid)
        && signature_accepted(
        algorithm,
        keys[kid].modulus,
        keys[kid].exponent,
        token.signed,
        token.signature,
    )
}

/// The claims are within their lifetime at `now`, give or take the leeway.
pub open spec fn in_time(policy: PolicyView, claims: ClaimsView, now: int) -> bool {
    &&& claims.exp matches ClaimTime::At(exp) && now <= exp + policy.leeway
    &&& claims.nbf !is Unreadable
    &&& claims.nbf matches ClaimTime::At(nbf) ==> nbf <= now + policy.leeway
}

/// The claims name the expected issuer and the expected audience.
pub open spec fn addressed(policy: PolicyView, claims: ClaimsView) -> bool {
    claims.iss == Some(policy.issuer) && claims.aud.contains(policy.audience)
}

/// A token that is well signed by a key at hand, within its lifetime, from
/// the expected issuer and for the expected audience is accepted at the
/// first pass, and the claims carry the token's own subject.
pub proof fn law_valid_token_yields_its_subject(
    policy: PolicyView,
    token: TokenView,
    keys: Map<Seq<char>, KeyMaterial>,
    now: int,
)
    requires
        well_signed(policy, token, keys),
        in_time(policy, token.claims, now),
        addressed(policy, token.claims),
        token.claims.sub is Some,
    ensures
        first_pass(policy, token, keys, now) == StepView::Finished(Ok(token.claims.sub->0)),
{
}

/// The same holds of the second pass, where the key came with the fetch.
pub proof fn law_valid_token_yields_its_subject_after_refresh(
    policy: PolicyView,
    token: TokenView,
    fetched: Map<Seq<char>, KeyMaterial>,
    now: int,
)
    requires
        well_signed(policy, token, fetched),
        in_time(policy, token.claims, now),
        addressed(policy, token.claims),
        token.claims.sub is Some,
    ensures
        second_pass(policy, token, Some(fetched), now) == Ok::<Seq<char>, VerificationError>(
            token.claims.sub->0,
        ),
{
}

/// No token is accepted unless its key accepts its signature: whatever
/// else a token says, claims come out of either pass only for a well-signed
/// one, and they are the claims that the token carries.
pub proof fn law_acceptance_needs_a_signature(
    policy: PolicyView,
    token: TokenView,
    keys: Map<Seq<char>, KeyMaterial>,
    now: int,
)
    ensures
        first_pass(policy, token, keys, now) matches StepView::Finished(Ok(subject)) ==> well_signed(
            policy,
            token,
            keys,
        ) && token.claims.sub == Some(subject) && in_time(
            policy,
            token.claims,
            now,
        ) && addressed(policy, token.claims),
        second_pass(policy, token, Some(keys), now) matches Ok(subject) ==> well_signed(
            policy,
            token,
            keys,
        ) && token.claims.sub == Some(subject) && in_time(
            policy,
            token.claims,
            now,
        ) && addressed(policy, token.claims),
        second_pass(policy, token, None, now) is Err,
{
}

/// A token whose signature its key does not accept ends with
/// `SignatureInvalid`, whatever its claims say and whatever the time.
pub proof fn law_bad_signature_is_refused(
    policy: PolicyView,
    token: TokenView,
    keys: Map<Seq<char>, KeyMaterial>,
    now: int,
)
    requires
        admitted(policy, token.header) matches Ok((algorithm, kid)) && keys.contains_key(kid)
            && !signature_accepted(
            algorithm,
            keys[kid].modulus,
            keys[kid].exponent,
            token.signed,
            token.signature,
        ),
    ensures
        first_pass(policy, token, keys, now) == StepView::Finished(
            Err(VerificationError::SignatureInvalid),
        ),
        second_pass(policy, token, Some(keys), now) == Err::<Seq<char>, VerificationError>(
            VerificationError::SignatureInvalid,
        ),
{
}

/// A token whose header names an algorithm outside the allow-list ends
/// with `UnsupportedAlgorithm` at the first pass, whatever keys are at
/// hand: no key is looked up and none is asked for.
pub proof fn law_disallowed_algorithm_meets_no_key(
    policy: PolicyView,
    token: TokenView,
    keys: Map<Seq<char>, KeyMaterial>,
    fetched: Option<Map<Seq<char>, KeyMaterial>>,
    now: int,
)
    requires
        token.header.alg matches Some(name) && (algorithm_named(name) matches Some(algorithm)
            ==> !policy.allowed.contains(algorithm)),
    ensures
        first_pass(policy, token, keys, now) == StepView::Finished(
            Err(VerificationError::UnsupportedAlgorithm),
        ),
        second_pass(policy, token, fetched, now) == Err::<Seq<char>, VerificationError>(
            VerificationError::UnsupportedAlgorithm,
        ),
{
}

/// A well-signed token whose expiry lies further back than the leeway ends
/// with `Expired`, whatever else it claims.
pub proof fn law_expired_token_is_refused(
    policy: PolicyView,
    token: TokenView,
    keys: Map<Seq<char>, KeyMaterial>,
    now: int,
)
    requires
        well_signed(policy, token, keys),
        token.claims.exp matches ClaimTime::At(exp) && exp + policy.leeway < now,
    ensures
        first_pass(policy, token, keys, now) == StepView::Finished(Err(VerificationError::Expired)),
        second_pass(policy, token, Some(keys), now) == Err::<Seq<char>, VerificationError>(
            VerificationError::Expired,
        ),
{
}

/// The second pass never asks for keys again: with the key still missing
/// after the fetch it ends with `UnknownSigningKey`, and after a failed
/// fetch with `KeyFetchFailed`, the one error worth a retry.
pub proof fn law_one_refresh_at_most(
    policy: PolicyView,
    token: TokenView,
    keys: Map<Seq<char>, KeyMaterial>,
    fetched: Option<Map<Seq<char>, KeyMaterial>>,
    now: int,
)
    requires
        first_pass(policy, token, keys, now) == StepView::NeedKeys,
    ensures
        fetched is None ==> second_pass(policy, token, fetched, now) == Err::<
            Seq<char>,
            VerificationError,
        >(VerificationError::KeyFetchFailed),
        fetched matches Some(fresh) && !fresh.contains_key(admitted(policy, token.header)->Ok_0.1)
            ==> second_pass(policy, token, fetched, now) == Err::<Seq<char>, VerificationError>(
            VerificationError::UnknownSigningKey,
        ),
        second_pass(policy, token, fetched, now) matches Err(e) && e.transient() ==> fetched is None,
{
}

} // verus!
