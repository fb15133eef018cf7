//! The step that runs before a protected field: it finds the bearer token
//! of a request and turns the verdict on it into the request's scope.

use vstd::prelude::*;
use vstd::slice::slice_subrange;
use vstd::string::StringSliceAdditionalSpecFns;
use crate::error::VerificationError;
use crate::keys::KeyMaterial;
use crate::keys::SigningKeySet;
use crate::token::present;
use crate::token::presented;
use crate::token::PresentedToken;
use crate::token::TokenView;
use crate::verification::fetched_view;
use crate::verification::first_pass;
use crate::verification::second_pass;
use crate::verification::verdict_of;
use crate::verification::Claims;
use crate::verification::PolicyView;
use crate::verification::StepView;
use crate::verification::TokenVerifier;
use crate::verification::VerifyStep;

verus! {

/// Why a request carries no verified identity. The two kinds are told
/// apart in logs only: callers get the same answer for both.
#[derive(Clone, Copy, Debug, PartialEq, Eq, Structural)]
pub enum Rejection {
    /// The request has no authorization header, or one that is no bearer
    /// credential: the caller never tried.
    NoCredential,
    /// The request has a bearer token, and verification refused it.
    Refused(VerificationError),
}

/// The name of the header that carries the credential of a request.
pub fn credential_header() -> (out: &'static str)
    ensures
        out@ == "Authorization"@,
{
    "Authorization"
}

/// The scheme that a bearer credential starts with: `Bearer` and one space.
pub open spec fn bearer_prefix() -> Seq<u8> {
    seq![66u8, 101u8, 97u8, 114u8, 101u8, 114u8, 32u8]
}

/// The token of an authorization header's value: what follows the exact
/// prefix, or `None` where the value does not start with it.
pub open spec fn bearer_of(value: Seq<u8>) -> Option<Seq<u8>> {
    if value.len() >= 7 && value.subrange(0, 7) == bearer_prefix() {
        Some(value.subrange(7, value.len() as int))
    } else {
        None
    }
}

/// Finds the bearer token in the value of the authorization header, where
/// `None` stands for a request without that header.
pub fn locate_bearer<'a>(header: Option<&'a str>) -> (out: Result<&'a [u8], Rejection>)
    ensures
        match header {
            None => out == Err::<&[u8], Rejection>(Rejection::NoCredential),
            Some(value) => match bearer_of(value.spec_bytes()) {
                Some(token) => out is Ok && out->Ok_0@ == token,
                None => out == Err::<&[u8], Rejection>(Rejection::NoCredential),
            },
        },
{
    let value = match header {
        Some(value) => value.as_bytes(),
        None => { return Err(Rejection::NoCredential); },
    };
    let n: usize = value.len();
    if n < 7 {
        return Err(Rejection::NoCredential);
    }
    if value[0] != 66 || value[1] != 101 || value[2] != 97 || value[3] != 114 || value[4] != 101
        || value[5] != 114 || value[6] != 32 {
        proof {
            let head = value@.subrange(0, 7);
            assert(head[0] == value@[0] && head[1] == value@[1] && head[2] == value@[2] && head[3]
                == value@[3] && head[4] == value@[4] && head[5] == value@[5] && head[6]
                == value@[6]);
        }
        return Err(Rejection::NoCredential);
    }
    assert(value@.subrange(0, 7) =~= bearer_prefix());
    Ok(slice_subrange(value, 7, n))
}

/// What a request carries through resolution: the verified identity of its
/// caller, or none. Claims get into a scope through [`conclude`] alone, so
/// a field that finds claims in its scope need not verify them again.
pub struct RequestScope {
    claims: Option<Claims>,
}

impl RequestScope {
    /// The subject of the scope's claims, if it has any.
    pub closed spec fn subject(&self) -> Option<Seq<char>> {
        match self.claims {
            Some(claims) => Some(claims@),
            None => None,
        }
    }

    /// The scope of a request that proved no identity.
    pub fn anonymous() -> (out: RequestScope)
        ensures
            out.subject() is None,
    {
        RequestScope { claims: None }
    }

    /// The claims of the request, if it has any.
    pub fn claims(&self) -> (out: Option<&Claims>)
        ensures
            match out {
                Some(claims) => self.subject() == Some(claims@),
                None => self.subject() is None,
            },
    {
        self.claims.as_ref()
    }
}

/// The subject in the scope of a request, or why the request has no scope.
pub open spec fn scope_view(outcome: Result<RequestScope, Rejection>) -> Result<
    Option<Seq<char>>,
    Rejection,
> {
    match outcome {
        Ok(scope) => Ok(scope.subject()),
        Err(rejection) => Err(rejection),
    }
}

/// How an extraction ends on a verdict. A subject is kept for the request;
/// an error refuses the request.
pub open spec fn concluded(verdict: Result<Seq<char>, VerificationError>) -> Result<
    Option<Seq<char>>,
    Rejection,
> {
    match verdict {
        Ok(subject) => Ok(Some(subject)),
        Err(e) => Err(Rejection::Refused(e)),
    }
}

/// Ends the extraction: claims go into the scope of the request, and any
/// refusal, of whatever kind, stops the request.
pub fn conclude(verdict: Result<Claims, VerificationError>) -> (out: Result<RequestScope, Rejection>)
    ensures
        scope_view(out) == concluded(verdict_of(verdict)),
{
    match verdict {
        Ok(claims) => Ok(RequestScope { claims: Some(claims) }),
        Err(e) => Err(Rejection::Refused(e)),
    }
}

/// The outcome for an endpoint that also serves callers without identity:
/// a request without a credential goes on with an anonymous scope, and its
/// protected fields answer for themselves. A refused token still stops
/// the request.
pub open spec fn anonymous_allowed(outcome: Result<Option<Seq<char>>, Rejection>) -> Result<
    Option<Seq<char>>,
    Rejection,
> {
    match outcome {
        Err(Rejection::NoCredential) => Ok(None),
        other => other,
    }
}

/// Lets a request without a credential go on anonymously.
pub fn allow_anonymous(outcome: Result<RequestScope, Rejection>) -> (out: Result<
    RequestScope,
    Rejection,
>)
    ensures
        scope_view(out) == anonymous_allowed(scope_view(outcome)),
{
    match outcome {
        Err(Rejection::NoCredential) => Ok(RequestScope::anonymous()),
        other => other,
    }
}

/// How far the extraction got without new keys.
pub enum Extraction {
    /// The request has its scope, or is rejected.
    Done(Result<RequestScope, Rejection>),
    /// The key of the token is not at hand. The caller reports the miss to
    /// the key cache, acts on the advice, and goes on with
    /// [`AuthExtractor::finish`].
    NeedKeys(PresentedToken),
}

/// The mathematical content of an [`Extraction`].
pub enum ExtractionView {
    Done(Result<Option<Seq<char>>, Rejection>),
    NeedKeys(TokenView),
}

impl View for Extraction {
    type V = ExtractionView;

    open spec fn view(&self) -> ExtractionView {
        match self {
            Extraction::Done(outcome) => ExtractionView::Done(scope_view(*outcome)),
            Extraction::NeedKeys(token) => ExtractionView::NeedKeys(token@),
        }
    }
}

/// The first part of an extraction: `header` is the value of the request's
/// authorization header, by its bytes, or `None` for a request without one.
pub open spec fn begun(
    policy: PolicyView,
    header: Option<Seq<u8>>,
    keys: Map<Seq<char>, KeyMaterial>,
    now: int,
) -> ExtractionView {
    match header {
        None => ExtractionView::Done(Err(Rejection::NoCredential)),
        Some(value) => match bearer_of(value) {
            None => ExtractionView::Done(Err(Rejection::NoCredential)),
            Some(raw) => match presented(raw) {
                None => ExtractionView::Done(
                    Err(Rejection::Refused(VerificationError::MalformedToken)),
                ),
                Some(token) => match first_pass(policy, token, keys, now) {
                    StepView::Finished(verdict) => ExtractionView::Done(concluded(verdict)),
                    StepView::NeedKeys => ExtractionView::NeedKeys(token),
                },
            },
        },
    }
}

/// The bytes of a header value that may be absent.
pub open spec fn header_bytes(header: Option<&str>) -> Option<Seq<u8>> {
    match header {
        Some(value) => Some(value.spec_bytes()),
        None => None,
    }
}

/// The extraction step of one service: it owns the verifier that says what
/// the service expects of a token.
pub struct AuthExtractor {
    verifier: TokenVerifier,
}

impl AuthExtractor {
    /// What this extractor expects of a token.
    pub closed spec fn policy(&self) -> PolicyView {
        self.verifier@
    }

    /// An extractor that verifies with `verifier`.
    pub fn new(verifier: TokenVerifier) -> (out: AuthExtractor)
        ensures
            out.policy() == verifier@,
    {
        AuthExtractor { verifier }
    }

    /// Begins the extraction for a request with the given authorization
    /// header, against the key set at hand and at the time `now`.
    pub fn begin(&self, header: Option<&str>, keys: &SigningKeySet, now: u64) -> (out: Extraction)
        ensures
            out@ == begun(self.policy(), header_bytes(header), keys@, now as int),
    {
        let raw = match locate_bearer(header) {
            Ok(raw) => raw,
            Err(rejection) => { return Extraction::Done(Err(rejection)); },
        };
        let token = match present(raw) {
            Ok(token) => token,
            Err(e) => { return Extraction::Done(Err(Rejection::Refused(e))); },
        };
        match self.verifier.verify(&token, keys, now) {
            VerifyStep::Finished(verdict) => Extraction::Done(conclude(verdict)),
            VerifyStep::NeedKeys => Extraction::NeedKeys(token),
        }
    }

    /// Ends the extraction for a token whose key was missing, by the
    /// outcome of the one fetch made on its behalf: `fetched` is the key
    /// set that the fetch brought, or `None` where it failed.
    pub fn finish(&self, token: &PresentedToken, fetched: Option<&SigningKeySet>, now: u64) -> (out:
        Result<RequestScope, Rejection>)
        ensures
            scope_view(out) == concluded(
                second_pass(self.policy(), token@, fetched_view(fetched), now as int),
            ),
    {
        conclude(self.verifier.verify_refreshed(token, fetched, now))
    }
}

/// A request without a bearer credential is rejected whatever the keys and
/// the time, and no token is looked at.
pub proof fn law_no_credential_no_scope(
    policy: PolicyView,
    header: Option<Seq<u8>>,
    keys: Map<Seq<char>, KeyMaterial>,
    now: int,
)
    requires
        header matches Some(value) ==> bearer_of(value) is None,
    ensures
        begun(policy, header, keys, now) == ExtractionView::Done(Err(Rejection::NoCredential)),
{
}

} // verus!
