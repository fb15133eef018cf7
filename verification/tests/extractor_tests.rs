use authgate::error::VerificationError;
use authgate::extractor::{
    allow_anonymous, conclude, credential_header, locate_bearer, AuthExtractor, Extraction, Rejection,
    RequestScope,
};
use authgate::keys::{SigningKey, SigningKeySet};
use authgate::query::{rejection_to_caller, PresentationalError};
use authgate::refresh::{KeyCache, MissAdvice};
use authgate::token::present;
use authgate::verification::{TokenVerifier, VerifyStep};

const ISSUER: &str = "https://issuer.example/";
const AUDIENCE: &str = "bookshelf-api";
const SUBJECT: &str = "auth0|user-u";
const NOW: u64 = 1_800_000_000;
const LEEWAY: u64 = 60;

const KEY_1_MODULUS: &str = "oxITMLPi_Rv3zhCkzMQK_zf1-jpoYmq_QYmFYn5PtyvOa9dInYFGTxRBz-ZK40jeSuT357zcL70WemrR\
    kir2vd3fHZuOYl9r6ATLFKm2STXvZiZlDLcEP-VzDeVLcB5WKcuGz0ttuZPiim_WBiBdo5H1rJQAG02_\
    yVhTNOVrTD3VW7rdqZGjSt-XwXV-pE0LSCx0mLBzN75IfKf7LwYnvlq6_O18aH1orV4RiL9VWO6FIupw\
    3ONc8IjgbTkv8ysWF_ZVJ6rwox5sl-zu-JWAIaI3YVD2LZgSekO9XKtffUWvOa6Xe4LelmSxt6ixILMm\
    uLO4nVtqTBR69ObkuPnRSQ";
const KEY_2_MODULUS: &str = "kkAk7colfG527zkhHBs9Fju22F0rNurrxWm_MJIm4CNXjgacQA_DJ3KxQ9DkMNePt_2iQGJi-jtgtjav\
    Q-gIDXFPulnT6wR1cBUhRXZWLhSkBsOYPy_n0f8RrOxClsDCWWs2RC2jsH7QyUZxxR4chh_aT-_s1E6Q\
    aX-XwvuKj0wb4Ly9-YPZj4bKHj_Sgpoc4PfhTAQcXYkW5ytedSFxrbQp1lzJTHkeKFApOlN-v1wNS4MD\
    _EbexkukPDtk_4K60mdBM0JGsWrRvN0ZzvzZ6nTPlmXG5_BAzbmRSHlTltY-D06nxnz6BiDJw83Eoj_U\
    e73qmL_aGN0adiIm4nUN1w";
const EXPONENT: &str = "AQAB";
const VALID_HEADER: &str = "eyJhbGciOiJSUzI1NiIsInR5cCI6IkpXVCIsImtpZCI6ImtleS0xIn0";
const VALID_PAYLOAD: &str = "eyJzdWIiOiJhdXRoMHx1c2VyLXUiLCJpc3MiOiJodHRwczovL2lzc3Vlci5leGFtcGxlLyIsImF1ZCI6\
    ImJvb2tzaGVsZi1hcGkiLCJleHAiOjIwMDAwMDAwMDAsIm5iZiI6MTcwMDAwMDAwMH0";
const VALID_SIGNATURE: &str = "G4uW8z3gyXEyfod3MF98vC9ctDu3LhPkj0_xdMMbjiuySrIhlRi18hyEvCps140S_diK66EPJ4KxvCwq\
    6lJRGdPSyYLsX8GPExBndoyPt19wcR1QFbYz89aDpFhXLOUN-Dn6qjP5w2nVtlSO6o37AQyE1Hhl1e3o\
    x_YHd8e8BGUhIKk7cCD5_zQFDOCJpaZqn2xQBO8wWHfeNv1fx5uhRwSTrip58F6cEX1mFSiomM5jcLzv\
    UbSlcUtmVgckeAFZEYTboZuJF23XtW4rwNGJ6xW5C0msS_kGvzWkQDZo_k-gv03sZv5BJ9T7g1iMbJim\
    WwqjNLrjm6IP29kuJqgxOg";
const OTHER_SUBJECT_HEADER: &str = "eyJhbGciOiJSUzI1NiIsInR5cCI6IkpXVCIsImtpZCI6ImtleS0xIn0";
const OTHER_SUBJECT_PAYLOAD: &str = "eyJzdWIiOiJhdXRoMHx1c2VyLXYiLCJpc3MiOiJodHRwczovL2lzc3Vlci5leGFtcGxlLyIsImF1ZCI6\
    ImJvb2tzaGVsZi1hcGkiLCJleHAiOjIwMDAwMDAwMDAsIm5iZiI6MTcwMDAwMDAwMH0";
const OTHER_SUBJECT_SIGNATURE: &str = "US3rdEG2WypEBFfYeTGszBUH_TEuFn_ZIgIrZFU7cfOpgIy2EKwTCN3RFQSkkdkycDDBjAxAQm1OEf5u\
    7RTn_RpvNej2rdiwAvjexOpQjjfK1g8RcZ6cY1reiuWAxZibK_VOH-Y7csfh4lBabqjT95x1x7jTgj5d\
    szMrnYLShdpbZxKzfImRrkamJHzUcm0yzpWikCGBCGtV7ipvWqGV69vV_pRcgTQtaLE93KlyJ8vrCd9E\
    iPpsxeqjUGSiQPTbcB8xtEGFaszvQ7sRakM3gZ8ukuRdcEK38262mLt8BpYfOMcy2Nw3s908J8wenVva\
    U7v08nZ59_4BX1PzNXjAoQ";
const BY_KEY2_HEADER: &str = "eyJhbGciOiJSUzI1NiIsInR5cCI6IkpXVCIsImtpZCI6ImtleS0yIn0";
const BY_KEY2_PAYLOAD: &str = "eyJzdWIiOiJhdXRoMHx1c2VyLXUiLCJpc3MiOiJodHRwczovL2lzc3Vlci5leGFtcGxlLyIsImF1ZCI6\
    ImJvb2tzaGVsZi1hcGkiLCJleHAiOjIwMDAwMDAwMDAsIm5iZiI6MTcwMDAwMDAwMH0";
const BY_KEY2_SIGNATURE: &str = "VWCiiEmjInhR13r8RCmdPWkuylKdH8MJooue5LlAsSDmId3oSECkPQAaOR1P6D9P4YbM5Mt8a1N39HyJ\
    Isa9JLLzEOFzW423xT1ULD1cal3cxhcqLkM_GtQLqqL_YF_JIoV9h2nb3kiyubAbUBpsPezNFnQT01LQ\
    ZqwyF3ybm13DeM0uOGCXScsSscRMbfydJ-JiabLK7mxk_uG-gLakq6Y3UYELwHqHwMME948IFVjBW4l-\
    v1MRSJ-wYenUjDoaoRrdePAs-AxYdx1JCpNQ-FaOLt1Y58yUFQqcWRSVr6fDKQlehiWQ5pqjcEFzsEuS\
    tzof0LKcuX9-nfi_Q5cOpg";

fn bearer(header: &str, payload: &str, signature: &str) -> String {
    format!("Bearer {}.{}.{}", header, payload, signature)
}

fn key(kid: &str, modulus: &str) -> SigningKey {
    SigningKey::from_encoded(kid.to_string(), modulus.as_bytes(), EXPONENT.as_bytes())
        .expect("the test keys are canonical base64url")
}

fn provider_keys() -> SigningKeySet {
    SigningKeySet::from_keys(vec![key("key-1", KEY_1_MODULUS)])
}

fn rotated_keys() -> SigningKeySet {
    SigningKeySet::from_keys(vec![key("key-1", KEY_1_MODULUS), key("key-2", KEY_2_MODULUS)])
}

fn extractor() -> AuthExtractor {
    AuthExtractor::new(TokenVerifier::new(ISSUER.to_string(), AUDIENCE.to_string(), LEEWAY))
}

fn subject_of(outcome: Result<RequestScope, Rejection>) -> Result<Option<String>, Rejection> {
    outcome.map(|scope| scope.claims().map(|claims| claims.subject().to_string()))
}

fn finished(extraction: Extraction) -> Result<RequestScope, Rejection> {
    match extraction {
        Extraction::Done(outcome) => outcome,
        Extraction::NeedKeys(_) => panic!("the extraction asked for keys"),
    }
}

fn done(extraction: Extraction) -> Result<Option<String>, Rejection> {
    match extraction {
        Extraction::Done(outcome) => subject_of(outcome),
        Extraction::NeedKeys(_) => panic!("the extraction asked for keys"),
    }
}

#[test]
fn bearer_token_follows_the_exact_prefix() {
    assert_eq!(locate_bearer(Some("Bearer abc.def.ghi")), Ok(&b"abc.def.ghi"[..]));
    assert_eq!(locate_bearer(Some("Bearer ")), Ok(&b""[..]));
    assert_eq!(locate_bearer(Some("Bearer  abc")), Ok(&b" abc"[..]));
}

#[test]
fn request_without_the_header_has_no_credential() {
    assert_eq!(locate_bearer(None), Err(Rejection::NoCredential));
}

#[test]
fn header_of_another_scheme_is_no_credential() {
    for value in ["", "Bearer", "bearer abc", "BEARER abc", "Basic dXNlcjpwdw==", " Bearer abc", "Bearerabc", "Token abc"] {
        assert_eq!(locate_bearer(Some(value)), Err(Rejection::NoCredential));
    }
}

#[test]
fn valid_token_puts_its_claims_into_the_scope() {
    let header = bearer(VALID_HEADER, VALID_PAYLOAD, VALID_SIGNATURE);
    let outcome = done(extractor().begin(Some(&header), &provider_keys(), NOW));
    assert_eq!(outcome, Ok(Some(SUBJECT.to_string())));
}

#[test]
fn request_without_the_header_is_rejected_for_want_of_a_credential() {
    let outcome = done(extractor().begin(None, &provider_keys(), NOW));
    assert_eq!(outcome, Err(Rejection::NoCredential));
    let outcome = done(extractor().begin(Some("Basic dXNlcjpwdw=="), &provider_keys(), NOW));
    assert_eq!(outcome, Err(Rejection::NoCredential));
}

#[test]
fn refused_token_is_rejected_with_the_kind_of_refusal() {
    let header = bearer(VALID_HEADER, OTHER_SUBJECT_PAYLOAD, VALID_SIGNATURE);
    let outcome = done(extractor().begin(Some(&header), &provider_keys(), NOW));
    assert_eq!(outcome, Err(Rejection::Refused(VerificationError::SignatureInvalid)));

    let header = bearer(VALID_HEADER, VALID_PAYLOAD, VALID_SIGNATURE);
    let outcome = done(extractor().begin(Some(&header), &provider_keys(), 2_000_000_061));
    assert_eq!(outcome, Err(Rejection::Refused(VerificationError::Expired)));

    let outcome = done(extractor().begin(Some("Bearer not-a-token"), &provider_keys(), NOW));
    assert_eq!(outcome, Err(Rejection::Refused(VerificationError::MalformedToken)));

    let outcome = done(extractor().begin(Some("Bearer "), &provider_keys(), NOW));
    assert_eq!(outcome, Err(Rejection::Refused(VerificationError::MalformedToken)));
}

#[test]
fn every_rejection_looks_the_same_to_the_caller() {
    let kinds = [
        Rejection::NoCredential,
        Rejection::Refused(VerificationError::MalformedToken),
        Rejection::Refused(VerificationError::UnsupportedAlgorithm),
        Rejection::Refused(VerificationError::UnknownSigningKey),
        Rejection::Refused(VerificationError::SignatureInvalid),
        Rejection::Refused(VerificationError::Expired),
        Rejection::Refused(VerificationError::NotYetValid),
        Rejection::Refused(VerificationError::IssuerMismatch),
        Rejection::Refused(VerificationError::AudienceMismatch),
        Rejection::Refused(VerificationError::KeyFetchFailed),
    ];
    for kind in kinds {
        assert_eq!(rejection_to_caller(kind), PresentationalError::Unauthenticated);
    }
    assert_eq!(PresentationalError::Unauthenticated.message(), "authentication required");
}

#[test]
fn anonymous_scope_has_no_claims() {
    assert!(RequestScope::anonymous().claims().is_none());
}

#[test]
fn verdict_is_concluded_into_scope_or_rejection() {
    let token = present(format!("{}.{}.{}", VALID_HEADER, VALID_PAYLOAD, VALID_SIGNATURE).as_bytes())
        .expect("three segments");
    let checker = TokenVerifier::new(ISSUER.to_string(), AUDIENCE.to_string(), LEEWAY);
    let verdict = match checker.verify(&token, &provider_keys(), NOW) {
        VerifyStep::Finished(verdict) => verdict,
        VerifyStep::NeedKeys => panic!("the key is at hand"),
    };
    assert_eq!(subject_of(conclude(verdict)), Ok(Some(SUBJECT.to_string())));
    assert_eq!(
        subject_of(conclude(Err(VerificationError::Expired))),
        Err(Rejection::Refused(VerificationError::Expired))
    );
}

#[test]
fn rotated_key_is_fetched_once_and_the_request_goes_on() {
    let header = bearer(BY_KEY2_HEADER, BY_KEY2_PAYLOAD, BY_KEY2_SIGNATURE);
    let step = extractor();
    let mut cache = KeyCache::new(provider_keys());

    let seen = cache.generation();
    let token = match step.begin(Some(&header), cache.current(), NOW) {
        Extraction::NeedKeys(token) => token,
        Extraction::Done(_) => panic!("the key is not at hand yet"),
    };
    assert_eq!(cache.report_miss(seen), MissAdvice::Fetch);
    cache.complete_fetch(Some(rotated_keys()));
    let outcome = step.finish(&token, Some(cache.current()), NOW);
    assert_eq!(subject_of(outcome), Ok(Some(SUBJECT.to_string())));

    // The next request with the same key finds it at once.
    let outcome = done(step.begin(Some(&header), cache.current(), NOW));
    assert_eq!(outcome, Ok(Some(SUBJECT.to_string())));
}

#[test]
fn waiting_requests_go_by_the_outcome_of_the_one_fetch() {
    let header = bearer(BY_KEY2_HEADER, BY_KEY2_PAYLOAD, BY_KEY2_SIGNATURE);
    let step = extractor();
    let mut cache = KeyCache::new(provider_keys());
    let seen = cache.generation();

    let mut waiting = Vec::new();
    let mut fetches = 0;
    for _ in 0..5 {
        match step.begin(Some(&header), cache.current(), NOW) {
            Extraction::NeedKeys(token) => {
                if cache.report_miss(seen) == MissAdvice::Fetch {
                    fetches += 1;
                }
                waiting.push(token);
            }
            Extraction::Done(_) => panic!("the key is not at hand yet"),
        }
    }
    assert_eq!(fetches, 1);

    // The one fetch fails: every request that waited sees the same failure.
    cache.complete_fetch(None);
    for token in &waiting {
        let outcome = step.finish(token, None, NOW);
        assert_eq!(subject_of(outcome), Err(Rejection::Refused(VerificationError::KeyFetchFailed)));
    }

    // The next fetch succeeds: every request that waited is accepted.
    assert_eq!(cache.report_miss(cache.generation()), MissAdvice::Fetch);
    cache.complete_fetch(Some(rotated_keys()));
    for token in &waiting {
        let outcome = step.finish(token, Some(cache.current()), NOW);
        assert_eq!(subject_of(outcome), Ok(Some(SUBJECT.to_string())));
    }
}

#[test]
fn key_unknown_to_the_provider_is_final() {
    let header = bearer(BY_KEY2_HEADER, BY_KEY2_PAYLOAD, BY_KEY2_SIGNATURE);
    let step = extractor();
    let token = match step.begin(Some(&header), &provider_keys(), NOW) {
        Extraction::NeedKeys(token) => token,
        Extraction::Done(_) => panic!("the key is not at hand"),
    };
    let outcome = step.finish(&token, Some(&provider_keys()), NOW);
    assert_eq!(subject_of(outcome), Err(Rejection::Refused(VerificationError::UnknownSigningKey)));
}

#[test]
fn credential_travels_in_the_authorization_header() {
    assert_eq!(credential_header(), "Authorization");
}

#[test]
fn open_endpoint_lets_a_request_without_credential_go_on_anonymously() {
    let outcome = allow_anonymous(finished(extractor().begin(None, &provider_keys(), NOW)));
    assert_eq!(subject_of(outcome), Ok(None));
    let header = bearer(VALID_HEADER, VALID_PAYLOAD, VALID_SIGNATURE);
    let outcome = allow_anonymous(finished(extractor().begin(Some(&header), &provider_keys(), NOW)));
    assert_eq!(subject_of(outcome), Ok(Some(SUBJECT.to_string())));
    let header = bearer(VALID_HEADER, OTHER_SUBJECT_PAYLOAD, VALID_SIGNATURE);
    let outcome = allow_anonymous(finished(extractor().begin(Some(&header), &provider_keys(), NOW)));
    assert_eq!(subject_of(outcome), Err(Rejection::Refused(VerificationError::SignatureInvalid)));
}
