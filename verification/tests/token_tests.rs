use authgate::error::VerificationError;
use authgate::token::{find_dots, frame, present, read_claims, read_header, ClaimTime};

#[test]
fn frame_holds_the_decoded_segments_and_the_signed_part() {
    // header "{}", payload "Man", signature bytes 1 0 1
    let found = frame(b"e30.TWFu.AQAB").expect("three canonical segments");
    assert_eq!(found.header, b"{}".to_vec());
    assert_eq!(found.payload, b"Man".to_vec());
    assert_eq!(found.signature, vec![1, 0, 1]);
    assert_eq!(found.signed, b"e30.TWFu".to_vec());
}

#[test]
fn frame_may_have_empty_segments() {
    let found = frame(b"..").expect("two dots");
    assert!(found.header.is_empty());
    assert!(found.payload.is_empty());
    assert!(found.signature.is_empty());
    assert_eq!(found.signed, b".".to_vec());
}

#[test]
fn token_without_three_segments_has_no_frame() {
    assert_eq!(frame(b"").err(), Some(VerificationError::MalformedToken));
    assert_eq!(frame(b"e30").err(), Some(VerificationError::MalformedToken));
    assert_eq!(frame(b"e30.TWFu").err(), Some(VerificationError::MalformedToken));
    assert_eq!(frame(b"e30.TWFu.AQAB.AQAB").err(), Some(VerificationError::MalformedToken));
    assert_eq!(frame(b"...").err(), Some(VerificationError::MalformedToken));
}

#[test]
fn segment_outside_the_alphabet_has_no_frame() {
    assert_eq!(frame(b"e30.TW+u.AQAB").err(), Some(VerificationError::MalformedToken));
    assert_eq!(frame(b"e3=.TWFu.AQAB").err(), Some(VerificationError::MalformedToken));
    assert_eq!(frame(b"e30.TWFu.AQB").err(), Some(VerificationError::MalformedToken));
    assert_eq!(frame(b"e30.T.AQAB").err(), Some(VerificationError::MalformedToken));
    assert_eq!(present(b"e30.T.AQAB").err(), Some(VerificationError::MalformedToken));
}

#[test]
fn dots_are_found_only_if_there_are_two() {
    assert_eq!(find_dots(b"a.b.c"), Some((1, 3)));
    assert_eq!(find_dots(b".."), Some((0, 1)));
    assert_eq!(find_dots(b"ab.cd."), Some((2, 5)));
    assert_eq!(find_dots(b""), None);
    assert_eq!(find_dots(b"abc"), None);
    assert_eq!(find_dots(b"a.b"), None);
    assert_eq!(find_dots(b"a.b.c.d"), None);
}

#[test]
fn header_members_are_read_as_texts() {
    let header = read_header(br#"{"alg":"RS256","typ":"JWT","kid":"key-1"}"#);
    assert_eq!(header.alg, Some("RS256".to_string()));
    assert_eq!(header.kid, Some("key-1".to_string()));
}

#[test]
fn header_member_that_is_no_text_is_not_read() {
    let header = read_header(br#"{"alg":256,"kid":["key-1"]}"#);
    assert_eq!(header.alg, None);
    assert_eq!(header.kid, None);
}

#[test]
fn header_that_is_no_object_has_no_members() {
    for document in [&b"not json"[..], &b""[..], &b"[1,2]"[..], &b"\"RS256\""[..], &b"{\"alg\":"[..]] {
        let header = read_header(document);
        assert_eq!(header.alg, None);
        assert_eq!(header.kid, None);
    }
}

#[test]
fn claims_are_read_member_by_member() {
    let claims = read_claims(
        br#"{"sub":"auth0|user-u","iss":"https://issuer.example/","aud":"bookshelf-api","exp":2000000000,"nbf":1700000000,"extra":true}"#,
    );
    assert_eq!(claims.sub, Some("auth0|user-u".to_string()));
    assert_eq!(claims.iss, Some("https://issuer.example/".to_string()));
    assert_eq!(claims.aud, vec!["bookshelf-api".to_string()]);
    assert_eq!(claims.exp, ClaimTime::At(2_000_000_000));
    assert_eq!(claims.nbf, ClaimTime::At(1_700_000_000));
}

#[test]
fn audience_may_be_a_list() {
    let claims = read_claims(br#"{"aud":["one","two","three"]}"#);
    assert_eq!(claims.aud, vec!["one".to_string(), "two".to_string(), "three".to_string()]);
    let claims = read_claims(br#"{"aud":[]}"#);
    assert!(claims.aud.is_empty());
}

#[test]
fn audience_of_another_form_names_nobody() {
    assert!(read_claims(br#"{"aud":["one",2]}"#).aud.is_empty());
    assert!(read_claims(br#"{"aud":7}"#).aud.is_empty());
    assert!(read_claims(br#"{"aud":{"one":"two"}}"#).aud.is_empty());
    assert!(read_claims(br#"{}"#).aud.is_empty());
}

#[test]
fn time_claims_tell_absent_from_unreadable() {
    let claims = read_claims(br#"{"exp":"tomorrow","sub":"s"}"#);
    assert_eq!(claims.exp, ClaimTime::Unreadable);
    assert_eq!(claims.nbf, ClaimTime::Absent);
    let claims = read_claims(br#"{"exp":-1,"nbf":1.5}"#);
    assert_eq!(claims.exp, ClaimTime::Unreadable);
    assert_eq!(claims.nbf, ClaimTime::Unreadable);
    let claims = read_claims(br#"{"exp":0,"nbf":18446744073709551615}"#);
    assert_eq!(claims.exp, ClaimTime::At(0));
    assert_eq!(claims.nbf, ClaimTime::At(u64::MAX));
    let claims = read_claims(br#"{"exp":null}"#);
    assert_eq!(claims.exp, ClaimTime::Unreadable);
}

#[test]
fn claims_of_no_document_are_all_absent() {
    let claims = read_claims(b"not json");
    assert_eq!(claims.sub, None);
    assert_eq!(claims.iss, None);
    assert!(claims.aud.is_empty());
    assert_eq!(claims.exp, ClaimTime::Absent);
    assert_eq!(claims.nbf, ClaimTime::Absent);
}

#[test]
fn presented_token_holds_what_its_own_segments_say() {
    // header {"alg":"RS256","kid":"k"}, payload {"sub":"s","exp":5}
    let token = present(b"eyJhbGciOiJSUzI1NiIsImtpZCI6ImsifQ.eyJzdWIiOiJzIiwiZXhwIjo1fQ.AQAB")
        .expect("three canonical segments");
    assert_eq!(token.header().alg, Some("RS256".to_string()));
    assert_eq!(token.header().kid, Some("k".to_string()));
    assert_eq!(token.unverified_claims().sub, Some("s".to_string()));
    assert_eq!(token.unverified_claims().exp, ClaimTime::At(5));
    assert_eq!(token.signed(), &b"eyJhbGciOiJSUzI1NiIsImtpZCI6ImsifQ.eyJzdWIiOiJzIiwiZXhwIjo1fQ"[..]);
    assert_eq!(token.signature(), &[1u8, 0, 1][..]);
}
