//! The compact serialization of a signed token: three base64url segments
//! joined by dots, and the documents that two of them carry.

use vstd::prelude::*;
use vstd::slice::slice_subrange;
use vstd::slice::slice_to_vec;
use crate::base64url::decode;
use crate::base64url::decoded;
use crate::error::VerificationError;
use crate::json::has_member;
use crate::json::json_has;
use crate::json::json_number;
use crate::json::json_text;
use crate::json::json_items;
use crate::json::number_member;
use crate::json::text_member;
use crate::json::text_view;
use crate::json::items_member;
use crate::json::items_view;

verus! {

/// The separator between the segments of a token.
pub const DOT: u8 = 46;

/// `a` and `b` are the positions of the only two dots of `raw`.
pub open spec fn two_dots_at(raw: Seq<u8>, a: int, b: int) -> bool {
    &&& 0 <= a < b < raw.len()
    &&& raw[a] == DOT
    &&& raw[b] == DOT
    &&& forall|i: int| 0 <= i < raw.len() && i != a && i != b ==> raw[i] != DOT
}

/// A token taken apart, before anything in it is trusted.
pub struct TokenFrame {
    /// The decoded header segment: the bytes of a JSON document.
    pub header: Vec<u8>,
    /// The decoded payload segment: the bytes of a JSON document.
    pub payload: Vec<u8>,
    /// What the signature covers: the undecoded header segment, a dot and
    /// the undecoded payload segment.
    pub signed: Vec<u8>,
    /// The decoded signature segment.
    pub signature: Vec<u8>,
}

/// The mathematical content of a [`TokenFrame`].
pub struct FrameView {
    pub header: Seq<u8>,
    pub payload: Seq<u8>,
    pub signed: Seq<u8>,
    pub signature: Seq<u8>,
}

impl View for TokenFrame {
    type V = FrameView;

    open spec fn view(&self) -> FrameView {
        FrameView {
            header: self.header@,
            payload: self.payload@,
            signed: self.signed@,
            signature: self.signature@,
        }
    }
}

/// The frame of a token whose two dots stand at `a` and `b`, if all three
/// segments decode.
pub open spec fn frame_at(raw: Seq<u8>, a: int, b: int) -> Option<FrameView> {
    match (
        decoded(raw.subrange(0, a)),
        decoded(raw.subrange(a + 1, b)),
        decoded(raw.subrange(b + 1, raw.len() as int)),
    ) {
        (Some(header), Some(payload), Some(signature)) => Some(
            FrameView { header, payload, signed: raw.subrange(0, b), signature },
        ),
        _ => None,
    }
}

/// The frame of a token: `None` unless it has exactly two dots and each of
/// the three segments between them is canonical base64url.
pub open spec fn frame_of(raw: Seq<u8>) -> Option<FrameView> {
    if exists|a: int, b: int| two_dots_at(raw, a, b) {
        let (a, b) = choose|a: int, b: int| two_dots_at(raw, a, b);
        frame_at(raw, a, b)
    } else {
        None
    }
}

/// A token has at most one pair of dot positions.
pub proof fn lemma_dots_unique(raw: Seq<u8>, a: int, b: int, c: int, d: int)
    requires
        two_dots_at(raw, a, b),
        two_dots_at(raw, c, d),
    ensures
        a == c,
        b == d,
{
}

/// Finds the first dot at or after `from`.
fn next_dot(raw: &[u8], from: usize) -> (at: usize)
    requires
        from <= raw@.len(),
    ensures
        from <= at <= raw@.len(),
        at < raw@.len() ==> raw@[at as int] == DOT,
        forall|i: int| from <= i < at ==> raw@[i] != DOT,
{
    let mut i: usize = from;
    while i < raw.len()
        invariant
            from <= i <= raw@.len(),
            forall|k: int| from <= k < i ==> raw@[k] != DOT,
        decreases raw@.len() - i,
    {
        if raw[i] == DOT {
            return i;
        }
        i = i + 1;
    }
    i
}

/// Finds the two dots of a token, if it has exactly two.
pub fn find_dots(raw: &[u8]) -> (out: Option<(usize, usize)>)
    ensures
        out matches Some((a, b)) ==> two_dots_at(raw@, a as int, b as int),
        out is None ==> !exists|a: int, b: int| two_dots_at(raw@, a, b),
{
    let n: usize = raw.len();
    let a: usize = next_dot(raw, 0);
    if a >= n {
        return None;
    }
    let b: usize = next_dot(raw, a + 1);
    if b >= n {
        assert forall|x: int, y: int| !two_dots_at(raw@, x, y) by {
            if two_dots_at(raw@, x, y) {
                assert(x == a || y == a);
            }
        }
        return None;
    }
    let c: usize = next_dot(raw, b + 1);
    if c < n {
        assert forall|x: int, y: int| !two_dots_at(raw@, x, y) by {
            if two_dots_at(raw@, x, y) {
                assert(raw@[a as int] == DOT && raw@[b as int] == DOT && raw@[c as int] == DOT);
            }
        }
        return None;
    }
    Some((a, b))
}

/// Takes a token apart. Nothing in the result is trusted yet: the frame
/// only says what the token claims and what its signature covers.
pub fn frame(raw: &[u8]) -> (out: Result<TokenFrame, VerificationError>)
    ensures
        match out {
            Ok(found) => frame_of(raw@) == Some(found@),
            Err(e) => e == VerificationError::MalformedToken && frame_of(raw@) is None,
        },
{
    let n: usize = raw.len();
    let (a, b) = match find_dots(raw) {
        Some(pair) => pair,
        None => { return Err(VerificationError::MalformedToken); },
    };
    proof {
        let (x, y) = choose|x: int, y: int| two_dots_at(raw@, x, y);
        lemma_dots_unique(raw@, a as int, b as int, x, y);
    }
    let header = match decode(slice_subrange(raw, 0, a)) {
        Some(bytes) => bytes,
        None => { return Err(VerificationError::MalformedToken); },
    };
    let payload = match decode(slice_subrange(raw, a + 1, b)) {
        Some(bytes) => bytes,
        None => { return Err(VerificationError::MalformedToken); },
    };
    let signature = match decode(slice_subrange(raw, b + 1, n)) {
        Some(bytes) => bytes,
        None => { return Err(VerificationError::MalformedToken); },
    };
    let signed = slice_to_vec(slice_subrange(raw, 0, b));
    Ok(TokenFrame { header, payload, signed, signature })
}

/// The members of a token's header that verification reads. A member that
/// the header lacks, or that is no text, is `None`.
pub struct TokenHeader {
    /// `alg`: the identifier of the signature algorithm.
    pub alg: Option<String>,
    /// `kid`: the identifier of the signing key.
    pub kid: Option<String>,
}

/// The mathematical content of a [`TokenHeader`].
pub struct HeaderView {
    pub alg: Option<Seq<char>>,
    pub kid: Option<Seq<char>>,
}

impl View for TokenHeader {
    type V = HeaderView;

    open spec fn view(&self) -> HeaderView {
        HeaderView { alg: text_view(self.alg), kid: text_view(self.kid) }
    }
}

/// A time claim, in seconds since the epoch.
#[derive(Clone, Copy, Debug, PartialEq, Eq, Structural)]
pub enum ClaimTime {
    /// The token does not carry the claim.
    Absent,
    /// The token carries the claim with this time.
    At(u64),
    /// The token carries the claim with something that is no whole number
    /// of seconds.
    Unreadable,
}

/// The members of a token's payload that verification reads.
pub struct ClaimSet {
    /// `sub`: whom the token is about.
    pub sub: Option<String>,
    /// `iss`: who issued it.
    pub iss: Option<String>,
    /// `aud`: whom it is meant for. An audience given as one text is a
    /// list of one; an audience of any other form is the empty list.
    pub aud: Vec<String>,
    /// `exp`: when it expires.
    pub exp: ClaimTime,
    /// `nbf`: before when it must not be used.
    pub nbf: ClaimTime,
}

/// The mathematical content of a [`ClaimSet`].
pub struct ClaimsView {
    pub sub: Option<Seq<char>>,
    pub iss: Option<Seq<char>>,
    pub aud: Seq<Seq<char>>,
    pub exp: ClaimTime,
    pub nbf: ClaimTime,
}

/// The texts of a list, in order.
pub open spec fn texts_of(list: Seq<String>) -> Seq<Seq<char>> {
    Seq::new(list.len(), |i: int| list[i]@)
}

impl View for ClaimSet {
    type V = ClaimsView;

    open spec fn view(&self) -> ClaimsView {
        ClaimsView {
            sub: text_view(self.sub),
            iss: text_view(self.iss),
            aud: texts_of(self.aud@),
            exp: self.exp,
            nbf: self.nbf,
        }
    }
}

/// The header that a document holds.
pub open spec fn header_of(document: Seq<u8>) -> HeaderView {
    HeaderView { alg: json_text(document, "alg"@), kid: json_text(document, "kid"@) }
}

/// The time claim `member` of a document.
pub open spec fn time_of(document: Seq<u8>, member: Seq<char>) -> ClaimTime {
    match json_number(document, member) {
        Some(time) => ClaimTime::At(time),
        None => if json_has(document, member) {
            ClaimTime::Unreadable
        } else {
            ClaimTime::Absent
        },
    }
}

/// The texts of a list of items, if every item is a text.
pub open spec fn all_texts(items: Seq<Option<Seq<char>>>) -> Option<Seq<Seq<char>>> {
    if forall|i: int| 0 <= i < items.len() ==> (#[trigger] items[i]) is Some {
        Some(Seq::new(items.len(), |i: int| items[i]->0))
    } else {
        None
    }
}

/// The audiences that a document names: the one text of its `aud` member,
/// or the texts of the member's list. A list with an item that is no text
/// names nobody, and so does a member of any other form.
pub open spec fn audiences_of(document: Seq<u8>) -> Seq<Seq<char>> {
    match json_text(document, "aud"@) {
        Some(one) => seq![one],
        None => match json_items(document, "aud"@) {
            Some(items) => match all_texts(items) {
                Some(many) => many,
                None => Seq::empty(),
            },
            None => Seq::empty(),
        },
    }
}

/// The claims that a document holds.
pub open spec fn claims_of(document: Seq<u8>) -> ClaimsView {
    ClaimsView {
        sub: json_text(document, "sub"@),
        iss: json_text(document, "iss"@),
        aud: audiences_of(document),
        exp: time_of(document, "exp"@),
        nbf: time_of(document, "nbf"@),
    }
}

/// Reads the header members out of the decoded header segment.
pub fn read_header(document: &[u8]) -> (out: TokenHeader)
    ensures
        out@ == header_of(document@),
{
    TokenHeader { alg: text_member(document, "alg"), kid: text_member(document, "kid") }
}

/// Reads one time claim out of a document.
fn read_time(document: &[u8], member: &str) -> (out: ClaimTime)
    ensures
        out == time_of(document@, member@),
{
    match number_member(document, member) {
        Some(time) => ClaimTime::At(time),
        None => {
            if has_member(document, member) {
                ClaimTime::Unreadable
            } else {
                ClaimTime::Absent
            }
        },
    }
}

/// The texts of a list of items, or `None` at the first item that is no
/// text.
fn collect_texts(items: &Vec<Option<String>>) -> (out: Option<Vec<String>>)
    ensures
        match out {
            Some(texts) => all_texts(items_view(Some(*items))->0) == Some(texts_of(texts@)),
            None => all_texts(items_view(Some(*items))->0) is None,
        },
{
    let ghost viewed = items_view(Some(*items))->0;
    let n: usize = items.len();
    let mut texts: Vec<String> = Vec::new();
    let mut i: usize = 0;
    while i < n
        invariant
            n == items@.len(),
            i <= n,
            viewed == items_view(Some(*items))->0,
            texts@.len() == i,
            forall|k: int| 0 <= k < i ==> (#[trigger] viewed[k]) == Some(texts@[k]@),
        decreases n - i,
    {
        match &items[i] {
            Some(text) => {
                texts.push(text.clone());
            },
            None => {
                assert(viewed[i as int] is None);
                return None;
            },
        }
        i = i + 1;
    }
    assert(texts_of(texts@) =~= Seq::new(viewed.len(), |k: int| viewed[k]->0));
    Some(texts)
}

/// Reads the audiences out of a document.
fn read_audiences(document: &[u8]) -> (out: Vec<String>)
    ensures
        texts_of(out@) == audiences_of(document@),
{
    match text_member(document, "aud") {
        Some(one) => {
            let mut list: Vec<String> = Vec::new();
            let ghost text = one@;
            list.push(one);
            assert(texts_of(list@) =~= seq![text]);
            return list;
        },
        None => {},
    }
    match items_member(document, "aud") {
        Some(items) => match collect_texts(&items) {
            Some(texts) => { return texts; },
            None => {},
        },
        None => {},
    }
    let list: Vec<String> = Vec::new();
    assert(texts_of(list@) =~= Seq::<Seq<char>>::empty());
    list
}

/// Reads the claims out of the decoded payload segment.
pub fn read_claims(document: &[u8]) -> (out: ClaimSet)
    ensures
        out@ == claims_of(document@),
{
    let aud = read_audiences(document);
    ClaimSet {
        sub: text_member(document, "sub"),
        iss: text_member(document, "iss"),
        aud,
        exp: read_time(document, "exp"),
        nbf: read_time(document, "nbf"),
    }
}

/// A token as it is presented for verification: its frame, with the header
/// and the claims that the frame's own segments hold. There is no other
/// way to make one than [`present`], so the claims of a presented token
/// are always the ones that its signature covers.
pub struct PresentedToken {
    frame: TokenFrame,
    header: TokenHeader,
    claims: ClaimSet,
}

/// The mathematical content of a [`PresentedToken`].
pub struct TokenView {
    pub signed: Seq<u8>,
    pub signature: Seq<u8>,
    pub header: HeaderView,
    pub claims: ClaimsView,
}

impl View for PresentedToken {
    type V = TokenView;

    closed spec fn view(&self) -> TokenView {
        TokenView {
            signed: self.frame.signed@,
            signature: self.frame.signature@,
            header: self.header@,
            claims: self.claims@,
        }
    }
}

/// What a raw token presents: `None` unless it has a frame.
pub open spec fn presented(raw: Seq<u8>) -> Option<TokenView> {
    match frame_of(raw) {
        Some(found) => Some(
            TokenView {
                signed: found.signed,
                signature: found.signature,
                header: header_of(found.header),
                claims: claims_of(found.payload),
            },
        ),
        None => None,
    }
}

/// Takes a raw token apart and reads its header and claims.
pub fn present(raw: &[u8]) -> (out: Result<PresentedToken, VerificationError>)
    ensures
        match out {
            Ok(token) => presented(raw@) == Some(token@),
            Err(e) => e == VerificationError::MalformedToken && presented(raw@) is None,
        },
{
    let found = match frame(raw) {
        Ok(found) => found,
        Err(e) => { return Err(e); },
    };
    let header = read_header(found.header.as_slice());
    let claims = read_claims(found.payload.as_slice());
    Ok(PresentedToken { frame: found, header, claims })
}

/// What a token presents is a matter of its signed part alone. Two raw
/// tokens with the same signed part present the same header and the same
/// claims, whatever their signatures: a signature that covers the signed
/// part covers everything that verification goes on to judge.
pub proof fn law_signed_part_holds_the_claims(first: Seq<u8>, second: Seq<u8>)
    requires
        presented(first) is Some,
        presented(second) is Some,
        presented(first)->0.signed == presented(second)->0.signed,
    ensures
        presented(first)->0.header == presented(second)->0.header,
        presented(first)->0.claims == presented(second)->0.claims,
{
    let (a, b) = choose|a: int, b: int| two_dots_at(first, a, b);
    let (c, d) = choose|c: int, d: int| two_dots_at(second, c, d);
    let signed = first.subrange(0, b);
    assert(signed == second.subrange(0, d));
    assert(b == d) by {
        assert(signed.len() == b);
        assert(second.subrange(0, d).len() == d);
    }
    assert forall|i: int| 0 <= i < b implies first[i] == second[i] by {
        assert(first[i] == signed[i]);
        assert(second[i] == second.subrange(0, d)[i]);
    }
    assert(a == c) by {
        if a < c {
            assert(second[a] == first[a]);
        }
        if c < a {
            assert(first[c] == second[c]);
        }
    }
    assert(first.subrange(0, a) =~= second.subrange(0, c));
    assert(first.subrange(a + 1, b) =~= second.subrange(c + 1, d));
}

impl PresentedToken {
    /// The header of the token.
    pub fn header(&self) -> (out: &TokenHeader)
        ensures
            out@ == self@.header,
    {
        &self.header
    }

    /// The claims of the token, as the token states them. They are not
    /// verified: only verification tells whether they hold.
    pub fn unverified_claims(&self) -> (out: &ClaimSet)
        ensures
            out@ == self@.claims,
    {
        &self.claims
    }

    /// What the signature covers.
    pub fn signed(&self) -> (out: &[u8])
        ensures
            out@ == self@.signed,
    {
        self.frame.signed.as_slice()
    }

    /// The signature.
    pub fn signature(&self) -> (out: &[u8])
        ensures
            out@ == self@.signature,
    {
        self.frame.signature.as_slice()
    }
}

} // verus!
