//! The URL-safe base64 alphabet without padding, as used by the three
//! segments of a compact signed token.

use vstd::prelude::*;

verus! {

/// The six-bit value that a character of the URL-safe alphabet stands for.
pub open spec fn sextet(c: u8) -> Option<int> {
    if 65 <= c <= 90 {
        Some(c - 65)
    } else if 97 <= c <= 122 {
        Some(c - 97 + 26)
    } else if 48 <= c <= 57 {
        Some(c - 48 + 52)
    } else if c == 45 {
        Some(62)
    } else if c == 95 {
        Some(63)
    } else {
        None
    }
}

/// The value of the character at `i`, or 0 where there is none.
pub open spec fn sextet_at(text: Seq<u8>, i: int) -> int {
    if 0 <= i < text.len() {
        match sextet(text[i]) {
            Some(v) => v,
            None => 0,
        }
    } else {
        0
    }
}

/// How many bytes a text of `n` characters decodes to.
pub open spec fn decoded_len(n: nat) -> nat {
    (n / 4 * 3 + if n % 4 == 2 {
        1nat
    } else if n % 4 == 3 {
        2nat
    } else {
        0nat
    }) as nat
}

/// A text is canonical when every character belongs to the alphabet, its
/// length leaves no lone character, and the bits that the last character
/// carries beyond the last byte are zero.
pub open spec fn canonical(text: Seq<u8>) -> bool {
    &&& forall|i: int| 0 <= i < text.len() ==> (#[trigger] sextet(text[i])) is Some
    &&& text.len() % 4 != 1
    &&& text.len() % 4 == 2 ==> sextet_at(text, text.len() - 1) % 16 == 0
    &&& text.len() % 4 == 3 ==> sextet_at(text, text.len() - 1) % 4 == 0
}

/// Byte `j` of the decoded text: each group of four characters yields three
/// bytes, most significant bits first.
pub open spec fn decoded_byte(text: Seq<u8>, j: int) -> u8 {
    let g = 4 * (j / 3);
    let a = sextet_at(text, g);
    let b = sextet_at(text, g + 1);
    let c = sextet_at(text, g + 2);
    let d = sextet_at(text, g + 3);
    if j % 3 == 0 {
        (a * 4 + b / 16) as u8
    } else if j % 3 == 1 {
        ((b % 16) * 16 + c / 4) as u8
    } else {
        ((c % 4) * 64 + d) as u8
    }
}

/// What a text decodes to: `None` unless it is canonical.
pub open spec fn decoded(text: Seq<u8>) -> Option<Seq<u8>> {
    if canonical(text) {
        Some(Seq::new(decoded_len(text.len()), |j: int| decoded_byte(text, j)))
    } else {
        None
    }
}

/// Looks one character up in the alphabet.
pub fn sextet_of(c: u8) -> (out: Option<u8>)
    ensures
        out is Some <==> sextet(c) is Some,
        out matches Some(v) ==> sextet(c) == Some(v as int) && v < 64,
{
    if 65 <= c && c <= 90 {
        Some(c - 65)
    } else if 97 <= c && c <= 122 {
        Some(c - 97 + 26)
    } else if 48 <= c && c <= 57 {
        Some(c - 48 + 52)
    } else if c == 45 {
        Some(62)
    } else if c == 95 {
        Some(63)
    } else {
        None
    }
}

/// Decodes `text`, refusing anything that is not canonical.
pub fn decode(text: &[u8]) -> (out: Option<Vec<u8>>)
    ensures
        out is Some <==> decoded(text@) is Some,
        out matches Some(bytes) ==> decoded(text@) == Some(bytes@),
{
    let n: usize = text.len();
    if n % 4 == 1 {
        return None;
    }
    let mut bytes: Vec<u8> = Vec::new();
    let mut i: usize = 0;
    while n - i >= 4
        invariant
            n == text@.len(),
            i % 4 == 0,
            i <= n,
            forall|k: int| 0 <= k < i ==> (#[trigger] sextet(text@[k])) is Some,
            bytes@.len() == i / 4 * 3,
            forall|j: int| 0 <= j < bytes@.len() ==> bytes@[j] == decoded_byte(text@, j),
        decreases n - i,
    {
        let a: u8 = match sextet_of(text[i]) {
            Some(v) => v,
            None => { return None; },
        };
        let b: u8 = match sextet_of(text[i + 1]) {
            Some(v) => v,
            None => { return None; },
        };
        let c: u8 = match sextet_of(text[i + 2]) {
            Some(v) => v,
            None => { return None; },
        };
        let d: u8 = match sextet_of(text[i + 3]) {
            Some(v) => v,
            None => { return None; },
        };
        let ghost before = bytes@;
        bytes.push(a * 4 + b / 16);
        bytes.push((b % 16) * 16 + c / 4);
        bytes.push((c % 4) * 64 + d);
        proof {
            let base = before.len() as int;
            assert(base == i / 4 * 3);
            assert(4 * (base / 3) == i);
            assert(4 * ((base + 1) / 3) == i);
            assert(4 * ((base + 2) / 3) == i);
            assert(base % 3 == 0);
        }
        i = i + 4;
    }
    let rest: usize = n - i;
    if rest == 2 {
        let a: u8 = match sextet_of(text[i]) {
            Some(v) => v,
            None => { return None; },
        };
        let b: u8 = match sextet_of(text[i + 1]) {
            Some(v) => v,
            None => { return None; },
        };
        if b % 16 != 0 {
            return None;
        }
        proof {
            let base = bytes@.len() as int;
            assert(4 * (base / 3) == i);
            assert(base % 3 == 0);
        }
        bytes.push(a * 4 + b / 16);
    } else if rest == 3 {
        let a: u8 = match sextet_of(text[i]) {
            Some(v) => v,
            None => { return None; },
        };
        let b: u8 = match sextet_of(text[i + 1]) {
            Some(v) => v,
            None => { return None; },
        };
        let c: u8 = match sextet_of(text[i + 2]) {
            Some(v) => v,
            None => { return None; },
        };
        if c % 4 != 0 {
            return None;
        }
        proof {
            let base = bytes@.len() as int;
            assert(4 * (base / 3) == i);
            assert(4 * ((base + 1) / 3) == i);
            assert(base % 3 == 0);
        }
        bytes.push(a * 4 + b / 16);
        bytes.push((b % 16) * 16 + c / 4);
    }
    proof {
        assert(bytes@ =~= Seq::new(decoded_len(text@.len()), |j: int| decoded_byte(text@, j)));
    }
    Some(bytes)
}

} // verus!
