//! The identity provider's public signing keys, by key identifier.

use vstd::prelude::*;
use crate::base64url::decode;
use crate::base64url::decoded;
use crate::text::same_text;

verus! {

/// One RSA public key of the provider. Modulus and exponent are big-endian
/// byte strings.
pub struct SigningKey {
    pub kid: String,
    pub modulus: Vec<u8>,
    pub exponent: Vec<u8>,
}

/// The numbers of a public key.
pub struct KeyMaterial {
    pub modulus: Seq<u8>,
    pub exponent: Seq<u8>,
}

impl SigningKey {
    /// The numbers of this key, without its identifier.
    pub open spec fn material(&self) -> KeyMaterial {
        KeyMaterial { modulus: self.modulus@, exponent: self.exponent@ }
    }

    /// Builds a key from the members of a key-discovery document, in which
    /// modulus (`n`) and exponent (`e`) are base64url texts. `None` where
    /// either is not canonical.
    pub fn from_encoded(kid: String, n: &[u8], e: &[u8]) -> (out: Option<SigningKey>)
        ensures
            match out {
                Some(key) => key.kid@ == kid@ && decoded(n@) == Some(key.modulus@) && decoded(e@)
                    == Some(key.exponent@),
                None => decoded(n@) is None || decoded(e@) is None,
            },
    {
        let modulus = match decode(n) {
            Some(bytes) => bytes,
            None => { return None; },
        };
        let exponent = match decode(e) {
            Some(bytes) => bytes,
            None => { return None; },
        };
        Some(SigningKey { kid, modulus, exponent })
    }
}

/// Whether some key of `keys` goes by `kid`.
pub open spec fn lists_kid(keys: Seq<SigningKey>, kid: Seq<char>) -> bool {
    exists|i: int| 0 <= i < keys.len() && (#[trigger] keys[i]).kid@ == kid
}

/// No two keys of `keys` share an identifier.
pub open spec fn distinct_kids(keys: Seq<SigningKey>) -> bool {
    forall|i: int, j: int|
        0 <= i < keys.len() && 0 <= j < keys.len() && i != j ==> (#[trigger] keys[i]).kid@ != (
        #[trigger] keys[j]).kid@
}

/// The map from identifier to key numbers that a list of keys with distinct
/// identifiers stands for.
pub open spec fn keys_by_kid(keys: Seq<SigningKey>) -> Map<Seq<char>, KeyMaterial> {
    Map::new(
        |kid: Seq<char>| lists_kid(keys, kid),
        |kid: Seq<char>|
            keys[choose|i: int| 0 <= i < keys.len() && (#[trigger] keys[i]).kid@ == kid].material(),
    )
}

/// The map that a list of keys stands for when identifiers may repeat: of
/// two keys with the same identifier the one listed first counts.
pub open spec fn entered(keys: Seq<SigningKey>) -> Map<Seq<char>, KeyMaterial>
    decreases keys.len(),
{
    if keys.len() == 0 {
        Map::empty()
    } else {
        entered(keys.drop_first()).insert(keys.first().kid@, keys.first().material())
    }
}

/// A set of signing keys in which each identifier names one key. A set is
/// a value: it is built off to the side and then put in place of the old
/// one as a whole, so a reader sees the old keys or the new, never a mix.
pub struct SigningKeySet {
    keys: Vec<SigningKey>,
}

impl View for SigningKeySet {
    type V = Map<Seq<char>, KeyMaterial>;

    closed spec fn view(&self) -> Map<Seq<char>, KeyMaterial> {
        keys_by_kid(self.keys@)
    }
}

impl SigningKeySet {
    #[verifier::type_invariant]
    spec fn well_formed(&self) -> bool {
        distinct_kids(self.keys@)
    }

    /// The set without keys.
    pub fn empty() -> (out: SigningKeySet)
        ensures
            out@ == Map::<Seq<char>, KeyMaterial>::empty(),
    {
        let out = SigningKeySet { keys: Vec::new() };
        assert(out@ =~= Map::<Seq<char>, KeyMaterial>::empty());
        out
    }

    /// The set with `key` entered, in place of the key of the same
    /// identifier if there was one.
    pub fn with_key(self, key: SigningKey) -> (out: SigningKeySet)
        ensures
            out@ == self@.insert(key.kid@, key.material()),
    {
        proof {
            use_type_invariant(&self);
        }
        let mut keys = self.keys;
        let ghost before = keys@;
        let n: usize = keys.len();
        let mut i: usize = 0;
        while i < n && !same_text(keys[i].kid.as_str(), key.kid.as_str())
            invariant
                n == keys@.len(),
                keys@ == before,
                i <= n,
                forall|k: int| 0 <= k < i ==> (#[trigger] before[k]).kid@ != key.kid@,
            decreases n - i,
        {
            i = i + 1;
        }
        let ghost kid = key.kid@;
        let ghost material = key.material();
        if i < n {
            keys.set(i, key);
        } else {
            keys.push(key);
        }
        proof {
            let after = keys@;
            let at = i as int;
            assert(after[at].kid@ == kid && after[at].material() == material);
            assert(forall|k: int| 0 <= k < after.len() && k != at ==> after[k] == before[k]);
            assert(forall|k: int| 0 <= k < before.len() && k != at ==> (#[trigger] before[k]).kid@ != kid);
            assert(distinct_kids(after));
            assert forall|name: Seq<char>| lists_kid(after, name) <==> (name == kid || lists_kid(before, name)) by {
                if lists_kid(after, name) {
                    let k = choose|k: int| 0 <= k < after.len() && (#[trigger] after[k]).kid@ == name;
                    if k != at {
                        assert(before[k].kid@ == name);
                    }
                }
                if lists_kid(before, name) && name != kid {
                    let k = choose|k: int| 0 <= k < before.len() && (#[trigger] before[k]).kid@ == name;
                    assert(after[k].kid@ == name);
                }
                if name == kid {
                    assert(after[at].kid@ == name);
                }
            }
            assert forall|name: Seq<char>| lists_kid(after, name) implies keys_by_kid(after)[name]
                == keys_by_kid(before).insert(kid, material)[name] by {
                let k = choose|k: int| 0 <= k < after.len() && (#[trigger] after[k]).kid@ == name;
                if name == kid {
                    assert(k == at);
                } else {
                    assert(k != at);
                    assert(before[k].kid@ == name);
                    let j = choose|j: int| 0 <= j < before.len() && (#[trigger] before[j]).kid@ == name;
                    assert(j == k);
                }
            }
            assert(keys_by_kid(after) =~= keys_by_kid(before).insert(kid, material));
        }
        SigningKeySet { keys }
    }

    /// Builds a set from the keys of a fetched document. Where the document
    /// lists an identifier twice, the first of the two keys is kept.
    pub fn from_keys(keys: Vec<SigningKey>) -> (out: SigningKeySet)
        ensures
            out@ == entered(keys@),
    {
        let mut set = SigningKeySet::empty();
        let mut rest = keys;
        let ghost all = rest@;
        let total: usize = rest.len();
        assert(all.subrange(total as int, total as int) =~= Seq::<SigningKey>::empty());
        while rest.len() > 0
            invariant
                total == all.len(),
                rest@.len() <= total,
                rest@ == all.subrange(0, rest@.len() as int),
                set@ == entered(all.subrange(rest@.len() as int, total as int)),
            decreases rest@.len(),
        {
            let ghost m = rest@.len() - 1;
            let key = rest.pop().unwrap();
            proof {
                assert(key == all[m]);
                let tail = all.subrange(m, total as int);
                assert(tail.drop_first() =~= all.subrange(m + 1, total as int));
                assert(tail.first() == key);
            }
            set = set.with_key(key);
        }
        proof {
            assert(all.subrange(0, total as int) =~= all);
        }
        set
    }

    /// The key that goes by `kid`, if the set holds one.
    pub fn find(&self, kid: &str) -> (out: Option<&SigningKey>)
        ensures
            match out {
                Some(key) => key.kid@ == kid@ && self@.contains_key(kid@) && self@[kid@]
                    == key.material(),
                None => !self@.contains_key(kid@),
            },
    {
        proof {
            use_type_invariant(self);
        }
        let n: usize = self.keys.len();
        let mut i: usize = 0;
        while i < n
            invariant
                n == self.keys@.len(),
                i <= n,
                distinct_kids(self.keys@),
                forall|k: int| 0 <= k < i ==> (#[trigger] self.keys@[k]).kid@ != kid@,
            decreases n - i,
        {
            if same_text(self.keys[i].kid.as_str(), kid) {
                proof {
                    let k = choose|k: int| 0 <= k < self.keys@.len() && (#[trigger] self.keys@[k]).kid@ == kid@;
                    assert(k == i);
                }
                return Some(&self.keys[i]);
            }
            i = i + 1;
        }
        None
    }

    /// How many keys the set holds.
    pub fn len(&self) -> (out: usize)
        ensures
            out == self@.dom().len(),
            self@.dom().finite(),
    {
        proof {
            use_type_invariant(self);
            lemma_domain_size(self.keys@);
        }
        self.keys.len()
    }
}

/// A list of keys with distinct identifiers stands for a map of as many
/// entries.
pub proof fn lemma_domain_size(keys: Seq<SigningKey>)
    requires
        distinct_kids(keys),
    ensures
        keys_by_kid(keys).dom().finite(),
        keys_by_kid(keys).dom().len() == keys.len(),
    decreases keys.len(),
{
    if keys.len() == 0 {
        assert(keys_by_kid(keys).dom() =~= Set::<Seq<char>>::empty());
    } else {
        let front = keys.drop_last();
        let last = keys.last();
        assert(distinct_kids(front)) by {
            assert forall|i: int, j: int|
                0 <= i < front.len() && 0 <= j < front.len() && i != j implies (#[trigger] front[i]).kid@
                != (#[trigger] front[j]).kid@ by {
                assert(front[i] == keys[i] && front[j] == keys[j]);
            }
        }
        lemma_domain_size(front);
        assert(!lists_kid(front, last.kid@)) by {
            if lists_kid(front, last.kid@) {
                let k = choose|k: int| 0 <= k < front.len() && (#[trigger] front[k]).kid@ == last.kid@;
                assert(front[k] == keys[k]);
                assert(keys[keys.len() - 1] == last);
            }
        }
        assert(keys_by_kid(keys).dom() =~= keys_by_kid(front).dom().insert(last.kid@)) by {
            assert forall|name: Seq<char>| lists_kid(keys, name) <==> (name == last.kid@ || lists_kid(front, name)) by {
                if lists_kid(keys, name) {
                    let k = choose|k: int| 0 <= k < keys.len() && (#[trigger] keys[k]).kid@ == name;
                    if k < front.len() {
                        assert(front[k].kid@ == name);
                    }
                }
                if lists_kid(front, name) {
                    let k = choose|k: int| 0 <= k < front.len() && (#[trigger] front[k]).kid@ == name;
                    assert(keys[k].kid@ == name);
                }
                if name == last.kid@ {
                    assert(keys[keys.len() - 1].kid@ == name);
                }
            }
        }
    }
}

} // verus!
