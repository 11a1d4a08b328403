//! Participant identities.
//!
//! The host environment authenticates callers; the engine only needs an
//! identity it can store and compare, modelled as the 32 raw bytes of
//! the host's account address.

use vstd::prelude::*;

verus! {

/// A 32-byte account address, the identity of a participant, treasury
/// or vault. The host guarantees that the caller identity handed to an
/// operation authorized the call.
#[derive(Clone, Copy, Debug, PartialEq, Eq)]
pub struct Pubkey {
    pub bytes: [u8; 32],
}

impl View for Pubkey {
    type V = Seq<u8>;

    open spec fn view(&self) -> Seq<u8> {
        self.bytes@
    }
}

impl Pubkey {
    /// The all-zero address, used where no identity is recorded yet.
    pub fn zeroed() -> (r: Pubkey)
        ensures
            r@ == Seq::new(32, |i: int| 0u8),
    {
        let bytes = [0u8; 32];
        proof {
            assert(bytes@ =~= Seq::new(32, |i: int| 0u8));
        }
        Pubkey { bytes }
    }

    /// Builds an identity from its raw bytes.
    pub fn new(bytes: [u8; 32]) -> (r: Pubkey)
        ensures
            r@ == bytes@,
    {
        Pubkey { bytes }
    }
}

/// Identity comparison, proved equivalent to equality of the byte views.
pub fn key_eq(a: &Pubkey, b: &Pubkey) -> (r: bool)
    ensures
        r == (a@ == b@),
{
    let mut i: usize = 0;
    while i < 32
        invariant
            i <= 32,
            forall|j: int| 0 <= j < i ==> a@[j] == b@[j],
        decreases 32 - i,
    {
        if a.bytes[i] != b.bytes[i] {
            assert(a@[i as int] != b@[i as int]);
            return false;
        }
        i += 1;
    }
    proof {
        assert(a@ =~= b@);
    }
    true
}

/// Equality of two 32-byte values, such as commitment hashes.
pub fn bytes32_eq(a: &[u8; 32], b: &[u8; 32]) -> (r: bool)
    ensures
        r == (a@ == b@),
{
    let mut i: usize = 0;
    while i < 32
        invariant
            i <= 32,
            forall|j: int| 0 <= j < i ==> a@[j] == b@[j],
        decreases 32 - i,
    {
        if a[i] != b[i] {
            assert(a@[i as int] != b@[i as int]);
            return false;
        }
        i += 1;
    }
    proof {
        assert(a@ =~= b@);
    }
    true
}

/// Whether some slot of `s` holds the identity `k`.
pub open spec fn contains_key(s: Seq<Pubkey>, k: Pubkey) -> bool {
    exists|i: int| 0 <= i < s.len() && s[i]@ == k@
}

/// The first slot of `s` holding `k` (meaningful when
/// `contains_key(s, k)`; see `lemma_key_index`).
pub open spec fn key_index(s: Seq<Pubkey>, k: Pubkey) -> int {
    choose|i: int|
        0 <= i < s.len() && s[i]@ == k@ && (forall|j: int| 0 <= j < i ==> s[j]@ != k@)
}

proof fn lemma_least_match(s: Seq<Pubkey>, k: Pubkey, i: int)
    requires
        0 <= i < s.len(),
        s[i]@ == k@,
    ensures
        exists|m: int|
            0 <= m < s.len() && s[m]@ == k@ && (forall|j: int| 0 <= j < m ==> s[j]@ != k@),
    decreases i,
{
    if forall|j: int| 0 <= j < i ==> s[j]@ != k@ {
        assert(0 <= i < s.len() && s[i]@ == k@ && (forall|j: int| 0 <= j < i ==> s[j]@ != k@));
    } else {
        let j = choose|j: int| 0 <= j < i && s[j]@ == k@;
        lemma_least_match(s, k, j);
    }
}

/// When `k` occurs in `s`, `key_index(s, k)` is the least slot that
/// holds it.
pub proof fn lemma_key_index(s: Seq<Pubkey>, k: Pubkey)
    requires
        contains_key(s, k),
    ensures
        0 <= key_index(s, k) < s.len(),
        s[key_index(s, k)]@ == k@,
        forall|j: int| 0 <= j < key_index(s, k) ==> s[j]@ != k@,
{
    let i = choose|i: int| 0 <= i < s.len() && s[i]@ == k@;
    lemma_least_match(s, k, i);
}

/// Finds the first participant slot holding `k`, if any.
pub fn find_player(players: &Vec<Pubkey>, k: &Pubkey) -> (r: Option<usize>)
    ensures
        match r {
            Some(i) => {
                &&& contains_key(players@, *k)
                &&& i == key_index(players@, *k)
                &&& i < players@.len()
                &&& players@[i as int]@ == k@
                &&& forall|j: int| 0 <= j < i ==> players@[j]@ != k@
            },
            None => !contains_key(players@, *k),
        },
{
    let n = players.len();
    let mut i: usize = 0;
    while i < n
        invariant
            i <= n,
            n == players@.len(),
            forall|j: int| 0 <= j < i ==> players@[j]@ != k@,
        decreases n - i,
    {
        if key_eq(&players[i], k) {
            proof {
                assert(contains_key(players@, *k));
                lemma_key_index(players@, *k);
                let c = key_index(players@, *k);
                if c < i {
                    assert(players@[c]@ != k@);
                } else if c > i {
                    assert(players@[i as int]@ != k@);
                }
            }
            return Some(i);
        }
        i += 1;
    }
    None
}

/// Whether a 32-byte value is all zero: the sentinel for "no
/// commitment stored" in the commit-reveal protocol.
pub open spec fn is_zero32(h: [u8; 32]) -> bool {
    forall|k: int| 0 <= k < 32 ==> h@[k] == 0
}

/// Runtime check for the all-zero sentinel.
pub fn bytes32_is_zero(a: &[u8; 32]) -> (r: bool)
    ensures
        r == is_zero32(*a),
{
    let mut i: usize = 0;
    while i < 32
        invariant
            i <= 32,
            forall|j: int| 0 <= j < i ==> a@[j] == 0,
        decreases 32 - i,
    {
        if a[i] != 0 {
            assert(a@[i as int] != 0);
            return false;
        }
        i += 1;
    }
    true
}

} // verus!
