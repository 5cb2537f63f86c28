//! Account keys: 32 bytes, compared for equality and ordered byte by byte.

use vstd::prelude::*;

verus! {

/// Number of bytes in a key.
pub const PUBKEY_BYTES: usize = 32;

/// The address of an account or the identity of a signer.
#[derive(Clone, Copy, Debug, Eq, Hash)]
pub struct Pubkey {
    pub bytes: [u8; 32],
}

/// Lexicographic "less than" on two byte strings of equal length, deciding
/// from position `i` on.
pub open spec fn bytes_lt_from(a: Seq<u8>, b: Seq<u8>, i: int) -> bool
    decreases a.len() - i,
{
    if i < 0 || i >= a.len() || i >= b.len() {
        false
    } else if a[i] != b[i] {
        a[i] < b[i]
    } else {
        bytes_lt_from(a, b, i + 1)
    }
}

impl Pubkey {
    /// Strict order of keys: lexicographic on the bytes.
    pub open spec fn lt(self, other: Pubkey) -> bool {
        bytes_lt_from(self.bytes@, other.bytes@, 0)
    }

    /// Whether every byte of the key is zero: the key that stands for "no
    /// key".
    pub open spec fn is_zero(self) -> bool {
        forall|i: int| 0 <= i < 32 ==> self.bytes@[i] == 0u8
    }

    /// The all-zero key.
    pub open spec fn zero() -> Pubkey {
        Pubkey { bytes: vstd::array::spec_array_fill_for_copy_type::<u8, 32>(0u8) }
    }

    pub fn new_from_array(bytes: [u8; 32]) -> (r: Pubkey)
        ensures
            r.bytes == bytes,
    {
        Pubkey { bytes }
    }

    pub fn to_bytes(&self) -> (r: [u8; 32])
        ensures
            r == self.bytes,
    {
        self.bytes
    }

    /// Whether this is the all-zero key.
    pub fn is_default(&self) -> (r: bool)
        ensures
            r == self.is_zero(),
    {
        let mut i: usize = 0;
        while i < 32
            invariant
                i <= 32,
                forall|j: int| 0 <= j < i ==> self.bytes@[j] == 0u8,
            decreases 32 - i,
        {
            if self.bytes[i] != 0 {
                return false;
            }
            i += 1;
        }
        true
    }

    /// Whether `self` comes strictly before `other`.
    pub fn precedes(&self, other: &Pubkey) -> (r: bool)
        ensures
            r == self.lt(*other),
    {
        let mut i: usize = 0;
        while i < 32
            invariant
                i <= 32,
                self.lt(*other) == bytes_lt_from(self.bytes@, other.bytes@, i as int),
            decreases 32 - i,
        {
            if self.bytes[i] != other.bytes[i] {
                return self.bytes[i] < other.bytes[i];
            }
            i += 1;
        }
        false
    }
}

impl PartialEq for Pubkey {
    fn eq(&self, other: &Pubkey) -> (r: bool) {
        let mut i: usize = 0;
        while i < 32
            invariant
                i <= 32,
                forall|j: int| 0 <= j < i ==> self.bytes@[j] == other.bytes@[j],
            decreases 32 - i,
        {
            if self.bytes[i] != other.bytes[i] {
                return false;
            }
            i += 1;
        }
        assert(self.bytes =~= other.bytes);
        true
    }
}

impl vstd::std_specs::cmp::PartialEqSpecImpl for Pubkey {
    open spec fn obeys_eq_spec() -> bool {
        true
    }

    open spec fn eq_spec(&self, other: &Pubkey) -> bool {
        *self == *other
    }
}

impl Default for Pubkey {
    fn default() -> (r: Pubkey)
        ensures
            r == Pubkey::zero(),
            r.is_zero(),
    {
        let r = Pubkey { bytes: [0u8; 32] };
        proof {
            lemma_zero_key(r);
        }
        r
    }
}

/// The all-zero key is the one key whose bytes are all zero.
pub proof fn lemma_zero_key(k: Pubkey)
    ensures
        k.is_zero() <==> k == Pubkey::zero(),
{
    if k.is_zero() {
        assert(k.bytes =~= Pubkey::zero().bytes);
    }
}

/// No key comes before itself.
pub proof fn lemma_lt_irreflexive(a: Pubkey)
    ensures
        !a.lt(a),
{
    lemma_from_irreflexive(a.bytes@, 0);
}

/// The order of keys is transitive.
pub proof fn lemma_lt_transitive(a: Pubkey, b: Pubkey, c: Pubkey)
    requires
        a.lt(b),
        b.lt(c),
    ensures
        a.lt(c),
{
    lemma_from_transitive(a.bytes@, b.bytes@, c.bytes@, 0);
}

/// Of two different keys one comes before the other.
pub proof fn lemma_lt_total(a: Pubkey, b: Pubkey)
    ensures
        a.lt(b) || b.lt(a) || a == b,
{
    if !a.lt(b) && !b.lt(a) {
        lemma_from_total(a.bytes@, b.bytes@, 0);
        assert(a.bytes =~= b.bytes);
    }
}

/// Two keys are never each before the other.
pub proof fn lemma_lt_asymmetric(a: Pubkey, b: Pubkey)
    requires
        a.lt(b),
    ensures
        !b.lt(a),
        a != b,
{
    if b.lt(a) {
        lemma_lt_transitive(a, b, a);
    }
    lemma_lt_irreflexive(a);
}

proof fn lemma_from_irreflexive(a: Seq<u8>, i: int)
    ensures
        !bytes_lt_from(a, a, i),
    decreases a.len() - i,
{
    if 0 <= i < a.len() {
        lemma_from_irreflexive(a, i + 1);
    }
}

proof fn lemma_from_transitive(a: Seq<u8>, b: Seq<u8>, c: Seq<u8>, i: int)
    requires
        a.len() == b.len(),
        b.len() == c.len(),
        bytes_lt_from(a, b, i),
        bytes_lt_from(b, c, i),
    ensures
        bytes_lt_from(a, c, i),
    decreases a.len() - i,
{
    if 0 <= i < a.len() {
        if a[i] == b[i] && b[i] == c[i] {
            lemma_from_transitive(a, b, c, i + 1);
        }
    }
}

proof fn lemma_from_total(a: Seq<u8>, b: Seq<u8>, i: int)
    requires
        a.len() == b.len(),
        0 <= i,
        !bytes_lt_from(a, b, i),
        !bytes_lt_from(b, a, i),
    ensures
        forall|j: int| i <= j < a.len() ==> a[j] == b[j],
    decreases a.len() - i,
{
    if i < a.len() {
        lemma_from_total(a, b, i + 1);
    }
}

} // verus!
