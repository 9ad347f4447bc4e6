//! The 32-byte identity of a record, a token mint or a signer.

use vstd::prelude::*;

verus! {

/// Number of bytes in a key.
pub const PUBKEY_BYTES: usize = 32;

/// A 32-byte key. Its view is the sequence of its bytes.
#[derive(Clone, Copy, Debug)]
pub struct Pubkey {
    pub bytes: [u8; 32],
}

impl View for Pubkey {
    type V = Seq<u8>;

    open spec fn view(&self) -> Seq<u8> {
        self.bytes@
    }
}

/// The all-zero key, which marks an empty slot wherever keys are stored in a
/// fixed array.
pub open spec fn zero_key() -> Seq<u8> {
    Seq::new(32, |i: int| 0u8)
}

/// Lexicographic order on byte strings of equal length: `a` is below `b` when
/// the first byte in which they differ is smaller in `a`.
pub open spec fn bytes_lt(a: Seq<u8>, b: Seq<u8>) -> bool {
    exists|i: int|
        0 <= i < a.len() && i < b.len() && a[i] < b[i] && (forall|j: int|
            0 <= j < i ==> a[j] == b[j])
}

impl PartialEq for Pubkey {
    fn eq(&self, other: &Pubkey) -> (r: bool) {
        let mut i: usize = 0;
        while i < 32
            invariant
                i <= 32,
                forall|j: int| 0 <= j < i ==> self.bytes[j] == other.bytes[j],
            decreases 32 - i,
        {
            if self.bytes[i] != other.bytes[i] {
                return false;
            }
            i += 1;
        }
        assert(self.bytes@ =~= other.bytes@);
        true
    }
}

impl vstd::std_specs::cmp::PartialEqSpecImpl for Pubkey {
    open spec fn obeys_eq_spec() -> bool {
        true
    }

    open spec fn eq_spec(&self, other: &Pubkey) -> bool {
        self@ == other@
    }
}

impl Eq for Pubkey {

}

impl Default for Pubkey {
    fn default() -> (k: Pubkey)
        ensures
            k == Pubkey::spec_zero(),
            k@ == zero_key(),
    {
        let k = Pubkey { bytes: [0u8;32] };
        k
    }
}

impl Pubkey {
    /// The all-zero key.
    pub open spec fn spec_zero() -> Pubkey {
        Pubkey { bytes: vstd::array::spec_array_fill_for_copy_type::<u8, 32>(0u8) }
    }

    /// The key made of the given bytes.
    pub fn new_from_array(bytes: [u8; 32]) -> (k: Pubkey)
        ensures
            k@ == bytes@,
            k.bytes == bytes,
    {
        Pubkey { bytes }
    }

    /// The bytes of the key.
    pub fn to_bytes(&self) -> (bytes: [u8; 32])
        ensures
            bytes@ == self@,
            bytes == self.bytes,
    {
        self.bytes
    }

    /// The bytes of the key as a vector, the form in which a key enters a seed
    /// list.
    pub fn to_vec(&self) -> (v: Vec<u8>)
        ensures
            v@ == self@,
    {
        let mut v: Vec<u8> = Vec::new();
        let mut i: usize = 0;
        while i < 32
            invariant
                i <= 32,
                v@ == self@.subrange(0, i as int),
            decreases 32 - i,
        {
            v.push(self.bytes[i]);
            i += 1;
        }
        v
    }

    /// Whether this is the all-zero key.
    pub fn is_zero(&self) -> (r: bool)
        ensures
            r == (self@ == zero_key()),
    {
        let mut i: usize = 0;
        while i < 32
            invariant
                i <= 32,
                forall|j: int| 0 <= j < i ==> self.bytes[j] == 0,
            decreases 32 - i,
        {
            if self.bytes[i] != 0 {
                return false;
            }
            i += 1;
        }
        assert(self@ =~= zero_key());
        true
    }

    /// Whether this key is strictly below `other` in byte order.
    pub fn is_below(&self, other: &Pubkey) -> (r: bool)
        ensures
            r == bytes_lt(self@, other@),
    {
        let mut i: usize = 0;
        while i < 32
            invariant
                i <= 32,
                forall|j: int| 0 <= j < i ==> self.bytes[j] == other.bytes[j],
            decreases 32 - i,
        {
            if self.bytes[i] < other.bytes[i] {
                return true;
            }
            if self.bytes[i] > other.bytes[i] {
                assert(self@[i as int] > other@[i as int]);
                return false;
            }
            i += 1;
        }
        false
    }
}

/// The all-zero key has the all-zero view, and keys with the same view are
/// the same key.
pub proof fn lemma_key_by_view(a: Pubkey, b: Pubkey)
    ensures
        Pubkey::spec_zero()@ == zero_key(),
        a@ == b@ ==> a == b,
{
    if a@ == b@ {
        assert(a.bytes =~= b.bytes);
    }
}

/// No key is below itself, and of two distinct keys exactly one is below the
/// other: byte order is a strict total order on keys.
pub proof fn lemma_byte_order_total(a: Pubkey, b: Pubkey)
    ensures
        !bytes_lt(a@, a@),
        a@ != b@ ==> (bytes_lt(a@, b@) <==> !bytes_lt(b@, a@)),
        a@ == b@ ==> !bytes_lt(a@, b@),
{
    let x = a@;
    let y = b@;
    if x != y {
        if forall|j: int| 0 <= j < 32 ==> x[j] == y[j] {
            assert(x =~= y);
        }
        lemma_first_difference(x, y, 32);
        let d = choose|i: int|
            0 <= i < 32 && x[i] != y[i] && (forall|j: int| 0 <= j < i ==> x[j] == y[j]);
        assert(x[d] != y[d]);
    }
}

/// Two byte strings that differ somewhere below `n` have a first position in
/// which they differ.
proof fn lemma_first_difference(x: Seq<u8>, y: Seq<u8>, n: int)
    requires
        exists|i: int| 0 <= i < n && x[i] != y[i],
    ensures
        exists|i: int|
            0 <= i < n && x[i] != y[i] && (forall|j: int| 0 <= j < i ==> x[j] == y[j]),
    decreases n,
{
    if exists|i: int| 0 <= i < n - 1 && x[i] != y[i] {
        lemma_first_difference(x, y, n - 1);
    }
}

} // verus!
