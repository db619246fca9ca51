//! Identifiers as plain byte and word arrays.
use vstd::prelude::*;

verus! {

/// Equality that is decided by comparing views.
pub trait ViewEq: View + Sized {
    fn view_eq(&self, other: &Self) -> (r: bool)
        ensures
            r == (self@ == other@),
    ;
}

/// Compares two 32-byte arrays element by element.
pub fn bytes32_eq(a: &[u8; 32], b: &[u8; 32]) -> (r: bool)
    ensures
        r == (a@ == b@),
{
    let mut i: usize = 0;
    while i < 32
        invariant
            0 <= i <= 32,
            a@.len() == 32,
            b@.len() == 32,
            forall|j: int| 0 <= j < i ==> a@[j] == b@[j],
        decreases 32 - i,
    {
        if a[i] != b[i] {
            assert(a@[i as int] != b@[i as int]);
            return false;
        }
        i = i + 1;
    }
    assert(a@ =~= b@);
    true
}

/// The address of a program or a user: 32 bytes.
#[derive(Clone, Copy, Debug, PartialEq, Eq, Hash)]
pub struct ActorId {
    pub bytes: [u8; 32],
}

impl View for ActorId {
    type V = Seq<u8>;

    open spec fn view(&self) -> Seq<u8> {
        self.bytes@
    }
}

impl ViewEq for ActorId {
    fn view_eq(&self, other: &Self) -> (r: bool) {
        bytes32_eq(&self.bytes, &other.bytes)
    }
}

/// The view of the all-zero address.
pub open spec fn zero_id_view() -> Seq<u8> {
    Seq::new(32, |i: int| 0u8)
}

/// The all-zero address.
pub open spec fn zero_actor() -> ActorId {
    ActorId { bytes: vstd::array::spec_array_fill_for_copy_type::<u8, 32>(0u8) }
}

impl ActorId {
    /// The all-zero address, used as the "nobody" party of mints and burns.
    pub fn zero() -> (r: ActorId)
        ensures
            r == zero_actor(),
            r@ == zero_id_view(),
    {
        let r = ActorId { bytes: [0u8; 32] };
        assert(r@ =~= zero_id_view());
        r
    }

    /// Whether this is the all-zero address.
    pub fn is_zero(&self) -> (r: bool)
        ensures
            r == (self@ == zero_id_view()),
            r == (self@ == zero_actor()@),
    {
        let z = ActorId::zero();
        self.view_eq(&z)
    }
}

/// A 256-bit number, as four 64-bit words, least significant first.
#[derive(Clone, Copy, Debug, PartialEq, Eq, Hash)]
pub struct U256 {
    pub words: [u64; 4],
}

impl View for U256 {
    type V = Seq<u64>;

    open spec fn view(&self) -> Seq<u64> {
        self.words@
    }
}

impl ViewEq for U256 {
    fn view_eq(&self, other: &Self) -> (r: bool) {
        let a = &self.words;
        let b = &other.words;
        let r = a[0] == b[0] && a[1] == b[1] && a[2] == b[2] && a[3] == b[3];
        proof {
            if r {
                assert(a@ =~= b@);
            } else if a@ == b@ {
                assert(a@[0] == b@[0] && a@[1] == b@[1] && a@[2] == b@[2] && a@[3] == b@[3]);
            }
        }
        r
    }
}

/// The identifier of a non-fungible token.
pub type TokenId = U256;

/// The value of a 256-bit number given as four 64-bit words, least significant first.
pub open spec fn u256_value(w: Seq<u64>) -> nat {
    (w[0] + w[1] * 0x1_0000_0000_0000_0000 + w[2] * 0x1_0000_0000_0000_0000_0000_0000_0000_0000 + w[3]
        * 0x1_0000_0000_0000_0000_0000_0000_0000_0000_0000_0000_0000_0000) as nat
}

/// A 256-bit hash: 32 bytes.
#[derive(Clone, Copy, Debug, PartialEq, Eq, Hash)]
pub struct H256 {
    pub bytes: [u8; 32],
}

impl View for H256 {
    type V = Seq<u8>;

    open spec fn view(&self) -> Seq<u8> {
        self.bytes@
    }
}

impl ViewEq for H256 {
    fn view_eq(&self, other: &Self) -> (r: bool) {
        bytes32_eq(&self.bytes, &other.bytes)
    }
}

impl ViewEq for String {
    fn view_eq(&self, other: &Self) -> (r: bool) {
        *self == *other
    }
}

/// The identifier of a message: 32 bytes.
#[derive(Clone, Copy, Debug, PartialEq, Eq, Hash)]
pub struct MessageId {
    pub bytes: [u8; 32],
}

impl View for MessageId {
    type V = Seq<u8>;

    open spec fn view(&self) -> Seq<u8> {
        self.bytes@
    }
}

} // verus!
