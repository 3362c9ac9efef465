//! Identity keys: the 32-byte addresses that name accounts on the ledger.

use vstd::prelude::*;

verus! {

/// The number of bytes in an identity key.
pub const IDENTITY_KEY_BYTES: usize = 32;

/// An identity key names an account on the external ledger: a user, an asset,
/// a token kind, a payment destination, or a derived custody authority. The
/// engine never interprets the bytes; it only stores, compares and hands them
/// to the environment.
#[derive(Clone, Copy, Debug)]
pub struct IdentityKey {
    pub bytes: [u8; 32],
}

impl View for IdentityKey {
    type V = Seq<u8>;

    open spec fn view(&self) -> Seq<u8> {
        self.bytes@
    }
}

impl IdentityKey {
    /// The all-zero key, used where a record keeps a slot that nothing has
    /// claimed yet.
    pub fn zero() -> (r: IdentityKey)
        ensures
            r@ == Seq::new(32, |i: int| 0u8),
    {
        let r = IdentityKey { bytes: [0u8; 32] };
        proof {
            assert(r@ =~= Seq::new(32, |i: int| 0u8));
        }
        r
    }
}

impl PartialEq for IdentityKey {
    fn eq(&self, other: &IdentityKey) -> (r: bool) {
        let mut i: usize = 0;
        while i < 32
            invariant
                i <= 32,
                forall|j: int| 0 <= j < i ==> self.bytes@[j] == other.bytes@[j],
            decreases 32 - i,
        {
            if self.bytes[i] != other.bytes[i] {
                return false;
            }
            i += 1;
        }
        proof {
            assert(self.bytes@ =~= other.bytes@);
        }
        true
    }
}

impl Eq for IdentityKey {}

impl vstd::std_specs::cmp::PartialEqSpecImpl for IdentityKey {
    open spec fn obeys_eq_spec() -> bool {
        true
    }

    open spec fn eq_spec(&self, other: &IdentityKey) -> bool {
        self.bytes@ == other.bytes@
    }
}

} // verus!
