//! Account addresses: 32-byte public keys, compared by value.

use vstd::prelude::*;

verus! {

/// A 32-byte account address, the plain value behind every account
/// reference that the entry points validate.
#[derive(Clone, Copy, Debug)]
pub struct Pubkey {
    pub bytes: [u8; 32],
}

impl View for Pubkey {
    type V = Seq<u8>;

    open spec fn view(&self) -> Seq<u8> {
        self.bytes@
    }
}

impl Pubkey {
    /// Builds an address from its 32 raw bytes.
    pub fn from_bytes(bytes: [u8; 32]) -> (r: Pubkey)
        ensures
            r@ == bytes@,
    {
        Pubkey { bytes }
    }

    /// Copies the address out as a growable byte vector, for use as a
    /// derivation seed.
    pub fn to_vec(&self) -> (r: Vec<u8>)
        ensures
            r@ == self@,
    {
        let mut r: Vec<u8> = Vec::new();
        let mut i: usize = 0;
        while i < 32
            invariant
                0 <= i <= 32,
                r@ == self@.subrange(0, i as int),
            decreases 32 - i,
        {
            r.push(self.bytes[i]);
            i += 1;
        }
        proof {
            assert(r@ == self@.subrange(0, 32));
            assert(self@.subrange(0, 32) =~= self@);
        }
        r
    }
}

/// Value equality of two addresses.
pub fn key_eq(a: &Pubkey, b: &Pubkey) -> (r: bool)
    ensures
        r <==> a@ == b@,
{
    let mut i: usize = 0;
    while i < 32
        invariant
            0 <= i <= 32,
            forall|j: int| 0 <= j < i ==> a.bytes[j] == b.bytes[j],
        decreases 32 - i,
    {
        if a.bytes[i] != b.bytes[i] {
            proof {
                assert(a@[i as int] != b@[i as int]);
            }
            return false;
        }
        i += 1;
    }
    proof {
        assert(a@ =~= b@);
    }
    true
}

} // verus!
