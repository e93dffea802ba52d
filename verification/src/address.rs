//! Contract and account addresses.
//!
//! An address is a 160-bit identifier, stored as a 32-bit high part and a
//! 128-bit low part, both big-endian with respect to the usual 20-byte
//! wire encoding.

use crate::encoding::{be_bytes, be_val, lemma_be_val_bound, pow256, read_be_u128, u128_be_bytes};
use vstd::prelude::*;

verus! {

/// A 160-bit address: 4 high bytes in `hi`, 16 low bytes in `lo`.
#[derive(Clone, Copy, Debug, Hash, PartialEq, Eq, Structural)]
pub struct Address {
    pub hi: u32,
    pub lo: u128,
}

/// The address encoded by a 20-byte big-endian string.
pub open spec fn spec_address_of_bytes(s: Seq<u8>) -> Address {
    Address { hi: be_val(s.subrange(0, 4)) as u32, lo: be_val(s.subrange(4, 20)) as u128 }
}

pub proof fn lemma_pow256_small()
    ensures
        pow256(4) == 0x1_0000_0000nat,
        pow256(16) == 0x1_0000_0000_0000_0000_0000_0000_0000_0000nat,
        pow256(20) == 0x1_0000_0000_0000_0000_0000_0000_0000_0000_0000_0000nat,
{
    reveal_with_fuel(pow256, 21);
}

impl Address {
    pub fn zero() -> (r: Address)
        ensures
            r == (Address { hi: 0u32, lo: 0u128 }),
    {
        Address { hi: 0, lo: 0 }
    }

    /// Reads the 20-byte big-endian encoding starting at `start`.
    pub fn from_bytes_at(d: &Vec<u8>, start: usize) -> (r: Address)
        requires
            start + 20 <= d.len(),
        ensures
            r == spec_address_of_bytes(d@.subrange(start as int, start as int + 20)),
    {
        let hi_wide = read_be_u128(d, start, 4);
        let lo = read_be_u128(d, start + 4, 16);
        proof {
            let s = d@.subrange(start as int, start as int + 20);
            assert(s.subrange(0, 4) =~= d@.subrange(start as int, start as int + 4));
            assert(s.subrange(4, 20) =~= d@.subrange(start as int + 4, start as int + 20));
            lemma_be_val_bound(s.subrange(0, 4));
            lemma_pow256_small();
        }
        Address { hi: hi_wide as u32, lo }
    }

    /// The 20-byte big-endian encoding.
    pub open spec fn spec_to_bytes(self) -> Seq<u8> {
        be_bytes(self.hi as nat, 4) + be_bytes(self.lo as nat, 16)
    }

    pub fn to_bytes(&self) -> (r: Vec<u8>)
        ensures
            r@ == self.spec_to_bytes(),
            r@.len() == 20,
    {
        proof {
            lemma_pow256_small();
        }
        let mut v = u128_be_bytes(self.hi as u128, 4);
        let mut w = u128_be_bytes(self.lo, 16);
        v.append(&mut w);
        v
    }
}

} // verus!
