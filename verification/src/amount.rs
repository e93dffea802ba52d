//! Unsigned 256-bit amounts.
//!
//! Token amounts and storage words are 256-bit unsigned integers. The type
//! stores two 128-bit limbs and is specified through [`U256::as_nat`], its
//! value as an unbounded natural number.

use vstd::prelude::*;

verus! {

/// An unsigned 256-bit integer: `hi * 2^128 + lo`.
#[derive(Clone, Copy, Debug, Hash, PartialEq, Eq, Structural)]
pub struct U256 {
    pub hi: u128,
    pub lo: u128,
}

/// 2^256, the number of distinct `U256` values.
pub open spec fn u256_bound() -> nat {
    0x1_0000_0000_0000_0000_0000_0000_0000_0000_0000_0000_0000_0000_0000_0000_0000_0000nat
}

/// 2^128, the weight of the high limb.
pub open spec fn u128_bound() -> nat {
    0x1_0000_0000_0000_0000_0000_0000_0000_0000nat
}

/// The `U256` with value n (mod 2^256 for larger n).
pub open spec fn spec_of_nat(n: nat) -> U256 {
    U256 { hi: ((n / u128_bound()) % u128_bound()) as u128, lo: (n % u128_bound()) as u128 }
}

pub proof fn lemma_of_nat_as_nat(n: nat)
    requires
        n < u256_bound(),
    ensures
        spec_of_nat(n).as_nat() == n,
{
    let p = u128_bound();
    vstd::arithmetic::div_mod::lemma_fundamental_div_mod(n as int, p as int);
    vstd::arithmetic::div_mod::lemma_mod_bound(n as int, p as int);
    assert(n / p < p) by (nonlinear_arith)
        requires
            n < p * p,
            p == u128_bound(),
            n >= 0,
    ;
    vstd::arithmetic::div_mod::lemma_small_mod((n / p) as nat, p);
    assert(p * (n / p) == (n / p) * p) by (nonlinear_arith);
}

/// Subtraction clamped at zero, as a value.
pub open spec fn spec_sat_sub(a: U256, b: U256) -> U256 {
    if a.as_nat() <= b.as_nat() {
        U256 { hi: 0, lo: 0 }
    } else {
        spec_of_nat((a.as_nat() - b.as_nat()) as nat)
    }
}

/// Addition modulo 2^256, as a value.
pub open spec fn spec_wrap_add(a: U256, b: U256) -> U256 {
    spec_of_nat(((a.as_nat() + b.as_nat()) % u256_bound()) as nat)
}

/// Subtracting a zero balance leaves the whole required amount missing.
pub proof fn lemma_sat_sub_zero(a: U256)
    ensures
        spec_sat_sub(a, U256 { hi: 0, lo: 0 }) == a,
{
    a.lemma_as_nat_bound();
    if a.as_nat() > 0 {
        lemma_of_nat_as_nat(a.as_nat());
        spec_of_nat(a.as_nat()).lemma_as_nat_injective(a);
    }
}

pub proof fn lemma_wrap_add_value(a: U256, b: U256)
    requires
        a.as_nat() + b.as_nat() < u256_bound(),
    ensures
        spec_wrap_add(a, b).as_nat() == a.as_nat() + b.as_nat(),
{
    vstd::arithmetic::div_mod::lemma_small_mod(a.as_nat() + b.as_nat(), u256_bound());
    lemma_of_nat_as_nat(a.as_nat() + b.as_nat());
}

/// The `U256` encoded by a 32-byte big-endian string.
pub open spec fn spec_u256_of_bytes(s: Seq<u8>) -> U256 {
    U256 {
        hi: crate::encoding::be_val(s.subrange(0, 16)) as u128,
        lo: crate::encoding::be_val(s.subrange(16, 32)) as u128,
    }
}

impl U256 {
    /// The value as an unbounded natural number.
    pub open spec fn as_nat(self) -> nat {
        (self.hi * 0x1_0000_0000_0000_0000_0000_0000_0000_0000nat + self.lo) as nat
    }

    pub proof fn lemma_as_nat_bound(self)
        ensures
            self.as_nat() < u256_bound(),
            self.as_nat() == self.hi * 0x1_0000_0000_0000_0000_0000_0000_0000_0000nat + self.lo,
    {
    }

    /// Two values with the same numeric value have the same limbs.
    pub proof fn lemma_as_nat_injective(self, other: U256)
        requires
            self.as_nat() == other.as_nat(),
        ensures
            self == other,
    {
    }

    pub fn zero() -> (r: U256)
        ensures
            r.as_nat() == 0,
    {
        U256 { hi: 0, lo: 0 }
    }

    pub fn from_u128(x: u128) -> (r: U256)
        ensures
            r.as_nat() == x,
    {
        U256 { hi: 0, lo: x }
    }

    pub fn is_zero(&self) -> (r: bool)
        ensures
            r == (self.as_nat() == 0),
    {
        self.hi == 0 && self.lo == 0
    }

    /// Numeric comparison.
    pub fn lt(&self, other: &U256) -> (r: bool)
        ensures
            r == (self.as_nat() < other.as_nat()),
    {
        self.hi < other.hi || (self.hi == other.hi && self.lo < other.lo)
    }

    /// Subtraction clamped at zero: the missing-amount invariant uses it.
    pub fn saturating_sub(&self, other: &U256) -> (r: U256)
        ensures
            r == spec_sat_sub(*self, *other),
            r.as_nat() == if self.as_nat() <= other.as_nat() {
                0
            } else {
                (self.as_nat() - other.as_nat()) as nat
            },
    {
        let r = if other.lt(self) {
            if self.lo >= other.lo {
                U256 { hi: self.hi - other.hi, lo: self.lo - other.lo }
            } else {
                U256 { hi: self.hi - other.hi - 1, lo: (u128::MAX - other.lo) + self.lo + 1 }
            }
        } else {
            U256 { hi: 0, lo: 0 }
        };
        proof {
            if self.as_nat() > other.as_nat() {
                self.lemma_as_nat_bound();
                lemma_of_nat_as_nat((self.as_nat() - other.as_nat()) as nat);
                r.lemma_as_nat_injective(spec_sat_sub(*self, *other));
            }
        }
        r
    }

    /// Addition modulo 2^256.
    pub fn wrapping_add(&self, other: &U256) -> (r: U256)
        ensures
            r == spec_wrap_add(*self, *other),
            self.as_nat() + other.as_nat() < u256_bound() ==> r.as_nat() == self.as_nat()
                + other.as_nat(),
            r.as_nat() == self.as_nat() + other.as_nat() || r.as_nat() + u256_bound()
                == self.as_nat() + other.as_nat(),
    {
        let (lo, carry): (u128, u128) = if self.lo <= u128::MAX - other.lo {
            (self.lo + other.lo, 0)
        } else {
            (self.lo - (u128::MAX - other.lo) - 1, 1)
        };
        let hi_sum_space = u128::MAX - carry;
        let hi = if other.hi <= hi_sum_space && self.hi <= hi_sum_space - other.hi {
            self.hi + other.hi + carry
        } else {
            if carry == 1 {
                self.hi - (u128::MAX - other.hi)
            } else {
                self.hi - (u128::MAX - other.hi) - 1
            }
        };
        let r = U256 { hi, lo };
        proof {
            let s = self.as_nat() + other.as_nat();
            let b = u256_bound();
            if s < b {
                vstd::arithmetic::div_mod::lemma_small_mod(s, b);
                lemma_of_nat_as_nat(s);
            } else {
                self.lemma_as_nat_bound();
                other.lemma_as_nat_bound();
                vstd::arithmetic::div_mod::lemma_mod_add_multiples_vanish((s - b) as int, b as int);
                vstd::arithmetic::div_mod::lemma_small_mod((s - b) as nat, b);
                lemma_of_nat_as_nat((s - b) as nat);
            }
            r.lemma_as_nat_injective(spec_wrap_add(*self, *other));
        }
        r
    }

    /// The 32-byte big-endian encoding.
    pub open spec fn spec_to_bytes(self) -> Seq<u8> {
        crate::encoding::be_bytes(self.hi as nat, 16) + crate::encoding::be_bytes(
            self.lo as nat,
            16,
        )
    }

    pub fn to_be_bytes(&self) -> (r: Vec<u8>)
        ensures
            r@ == self.spec_to_bytes(),
            r@.len() == 32,
    {
        proof {
            crate::encoding::lemma_pow256_16();
        }
        let mut v = crate::encoding::u128_be_bytes(self.hi, 16);
        let mut w = crate::encoding::u128_be_bytes(self.lo, 16);
        v.append(&mut w);
        v
    }

    /// Reads the 32-byte big-endian encoding starting at `start`.
    pub fn from_bytes_at(d: &Vec<u8>, start: usize) -> (r: U256)
        requires
            start + 32 <= d.len(),
        ensures
            r == spec_u256_of_bytes(d@.subrange(start as int, start as int + 32)),
    {
        let hi = crate::encoding::read_be_u128(d, start, 16);
        let lo = crate::encoding::read_be_u128(d, start + 16, 16);
        proof {
            let s = d@.subrange(start as int, start as int + 32);
            assert(s.subrange(0, 16) =~= d@.subrange(start as int, start as int + 16));
            assert(s.subrange(16, 32) =~= d@.subrange(start as int + 16, start as int + 32));
        }
        U256 { hi, lo }
    }
}

} // verus!
