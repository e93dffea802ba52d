//! Big-endian byte encodings.
//!
//! Contract payloads encode unsigned integers as big-endian bytes. The spec
//! functions here give the mathematical reading and writing of such bytes;
//! the executable helpers are proved against them.

use vstd::prelude::*;

verus! {

/// 256^n: the number of values of an n-byte big-endian field.
pub open spec fn pow256(n: nat) -> nat
    decreases n,
{
    if n == 0 {
        1
    } else {
        256 * pow256((n - 1) as nat)
    }
}

/// The value of a big-endian byte string.
pub open spec fn be_val(s: Seq<u8>) -> nat
    decreases s.len(),
{
    if s.len() == 0 {
        0
    } else {
        (be_val(s.drop_last()) * 256 + s.last()) as nat
    }
}

/// The n-byte big-endian encoding of x (mod 256^n).
pub open spec fn be_bytes(x: nat, n: nat) -> Seq<u8>
    decreases n,
{
    if n == 0 {
        Seq::empty()
    } else {
        be_bytes(x / 256, (n - 1) as nat).push((x % 256) as u8)
    }
}

pub proof fn lemma_be_val_bound(s: Seq<u8>)
    ensures
        be_val(s) < pow256(s.len()),
    decreases s.len(),
{
    if s.len() > 0 {
        lemma_be_val_bound(s.drop_last());
        assert(be_val(s.drop_last()) * 256 <= (pow256((s.len() - 1) as nat) - 1) * 256)
            by (nonlinear_arith)
            requires
                be_val(s.drop_last()) <= pow256((s.len() - 1) as nat) - 1,
        ;
    }
}

pub proof fn lemma_pow256_increases(a: nat, b: nat)
    requires
        a <= b,
    ensures
        pow256(a) <= pow256(b),
    decreases b,
{
    if a < b && b > 0 {
        lemma_pow256_increases(a, (b - 1) as nat);
        assert(pow256((b - 1) as nat) <= 256 * pow256((b - 1) as nat)) by (nonlinear_arith)
            requires
                pow256((b - 1) as nat) >= 0,
        ;
    }
}

pub proof fn lemma_pow256_16()
    ensures
        pow256(16) == 0x1_0000_0000_0000_0000_0000_0000_0000_0000nat,
{
    reveal_with_fuel(pow256, 17);
}

/// Reads `count` big-endian bytes starting at `start`.
pub fn read_be_u128(d: &Vec<u8>, start: usize, count: usize) -> (r: u128)
    requires
        count <= 16,
        start + count <= d.len(),
    ensures
        r == be_val(d@.subrange(start as int, (start + count) as int)),
{
    let mut acc: u128 = 0;
    let mut j: usize = 0;
    proof {
        assert(d@.subrange(start as int, start as int) =~= Seq::<u8>::empty());
    }
    while j < count
        invariant
            j <= count,
            count <= 16,
            start + count <= d.len(),
            acc == be_val(d@.subrange(start as int, (start + j) as int)),
            acc < pow256(j as nat),
        decreases count - j,
    {
        proof {
            lemma_pow256_increases(j as nat, 15);
            lemma_pow256_16();
            assert(pow256(15) * 256 == pow256(16));
            assert(acc * 256 <= (pow256(15) - 1) * 256) by (nonlinear_arith)
                requires
                    acc <= pow256(15) - 1,
            ;
            assert(d@.subrange(start as int, (start + j + 1) as int).drop_last() =~= d@.subrange(
                start as int,
                (start + j) as int,
            ));
            assert(d@.subrange(start as int, (start + j + 1) as int).last() == d@[(start + j) as int]);
        }
        acc = acc * 256 + (d[start + j] as u128);
        j = j + 1;
    }
    acc
}

/// Writes x as `count` big-endian bytes.
pub fn u128_be_bytes(x: u128, count: usize) -> (r: Vec<u8>)
    requires
        count <= 16,
        (x as nat) < pow256(count as nat),
    ensures
        r@ == be_bytes(x as nat, count as nat),
        r@.len() == count,
    decreases count,
{
    if count == 0 {
        Vec::new()
    } else {
        proof {
            assert(pow256(count as nat) == 256 * pow256((count - 1) as nat));
            assert((x as nat) / 256 < pow256((count - 1) as nat)) by (nonlinear_arith)
                requires
                    (x as nat) < 256 * pow256((count - 1) as nat),
            ;
        }
        let mut v = u128_be_bytes(x / 256, count - 1);
        v.push((x % 256) as u8);
        v
    }
}

} // verus!
