//! Little-endian decoding of integers.

use vstd::prelude::*;

use crate::state::ErrorCode;

verus! {

/// The number that `s` spells in little-endian base 256.
pub open spec fn le_value(s: Seq<u8>) -> nat
    decreases s.len(),
{
    if s.len() == 0 {
        0
    } else {
        s[0] as nat + 256 * le_value(s.drop_first())
    }
}

pub open spec fn pow256(n: nat) -> nat
    decreases n,
{
    if n == 0 {
        1
    } else {
        256 * pow256((n - 1) as nat)
    }
}

proof fn lemma_pow256_mono(a: nat, b: nat)
    requires
        a <= b,
    ensures
        pow256(a) <= pow256(b),
    decreases b,
{
    if a < b {
        lemma_pow256_mono(a, (b - 1) as nat);
    }
}

/// Reads a `u64` from the first eight bytes of `bytes`, least significant
/// byte first; fails where there are fewer than eight.
pub fn read_u64_le(bytes: &[u8]) -> (r: Result<u64, ErrorCode>)
    ensures
        r == (if bytes@.len() < 8 {
            Err(ErrorCode::InvalidRandomness)
        } else {
            Ok::<u64, ErrorCode>(le_value(bytes@.take(8)) as u64)
        }),
        r matches Ok(v) ==> v as nat == le_value(bytes@.take(8)),
{
    if bytes.len() < 8 {
        return Err(ErrorCode::InvalidRandomness);
    }
    let ghost s = bytes@.take(8);
    proof {
        reveal_with_fuel(pow256, 8);
    }
    let mut v: u64 = 0;
    let mut i: usize = 8;
    assert(s.subrange(8, 8) =~= Seq::<u8>::empty());
    while i > 0
        invariant
            i <= 8,
            s == bytes@.take(8),
            bytes@.len() >= 8,
            v as nat == le_value(s.subrange(i as int, 8)),
            v < pow256((8 - i) as nat),
            pow256(7) == 72057594037927936,
        decreases i,
    {
        let ghost k: nat = (8 - i) as nat;
        proof {
            lemma_pow256_mono(k, 7);
        }
        let b = bytes[i - 1];
        assert(256 * (v as int) + (b as int) < 256 * pow256(k)) by (nonlinear_arith)
            requires
                v < pow256(k),
                b < 256,
        ;
        assert(s.subrange(i - 1, 8).drop_first() =~= s.subrange(i as int, 8));
        v = (b as u64) + 256 * v;
        i = i - 1;
    }
    assert(s.subrange(0, 8) =~= s);
    Ok(v)
}

} // verus!
