//! The mathematical model of the wire format: little-endian byte strings.
use vstd::prelude::*;

verus! {

/// The little-endian byte string of `v`, exactly `n` bytes long, low byte
/// first; only the low `n` bytes of `v` are kept.
pub open spec fn le_bytes(v: nat, n: nat) -> Seq<u8>
    decreases n,
{
    if n == 0 {
        Seq::empty()
    } else {
        seq![(v % 256) as u8] + le_bytes(v / 256, (n - 1) as nat)
    }
}

/// The unsigned integer a little-endian byte string denotes.
pub open spec fn le_value(s: Seq<u8>) -> nat
    decreases s.len(),
{
    if s.len() == 0 {
        0
    } else {
        (s[0] as nat) + 256 * le_value(s.drop_first())
    }
}

/// 256 raised to `n`: the number of distinct values of an `n`-byte string.
pub open spec fn pow256(n: nat) -> nat
    decreases n,
{
    if n == 0 {
        1
    } else {
        256 * pow256((n - 1) as nat)
    }
}

/// The unsigned number that stands for `v` in two's complement, where `m`
/// is the count of values of the width (`pow256` of the byte width).
pub open spec fn unsigned_in(v: int, m: int) -> nat {
    if v >= 0 {
        v as nat
    } else {
        (v + m) as nat
    }
}

/// The one-byte string of a value below 256 is that byte alone.
pub proof fn lemma_le_bytes_single(v: nat)
    requires
        v < 256,
    ensures
        le_bytes(v, 1) == seq![v as u8],
{
    reveal_with_fuel(le_bytes, 2);
    assert(le_bytes(v, 1) =~= seq![v as u8]);
}

pub proof fn lemma_le_bytes_len(v: nat, n: nat)
    ensures
        le_bytes(v, n).len() == n,
    decreases n,
{
    if n > 0 {
        lemma_le_bytes_len(v / 256, (n - 1) as nat);
    }
}

/// A value below `pow256(n)` is recovered exactly from its `n`-byte string.
pub proof fn lemma_le_bytes_value(v: nat, n: nat)
    requires
        v < pow256(n),
    ensures
        le_value(le_bytes(v, n)) == v,
    decreases n,
{
    if n > 0 {
        let s = le_bytes(v, n);
        let rest = le_bytes(v / 256, (n - 1) as nat);
        assert(s.drop_first() =~= rest);
        assert(v / 256 < pow256((n - 1) as nat)) by {
            lemma_div_bound(v, pow256((n - 1) as nat));
        }
        lemma_le_bytes_value(v / 256, (n - 1) as nat);
        assert(v == 256 * (v / 256) + v % 256) by (nonlinear_arith);
    }
}

proof fn lemma_div_bound(v: nat, p: nat)
    requires
        v < 256 * p,
    ensures
        v / 256 < p,
{
    assert(v / 256 < p) by (nonlinear_arith)
        requires v < 256 * p;
}

/// The byte model agrees with the reference little-endian image of a
/// 64-bit word given by the standard specification library: an
/// independent formulation of the same fixed-width little-endian format.
pub proof fn lemma_le_bytes_matches_reference(x: u64)
    ensures
        le_bytes(x as nat, 8) == vstd::bytes::spec_u64_to_le_bytes(x),
{
    vstd::bytes::spec_u64_to_le_bytes_to_open(x);
    assert(x / 256 == x >> 8) by (bit_vector);
    assert((x >> 8) / 256 == x >> 16) by (bit_vector);
    assert((x >> 16) / 256 == x >> 24) by (bit_vector);
    assert((x >> 24) / 256 == x >> 32) by (bit_vector);
    assert((x >> 32) / 256 == x >> 40) by (bit_vector);
    assert((x >> 40) / 256 == x >> 48) by (bit_vector);
    assert((x >> 48) / 256 == x >> 56) by (bit_vector);
    assert(x % 256 == x & 0xff) by (bit_vector);
    assert((x >> 8) % 256 == (x >> 8) & 0xff) by (bit_vector);
    assert((x >> 16) % 256 == (x >> 16) & 0xff) by (bit_vector);
    assert((x >> 24) % 256 == (x >> 24) & 0xff) by (bit_vector);
    assert((x >> 32) % 256 == (x >> 32) & 0xff) by (bit_vector);
    assert((x >> 40) % 256 == (x >> 40) & 0xff) by (bit_vector);
    assert((x >> 48) % 256 == (x >> 48) & 0xff) by (bit_vector);
    assert((x >> 56) % 256 == (x >> 56) & 0xff) by (bit_vector);
    assert((x >> 56) / 256 == 0) by (bit_vector);
    reveal_with_fuel(le_bytes, 10);
    assert(le_bytes(x as nat, 8) =~= vstd::bytes::spec_u64_to_le_bytes_open(x));
}

} // verus!
