//! Argument-shape checks that run before any engine call is made.

use vstd::arithmetic::power2::{lemma2_to64_rest, lemma_pow2_pos, lemma_pow2_strictly_increases, pow2};
use vstd::bits::lemma_u128_shr_is_div;
use vstd::prelude::*;

verus! {

/// A byte table of `table_len` bytes holds one `value_len`-bit entry for each
/// of the `2^index_len` values of an index register.
pub open spec fn table_fits(index_len: nat, value_len: nat, table_len: nat) -> bool {
    8 * table_len >= pow2(index_len) * value_len
}

/// A byte table of `table_len` bytes holds one bit for each of the
/// `2^value_len` values of a register.
pub open spec fn hash_table_fits(value_len: nat, table_len: nat) -> bool {
    8 * table_len >= pow2(value_len)
}

/// Dividing by a positive number and comparing is comparing with the product.
proof fn lemma_quotient_bound(b: int, p: int, v: int)
    by (nonlinear_arith)
    requires
        0 <= b,
        0 < p,
        0 <= v,
    ensures
        (b / p >= v) <==> (b >= p * v),
{
}

/// A product of a number with a positive number is at least the number.
proof fn lemma_product_grows(p: int, v: int)
    by (nonlinear_arith)
    requires
        0 <= p,
        1 <= v,
    ensures
        p * v >= p,
{
}

/// Tells whether a byte table is large enough for an index register and a
/// value register of the given lengths. No intermediate value overflows,
/// whatever the lengths are.
pub fn table_large_enough(index_len: usize, value_len: usize, table_len: usize) -> (ok: bool)
    ensures
        ok == table_fits(index_len as nat, value_len as nat, table_len as nat),
{
    if value_len == 0 {
        assert(pow2(index_len as nat) * 0 == 0) by (nonlinear_arith);
        return true;
    }
    if index_len >= 67 {
        proof {
            lemma2_to64_rest();
            if index_len > 67 {
                lemma_pow2_strictly_increases(67, index_len as nat);
            }
            assert(pow2(67) == 0x8_0000_0000_0000_0000) by {
                vstd::arithmetic::power2::lemma_pow2_adds(64, 3);
                vstd::arithmetic::power2::lemma2_to64();
            }
            lemma_product_grows(pow2(index_len as nat) as int, value_len as int);
        }
        return false;
    }
    let bits: u128 = 8 * (table_len as u128);
    let shift: u128 = index_len as u128;
    let quotient: u128 = bits >> shift;
    proof {
        lemma_u128_shr_is_div(bits, shift);
        lemma_pow2_pos(index_len as nat);
        lemma_quotient_bound(bits as int, pow2(index_len as nat) as int, value_len as int);
    }
    quotient >= value_len as u128
}

/// Tells whether a byte table is large enough for a hash over a register of
/// the given length.
pub fn hash_table_large_enough(value_len: usize, table_len: usize) -> (ok: bool)
    ensures
        ok == hash_table_fits(value_len as nat, table_len as nat),
{
    let ok = table_large_enough(value_len, 1, table_len);
    assert(pow2(value_len as nat) * 1 == pow2(value_len as nat)) by (nonlinear_arith);
    ok
}

} // verus!
