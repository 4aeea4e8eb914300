//! 128-bit values: how a wide digest is put together from two halves, cut
//! down to the standard 64 bits, and read as unsigned.
//!
//! The 128-bit arithmetic is `extprim`'s. The three functions that call it
//! are trusted; each contract restates over plain integers what the function
//! of `extprim` computes.

use vstd::prelude::*;

verus! {

/// Two to the power of 64.
pub const TWO_64: u128 = 0x1_0000_0000_0000_0000;

/// Two to the power of 128.
pub open spec fn two_128() -> int {
    0x1_0000_0000_0000_0000_0000_0000_0000_0000int
}

/// The 128-bit value whose upper half is `hi` and whose lower half is `lo`.
pub open spec fn wide(hi: u64, lo: u64) -> u128 {
    (hi as int * TWO_64 as int + lo as int) as u128
}

/// The lower 64 bits of a 128-bit value.
pub open spec fn low_half(w: u128) -> u64 {
    (w as int % TWO_64 as int) as u64
}

/// The upper 64 bits of a 128-bit value.
pub open spec fn high_half(w: u128) -> u64 {
    (w as int / TWO_64 as int) as u64
}

/// The unsigned value that has the bits of `i` in two's complement.
pub open spec fn unsigned_bits(i: i128) -> u128 {
    if i >= 0 {
        i as u128
    } else {
        (i as int + two_128()) as u128
    }
}

/// Trusted. Calls `extprim::u128::u128::from_parts` and reads the value back
/// with `as_built_in`. The outside function documents its result as
/// `hi * 2**64 + lo`, and the contract claims that and no more.
#[verifier::external_body]
pub(crate) fn join_halves(hi: u64, lo: u64) -> (w: u128)
    ensures
        w == wide(hi, lo),
{
    extprim::u128::u128::from_parts(hi, lo).as_built_in()
}

/// Trusted. Calls `extprim::u128::u128::low64` on the value that
/// `from_built_in` makes of `w`. The outside function hands out the lower of
/// the two 64-bit words it keeps, and the contract claims that the result is
/// `w` modulo `2**64`.
#[verifier::external_body]
pub(crate) fn low64(w: u128) -> (lo: u64)
    ensures
        lo == low_half(w),
{
    extprim::u128::u128::from_built_in(w).low64()
}

/// Trusted. Calls `extprim::i128::i128::as_u128` on the value that
/// `from_built_in` makes of `i`, and reads the result back with
/// `as_built_in`. The outside function converts "to unsigned with wrapping":
/// the contract claims that a negative `i` comes out as `i + 2**128` and any
/// other `i` unchanged.
#[verifier::external_body]
pub(crate) fn as_unsigned(i: i128) -> (w: u128)
    ensures
        w == unsigned_bits(i),
{
    extprim::i128::i128::from_built_in(i).as_u128().as_built_in()
}

/// A wide value put together from two halves has those halves.
pub proof fn lemma_halves_of_wide(hi: u64, lo: u64)
    ensures
        high_half(wide(hi, lo)) == hi,
        low_half(wide(hi, lo)) == lo,
{
    let t = TWO_64 as int;
    let v = hi as int * t + lo as int;
    assert(0 <= v < t * t) by (nonlinear_arith)
        requires
            v == hi as int * t + lo as int,
            0 <= hi as int,
            (hi as int) < t,
            0 <= lo as int,
            (lo as int) < t,
    ;
    assert(v / t == hi as int && v % t == lo as int) by (nonlinear_arith)
        requires
            v == hi as int * t + lo as int,
            0 <= lo as int,
            (lo as int) < t,
            t > 0,
    ;
}

} // verus!
