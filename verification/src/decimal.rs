//! Decimal rendering of unsigned integers as ASCII bytes.

use vstd::prelude::*;

verus! {

/// The ASCII digit that stands for `d`, for `d` below ten.
pub open spec fn digit(d: nat) -> u8 {
    (48 + d) as u8
}

/// The decimal digits of `n` as ASCII bytes, most significant first, without
/// leading zeros; zero is the single digit `0`.
pub open spec fn decimal(n: nat) -> Seq<u8>
    decreases n,
{
    if n < 10 {
        seq![digit(n)]
    } else {
        decimal(n / 10).push(digit(n % 10))
    }
}

/// The rendering of a `u32` has at least one digit and at most ten.
pub proof fn lemma_decimal_len_u32(n: nat)
    requires
        n <= u32::MAX,
    ensures
        1 <= decimal(n).len() <= 10,
{
    reveal_with_fuel(decimal, 11);
}

/// Appends the decimal digits of `n` to `out`.
pub fn push_decimal(n: u32, out: &mut Vec<u8>)
    ensures
        final(out)@ == old(out)@ + decimal(n as nat),
    decreases n,
{
    if n >= 10 {
        push_decimal(n / 10, out);
    }
    let d: u8 = (n % 10) as u8;
    out.push(48u8 + d);
}

} // verus!
