//! Decimal rendering of unsigned integers, used to embed timestamps, sizes
//! and ports in the emitted request lines.

use vstd::prelude::*;

verus! {

/// The usual decimal digit string of `n` (most significant digit first,
/// no leading zeros except for `n == 0` itself), as ASCII bytes.
pub open spec fn spec_dec(n: nat) -> Seq<u8>
    decreases n,
{
    if n < 10 {
        seq![(48 + n) as u8]
    } else {
        spec_dec(n / 10) + seq![(48 + n % 10) as u8]
    }
}

/// Render `n` in decimal as ASCII bytes.
pub fn dec_u128(n: u128) -> (digits: Vec<u8>)
    ensures
        digits@ == spec_dec(n as nat),
    decreases n,
{
    if n < 10 {
        let mut digits: Vec<u8> = Vec::new();
        digits.push((48 + n) as u8);
        digits
    } else {
        let mut digits = dec_u128(n / 10);
        digits.push((48 + n % 10) as u8);
        assert(digits@ =~= spec_dec(n as nat));
        digits
    }
}

} // verus!
