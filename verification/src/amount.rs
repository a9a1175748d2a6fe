use vstd::prelude::*;

verus! {

use crate::uint256::Uint256;

/// The width of the mint-amount range: 1000 whole tokens scaled by the
/// ledger's 18 decimal places.  Every derived amount lies in
/// `[1, RANGE_WIDTH]`.
pub const RANGE_WIDTH: u128 = 1_000_000_000_000_000_000_000;

/// The amount a given raw random value entitles its recipient to.
pub open spec fn derived_amount(raw: Uint256) -> int {
    raw.value() % (RANGE_WIDTH as int) + 1
}

/// Map a raw, unbounded random value into the bounded mint-amount range:
/// `(raw mod RANGE_WIDTH) + 1`.  Deterministic, pure and total; the
/// remainder bounds the value before the add, so nothing can overflow, and
/// the result always lies in the closed range `[1, RANGE_WIDTH]`.
pub fn derive(raw: &Uint256) -> (amount: u128)
    ensures
        amount == derived_amount(*raw),
        1 <= amount <= RANGE_WIDTH,
{
    let r = raw.reduce(RANGE_WIDTH);
    r + 1
}

} // verus!
