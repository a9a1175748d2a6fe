use vstd::prelude::*;

verus! {

use crate::account::Account;

/// The "mint requested" signal: a randomness request was issued and recorded
/// for `to` under `handle`.  Returned by a successful `request_mint` so the
/// surrounding environment can emit it exactly once, and never on failure.
#[derive(Clone, Copy, Debug, PartialEq, Eq, Structural)]
pub struct MintRequested {
    pub handle: u128,
    pub to: Account,
}

/// The "minted" signal, the outcome of one fulfillment: `amount` was minted
/// to `to` for the request under `handle`.  Returned by a successful
/// `fulfill` so the environment can emit it exactly once, and never on
/// failure.
#[derive(Clone, Copy, Debug, PartialEq, Eq, Structural)]
pub struct Minted {
    pub handle: u128,
    pub to: Account,
    pub amount: u128,
}

} // verus!
