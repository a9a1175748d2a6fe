use vstd::prelude::*;

verus! {

use crate::account::Account;
use crate::errors::Error;
use crate::events::Minted;
use crate::ledger::{balances_unchanged, MintLedger};

/// Apply a derived amount to its recipient through the ledger and report the
/// completion signal.  A ledger refusal is propagated as `MintFailed` and
/// leaves every balance as it was; on success the recipient's balance and
/// the total supply grow by exactly `amount`, and the returned signal
/// carries {handle, recipient, amount} for the environment to emit.
pub fn complete<L: MintLedger>(
    ledger: &mut L,
    handle: u128,
    recipient: Account,
    amount: u128,
) -> (r: Result<Minted, Error>)
    ensures
        r is Ok ==> ({
            &&& r->Ok_0 == (Minted { handle, to: recipient, amount })
            &&& final(ledger).balance_of(recipient) == old(ledger).balance_of(recipient) + amount
            &&& forall|a: Account|
                a != recipient ==> final(ledger).balance_of(a) == old(ledger).balance_of(a)
            &&& final(ledger).total_supply() == old(ledger).total_supply() + amount
        }),
        r is Err ==> ({
            &&& r->Err_0 matches Error::MintFailed(_)
            &&& balances_unchanged(old(ledger), final(ledger))
        }),
{
    match ledger.mint(recipient, amount) {
        Ok(()) => Ok(Minted { handle, to: recipient, amount }),
        Err(fault) => Err(Error::MintFailed(fault)),
    }
}

} // verus!
