use vstd::prelude::*;

verus! {

use crate::account::Account;
use crate::errors::Error;

/// Holds the single identity permitted to deliver randomness callbacks, and
/// validates an incoming caller against it.  The identity is fixed at
/// construction and never rotated.
#[derive(Clone, Copy, Debug, PartialEq, Eq, Structural)]
pub struct TrustedCallerGate {
    oracle_identity: Account,
}

impl TrustedCallerGate {
    /// The configured oracle identity.
    pub closed spec fn oracle_identity(self) -> Account {
        self.oracle_identity
    }

    pub fn new(oracle_identity: Account) -> (g: TrustedCallerGate)
        ensures
            g.oracle_identity() == oracle_identity,
    {
        TrustedCallerGate { oracle_identity }
    }

    /// A pure comparison: succeeds exactly when the caller is the configured
    /// oracle identity, and otherwise reports `OnlyTrustedOracle`.  No side
    /// effects either way.
    pub fn authorize(&self, caller: Account) -> (r: Result<(), Error>)
        ensures
            r is Ok <==> caller == self.oracle_identity(),
            r is Err ==> r == Err::<(), Error>(Error::OnlyTrustedOracle),
    {
        if caller == self.oracle_identity {
            Ok(())
        } else {
            Err(Error::OnlyTrustedOracle)
        }
    }
}

} // verus!
