use vstd::prelude::*;

verus! {

/// A 160-bit chain account identifier, held as plain integers: the high 32
/// bits beside the low 128 bits.  Accounts are only ever stored and compared
/// for equality here; the all-zero account is the conventional "absent"
/// address, which a ledger refuses as a mint recipient.
#[derive(Clone, Copy, Debug, Hash, PartialEq, Eq, Structural)]
pub struct Account {
    pub hi: u32,
    pub lo: u128,
}

impl Account {
    /// Whether this is the all-zero account.
    pub open spec fn is_zero(self) -> bool {
        self.hi == 0 && self.lo == 0
    }

    /// The all-zero account.
    pub fn zero() -> (a: Account)
        ensures
            a.is_zero(),
    {
        Account { hi: 0, lo: 0 }
    }
}

} // verus!
