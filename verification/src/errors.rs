use vstd::prelude::*;

verus! {

/// Why a ledger refused to apply a mint.
#[derive(Clone, Copy, Debug, PartialEq, Eq, Structural)]
pub enum MintFault {
    /// The recipient is structurally invalid (the all-zero account).
    InvalidRecipient,
    /// The ledger cannot represent the grown balance or total supply.
    CapacityExceeded,
}

/// The failure indication an oracle gives when it declines to allocate a
/// randomness request.  The cause is the oracle's own affair; the protocol
/// only surfaces that the request did not happen.
#[derive(Clone, Copy, Debug, PartialEq, Eq, Structural)]
pub enum RequestFault {
    Declined,
}

/// Every failure the protocol surfaces to its callers.  Each operation's
/// contract says exactly on which inputs each variant comes; none of them
/// leaves any state changed.
#[derive(Clone, Copy, Debug, PartialEq, Eq, Structural)]
pub enum Error {
    /// The oracle request call did not succeed, so no pending request was
    /// recorded and no signal is owed.
    RandomnessRequestFailed,
    /// A fulfillment arrived from a caller other than the configured oracle
    /// identity.
    OnlyTrustedOracle,
    /// The oracle handed back a handle that is still pending.  Handles are
    /// allocated by the oracle and assumed unique, so this is a defensive
    /// rejection rather than an expected outcome.
    DuplicateHandle,
    /// A fulfillment named a handle with no pending request, either because
    /// none was ever issued or because the handle was already consumed.
    UnknownRequest,
    /// The callback did not deliver exactly the one random value that the
    /// request asked for.
    MalformedCallback,
    /// The ledger refused the mint; the pending request is kept so the
    /// fulfillment can be retried.
    MintFailed(MintFault),
}

} // verus!
