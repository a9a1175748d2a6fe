use vstd::prelude::*;

verus! {

use crate::account::Account;
use crate::amount::{derived_amount, RANGE_WIDTH};
use crate::effector;
use crate::errors::Error;
use crate::events::{Minted, MintRequested};
use crate::gate::TrustedCallerGate;
use crate::ledger::{balances_unchanged, MintLedger};
use crate::oracle::{mint_callback_signature, request_randomness, RandomnessRequest, RandomnessSource};
use vstd::string::StringExecFns;
use crate::store::PendingRequestStore;
use crate::uint256::Uint256;

/// The construction-time configuration, fixed at initialization and
/// read-only thereafter: the sole identity allowed to deliver callbacks, and
/// the subscription channel that funds oracle requests.
#[derive(Clone, Copy, Debug, PartialEq, Eq, Structural)]
pub struct OracleConfig {
    /// The sole authorized callback caller.
    pub oracle_identity: Account,
    /// Routes oracle billing; carried through, never interpreted.
    pub subscription: Account,
}

/// What one accepted fulfillment must do: mint `amount` to `recipient`.
#[derive(Clone, Copy, Debug, PartialEq, Eq, Structural)]
pub struct FulfillmentPlan {
    pub recipient: Account,
    pub amount: u128,
}

/// A pure check of one incoming callback.  Only the configured oracle
/// identity may deliver; the delivery must carry a single value; a
/// recipient must be present.  The plan then gives that recipient and the
/// amount derived from the value.
pub fn plan_fulfillment(
    gate: &TrustedCallerGate,
    caller: Account,
    resolved: Option<Account>,
    randomness: &Vec<Uint256>,
) -> (r: Result<FulfillmentPlan, Error>)
    ensures
        caller != gate.oracle_identity() ==> r == Err::<FulfillmentPlan, Error>(
            Error::OnlyTrustedOracle,
        ),
        caller == gate.oracle_identity() && randomness@.len() != 1 ==> r == Err::<
            FulfillmentPlan,
            Error,
        >(Error::MalformedCallback),
        caller == gate.oracle_identity() && randomness@.len() == 1 && resolved is None ==> r
            == Err::<FulfillmentPlan, Error>(Error::UnknownRequest),
        caller == gate.oracle_identity() && randomness@.len() == 1 && resolved is Some ==> ({
            &&& r is Ok
            &&& r->Ok_0.recipient == resolved->0
            &&& r->Ok_0.amount == derived_amount(randomness@[0])
            &&& 1 <= r->Ok_0.amount <= RANGE_WIDTH
        }),
{
    if let Err(e) = gate.authorize(caller) {
        return Err(e);
    }
    if randomness.len() != 1 {
        return Err(Error::MalformedCallback);
    }
    let recipient = match resolved {
        Some(a) => a,
        None => {
            return Err(Error::UnknownRequest);
        },
    };
    let amount = crate::amount::derive(&randomness[0]);
    Ok(FulfillmentPlan { recipient, amount })
}

/// The facade tying the protocol together: `request_mint` issues a
/// randomness request and records who awaits it; `fulfill` authenticates
/// the callback, derives the bounded amount, applies the mint exactly once
/// and consumes the pending request.  Each entry point either commits all
/// its state changes and returns the signal to emit, or fails and commits
/// nothing.
pub struct RequestOrchestrator {
    gate: TrustedCallerGate,
    subscription: Account,
    pending: PendingRequestStore,
}

impl RequestOrchestrator {
    /// The identity every fulfillment caller is checked against.
    pub closed spec fn oracle_identity(self) -> Account {
        self.gate.oracle_identity()
    }

    /// The configured funding channel for oracle requests.
    pub closed spec fn subscription(self) -> Account {
        self.subscription
    }

    /// The pending requests: each recorded handle with its recipient.
    pub closed spec fn pending(self) -> Map<u128, Account> {
        self.pending@
    }

    /// Both configuration fields are as constructed.
    pub open spec fn configured_as(self, config: OracleConfig) -> bool {
        &&& self.oracle_identity() == config.oracle_identity
        &&& self.subscription() == config.subscription
    }

    pub fn new(config: OracleConfig) -> (s: RequestOrchestrator)
        ensures
            s.configured_as(config),
            s.pending() == Map::<u128, Account>::empty(),
    {
        RequestOrchestrator {
            gate: TrustedCallerGate::new(config.oracle_identity),
            subscription: config.subscription,
            pending: PendingRequestStore::new(),
        }
    }

    /// The recipient awaiting the request under `handle`, or `None` when no
    /// such request is pending.  Read-only.
    pub fn pending_recipient(&self, handle: u128) -> (r: Option<Account>)
        ensures
            r == if self.pending().dom().contains(handle) {
                Some(self.pending()[handle])
            } else {
                None::<Account>
            },
    {
        self.pending.resolve(handle)
    }

    /// The fixed parameters every randomness request is issued with: the
    /// fulfillment callback's signature, exactly one random value, one
    /// confirmation, billed to the configured subscription.
    pub fn request_params(&self) -> (req: RandomnessRequest)
        ensures
            req.callback_signature@ == "mintRandomAmount(uint256,uint256[])"@,
            req.replies_wanted == 1,
            req.confirmations_required == 1,
            req.subscription == self.subscription(),
    {
        RandomnessRequest {
            callback_signature: String::from_str(mint_callback_signature()),
            replies_wanted: 1,
            confirmations_required: 1,
            subscription: self.subscription,
        }
    }

    /// Ask the oracle for a randomness request on behalf of `recipient` and
    /// record the association under the handle the oracle allocated.  On
    /// success the returned "mint requested" signal carries that handle and
    /// the recipient, and exactly that pair has been added to the pending
    /// map.  On any failure — the oracle declined, or handed back a handle
    /// that is still pending — nothing is recorded and no signal is owed:
    /// the operation is all-or-nothing.
    pub fn request_mint<S: RandomnessSource>(
        &mut self,
        source: &mut S,
        recipient: Account,
    ) -> (r: Result<MintRequested, Error>)
        ensures
            final(self).oracle_identity() == old(self).oracle_identity(),
            final(self).subscription() == old(self).subscription(),
            r is Ok ==> ({
                &&& r->Ok_0.to == recipient
                &&& !old(self).pending().dom().contains(r->Ok_0.handle)
                &&& final(self).pending() == old(self).pending().insert(r->Ok_0.handle, recipient)
            }),
            r is Err ==> final(self).pending() == old(self).pending(),
            r is Err ==> r->Err_0 == Error::RandomnessRequestFailed || r->Err_0
                == Error::DuplicateHandle,
    {
        let req = self.request_params();
        let handle = match request_randomness(source, &req) {
            Ok(h) => h,
            Err(e) => {
                return Err(e);
            },
        };
        match self.pending.put(handle, recipient) {
            Ok(()) => Ok(MintRequested { handle, to: recipient }),
            Err(e) => Err(e),
        }
    }

    /// Deliver randomness for the request under `handle`.  The caller must
    /// be the configured oracle identity and the delivery must hold exactly
    /// the one value requested; the handle must be pending.  Then the amount
    /// `derive` gives for the delivered value is minted to the recorded
    /// recipient, the pending request is consumed so the same handle can
    /// never mint twice, and the returned "minted" signal carries {handle,
    /// recipient, amount}.  Every rejection — untrusted caller, malformed
    /// delivery, unknown handle, ledger refusal — leaves the pending map and
    /// every balance unchanged, and no signal is owed.
    pub fn fulfill<L: MintLedger>(
        &mut self,
        ledger: &mut L,
        caller: Account,
        handle: u128,
        randomness: &Vec<Uint256>,
    ) -> (r: Result<Minted, Error>)
        ensures
            final(self).oracle_identity() == old(self).oracle_identity(),
            final(self).subscription() == old(self).subscription(),
            caller != old(self).oracle_identity() ==> ({
                &&& r == Err::<Minted, Error>(Error::OnlyTrustedOracle)
                &&& final(self).pending() == old(self).pending()
                &&& balances_unchanged(old(ledger), final(ledger))
            }),
            caller == old(self).oracle_identity() && randomness@.len() != 1 ==> ({
                &&& r == Err::<Minted, Error>(Error::MalformedCallback)
                &&& final(self).pending() == old(self).pending()
                &&& balances_unchanged(old(ledger), final(ledger))
            }),
            caller == old(self).oracle_identity() && randomness@.len() == 1 && !old(
                self,
            ).pending().dom().contains(handle) ==> ({
                &&& r == Err::<Minted, Error>(Error::UnknownRequest)
                &&& final(self).pending() == old(self).pending()
                &&& balances_unchanged(old(ledger), final(ledger))
            }),
            caller == old(self).oracle_identity() && randomness@.len() == 1 && old(
                self,
            ).pending().dom().contains(handle) ==> (r is Ok || (r->Err_0 matches Error::MintFailed(
                _,
            ))),
            r is Err && (r->Err_0 matches Error::MintFailed(_)) ==> ({
                &&& final(self).pending() == old(self).pending()
                &&& balances_unchanged(old(ledger), final(ledger))
            }),
            r is Ok ==> ({
                &&& caller == old(self).oracle_identity()
                &&& randomness@.len() == 1
                &&& old(self).pending().dom().contains(handle)
                &&& r->Ok_0.handle == handle
                &&& r->Ok_0.to == old(self).pending()[handle]
                &&& r->Ok_0.amount == derived_amount(randomness@[0])
                &&& 1 <= r->Ok_0.amount <= RANGE_WIDTH
                &&& final(self).pending() == old(self).pending().remove(handle)
                &&& final(ledger).balance_of(r->Ok_0.to) == old(ledger).balance_of(r->Ok_0.to)
                    + r->Ok_0.amount
                &&& forall|a: Account|
                    a != r->Ok_0.to ==> final(ledger).balance_of(a) == old(ledger).balance_of(a)
                &&& final(ledger).total_supply() == old(ledger).total_supply() + r->Ok_0.amount
            }),
    {
        let resolved = self.pending.resolve(handle);
        let plan = match plan_fulfillment(&self.gate, caller, resolved, randomness) {
            Ok(p) => p,
            Err(e) => {
                return Err(e);
            },
        };
        let outcome = match effector::complete(ledger, handle, plan.recipient, plan.amount) {
            Ok(signal) => signal,
            Err(e) => {
                return Err(e);
            },
        };
        let _ = self.pending.remove(handle);
        Ok(outcome)
    }
}

/// Law: a recorded request resolves to its recipient.  Once `request_mint`
/// has added handle `h` for `recipient`, the pending map contains `h` and
/// gives exactly that recipient — the state from which `fulfill` mints the
/// derived amount to the right account.
pub proof fn lemma_recorded_request_resolves(
    pending: Map<u128, Account>,
    h: u128,
    recipient: Account,
)
    ensures
        pending.insert(h, recipient).dom().contains(h),
        pending.insert(h, recipient)[h] == recipient,
{
}

/// Law: a successful fulfillment consumes its handle.  After `fulfill`
/// leaves the pending map at `pending.remove(h)`, that map no longer
/// contains `h`, so a second fulfillment of the same handle meets the
/// unknown-handle clause of `fulfill`: it is rejected with `UnknownRequest`
/// and changes neither the pending map nor any balance.
pub proof fn lemma_fulfillment_consumes_handle(pending: Map<u128, Account>, h: u128)
    ensures
        !pending.remove(h).dom().contains(h),
{
}

} // verus!
