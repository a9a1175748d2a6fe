use vstd::prelude::*;

verus! {

use crate::account::Account;
use crate::errors::{Error, RequestFault};

/// The parameters of one randomness request, as the external oracle's
/// request interface takes them.  The protocol always asks for exactly one
/// random value with one confirmation; the subscription identifies the
/// funding channel and is carried through uninterpreted.
pub struct RandomnessRequest {
    /// The chain-facing name of the callback the oracle must invoke.
    pub callback_signature: String,
    pub replies_wanted: u8,
    pub confirmations_required: u64,
    pub subscription: Account,
}

/// The capability through which a randomness request reaches the external
/// oracle.  An adapter for the real oracle performs a remote call; the
/// deterministic `StubOracle` below serves tests.  Nothing is promised of
/// the outcome: the oracle may decline, and the handle it allocates is its
/// own choice.
pub trait RandomnessSource {
    fn request(&mut self, req: &RandomnessRequest) -> Result<u128, RequestFault>;
}

/// The name of the callback entry point the oracle must invoke to deliver
/// randomness, in the chain's function-signature notation.
pub fn mint_callback_signature() -> (s: &'static str)
    ensures
        s@ == "mintRandomAmount(uint256,uint256[])"@,
{
    "mintRandomAmount(uint256,uint256[])"
}

/// Issue a randomness request through the given source, surfacing any
/// failure as `RandomnessRequestFailed`.  No retry is attempted: retry
/// policy, if any, belongs to the caller.
pub fn request_randomness<S: RandomnessSource>(
    source: &mut S,
    req: &RandomnessRequest,
) -> (r: Result<u128, Error>)
    ensures
        r is Err ==> r == Err::<u128, Error>(Error::RandomnessRequestFailed),
{
    match source.request(req) {
        Ok(handle) => Ok(handle),
        Err(_) => Err(Error::RandomnessRequestFailed),
    }
}

/// A deterministic stand-in for the oracle: hands out `next_handle`, or
/// declines while `decline` is set.  It never changes its own fields, so a
/// test scripts it by setting them between calls.
pub struct StubOracle {
    pub next_handle: u128,
    pub decline: bool,
}

impl RandomnessSource for StubOracle {
    fn request(&mut self, req: &RandomnessRequest) -> (r: Result<u128, RequestFault>)
        ensures
            *final(self) == *old(self),
            r == if old(self).decline {
                Err::<u128, RequestFault>(RequestFault::Declined)
            } else {
                Ok::<u128, RequestFault>(old(self).next_handle)
            },
    {
        if self.decline {
            Err(RequestFault::Declined)
        } else {
            Ok(self.next_handle)
        }
    }
}

} // verus!
