//! A fungible-token mint protocol whose mint amount is decided later by an
//! external randomness oracle through an asynchronous callback.
//!
//! The library holds the correlation protocol between a randomness request
//! and its eventual fulfillment: recording which recipient awaits which
//! request handle, authenticating the callback caller against the one
//! trusted oracle identity, deriving a bounded mint amount from raw
//! randomness, and applying the mint exactly once.  The external oracle and
//! the external token ledger are reached through capability traits; a
//! deterministic stub for each lives here for tests.

pub mod account;
pub mod amount;
pub mod effector;
pub mod errors;
pub mod events;
pub mod gate;
pub mod ledger;
pub mod oracle;
pub mod orchestrator;
pub mod store;
pub mod uint256;

pub use account::Account;
pub use errors::{Error, MintFault, RequestFault};
