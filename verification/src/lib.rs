//! A minimal single-process ledger.
//!
//! Accounts hold keypairs and balances, operations are signed transfer
//! intents, transactions batch operations under a nonce, blocks chain
//! transactions through digests, and a blockchain replays blocks against a
//! balance table with all-or-nothing rollback on invalid input.

use vstd::prelude::*;

pub mod account;
pub mod block;
pub mod chain;
pub mod codec;
pub mod console;
pub mod crypto;
pub mod errors;
pub mod keypair;
pub mod laws;
pub mod operation;
pub mod signature;
pub mod transaction;

pub use account::Account;
pub use keypair::KeyPair;
pub use signature::Signature;

verus! {

/// Identifier of an account: the hex digest of its primary public key.
pub type AccountId = String;

/// Balance unit of the chain's native coin.
pub type Balance = u128;

} // verus!
