//! The reasons for which a block or a transaction is rejected.

use vstd::prelude::*;
use vstd::string::StringExecFns;

verus! {

/// Why validation rejected a block or a transaction.
#[derive(Clone, Copy, Debug, PartialEq, Eq, Structural)]
pub enum ValidationError {
    /// The block's declared previous hash does not match the chain tip.
    ChainLinkMismatch,
    /// The transaction's content hash matches a transaction already accepted.
    DuplicateTransaction,
    /// An operation's content hash matches an operation already accepted.
    DuplicateOperation,
    /// A transfer of zero coins.
    InvalidAmount,
    /// The sender has no entry in the balance table.
    UnknownSender,
    /// The sender's tracked balance is below the requested amount.
    InsufficientBalance,
    /// A balance update would overflow or underflow.
    Overflow,
}

impl ValidationError {
    /// The reason, in words.
    pub fn message(&self) -> (r: &'static str)
        ensures
            r@ == self.spec_message(),
    {
        match self {
            ValidationError::ChainLinkMismatch => "Incorrect hash for prev block",
            ValidationError::DuplicateTransaction => "Duplicate transactions",
            ValidationError::DuplicateOperation => "Duplicate operation",
            ValidationError::InvalidAmount => "Amount operation must be more than zero",
            ValidationError::UnknownSender => "Sender account not exist",
            ValidationError::InsufficientBalance => "Insufficient balance",
            ValidationError::Overflow => "Overflow transaction amount",
        }
    }

    /// What [`message`](Self::message) returns, as a sequence of characters.
    pub open spec fn spec_message(self) -> Seq<char> {
        match self {
            ValidationError::ChainLinkMismatch => "Incorrect hash for prev block"@,
            ValidationError::DuplicateTransaction => "Duplicate transactions"@,
            ValidationError::DuplicateOperation => "Duplicate operation"@,
            ValidationError::InvalidAmount => "Amount operation must be more than zero"@,
            ValidationError::UnknownSender => "Sender account not exist"@,
            ValidationError::InsufficientBalance => "Insufficient balance"@,
            ValidationError::Overflow => "Overflow transaction amount"@,
        }
    }

    /// The message as block validation reports it: a chain-link mismatch is
    /// reported bare, every transaction-level reason is wrapped in a prefix.
    pub fn report(&self) -> (r: String)
        ensures
            r@ == self.spec_report(),
    {
        match self {
            ValidationError::ChainLinkMismatch => String::from_str(self.message()),
            _ => String::from_str("Error during transaction validation, message error: ").concat(
                self.message(),
            ),
        }
    }

    /// What [`report`](Self::report) returns, as a sequence of characters.
    pub open spec fn spec_report(self) -> Seq<char> {
        match self {
            ValidationError::ChainLinkMismatch => self.spec_message(),
            _ => "Error during transaction validation, message error: "@ + self.spec_message(),
        }
    }
}

} // verus!
