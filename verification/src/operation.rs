//! An operation: a single signed transfer intent.

use vstd::prelude::*;

use crate::account::Account;
use crate::codec::{hex_rep, transfer_payload};
use crate::crypto::{digest_hex, ed_verifies, keccak_of, sig_bytes_of};
use crate::signature::Signature;
use crate::Balance;

verus! {

/// The canonical payload of an operation: the tuple
/// `(sender id, receiver id, amount)` rendered as text.
pub open spec fn op_payload(op: Operation) -> Seq<char> {
    transfer_payload(op.sender.id@, op.receiver.id@, op.amount)
}

/// The content hash of an operation: the hex digest of its canonical
/// payload. Independent of the signature bytes.
pub open spec fn op_hash(op: Operation) -> Seq<char> {
    hex_rep(keccak_of(seq![op_payload(op)]))
}

/// Whether two operations hold the same values, field for field.
pub open spec fn op_like(a: Operation, b: Operation) -> bool {
    &&& a.sender.like(&b.sender)
    &&& a.receiver.like(&b.receiver)
    &&& a.amount == b.amount
    &&& a.signature.0@ == b.signature.0@
}

/// A transfer intent, immutable once constructed: a snapshot of the sender,
/// the receiver, the amount, and a signature over the canonical payload
/// computed at construction time.
#[derive(Debug, Clone)]
pub struct Operation {
    pub sender: Account,
    pub receiver: Account,
    pub amount: Balance,
    pub signature: Signature,
}

impl Operation {
    /// Builds the canonical payload, has the sender sign it with the keypair
    /// at the given wallet index (default 0), and stores the result.
    pub fn new(sender: Account, receiver: Account, amount: Balance, index_wallet: Option<
        usize,
    >) -> (r: Self)
        requires
            sender.index_ok(index_wallet),
        ensures
            r.sender == sender,
            r.receiver == receiver,
            r.amount == amount,
            r.signature.0@ == sig_bytes_of(
                sender.wallet@[Account::chosen(index_wallet)].private_key@,
                sender.wallet@[Account::chosen(index_wallet)].public_key@,
                op_payload(r),
            ),
            sender.wallet@[Account::chosen(index_wallet)].wf() ==> ed_verifies(
                sender.wallet@[Account::chosen(index_wallet)].public_key@,
                op_payload(r),
                r.signature.0@,
            ),
    {
        let data = crate::codec::payload_string(&sender.id, &receiver.id, amount);
        let signature = sender.sign(&data, index_wallet);
        Operation { sender, receiver, amount, signature }
    }

    /// A copy of the sender snapshot.
    pub fn sender(&self) -> (r: Account)
        ensures
            r.like(&self.sender),
            r.id@ == self.sender.id@,
    {
        self.sender.duplicate()
    }

    /// A copy of the receiver snapshot.
    pub fn receiver(&self) -> (r: Account)
        ensures
            r.like(&self.receiver),
            r.id@ == self.receiver.id@,
    {
        self.receiver.duplicate()
    }

    /// The amount transferred.
    pub fn amount(&self) -> (r: Balance)
        ensures
            r == self.amount,
    {
        self.amount
    }

    /// The stored signature.
    pub fn signature(&self) -> (r: &Signature)
        ensures
            r.0@ == self.signature.0@,
    {
        &self.signature
    }

    /// The canonical payload, rebuilt from the stored fields.
    pub fn data(&self) -> (r: String)
        ensures
            r@ == op_payload(*self),
    {
        crate::codec::payload_string(&self.sender.id, &self.receiver.id, self.amount)
    }

    /// Reports the operation as invalid only when the sender's cached
    /// balance is below the amount *and* the stored signature verifies
    /// against the rebuilt payload; any other combination, a bad signature
    /// included, is reported as valid.
    pub fn verify(&self, index_wallet: Option<usize>) -> (r: bool)
        requires
            self.sender.index_ok(index_wallet),
        ensures
            r == !(self.sender.balance < self.amount && ed_verifies(
                self.sender.wallet@[Account::chosen(index_wallet)].public_key@,
                op_payload(*self),
                self.signature.0@,
            )),
    {
        let data = self.data();
        if self.sender.balance() < self.amount && self.sender.verify(
            &data,
            &self.signature,
            index_wallet,
        ) {
            return false;
        }
        true
    }

    /// A copy of this operation, equal value for value.
    pub fn duplicate(&self) -> (r: Self)
        ensures
            op_like(r, *self),
    {
        Operation {
            sender: self.sender.duplicate(),
            receiver: self.receiver.duplicate(),
            amount: self.amount,
            signature: Signature(crate::keypair::copy_bytes(&self.signature.0)),
        }
    }

    /// The content hash of this operation.
    pub fn hash(&self) -> (r: String)
        ensures
            r@ == op_hash(*self),
    {
        let data = self.data();
        let mut parts: Vec<String> = Vec::new();
        parts.push(data);
        let digest = digest_hex(&parts);
        proof {
            assert(parts.deep_view() =~= seq![op_payload(*self)]);
        }
        digest
    }
}

} // verus!
