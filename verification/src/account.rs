//! An account: an identity derived from its primary key, a wallet of
//! keypairs, and a cached balance.

use vstd::prelude::*;
use vstd::string::StringExecFns;

use crate::crypto::{ed_verifies, sig_bytes_of};
use crate::keypair::{key_hash, KeyPair};
use crate::operation::Operation;
use crate::signature::Signature;
use crate::{AccountId, Balance};

verus! {

/// An identity, a non-empty wallet of keypairs (index 0 is the default
/// signing key), and a balance. The balance is a local cache only: the
/// chain's balance table is the authoritative value.
#[derive(Debug, Clone)]
pub struct Account {
    pub id: AccountId,
    pub wallet: Vec<KeyPair>,
    pub balance: Balance,
}

impl Account {
    /// Every keypair of the wallet is well formed and the identity is the
    /// hash of the primary public key.
    pub open spec fn wf(&self) -> bool {
        &&& self.wallet@.len() > 0
        &&& forall|i: int| 0 <= i < self.wallet@.len() ==> self.wallet@[i].wf()
        &&& self.id@ == key_hash(self.wallet@[0].public_key@)
    }

    /// Whether a wallet index (default 0) denotes a keypair of the wallet.
    pub open spec fn index_ok(&self, index: Option<usize>) -> bool {
        match index {
            Some(i) => i < self.wallet@.len(),
            None => self.wallet@.len() > 0,
        }
    }

    /// The wallet index denoted by an optional index: the default is 0.
    pub open spec fn chosen(index: Option<usize>) -> int {
        match index {
            Some(i) => i as int,
            None => 0,
        }
    }

    /// Whether `other` holds the same values as `self`, field by field.
    pub open spec fn like(&self, other: &Account) -> bool {
        &&& self.id@ == other.id@
        &&& self.balance == other.balance
        &&& self.wallet@.len() == other.wallet@.len()
        &&& forall|i: int|
            0 <= i < self.wallet@.len() ==> self.wallet@[i].private_key@
                == other.wallet@[i].private_key@ && self.wallet@[i].public_key@
                == other.wallet@[i].public_key@
    }

    /// A fresh account: one generated keypair, identity derived from it,
    /// balance zero.
    pub fn new() -> (r: Self)
        ensures
            r.wf(),
            r.wallet@.len() == 1,
            r.balance == 0,
    {
        Self::generate()
    }

    /// Generates the primary keypair and derives the identity from it.
    pub fn generate() -> (r: Self)
        ensures
            r.wf(),
            r.wallet@.len() == 1,
            r.balance == 0,
    {
        let keypair = KeyPair::generate();
        let id = keypair.hash();
        let mut wallet: Vec<KeyPair> = Vec::new();
        wallet.push(keypair);
        Account { id, wallet, balance: 0 }
    }

    /// Appends a keypair to the wallet.
    pub fn add_keypair(&mut self, keypair: KeyPair)
        ensures
            final (self).wallet@ == old(self).wallet@.push(keypair),
            final (self).id == old(self).id,
            final (self).balance == old(self).balance,
    {
        self.wallet.push(keypair);
    }

    /// Overwrites the cached balance.
    pub fn update_balance(&mut self, balance: Balance)
        ensures
            final (self).balance == balance,
            final (self).id == old(self).id,
            final (self).wallet == old(self).wallet,
    {
        self.balance = balance;
    }

    /// The cached balance.
    pub fn balance(&self) -> (r: Balance)
        ensures
            r == self.balance,
    {
        self.balance
    }

    /// Prints the cached balance.
    pub fn print_balance(&self) {
        let line = crate::codec::dec_string(self.balance);
        crate::console::emit_line(line.as_str());
    }

    /// The keypair at a wallet index, if the index is in bounds.
    pub fn wallet(&self, index: usize) -> (r: Option<&KeyPair>)
        ensures
            match r {
                Some(kp) => index < self.wallet@.len() && *kp == self.wallet@[index as int],
                None => index >= self.wallet@.len(),
            },
    {
        if index < self.wallet.len() {
            Some(&self.wallet[index])
        } else {
            None
        }
    }

    /// Signs the message with the keypair at the given wallet index
    /// (default 0). The index must denote a keypair of the wallet.
    pub fn sign(&self, message: &String, index: Option<usize>) -> (r: Signature)
        requires
            self.index_ok(index),
        ensures
            r.0@ == sig_bytes_of(
                self.wallet@[Self::chosen(index)].private_key@,
                self.wallet@[Self::chosen(index)].public_key@,
                message@,
            ),
            self.wallet@[Self::chosen(index)].wf() ==> ed_verifies(
                self.wallet@[Self::chosen(index)].public_key@,
                message@,
                r.0@,
            ),
    {
        let i: usize = match index {
            Some(i) => i,
            None => 0,
        };
        let keypair = &self.wallet[i];
        keypair.sign(message)
    }

    /// Whether the public key at the given wallet index (default 0) accepts
    /// the signature over the message.
    pub fn verify(&self, message: &String, signature: &Signature, index: Option<usize>) -> (r:
        bool)
        requires
            self.index_ok(index),
        ensures
            r == ed_verifies(
                self.wallet@[Self::chosen(index)].public_key@,
                message@,
                signature.0@,
            ),
    {
        let i: usize = match index {
            Some(i) => i,
            None => 0,
        };
        let keypair = &self.wallet[i];
        keypair.verify(message, signature)
    }

    /// A signed transfer of `amount` coins from this account to the
    /// receiver, signed with the keypair at the given wallet index.
    pub fn create_operation(&self, receiver: Account, amount: Balance, index_wallet: Option<
        usize,
    >) -> (r: Operation)
        requires
            self.index_ok(index_wallet),
        ensures
            r.sender.like(self),
            r.receiver == receiver,
            r.amount == amount,
            r.signature.0@ == sig_bytes_of(
                self.wallet@[Self::chosen(index_wallet)].private_key@,
                self.wallet@[Self::chosen(index_wallet)].public_key@,
                crate::codec::transfer_payload(self.id@, receiver.id@, amount),
            ),
            self.wallet@[Self::chosen(index_wallet)].wf() ==> ed_verifies(
                self.wallet@[Self::chosen(index_wallet)].public_key@,
                crate::codec::transfer_payload(self.id@, receiver.id@, amount),
                r.signature.0@,
            ),
    {
        Operation::new(self.duplicate(), receiver, amount, index_wallet)
    }

    /// A copy of this account, equal value for value.
    pub fn duplicate(&self) -> (r: Self)
        ensures
            r.like(self),
            r.id@ == self.id@,
            r.balance == self.balance,
    {
        let id = String::from_str(self.id.as_str());
        let mut wallet: Vec<KeyPair> = Vec::new();
        let mut i: usize = 0;
        while i < self.wallet.len()
            invariant
                i <= self.wallet@.len(),
                wallet@.len() == i,
                forall|j: int|
                    0 <= j < i ==> wallet@[j].private_key@ == self.wallet@[j].private_key@
                        && wallet@[j].public_key@ == self.wallet@[j].public_key@,
            decreases self.wallet@.len() - i,
        {
            wallet.push(self.wallet[i].duplicate());
            i = i + 1;
        }
        Account { id, wallet, balance: self.balance }
    }
}

} // verus!
