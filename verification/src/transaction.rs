//! A transaction: an ordered batch of operations under a nonce, and the
//! rules by which a transaction is validated against chain state.

use vstd::prelude::*;

use crate::chain::{entries_total, Blockchain};
use crate::codec::{dec_rep, dec_string, hex_rep};
use crate::crypto::{digest_hex, keccak_of};
use crate::errors::ValidationError;
use crate::operation::{op_hash, op_like, Operation};

verus! {

/// The content hash of a batch of operations under a nonce: the hex digest
/// of the operations' content hashes followed by the nonce in decimal.
pub open spec fn tx_hash_of(ops: Seq<Operation>, nonce: u64) -> Seq<char> {
    hex_rep(keccak_of(ops.map(|i: int, op: Operation| op_hash(op)).push(dec_rep(nonce as nat))))
}

/// The content hash of a transaction: a pure function of its operations
/// and nonce.
pub open spec fn tx_hash(tx: Transaction) -> Seq<char> {
    tx_hash_of(tx.operations@, tx.nonce)
}

/// Whether two transactions hold the same content, value for value.
pub open spec fn tx_like(a: Transaction, b: Transaction) -> bool {
    &&& a.id@ == b.id@
    &&& a.nonce == b.nonce
    &&& a.operations@.len() == b.operations@.len()
    &&& forall|i: int|
        0 <= i < a.operations@.len() ==> op_like(a.operations@[i], b.operations@[i])
}

/// The balance of an identity in a balance table; absence is balance zero.
pub open spec fn bal_of(bal: Map<Seq<char>, u128>, id: Seq<char>) -> u128 {
    if bal.dom().contains(id) {
        bal[id]
    } else {
        0
    }
}

/// The content hashes of every operation of every transaction in the
/// accepted-transaction database.
pub open spec fn used_op_hashes(db: Seq<Transaction>) -> Set<Seq<char>> {
    Set::new(
        |h: Seq<char>|
            exists|i: int, j: int|
                0 <= i < db.len() && 0 <= j < db[i].operations@.len() && op_hash(
                    db[i].operations@[j],
                ) == h,
    )
}

/// Whether the database already holds a transaction with this content hash.
pub open spec fn is_duplicate_tx(db: Seq<Transaction>, tx: Transaction) -> bool {
    exists|i: int| 0 <= i < db.len() && tx_hash(db[i]) == tx_hash(tx)
}

/// One operation replayed against a balance table: the outcome, and the
/// table as the operation leaves it. A failed operation leaves the table
/// as it found it, except that an overflowing credit leaves the sender
/// already debited.
pub open spec fn op_step(
    bal: Map<Seq<char>, u128>,
    used: Set<Seq<char>>,
    op: Operation,
) -> (Result<(), ValidationError>, Map<Seq<char>, u128>) {
    if used.contains(op_hash(op)) {
        (Err(ValidationError::DuplicateOperation), bal)
    } else if op.amount == 0 {
        (Err(ValidationError::InvalidAmount), bal)
    } else if !bal.dom().contains(op.sender.id@) {
        (Err(ValidationError::UnknownSender), bal)
    } else if bal[op.sender.id@] < op.amount {
        (Err(ValidationError::InsufficientBalance), bal)
    } else {
        let debited = bal.insert(op.sender.id@, (bal[op.sender.id@] - op.amount) as u128);
        if bal_of(debited, op.receiver.id@) + op.amount > u128::MAX {
            (Err(ValidationError::Overflow), debited)
        } else {
            (
                Ok(()),
                debited.insert(
                    op.receiver.id@,
                    (bal_of(debited, op.receiver.id@) + op.amount) as u128,
                ),
            )
        }
    }
}

/// A batch of operations replayed in order, short-circuiting on the first
/// failure: the outcome, and the table as the batch leaves it.
pub open spec fn ops_run(
    bal: Map<Seq<char>, u128>,
    used: Set<Seq<char>>,
    ops: Seq<Operation>,
) -> (Result<(), ValidationError>, Map<Seq<char>, u128>)
    decreases ops.len(),
{
    if ops.len() == 0 {
        (Ok(()), bal)
    } else {
        let step = op_step(bal, used, ops[0]);
        if step.0 is Err {
            step
        } else {
            ops_run(step.1, used, ops.drop_first())
        }
    }
}

/// One transaction validated against chain state: a duplicate transaction
/// is rejected outright; otherwise its operations are replayed in order
/// against the balance table, each checked against the operation hashes
/// already accepted.
pub open spec fn tx_run(
    bal: Map<Seq<char>, u128>,
    db: Seq<Transaction>,
    tx: Transaction,
) -> (Result<(), ValidationError>, Map<Seq<char>, u128>) {
    if is_duplicate_tx(db, tx) {
        (Err(ValidationError::DuplicateTransaction), bal)
    } else {
        ops_run(bal, used_op_hashes(db), tx.operations@)
    }
}

/// An ordered batch of operations under a caller-supplied nonce, with the
/// content hash computed at construction.
#[derive(Clone)]
pub struct Transaction {
    pub id: String,
    pub operations: Vec<Operation>,
    pub nonce: u64,
}

/// Whether the content hash stands among the operation hashes of the
/// accepted-transaction database.
fn op_hash_in_db(db: &Vec<Transaction>, oh: &String) -> (r: bool)
    ensures
        r == used_op_hashes(db@).contains(oh@),
{
    let mut i: usize = 0;
    while i < db.len()
        invariant
            i <= db@.len(),
            forall|a: int, b: int|
                0 <= a < i && 0 <= b < db@[a].operations@.len() ==> op_hash(
                    db@[a].operations@[b],
                ) != oh@,
        decreases db@.len() - i,
    {
        let tx = &db[i];
        let mut j: usize = 0;
        while j < tx.operations.len()
            invariant
                i < db@.len(),
                *tx == db@[i as int],
                j <= tx.operations@.len(),
                forall|a: int, b: int|
                    0 <= a < i && 0 <= b < db@[a].operations@.len() ==> op_hash(
                        db@[a].operations@[b],
                    ) != oh@,
                forall|b: int| 0 <= b < j ==> op_hash(tx.operations@[b]) != oh@,
            decreases tx.operations@.len() - j,
        {
            let h = tx.operations[j].hash();
            if h == *oh {
                proof {
                    assert(op_hash(db@[i as int].operations@[j as int]) == oh@);
                    assert(used_op_hashes(db@).contains(oh@));
                }
                return true;
            }
            j = j + 1;
        }
        i = i + 1;
    }
    proof {
        assert(!used_op_hashes(db@).contains(oh@));
    }
    false
}

fn tx_digest(operations: &Vec<Operation>, nonce: u64) -> (r: String)
    ensures
        r@ == tx_hash_of(operations@, nonce),
{
    let mut parts: Vec<String> = Vec::new();
    let mut i: usize = 0;
    while i < operations.len()
        invariant
            i <= operations@.len(),
            parts.deep_view() =~= operations@.subrange(0, i as int).map(
                |j: int, op: Operation| op_hash(op),
            ),
        decreases operations@.len() - i,
    {
        let h = operations[i].hash();
        let ghost pre = parts.deep_view();
        parts.push(h);
        proof {
            assert(parts.deep_view() =~= pre.push(h@));
            assert(operations@.subrange(0, i as int + 1) =~= operations@.subrange(
                0,
                i as int,
            ).push(operations@[i as int]));
            assert(parts.deep_view() =~= operations@.subrange(0, i as int + 1).map(
                |j: int, op: Operation| op_hash(op),
            ));
        }
        i = i + 1;
    }
    let nonce_part = dec_string(nonce as u128);
    let ghost pre = parts.deep_view();
    parts.push(nonce_part);
    proof {
        assert(parts.deep_view() =~= pre.push(dec_rep(nonce as nat)));
        assert(operations@.subrange(0, operations@.len() as int) =~= operations@);
        assert(parts.deep_view() =~= operations@.map(|j: int, op: Operation| op_hash(op)).push(
            dec_rep(nonce as nat),
        ));
    }
    digest_hex(&parts)
}

impl Transaction {
    /// A transaction over the given operations and nonce, with its content
    /// hash computed at construction.
    pub fn new(nonce: u64, operations: Vec<Operation>) -> (r: Transaction)
        ensures
            r.operations@ == operations@,
            r.nonce == nonce,
            r.id@ == tx_hash_of(operations@, nonce),
    {
        let id = tx_digest(&operations, nonce);
        Transaction { id, operations, nonce }
    }

    /// The content hash, recomputed from the stored operations and nonce.
    pub fn hash(&self) -> (r: String)
        ensures
            r@ == tx_hash(*self),
    {
        tx_digest(&self.operations, self.nonce)
    }

    /// Validates this transaction against the chain and replays its
    /// operations into the balance table, exactly as [`tx_run`] says: the
    /// history, the transaction database and the faucet are untouched, and
    /// the balance table is left as the replay leaves it — which, on
    /// failure, can include the partial effect of the failing operation.
    /// The caller is responsible for snapshotting and restoring the table.
    pub fn validate(&self, chain: &mut Blockchain) -> (r: Result<(), ValidationError>)
        requires
            old(chain).wf(),
        ensures
            final (chain).wf(),
            final (chain).history == old(chain).history,
            final (chain).tx_database == old(chain).tx_database,
            final (chain).faucet_coins == old(chain).faucet_coins,
            r == tx_run(old(chain).balances(), old(chain).tx_database@, *self).0,
            final (chain).balances() == tx_run(
                old(chain).balances(),
                old(chain).tx_database@,
                *self,
            ).1,
            entries_total(final (chain).coin_database@) <= entries_total(
                old(chain).coin_database@,
            ),
            r is Ok ==> entries_total(final (chain).coin_database@) == entries_total(
                old(chain).coin_database@,
            ),
    {
        let ghost bal0 = old(chain).balances();
        let ghost db = old(chain).tx_database@;
        let ghost used = used_op_hashes(db);
        let ghost ops = self.operations@;
        let own_hash = self.hash();
        let mut i: usize = 0;
        while i < chain.tx_database.len()
            invariant
                old(chain).wf(),
                *chain == *old(chain),
                own_hash@ == tx_hash(*self),
                i <= db.len(),
                db == chain.tx_database@,
                forall|k: int| 0 <= k < i ==> tx_hash(db[k]) != tx_hash(*self),
            decreases db.len() - i,
        {
            let other_hash = chain.tx_database[i].hash();
            if own_hash == other_hash {
                proof {
                    assert(is_duplicate_tx(db, *self));
                }
                return Err(ValidationError::DuplicateTransaction);
            }
            i = i + 1;
        }
        proof {
            assert(!is_duplicate_tx(db, *self));
            assert(ops.skip(0) =~= ops);
        }
        let mut k: usize = 0;
        while k < self.operations.len()
            invariant
                old(chain).wf(),
                chain.wf(),
                chain.history == old(chain).history,
                chain.tx_database == old(chain).tx_database,
                chain.faucet_coins == old(chain).faucet_coins,
                bal0 == old(chain).balances(),
                db == old(chain).tx_database@,
                used == used_op_hashes(db),
                ops == self.operations@,
                k <= ops.len(),
                !is_duplicate_tx(db, *self),
                ops_run(bal0, used, ops) == ops_run(chain.balances(), used, ops.skip(k as int)),
                entries_total(chain.coin_database@) == entries_total(old(chain).coin_database@),
            decreases ops.len() - k,
        {
            let ghost cur = chain.balances();
            let ghost rest = ops.skip(k as int);
            proof {
                assert(rest.len() > 0);
                assert(rest[0] == ops[k as int]);
                assert(rest.drop_first() =~= ops.skip(k as int + 1));
            }
            let op = &self.operations[k];
            let oh = op.hash();
            if op_hash_in_db(&chain.tx_database, &oh) {
                proof {
                    assert(ops_run(cur, used, rest) == (
                        Err::<(), ValidationError>(ValidationError::DuplicateOperation),
                        cur,
                    ));
                }
                return Err(ValidationError::DuplicateOperation);
            }
            if op.amount == 0 {
                proof {
                    assert(ops_run(cur, used, rest) == (
                        Err::<(), ValidationError>(ValidationError::InvalidAmount),
                        cur,
                    ));
                }
                return Err(ValidationError::InvalidAmount);
            }
            proof {
                crate::chain::lemma_entries_map_contains(chain.coin_database@, op.sender.id@);
            }
            let sender_balance = match chain.find_account(&op.sender.id) {
                Some(idx) => {
                    proof {
                        crate::chain::lemma_entries_map_value(chain.coin_database@, idx as int);
                    }
                    chain.coin_database[idx].1
                },
                None => {
                    proof {
                        assert(!cur.dom().contains(op.sender.id@));
                        assert(ops_run(cur, used, rest) == (
                            Err::<(), ValidationError>(ValidationError::UnknownSender),
                            cur,
                        ));
                    }
                    return Err(ValidationError::UnknownSender);
                },
            };
            if sender_balance < op.amount {
                proof {
                    assert(ops_run(cur, used, rest) == (
                        Err::<(), ValidationError>(ValidationError::InsufficientBalance),
                        cur,
                    ));
                }
                return Err(ValidationError::InsufficientBalance);
            }
            let debit = chain.sub_from_balance(op.sender.id.clone(), op.amount);
            proof {
                assert(debit is Ok);
                assert(chain.balances() == cur.insert(
                    op.sender.id@,
                    (cur[op.sender.id@] - op.amount) as u128,
                ));
            }
            let ghost debited = chain.balances();
            match chain.add_to_balance(op.receiver.id.clone(), op.amount) {
                Ok(_) => {
                    proof {
                        assert(chain.balances() == debited.insert(
                            op.receiver.id@,
                            (bal_of(debited, op.receiver.id@) + op.amount) as u128,
                        ));
                        assert(op_step(cur, used, rest[0]) == (
                            Ok::<(), ValidationError>(()),
                            chain.balances(),
                        ));
                        assert(ops_run(cur, used, rest) == ops_run(
                            chain.balances(),
                            used,
                            ops.skip(k as int + 1),
                        ));
                    }
                },
                Err(_) => {
                    proof {
                        assert(bal_of(debited, op.receiver.id@) + op.amount > u128::MAX);
                        assert(ops_run(cur, used, rest) == (
                            Err::<(), ValidationError>(ValidationError::Overflow),
                            debited,
                        ));
                    }
                    return Err(ValidationError::Overflow);
                },
            }
            k = k + 1;
        }
        proof {
            assert(ops.skip(ops.len() as int).len() == 0);
            assert(ops_run(bal0, used, ops) == (Ok::<(), ValidationError>(()), chain.balances()));
        }
        Ok(())
    }

    /// A copy of this transaction, equal content for content.
    pub fn duplicate(&self) -> (r: Self)
        ensures
            tx_like(r, *self),
    {
        let id = self.id.clone();
        let mut operations: Vec<Operation> = Vec::new();
        let mut i: usize = 0;
        while i < self.operations.len()
            invariant
                i <= self.operations@.len(),
                operations@.len() == i,
                forall|j: int|
                    0 <= j < i ==> op_like(operations@[j], self.operations@[j]),
            decreases self.operations@.len() - i,
        {
            operations.push(self.operations[i].duplicate());
            i = i + 1;
        }
        Transaction { id, operations, nonce: self.nonce }
    }
}

} // verus!
