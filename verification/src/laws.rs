//! The laws of the validation pipeline, stated over the replay semantics
//! and proved once and for all.

use vstd::prelude::*;

use crate::block::{block_hash, Block};
use crate::chain::txs_run;
use crate::errors::ValidationError;
use crate::operation::{op_hash, Operation};
use crate::transaction::{
    bal_of, is_duplicate_tx, op_step, ops_run, tx_hash, tx_run, used_op_hashes, Transaction,
};

verus! {

/// Law: an operation's content hash is a pure function of its sender
/// identity, receiver identity and amount — the signature bytes and the
/// account snapshots play no part.
pub proof fn lemma_op_hash_deterministic(a: Operation, b: Operation)
    requires
        a.sender.id@ == b.sender.id@,
        a.receiver.id@ == b.receiver.id@,
        a.amount == b.amount,
    ensures
        op_hash(a) == op_hash(b),
{
}

/// Law: a transaction's content hash is a pure function of its operations'
/// content and its nonce, whether it holds one operation or many.
pub proof fn lemma_tx_hash_deterministic(a: Transaction, b: Transaction)
    requires
        a.nonce == b.nonce,
        a.operations@.len() == b.operations@.len(),
        forall|i: int|
            0 <= i < a.operations@.len() ==> a.operations@[i].sender.id@
                == b.operations@[i].sender.id@ && a.operations@[i].receiver.id@
                == b.operations@[i].receiver.id@ && a.operations@[i].amount
                == b.operations@[i].amount,
    ensures
        tx_hash(a) == tx_hash(b),
{
    assert forall|i: int| 0 <= i < a.operations@.len() implies op_hash(a.operations@[i])
        == op_hash(b.operations@[i]) by {
        lemma_op_hash_deterministic(a.operations@[i], b.operations@[i]);
    }
    assert(a.operations@.map(|i: int, op: Operation| op_hash(op)) =~= b.operations@.map(
        |i: int, op: Operation| op_hash(op),
    ));
}

/// Law: a block's hash is a pure function of its previous-block link and
/// its transactions' content hashes.
pub proof fn lemma_block_hash_deterministic(a: Block, b: Block)
    requires
        match (a.prev, b.prev) {
            (Some(x), Some(y)) => x@ == y@,
            (None, None) => true,
            _ => false,
        },
        a.transactions@.len() == b.transactions@.len(),
        forall|i: int|
            0 <= i < a.transactions@.len() ==> tx_hash(a.transactions@[i]) == tx_hash(
                b.transactions@[i],
            ),
    ensures
        block_hash(a) == block_hash(b),
{
    assert(a.transactions@.map(|i: int, t: Transaction| tx_hash(t)) =~= b.transactions@.map(
        |i: int, t: Transaction| tx_hash(t),
    ));
    assert(crate::block::prev_parts(a.prev) =~= crate::block::prev_parts(b.prev));
}

/// Law: a single-operation transfer of `m` coins from `A` to a distinct
/// `B`, replayed against a balance table where `A` holds at least `m`,
/// succeeds, debits `A` by exactly `m`, credits `B` by exactly `m`, and
/// touches no other balance — provided the transfer is fresh (neither its
/// content nor its operation's content was accepted before) and crediting
/// `B` fits the balance unit.
pub proof fn lemma_transfer_moves_exact_amount(
    bal: Map<Seq<char>, u128>,
    db: Seq<Transaction>,
    tx: Transaction,
)
    requires
        tx.operations@.len() == 1,
        0 < tx.operations@[0].amount,
        tx.operations@[0].sender.id@ != tx.operations@[0].receiver.id@,
        bal.dom().contains(tx.operations@[0].sender.id@),
        tx.operations@[0].amount <= bal[tx.operations@[0].sender.id@],
        bal_of(bal, tx.operations@[0].receiver.id@) + tx.operations@[0].amount <= u128::MAX,
    ensures
        !is_duplicate_tx(db, tx) && !used_op_hashes(db).contains(op_hash(tx.operations@[0]))
            ==> ({
            let outcome = tx_run(bal, db, tx);
            let op = tx.operations@[0];
            &&& outcome.0 is Ok
            &&& bal_of(outcome.1, op.sender.id@) == bal_of(bal, op.sender.id@) - op.amount
            &&& bal_of(outcome.1, op.receiver.id@) == bal_of(bal, op.receiver.id@) + op.amount
            &&& forall|other: Seq<char>|
                other != op.sender.id@ && other != op.receiver.id@ ==> bal_of(outcome.1, other)
                    == bal_of(bal, other)
        }),
{
    if !is_duplicate_tx(db, tx) && !used_op_hashes(db).contains(op_hash(tx.operations@[0])) {
        let used = used_op_hashes(db);
        let op = tx.operations@[0];
        let step = op_step(bal, used, op);
        assert(step.0 is Ok);
        assert(tx.operations@.drop_first().len() == 0);
        assert(ops_run(bal, used, tx.operations@) == ops_run(
            step.1,
            used,
            tx.operations@.drop_first(),
        ));
        assert(tx_run(bal, db, tx).1 == step.1);
    }
}

/// Law: a block carrying exactly one transaction stands or falls with
/// that transaction, and leaves the balance table exactly as the
/// transaction leaves it.
pub proof fn lemma_single_transaction_block(
    bal: Map<Seq<char>, u128>,
    db: Seq<Transaction>,
    txs: Seq<Transaction>,
)
    requires
        txs.len() == 1,
    ensures
        txs_run(bal, db, txs).0 == tx_run(bal, db, txs[0]).0,
        txs_run(bal, db, txs).1 == tx_run(bal, db, txs[0]).1,
{
    let step = tx_run(bal, db, txs[0]);
    if step.0 is Ok {
        assert(txs.drop_first().len() == 0);
        assert(txs_run(step.1, db, txs.drop_first()) == (Ok::<(), ValidationError>(()), step.1));
        assert(step.0 == Ok::<(), ValidationError>(step.0->Ok_0));
    }
}

/// Law: a transaction whose content — operations and nonce — already
/// stands in the accepted-transaction database is rejected as a duplicate
/// transaction and leaves the balance table untouched.
pub proof fn lemma_duplicate_tx_rejected(
    bal: Map<Seq<char>, u128>,
    db: Seq<Transaction>,
    tx: Transaction,
    i: int,
)
    requires
        0 <= i < db.len(),
        db[i].nonce == tx.nonce,
        db[i].operations@.len() == tx.operations@.len(),
        forall|j: int|
            0 <= j < tx.operations@.len() ==> db[i].operations@[j].sender.id@
                == tx.operations@[j].sender.id@ && db[i].operations@[j].receiver.id@
                == tx.operations@[j].receiver.id@ && db[i].operations@[j].amount
                == tx.operations@[j].amount,
    ensures
        tx_run(bal, db, tx) == (Err::<(), ValidationError>(ValidationError::DuplicateTransaction),
        bal),
{
    lemma_tx_hash_deterministic(db[i], tx);
    assert(is_duplicate_tx(db, tx));
}

/// Law: a transaction that is no duplicate itself, but whose first
/// operation's content — sender, receiver and amount — already stands in
/// some accepted transaction, is rejected as a duplicate operation and
/// leaves the balance table untouched.
pub proof fn lemma_duplicate_op_rejected(
    bal: Map<Seq<char>, u128>,
    db: Seq<Transaction>,
    tx: Transaction,
    i: int,
    j: int,
)
    requires
        tx.operations@.len() > 0,
        0 <= i < db.len(),
        0 <= j < db[i].operations@.len(),
        db[i].operations@[j].sender.id@ == tx.operations@[0].sender.id@,
        db[i].operations@[j].receiver.id@ == tx.operations@[0].receiver.id@,
        db[i].operations@[j].amount == tx.operations@[0].amount,
    ensures
        !is_duplicate_tx(db, tx) ==> tx_run(bal, db, tx) == (
            Err::<(), ValidationError>(ValidationError::DuplicateOperation),
            bal,
        ),
{
    if !is_duplicate_tx(db, tx) {
        lemma_op_hash_deterministic(db[i].operations@[j], tx.operations@[0]);
        assert(used_op_hashes(db).contains(op_hash(tx.operations@[0])));
    }
}

} // verus!
