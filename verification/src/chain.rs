//! The blockchain: the balance table, the block history, the flat database
//! of accepted transactions, and the faucet pool.

use vstd::prelude::*;
use vstd::pervasive::VecAdditionalExecFns;

use crate::block::{block_hash, Block};
use crate::errors::ValidationError;
use crate::transaction::{bal_of, tx_like, tx_run, Transaction};
use crate::{AccountId, Balance};

verus! {

/// The balance table denoted by a list of entries: later entries would
/// override earlier ones, but the chain keeps its keys unique.
pub open spec fn entries_map(entries: Seq<(AccountId, Balance)>) -> Map<Seq<char>, u128>
    decreases entries.len(),
{
    if entries.len() == 0 {
        Map::empty()
    } else {
        entries_map(entries.drop_last()).insert(entries.last().0@, entries.last().1)
    }
}

/// The sum of every balance in the table.
pub open spec fn entries_total(entries: Seq<(AccountId, Balance)>) -> int
    decreases entries.len(),
{
    if entries.len() == 0 {
        0
    } else {
        entries_total(entries.drop_last()) + entries.last().1
    }
}

/// Replacing the entry at `i` moves the sum by the difference of the two
/// balances.
pub proof fn lemma_entries_total_update(
    entries: Seq<(AccountId, Balance)>,
    i: int,
    p: (AccountId, Balance),
)
    requires
        0 <= i < entries.len(),
    ensures
        entries_total(entries.update(i, p)) == entries_total(entries) - entries[i].1 + p.1,
    decreases entries.len(),
{
    let updated = entries.update(i, p);
    if i == entries.len() - 1 {
        assert(updated.drop_last() =~= entries.drop_last());
    } else {
        lemma_entries_total_update(entries.drop_last(), i, p);
        assert(updated.drop_last() =~= entries.drop_last().update(i, p));
        assert(updated.last() == entries.last());
    }
}

/// No two entries name the same account.
pub open spec fn keys_unique(entries: Seq<(AccountId, Balance)>) -> bool {
    forall|i: int, j: int| 0 <= i < j < entries.len() ==> entries[i].0@ != entries[j].0@
}

/// An account stands in the table exactly when some entry names it.
pub proof fn lemma_entries_map_contains(entries: Seq<(AccountId, Balance)>, k: Seq<char>)
    ensures
        entries_map(entries).dom().contains(k) <==> exists|i: int|
            0 <= i < entries.len() && entries[i].0@ == k,
    decreases entries.len(),
{
    if entries.len() > 0 {
        lemma_entries_map_contains(entries.drop_last(), k);
        if entries.last().0@ == k {
            assert(entries[entries.len() - 1].0@ == k);
        } else {
            if exists|i: int| 0 <= i < entries.len() && entries[i].0@ == k {
                let i = choose|i: int| 0 <= i < entries.len() && entries[i].0@ == k;
                assert(entries.drop_last()[i] == entries[i]);
            }
        }
    }
}

/// With unique keys, each entry holds its account's balance in the table.
pub proof fn lemma_entries_map_value(entries: Seq<(AccountId, Balance)>, i: int)
    requires
        keys_unique(entries),
        0 <= i < entries.len(),
    ensures
        entries_map(entries).dom().contains(entries[i].0@),
        entries_map(entries)[entries[i].0@] == entries[i].1,
    decreases entries.len(),
{
    if i == entries.len() - 1 {
    } else {
        assert(keys_unique(entries.drop_last()));
        assert(entries.drop_last()[i] == entries[i]);
        lemma_entries_map_value(entries.drop_last(), i);
        assert(entries[i].0@ != entries.last().0@);
    }
}

/// Replacing the balance of the entry at `i` updates the table at that
/// account alone.
pub proof fn lemma_entries_map_update(
    entries: Seq<(AccountId, Balance)>,
    i: int,
    p: (AccountId, Balance),
)
    requires
        keys_unique(entries),
        0 <= i < entries.len(),
        p.0@ == entries[i].0@,
    ensures
        entries_map(entries.update(i, p)) == entries_map(entries).insert(p.0@, p.1),
        keys_unique(entries.update(i, p)),
    decreases entries.len(),
{
    let updated = entries.update(i, p);
    assert(keys_unique(updated));
    if i == entries.len() - 1 {
        assert(updated.drop_last() =~= entries.drop_last());
        assert(updated.last() == p);
        assert(entries_map(updated) =~= entries_map(entries).insert(p.0@, p.1));
    } else {
        assert(keys_unique(entries.drop_last()));
        assert(entries.drop_last()[i] == entries[i]);
        lemma_entries_map_update(entries.drop_last(), i, p);
        assert(updated.drop_last() =~= entries.drop_last().update(i, p));
        assert(updated.last() == entries.last());
        assert(p.0@ != entries.last().0@);
        assert(entries_map(updated) =~= entries_map(entries).insert(p.0@, p.1));
    }
}

/// Appending an entry for an account no entry names extends the table at
/// that account alone.
pub proof fn lemma_entries_map_push(entries: Seq<(AccountId, Balance)>, p: (AccountId, Balance))
    requires
        keys_unique(entries),
        forall|i: int| 0 <= i < entries.len() ==> entries[i].0@ != p.0@,
    ensures
        entries_map(entries.push(p)) == entries_map(entries).insert(p.0@, p.1),
        keys_unique(entries.push(p)),
{
    assert(entries.push(p).drop_last() =~= entries);
    assert(entries.push(p).last() == p);
}

/// A copy of a balance table, equal entry for entry.
fn copy_entries(entries: &Vec<(AccountId, Balance)>) -> (r: Vec<(AccountId, Balance)>)
    ensures
        r@ == entries@,
{
    let mut r: Vec<(AccountId, Balance)> = Vec::new();
    let mut i: usize = 0;
    while i < entries.len()
        invariant
            i <= entries@.len(),
            r@ =~= entries@.subrange(0, i as int),
        decreases entries@.len() - i,
    {
        let entry = &entries[i];
        r.push((entry.0.clone(), entry.1));
        i = i + 1;
    }
    proof {
        assert(r@ =~= entries@);
    }
    r
}

/// The balance table, the block history (the genesis block first), the
/// flat list of every accepted transaction, and the faucet pool.
pub struct Blockchain {
    pub coin_database: Vec<(AccountId, Balance)>,
    pub history: Vec<Block>,
    pub tx_database: Vec<Transaction>,
    pub faucet_coins: Balance,
}

/// A batch of transactions replayed in order against chain state,
/// short-circuiting on the first failure: the outcome, and the balance
/// table as the batch leaves it. Every transaction of the batch is checked
/// against the same accepted-transaction database.
pub open spec fn txs_run(
    bal: Map<Seq<char>, u128>,
    db: Seq<Transaction>,
    txs: Seq<Transaction>,
) -> (Result<(), ValidationError>, Map<Seq<char>, u128>)
    decreases txs.len(),
{
    if txs.len() == 0 {
        (Ok(()), bal)
    } else {
        let step = tx_run(bal, db, txs[0]);
        if step.0 is Err {
            step
        } else {
            txs_run(step.1, db, txs.drop_first())
        }
    }
}

/// Whether a block's declared previous hash matches the chain tip.
pub open spec fn link_ok(chain: Blockchain, block: Block) -> bool {
    match block.prev {
        Some(h) => h@ == block_hash(chain.history@.last()),
        None => false,
    }
}

impl Blockchain {
    /// The balance table keeps its keys unique and the history always
    /// starts from the genesis block.
    pub open spec fn wf(&self) -> bool {
        &&& keys_unique(self.coin_database@)
        &&& self.history@.len() >= 1
    }

    /// The balance table as a map from account identity to balance.
    pub open spec fn balances(&self) -> Map<Seq<char>, u128> {
        entries_map(self.coin_database@)
    }

    /// A fresh chain: a genesis block with no predecessor and no
    /// transactions, an empty balance table, and a full faucet.
    pub fn new() -> (r: Blockchain)
        ensures
            r.wf(),
            r.history@.len() == 1,
            r.history@[0].prev is None,
            r.history@[0].transactions@.len() == 0,
            r.history@[0].id@ == block_hash(r.history@[0]),
            r.tx_database@.len() == 0,
            r.balances() == Map::<Seq<char>, u128>::empty(),
            r.faucet_coins == 100_000_000,
    {
        let genesis = Block::new(None, Vec::new());
        let mut history: Vec<Block> = Vec::new();
        history.push(genesis);
        Blockchain {
            coin_database: Vec::new(),
            history,
            tx_database: Vec::new(),
            faucet_coins: 100_000_000,
        }
    }

    /// The index of the entry naming this account, if one does.
    pub(crate) fn find_account(&self, id: &AccountId) -> (r: Option<usize>)
        ensures
            match r {
                Some(i) => i < self.coin_database@.len() && self.coin_database@[i as int].0@
                    == id@,
                None => forall|i: int|
                    0 <= i < self.coin_database@.len() ==> self.coin_database@[i].0@ != id@,
            },
    {
        let mut i: usize = 0;
        while i < self.coin_database.len()
            invariant
                i <= self.coin_database@.len(),
                forall|j: int| 0 <= j < i ==> self.coin_database@[j].0@ != id@,
            decreases self.coin_database@.len() - i,
        {
            if self.coin_database[i].0 == *id {
                return Some(i);
            }
            i = i + 1;
        }
        None
    }

    /// The balance of an account; an account with no ledger entry has
    /// balance zero.
    pub fn balance(&self, account_id: AccountId) -> (r: Balance)
        requires
            self.wf(),
        ensures
            r == bal_of(self.balances(), account_id@),
    {
        proof {
            lemma_entries_map_contains(self.coin_database@, account_id@);
        }
        match self.find_account(&account_id) {
            Some(i) => {
                proof {
                    lemma_entries_map_value(self.coin_database@, i as int);
                }
                self.coin_database[i].1
            },
            None => 0,
        }
    }

    /// Credits `amount` to the account, creating its entry if absent;
    /// rejects an overflowing credit and leaves the chain untouched.
    pub(crate) fn add_to_balance(&mut self, account_id: AccountId, amount: Balance) -> (r: Result<
        (),
        ValidationError,
    >)
        requires
            old(self).wf(),
        ensures
            final (self).wf(),
            final (self).history == old(self).history,
            final (self).tx_database == old(self).tx_database,
            final (self).faucet_coins == old(self).faucet_coins,
            ({
                let b = bal_of(old(self).balances(), account_id@);
                if b + amount <= u128::MAX {
                    &&& r is Ok
                    &&& final (self).balances() == old(self).balances().insert(
                        account_id@,
                        (b + amount) as u128,
                    )
                    &&& entries_total(final (self).coin_database@) == entries_total(
                        old(self).coin_database@,
                    ) + amount
                } else {
                    &&& r == Err::<(), ValidationError>(ValidationError::Overflow)
                    &&& *final (self) == *old(self)
                }
            }),
    {
        proof {
            lemma_entries_map_contains(self.coin_database@, account_id@);
        }
        match self.find_account(&account_id) {
            Some(i) => {
                proof {
                    lemma_entries_map_value(self.coin_database@, i as int);
                }
                let current = self.coin_database[i].1;
                if amount > u128::MAX - current {
                    return Err(ValidationError::Overflow);
                }
                proof {
                    lemma_entries_map_update(
                        self.coin_database@,
                        i as int,
                        (account_id, (current + amount) as u128),
                    );
                    lemma_entries_total_update(
                        self.coin_database@,
                        i as int,
                        (account_id, (current + amount) as u128),
                    );
                }
                self.coin_database.set(i, (account_id, current + amount));
                Ok(())
            },
            None => {
                proof {
                    lemma_entries_map_push(self.coin_database@, (account_id, amount));
                    assert(self.coin_database@.push((account_id, amount)).drop_last()
                        =~= self.coin_database@);
                }
                self.coin_database.push((account_id, amount));
                Ok(())
            },
        }
    }

    /// Debits `amount` from the account; rejects an underflowing debit, or
    /// an account with no entry, and leaves the chain untouched.
    pub(crate) fn sub_from_balance(&mut self, account_id: AccountId, amount: Balance) -> (r:
        Result<(), ValidationError>)
        requires
            old(self).wf(),
        ensures
            final (self).wf(),
            final (self).history == old(self).history,
            final (self).tx_database == old(self).tx_database,
            final (self).faucet_coins == old(self).faucet_coins,
            ({
                let bal = old(self).balances();
                if bal.dom().contains(account_id@) && bal[account_id@] >= amount {
                    &&& r is Ok
                    &&& final (self).balances() == bal.insert(
                        account_id@,
                        (bal[account_id@] - amount) as u128,
                    )
                    &&& entries_total(final (self).coin_database@) == entries_total(
                        old(self).coin_database@,
                    ) - amount
                } else {
                    &&& r == Err::<(), ValidationError>(ValidationError::Overflow)
                    &&& *final (self) == *old(self)
                }
            }),
    {
        proof {
            lemma_entries_map_contains(self.coin_database@, account_id@);
        }
        match self.find_account(&account_id) {
            Some(i) => {
                proof {
                    lemma_entries_map_value(self.coin_database@, i as int);
                }
                let current = self.coin_database[i].1;
                if current < amount {
                    return Err(ValidationError::Overflow);
                }
                proof {
                    lemma_entries_map_update(
                        self.coin_database@,
                        i as int,
                        (account_id, (current - amount) as u128),
                    );
                    lemma_entries_total_update(
                        self.coin_database@,
                        i as int,
                        (account_id, (current - amount) as u128),
                    );
                }
                self.coin_database.set(i, (account_id, current - amount));
                Ok(())
            },
            None => Err(ValidationError::Overflow),
        }
    }

    /// Validates a block and, when every transaction of it validates,
    /// appends it: the block must link to the chain tip, and its
    /// transactions are replayed in order against the balance table. Any
    /// failure restores the balance table exactly as it was and leaves the
    /// history and the transaction database untouched; success appends the
    /// block to the history, its transactions to the transaction database,
    /// and keeps the replayed balances.
    pub fn validate(&mut self, block: Block) -> (r: Result<(), ValidationError>)
        requires
            old(self).wf(),
        ensures
            final (self).wf(),
            final (self).faucet_coins == old(self).faucet_coins,
            entries_total(final (self).coin_database@) == entries_total(old(self).coin_database@),
            !link_ok(*old(self), block) ==> r == Err::<(), ValidationError>(
                ValidationError::ChainLinkMismatch,
            ) && *final (self) == *old(self),
            link_ok(*old(self), block) ==> r == txs_run(
                old(self).balances(),
                old(self).tx_database@,
                block.transactions@,
            ).0,
            r is Err ==> final (self).coin_database@ == old(self).coin_database@,
            r is Err ==> final (self).history == old(self).history,
            r is Err ==> final (self).tx_database == old(self).tx_database,
            link_ok(*old(self), block) && r is Ok ==> ({
                let outcome = txs_run(
                    old(self).balances(),
                    old(self).tx_database@,
                    block.transactions@,
                );
                &&& final (self).balances() == outcome.1
                &&& final (self).history@ == old(self).history@.push(block)
                &&& final (self).tx_database@.len() == old(self).tx_database@.len()
                    + block.transactions@.len()
                &&& forall|j: int|
                    0 <= j < old(self).tx_database@.len() ==> final (self).tx_database@[j]
                        == old(self).tx_database@[j]
                &&& forall|j: int|
                    0 <= j < block.transactions@.len() ==> tx_like(
                        final (self).tx_database@[old(self).tx_database@.len() + j],
                        block.transactions@[j],
                    )
            }),
    {
        let tip = self.history.len() - 1;
        let tip_hash = self.history[tip].hash();
        let link_matches = match &block.prev {
            Some(h) => *h == tip_hash,
            None => false,
        };
        if !link_matches {
            proof {
                assert(!link_ok(*old(self), block));
            }
            return Err(ValidationError::ChainLinkMismatch);
        }
        proof {
            assert(link_ok(*old(self), block));
        }
        let backup = copy_entries(&self.coin_database);
        let ghost bal0 = self.balances();
        let ghost db0 = self.tx_database@;
        let ghost txs = block.transactions@;
        proof {
            assert(txs.skip(0) =~= txs);
        }
        let mut t: usize = 0;
        while t < block.transactions.len()
            invariant
                old(self).wf(),
                link_ok(*old(self), block),
                self.wf(),
                self.history == old(self).history,
                self.tx_database == old(self).tx_database,
                self.faucet_coins == old(self).faucet_coins,
                backup@ == old(self).coin_database@,
                bal0 == old(self).balances(),
                db0 == old(self).tx_database@,
                txs == block.transactions@,
                t <= txs.len(),
                txs_run(bal0, db0, txs) == txs_run(self.balances(), db0, txs.skip(t as int)),
                entries_total(self.coin_database@) == entries_total(old(self).coin_database@),
            decreases txs.len() - t,
        {
            let ghost cur = self.balances();
            let ghost rest = txs.skip(t as int);
            proof {
                assert(rest.len() > 0);
                assert(rest[0] == txs[t as int]);
                assert(rest.drop_first() =~= txs.skip(t as int + 1));
            }
            let result = block.transactions[t].validate(self);
            match result {
                Err(error) => {
                    self.coin_database = backup;
                    proof {
                        assert(self.balances() == entries_map(old(self).coin_database@));
                        assert(txs_run(bal0, db0, txs).0 == Err::<(), ValidationError>(error));
                    }
                    return Err(error);
                },
                Ok(_) => {
                    proof {
                        assert(txs_run(cur, db0, rest) == txs_run(
                            self.balances(),
                            db0,
                            txs.skip(t as int + 1),
                        ));
                    }
                },
            }
            t = t + 1;
        }
        proof {
            assert(txs.skip(txs.len() as int).len() == 0);
            assert(txs_run(bal0, db0, txs) == (Ok::<(), ValidationError>(()), self.balances()));
        }
        let ghost settled = *self;
        let mut appended: usize = 0;
        while appended < block.transactions.len()
            invariant
                settled.wf(),
                txs == block.transactions@,
                appended <= txs.len(),
                self.coin_database == settled.coin_database,
                self.history == settled.history,
                self.faucet_coins == settled.faucet_coins,
                self.tx_database@.len() == settled.tx_database@.len() + appended,
                forall|j: int|
                    0 <= j < settled.tx_database@.len() ==> self.tx_database@[j]
                        == settled.tx_database@[j],
                forall|j: int|
                    0 <= j < appended ==> tx_like(
                        self.tx_database@[settled.tx_database@.len() + j],
                        txs[j],
                    ),
            decreases txs.len() - appended,
        {
            let copy = block.transactions[appended].duplicate();
            self.tx_database.push(copy);
            appended = appended + 1;
        }
        self.history.push(block);
        Ok(())
    }

    /// Credits an account from the faucet, outside the validation
    /// pipeline; the credit must fit the balance and the faucet pool.
    pub fn get_token_from_faucet(&mut self, to: AccountId, amount: Balance)
        requires
            old(self).wf(),
            bal_of(old(self).balances(), to@) + amount <= u128::MAX,
            amount <= old(self).faucet_coins,
        ensures
            final (self).wf(),
            final (self).history == old(self).history,
            final (self).tx_database == old(self).tx_database,
            final (self).balances() == old(self).balances().insert(
                to@,
                (bal_of(old(self).balances(), to@) + amount) as u128,
            ),
            final (self).faucet_coins == old(self).faucet_coins - amount,
            entries_total(final (self).coin_database@) == entries_total(old(self).coin_database@)
                + amount,
    {
        let credited = self.add_to_balance(to, amount);
        proof {
            assert(credited is Ok);
        }
        self.faucet_coins = self.faucet_coins - amount;
    }
}

} // verus!
