//! A block: an ordered batch of transactions chained to its predecessor by
//! a hash link.

use vstd::prelude::*;

use crate::codec::hex_rep;
use crate::crypto::{digest_hex, keccak_of};
use crate::transaction::{tx_hash, Transaction};

verus! {

/// The digest parts contributed by the previous-block link: none for the
/// genesis block, the linked hash otherwise.
pub open spec fn prev_parts(prev: Option<String>) -> Seq<Seq<char>> {
    match prev {
        None => Seq::empty(),
        Some(h) => seq![h@],
    }
}

/// The identifying hash of a block: the hex digest of the previous-block
/// link followed by each transaction's content hash, in order.
pub open spec fn block_hash_of(prev: Option<String>, txs: Seq<Transaction>) -> Seq<char> {
    hex_rep(keccak_of(prev_parts(prev) + txs.map(|i: int, t: Transaction| tx_hash(t))))
}

/// The identifying hash of a block.
pub open spec fn block_hash(b: Block) -> Seq<char> {
    block_hash_of(b.prev, b.transactions@)
}

/// A hash link to the previous block (`None` only for the genesis block),
/// an ordered batch of transactions, and the block's own hash, computed at
/// construction.
#[derive(Clone)]
pub struct Block {
    pub id: String,
    pub prev: Option<String>,
    pub transactions: Vec<Transaction>,
}

fn block_digest(prev: &Option<String>, transactions: &Vec<Transaction>) -> (r: String)
    ensures
        r@ == block_hash_of(*prev, transactions@),
{
    let mut parts: Vec<String> = Vec::new();
    match prev {
        Some(h) => {
            parts.push(h.clone());
        },
        None => {},
    }
    proof {
        assert(parts.deep_view() =~= prev_parts(*prev));
    }
    let ghost base = parts.deep_view();
    let mut i: usize = 0;
    while i < transactions.len()
        invariant
            i <= transactions@.len(),
            parts.deep_view() =~= base + transactions@.subrange(0, i as int).map(
                |j: int, t: Transaction| tx_hash(t),
            ),
        decreases transactions@.len() - i,
    {
        let h = transactions[i].hash();
        let ghost pre = parts.deep_view();
        parts.push(h);
        proof {
            assert(parts.deep_view() =~= pre.push(h@));
            assert(transactions@.subrange(0, i as int + 1) =~= transactions@.subrange(
                0,
                i as int,
            ).push(transactions@[i as int]));
            assert(parts.deep_view() =~= base + transactions@.subrange(0, i as int + 1).map(
                |j: int, t: Transaction| tx_hash(t),
            ));
        }
        i = i + 1;
    }
    proof {
        assert(transactions@.subrange(0, transactions@.len() as int) =~= transactions@);
        assert(parts.deep_view() =~= prev_parts(*prev) + transactions@.map(
            |j: int, t: Transaction| tx_hash(t),
        ));
    }
    digest_hex(&parts)
}

impl Block {
    /// A block over the given previous-block link and transactions, with
    /// its hash computed at construction.
    pub fn new(prev: Option<String>, transactions: Vec<Transaction>) -> (r: Self)
        ensures
            r.prev == prev,
            r.transactions@ == transactions@,
            r.id@ == block_hash_of(prev, transactions@),
    {
        let id = block_digest(&prev, &transactions);
        Block { id, prev, transactions }
    }

    /// The block's hash, recomputed from the stored link and transactions.
    pub fn hash(&self) -> (r: String)
        ensures
            r@ == block_hash(*self),
    {
        block_digest(&self.prev, &self.transactions)
    }
}

} // verus!
