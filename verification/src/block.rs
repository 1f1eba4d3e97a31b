//! Blocks: an ordered batch of transactions with linkage metadata, a Merkle
//! commitment, and validator attribution. No proof-of-work occurs: the nonce
//! is kept at zero and the validator's tag stands in for a signature.

use vstd::prelude::*;
use crate::clock::now_rfc3339;
use crate::encode::dec_str;
use crate::encode::u64_to_dec;
use crate::hashing::sha256_hex;
use crate::hashing::sha256_hex_of;
use crate::merkle::merkle_root_of;
use crate::merkle::str_views;
use crate::transaction::Transaction;
use crate::transaction::append_txs_serial;
use crate::transaction::tx_content_hash;
use crate::transaction::txs_serial;

verus! {

/// A committed batch of transactions plus its linkage and attribution.
pub struct Block {
    /// Zero-based position in the chain.
    pub index: u64,
    /// Creation time, fixed at construction.
    pub timestamp: String,
    /// The committed batch, order-significant.
    pub transactions: Vec<Transaction>,
    /// The hash of the immediately preceding block; all zeros for genesis.
    pub previous_hash: String,
    /// Content hash over the block's fields; tampering breaks it.
    pub hash: String,
    /// Present for structural compatibility; always zero under this scheme.
    pub nonce: u64,
    /// Merkle commitment over `transactions`.
    pub merkle_root: String,
    /// The authorized signer who authored this block.
    pub validator: String,
    /// Deterministic digest of (hash, validator); the block-level tag.
    pub validator_signature: String,
}

/// The Merkle leaves of a transaction list: each transaction's content hash,
/// in transaction order.
pub open spec fn tx_leaves(txs: Seq<Transaction>) -> Seq<Seq<char>> {
    txs.map_values(|t: Transaction| tx_content_hash(t))
}

/// The string a block hashes. The validator tag is not an input (it is
/// derived from the hash afterwards), so recomputation from a block's current
/// fields reproduces the stored hash unless a field was tampered with.
pub open spec fn block_hash_input(
    index: u64,
    timestamp: Seq<char>,
    merkle_root: Seq<char>,
    previous_hash: Seq<char>,
    nonce: u64,
    txs: Seq<Transaction>,
    validator: Seq<char>,
) -> Seq<char> {
    dec_str(index as nat) + timestamp + merkle_root + previous_hash + dec_str(nonce as nat)
        + txs_serial(txs) + validator
}

/// The hash a block's current fields demand.
pub open spec fn block_hash(b: Block) -> Seq<char> {
    sha256_hex_of(
        block_hash_input(
            b.index,
            b.timestamp@,
            b.merkle_root@,
            b.previous_hash@,
            b.nonce,
            b.transactions@,
            b.validator@,
        ),
    )
}

/// The validator tag a block with this hash and author must carry.
pub open spec fn block_sig_of(hash: Seq<char>, validator: Seq<char>) -> Seq<char> {
    sha256_hex_of(hash + validator)
}

impl Block {
    /// The Merkle commitment over a transaction list's content hashes.
    pub fn calculate_merkle_root(transactions: &Vec<Transaction>) -> (r: String)
        ensures
            r@ == merkle_root_of(tx_leaves(transactions@)),
    {
        let mut leaves: Vec<String> = Vec::new();
        let mut i: usize = 0;
        while i < transactions.len()
            invariant
                i <= transactions@.len(),
                str_views(leaves@) =~= tx_leaves(transactions@.take(i as int)),
            decreases transactions@.len() - i,
        {
            let ghost prev_leaves = leaves@;
            leaves.push(transactions[i].calculate_hash());
            proof {
                let s = transactions@;
                assert(str_views(prev_leaves).len() == prev_leaves.len());
                assert(tx_leaves(s.take(i as int)).len() == s.take(i as int).len());
                assert(prev_leaves.len() == i as int);
                assert(leaves@.len() == i + 1);
                assert forall|k: int| 0 <= k < leaves@.len() implies str_views(leaves@)[k]
                    == tx_leaves(s.take(i + 1))[k] by {
                    assert(s.take(i + 1)[k] == s[k]);
                    if k < i {
                        assert(str_views(prev_leaves)[k] == tx_leaves(s.take(i as int))[k]);
                        assert(s.take(i as int)[k] == s[k]);
                        assert(leaves@[k] == prev_leaves[k]);
                    }
                }
                assert(str_views(leaves@) =~= tx_leaves(s.take(i + 1)));
            }
            i = i + 1;
        }
        proof {
            assert(transactions@.take(transactions@.len() as int) =~= transactions@);
            assert(str_views(leaves@) =~= tx_leaves(transactions@));
        }
        crate::merkle::merkle_root(&leaves)
    }

    /// Pure recomputation of the content hash from the block's current
    /// fields; for an untampered block it reproduces the stored `hash`.
    pub fn calculate_hash(&self) -> (r: String)
        ensures
            r@ == block_hash(*self),
            r@.len() == 64,
    {
        let mut input = u64_to_dec(self.index);
        input.append(self.timestamp.as_str());
        input.append(self.merkle_root.as_str());
        input.append(self.previous_hash.as_str());
        let nonce_str = u64_to_dec(self.nonce);
        input.append(nonce_str.as_str());
        append_txs_serial(&mut input, &self.transactions);
        input.append(self.validator.as_str());
        proof {
            assert(input@ =~= block_hash_input(
                self.index,
                self.timestamp@,
                self.merkle_root@,
                self.previous_hash@,
                self.nonce,
                self.transactions@,
                self.validator@,
            ));
        }
        sha256_hex(input.as_str())
    }

    /// Assembles a block: stamps the time, commits to the transactions by
    /// Merkle root, hashes the field tuple, then tags the hash with the
    /// validator's identity.
    pub fn new(index: u64, transactions: Vec<Transaction>, previous_hash: String, validator: String) -> (r: Block)
        ensures
            r.index == index,
            r.transactions@ == transactions@,
            r.previous_hash@ == previous_hash@,
            r.validator@ == validator@,
            r.nonce == 0,
            r.merkle_root@ == merkle_root_of(tx_leaves(transactions@)),
            r.hash@ == block_hash(r),
            r.validator_signature@ == block_sig_of(r.hash@, r.validator@),
    {
        let timestamp = now_rfc3339();
        let merkle_root = Block::calculate_merkle_root(&transactions);
        let mut block = Block {
            index,
            timestamp,
            transactions,
            previous_hash,
            hash: String::new(),
            nonce: 0,
            merkle_root,
            validator,
            validator_signature: String::new(),
        };
        let h = block.calculate_hash();
        block.hash = h;
        let mut sig_input = block.hash.clone();
        sig_input.append(block.validator.as_str());
        block.validator_signature = sha256_hex(sig_input.as_str());
        block
    }

    /// No mining happens under proof of authority: the nonce is pinned to
    /// zero and the hash and validator tag are recomputed in place.
    pub fn mine_block(&mut self)
        ensures
            final(self).index == old(self).index,
            final(self).timestamp == old(self).timestamp,
            final(self).transactions == old(self).transactions,
            final(self).previous_hash == old(self).previous_hash,
            final(self).merkle_root == old(self).merkle_root,
            final(self).validator == old(self).validator,
            final(self).nonce == 0,
            final(self).hash@ == block_hash(*final(self)),
            final(self).validator_signature@ == block_sig_of(
                final(self).hash@,
                final(self).validator@,
            ),
    {
        self.nonce = 0;
        let h = self.calculate_hash();
        self.hash = h;
        let mut sig_input = self.hash.clone();
        sig_input.append(self.validator.as_str());
        self.validator_signature = sha256_hex(sig_input.as_str());
    }
}

} // verus!
