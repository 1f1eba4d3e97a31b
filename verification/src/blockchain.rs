//! The chain state: an append-only sequence of blocks starting at genesis,
//! the pool of not-yet-committed transactions, the validator registry with
//! its round-robin rotation, and whole-chain verification.

use vstd::prelude::*;
use crate::block::Block;
use crate::block::block_hash;
use crate::block::block_sig_of;
use crate::block::tx_leaves;
use crate::hashing::sha256_hex;
use crate::hashing::zero_hash;
use crate::hashing::zero_hash_str;
use crate::merkle::merkle_root_of;
use crate::transaction::Transaction;
use crate::transaction::tx_valid;
use crate::validator::Validator;

verus! {

/// Why a ledger operation was refused. Every failure is recoverable and
/// leaves the ledger unchanged.
#[derive(Clone, Copy, Debug, PartialEq, Eq, Structural)]
pub enum LedgerError {
    /// Registration named an identity that is already registered.
    DuplicateValidator,
    /// Activation or deactivation named an unregistered identity.
    UnknownValidator,
    /// No registered validator is active.
    NoActiveValidators,
    /// The commit author is not a currently active registered validator.
    UnauthorizedAuthor,
    /// There are no pending transactions to commit.
    EmptyPendingPool,
    /// A broadcast transaction carried an empty identity.
    InvalidTransactionId,
}

/// The reserved author of genesis content.
pub open spec fn genesis_author() -> Seq<char> {
    "0000000000000"@
}

/// The reserved validator identity that signs the genesis block.
pub open spec fn system_validator() -> Seq<char> {
    "SYSTEM_VALIDATOR"@
}

/// The canonical genesis payload.
pub open spec fn genesis_payload() -> Seq<char> {
    "{\"message\":\"E-Ledger Rust Core Genesis Block\",\"type\":\"GENESIS\"}"@
}

/// Some registered validator carries this identity.
pub open spec fn has_validator(vs: Seq<Validator>, gln: Seq<char>) -> bool {
    exists|i: int| 0 <= i < vs.len() && vs[i].gln@ == gln
}

/// Some registered validator carries this identity and is active.
pub open spec fn is_active_validator(vs: Seq<Validator>, gln: Seq<char>) -> bool {
    exists|i: int| 0 <= i < vs.len() && vs[i].gln@ == gln && vs[i].active
}

/// The active validators, in registration order.
pub open spec fn active_validators(vs: Seq<Validator>) -> Seq<Validator>
    decreases vs.len(),
{
    if vs.len() == 0 {
        Seq::empty()
    } else if vs.last().active {
        active_validators(vs.drop_last()).push(vs.last())
    } else {
        active_validators(vs.drop_last())
    }
}

/// How many registered validators are active.
pub open spec fn active_count(vs: Seq<Validator>) -> nat {
    active_validators(vs).len()
}

/// The quorum threshold derived from the validator set: a strict majority of
/// the active validators. Informational under single-author block production.
pub open spec fn quorum_threshold(vs: Seq<Validator>) -> nat {
    active_count(vs) / 2 + 1
}

/// Registered identities are unique.
pub open spec fn glns_unique(vs: Seq<Validator>) -> bool {
    forall|i: int, j: int| 0 <= i < j < vs.len() ==> vs[i].gln@ != vs[j].gln@
}

/// Every transaction in the pool carries a matching authenticity tag.
pub open spec fn pending_all_valid(txs: Seq<Transaction>) -> bool {
    forall|k: int| 0 <= k < txs.len() ==> tx_valid(#[trigger] txs[k])
}

/// What chain verification checks of one block against its predecessor: the
/// stored hash recomputes, the link holds, the author is registered, the
/// validator tag recomputes, and every transaction's tag recomputes.
pub open spec fn block_ok(b: Block, prev: Block, vs: Seq<Validator>) -> bool {
    &&& b.hash@ == block_hash(b)
    &&& b.previous_hash@ == prev.hash@
    &&& has_validator(vs, b.validator@)
    &&& b.validator_signature@ == block_sig_of(b.hash@, b.validator@)
    &&& pending_all_valid(b.transactions@)
}

/// A structurally and cryptographically coherent chain: every block from
/// index one onward checks out against its predecessor. The genesis block is
/// the trust anchor and is not itself checked.
pub open spec fn chain_valid(chain: Seq<Block>, vs: Seq<Validator>) -> bool {
    forall|i: int| 1 <= i < chain.len() ==> block_ok(#[trigger] chain[i], chain[i - 1], vs)
}

/// The permissioned ledger: chain, pending pool, validator registry and
/// rotation state.
pub struct Blockchain {
    /// Append-only; begins with the genesis block at index zero.
    pub chain: Vec<Block>,
    /// Transactions awaiting inclusion in the next block.
    pub pending_transactions: Vec<Transaction>,
    /// The registered validators, in registration order, keyed by `gln`.
    pub validators: Vec<Validator>,
    /// Strict majority of the active validators; recomputed whenever the
    /// validator set changes.
    pub threshold: u64,
    /// Monotonically increasing rotation cursor; the next author is the
    /// active validator at this cursor modulo the active count.
    pub current_round: u64,
}

impl Blockchain {
    /// Structural well-formedness: a never-empty chain whose blocks sit at
    /// their own index, and a registry with unique identities.
    pub open spec fn wf(self) -> bool {
        &&& self.chain@.len() >= 1
        &&& forall|i: int| 0 <= i < self.chain@.len() ==> (#[trigger] self.chain@[i]).index == i
        &&& glns_unique(self.validators@)
    }

    /// The state every operation of this ledger maintains: well-formed, with
    /// a chain that verifies and a pool of valid transactions. A ledger
    /// touched only through these operations passes `is_chain_valid` at any
    /// moment.
    pub open spec fn consistent(self) -> bool {
        &&& self.wf()
        &&& chain_valid(self.chain@, self.validators@)
        &&& pending_all_valid(self.pending_transactions@)
    }

    /// Creates a ledger holding only the genesis block: index zero, the
    /// all-zero previous hash, one genesis transaction, signed by the
    /// reserved system validator. No validators are registered yet.
    pub fn new() -> (r: Blockchain)
        ensures
            r.wf(),
            r.chain@.len() == 1,
            r.chain@[0].index == 0,
            r.chain@[0].previous_hash@ == zero_hash(),
            r.chain@[0].validator@ == system_validator(),
            r.chain@[0].transactions@.len() == 1,
            r.chain@[0].transactions@[0].payload@ == genesis_payload(),
            r.chain@[0].transactions@[0].actor_gln@ == genesis_author(),
            tx_valid(r.chain@[0].transactions@[0]),
            r.chain@[0].hash@ == block_hash(r.chain@[0]),
            r.pending_transactions@.len() == 0,
            r.validators@.len() == 0,
            r.current_round == 0,
            r.threshold == 1,
            chain_valid(r.chain@, r.validators@),
            r.consistent(),
    {
        let genesis_tx = Transaction::new(
            String::from_str("{\"message\":\"E-Ledger Rust Core Genesis Block\",\"type\":\"GENESIS\"}"),
            String::from_str("0000000000000"),
        );
        let mut txs: Vec<Transaction> = Vec::new();
        txs.push(genesis_tx);
        let mut genesis = Block::new(0, txs, zero_hash_str(), String::from_str("SYSTEM_VALIDATOR"));
        genesis.mine_block();
        let mut chain: Vec<Block> = Vec::new();
        chain.push(genesis);
        Blockchain {
            chain,
            pending_transactions: Vec::new(),
            validators: Vec::new(),
            threshold: 1,
            current_round: 0,
        }
    }

    /// The most recently appended block, if any block exists.
    pub fn get_latest_block(&self) -> (r: Option<&Block>)
        ensures
            match r {
                Some(b) => self.chain@.len() > 0 && *b == self.chain@.last(),
                None => self.chain@.len() == 0,
            },
    {
        if self.chain.len() == 0 {
            None
        } else {
            Some(&self.chain[self.chain.len() - 1])
        }
    }

    /// Recomputes a transaction's authenticity tag from its payload, author
    /// and timestamp, and compares it with the stored tag.
    pub fn verify_transaction_signature(&self, tx: &Transaction) -> (r: bool)
        ensures
            r == tx_valid(*tx),
    {
        let mut id_input = tx.payload.clone();
        id_input.append(tx.actor_gln.as_str());
        id_input.append(tx.timestamp.as_str());
        let calculated_id = sha256_hex(id_input.as_str());

        let mut sig_input = calculated_id;
        sig_input.append(tx.actor_gln.as_str());
        sig_input.append(tx.timestamp.as_str());
        let expected_sig = sha256_hex(sig_input.as_str());

        tx.signature == expected_sig
    }

    /// Recomputes a block's validator tag from its stored hash and author,
    /// compares it with the stored tag, and checks the author is registered.
    pub fn verify_block_signature(&self, block: &Block) -> (r: bool)
        ensures
            r == (has_validator(self.validators@, block.validator@)
                && block.validator_signature@ == block_sig_of(block.hash@, block.validator@)),
    {
        if self.find_validator(&block.validator).is_some() {
            let mut sig_input = block.hash.clone();
            sig_input.append(block.validator.as_str());
            let expected_sig = sha256_hex(sig_input.as_str());
            block.validator_signature == expected_sig
        } else {
            false
        }
    }

    /// The position of the registered validator carrying this identity.
    fn find_validator(&self, gln: &String) -> (r: Option<usize>)
        ensures
            match r {
                Some(i) => i < self.validators@.len() && self.validators@[i as int].gln@ == gln@,
                None => !has_validator(self.validators@, gln@),
            },
    {
        let mut i: usize = 0;
        while i < self.validators.len()
            invariant
                i <= self.validators@.len(),
                forall|k: int| 0 <= k < i ==> (#[trigger] self.validators@[k]).gln@ != gln@,
            decreases self.validators@.len() - i,
        {
            if self.validators[i].gln == *gln {
                return Some(i);
            }
            i = i + 1;
        }
        None
    }

    /// Admits a transaction to the pending pool if its authenticity tag
    /// recomputes; an invalid transaction is silently dropped and nothing
    /// changes. A pool of valid transactions stays valid.
    pub fn add_transaction(&mut self, transaction: Transaction)
        ensures
            final(self).chain == old(self).chain,
            final(self).validators == old(self).validators,
            final(self).threshold == old(self).threshold,
            final(self).current_round == old(self).current_round,
            tx_valid(transaction) ==> final(self).pending_transactions@ == old(
                self,
            ).pending_transactions@.push(transaction),
            !tx_valid(transaction) ==> final(self).pending_transactions@ == old(
                self,
            ).pending_transactions@,
            pending_all_valid(old(self).pending_transactions@) ==> pending_all_valid(
                final(self).pending_transactions@,
            ),
            old(self).consistent() ==> final(self).consistent(),
    {
        if self.verify_transaction_signature(&transaction) {
            self.pending_transactions.push(transaction);
        }
    }

    /// How many registered validators are currently active.
    fn count_active(validators: &Vec<Validator>) -> (r: usize)
        ensures
            r == active_count(validators@),
    {
        let mut count: usize = 0;
        let mut i: usize = 0;
        while i < validators.len()
            invariant
                i <= validators@.len(),
                count == active_count(validators@.take(i as int)),
                count <= i,
            decreases validators@.len() - i,
        {
            proof {
                assert(validators@.take(i + 1).drop_last() =~= validators@.take(i as int));
                assert(validators@.take(i + 1).last() == validators@[i as int]);
            }
            if validators[i].active {
                count = count + 1;
            }
            i = i + 1;
        }
        proof {
            assert(validators@.take(validators@.len() as int) =~= validators@);
        }
        count
    }

    /// Registers a new validator, active by default, and recomputes the
    /// quorum threshold. Fails, changing nothing, exactly when the identity
    /// is already registered.
    pub fn add_validator(&mut self, gln: String, public_key: String, role: String) -> (r: Result<
        (),
        LedgerError,
    >)
        requires
            glns_unique(old(self).validators@),
        ensures
            glns_unique(final(self).validators@),
            final(self).chain == old(self).chain,
            final(self).pending_transactions == old(self).pending_transactions,
            final(self).current_round == old(self).current_round,
            match r {
                Ok(()) => !has_validator(old(self).validators@, gln@) && final(self).validators@
                    == old(self).validators@.push(
                    (Validator { gln, public_key, active: true, role }),
                ) && final(self).threshold as nat == quorum_threshold(final(self).validators@),
                Err(e) => e == LedgerError::DuplicateValidator && has_validator(
                    old(self).validators@,
                    gln@,
                ) && *final(self) == *old(self),
            },
            old(self).consistent() ==> final(self).consistent(),
    {
        if self.find_validator(&gln).is_some() {
            return Err(LedgerError::DuplicateValidator);
        }
        let validator = Validator { gln, public_key, active: true, role };
        self.validators.push(validator);
        let n_active = Blockchain::count_active(&self.validators);
        self.threshold = (n_active / 2 + 1) as u64;
        proof {
            // a chain that verified against the registry still verifies after
            // one more validator is registered: authorship checks only ask
            // that the author is present
            if old(self).consistent() {
                let oldv = old(self).validators@;
                let newv = self.validators@;
                let c = self.chain@;
                assert forall|i: int| 1 <= i < c.len() implies block_ok(
                    #[trigger] c[i],
                    c[i - 1],
                    newv,
                ) by {
                    assert(block_ok(c[i], c[i - 1], oldv));
                    let w = choose|w: int|
                        0 <= w < oldv.len() && oldv[w].gln@ == c[i].validator@;
                    assert(newv[w] == oldv[w]);
                    assert(has_validator(newv, c[i].validator@));
                }
            }
        }
        Ok(())
    }

    /// Activates or deactivates a registered validator and recomputes the
    /// quorum threshold. Fails, changing nothing, exactly when the identity
    /// is not registered.
    pub fn set_active(&mut self, gln: &String, active: bool) -> (r: Result<(), LedgerError>)
        requires
            glns_unique(old(self).validators@),
        ensures
            glns_unique(final(self).validators@),
            final(self).chain == old(self).chain,
            final(self).pending_transactions == old(self).pending_transactions,
            final(self).current_round == old(self).current_round,
            match r {
                Ok(()) => has_validator(old(self).validators@, gln@) && exists|i: int|
                    {
                        &&& 0 <= i < old(self).validators@.len()
                        &&& old(self).validators@[i].gln@ == gln@
                        &&& final(self).validators@ == old(self).validators@.update(
                            i,
                            (Validator { active, ..old(self).validators@[i] }),
                        )
                    } && final(self).threshold as nat == quorum_threshold(
                    final(self).validators@,
                ),
                Err(e) => e == LedgerError::UnknownValidator && !has_validator(
                    old(self).validators@,
                    gln@,
                ) && *final(self) == *old(self),
            },
            old(self).consistent() ==> final(self).consistent(),
    {
        let found = self.find_validator(gln);
        match found {
            None => Err(LedgerError::UnknownValidator),
            Some(i) => {
                let updated = Validator {
                    gln: self.validators[i].gln.clone(),
                    public_key: self.validators[i].public_key.clone(),
                    active,
                    role: self.validators[i].role.clone(),
                };
                self.validators[i] = updated;
                let n_active = Blockchain::count_active(&self.validators);
                self.threshold = (n_active / 2 + 1) as u64;
                proof {
                    // toggling activity keeps every identity registered, so a
                    // verifying chain keeps verifying
                    if old(self).consistent() {
                        let oldv = old(self).validators@;
                        let newv = self.validators@;
                        let c = self.chain@;
                        assert(newv[i as int].gln@ == oldv[i as int].gln@);
                        assert forall|k: int| 1 <= k < c.len() implies block_ok(
                            #[trigger] c[k],
                            c[k - 1],
                            newv,
                        ) by {
                            assert(block_ok(c[k], c[k - 1], oldv));
                            let w = choose|w: int|
                                0 <= w < oldv.len() && oldv[w].gln@ == c[k].validator@;
                            assert(newv[w].gln@ == oldv[w].gln@);
                            assert(has_validator(newv, c[k].validator@));
                        }
                    }
                }
                Ok(())
            },
        }
    }

    /// Picks the next author by round-robin over the active validators, in
    /// registration order, and advances the rotation cursor. Returns nothing,
    /// changing nothing, exactly when no validator is active.
    pub fn get_next_validator(&mut self) -> (r: Option<Validator>)
        requires
            old(self).current_round < u64::MAX,
        ensures
            final(self).chain == old(self).chain,
            final(self).pending_transactions == old(self).pending_transactions,
            final(self).validators == old(self).validators,
            final(self).threshold == old(self).threshold,
            match r {
                Some(v) => {
                    &&& active_count(old(self).validators@) > 0
                    &&& v == active_validators(old(self).validators@)[old(
                        self,
                    ).current_round as int % active_count(old(self).validators@) as int]
                    &&& final(self).current_round == old(self).current_round + 1
                },
                None => active_count(old(self).validators@) == 0 && final(self).current_round
                    == old(self).current_round,
            },
            old(self).consistent() ==> final(self).consistent(),
    {
        let mut actives: Vec<Validator> = Vec::new();
        let mut i: usize = 0;
        while i < self.validators.len()
            invariant
                i <= self.validators@.len(),
                actives@ =~= active_validators(self.validators@.take(i as int)),
            decreases self.validators@.len() - i,
        {
            proof {
                assert(self.validators@.take(i + 1).drop_last() =~= self.validators@.take(
                    i as int,
                ));
                assert(self.validators@.take(i + 1).last() == self.validators@[i as int]);
            }
            if self.validators[i].active {
                actives.push(self.validators[i].duplicate());
            }
            i = i + 1;
        }
        proof {
            assert(self.validators@.take(self.validators@.len() as int) =~= self.validators@);
        }

        if actives.len() == 0 {
            return None;
        }

        let index = (self.current_round % (actives.len() as u64)) as usize;
        self.current_round = self.current_round + 1;
        Some(actives.swap_remove(index))
    }

    /// Whether every transaction in a list carries a matching tag.
    fn all_txs_valid(&self, txs: &Vec<Transaction>) -> (r: bool)
        ensures
            r == pending_all_valid(txs@),
    {
        let mut t: usize = 0;
        while t < txs.len()
            invariant
                t <= txs@.len(),
                forall|k: int| 0 <= k < t ==> tx_valid(#[trigger] txs@[k]),
            decreases txs@.len() - t,
        {
            if !self.verify_transaction_signature(&txs[t]) {
                return false;
            }
            t = t + 1;
        }
        true
    }

    /// Commits the whole pending pool as one new block authored by the given
    /// validator, appends it to the chain, and enqueues one synthetic reward
    /// transaction for the author. Fails, changing nothing, exactly when no
    /// validator is active, the author is not an active registered validator,
    /// or the pool is empty. A valid chain with a valid pool stays valid.
    pub fn mine_pending_transactions(&mut self, miner_address: String) -> (r: Result<
        (),
        LedgerError,
    >)
        requires
            old(self).wf(),
        ensures
            final(self).wf(),
            final(self).validators == old(self).validators,
            final(self).threshold == old(self).threshold,
            final(self).current_round == old(self).current_round,
            match r {
                Ok(()) => {
                    &&& is_active_validator(old(self).validators@, miner_address@)
                    &&& old(self).pending_transactions@.len() > 0
                    &&& final(self).chain@.len() == old(self).chain@.len() + 1
                    &&& final(self).chain@.take(old(self).chain@.len() as int) == old(self).chain@
                    &&& committed_block_ok(
                        final(self).chain@.last(),
                        old(self).chain@.last(),
                        old(self).pending_transactions@,
                        miner_address@,
                    )
                    &&& final(self).pending_transactions@.len() == 1
                    &&& reward_tx_ok(final(self).pending_transactions@[0], miner_address@)
                    &&& pending_all_valid(final(self).pending_transactions@)
                    &&& (pending_all_valid(old(self).pending_transactions@) && chain_valid(
                        old(self).chain@,
                        old(self).validators@,
                    ) ==> chain_valid(final(self).chain@, final(self).validators@))
                },
                Err(e) => *final(self) == *old(self) && ((e == LedgerError::NoActiveValidators
                    && active_count(old(self).validators@) == 0) || (e
                    == LedgerError::UnauthorizedAuthor && active_count(old(self).validators@) > 0
                    && !is_active_validator(old(self).validators@, miner_address@)) || (e
                    == LedgerError::EmptyPendingPool && is_active_validator(
                    old(self).validators@,
                    miner_address@,
                ) && old(self).pending_transactions@.len() == 0)),
            },
            old(self).consistent() ==> final(self).consistent(),
    {
        let n_active = Blockchain::count_active(&self.validators);
        if n_active == 0 {
            return Err(LedgerError::NoActiveValidators);
        }

        let mut authorized = false;
        let found = self.find_validator(&miner_address);
        match found {
            None => {
                proof {
                    assert(!is_active_validator(self.validators@, miner_address@));
                }
            },
            Some(i) => {
                if self.validators[i].active {
                    authorized = true;
                    proof {
                        assert(is_active_validator(self.validators@, miner_address@));
                    }
                } else {
                    proof {
                        let vs = self.validators@;
                        assert(!is_active_validator(vs, miner_address@)) by {
                            if is_active_validator(vs, miner_address@) {
                                let j = choose|j: int|
                                    0 <= j < vs.len() && vs[j].gln@ == miner_address@
                                        && vs[j].active;
                                assert(j == i as int);
                            }
                        }
                    }
                }
            },
        }
        if !authorized {
            return Err(LedgerError::UnauthorizedAuthor);
        }

        if self.pending_transactions.len() == 0 {
            return Err(LedgerError::EmptyPendingPool);
        }

        let last_pos = self.chain.len() - 1;
        let latest_hash = self.chain[last_pos].hash.clone();
        let latest_index = self.chain[last_pos].index;
        proof {
            assert(self.chain@[last_pos as int].index == last_pos as int);
            assert(self.chain@.last() == self.chain@[last_pos as int]);
        }

        let mut txs: Vec<Transaction> = Vec::new();
        core::mem::swap(&mut txs, &mut self.pending_transactions);

        let mut new_block = Block::new(latest_index + 1, txs, latest_hash, miner_address.clone());
        new_block.mine_block();
        let ghost b = new_block;
        self.chain.push(new_block);

        let mut payload = String::from_str("{\"amount\":1,\"recipient\":\"");
        payload.append(miner_address.as_str());
        payload.append("\",\"type\":\"REWARD\"}");
        let reward_tx = Transaction::new(payload, String::from_str("SYSTEM"));
        self.pending_transactions.push(reward_tx);

        proof {
            let oldc = old(self).chain@;
            let newc = self.chain@;
            let vs = old(self).validators@;
            assert(newc == oldc.push(b));
            assert(newc.take(oldc.len() as int) =~= oldc);
            assert(newc.last() == b);
            assert(b.previous_hash@ == oldc.last().hash@);
            assert forall|i: int| 0 <= i < newc.len() implies (#[trigger] newc[i]).index
                == i by {
                if i < oldc.len() {
                    assert(newc[i] == oldc[i]);
                }
            }
            if pending_all_valid(old(self).pending_transactions@) && chain_valid(oldc, vs) {
                assert(has_validator(vs, b.validator@));
                assert(block_ok(b, oldc.last(), vs));
                assert forall|i: int| 1 <= i < newc.len() implies block_ok(
                    #[trigger] newc[i],
                    newc[i - 1],
                    vs,
                ) by {
                    if i < oldc.len() {
                        assert(newc[i] == oldc[i]);
                        assert(newc[i - 1] == oldc[i - 1]);
                        assert(block_ok(oldc[i], oldc[i - 1], vs));
                    } else {
                        assert(newc[i] == b);
                        assert(newc[i - 1] == oldc.last());
                    }
                }
            }
        }
        Ok(())
    }

    /// Walks the chain from index one onward and checks every block and every
    /// transaction: stored hashes recompute, links hold, authors are
    /// registered, and all tags recompute. True exactly of a valid chain.
    pub fn is_chain_valid(&self) -> (r: bool)
        ensures
            r == chain_valid(self.chain@, self.validators@),
    {
        let mut i: usize = 1;
        while i < self.chain.len()
            invariant
                1 <= i,
                forall|j: int| 1 <= j < i ==> block_ok(
                    #[trigger] self.chain@[j],
                    self.chain@[j - 1],
                    self.validators@,
                ),
            decreases self.chain@.len() - i,
        {
            let current = &self.chain[i];
            let previous = &self.chain[i - 1];

            let recomputed = current.calculate_hash();
            if !(current.hash == recomputed) {
                proof {
                    assert(!block_ok(self.chain@[i as int], self.chain@[i as int - 1], self.validators@));
                }
                return false;
            }
            if !(current.previous_hash == previous.hash) {
                proof {
                    assert(!block_ok(self.chain@[i as int], self.chain@[i as int - 1], self.validators@));
                }
                return false;
            }
            if !self.verify_block_signature(current) {
                proof {
                    assert(!block_ok(self.chain@[i as int], self.chain@[i as int - 1], self.validators@));
                }
                return false;
            }
            if !self.all_txs_valid(&current.transactions) {
                proof {
                    assert(!block_ok(self.chain@[i as int], self.chain@[i as int - 1], self.validators@));
                }
                return false;
            }
            i = i + 1;
        }
        true
    }
}

/// What a successful commit guarantees of the block it appends.
pub open spec fn committed_block_ok(
    b: Block,
    prev: Block,
    pool: Seq<Transaction>,
    author: Seq<char>,
) -> bool {
    &&& b.index as int == prev.index as int + 1
    &&& b.previous_hash@ == prev.hash@
    &&& b.transactions@ == pool
    &&& b.merkle_root@ == merkle_root_of(tx_leaves(pool))
    &&& b.nonce == 0
    &&& b.validator@ == author
    &&& b.hash@ == block_hash(b)
    &&& b.validator_signature@ == block_sig_of(b.hash@, b.validator@)
}

/// The canonical payload of the synthetic reward enqueued for an author.
pub open spec fn reward_payload(author: Seq<char>) -> Seq<char> {
    "{\"amount\":1,\"recipient\":\""@ + author + "\",\"type\":\"REWARD\"}"@
}

/// The synthetic reward transaction enqueued after a commit: authored by the
/// reserved system identity, rewarding the block's author, and itself valid.
pub open spec fn reward_tx_ok(t: Transaction, author: Seq<char>) -> bool {
    &&& t.payload@ == reward_payload(author)
    &&& t.actor_gln@ == "SYSTEM"@
    &&& tx_valid(t)
}

/// How many transactions in a list were authored by this identity.
pub open spec fn tx_count_for(txs: Seq<Transaction>, addr: Seq<char>) -> nat
    decreases txs.len(),
{
    if txs.len() == 0 {
        0
    } else {
        tx_count_for(txs.drop_last(), addr) + (if txs.last().actor_gln@ == addr {
            1nat
        } else {
            0nat
        })
    }
}

/// How many transactions across a whole chain were authored by this identity.
pub open spec fn balance_count(chain: Seq<Block>, addr: Seq<char>) -> nat
    decreases chain.len(),
{
    if chain.len() == 0 {
        0
    } else {
        balance_count(chain.drop_last(), addr) + tx_count_for(chain.last().transactions@, addr)
    }
}

/// The count over a chain prefix never exceeds the count over the chain.
proof fn lemma_balance_take_le(chain: Seq<Block>, addr: Seq<char>, i: int)
    requires
        0 <= i <= chain.len(),
    ensures
        balance_count(chain.take(i), addr) <= balance_count(chain, addr),
    decreases chain.len() - i,
{
    if i < chain.len() {
        assert(chain.take(i + 1).drop_last() =~= chain.take(i));
        assert(chain.take(i + 1).last() == chain[i]);
        lemma_balance_take_le(chain, addr, i + 1);
    } else {
        assert(chain.take(i) =~= chain);
    }
}

impl Blockchain {
    /// How many transactions in one list name this author.
    fn count_txs_for(txs: &Vec<Transaction>, address: &String) -> (r: usize)
        ensures
            r == tx_count_for(txs@, address@),
            r <= txs@.len(),
    {
        let mut count: usize = 0;
        let mut t: usize = 0;
        while t < txs.len()
            invariant
                t <= txs@.len(),
                count <= t,
                count == tx_count_for(txs@.take(t as int), address@),
            decreases txs@.len() - t,
        {
            proof {
                assert(txs@.take(t + 1).drop_last() =~= txs@.take(t as int));
                assert(txs@.take(t + 1).last() == txs@[t as int]);
            }
            if txs[t].actor_gln == *address {
                count = count + 1;
            }
            t = t + 1;
        }
        proof {
            assert(txs@.take(txs@.len() as int) =~= txs@);
        }
        count
    }

    /// Counts, across every block, the transactions authored by this
    /// identity: a ledger-activity counter, not a debit/credit balance.
    pub fn get_balance_of_address(&self, address: &String) -> (r: i32)
        requires
            balance_count(self.chain@, address@) <= i32::MAX as nat,
        ensures
            0 <= r,
            r as nat == balance_count(self.chain@, address@),
    {
        let mut balance: i32 = 0;
        let mut b: usize = 0;
        while b < self.chain.len()
            invariant
                b <= self.chain@.len(),
                balance >= 0,
                balance as nat == balance_count(self.chain@.take(b as int), address@),
                balance_count(self.chain@, address@) <= i32::MAX as nat,
            decreases self.chain@.len() - b,
        {
            let c = Blockchain::count_txs_for(&self.chain[b].transactions, address);
            proof {
                assert(self.chain@.take(b + 1).drop_last() =~= self.chain@.take(b as int));
                assert(self.chain@.take(b + 1).last() == self.chain@[b as int]);
                lemma_balance_take_le(self.chain@, address@, b + 1);
            }
            balance = balance + (c as i32);
            b = b + 1;
        }
        proof {
            assert(self.chain@.take(self.chain@.len() as int) =~= self.chain@);
        }
        balance
    }
}

/// Rotation is periodic in the number of active validators: advancing the
/// cursor by exactly that count selects the same author again, so successive
/// calls cycle through the active validators in registration order.
pub proof fn lemma_rotation_cycle(vs: Seq<Validator>, cursor: nat)
    requires
        active_count(vs) > 0,
    ensures
        active_validators(vs)[((cursor + active_count(vs)) % active_count(vs)) as int]
            == active_validators(vs)[(cursor % active_count(vs)) as int],
{
    let n = active_count(vs) as int;
    vstd::arithmetic::div_mod::lemma_mod_add_multiples_vanish(cursor as int, n);
}

} // verus!
