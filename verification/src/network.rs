//! The distributed-ledger shell around the chain: a peer-address list, a
//! consensus bookkeeping record, and transaction broadcast validation.

use vstd::prelude::*;
use crate::blockchain::Blockchain;
use crate::blockchain::LedgerError;
use crate::blockchain::active_count;
use crate::blockchain::chain_valid;
use crate::blockchain::committed_block_ok;
use crate::blockchain::glns_unique;
use crate::blockchain::is_active_validator;
use crate::blockchain::pending_all_valid;
use crate::blockchain::reward_tx_ok;
use crate::clock::now_rfc3339;
use crate::transaction::Transaction;
use crate::transaction::tx_valid;

verus! {

/// Consensus bookkeeping kept beside the chain.
pub struct ConsensusState {
    /// Identities taking part in consensus, in registration order, unique.
    pub validators: Vec<String>,
    /// The consensus round counter.
    pub current_round: u64,
    /// Two thirds of the participants plus one.
    pub threshold: u64,
}

/// A peer node of the network.
pub struct NetworkPeer {
    /// Fresh identifier assigned at construction.
    pub id: String,
    /// Network address of the peer.
    pub address: String,
    /// Stable identity of the peer's operator.
    pub gln: String,
    /// Whether the peer takes part in block production.
    pub is_validator: bool,
    /// When the peer was last seen, as an RFC 3339 string.
    pub last_seen: String,
}

/// Relies on uuid: `Uuid::new_v4()` rendered by `to_string()`, which writes
/// the 36-character hyphenated form. The value is random, so nothing more is
/// promised of it.
#[verifier::external_body]
fn new_uuid_string() -> (r: String)
    ensures
        r@.len() == 36,
{
    uuid::Uuid::new_v4().to_string()
}

impl NetworkPeer {
    /// Describes a peer, assigning it a fresh identifier and stamping the
    /// current time.
    pub fn new(address: String, gln: String, is_validator: bool) -> (r: NetworkPeer)
        ensures
            r.address@ == address@,
            r.gln@ == gln@,
            r.is_validator == is_validator,
            r.id@.len() == 36,
    {
        NetworkPeer {
            id: new_uuid_string(),
            address,
            gln,
            is_validator,
            last_seen: now_rfc3339(),
        }
    }
}

/// Some entry of the list holds these characters.
pub open spec fn contains_str(items: Seq<String>, s: Seq<char>) -> bool {
    exists|i: int| 0 <= i < items.len() && items[i]@ == s
}

/// The consensus threshold for a participant count: two thirds plus one.
pub open spec fn consensus_threshold(n: nat) -> nat {
    n * 2 / 3 + 1
}

/// The ledger with its networking shell. The identity/authorization
/// collaborator that manages user accounts is external and not part of this
/// core.
pub struct DistributedLedger {
    /// The chain state itself.
    pub blockchain: Blockchain,
    /// Known peer addresses, without duplicates.
    pub peers: Vec<String>,
    /// Consensus bookkeeping.
    pub consensus_state: ConsensusState,
}

impl DistributedLedger {
    /// A fresh ledger: a genesis-only chain, no peers, no participants.
    pub fn new() -> (r: DistributedLedger)
        ensures
            r.blockchain.wf(),
            r.blockchain.chain@.len() == 1,
            r.blockchain.chain@[0].index == 0,
            r.blockchain.pending_transactions@.len() == 0,
            r.blockchain.validators@.len() == 0,
            chain_valid(r.blockchain.chain@, r.blockchain.validators@),
            r.blockchain.consistent(),
            r.peers@.len() == 0,
            r.consensus_state.validators@.len() == 0,
            r.consensus_state.current_round == 0,
            r.consensus_state.threshold == 0,
    {
        DistributedLedger {
            blockchain: Blockchain::new(),
            peers: Vec::new(),
            consensus_state: ConsensusState {
                validators: Vec::new(),
                current_round: 0,
                threshold: 0,
            },
        }
    }

    /// Whether some entry of the list holds the same characters.
    fn list_contains(items: &Vec<String>, s: &String) -> (r: bool)
        ensures
            r == contains_str(items@, s@),
    {
        let mut i: usize = 0;
        while i < items.len()
            invariant
                i <= items@.len(),
                forall|k: int| 0 <= k < i ==> (#[trigger] items@[k])@ != s@,
            decreases items@.len() - i,
        {
            if items[i] == *s {
                return true;
            }
            i = i + 1;
        }
        false
    }

    /// Records a peer address unless it is already known.
    pub fn add_peer(&mut self, peer_addr: String)
        ensures
            final(self).blockchain == old(self).blockchain,
            final(self).consensus_state == old(self).consensus_state,
            contains_str(old(self).peers@, peer_addr@) ==> final(self).peers@ == old(self).peers@,
            !contains_str(old(self).peers@, peer_addr@) ==> final(self).peers@ == old(
                self,
            ).peers@.push(peer_addr),
    {
        if !DistributedLedger::list_contains(&self.peers, &peer_addr) {
            self.peers.push(peer_addr);
        }
    }

    /// Enrolls an identity in consensus bookkeeping unless already enrolled,
    /// and recomputes the two-thirds threshold.
    pub fn add_validator(&mut self, validator_gln: String)
        ensures
            final(self).blockchain == old(self).blockchain,
            final(self).peers == old(self).peers,
            final(self).consensus_state.current_round == old(self).consensus_state.current_round,
            contains_str(old(self).consensus_state.validators@, validator_gln@)
                ==> final(self).consensus_state == old(self).consensus_state,
            !contains_str(old(self).consensus_state.validators@, validator_gln@) ==> {
                &&& final(self).consensus_state.validators@
                    == old(self).consensus_state.validators@.push(validator_gln)
                &&& final(self).consensus_state.threshold as nat == consensus_threshold(
                    final(self).consensus_state.validators@.len(),
                )
            },
    {
        if !DistributedLedger::list_contains(&self.consensus_state.validators, &validator_gln) {
            self.consensus_state.validators.push(validator_gln);
            let n = self.consensus_state.validators.len();
            let t: u128 = (n as u128) * 2 / 3 + 1;
            self.consensus_state.threshold = t as u64;
        }
    }

    /// Validates a transaction for broadcast: an empty identity is refused;
    /// otherwise the transaction is handed to the pending pool, where an
    /// invalid authenticity tag still drops it silently.
    pub fn validate_and_broadcast_transaction(&mut self, transaction: Transaction) -> (r: Result<
        (),
        LedgerError,
    >)
        ensures
            final(self).peers == old(self).peers,
            final(self).consensus_state == old(self).consensus_state,
            final(self).blockchain.chain == old(self).blockchain.chain,
            final(self).blockchain.validators == old(self).blockchain.validators,
            match r {
                Ok(()) => {
                    &&& transaction.id@.len() > 0
                    &&& tx_valid(transaction) ==> final(self).blockchain.pending_transactions@
                        == old(self).blockchain.pending_transactions@.push(transaction)
                    &&& !tx_valid(transaction) ==> final(self).blockchain.pending_transactions@
                        == old(self).blockchain.pending_transactions@
                },
                Err(e) => e == LedgerError::InvalidTransactionId && transaction.id@.len() == 0
                    && *final(self) == *old(self),
            },
            old(self).blockchain.consistent() ==> final(self).blockchain.consistent(),
    {
        if transaction.id.as_str().is_empty() {
            return Err(LedgerError::InvalidTransactionId);
        }
        self.blockchain.add_transaction(transaction);
        Ok(())
    }

    /// Registers a validator with the chain's registry. Fails exactly on a
    /// duplicate identity.
    pub fn add_poa_validator(&mut self, gln: String, public_key: String, role: String) -> (r:
        Result<(), LedgerError>)
        requires
            glns_unique(old(self).blockchain.validators@),
        ensures
            glns_unique(final(self).blockchain.validators@),
            final(self).peers == old(self).peers,
            final(self).consensus_state == old(self).consensus_state,
            final(self).blockchain.chain == old(self).blockchain.chain,
            final(self).blockchain.pending_transactions == old(
                self,
            ).blockchain.pending_transactions,
            r is Ok <==> !crate::blockchain::has_validator(old(self).blockchain.validators@, gln@),
            r is Err ==> *final(self) == *old(self) && r == Result::<(), LedgerError>::Err(
                LedgerError::DuplicateValidator,
            ),
            r is Ok ==> final(self).blockchain.validators@ == old(
                self,
            ).blockchain.validators@.push(
                (crate::validator::Validator { gln, public_key, active: true, role }),
            ),
            r is Ok ==> final(self).blockchain.threshold as nat == crate::blockchain::quorum_threshold(
                final(self).blockchain.validators@,
            ),
            final(self).blockchain.current_round == old(self).blockchain.current_round,
            old(self).blockchain.consistent() ==> final(self).blockchain.consistent(),
    {
        self.blockchain.add_validator(gln, public_key, role)
    }

    /// Commits the pending pool through the chain's proof-of-authority rules.
    pub fn mine_with_poa(&mut self, validator_address: String) -> (r: Result<(), LedgerError>)
        requires
            old(self).blockchain.wf(),
        ensures
            final(self).blockchain.wf(),
            final(self).peers == old(self).peers,
            final(self).consensus_state == old(self).consensus_state,
            final(self).blockchain.validators == old(self).blockchain.validators,
            final(self).blockchain.threshold == old(self).blockchain.threshold,
            final(self).blockchain.current_round == old(self).blockchain.current_round,
            match r {
                Ok(()) => {
                    &&& is_active_validator(old(self).blockchain.validators@, validator_address@)
                    &&& old(self).blockchain.pending_transactions@.len() > 0
                    &&& final(self).blockchain.chain@.len() == old(self).blockchain.chain@.len()
                        + 1
                    &&& final(self).blockchain.chain@.take(
                        old(self).blockchain.chain@.len() as int,
                    ) == old(self).blockchain.chain@
                    &&& committed_block_ok(
                        final(self).blockchain.chain@.last(),
                        old(self).blockchain.chain@.last(),
                        old(self).blockchain.pending_transactions@,
                        validator_address@,
                    )
                    &&& final(self).blockchain.pending_transactions@.len() == 1
                    &&& reward_tx_ok(
                        final(self).blockchain.pending_transactions@[0],
                        validator_address@,
                    )
                    &&& (pending_all_valid(old(self).blockchain.pending_transactions@)
                        && chain_valid(old(self).blockchain.chain@, old(self).blockchain.validators@)
                        ==> chain_valid(
                        final(self).blockchain.chain@,
                        final(self).blockchain.validators@,
                    ))
                },
                Err(e) => *final(self) == *old(self) && ((e == LedgerError::NoActiveValidators
                    && active_count(old(self).blockchain.validators@) == 0) || (e
                    == LedgerError::UnauthorizedAuthor && active_count(
                    old(self).blockchain.validators@,
                ) > 0 && !is_active_validator(old(self).blockchain.validators@, validator_address@))
                    || (e == LedgerError::EmptyPendingPool && is_active_validator(
                    old(self).blockchain.validators@,
                    validator_address@,
                ) && old(self).blockchain.pending_transactions@.len() == 0)),
            },
            old(self).blockchain.consistent() ==> final(self).blockchain.consistent(),
    {
        self.blockchain.mine_pending_transactions(validator_address)
    }
}

} // verus!
