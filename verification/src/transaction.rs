//! Transactions: immutable ledger content with a content-derived identity and
//! a deterministic authenticity tag (a digest standing in for a signature).

use vstd::prelude::*;
use crate::clock::now_rfc3339;
use crate::hashing::sha256_hex;
use crate::hashing::sha256_hex_of;

verus! {

/// An immutable unit of ledger content. `payload` is the caller's business
/// data in its canonical serialized form; the ledger never interprets it.
pub struct Transaction {
    /// Content-derived identity: a digest of payload, author and timestamp.
    pub id: String,
    /// The caller's data, canonically serialized; opaque to the ledger.
    pub payload: String,
    /// Stable identifier of whoever originated the transaction.
    pub actor_gln: String,
    /// Creation time, fixed when the record is built.
    pub timestamp: String,
    /// Deterministic digest of (id, author, timestamp); a signature stand-in.
    pub signature: String,
    /// Auxiliary annotations; empty by default.
    pub metadata: Vec<(String, String)>,
}

/// The identity a record with these fields must carry.
pub open spec fn tx_id_of(payload: Seq<char>, actor_gln: Seq<char>, timestamp: Seq<char>) -> Seq<
    char,
> {
    sha256_hex_of(payload + actor_gln + timestamp)
}

/// The authenticity tag a record with this identity must carry.
pub open spec fn tx_sig_of(id: Seq<char>, actor_gln: Seq<char>, timestamp: Seq<char>) -> Seq<
    char,
> {
    sha256_hex_of(id + actor_gln + timestamp)
}

/// A record whose authenticity tag matches recomputation from its own
/// payload, author and timestamp; any mismatch signals tampering.
pub open spec fn tx_valid(tx: Transaction) -> bool {
    tx.signature@ == tx_sig_of(
        tx_id_of(tx.payload@, tx.actor_gln@, tx.timestamp@),
        tx.actor_gln@,
        tx.timestamp@,
    )
}

/// Canonical rendering of the metadata pairs, in their stored order. The
/// stored order is canonical when the keys are strictly increasing (see
/// `metadata_canonical`): the rendering then depends only on the mapping.
pub open spec fn metadata_str(md: Seq<(String, String)>) -> Seq<char>
    decreases md.len(),
{
    if md.len() == 0 {
        Seq::empty()
    } else {
        metadata_str(md.drop_last()) + md.last().0@ + ":"@ + md.last().1@ + ";"@
    }
}

/// Strict lexicographic order on strings, by Unicode scalar value.
pub open spec fn str_lt(a: Seq<char>, b: Seq<char>) -> bool
    decreases a.len(),
{
    if a.len() == 0 {
        b.len() > 0
    } else if b.len() == 0 {
        false
    } else if a.first() == b.first() {
        str_lt(a.drop_first(), b.drop_first())
    } else {
        (a.first() as u32) < (b.first() as u32)
    }
}

/// The order is strict: irreflexive and asymmetric.
proof fn lemma_str_lt_strict(a: Seq<char>, b: Seq<char>)
    ensures
        !(str_lt(a, b) && str_lt(b, a)),
        a == b ==> !str_lt(a, b),
    decreases a.len(),
{
    if a.len() > 0 && b.len() > 0 && a.first() == b.first() {
        lemma_str_lt_strict(a.drop_first(), b.drop_first());
    }
}

/// The metadata pairs as plain character sequences.
pub open spec fn metadata_view(md: Seq<(String, String)>) -> Seq<(Seq<char>, Seq<char>)> {
    md.map_values(|p: (String, String)| (p.0@, p.1@))
}

/// Canonical metadata: keys strictly increasing, hence unique. Metadata is a
/// mapping, with no order of its own; its canonical form has exactly one
/// representation, so equal mappings render and hash equally.
pub open spec fn metadata_canonical(pairs: Seq<(Seq<char>, Seq<char>)>) -> bool {
    forall|i: int, j: int| 0 <= i < j < pairs.len() ==> str_lt(pairs[i].0, pairs[j].0)
}

/// Both lists carry exactly the same annotation pairs.
pub open spec fn same_pairs(
    p1: Seq<(Seq<char>, Seq<char>)>,
    p2: Seq<(Seq<char>, Seq<char>)>,
) -> bool {
    forall|p: (Seq<char>, Seq<char>)| p1.contains(p) <==> p2.contains(p)
}

/// Canonical metadata is determined by its pairs: two canonical lists that
/// carry the same pairs are the same list.
pub proof fn lemma_canonical_metadata_unique(
    p1: Seq<(Seq<char>, Seq<char>)>,
    p2: Seq<(Seq<char>, Seq<char>)>,
)
    requires
        metadata_canonical(p1),
        metadata_canonical(p2),
        same_pairs(p1, p2),
    ensures
        p1 == p2,
    decreases p1.len(),
{
    if p1.len() == 0 {
        if p2.len() > 0 {
            assert(p2.contains(p2[0]));
            assert(p1.contains(p2[0]));
        }
        assert(p1 =~= p2);
    } else if p2.len() == 0 {
        assert(p1.contains(p1[0]));
        assert(p2.contains(p1[0]));
    } else {
        let x1 = p1[0];
        let x2 = p2[0];
        // the strictly smallest key heads both lists, so the heads agree
        assert(p1.contains(x1));
        assert(p2.contains(x2));
        let j = choose|j: int| 0 <= j < p2.len() && p2[j] == x1;
        let i = choose|i: int| 0 <= i < p1.len() && p1[i] == x2;
        if j != 0 {
            assert(str_lt(x2.0, p2[j].0));
            if i == 0 {
                lemma_str_lt_strict(x1.0, x1.0);
            } else {
                assert(str_lt(x1.0, p1[i].0));
                lemma_str_lt_strict(x1.0, x2.0);
            }
        }
        assert(x1 == x2);

        let t1 = p1.drop_first();
        let t2 = p2.drop_first();
        assert forall|a: int, b: int| 0 <= a < b < t1.len() implies str_lt(
            t1[a].0,
            t1[b].0,
        ) by {
            assert(str_lt(p1[a + 1].0, p1[b + 1].0));
        }
        assert forall|a: int, b: int| 0 <= a < b < t2.len() implies str_lt(
            t2[a].0,
            t2[b].0,
        ) by {
            assert(str_lt(p2[a + 1].0, p2[b + 1].0));
        }
        // the head pair occurs in neither tail: every tail key is larger
        assert forall|p: (Seq<char>, Seq<char>)| t1.contains(p) implies t2.contains(p) by {
            let a = choose|a: int| 0 <= a < t1.len() && t1[a] == p;
            assert(p1[a + 1] == p);
            assert(p1.contains(p));
            assert(p2.contains(p));
            let b = choose|b: int| 0 <= b < p2.len() && p2[b] == p;
            assert(str_lt(x1.0, p.0));
            if b == 0 {
                lemma_str_lt_strict(x1.0, x1.0);
            }
            assert(t2[b - 1] == p);
            assert(t2.contains(p));
        }
        assert forall|p: (Seq<char>, Seq<char>)| t2.contains(p) implies t1.contains(p) by {
            let b = choose|b: int| 0 <= b < t2.len() && t2[b] == p;
            assert(p2[b + 1] == p);
            assert(p2.contains(p));
            assert(p1.contains(p));
            let a = choose|a: int| 0 <= a < p1.len() && p1[a] == p;
            assert(str_lt(x2.0, p.0));
            if a == 0 {
                lemma_str_lt_strict(x2.0, x2.0);
            }
            assert(t1[a - 1] == p);
            assert(t1.contains(p));
        }
        lemma_canonical_metadata_unique(t1, t2);
        assert forall|k: int| 0 <= k < p1.len() implies p1[k] == p2[k] by {
            if k > 0 {
                assert(p1[k] == t1[k - 1]);
                assert(p2[k] == t2[k - 1]);
            }
        }
        assert(p1 =~= p2);
    }
}

/// The rendering reads only the characters of the pairs.
proof fn lemma_metadata_str_from_view(md1: Seq<(String, String)>, md2: Seq<(String, String)>)
    requires
        metadata_view(md1) == metadata_view(md2),
    ensures
        metadata_str(md1) == metadata_str(md2),
    decreases md1.len(),
{
    assert(metadata_view(md1).len() == md1.len());
    assert(metadata_view(md2).len() == md2.len());
    if md1.len() > 0 {
        assert(metadata_view(md1.drop_last()) =~= metadata_view(md1).drop_last());
        assert(metadata_view(md2.drop_last()) =~= metadata_view(md2).drop_last());
        lemma_metadata_str_from_view(md1.drop_last(), md2.drop_last());
        assert(metadata_view(md1)[md1.len() - 1] == (md1.last().0@, md1.last().1@));
        assert(metadata_view(md2)[md2.len() - 1] == (md2.last().0@, md2.last().1@));
    }
}

/// The Merkle-leaf hash does not depend on how the metadata mapping was
/// assembled: records equal in identity, author, timestamp and tag, whose
/// canonical metadata carry the same pairs, hash identically.
pub proof fn lemma_content_hash_respects_metadata_map(t1: Transaction, t2: Transaction)
    requires
        t1.id@ == t2.id@,
        t1.actor_gln@ == t2.actor_gln@,
        t1.timestamp@ == t2.timestamp@,
        t1.signature@ == t2.signature@,
        metadata_canonical(metadata_view(t1.metadata@)),
        metadata_canonical(metadata_view(t2.metadata@)),
        same_pairs(metadata_view(t1.metadata@), metadata_view(t2.metadata@)),
    ensures
        tx_content_hash(t1) == tx_content_hash(t2),
{
    lemma_canonical_metadata_unique(metadata_view(t1.metadata@), metadata_view(t2.metadata@));
    lemma_metadata_str_from_view(t1.metadata@, t2.metadata@);
    assert(tx_leaf_input(t1) == tx_leaf_input(t2));
}

/// The string a transaction hashes to when used as a Merkle leaf.
pub open spec fn tx_leaf_input(tx: Transaction) -> Seq<char> {
    tx.id@ + tx.actor_gln@ + tx.timestamp@ + tx.signature@ + metadata_str(tx.metadata@)
}

/// The Merkle-leaf hash of a transaction.
pub open spec fn tx_content_hash(tx: Transaction) -> Seq<char> {
    sha256_hex_of(tx_leaf_input(tx))
}

/// Canonical rendering of one transaction, field for field with separators,
/// as it enters a block's hash input.
pub open spec fn tx_serial(tx: Transaction) -> Seq<char> {
    tx.id@ + "|"@ + tx.payload@ + "|"@ + tx.actor_gln@ + "|"@ + tx.timestamp@ + "|"@
        + tx.signature@ + "|"@ + metadata_str(tx.metadata@) + "||"@
}

/// Canonical rendering of an ordered transaction list.
pub open spec fn txs_serial(txs: Seq<Transaction>) -> Seq<char>
    decreases txs.len(),
{
    if txs.len() == 0 {
        Seq::empty()
    } else {
        txs_serial(txs.drop_last()) + tx_serial(txs.last())
    }
}

/// Appends the canonical metadata rendering.
pub(crate) fn append_metadata(out: &mut String, md: &Vec<(String, String)>)
    ensures
        final(out)@ == old(out)@ + metadata_str(md@),
{
    let mut i: usize = 0;
    while i < md.len()
        invariant
            i <= md@.len(),
            out@ == old(out)@ + metadata_str(md@.take(i as int)),
        decreases md@.len() - i,
    {
        let pair = &md[i];
        out.append(pair.0.as_str());
        out.append(":");
        out.append(pair.1.as_str());
        out.append(";");
        proof {
            assert(md@.take(i + 1).drop_last() =~= md@.take(i as int));
            assert(md@.take(i + 1).last() == md@[i as int]);
        }
        i = i + 1;
    }
    proof {
        assert(md@.take(md@.len() as int) =~= md@);
        assert(metadata_str(Seq::<(String, String)>::empty()) =~= Seq::<char>::empty());
        assert(out@ =~= old(out)@ + metadata_str(md@));
    }
}

/// Appends the canonical rendering of one transaction.
pub(crate) fn append_tx_serial(out: &mut String, tx: &Transaction)
    ensures
        final(out)@ == old(out)@ + tx_serial(*tx),
{
    out.append(tx.id.as_str());
    out.append("|");
    out.append(tx.payload.as_str());
    out.append("|");
    out.append(tx.actor_gln.as_str());
    out.append("|");
    out.append(tx.timestamp.as_str());
    out.append("|");
    out.append(tx.signature.as_str());
    out.append("|");
    append_metadata(out, &tx.metadata);
    out.append("||");
    proof {
        assert(out@ =~= old(out)@ + tx_serial(*tx));
    }
}

/// Appends the canonical rendering of an ordered transaction list.
pub(crate) fn append_txs_serial(out: &mut String, txs: &Vec<Transaction>)
    ensures
        final(out)@ == old(out)@ + txs_serial(txs@),
{
    let mut i: usize = 0;
    while i < txs.len()
        invariant
            i <= txs@.len(),
            out@ == old(out)@ + txs_serial(txs@.take(i as int)),
        decreases txs@.len() - i,
    {
        append_tx_serial(out, &txs[i]);
        proof {
            assert(txs@.take(i + 1).drop_last() =~= txs@.take(i as int));
            assert(txs@.take(i + 1).last() == txs@[i as int]);
        }
        i = i + 1;
    }
    proof {
        assert(txs@.take(txs@.len() as int) =~= txs@);
        assert(txs_serial(Seq::<Transaction>::empty()) =~= Seq::<char>::empty());
        assert(out@ =~= old(out)@ + txs_serial(txs@));
    }
}

impl Transaction {
    /// Builds a record whose creation time is supplied by the caller; the
    /// identity and authenticity tag are derived from the fields.
    pub fn new_with_timestamp(payload: String, actor_gln: String, timestamp: String) -> (r:
        Transaction)
        ensures
            r.payload@ == payload@,
            r.actor_gln@ == actor_gln@,
            r.timestamp@ == timestamp@,
            r.id@ == tx_id_of(payload@, actor_gln@, timestamp@),
            r.signature@ == tx_sig_of(r.id@, actor_gln@, timestamp@),
            r.metadata@.len() == 0,
            metadata_canonical(metadata_view(r.metadata@)),
            tx_valid(r),
    {
        let mut id_input = payload.clone();
        id_input.append(actor_gln.as_str());
        id_input.append(timestamp.as_str());
        let id = sha256_hex(id_input.as_str());

        let mut sig_input = id.clone();
        sig_input.append(actor_gln.as_str());
        sig_input.append(timestamp.as_str());
        let signature = sha256_hex(sig_input.as_str());

        Transaction { id, payload, actor_gln, timestamp, signature, metadata: Vec::new() }
    }

    /// Builds a record stamped with the current time.
    pub fn new(payload: String, actor_gln: String) -> (r: Transaction)
        ensures
            r.payload@ == payload@,
            r.actor_gln@ == actor_gln@,
            r.id@ == tx_id_of(payload@, actor_gln@, r.timestamp@),
            r.signature@ == tx_sig_of(r.id@, actor_gln@, r.timestamp@),
            r.metadata@.len() == 0,
            metadata_canonical(metadata_view(r.metadata@)),
            tx_valid(r),
    {
        let timestamp = now_rfc3339();
        Transaction::new_with_timestamp(payload, actor_gln, timestamp)
    }

    /// The hash under which this record enters a Merkle commitment: a digest
    /// of identity, author, timestamp, tag and metadata. Pure recomputation.
    pub fn calculate_hash(&self) -> (r: String)
        ensures
            r@ == tx_content_hash(*self),
            r@.len() == 64,
    {
        let mut input = self.id.clone();
        input.append(self.actor_gln.as_str());
        input.append(self.timestamp.as_str());
        input.append(self.signature.as_str());
        append_metadata(&mut input, &self.metadata);
        proof {
            assert(input@ =~= tx_leaf_input(*self));
        }
        sha256_hex(input.as_str())
    }

    /// An equal record: every field carries the same characters.
    pub fn duplicate(&self) -> (r: Transaction)
        ensures
            r.id@ == self.id@,
            r.payload@ == self.payload@,
            r.actor_gln@ == self.actor_gln@,
            r.timestamp@ == self.timestamp@,
            r.signature@ == self.signature@,
            r.metadata@ == self.metadata@,
    {
        let mut metadata: Vec<(String, String)> = Vec::new();
        let mut i: usize = 0;
        while i < self.metadata.len()
            invariant
                i <= self.metadata@.len(),
                metadata@ =~= self.metadata@.take(i as int),
            decreases self.metadata@.len() - i,
        {
            let pair = &self.metadata[i];
            metadata.push((pair.0.clone(), pair.1.clone()));
            i = i + 1;
        }
        proof {
            assert(self.metadata@.take(self.metadata@.len() as int) =~= self.metadata@);
        }
        Transaction {
            id: self.id.clone(),
            payload: self.payload.clone(),
            actor_gln: self.actor_gln.clone(),
            timestamp: self.timestamp.clone(),
            signature: self.signature.clone(),
            metadata,
        }
    }
}

} // verus!
