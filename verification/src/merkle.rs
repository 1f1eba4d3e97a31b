//! Merkle commitment: a binary hash tree over an ordered list of leaf hashes,
//! reduced level by level to a single root.

use vstd::prelude::*;
use crate::hashing::sha256_hex;
use crate::hashing::sha256_hex_of;
use crate::hashing::zero_hash;
use crate::hashing::zero_hash_str;

verus! {

/// The views of a list of strings.
pub open spec fn str_views(s: Seq<String>) -> Seq<Seq<char>> {
    s.map_values(|x: String| x@)
}

/// One level of the tree: adjacent hashes are paired left to right and each
/// pair's concatenation is hashed into a parent; an odd trailing hash is
/// paired with itself.
pub open spec fn merkle_level(hs: Seq<Seq<char>>) -> Seq<Seq<char>>
    decreases hs.len(),
{
    if hs.len() == 0 {
        Seq::empty()
    } else if hs.len() == 1 {
        seq![sha256_hex_of(hs[0] + hs[0])]
    } else {
        seq![sha256_hex_of(hs[0] + hs[1])] + merkle_level(hs.skip(2))
    }
}

/// A level holds one parent for each full pair and one for an odd leftover.
pub proof fn lemma_merkle_level_len(hs: Seq<Seq<char>>)
    ensures
        hs.len() % 2 == 0 ==> merkle_level(hs).len() == hs.len() / 2,
        hs.len() % 2 == 1 ==> merkle_level(hs).len() == hs.len() / 2 + 1,
        hs.len() >= 2 ==> merkle_level(hs).len() < hs.len(),
        hs.len() >= 1 ==> merkle_level(hs).len() >= 1,
    decreases hs.len(),
{
    if hs.len() >= 2 {
        lemma_merkle_level_len(hs.skip(2));
    }
}

/// The root hash committing to an ordered list of leaves: the all-zero
/// sentinel for no leaves, the leaf itself for one, and otherwise the root of
/// the next level up.
pub open spec fn merkle_root_of(hs: Seq<Seq<char>>) -> Seq<char>
    decreases hs.len(),
    via merkle_root_of_decreases
{
    if hs.len() == 0 {
        zero_hash()
    } else if hs.len() == 1 {
        hs[0]
    } else {
        merkle_root_of(merkle_level(hs))
    }
}

#[via_fn]
proof fn merkle_root_of_decreases(hs: Seq<Seq<char>>) {
    lemma_merkle_level_len(hs);
}

/// The commitment is deterministic: committing the same ordered leaf list
/// twice yields the same root, because the root is a pure function of the
/// ordered list and of nothing else.
pub proof fn lemma_merkle_root_deterministic(a: Seq<Seq<char>>, b: Seq<Seq<char>>)
    requires
        a == b,
    ensures
        merkle_root_of(a) == merkle_root_of(b),
{
}

/// A level splits at any even position into the levels of the two halves.
proof fn lemma_merkle_level_split(hs: Seq<Seq<char>>, i: int)
    requires
        0 <= i <= hs.len(),
        i % 2 == 0,
    ensures
        merkle_level(hs) == merkle_level(hs.take(i)) + merkle_level(hs.skip(i)),
    decreases i,
{
    if i == 0 {
        assert(hs.take(0) =~= Seq::<Seq<char>>::empty());
        assert(hs.skip(0) =~= hs);
        assert(merkle_level(hs) =~= merkle_level(hs.take(0)) + merkle_level(hs.skip(0)));
    } else {
        lemma_merkle_level_split(hs.skip(2), i - 2);
        assert(hs.skip(2).take(i - 2) =~= hs.take(i).skip(2));
        assert(hs.skip(2).skip(i - 2) =~= hs.skip(i));
        assert(hs.take(i)[0] == hs[0]);
        assert(hs.take(i)[1] == hs[1]);
        assert(merkle_level(hs) =~= merkle_level(hs.take(i)) + merkle_level(hs.skip(i)));
    }
}

/// Computes the Merkle root of an ordered list of leaf hashes. Repeated calls
/// on the same ordered input yield the same root: the result is a pure
/// function of the leaf list.
pub fn merkle_root(leaves: &Vec<String>) -> (r: String)
    ensures
        r@ == merkle_root_of(str_views(leaves@)),
{
    if leaves.len() == 0 {
        return zero_hash_str();
    }

    let mut hashes: Vec<String> = Vec::new();
    let mut i: usize = 0;
    while i < leaves.len()
        invariant
            i <= leaves@.len(),
            hashes@ =~= leaves@.take(i as int),
        decreases leaves@.len() - i,
    {
        hashes.push(leaves[i].clone());
        i = i + 1;
    }
    proof {
        assert(leaves@.take(leaves@.len() as int) =~= leaves@);
    }

    while hashes.len() > 1
        invariant
            hashes@.len() >= 1,
            merkle_root_of(str_views(hashes@)) == merkle_root_of(str_views(leaves@)),
        decreases hashes@.len(),
    {
        let mut next: Vec<String> = Vec::new();
        let mut j: usize = 0;
        while j < hashes.len() - 1
            invariant
                hashes@.len() >= 1,
                j % 2 == 0,
                j <= hashes@.len(),
                str_views(next@) =~= merkle_level(str_views(hashes@).take(j as int)),
            decreases hashes@.len() - j,
        {
            let mut pair = hashes[j].clone();
            pair.append(hashes[j + 1].as_str());
            next.push(sha256_hex(pair.as_str()));
            proof {
                let hv = str_views(hashes@);
                lemma_merkle_level_split(hv.take(j + 2), j as int);
                assert(hv.take(j + 2).take(j as int) =~= hv.take(j as int));
                let tail = hv.take(j + 2).skip(j as int);
                assert(tail =~= seq![hv[j as int], hv[j + 1]]);
                assert(tail.skip(2) =~= Seq::<Seq<char>>::empty());
                assert(merkle_level(Seq::<Seq<char>>::empty()) =~= Seq::<Seq<char>>::empty());
                assert(merkle_level(tail) =~= seq![sha256_hex_of(hv[j as int] + hv[j + 1])]);
                assert(str_views(next@) =~= merkle_level(hv.take(j + 2)));
            }
            j = j + 2;
        }
        if j < hashes.len() {
            // odd leftover: the last hash is paired with itself
            let mut pair = hashes[j].clone();
            pair.append(hashes[j].as_str());
            next.push(sha256_hex(pair.as_str()));
            proof {
                let hv = str_views(hashes@);
                lemma_merkle_level_split(hv, j as int);
                let tail = hv.skip(j as int);
                assert(tail =~= seq![hv[j as int]]);
                assert(merkle_level(tail) =~= seq![sha256_hex_of(hv[j as int] + hv[j as int])]);
                assert(hv.take(j as int) =~= hv.take(j as int));
                assert(str_views(next@) =~= merkle_level(hv));
            }
        } else {
            proof {
                let hv = str_views(hashes@);
                assert(j == hashes@.len());
                assert(hv.take(j as int) =~= hv);
            }
        }
        proof {
            assert(str_views(next@) =~= merkle_level(str_views(hashes@)));
            lemma_merkle_level_len(str_views(hashes@));
        }
        hashes = next;
    }

    let ghost last_view = str_views(hashes@);
    let r = hashes.pop().unwrap();
    proof {
        assert(last_view =~= seq![r@]);
        assert(merkle_root_of(last_view) == r@);
    }
    r
}

} // verus!
