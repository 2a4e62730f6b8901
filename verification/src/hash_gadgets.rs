//! Hashes of accounts, notes and paths, from the values of their wires.
use vstd::prelude::*;

use crate::account::{
    nullifier_key_preimage, AccountCommitment, PrivateIdentifier, PublicIdentifier, SubpoolId,
};
use crate::circuit::derive_nullifier_key;
use crate::field::F;
use crate::hash::{digest, digest_pair, hash_no_pad, is_sponge, two_to_one, HashOutput};
use crate::note::{NoteCommitment, NoteNullifier};
use crate::params::NOTE_BATCH;
use crate::schnorr::CompPubKey;
use crate::u256::U256;

verus! {

/// The values of the wires of an account with one balance.
#[derive(Clone, Copy, Debug)]
pub struct BalanceAccountTarget {
    pub private_identifier: PrivateIdentifier,
    pub nonce: F,
    pub subpool_id: SubpoolId,
    pub balance: U256,
    pub auth: CompPubKey,
}

/// The commitment of an account: a tree over the hashes of its identifier and
/// nonce, of its balance and key, and of its public identifier and subpool.
pub open spec fn balance_commitment<H: Fn(Vec<F>, usize) -> Vec<F>>(
    h: H,
    a: BalanceAccountTarget,
    public_identifier: PublicIdentifier,
) -> HashOutput {
    let node0 = digest(
        h,
        seq![a.private_identifier.0, a.private_identifier.1, a.nonce],
    );
    let node1 = digest(h, a.balance.limbs() + a.auth.elements());
    let node2 = digest(h, public_identifier.0.elements() + seq![a.subpool_id.0]);
    digest_pair(h, digest_pair(h, node0, node1), node2)
}

/// Derives the commitment of an account.
pub fn acc_comm_gadget<H: Fn(Vec<F>, usize) -> Vec<F>>(
    h: &H,
    account: &BalanceAccountTarget,
    public_identifier: &PublicIdentifier,
) -> (r: AccountCommitment)
    requires
        is_sponge(*h),
    ensures
        r.0 == balance_commitment(*h, *account, *public_identifier),
{
    let mut inode0: Vec<F> = Vec::new();
    inode0.push(account.private_identifier.0);
    inode0.push(account.private_identifier.1);
    inode0.push(account.nonce);
    assert(inode0@ =~= seq![
        account.private_identifier.0,
        account.private_identifier.1,
        account.nonce,
    ]);
    let node0 = hash_no_pad(h, inode0);
    let mut inode1: Vec<F> = Vec::new();
    account.balance.append_limbs(&mut inode1);
    account.auth.append_to(&mut inode1);
    assert(inode1@ =~= account.balance.limbs() + account.auth.elements());
    let node1 = hash_no_pad(h, inode1);
    let mut inode2: Vec<F> = Vec::new();
    public_identifier.0.append_to(&mut inode2);
    inode2.push(account.subpool_id.0);
    assert(inode2@ =~= public_identifier.0.elements() + seq![account.subpool_id.0]);
    let node2 = hash_no_pad(h, inode2);
    let node3 = two_to_one(h, node0, node1);
    AccountCommitment(two_to_one(h, node3, node2))
}

/// Derives the nullifier of a note: the hash of the account's nullifier key and
/// the note's commitment.
pub fn note_nullifier_gadget<H: Fn(Vec<F>, usize) -> Vec<F>>(
    h: &H,
    nc: &NoteCommitment,
    private_identifier: &PrivateIdentifier,
) -> (r: NoteNullifier)
    requires
        is_sponge(*h),
    ensures
        r.0 == digest_pair(*h, digest(*h, nullifier_key_preimage(*private_identifier)), nc.0),
{
    let nk = derive_nullifier_key(h, private_identifier);
    NoteNullifier(two_to_one(h, nk.0, nc.0))
}

/// One level up: the hashes of neighbours. An odd one out is dropped.
pub open spec fn paired<H: Fn(Vec<F>, usize) -> Vec<F>>(h: H, level: Seq<HashOutput>) -> Seq<
    HashOutput,
> {
    Seq::new(level.len() / 2, |i: int| digest_pair(h, level[2 * i], level[2 * i + 1]))
}

/// The last node that remains when levels are paired.
pub open spec fn reduced<H: Fn(Vec<F>, usize) -> Vec<F>>(h: H, level: Seq<HashOutput>) -> HashOutput
    decreases level.len(),
{
    if level.len() <= 1 {
        level[0]
    } else {
        reduced(h, paired(h, level))
    }
}

/// Derives a transaction hash from the nullifiers of the notes: neighbours are
/// hashed until one node remains.
pub fn tx_hash_gadget<H: Fn(Vec<F>, usize) -> Vec<F>>(
    h: &H,
    inote_nulls: &[NoteNullifier; NOTE_BATCH],
) -> (r: HashOutput)
    requires
        is_sponge(*h),
    ensures
        r == reduced(*h, crate::note::nullifier_digests(inote_nulls@)),
{
    let ghost start = crate::note::nullifier_digests(inote_nulls@);
    let mut level: Vec<HashOutput> = Vec::new();
    let mut k: usize = 0;
    while k < NOTE_BATCH
        invariant
            k <= NOTE_BATCH,
            start == crate::note::nullifier_digests(inote_nulls@),
            level@ == start.take(k as int),
        decreases NOTE_BATCH - k,
    {
        level.push(inote_nulls[k].0);
        k += 1;
        assert(level@ =~= start.take(k as int));
    }
    assert(level@ =~= start);
    while level.len() > 1
        invariant
            is_sponge(*h),
            1 <= level@.len() <= NOTE_BATCH,
            reduced(*h, level@) == reduced(*h, start),
        decreases level@.len(),
    {
        let mut next: Vec<HashOutput> = Vec::new();
        let mut i: usize = 0;
        let n: usize = level.len() / 2;
        while i < n
            invariant
                is_sponge(*h),
                i <= n,
                n == level@.len() / 2,
                level@.len() <= NOTE_BATCH,
                next@ == paired(*h, level@).take(i as int),
            decreases n - i,
        {
            next.push(two_to_one(h, level[2 * i], level[2 * i + 1]));
            i += 1;
            assert(next@ =~= paired(*h, level@).take(i as int));
        }
        assert(next@ =~= paired(*h, level@));
        level = next;
    }
    level[0]
}

/// The values of the wires of a path of fixed depth.
pub struct MerkleTargets {
    pub leaf: HashOutput,
    pub siblings: [HashOutput; 32],
    pub bits: [bool; 32],
    pub computed_root: HashOutput,
}

/// The node that the first levels of a path lead to; a set bit means that the node
/// is the right child.
pub open spec fn path_node<H: Fn(Vec<F>, usize) -> Vec<F>>(h: H, t: MerkleTargets, level: nat) ->
    HashOutput
    decreases level,
{
    if level == 0 {
        t.leaf
    } else {
        let below = path_node(h, t, (level - 1) as nat);
        let sibling = t.siblings@[level - 1];
        if t.bits@[level - 1] {
            digest_pair(h, sibling, below)
        } else {
            digest_pair(h, below, sibling)
        }
    }
}

/// Verifies a path of fixed depth: the computed root is the one that the path leads
/// to, and where the path is selected, it is the expected one.
pub fn merkle_verify_gadget<H: Fn(Vec<F>, usize) -> Vec<F>>(
    h: &H,
    expected_root: HashOutput,
    selector: bool,
    t: &MerkleTargets,
) -> (r: bool)
    requires
        is_sponge(*h),
    ensures
        r == (t.computed_root == path_node(*h, *t, 32) && (selector ==> t.computed_root
            == expected_root)),
{
    let mut current = t.leaf;
    let mut level: usize = 0;
    while level < 32
        invariant
            level <= 32,
            is_sponge(*h),
            current == path_node(*h, *t, level as nat),
        decreases 32 - level,
    {
        let sibling = t.siblings[level];
        current = if t.bits[level] {
            two_to_one(h, sibling, current)
        } else {
            two_to_one(h, current, sibling)
        };
        level += 1;
    }
    t.computed_root == current && (!selector || t.computed_root == expected_root)
}

} // verus!
