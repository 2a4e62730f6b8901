//! What the trees hold and what their roots and proofs commit to.
use vstd::arithmetic::power2::pow2;
use vstd::prelude::*;

use crate::account::{AccountCommitment, PrivateIdentifier, PublicIdentifier, SubpoolId};
use crate::ast::{ast_leaves, AccountStateTree};
use crate::commitment_tree::{
    climb, commitment_root, conditional_merkle_verify_commitment_tree_gadget, root_preimage,
    CommitmentTreeMerkleProof, CommitmentTreeMerkleTarget,
};
use crate::field::F;
use crate::hash::{digest, digest_pair, HashOutput};
use crate::hash_gadgets::{
    acc_comm_gadget, merkle_verify_gadget, note_nullifier_gadget, paired, path_node, reduced,
    tx_hash_gadget, BalanceAccountTarget, MerkleTargets,
};
use crate::note::{nullifier_digests, NoteCommitment, NoteNullifier};
use crate::params::NOTE_BATCH;
use crate::pool_config::{
    five_zeros, MainPoolConfigLeaf, MainPoolConfigTree, SubpoolConfigTree, SubpoolFullProof,
};
use crate::schnorr::CompPubKey;
use crate::tree::{path_index, path_root, tree_node, MerkleProof, MerkleTree};

verus! {

/// The digest of two nodes, the left one first.
pub open spec fn node_over<H: Fn(Vec<F>, usize) -> Vec<F>>(
    h: H,
    l: HashOutput,
    r: HashOutput,
) -> HashOutput {
    digest(h, seq![l.0, l.1, l.2, l.3, r.0, r.1, r.2, r.3])
}

proof fn lemma_node_over<H: Fn(Vec<F>, usize) -> Vec<F>>(h: H, l: HashOutput, r: HashOutput)
    ensures
        digest_pair(h, l, r) == node_over(h, l, r),
{
    assert(l.elements() + r.elements() =~= seq![l.0, l.1, l.2, l.3, r.0, r.1, r.2, r.3]);
}

/// The node of a key: the digest of its five coefficients.
pub open spec fn node_of_key<H: Fn(Vec<F>, usize) -> Vec<F>>(h: H, k: CompPubKey) -> HashOutput {
    digest(h, seq![k.0.w.c0, k.0.w.c1, k.0.w.c2, k.0.w.c3, k.0.w.c4])
}

/// The root of a subpool's configuration is the digest of two nodes: the one over the
/// approval and the rejection key, and the one over the consume key and five zeros.
pub proof fn lemma_config_root_is<H: Fn(Vec<F>, usize) -> Vec<F>>(
    h: H,
    approval: CompPubKey,
    rejection: CompPubKey,
    consume: CompPubKey,
    t: SubpoolConfigTree,
    r: HashOutput,
)
    requires
        call_ensures(SubpoolConfigTree::new::<H>, (&h, approval, rejection, consume), t),
        call_ensures(SubpoolConfigTree::root::<H>, (&t, &h), r),
    ensures
        r == node_over(
            h,
            node_over(h, node_of_key(h, approval), node_of_key(h, rejection)),
            node_over(
                h,
                node_of_key(h, consume),
                digest(h, seq![F::of(0), F::of(0), F::of(0), F::of(0), F::of(0)]),
            ),
        ),
        t.approval_key == approval,
        t.rejection_key == rejection,
        t.consume_key == consume,
{
    t.lemma_top(h);
    let f = t.leaves(h);
    reveal_with_fuel(tree_node, 3);
    assert(five_zeros() =~= seq![F::of(0), F::of(0), F::of(0), F::of(0), F::of(0)]);
    assert(approval.elements() =~= seq![
        approval.0.w.c0,
        approval.0.w.c1,
        approval.0.w.c2,
        approval.0.w.c3,
        approval.0.w.c4,
    ]);
    let (a, b, c, d) = (f(0), f(1), f(2), f(3));
    lemma_node_over(h, a, b);
    lemma_node_over(h, c, d);
    lemma_node_over(h, digest_pair(h, a, b), digest_pair(h, c, d));
    assert(tree_node(h, f, 1, 0) == digest_pair(h, a, b));
    assert(tree_node(h, f, 1, 1) == digest_pair(h, c, d));
    assert(tree_node(h, f, 2, 0) == digest_pair(h, digest_pair(h, a, b), digest_pair(h, c, d)));
}

/// The proof of a key leads from the digest of the key, in two steps, to the root of
/// the subpool's configuration.
pub proof fn lemma_key_proofs<H: Fn(Vec<F>, usize) -> Vec<F>>(
    h: H,
    t: &SubpoolConfigTree,
    a: MerkleProof,
    r: MerkleProof,
    c: MerkleProof,
)
    requires
        call_ensures(SubpoolConfigTree::approval_key_proof::<H>, (t, &h), a),
        call_ensures(SubpoolConfigTree::rejection_key_proof::<H>, (t, &h), r),
        call_ensures(SubpoolConfigTree::consume_key_proof::<H>, (t, &h), c),
    ensures
        a.leaf == node_of_key(h, t.approval_key),
        a.path@.len() == 2,
        a.root == t.top(),
        path_root(h, a.leaf, a.path@) == t.top(),
        r.leaf == node_of_key(h, t.rejection_key),
        r.path@.len() == 2,
        r.root == t.top(),
        path_root(h, r.leaf, r.path@) == t.top(),
        c.leaf == node_of_key(h, t.consume_key),
        c.path@.len() == 2,
        c.root == t.top(),
        path_root(h, c.leaf, c.path@) == t.top(),
{
}

/// The full proof of a subpool is there exactly where the subpool was set, and holds
/// the proofs of the three keys and a path of twenty steps that stands for the digest
/// of the configuration root and the subpool.
pub proof fn lemma_full_proof<H: Fn(Vec<F>, usize) -> Vec<F>>(
    h: H,
    pool: &MainPoolConfigTree,
    t: &SubpoolConfigTree,
    id: SubpoolId,
    r: Option<SubpoolFullProof>,
)
    requires
        pool.wf(h),
        call_ensures(MainPoolConfigTree::full_subpool_proof::<H>, (pool, &h, t, id), r),
    ensures
        r is Some <==> pool.places().contains_key(
            (MainPoolConfigLeaf { subpool_root: t.top(), subpool_id: id }),
        ),
        r matches Some(p) ==> {
            let s = t.top();
            let at = pool.places()[(MainPoolConfigLeaf { subpool_root: s, subpool_id: id })];
            &&& path_root(h, node_of_key(h, t.approval_key), p.approval_proof.path@) == s
            &&& path_root(h, node_of_key(h, t.rejection_key), p.rejection_proof.path@) == s
            &&& path_root(h, node_of_key(h, t.consume_key), p.consume_proof.path@) == s
            &&& p.main_pool_proof.leaf == digest(h, seq![s.0, s.1, s.2, s.3, id.0])
            &&& p.main_pool_proof.leaf_index == at
            &&& p.main_pool_proof.root == pool.top()
            &&& p.main_pool_proof.path@.len() == 20
            &&& (pool.nodes().leaf_at())(at) == p.main_pool_proof.leaf ==> path_root(
                h,
                p.main_pool_proof.leaf,
                p.main_pool_proof.path@,
            ) == pool.top()
        },
{
    if let Some(p) = r {
        let leaf = MainPoolConfigLeaf { subpool_root: t.top(), subpool_id: id };
        let s = t.top();
        assert(leaf.preimage() =~= seq![s.0, s.1, s.2, s.3, id.0]);
        if (pool.nodes().leaf_at())(pool.places()[leaf]) == p.main_pool_proof.leaf {
            pool.lemma_subpool_proof_verifies(h, leaf, p.main_pool_proof);
        }
    }
}

/// The proof that a tree gives for a position leads from the leaf there to the root,
/// with as many steps as the tree is deep, and its directions spell the position.
pub proof fn lemma_tree_proof<H: Fn(Vec<F>, usize) -> Vec<F>>(
    h: H,
    t: &MerkleTree,
    index: usize,
    root: HashOutput,
    p: MerkleProof,
)
    requires
        t.wf(h),
        index < pow2(t.spec_depth()),
        call_ensures(MerkleTree::root, (t,), root),
        call_ensures(MerkleTree::merkle_proof_at, (t, index), p),
    ensures
        p.leaf == (t.leaf_at())(index as nat),
        p.leaf_index == index,
        p.root == root,
        root == tree_node(h, t.leaf_at(), t.spec_depth(), 0),
        p.path@.len() == t.spec_depth(),
        path_root(h, p.leaf, p.path@) == root,
        path_index(p.path@) == index,
{
    t.lemma_top(h);
    t.lemma_wf_shape(h);
    t.lemma_proof_verifies(h, index as nat, p);
    t.lemma_path_index(index as nat, p);
}

/// The root of an account's state tree is the top of ten levels over the digests of
/// the domain, the asset and the limbs of each balance; the leaves past the balances
/// are zero.
pub proof fn lemma_state_root<H: Fn(Vec<F>, usize) -> Vec<F>>(
    h: H,
    t: &AccountStateTree,
    root: HashOutput,
) -> (f: spec_fn(nat) -> HashOutput)
    requires
        t.wf(h),
        call_ensures(AccountStateTree::root, (t,), root),
    ensures
        root == tree_node(h, f, 10, 0),
        forall|i: nat|
            #![trigger f(i)]
            i < t@.len() ==> f(i) == digest(
                h,
                seq![F::of(1312), t@[i as int].asset_id.0] + t@[i as int].amount.limbs(),
            ),
        forall|i: nat|
            i >= t@.len() ==> #[trigger] f(i) == HashOutput(
                F::of(0),
                F::of(0),
                F::of(0),
                F::of(0),
            ),
{
    t.lemma_wf(h);
    ast_leaves(h, t@)
}

/// The proof that an account's state tree gives for a balance leads, in ten steps,
/// from the digest of the balance to the root.
pub proof fn lemma_balance_proof<H: Fn(Vec<F>, usize) -> Vec<F>>(
    h: H,
    t: &AccountStateTree,
    index: usize,
    p: MerkleProof,
)
    requires
        t.wf(h),
        index < t@.len(),
        call_ensures(AccountStateTree::merkle_proof_at, (t, index), p),
    ensures
        p.leaf == digest(
            h,
            seq![F::of(1312), t@[index as int].asset_id.0] + t@[index as int].amount.limbs(),
        ),
        p.root == t.top(),
        p.path@.len() == 10,
        path_root(h, p.leaf, p.path@) == t.top(),
        path_index(p.path@) == index,
{
    t.lemma_wf(h);
    t.lemma_shape();
    t.lemma_proof(h, index as nat, p);
}

/// What an account's commitment in balance form is made of: the identifier with the
/// nonce, the balance with the key, and the public identifier with the subpool.
pub proof fn lemma_balance_form<H: Fn(Vec<F>, usize) -> Vec<F>>(
    h: H,
    a: &BalanceAccountTarget,
    p: &PublicIdentifier,
    r: AccountCommitment,
)
    requires
        call_ensures(acc_comm_gadget::<H>, (&h, a, p), r),
    ensures
        r.0 == node_over(
            h,
            node_over(
                h,
                digest(h, seq![a.private_identifier.0, a.private_identifier.1, a.nonce]),
                digest(
                    h,
                    a.balance.limbs() + seq![
                        a.auth.0.w.c0,
                        a.auth.0.w.c1,
                        a.auth.0.w.c2,
                        a.auth.0.w.c3,
                        a.auth.0.w.c4,
                    ],
                ),
            ),
            digest(h, seq![p.0.0, p.0.1, p.0.2, p.0.3, a.subpool_id.0]),
        ),
{
    let x = digest(h, seq![a.private_identifier.0, a.private_identifier.1, a.nonce]);
    let y = digest(h, a.balance.limbs() + a.auth.elements());
    let z = digest(h, p.0.elements() + seq![a.subpool_id.0]);
    assert(p.0.elements() + seq![a.subpool_id.0] =~= seq![
        p.0.0,
        p.0.1,
        p.0.2,
        p.0.3,
        a.subpool_id.0,
    ]);
    lemma_node_over(h, x, y);
    lemma_node_over(h, digest_pair(h, x, y), z);
}

/// A note's nullifier in this form is the digest of the account's nullifier key and
/// the note's commitment, in that order.
pub proof fn lemma_nullifier_form<H: Fn(Vec<F>, usize) -> Vec<F>>(
    h: H,
    nc: &NoteCommitment,
    id: &PrivateIdentifier,
    r: NoteNullifier,
) -> (x: Seq<F>)
    requires
        call_ensures(note_nullifier_gadget::<H>, (&h, nc, id), r),
    ensures
        x == crate::account::nullifier_key_preimage(*id),
        r.0 == node_over(h, digest(h, x), nc.0),
{
    let x = crate::account::nullifier_key_preimage(*id);
    lemma_node_over(h, digest(h, x), nc.0);
    x
}

/// Seven nullifiers are hashed two by two, and what has no neighbour is left out: the
/// hash is that of the first four.
pub proof fn lemma_paired_hash<H: Fn(Vec<F>, usize) -> Vec<F>>(
    h: H,
    n: &[NoteNullifier; NOTE_BATCH],
    r: HashOutput,
)
    requires
        call_ensures(tx_hash_gadget::<H>, (&h, n), r),
    ensures
        r == node_over(h, node_over(h, n@[0].0, n@[1].0), node_over(h, n@[2].0, n@[3].0)),
{
    let s = nullifier_digests(n@);
    let t = paired(h, s);
    let u = paired(h, t);
    reveal_with_fuel(reduced, 4);
    lemma_node_over(h, n@[0].0, n@[1].0);
    lemma_node_over(h, n@[2].0, n@[3].0);
    lemma_node_over(h, t[0], t[1]);
}

/// A path of fixed depth is accepted exactly where the nodes rise from the leaf, one
/// digest per level with the sibling on the side that the bit says, to the root that
/// it names, and that root is the expected one where the path is selected.
pub proof fn lemma_fixed_path<H: Fn(Vec<F>, usize) -> Vec<F>>(
    h: H,
    expected: HashOutput,
    selector: bool,
    t: &MerkleTargets,
    r: bool,
) -> (nodes: Seq<HashOutput>)
    requires
        call_ensures(merkle_verify_gadget::<H>, (&h, expected, selector, t), r),
    ensures
        nodes.len() == 33,
        nodes[0] == t.leaf,
        forall|l: int|
            #![trigger nodes[l]]
            0 < l <= 32 ==> nodes[l] == (if t.bits@[l - 1] {
                node_over(h, t.siblings@[l - 1], nodes[l - 1])
            } else {
                node_over(h, nodes[l - 1], t.siblings@[l - 1])
            }),
        r == (t.computed_root == nodes[32] && (selector ==> t.computed_root == expected)),
{
    let nodes = Seq::new(33, |l: int| path_node(h, *t, l as nat));
    assert forall|l: int| #![trigger nodes[l]] 0 < l <= 32 implies nodes[l] == (if t.bits@[l - 1] {
        node_over(h, t.siblings@[l - 1], nodes[l - 1])
    } else {
        node_over(h, nodes[l - 1], t.siblings@[l - 1])
    }) by {
        lemma_node_over(h, t.siblings@[l - 1], nodes[l - 1]);
        lemma_node_over(h, nodes[l - 1], t.siblings@[l - 1]);
    }
    nodes
}

/// A path in the commitment tree is accepted exactly where it has the depth asked for
/// and, if it is selected, leads to the expected root: one digest of two nodes per
/// level, and at the top the digest of the number of leaves and two nodes. A path
/// without levels leads to its leaf.
pub proof fn lemma_counted_path<H: Fn(Vec<F>, usize) -> Vec<F>>(
    h: H,
    leaf: HashOutput,
    expected: HashOutput,
    selector: bool,
    t: &CommitmentTreeMerkleTarget,
    depth: usize,
    r: bool,
) -> (nodes: Seq<HashOutput>)
    requires
        call_ensures(
            conditional_merkle_verify_commitment_tree_gadget::<H>,
            (&h, leaf, expected, selector, t, depth),
            r,
        ),
    ensures
        nodes.len() == t.siblings@.len() + 1,
        nodes[0] == leaf,
        forall|l: int|
            #![trigger nodes[l]]
            0 < l < t.siblings@.len() ==> nodes[l] == (if t.bits@[l - 1] {
                node_over(h, t.siblings@[l - 1], nodes[l - 1])
            } else {
                node_over(h, nodes[l - 1], t.siblings@[l - 1])
            }),
        t.siblings@.len() > 0 ==> ({
            let n = t.siblings@.len() as int;
            let (a, b) = if t.bits@[n - 1] {
                (t.siblings@[n - 1], nodes[n - 1])
            } else {
                (nodes[n - 1], t.siblings@[n - 1])
            };
            nodes[n] == digest(
                h,
                seq![t.num_leaves, a.0, a.1, a.2, a.3, b.0, b.1, b.2, b.3],
            )
        }),
        r == (t.siblings@.len() == depth && t.bits@.len() == depth && (selector ==> expected
            == nodes[t.siblings@.len() as int])),
{
    let n = t.siblings@.len() as int;
    let nodes = Seq::new(
        (n + 1) as nat,
        |l: int|
            if l < n || n == 0 {
                climb(h, leaf, t.siblings@, t.bits@, l as nat)
            } else {
                commitment_root(h, leaf, *t)
            },
    );
    assert forall|l: int|
        #![trigger nodes[l]]
        0 < l < n implies nodes[l] == (if t.bits@[l - 1] {
        node_over(h, t.siblings@[l - 1], nodes[l - 1])
    } else {
        node_over(h, nodes[l - 1], t.siblings@[l - 1])
    }) by {
        lemma_node_over(h, t.siblings@[l - 1], nodes[l - 1]);
        lemma_node_over(h, nodes[l - 1], t.siblings@[l - 1]);
    }
    if n > 0 {
        let (a, b) = if t.bits@[n - 1] {
            (t.siblings@[n - 1], nodes[n - 1])
        } else {
            (nodes[n - 1], t.siblings@[n - 1])
        };
        assert(root_preimage(t.num_leaves, a, b) =~= seq![
            t.num_leaves,
            a.0,
            a.1,
            a.2,
            a.3,
            b.0,
            b.1,
            b.2,
            b.3,
        ]);
    }
    nodes
}

/// The wires of a path in the commitment tree: the siblings, the bits of the position
/// from the lowest up, and the number of leaves.
pub proof fn lemma_counted_wires(
    p: &CommitmentTreeMerkleProof,
    t: CommitmentTreeMerkleTarget,
    j: int,
)
    requires
        0 <= j < p.path@.len(),
        call_ensures(CommitmentTreeMerkleTarget::set_witness, (p,), t),
    ensures
        t.siblings@ == p.path@,
        t.bits@.len() == p.path@.len(),
        t.bits@[j] == ((p.pos as int / pow2(j as nat) as int) % 2 == 1),
        t.num_leaves@ == p.num_leaves as int % 0xffff_ffff_0000_0001,
{
}

} // verus!
