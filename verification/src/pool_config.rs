//! The authority keys of the subpools, and the tree of subpools.
use vstd::arithmetic::power2::{lemma2_to64, pow2};
use vstd::prelude::*;

use crate::account::SubpoolId;
use crate::field::F;
use crate::hash::{digest, hash_no_pad, is_sponge, HashOutput};
use crate::params::{MAIN_POOL_CONFIG_DEPTH, SUBPOOL_CONFIG_DEPTH};
use crate::schnorr::CompPubKey;
use crate::tree::{last_places, lemma_places_in_log, path_root, MerkleProof, MerkleTree};

verus! {

/// A leaf in the [`SubpoolConfigTree`]: a compressed public key, or empty (the
/// fourth slot).
#[derive(Clone, Copy, Debug, PartialEq, Eq, Structural)]
pub struct SubpoolConfigLeaf(pub Option<CompPubKey>);

/// Five zeros: what an empty configuration leaf is the hash of.
pub open spec fn five_zeros() -> Seq<F> {
    seq![F::of(0), F::of(0), F::of(0), F::of(0), F::of(0)]
}

impl SubpoolConfigLeaf {
    /// The hash input: the five coefficients of the key, or five zeros.
    pub open spec fn preimage(self) -> Seq<F> {
        match self.0 {
            Some(k) => k.elements(),
            None => five_zeros(),
        }
    }

    /// The node of the empty leaf.
    pub fn empty<H: Fn(Vec<F>, usize) -> Vec<F>>(h: &H) -> (r: HashOutput)
        requires
            is_sponge(*h),
        ensures
            r == digest(*h, five_zeros()),
    {
        SubpoolConfigLeaf(None).node(h)
    }

    /// The node of the leaf.
    pub fn node<H: Fn(Vec<F>, usize) -> Vec<F>>(&self, h: &H) -> (r: HashOutput)
        requires
            is_sponge(*h),
        ensures
            r == digest(*h, self.preimage()),
    {
        let mut v: Vec<F> = Vec::new();
        match self.0 {
            Some(k) => {
                k.append_to(&mut v);
            },
            None => {
                v.push(F::zero());
                v.push(F::zero());
                v.push(F::zero());
                v.push(F::zero());
                v.push(F::zero());
            },
        }
        assert(v@ =~= self.preimage());
        hash_no_pad(h, v)
    }
}

/// The digest of a key: its node in the tree.
pub open spec fn key_node<H: Fn(Vec<F>, usize) -> Vec<F>>(h: H, k: CompPubKey) -> HashOutput {
    digest(h, k.elements())
}

/// A depth-2 Merkle tree holding the three authority public keys for a subpool.
///
/// Layout:
/// ```text
///                   SubpoolConfigRoot
///       node0                           node1
/// H(approval)  H(rejection)     H(consume)  H(zero x 5)
/// ```
pub struct SubpoolConfigTree {
    pub approval_key: CompPubKey,
    pub rejection_key: CompPubKey,
    pub consume_key: CompPubKey,
    /// The Merkle tree of the keys.
    pub inner: MerkleTree,
}

/// The leaves of the configuration of a subpool with the given keys.
pub open spec fn config_leaves<H: Fn(Vec<F>, usize) -> Vec<F>>(
    h: H,
    approval: CompPubKey,
    rejection: CompPubKey,
    consume: CompPubKey,
) -> spec_fn(nat) -> HashOutput {
    |i: nat|
        if i == 0 {
            key_node(h, approval)
        } else if i == 1 {
            key_node(h, rejection)
        } else if i == 2 {
            key_node(h, consume)
        } else {
            digest(h, five_zeros())
        }
}

/// The root of the configuration of a subpool with the given keys.
pub open spec fn config_root<H: Fn(Vec<F>, usize) -> Vec<F>>(
    h: H,
    approval: CompPubKey,
    rejection: CompPubKey,
    consume: CompPubKey,
) -> HashOutput {
    crate::tree::tree_node(h, config_leaves(h, approval, rejection, consume), 2, 0)
}

impl SubpoolConfigTree {
    /// The leaves of the tree.
    pub open spec fn leaves<H: Fn(Vec<F>, usize) -> Vec<F>>(&self, h: H) -> spec_fn(
        nat,
    ) -> HashOutput {
        config_leaves(h, self.approval_key, self.rejection_key, self.consume_key)
    }

    /// Whether the tree holds the keys, at their positions.
    pub open spec fn wf<H: Fn(Vec<F>, usize) -> Vec<F>>(&self, h: H) -> bool {
        &&& self.inner.wf(h)
        &&& self.inner.shape()
        &&& self.inner.spec_depth() == 2
        &&& self.inner.leaf_at() == self.leaves(h)
    }

    /// The root of the tree.
    pub open spec fn top(&self) -> HashOutput {
        self.inner.top()
    }

    /// The root is that of the tree over the three keys and the empty leaf.
    pub proof fn lemma_top<H: Fn(Vec<F>, usize) -> Vec<F>>(&self, h: H)
        requires
            self.wf(h),
        ensures
            self.top() == config_root(h, self.approval_key, self.rejection_key, self.consume_key),
    {
        self.inner.lemma_top(h);
    }

    /// Build the tree from the three authority keys, at positions 0, 1, 2.
    /// Position 3 remains the default empty leaf.
    pub fn new<H: Fn(Vec<F>, usize) -> Vec<F>>(
        h: &H,
        approval: CompPubKey,
        rejection: CompPubKey,
        consume: CompPubKey,
    ) -> (r: Self)
        requires
            is_sponge(*h),
        ensures
            r.wf(*h),
            r.approval_key == approval,
            r.rejection_key == rejection,
            r.consume_key == consume,
    {
        proof {
            lemma2_to64();
        }
        let empty = SubpoolConfigLeaf(None).node(h);
        let mut inner = MerkleTree::new(h, SUBPOOL_CONFIG_DEPTH, empty);
        let _ = inner.insert(h, SubpoolConfigLeaf(Some(approval)).node(h));
        let _ = inner.insert(h, SubpoolConfigLeaf(Some(rejection)).node(h));
        let _ = inner.insert(h, SubpoolConfigLeaf(Some(consume)).node(h));
        let r = SubpoolConfigTree {
            approval_key: approval,
            rejection_key: rejection,
            consume_key: consume,
            inner,
        };
        assert(r.inner.leaf_at() =~= r.leaves(*h));
        r
    }

    /// The root of the tree.
    pub fn root<H: Fn(Vec<F>, usize) -> Vec<F>>(&self, h: &H) -> (r: HashOutput)
        requires
            self.wf(*h),
        ensures
            r == self.top(),
    {
        self.inner.root()
    }

    /// The position at which a key was inserted last.
    pub open spec fn position_of(&self, key: CompPubKey) -> nat {
        if key == self.consume_key {
            2
        } else if key == self.rejection_key {
            1
        } else {
            0
        }
    }

    /// Whether a proof is that of one of the keys.
    pub open spec fn proves_key<H: Fn(Vec<F>, usize) -> Vec<F>>(
        &self,
        h: H,
        key: CompPubKey,
        p: MerkleProof,
    ) -> bool {
        &&& self.inner.has_proof(self.position_of(key), p)
        &&& p.leaf == key_node(h, key)
        &&& p.root == self.top()
        &&& p.path@.len() == 2
        &&& path_root(h, p.leaf, p.path@) == p.root
    }

    fn key_proof<H: Fn(Vec<F>, usize) -> Vec<F>>(&self, h: &H, key: CompPubKey) -> (r: MerkleProof)
        requires
            self.wf(*h),
            key == self.approval_key || key == self.rejection_key || key == self.consume_key,
        ensures
            self.proves_key(*h, key, r),
    {
        proof {
            lemma2_to64();
        }
        let at: usize = if key == self.consume_key {
            2
        } else if key == self.rejection_key {
            1
        } else {
            0
        };
        let r = self.inner.merkle_proof_at(at);
        proof {
            self.inner.lemma_proof_verifies(*h, at as nat, r);
            assert(r.leaf == (self.leaves(*h))(at as nat));
        }
        r
    }

    /// The proof of the approval key.
    pub fn approval_key_proof<H: Fn(Vec<F>, usize) -> Vec<F>>(&self, h: &H) -> (r: MerkleProof)
        requires
            self.wf(*h),
        ensures
            self.proves_key(*h, self.approval_key, r),
    {
        self.key_proof(h, self.approval_key)
    }

    /// The proof of the rejection key.
    pub fn rejection_key_proof<H: Fn(Vec<F>, usize) -> Vec<F>>(&self, h: &H) -> (r: MerkleProof)
        requires
            self.wf(*h),
        ensures
            self.proves_key(*h, self.rejection_key, r),
    {
        self.key_proof(h, self.rejection_key)
    }

    /// The proof of the consume key.
    pub fn consume_key_proof<H: Fn(Vec<F>, usize) -> Vec<F>>(&self, h: &H) -> (r: MerkleProof)
        requires
            self.wf(*h),
        ensures
            self.proves_key(*h, self.consume_key, r),
    {
        self.key_proof(h, self.consume_key)
    }
}

/// A leaf in the [`MainPoolConfigTree`]: the root of a subpool's configuration and
/// the subpool's id.
#[derive(Clone, Copy, Debug, PartialEq, Eq, Structural)]
pub struct MainPoolConfigLeaf {
    pub subpool_root: HashOutput,
    pub subpool_id: SubpoolId,
}

impl MainPoolConfigLeaf {
    /// The node of the empty leaf.
    pub fn empty<H: Fn(Vec<F>, usize) -> Vec<F>>(h: &H) -> (r: HashOutput)
        requires
            is_sponge(*h),
        ensures
            r == digest(*h, five_zeros()),
    {
        let leaf = MainPoolConfigLeaf::new(HashOutput::zero(), SubpoolId(F::zero()));
        assert(leaf.preimage() =~= five_zeros());
        leaf.node(h)
    }

    /// A leaf.
    pub fn new(subpool_root: HashOutput, subpool_id: SubpoolId) -> (r: Self)
        ensures
            r == (MainPoolConfigLeaf { subpool_root, subpool_id }),
    {
        MainPoolConfigLeaf { subpool_root, subpool_id }
    }

    /// The hash input: `subpool_root[4] || subpool_id`.
    pub open spec fn preimage(self) -> Seq<F> {
        self.subpool_root.elements() + seq![self.subpool_id.0]
    }

    /// The node of the leaf.
    pub fn node<H: Fn(Vec<F>, usize) -> Vec<F>>(&self, h: &H) -> (r: HashOutput)
        requires
            is_sponge(*h),
        ensures
            r == digest(*h, self.preimage()),
    {
        let mut v: Vec<F> = Vec::new();
        self.subpool_root.append_to(&mut v);
        v.push(self.subpool_id.0);
        assert(v@ =~= self.preimage());
        hash_no_pad(h, v)
    }
}

/// A depth-20 Merkle tree of leaves `H(SubpoolConfigRoot || subpool_id)`, which
/// remembers where each leaf was set last.
pub struct MainPoolConfigTree {
    inner: MerkleTree,
    log: Vec<(MainPoolConfigLeaf, usize)>,
}

impl MainPoolConfigTree {
    /// The index at which each leaf was set last.
    pub closed spec fn places(&self) -> Map<MainPoolConfigLeaf, nat> {
        last_places(self.log@)
    }

    /// The Merkle tree of the subpools.
    pub closed spec fn nodes(&self) -> MerkleTree {
        self.inner
    }

    /// The root of the tree.
    pub open spec fn top(&self) -> HashOutput {
        self.nodes().top()
    }

    /// Whether the nodes are those over the leaves, and the places lie in the tree.
    pub closed spec fn wf<H: Fn(Vec<F>, usize) -> Vec<F>>(&self, h: H) -> bool {
        &&& self.inner.wf(h)
        &&& self.inner.shape()
        &&& self.inner.spec_depth() == 20
        &&& forall|i: int| 0 <= i < self.log@.len() ==> (#[trigger] self.log@[i]).1 < 0x10_0000
    }

    /// The root is that of the tree over the leaves.
    pub proof fn lemma_top<H: Fn(Vec<F>, usize) -> Vec<F>>(&self, h: H)
        requires
            self.wf(h),
        ensures
            self.top() == crate::tree::tree_node(h, self.nodes().leaf_at(), 20, 0),
    {
        self.inner.lemma_top(h);
    }

    /// A tree without subpools.
    pub fn new<H: Fn(Vec<F>, usize) -> Vec<F>>(h: &H) -> (r: Self)
        requires
            is_sponge(*h),
        ensures
            r.wf(*h),
            r.places() == Map::<MainPoolConfigLeaf, nat>::empty(),
            forall|i: nat| #[trigger] (r.nodes().leaf_at())(i) == digest(*h, five_zeros()),
    {
        let inner = MerkleTree::new(h, MAIN_POOL_CONFIG_DEPTH, MainPoolConfigLeaf::empty(h));
        MainPoolConfigTree { inner, log: Vec::new() }
    }

    /// The root of the tree.
    pub fn root<H: Fn(Vec<F>, usize) -> Vec<F>>(&self, h: &H) -> (r: HashOutput)
        requires
            self.wf(*h),
        ensures
            r == self.top(),
    {
        self.inner.root()
    }

    /// Insert or update the entry for `subpool_id` at the given `index` in the tree.
    pub fn set_subpool<H: Fn(Vec<F>, usize) -> Vec<F>>(
        &mut self,
        h: &H,
        index: usize,
        subpool_id: SubpoolId,
        subpool_root: HashOutput,
    )
        requires
            is_sponge(*h),
            old(self).wf(*h),
            index < 0x10_0000,
        ensures
            final(self).wf(*h),
            final(self).places() == old(self).places().insert(
                (MainPoolConfigLeaf { subpool_root, subpool_id }),
                index as nat,
            ),
            forall|i: nat| #[trigger] (final(self).nodes().leaf_at())(i) == (if i == index {
                digest(*h, (MainPoolConfigLeaf { subpool_root, subpool_id }).preimage())
            } else {
                (old(self).nodes().leaf_at())(i)
            }),
    {
        let leaf = MainPoolConfigLeaf::new(subpool_root, subpool_id);
        proof {
            lemma2_to64();
        }
        self.inner.set_leaf(h, index, leaf.node(h));
        let ghost before = self.log@;
        self.log.push((leaf, index));
        assert(self.log@.drop_last() =~= before);
    }

    /// The last place of a leaf.
    fn find(&self, leaf: &MainPoolConfigLeaf) -> (r: Option<usize>)
        ensures
            r is Some == self.places().contains_key(*leaf),
            r matches Some(i) ==> self.places()[*leaf] == i && exists|j: int|
                0 <= j < self.log@.len() && (#[trigger] self.log@[j]).1 == i,
    {
        let mut n: usize = self.log.len();
        assert(self.log@.take(n as int) =~= self.log@);
        while n > 0
            invariant
                n <= self.log@.len(),
                self.places().contains_key(*leaf) == last_places(
                    self.log@.take(n as int),
                ).contains_key(*leaf),
                self.places().contains_key(*leaf) ==> self.places()[*leaf] == last_places(
                    self.log@.take(n as int),
                )[*leaf],
            decreases n,
        {
            let entry = self.log[n - 1];
            assert(self.log@.take(n as int).drop_last() =~= self.log@.take(n - 1));
            if entry.0 == *leaf {
                return Some(entry.1);
            }
            n -= 1;
        }
        None
    }

    /// Whether a proof is the path from the place where a leaf was set last.
    pub open spec fn proves_leaf<H: Fn(Vec<F>, usize) -> Vec<F>>(
        &self,
        h: H,
        leaf: MainPoolConfigLeaf,
        p: MerkleProof,
    ) -> bool {
        let at = self.places()[leaf];
        &&& p.leaf == digest(h, leaf.preimage())
        &&& p.leaf_index == at
        &&& p.root == self.top()
        &&& p.path@.len() == 20
        &&& forall|m: int|
            0 <= m < 20 ==> #[trigger] p.path@[m] == self.nodes().proof_step(
                at / pow2(m as nat),
                m as nat,
            )
    }

    /// Return the Merkle proof for a subpool that was set in this tree, from the
    /// index at which it was set last.
    pub fn subpool_proof<H: Fn(Vec<F>, usize) -> Vec<F>>(
        &self,
        h: &H,
        subpool_id: SubpoolId,
        subpool_root: HashOutput,
    ) -> (r: Option<MerkleProof>)
        requires
            is_sponge(*h),
            self.wf(*h),
        ensures
            r is Some == self.places().contains_key(
                (MainPoolConfigLeaf { subpool_root, subpool_id }),
            ),
            r matches Some(p) ==> self.proves_leaf(
                *h,
                (MainPoolConfigLeaf { subpool_root, subpool_id }),
                p,
            ),
    {
        let leaf = MainPoolConfigLeaf::new(subpool_root, subpool_id);
        match self.find(&leaf) {
            None => None,
            Some(i) => {
                proof {
                    lemma2_to64();
                }
                let p = self.inner.merkle_proof_at(i);
                Some(
                    MerkleProof {
                        leaf: leaf.node(h),
                        leaf_index: p.leaf_index,
                        path: p.path,
                        root: p.root,
                    },
                )
            },
        }
    }

    /// The proof of a subpool verifies where the subpool was not
    /// overwritten since: where the leaf stands at its last place.
    pub proof fn lemma_subpool_proof_verifies<H: Fn(Vec<F>, usize) -> Vec<F>>(
        &self,
        h: H,
        leaf: MainPoolConfigLeaf,
        p: MerkleProof,
    )
        requires
            self.wf(h),
            self.places().contains_key(leaf),
            self.proves_leaf(h, leaf, p),
            (self.nodes().leaf_at())(self.places()[leaf]) == digest(h, leaf.preimage()),
        ensures
            path_root(h, p.leaf, p.path@) == p.root,
    {
        lemma2_to64();
        lemma_places_in_log(self.log@, leaf);
        self.inner.lemma_proof_verifies(h, self.places()[leaf], p);
    }

    /// Return proofs for all three authority keys in `subpool` plus the subpool's
    /// own proof inside this main pool tree.
    pub fn full_subpool_proof<H: Fn(Vec<F>, usize) -> Vec<F>>(
        &self,
        h: &H,
        subpool: &SubpoolConfigTree,
        subpool_id: SubpoolId,
    ) -> (r: Option<SubpoolFullProof>)
        requires
            is_sponge(*h),
            self.wf(*h),
            subpool.wf(*h),
        ensures
            r is Some == self.places().contains_key(
                (MainPoolConfigLeaf { subpool_root: subpool.top(), subpool_id }),
            ),
            r matches Some(p) ==> {
                &&& subpool.proves_key(*h, subpool.approval_key, p.approval_proof)
                &&& subpool.proves_key(*h, subpool.rejection_key, p.rejection_proof)
                &&& subpool.proves_key(*h, subpool.consume_key, p.consume_proof)
                &&& self.proves_leaf(
                    *h,
                    (MainPoolConfigLeaf { subpool_root: subpool.top(), subpool_id }),
                    p.main_pool_proof,
                )
            },
    {
        match self.subpool_proof(h, subpool_id, subpool.root(h)) {
            None => None,
            Some(main_pool_proof) => Some(
                SubpoolFullProof {
                    approval_proof: subpool.approval_key_proof(h),
                    rejection_proof: subpool.rejection_key_proof(h),
                    consume_proof: subpool.consume_key_proof(h),
                    main_pool_proof,
                },
            ),
        }
    }
}

/// All three subpool authority-key proofs (relative to the SubpoolConfigRoot)
/// together with the subpool's proof inside the [`MainPoolConfigTree`].
pub struct SubpoolFullProof {
    pub approval_proof: MerkleProof,
    pub rejection_proof: MerkleProof,
    pub consume_proof: MerkleProof,
    pub main_pool_proof: MerkleProof,
}

} // verus!
