//! Paths in the commitment tree.
//!
//! Up to the level below the root, nodes are compressed in pairs as in any other
//! Merkle tree. The root is the hash of the number of leaves and the two nodes
//! below it.
use vstd::prelude::*;

use crate::field::{F, GOLDILOCKS_ORDER};
use crate::hash::{digest, digest_pair, hash_no_pad, is_sponge, two_to_one, HashOutput};

verus! {

/// A path in the commitment tree.
pub struct CommitmentTreeMerkleProof {
    pub path: Vec<HashOutput>,
    pub num_leaves: usize,
    pub pos: usize,
}

/// Bit `j` of a position.
pub open spec fn position_bit(pos: nat, j: nat) -> bool {
    (pos / vstd::arithmetic::power2::pow2(j)) % 2 == 1
}

impl CommitmentTreeMerkleProof {
    /// A path of the given depth.
    pub fn new(path: Vec<HashOutput>, pos: usize, num_leaves: usize, depth: usize) -> (r: Self)
        requires
            path@.len() == depth,
        ensures
            r.path == path,
            r.pos == pos,
            r.num_leaves == num_leaves,
    {
        CommitmentTreeMerkleProof { path, num_leaves, pos }
    }

    /// The siblings, and for each level the bit of the position: whether the
    /// sibling is on the left.
    pub fn extract_siblings_bits(&self) -> (r: (Vec<HashOutput>, Vec<bool>))
        ensures
            r.0@ == self.path@,
            r.1@.len() == self.path@.len(),
            forall|j: int|
                0 <= j < self.path@.len() ==> #[trigger] r.1@[j] == position_bit(
                    self.pos as nat,
                    j as nat,
                ),
    {
        let mut siblings: Vec<HashOutput> = Vec::new();
        let mut bits: Vec<bool> = Vec::new();
        let mut rest: usize = self.pos;
        let mut j: usize = 0;
        proof {
            vstd::arithmetic::power2::lemma2_to64();
            vstd::arithmetic::div_mod::lemma_div_basics(self.pos as int);
        }
        while j < self.path.len()
            invariant
                j <= self.path@.len(),
                rest == self.pos as nat / vstd::arithmetic::power2::pow2(j as nat),
                siblings@ == self.path@.take(j as int),
                bits@.len() == j,
                forall|k: int|
                    0 <= k < j ==> #[trigger] bits@[k] == position_bit(self.pos as nat, k as nat),
            decreases self.path@.len() - j,
        {
            siblings.push(self.path[j]);
            bits.push(rest % 2 == 1);
            proof {
                let p = vstd::arithmetic::power2::pow2(j as nat) as int;
                vstd::arithmetic::power2::lemma_pow2_pos(j as nat);
                vstd::arithmetic::power2::lemma_pow2_adds(1, j as nat);
                vstd::arithmetic::power2::lemma2_to64();
                vstd::arithmetic::div_mod::lemma_div_denominator(self.pos as int, p, 2);
                assert(p * 2 == vstd::arithmetic::power2::pow2((j + 1) as nat));
            }
            rest = rest / 2;
            j += 1;
            assert(siblings@ =~= self.path@.take(j as int));
        }
        assert(siblings@ =~= self.path@);
        (siblings, bits)
    }
}

/// The values of the wires of a path in the commitment tree.
pub struct CommitmentTreeMerkleTarget {
    pub siblings: Vec<HashOutput>,
    pub bits: Vec<bool>,
    pub num_leaves: F,
}

/// The node that the first levels of a path lead to.
pub open spec fn climb<H: Fn(Vec<F>, usize) -> Vec<F>>(
    h: H,
    leaf: HashOutput,
    siblings: Seq<HashOutput>,
    bits: Seq<bool>,
    levels: nat,
) -> HashOutput
    decreases levels,
{
    if levels == 0 {
        leaf
    } else {
        let below = climb(h, leaf, siblings, bits, (levels - 1) as nat);
        let sibling = siblings[levels - 1];
        if bits[levels - 1] {
            digest_pair(h, sibling, below)
        } else {
            digest_pair(h, below, sibling)
        }
    }
}

/// The hash input of a root: `num_leaves || left || right`.
pub open spec fn root_preimage(num_leaves: F, left: HashOutput, right: HashOutput) -> Seq<F> {
    seq![num_leaves] + left.elements() + right.elements()
}

/// The root that a path leads to.
pub open spec fn commitment_root<H: Fn(Vec<F>, usize) -> Vec<F>>(
    h: H,
    leaf: HashOutput,
    t: CommitmentTreeMerkleTarget,
) -> HashOutput {
    let n = t.siblings@.len();
    if n == 0 {
        leaf
    } else {
        let below = climb(h, leaf, t.siblings@, t.bits@, (n - 1) as nat);
        let sibling = t.siblings@[n - 1];
        if t.bits@[n - 1] {
            digest(h, root_preimage(t.num_leaves, sibling, below))
        } else {
            digest(h, root_preimage(t.num_leaves, below, sibling))
        }
    }
}

impl CommitmentTreeMerkleTarget {
    /// The wires for a path.
    pub fn set_witness(p: &CommitmentTreeMerkleProof) -> (r: Self)
        requires
            p.num_leaves < GOLDILOCKS_ORDER,
        ensures
            r.siblings@ == p.path@,
            r.bits@.len() == p.path@.len(),
            forall|j: int|
                0 <= j < p.path@.len() ==> #[trigger] r.bits@[j] == position_bit(
                    p.pos as nat,
                    j as nat,
                ),
            r.num_leaves == F::of(p.num_leaves as int),
    {
        let (siblings, bits) = p.extract_siblings_bits();
        CommitmentTreeMerkleTarget {
            siblings,
            bits,
            num_leaves: F::from_canonical_u64(p.num_leaves as u64),
        }
    }

    /// Wires of zeros, for a path that is not checked.
    pub fn set_dummy_witness(depth: usize) -> (r: Self)
        ensures
            r.siblings@.len() == depth,
            r.bits@.len() == depth,
            forall|j: int|
                0 <= j < depth ==> #[trigger] r.siblings@[j] == HashOutput(
                    F::of(0),
                    F::of(0),
                    F::of(0),
                    F::of(0),
                ),
            forall|j: int| 0 <= j < depth ==> !#[trigger] r.bits@[j],
            r.num_leaves == F::of(0),
    {
        let mut siblings: Vec<HashOutput> = Vec::new();
        let mut bits: Vec<bool> = Vec::new();
        let mut j: usize = 0;
        while j < depth
            invariant
                j <= depth,
                siblings@.len() == j,
                bits@.len() == j,
                forall|k: int|
                    0 <= k < j ==> #[trigger] siblings@[k] == HashOutput(
                        F::of(0),
                        F::of(0),
                        F::of(0),
                        F::of(0),
                    ),
                forall|k: int| 0 <= k < j ==> !#[trigger] bits@[k],
            decreases depth - j,
        {
            siblings.push(HashOutput::zero());
            bits.push(false);
            j += 1;
        }
        CommitmentTreeMerkleTarget { siblings, bits, num_leaves: F::zero() }
    }
}

/// Verifies a path in the commitment tree where it is selected; where it is not,
/// any path of the right depth will do.
pub fn conditional_merkle_verify_commitment_tree_gadget<H: Fn(Vec<F>, usize) -> Vec<F>>(
    h: &H,
    leaf: HashOutput,
    expected_root: HashOutput,
    selector: bool,
    t: &CommitmentTreeMerkleTarget,
    depth: usize,
) -> (r: bool)
    requires
        is_sponge(*h),
    ensures
        r == (t.siblings@.len() == depth && t.bits@.len() == depth && (selector
            ==> commitment_root(*h, leaf, *t) == expected_root)),
{
    if t.siblings.len() != depth || t.bits.len() != depth {
        return false;
    }
    let mut current = leaf;
    let mut level: usize = 0;
    while level < depth
        invariant
            level <= depth,
            is_sponge(*h),
            t.siblings@.len() == depth,
            t.bits@.len() == depth,
            current == (if level > 0 && level == depth {
                commitment_root(*h, leaf, *t)
            } else {
                climb(*h, leaf, t.siblings@, t.bits@, level as nat)
            }),
        decreases depth - level,
    {
        let sibling = t.siblings[level];
        let (left, right) = if t.bits[level] {
            (sibling, current)
        } else {
            (current, sibling)
        };
        if level == depth - 1 {
            let mut v: Vec<F> = Vec::new();
            v.push(t.num_leaves);
            left.append_to(&mut v);
            right.append_to(&mut v);
            assert(v@ =~= root_preimage(t.num_leaves, left, right));
            current = hash_no_pad(h, v);
        } else {
            current = two_to_one(h, left, right);
        }
        level += 1;
    }
    !selector || current == expected_root
}

} // verus!
