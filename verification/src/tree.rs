//! Merkle trees of digests: a fixed depth, leaves that are empty until they are
//! set, and proofs of what stands at a leaf.
use vstd::arithmetic::div_mod::lemma_div_denominator;
use vstd::arithmetic::power2::{
    lemma2_to64, lemma_pow2_adds, lemma_pow2_pos, lemma_pow2_strictly_increases, lemma_pow2_unfold,
    pow2,
};
use vstd::prelude::*;

use crate::field::F;
use crate::hash::{digest_pair, is_sponge, two_to_one, HashOutput};

verus! {

/// The node at level `l` (leaves are level zero) and position `i` of the tree
/// whose leaf at position `j` is `leaves(j)`.
pub open spec fn tree_node<H: Fn(Vec<F>, usize) -> Vec<F>>(
    h: H,
    leaves: spec_fn(nat) -> HashOutput,
    l: nat,
    i: nat,
) -> HashOutput
    decreases l,
{
    if l == 0 {
        leaves(i)
    } else {
        digest_pair(
            h,
            tree_node(h, leaves, (l - 1) as nat, 2 * i),
            tree_node(h, leaves, (l - 1) as nat, 2 * i + 1),
        )
    }
}

/// A node depends only on the leaves below it.
pub proof fn lemma_node_local<H: Fn(Vec<F>, usize) -> Vec<F>>(
    h: H,
    f: spec_fn(nat) -> HashOutput,
    g: spec_fn(nat) -> HashOutput,
    l: nat,
    i: nat,
)
    requires
        forall|j: nat| j / pow2(l) == i ==> #[trigger] f(j) == g(j),
    ensures
        tree_node(h, f, l, i) == tree_node(h, g, l, i),
    decreases l,
{
    if l == 0 {
        lemma2_to64();
        vstd::arithmetic::div_mod::lemma_div_basics(i as int);
        assert(i / pow2(0) == i);
    } else {
        let m = (l - 1) as nat;
        assert forall|j: nat| (j / pow2(m) == 2 * i || j / pow2(m) == 2 * i + 1) implies #[trigger] f(j) == g(
            j,
        ) by {
            lemma_up_one_level(j, m);
        }
        lemma_node_local(h, f, g, m, 2 * i);
        lemma_node_local(h, f, g, m, 2 * i + 1);
    }
}

proof fn lemma_up_one_level(j: nat, m: nat)
    ensures
        j / pow2(m + 1) == (j / pow2(m)) / 2,
{
    lemma_pow2_adds(m, 1);
    lemma2_to64();
    lemma_pow2_pos(m);
    lemma_div_denominator(j as int, pow2(m) as int, 2);
}

/// Changing one leaf changes only the nodes above it.
pub proof fn lemma_node_update<H: Fn(Vec<F>, usize) -> Vec<F>>(
    h: H,
    f: spec_fn(nat) -> HashOutput,
    g: spec_fn(nat) -> HashOutput,
    index: nat,
    l: nat,
    i: nat,
)
    requires
        forall|j: nat| j != index ==> #[trigger] f(j) == g(j),
        i != index / pow2(l),
    ensures
        tree_node(h, f, l, i) == tree_node(h, g, l, i),
{
    lemma_node_local(h, f, g, l, i);
}

/// Direction in the Merkle path (indicates position of sibling).
#[derive(Clone, Copy, Debug, PartialEq, Eq, Structural)]
pub enum Direction {
    /// Sibling is on the left (current node is right child)
    Left,
    /// Sibling is on the right (current node is left child)
    Right,
}

/// A single step in a Merkle proof.
#[derive(Clone, Copy, Debug, PartialEq, Eq, Structural)]
pub struct MerkleProofStep {
    /// The sibling hash at this level
    pub sibling: HashOutput,
    /// Whether the sibling is on the left or right
    pub direction: Direction,
}

/// A complete Merkle proof for a leaf.
pub struct MerkleProof {
    /// The leaf being proven
    pub leaf: HashOutput,
    /// The index of the leaf in the tree
    pub leaf_index: usize,
    /// The path from leaf to root
    pub path: Vec<MerkleProofStep>,
    /// The root hash
    pub root: HashOutput,
}

/// One step up from a node.
pub open spec fn step_up<H: Fn(Vec<F>, usize) -> Vec<F>>(
    h: H,
    node: HashOutput,
    step: MerkleProofStep,
) -> HashOutput {
    match step.direction {
        Direction::Left => digest_pair(h, step.sibling, node),
        Direction::Right => digest_pair(h, node, step.sibling),
    }
}

/// The root that a path leads to.
pub open spec fn path_root<H: Fn(Vec<F>, usize) -> Vec<F>>(
    h: H,
    leaf: HashOutput,
    path: Seq<MerkleProofStep>,
) -> HashOutput
    decreases path.len(),
{
    if path.len() == 0 {
        leaf
    } else {
        step_up(h, path_root(h, leaf, path.drop_last()), path.last())
    }
}

impl MerkleProof {
    /// Verify the Merkle proof: whether the path leads from the leaf to the root.
    pub fn verify<H: Fn(Vec<F>, usize) -> Vec<F>>(&self, h: &H) -> (r: bool)
        requires
            is_sponge(*h),
        ensures
            r == (path_root(*h, self.leaf, self.path@) == self.root),
    {
        let mut current = self.leaf;
        let mut i: usize = 0;
        while i < self.path.len()
            invariant
                i <= self.path@.len(),
                is_sponge(*h),
                current == path_root(*h, self.leaf, self.path@.take(i as int)),
            decreases self.path@.len() - i,
        {
            let step = self.path[i];
            assert(self.path@.take(i + 1).drop_last() =~= self.path@.take(i as int));
            current = match step.direction {
                Direction::Left => two_to_one(h, step.sibling, current),
                Direction::Right => two_to_one(h, current, step.sibling),
            };
            i += 1;
        }
        assert(self.path@.take(i as int) =~= self.path@);
        current == self.root
    }

    /// The siblings, and for each level whether the sibling is on the left.
    pub fn extract_siblings_bits(&self) -> (r: (Vec<HashOutput>, Vec<bool>))
        ensures
            r.0@ == self.path@.map_values(|s: MerkleProofStep| s.sibling),
            r.1@ == self.path@.map_values(|s: MerkleProofStep| s.direction == Direction::Left),
    {
        let mut siblings: Vec<HashOutput> = Vec::new();
        let mut bits: Vec<bool> = Vec::new();
        let mut i: usize = 0;
        while i < self.path.len()
            invariant
                i <= self.path@.len(),
                siblings@.len() == i,
                bits@.len() == i,
                forall|j: int| 0 <= j < i ==> siblings@[j] == self.path@[j].sibling,
                forall|j: int|
                    0 <= j < i ==> bits@[j] == (self.path@[j].direction == Direction::Left),
            decreases self.path@.len() - i,
        {
            siblings.push(self.path[i].sibling);
            bits.push(self.path[i].direction == Direction::Left);
            i += 1;
        }
        assert(siblings@ =~= self.path@.map_values(|s: MerkleProofStep| s.sibling));
        assert(bits@ =~= self.path@.map_values(
            |s: MerkleProofStep| s.direction == Direction::Left,
        ));
        (siblings, bits)
    }

    /// The root that the proof speaks of.
    pub fn extract_root(&self) -> (r: HashOutput)
        ensures
            r == self.root,
    {
        self.root
    }
}

/// The index that the sides of a path spell, least significant bit first: a
/// sibling on the left is a one.
pub open spec fn path_index(path: Seq<MerkleProofStep>) -> nat
    decreases path.len(),
{
    if path.len() == 0 {
        0
    } else {
        (if path[0].direction == Direction::Left {
            1nat
        } else {
            0nat
        }) + 2 * path_index(path.drop_first())
    }
}

/// Why a leaf cannot be inserted.
#[derive(Clone, Copy, Debug, PartialEq, Eq, Structural)]
pub enum MerkleTreeError {
    /// Every leaf has been set.
    CapacityReached,
}

/// Where each leaf of a log was set last.
pub open spec fn last_places<L>(log: Seq<(L, usize)>) -> Map<L, nat>
    decreases log.len(),
{
    if log.len() == 0 {
        Map::empty()
    } else {
        last_places(log.drop_last()).insert(log.last().0, log.last().1 as nat)
    }
}

/// A place is one of the log.
pub proof fn lemma_places_in_log<L>(log: Seq<(L, usize)>, leaf: L)
    requires
        last_places(log).contains_key(leaf),
    ensures
        exists|i: int|
            0 <= i < log.len() && (#[trigger] log[i]).1 == last_places(log)[leaf],
    decreases log.len(),
{
    if log.len() == 0 {
    } else if log.last().0 == leaf {
        assert(log[log.len() - 1] == log.last());
    } else {
        lemma_places_in_log(log.drop_last(), leaf);
        let i = choose|i: int|
            0 <= i < log.len() - 1 && (#[trigger] log.drop_last()[i]).1 == last_places(
                log.drop_last(),
            )[leaf];
        assert(log[i] == log.drop_last()[i]);
    }
}

/// A Merkle tree of fixed depth. Leaves that were never set hold the empty leaf.
///
/// Level `l` stores a prefix of its nodes; the nodes beyond it are those of an
/// empty tree. The tree remembers where each leaf was set last.
pub struct MerkleTree {
    depth: usize,
    levels: Vec<Vec<HashOutput>>,
    defaults: Vec<HashOutput>,
    next_index: u64,
    log: Vec<(HashOutput, usize)>,
}

impl MerkleTree {
    /// The depth of the tree.
    pub closed spec fn spec_depth(&self) -> nat {
        self.depth as nat
    }

    /// The leaf at every position.
    pub closed spec fn leaf_at(&self) -> spec_fn(nat) -> HashOutput {
        |i: nat| self.node_at(0, i)
    }

    /// The leaf of a position that was never set.
    pub closed spec fn empty_leaf(&self) -> HashOutput {
        self.defaults@[0]
    }

    /// Index of the next leaf to insert.
    pub closed spec fn spec_next(&self) -> nat {
        self.next_index as nat
    }

    /// The index at which each leaf was set last.
    pub closed spec fn places(&self) -> Map<HashOutput, nat> {
        last_places(self.log@)
    }

    /// The node that the tree holds at level `l` and position `i`.
    pub closed spec fn node_at(&self, l: nat, i: nat) -> HashOutput {
        if i < self.levels@[l as int]@.len() {
            self.levels@[l as int]@[i as int]
        } else {
            self.defaults@[l as int]
        }
    }

    /// The sizes of the parts, as every operation keeps them.
    pub closed spec fn shape(&self) -> bool {
        &&& self.depth <= 32
        &&& self.levels@.len() == self.depth + 1
        &&& self.defaults@.len() == self.depth + 1
        &&& self.next_index <= pow2(self.depth as nat)
        &&& forall|l: int|
            0 <= l <= self.depth ==> (#[trigger] self.levels@[l])@.len() <= pow2(
                (self.depth - l) as nat,
            )
        &&& forall|i: int|
            0 <= i < self.log@.len() ==> (#[trigger] self.log@[i]).1 < pow2(self.depth as nat)
    }

    /// Whether the stored nodes are the nodes of the tree over the leaves.
    pub closed spec fn wf<H: Fn(Vec<F>, usize) -> Vec<F>>(&self, h: H) -> bool {
        &&& self.shape()
        &&& forall|l: nat, i: nat|
            l <= self.depth && i < pow2((self.depth - l) as nat) ==> #[trigger] self.node_at(l, i)
                == tree_node(h, self.leaf_at(), l, i)
    }

    /// The root of the tree.
    pub closed spec fn top(&self) -> HashOutput {
        self.node_at(self.depth as nat, 0)
    }

    /// The root is the node at the top of the tree over the leaves.
    pub proof fn lemma_top<H: Fn(Vec<F>, usize) -> Vec<F>>(&self, h: H)
        requires
            self.wf(h),
        ensures
            self.top() == tree_node(h, self.leaf_at(), self.spec_depth(), 0),
    {
        lemma2_to64();
    }

    /// An empty tree.
    pub fn new<H: Fn(Vec<F>, usize) -> Vec<F>>(h: &H, depth: usize, empty: HashOutput) -> (r: Self)
        requires
            is_sponge(*h),
            depth <= 32,
        ensures
            r.wf(*h),
            r.shape(),
            r.spec_depth() == depth,
            r.spec_next() == 0,
            r.empty_leaf() == empty,
            r.places() == Map::<HashOutput, nat>::empty(),
            forall|i: nat| #[trigger] (r.leaf_at())(i) == empty,
    {
        let mut defaults: Vec<HashOutput> = Vec::new();
        let mut levels: Vec<Vec<HashOutput>> = Vec::new();
        let mut current = empty;
        defaults.push(current);
        levels.push(Vec::new());
        let ghost leaves = |i: nat| empty;
        let mut l: usize = 0;
        while l < depth
            invariant
                l <= depth <= 32,
                is_sponge(*h),
                leaves == (|i: nat| empty),
                defaults@.len() == l + 1,
                levels@.len() == l + 1,
                defaults@[0] == empty,
                current == defaults@[l as int],
                forall|m: int| 0 <= m <= l ==> (#[trigger] levels@[m])@.len() == 0,
                forall|m: nat, i: nat|
                    m <= l ==> defaults@[m as int] == #[trigger] tree_node(*h, leaves, m, i),
            decreases depth - l,
        {
            let ghost next = (l + 1) as nat;
            current = two_to_one(h, current, current);
            proof {
                assert forall|i: nat| current == #[trigger] tree_node(*h, leaves, next, i) by {
                    assert(tree_node(*h, leaves, l as nat, 2 * i) == defaults@[l as int]);
                    assert(tree_node(*h, leaves, l as nat, 2 * i + 1) == defaults@[l as int]);
                }
            }
            let ghost known = defaults@;
            defaults.push(current);
            levels.push(Vec::new());
            l += 1;
            proof {
                assert forall|m: nat, i: nat| m <= l implies defaults@[m as int]
                    == #[trigger] tree_node(*h, leaves, m, i) by {
                    if m < l {
                        assert(defaults@[m as int] == known[m as int]);
                        assert(known[m as int] == tree_node(*h, leaves, m, i));
                    } else {
                        assert(m == next);
                    }
                }
            }
        }
        proof {
            lemma_pow2_pos(depth as nat);
            assert forall|m: int| 0 <= m <= depth implies (#[trigger] levels@[m])@.len() <= pow2(
                (depth - m) as nat,
            ) by {
                lemma_pow2_pos((depth - m) as nat);
            }
        }
        let r = MerkleTree { depth, levels, defaults, next_index: 0, log: Vec::new() };
        proof {
            assert(r.leaf_at() =~= leaves);
            assert forall|m: nat, i: nat|
                m <= depth && i < pow2((depth - m) as nat) implies #[trigger] r.node_at(m, i)
                == tree_node(*h, r.leaf_at(), m, i) by {
                assert(r.levels@[m as int]@.len() == 0);
                assert(r.defaults@[m as int] == tree_node(*h, leaves, m, i));
            }
        }
        r
    }

    /// The root of the tree.
    pub fn root(&self) -> (r: HashOutput)
        requires
            self.shape(),
        ensures
            r == self.top(),
    {
        self.node(self.depth, 0)
    }

    /// A node, stored or not.
    fn node(&self, l: usize, i: usize) -> (r: HashOutput)
        requires
            self.shape(),
            l <= self.depth,
        ensures
            r == self.node_at(l as nat, i as nat),
    {
        if i < self.levels[l].len() {
            self.levels[l][i]
        } else {
            self.defaults[l]
        }
    }

    /// Whether two trees hold the same nodes.
    pub open spec fn same_as(&self, other: &Self) -> bool {
        &&& self.spec_depth() == other.spec_depth()
        &&& self.spec_next() == other.spec_next()
        &&& self.empty_leaf() == other.empty_leaf()
        &&& self.shape() == other.shape()
        &&& self.top() == other.top()
        &&& self.leaf_at() == other.leaf_at()
        &&& self.places() == other.places()
        &&& forall|l: nat, i: nat|
            l <= self.spec_depth() ==> #[trigger] self.node_at(l, i) == other.node_at(l, i)
    }

    /// Trees with the same nodes are trees over the same leaves.
    pub proof fn lemma_same_wf<H: Fn(Vec<F>, usize) -> Vec<F>>(&self, other: &Self, h: H)
        requires
            self.same_as(other),
            self.wf(h),
        ensures
            other.wf(h),
    {
        assert forall|l: nat, i: nat|
            l <= other.depth && i < pow2((other.depth - l) as nat) implies #[trigger] other.node_at(
            l,
            i,
        ) == tree_node(h, other.leaf_at(), l, i) by {
            assert(self.node_at(l, i) == tree_node(h, self.leaf_at(), l, i));
        }
    }

    /// A copy of the tree.
    pub fn duplicate(&self) -> (r: Self)
        requires
            self.shape(),
        ensures
            self.same_as(&r),
            r.shape(),
    {
        let mut levels: Vec<Vec<HashOutput>> = Vec::new();
        let mut defaults: Vec<HashOutput> = Vec::new();
        let mut l: usize = 0;
        while l <= self.depth
            invariant
                self.shape(),
                l <= self.depth + 1,
                levels@.len() == l,
                defaults@.len() == l,
                forall|m: int| 0 <= m < l ==> (#[trigger] levels@[m])@ == self.levels@[m]@,
                forall|m: int| 0 <= m < l ==> #[trigger] defaults@[m] == self.defaults@[m],
            decreases self.depth + 1 - l,
        {
            let mut level: Vec<HashOutput> = Vec::new();
            let n: usize = self.levels[l].len();
            let mut j: usize = 0;
            while j < n
                invariant
                    self.shape(),
                    l <= self.depth,
                    j <= n,
                    n == self.levels@[l as int]@.len(),
                    level@ == self.levels@[l as int]@.take(j as int),
                decreases n - j,
            {
                level.push(self.levels[l][j]);
                j += 1;
                assert(level@ =~= self.levels@[l as int]@.take(j as int));
            }
            assert(level@ =~= self.levels@[l as int]@);
            levels.push(level);
            defaults.push(self.defaults[l]);
            l += 1;
        }
        let mut log: Vec<(HashOutput, usize)> = Vec::new();
        let mut i: usize = 0;
        while i < self.log.len()
            invariant
                i <= self.log@.len(),
                log@ == self.log@.take(i as int),
            decreases self.log@.len() - i,
        {
            log.push(self.log[i]);
            i += 1;
            assert(log@ =~= self.log@.take(i as int));
        }
        assert(log@ =~= self.log@);
        let r = MerkleTree {
            depth: self.depth,
            levels,
            defaults,
            next_index: self.next_index,
            log,
        };
        proof {
            assert forall|m: int| 0 <= m <= r.depth implies (#[trigger] r.levels@[m])@.len() <= pow2(
                (r.depth - m) as nat,
            ) by {
                assert(self.levels@[m]@.len() <= pow2((self.depth - m) as nat));
            }
            assert forall|m: nat, i: nat| m <= self.depth implies #[trigger] self.node_at(m, i)
                == r.node_at(m, i) by {
                assert(r.levels@[m as int]@ == self.levels@[m as int]@);
            }
            assert(self.leaf_at() =~= r.leaf_at());
        }
        r
    }

    /// The number of leaves inserted so far.
    pub fn next_index(&self) -> (r: u64)
        ensures
            r == self.spec_next(),
    {
        self.next_index
    }

    /// The number of leaves inserted so far.
    pub fn num_leaves(&self) -> (r: u64)
        ensures
            r == self.spec_next(),
    {
        self.next_index
    }

    /// The number of leaves inserted so far.
    pub fn size(&self) -> (r: u64)
        ensures
            r == self.spec_next(),
    {
        self.next_index
    }

    /// The first position among the leaves inserted so far that holds a leaf.
    pub fn position(&self, leaf: HashOutput) -> (r: Option<usize>)
        requires
            self.shape(),
        ensures
            r matches Some(i) ==> i < self.spec_next() && (self.leaf_at())(i as nat) == leaf
                && forall|j: nat| j < i ==> #[trigger] (self.leaf_at())(j) != leaf,
            r is None ==> forall|j: nat|
                j < self.spec_next() ==> #[trigger] (self.leaf_at())(j) != leaf,
    {
        let mut i: u64 = 0;
        while i < self.next_index
            invariant
                self.shape(),
                i <= self.next_index,
                forall|j: nat| j < i ==> #[trigger] (self.leaf_at())(j) != leaf,
            decreases self.next_index - i,
        {
            proof {
                lemma_next_fits(i, self.depth);
            }
            if self.node(0, i as usize) == leaf {
                return Some(i as usize);
            }
            i += 1;
        }
        None
    }

    /// The depth of the tree.
    pub fn depth(&self) -> (r: usize)
        requires
            self.shape(),
        ensures
            r == self.spec_depth(),
            r <= 32,
    {
        self.depth
    }

    /// The number of leaves that the tree can hold.
    pub fn capacity(&self) -> (r: u64)
        requires
            self.shape(),
        ensures
            r == pow2(self.spec_depth()),
    {
        proof {
            let k = self.depth as u64;
            lemma2_to64();
            if k < 32 {
                lemma_pow2_strictly_increases(k as nat, 32);
            }
            vstd::bits::lemma_u64_shl_is_mul(1, k);
        }
        1u64 << (self.depth as u64)
    }

    /// No more leaves are inserted than there is room for.
    pub proof fn lemma_next_in_range(&self)
        requires
            self.shape(),
        ensures
            self.spec_next() <= pow2(self.spec_depth()),
    {
    }

    /// A tree over its leaves has the shape of a tree.
    pub proof fn lemma_wf_shape<H: Fn(Vec<F>, usize) -> Vec<F>>(&self, h: H)
        requires
            self.wf(h),
        ensures
            self.shape(),
    {
    }

    /// Whether every leaf has been inserted.
    pub fn is_full(&self) -> (r: bool)
        requires
            self.shape(),
        ensures
            r == (self.spec_next() >= pow2(self.spec_depth())),
    {
        self.next_index >= self.capacity()
    }

    /// Replaces a node, and stores the nodes before it.
    fn set_node(&mut self, l: usize, i: usize, node: HashOutput)
        requires
            old(self).shape(),
            l <= old(self).depth,
            i < pow2((old(self).depth - l) as nat),
        ensures
            final(self).shape(),
            final(self).depth == old(self).depth,
            final(self).defaults == old(self).defaults,
            final(self).next_index == old(self).next_index,
            final(self).log == old(self).log,
            forall|m: nat, j: nat|
                m <= old(self).depth ==> #[trigger] final(self).node_at(m, j) == (if m == l && j
                    == i {
                    node
                } else {
                    old(self).node_at(m, j)
                }),
    {
        let fill = self.defaults[l];
        let mut level: Vec<HashOutput> = Vec::new();
        let ghost before = *self;
        let ghost old_level = self.levels@[l as int]@;
        let n: usize = self.levels[l].len();
        let mut j: usize = 0;
        while j < n
            invariant
                l <= self.depth,
                *self == before,
                before.shape(),
                j <= n,
                n == old_level.len(),
                old_level == self.levels@[l as int]@,
                level@.len() == j,
                forall|k: int| 0 <= k < j ==> level@[k] == old_level[k],
            decreases n - j,
        {
            level.push(self.levels[l][j]);
            j += 1;
        }
        while level.len() <= i
            invariant
                n == old_level.len(),
                level@.len() >= n,
                level@.len() <= n || level@.len() <= i + 1,
                forall|k: int|
                    0 <= k < level@.len() ==> level@[k] == (if k < n {
                        old_level[k]
                    } else {
                        fill
                    }),
            decreases i + 1 - level@.len(),
        {
            level.push(fill);
        }
        level.set(i, node);
        proof {
            assert forall|m: int| 0 <= m <= before.depth implies #[trigger] before.levels@.update(
                l as int,
                level,
            )[m]@.len() <= pow2((before.depth - m) as nat) by {
                assert(before.levels@[m]@.len() <= pow2((before.depth - m) as nat));
            }
        }
        self.levels.set(l, level);
        proof {
            assert forall|m: nat, j: nat| m <= before.depth implies #[trigger] self.node_at(m, j)
                == (if m == l && j == i {
                node
            } else {
                before.node_at(m, j)
            }) by {
                if m != l {
                    assert(self.levels@[m as int] == before.levels@[m as int]);
                }
            }
        }
    }

    /// Sets the leaf at an index.
    pub fn set_leaf<H: Fn(Vec<F>, usize) -> Vec<F>>(&mut self, h: &H, index: usize, leaf: HashOutput)
        requires
            is_sponge(*h),
            old(self).wf(*h),
            index < pow2(old(self).spec_depth()),
        ensures
            final(self).wf(*h),
            final(self).shape(),
            final(self).spec_depth() == old(self).spec_depth(),
            final(self).spec_next() == old(self).spec_next(),
            final(self).empty_leaf() == old(self).empty_leaf(),
            final(self).places() == old(self).places().insert(leaf, index as nat),
            forall|i: nat| #[trigger] (final(self).leaf_at())(i) == (if i == index {
                leaf
            } else {
                (old(self).leaf_at())(i)
            }),
    {
        let ghost before = *self;
        let ghost f = before.leaf_at();
        let ghost g = |i: nat| if i == index { leaf } else { f(i) };
        let depth = self.depth();
        proof {
            lemma2_to64();
            vstd::arithmetic::div_mod::lemma_div_basics(index as int);
        }
        self.set_node(0, index, leaf);
        let mut at: usize = index;
        let mut l: usize = 0;
        proof {
            assert forall|m: nat, j: nat|
                m <= depth && j < pow2((depth - m) as nat) implies #[trigger] self.node_at(m, j)
                == (if m == 0 {
                tree_node(*h, g, m, j)
            } else {
                tree_node(*h, f, m, j)
            }) by {
                assert(before.node_at(m, j) == tree_node(*h, f, m, j));
            }
        }
        while l < depth
            invariant
                is_sponge(*h),
                l <= depth <= 32,
                depth == self.depth,
                self.shape(),
                self.defaults == before.defaults,
                self.next_index == before.next_index,
                self.log == before.log,
                before.depth == depth,
                at == index as nat / pow2(l as nat),
                at < pow2((depth - l) as nat),
                f == before.leaf_at(),
                g == (|i: nat| if i == index { leaf } else { f(i) }),
                forall|j: nat| #[trigger] self.node_at(0, j) == g(j),
                forall|m: nat, j: nat|
                    m <= depth && j < pow2((depth - m) as nat) ==> #[trigger] self.node_at(m, j)
                        == (if m <= l {
                        tree_node(*h, g, m, j)
                    } else {
                        tree_node(*h, f, m, j)
                    }),
            decreases depth - l,
        {
            let up: usize = at / 2;
            let ghost mid = *self;
            proof {
                lemma_up_one_level(index as nat, l as nat);
                lemma_pow2_adds(1, (depth - l - 1) as nat);
                lemma2_to64();
                assert(pow2((depth - l) as nat) == 2 * pow2((depth - l - 1) as nat));
                assert(up < pow2((depth - (l + 1)) as nat));
                lemma_index_fits(at, depth);
            }
            let left = self.node(l, up * 2);
            let right = self.node(l, up * 2 + 1);
            let parent = two_to_one(h, left, right);
            self.set_node(l + 1, up, parent);
            proof {
                assert(parent == tree_node(*h, g, (l + 1) as nat, up as nat)) by {
                    assert(mid.node_at(l as nat, 2 * up as nat) == tree_node(*h, g, l as nat, 2 * up as nat));
                    assert(mid.node_at(l as nat, (2 * up + 1) as nat) == tree_node(
                        *h,
                        g,
                        l as nat,
                        (2 * up + 1) as nat,
                    ));
                }
                assert forall|m: nat, j: nat|
                    m <= depth && j < pow2((depth - m) as nat) implies #[trigger] self.node_at(m, j)
                    == (if m <= l + 1 {
                    tree_node(*h, g, m, j)
                } else {
                    tree_node(*h, f, m, j)
                }) by {
                    assert(mid.node_at(m, j) == (if m <= l {
                        tree_node(*h, g, m, j)
                    } else {
                        tree_node(*h, f, m, j)
                    }));
                    if m == l + 1 && j != up {
                        lemma_node_update(*h, f, g, index as nat, m, j);
                    }
                }
            }
            at = up;
            l += 1;
        }
        let ghost full = *self;
        self.log.push((leaf, index));
        proof {
            assert(self.log@.drop_last() =~= before.log@);
            assert forall|m: nat, j: nat| #[trigger] self.node_at(m, j) == full.node_at(m, j) by {}
            assert forall|j: nat| #[trigger] (self.leaf_at())(j) == g(j) by {
                assert(self.leaf_at()(j) == self.node_at(0, j));
                assert(full.node_at(0, j) == g(j));
            }
            assert(self.leaf_at() =~= g);
            assert forall|m: int| 0 <= m <= self.depth implies (#[trigger] self.levels@[m])@.len()
                <= pow2((self.depth - m) as nat) by {
                assert(full.levels@[m]@.len() <= pow2((full.depth - m) as nat));
            }
            assert(self.shape());
        }
    }

    /// Appends a leaf after those inserted so far, and returns its index.
    pub fn insert<H: Fn(Vec<F>, usize) -> Vec<F>>(&mut self, h: &H, leaf: HashOutput) -> (r: Result<
        usize,
        MerkleTreeError,
    >)
        requires
            is_sponge(*h),
            old(self).wf(*h),
        ensures
            final(self).wf(*h),
            final(self).shape(),
            final(self).spec_depth() == old(self).spec_depth(),
            final(self).empty_leaf() == old(self).empty_leaf(),
            r is Err <==> old(self).spec_next() >= pow2(old(self).spec_depth()),
            r is Err ==> *final(self) == *old(self) && r == Err::<usize, MerkleTreeError>(
                MerkleTreeError::CapacityReached,
            ),
            r matches Ok(i) ==> {
                &&& i == old(self).spec_next()
                &&& final(self).spec_next() == i + 1
                &&& final(self).places() == old(self).places().insert(leaf, i as nat)
                &&& forall|j: nat| #[trigger] (final(self).leaf_at())(j) == (if j == i {
                    leaf
                } else {
                    (old(self).leaf_at())(j)
                })
            },
    {
        if self.is_full() {
            return Err(MerkleTreeError::CapacityReached);
        }
        proof {
            lemma_next_fits(self.next_index, self.depth);
        }
        let index: usize = self.next_index as usize;
        self.set_leaf(h, index, leaf);
        let ghost mid = *self;
        self.next_index = self.next_index + 1;
        proof {
            assert(self.leaf_at() =~= mid.leaf_at());
            assert forall|m: nat, j: nat| #[trigger] self.node_at(m, j) == mid.node_at(m, j) by {}
            assert(self.wf(*h));
        }
        Ok(index)
    }

    /// Appends leaves, in order.
    pub fn batch_insert<H: Fn(Vec<F>, usize) -> Vec<F>>(&mut self, h: &H, leaves: &Vec<HashOutput>)
        requires
            is_sponge(*h),
            old(self).wf(*h),
            old(self).spec_next() + leaves@.len() <= pow2(old(self).spec_depth()),
        ensures
            final(self).wf(*h),
            final(self).shape(),
            final(self).spec_depth() == old(self).spec_depth(),
            final(self).empty_leaf() == old(self).empty_leaf(),
            final(self).spec_next() == old(self).spec_next() + leaves@.len(),
            forall|j: nat| #[trigger] (final(self).leaf_at())(j) == (if old(self).spec_next() <= j
                < old(self).spec_next() + leaves@.len() {
                leaves@[j - old(self).spec_next()]
            } else {
                (old(self).leaf_at())(j)
            }),
    {
        let ghost before = *self;
        let mut i: usize = 0;
        while i < leaves.len()
            invariant
                i <= leaves@.len(),
                is_sponge(*h),
                self.wf(*h),
                self.shape(),
                before.spec_next() + leaves@.len() <= pow2(before.spec_depth()),
                self.spec_depth() == before.spec_depth(),
                self.empty_leaf() == before.empty_leaf(),
                self.spec_next() == before.spec_next() + i,
                forall|j: nat| #[trigger] (self.leaf_at())(j) == (if before.spec_next() <= j
                    < before.spec_next() + i {
                    leaves@[j - before.spec_next()]
                } else {
                    (before.leaf_at())(j)
                }),
            decreases leaves@.len() - i,
        {
            let _ = self.insert(h, leaves[i]);
            i += 1;
        }
        proof {
            self.lemma_wf_shape(*h);
        }
    }

    /// The index at which a leaf was set last.
    fn find(&self, leaf: HashOutput) -> (r: Option<usize>)
        ensures
            r is Some == self.places().contains_key(leaf),
            r matches Some(i) ==> self.places()[leaf] == i,
    {
        let mut n: usize = self.log.len();
        assert(self.log@.take(n as int) =~= self.log@);
        while n > 0
            invariant
                n <= self.log@.len(),
                self.places().contains_key(leaf) == last_places(
                    self.log@.take(n as int),
                ).contains_key(leaf),
                self.places().contains_key(leaf) ==> self.places()[leaf] == last_places(
                    self.log@.take(n as int),
                )[leaf],
            decreases n,
        {
            let entry = self.log[n - 1];
            assert(self.log@.take(n as int).drop_last() =~= self.log@.take(n - 1));
            if entry.0 == leaf {
                return Some(entry.1);
            }
            n -= 1;
        }
        None
    }

    /// Whether a proof is the path of a leaf from the place where it was set last.
    pub open spec fn proves_leaf(&self, leaf: HashOutput, p: MerkleProof) -> bool {
        let at = self.places()[leaf];
        &&& p.leaf == leaf
        &&& p.leaf_index == at
        &&& p.root == self.top()
        &&& p.path@.len() == self.spec_depth()
        &&& forall|m: int|
            0 <= m < self.spec_depth() ==> #[trigger] p.path@[m] == self.proof_step(
                at / pow2(m as nat),
                m as nat,
            )
    }

    /// The proof of a leaf from the place where it was set last; `None` where it
    /// never was.
    pub fn merkle_proof(&self, leaf: HashOutput) -> (r: Option<MerkleProof>)
        requires
            self.shape(),
        ensures
            r is Some == self.places().contains_key(leaf),
            r matches Some(p) ==> self.proves_leaf(leaf, p),
    {
        match self.find(leaf) {
            None => None,
            Some(i) => {
                proof {
                    lemma_places_in_log(self.log@, leaf);
                }
                let p = self.merkle_proof_at(i);
                Some(MerkleProof { leaf, leaf_index: i, path: p.path, root: p.root })
            },
        }
    }

    /// The proof of a leaf verifies against the tree, where the leaf was not
    /// overwritten since.
    pub proof fn lemma_leaf_proof_verifies<H: Fn(Vec<F>, usize) -> Vec<F>>(
        &self,
        h: H,
        leaf: HashOutput,
        p: MerkleProof,
    )
        requires
            self.wf(h),
            self.places().contains_key(leaf),
            self.proves_leaf(leaf, p),
            (self.leaf_at())(self.places()[leaf]) == leaf,
        ensures
            p.root == self.top(),
            path_root(h, p.leaf, p.path@) == p.root,
    {
        lemma_places_in_log(self.log@, leaf);
        self.lemma_proof_verifies(h, self.places()[leaf], p);
    }

    /// Whether a proof leads to the root of this tree.
    pub fn verify<H: Fn(Vec<F>, usize) -> Vec<F>>(&self, h: &H, p: &MerkleProof) -> (r: bool)
        requires
            is_sponge(*h),
            self.shape(),
        ensures
            r == (p.root == self.top() && path_root(*h, p.leaf, p.path@) == p.root),
    {
        self.root() == p.root && p.verify(h)
    }

    /// The proof of what stands at an index, set or not.
    pub fn merkle_proof_at(&self, index: usize) -> (r: MerkleProof)
        requires
            self.shape(),
            index < pow2(self.spec_depth()),
        ensures
            self.has_proof(index as nat, r),
    {
        let mut path: Vec<MerkleProofStep> = Vec::new();
        let mut at: usize = index;
        let mut l: usize = 0;
        proof {
            lemma2_to64();
            vstd::arithmetic::div_mod::lemma_div_basics(index as int);
        }
        while l < self.depth
            invariant
                self.shape(),
                l <= self.depth,
                at == index as nat / pow2(l as nat),
                at < pow2((self.depth - l) as nat),
                path@.len() == l,
                forall|m: int|
                    0 <= m < l ==> #[trigger] path@[m] == self.proof_step(
                        index as nat / pow2(m as nat),
                        m as nat,
                    ),
            decreases self.depth - l,
        {
            proof {
                lemma_up_one_level(index as nat, l as nat);
                lemma_pow2_adds(1, (self.depth - l - 1) as nat);
                lemma2_to64();
                lemma_index_fits(at, self.depth);
            }
            let step = if at % 2 == 0 {
                MerkleProofStep { sibling: self.node(l, at + 1), direction: Direction::Right }
            } else {
                MerkleProofStep { sibling: self.node(l, at - 1), direction: Direction::Left }
            };
            path.push(step);
            at = at / 2;
            l += 1;
        }
        MerkleProof { leaf: self.node(0, index), leaf_index: index, path, root: self.root() }
    }

    /// The step from position `at` of level `l`.
    pub open spec fn proof_step(&self, at: nat, l: nat) -> MerkleProofStep {
        if at % 2 == 0 {
            MerkleProofStep { sibling: self.node_at(l, at + 1), direction: Direction::Right }
        } else {
            MerkleProofStep { sibling: self.node_at(l, (at - 1) as nat), direction: Direction::Left }
        }
    }

    /// Whether a proof is the one that the tree gives for an index.
    pub open spec fn has_proof(&self, index: nat, p: MerkleProof) -> bool {
        &&& p.leaf == (self.leaf_at())(index)
        &&& p.leaf_index == index
        &&& p.root == self.top()
        &&& p.path@.len() == self.spec_depth()
        &&& forall|m: int|
            0 <= m < self.spec_depth() ==> #[trigger] p.path@[m] == self.proof_step(
                index / pow2(m as nat),
                m as nat,
            )
    }

    /// The path of a leaf in one tree leads from the other leaf to the root of
    /// another tree, where the two trees differ in that leaf alone.
    pub proof fn lemma_path_after_update<H: Fn(Vec<F>, usize) -> Vec<F>>(
        &self,
        after: &Self,
        h: H,
        index: nat,
        p: MerkleProof,
    )
        requires
            self.wf(h),
            after.wf(h),
            self.spec_depth() == after.spec_depth(),
            index < pow2(self.spec_depth()),
            self.has_proof(index, p),
            index <= usize::MAX,
            forall|j: nat|
                j != index ==> #[trigger] (self.leaf_at())(j) == (after.leaf_at())(j),
        ensures
            path_root(h, (after.leaf_at())(index), p.path@) == after.top(),
    {
        let q = MerkleProof {
            leaf: (after.leaf_at())(index),
            leaf_index: index as usize,
            path: p.path,
            root: after.top(),
        };
        assert forall|m: int| 0 <= m < after.spec_depth() implies #[trigger] q.path@[m]
            == after.proof_step(index / pow2(m as nat), m as nat) by {
            let at = index / pow2(m as nat);
            assert(p.path@[m] == self.proof_step(at, m as nat));
            let sib = if at % 2 == 0 {
                at + 1
            } else {
                (at - 1) as nat
            };
            lemma_pow2_pos(m as nat);
            lemma_sibling_fits(self.spec_depth(), m as nat, index);
            assert(self.node_at(m as nat, sib) == tree_node(h, self.leaf_at(), m as nat, sib));
            assert(after.node_at(m as nat, sib) == tree_node(h, after.leaf_at(), m as nat, sib));
            lemma_node_update(h, self.leaf_at(), after.leaf_at(), index, m as nat, sib);
        }
        after.lemma_proof_verifies(h, index, q);
    }

    /// The proofs that a tree gives verify.
    pub proof fn lemma_proof_verifies<H: Fn(Vec<F>, usize) -> Vec<F>>(
        &self,
        h: H,
        index: nat,
        p: MerkleProof,
    )
        requires
            self.wf(h),
            index < pow2(self.spec_depth()),
            self.has_proof(index, p),
        ensures
            path_root(h, p.leaf, p.path@) == p.root,
    {
        lemma2_to64();
        vstd::arithmetic::div_mod::lemma_div_basics(index as int);
        self.lemma_path_node(h, index, p, self.spec_depth());
        assert(p.path@.take(self.depth as int) =~= p.path@);
        self.lemma_top(h);
        vstd::arithmetic::div_mod::lemma_basic_div(index as int, pow2(self.spec_depth()) as int);
    }

    /// The path leads through the nodes above the leaf.
    proof fn lemma_path_node<H: Fn(Vec<F>, usize) -> Vec<F>>(
        &self,
        h: H,
        index: nat,
        p: MerkleProof,
        l: nat,
    )
        requires
            self.wf(h),
            index < pow2(self.spec_depth()),
            self.has_proof(index, p),
            l <= self.spec_depth(),
        ensures
            path_root(h, p.leaf, p.path@.take(l as int)) == tree_node(
                h,
                self.leaf_at(),
                l,
                index / pow2(l),
            ),
            index / pow2(l) < pow2((self.spec_depth() - l) as nat),
        decreases l,
    {
        lemma2_to64();
        if l == 0 {
            vstd::arithmetic::div_mod::lemma_div_basics(index as int);
        } else {
            let m = (l - 1) as nat;
            self.lemma_path_node(h, index, p, m);
            assert(p.path@.take(l as int).drop_last() =~= p.path@.take(m as int));
            let at = index / pow2(m);
            lemma_up_one_level(index, m);
            lemma_pow2_adds(1, (self.depth - l) as nat);
            assert(p.path@[m as int] == self.proof_step(at, m));
            let f = self.leaf_at();
            if at % 2 == 0 {
                assert(self.node_at(m, at + 1) == tree_node(h, f, m, at + 1));
                assert(2 * (at / 2) == at);
            } else {
                assert(self.node_at(m, (at - 1) as nat) == tree_node(h, f, m, (at - 1) as nat));
                assert(2 * (at / 2) == at - 1);
            }
        }
    }

    /// The sides of a proof's path spell its index.
    pub proof fn lemma_path_index(&self, index: nat, p: MerkleProof)
        requires
            self.shape(),
            index < pow2(self.spec_depth()),
            self.has_proof(index, p),
        ensures
            path_index(p.path@) == index,
    {
        lemma2_to64();
        self.lemma_path_index_from(index, p, 0);
        assert(p.path@.skip(0) =~= p.path@);
        vstd::arithmetic::div_mod::lemma_div_basics(index as int);
    }

    proof fn lemma_path_index_from(&self, index: nat, p: MerkleProof, l: nat)
        requires
            self.shape(),
            index < pow2(self.spec_depth()),
            self.has_proof(index, p),
            l <= self.spec_depth(),
        ensures
            path_index(p.path@.skip(l as int)) == index / pow2(l),
        decreases self.spec_depth() - l,
    {
        let s = p.path@.skip(l as int);
        if l == self.spec_depth() {
            vstd::arithmetic::div_mod::lemma_basic_div(index as int, pow2(l) as int);
        } else {
            self.lemma_path_index_from(index, p, l + 1);
            assert(s.drop_first() =~= p.path@.skip(l as int + 1));
            assert(s[0] == p.path@[l as int]);
            lemma_up_one_level(index, l);
        }
    }
}

proof fn lemma_index_fits(at: usize, depth: usize)
    requires
        depth <= 32,
    ensures
        (at / 2) * 2 + 1 <= usize::MAX,
{
}

proof fn lemma_next_fits(index: u64, depth: usize)
    requires
        index < pow2(depth as nat),
        depth <= 32,
    ensures
        index <= usize::MAX,
        index < 0x1_0000_0000,
{
    lemma2_to64();
    if depth < 32 {
        lemma_pow2_strictly_increases(depth as nat, 32);
    }
}

/// The sibling of an ancestor of a leaf is a node of the tree.
proof fn lemma_sibling_fits(depth: nat, m: nat, index: nat)
    requires
        m < depth,
        index < pow2(depth),
    ensures
        ({
            let at = index / pow2(m);
            let sib = if at % 2 == 0 {
                at + 1
            } else {
                (at - 1) as nat
            };
            sib < pow2((depth - m) as nat)
        }),
{
    let at = index / pow2(m);
    let e = (depth - m) as nat;
    lemma_pow2_pos(m);
    lemma_pow2_adds(m, e);
    lemma_quotient_below(index, m, e);
    lemma_pow2_unfold(e);
    assert(at < pow2(e));
}

proof fn lemma_quotient_below(index: nat, m: nat, e: nat)
    requires
        index < pow2(m) * pow2(e),
        pow2(m) > 0,
    ensures
        index / pow2(m) < pow2(e),
{
    let (w, n) = (pow2(m) as int, pow2(e) as int);
    vstd::arithmetic::div_mod::lemma_fundamental_div_mod(index as int, w);
    let q = index as int / w;
    assert(q < n) by (nonlinear_arith)
        requires
            w > 0,
            index < w * n,
            index == w * q + index as int % w,
            index as int % w >= 0,
    ;
}

} // verus!
