//! The Account State Tree: the balances of an account, one leaf per asset.
use vstd::arithmetic::power2::lemma2_to64;
use vstd::prelude::*;

use crate::field::{F, GOLDILOCKS_ORDER};
use crate::hash::{digest, hash_no_pad, is_sponge, HashOutput};
use crate::params::{ACC_AST_DEPTH, DS_ACC_AST_LEAF};
use crate::tree::{tree_node, MerkleProof, MerkleTree};
use crate::u256::U256;

verus! {

/// A field-element identifier for a fungible asset type.
#[derive(Clone, Copy, Debug, PartialEq, Eq, Structural, Hash)]
pub struct AssetId(pub F);

impl AssetId {
    /// The asset identifier zero.
    pub fn zero() -> (r: Self)
        ensures
            r.0@ == 0,
            r == AssetId(F::of(0)),
    {
        AssetId(F::zero())
    }

    /// Construct an `AssetId` from a `u64`; `None` if the value is not below the
    /// field order.
    pub fn from_u64(v: u64) -> (r: Option<Self>)
        ensures
            r is Some <==> v < GOLDILOCKS_ORDER,
            r matches Some(a) ==> a.0@ == v,
    {
        if v < GOLDILOCKS_ORDER {
            Some(AssetId(F::from_canonical_u64(v)))
        } else {
            None
        }
    }

    /// The identifier as an integer.
    pub fn to_u64(&self) -> (r: u64)
        ensures
            r == self.0@,
    {
        self.0.to_canonical_u64()
    }
}

/// A single leaf in the Account State Tree (AST), recording an asset balance.
#[derive(Clone, Copy, Debug, PartialEq, Eq, Structural, Hash)]
pub struct AccountStateTreeLeaf {
    pub asset_id: AssetId,
    pub amount: U256,
}

impl AccountStateTreeLeaf {
    /// What the leaf is the hash of: the domain separator, the asset and the
    /// eight limbs of the amount.
    pub open spec fn preimage(self) -> Seq<F> {
        seq![F::of(DS_ACC_AST_LEAF as int), self.asset_id.0] + self.amount.limbs()
    }

    /// Hash the leaf into a Merkle tree node.
    pub fn commitment<H: Fn(Vec<F>, usize) -> Vec<F>>(&self, h: &H) -> (r: HashOutput)
        requires
            is_sponge(*h),
        ensures
            r == digest(*h, self.preimage()),
    {
        let mut v: Vec<F> = Vec::new();
        v.push(F::from_canonical_u64(DS_ACC_AST_LEAF));
        v.push(self.asset_id.0);
        self.amount.append_limbs(&mut v);
        assert(v@ =~= self.preimage());
        hash_no_pad(h, v)
    }
}

/// The leaf at every position of the tree that holds the given balances.
pub open spec fn ast_leaves<H: Fn(Vec<F>, usize) -> Vec<F>>(
    h: H,
    assets: Seq<AccountStateTreeLeaf>,
) -> spec_fn(nat) -> HashOutput {
    |i: nat|
        if i < assets.len() {
            digest(h, assets[i as int].preimage())
        } else {
            HashOutput(F::of(0), F::of(0), F::of(0), F::of(0))
        }
}

/// The root of the tree that holds the given balances.
pub open spec fn ast_root<H: Fn(Vec<F>, usize) -> Vec<F>>(
    h: H,
    assets: Seq<AccountStateTreeLeaf>,
) -> HashOutput {
    tree_node(h, ast_leaves(h, assets), ACC_AST_DEPTH as nat, 0)
}

/// Why a balance cannot be changed.
#[derive(Clone, Copy, Debug, PartialEq, Eq, Structural)]
pub enum AstError {
    /// The asset is already in the tree.
    AlreadyExists,
    /// The asset is not in the tree.
    NotFound,
    /// Every leaf of the tree holds an asset.
    Full,
    /// The leaf indices are not contiguous from zero: this one is missing.
    NotContiguous { expected: usize },
}

/// Whether no asset occurs twice.
pub open spec fn distinct_assets(s: Seq<AccountStateTreeLeaf>) -> bool {
    forall|i: int, j: int|
        0 <= i < j < s.len() ==> (#[trigger] s[i]).asset_id != (#[trigger] s[j]).asset_id
}

/// Whether an asset occurs.
pub open spec fn has_asset(s: Seq<AccountStateTreeLeaf>, a: AssetId) -> bool {
    exists|i: int| 0 <= i < s.len() && (#[trigger] s[i]).asset_id == a
}

/// The balance of an asset, zero where it does not occur.
pub open spec fn balance_of(s: Seq<AccountStateTreeLeaf>, a: AssetId) -> nat
    decreases s.len(),
{
    if s.len() == 0 {
        0
    } else if s.last().asset_id == a {
        s.last().amount.value()
    } else {
        balance_of(s.drop_last(), a)
    }
}

/// The balance is that of the leaf that holds the asset.
pub proof fn lemma_balance_of(s: Seq<AccountStateTreeLeaf>, a: AssetId)
    requires
        distinct_assets(s),
    ensures
        forall|i: int|
            0 <= i < s.len() && (#[trigger] s[i]).asset_id == a ==> balance_of(s, a)
                == s[i].amount.value(),
        !has_asset(s, a) ==> balance_of(s, a) == 0,
    decreases s.len(),
{
    if s.len() > 0 {
        let t = s.drop_last();
        assert forall|i: int, j: int| 0 <= i < j < t.len() implies (#[trigger] t[i]).asset_id != (
        #[trigger] t[j]).asset_id by {
            assert(s[i].asset_id != s[j].asset_id);
        }
        lemma_balance_of(t, a);
        assert forall|i: int| 0 <= i < s.len() && (#[trigger] s[i]).asset_id == a implies balance_of(s, a)
            == s[i].amount.value() by {
            if i < t.len() {
                assert(t[i] == s[i]);
            }
        }
        if !has_asset(s, a) {
            assert(s[s.len() - 1].asset_id != a);
            assert forall|i: int| 0 <= i < t.len() implies (#[trigger] t[i]).asset_id != a by {
                assert(s[i] == t[i]);
            }
        }
    }
}

/// An entry of a saved asset map.
#[derive(Clone, Copy, Debug, PartialEq, Eq, Structural)]
pub struct AssetMapEntry {
    pub asset_id: AssetId,
    pub leaf_index: usize,
    pub amount: U256,
}

impl AssetMapEntry {
    /// The leaf that the entry describes.
    pub open spec fn leaf(self) -> AccountStateTreeLeaf {
        AccountStateTreeLeaf { asset_id: self.asset_id, amount: self.amount }
    }
}

/// Whether no asset has two entries, as in every map.
pub open spec fn distinct_keys(map: Seq<AssetMapEntry>) -> bool {
    forall|i: int, j: int|
        0 <= i < map.len() && 0 <= j < map.len() && i != j ==> (#[trigger] map[i]).asset_id != (
        #[trigger] map[j]).asset_id
}

/// Whether an entry has the leaf index `k`.
pub open spec fn has_index(map: Seq<AssetMapEntry>, k: int) -> bool {
    exists|j: int| 0 <= j < map.len() && (#[trigger] map[j]).leaf_index == k
}

/// Whether every leaf index below `n` occurs.
pub open spec fn contiguous(map: Seq<AssetMapEntry>, n: int) -> bool {
    forall|k: int| 0 <= k < n ==> #[trigger] has_index(map, k)
}

/// Whether an entry with the leaf index `k` describes the leaf.
pub open spec fn holds_entry(map: Seq<AssetMapEntry>, k: int, leaf: AccountStateTreeLeaf) -> bool {
    exists|j: int|
        0 <= j < map.len() && (#[trigger] map[j]).leaf_index == k && map[j].leaf() == leaf
}

fn find_index(map: &Vec<AssetMapEntry>, k: usize) -> (r: Option<usize>)
    ensures
        r is Some <==> has_index(map@, k as int),
        r matches Some(j) ==> j < map@.len() && map@[j as int].leaf_index == k,
{
    let mut j: usize = 0;
    while j < map.len()
        invariant
            j <= map@.len(),
            forall|i: int| 0 <= i < j ==> (#[trigger] map@[i]).leaf_index != k,
        decreases map@.len() - j,
    {
        if map[j].leaf_index == k {
            return Some(j);
        }
        j += 1;
    }
    None
}

/// Per-account asset-balance Merkle tree.
///
/// Each occupied leaf stores one `(asset_id, amount)` pair. New assets are
/// appended at the next free position; existing assets are updated in place.
pub struct AccountStateTree {
    tree: MerkleTree,
    assets: Vec<AccountStateTreeLeaf>,
}

impl AccountStateTree {
    /// The balances, by leaf.
    pub closed spec fn view(&self) -> Seq<AccountStateTreeLeaf> {
        self.assets@
    }

    /// The root.
    pub closed spec fn top(&self) -> HashOutput {
        self.tree.top()
    }

    /// Whether the tree is the one over the balances.
    pub closed spec fn wf<H: Fn(Vec<F>, usize) -> Vec<F>>(&self, h: H) -> bool {
        &&& self.tree.wf(h)
        &&& self.shape()
        &&& self.tree.leaf_at() == ast_leaves(h, self.assets@)
    }

    /// What holds of the parts, whatever the hash.
    pub closed spec fn shape(&self) -> bool {
        &&& self.tree.shape()
        &&& self.tree.spec_depth() == ACC_AST_DEPTH
        &&& self.tree.spec_next() == self.assets@.len()
        &&& self.assets@.len() <= 1024
        &&& distinct_assets(self.assets@)
    }

    /// What the shape says to users of the tree.
    pub proof fn lemma_shape(&self)
        requires
            self.shape(),
        ensures
            distinct_assets(self@),
            self@.len() <= 1024,
    {
    }

    /// A well-formed tree has its shape, and its root is that of its balances.
    pub proof fn lemma_wf<H: Fn(Vec<F>, usize) -> Vec<F>>(&self, h: H)
        requires
            self.wf(h),
        ensures
            self.shape(),
            self.top() == ast_root(h, self@),
    {
        self.tree.lemma_top(h);
    }

    /// Create an empty AST. All leaves are the empty leaf.
    pub fn new<H: Fn(Vec<F>, usize) -> Vec<F>>(h: &H) -> (r: Self)
        requires
            is_sponge(*h),
        ensures
            r.wf(*h),
            r.shape(),
            r@.len() == 0,
    {
        let tree = MerkleTree::new(h, ACC_AST_DEPTH, HashOutput::zero());
        let r = AccountStateTree { tree, assets: Vec::new() };
        proof {
            assert(r.tree.leaf_at() =~= ast_leaves(*h, r.assets@));
        }
        r
    }

    /// Reconstruct an AST from a saved asset map, given as its entries in any
    /// order. Fails if the leaf indices are not contiguous starting from zero, or
    /// if there are more entries than leaves.
    pub fn new_from_asset_map<H: Fn(Vec<F>, usize) -> Vec<F>>(h: &H, map: &Vec<AssetMapEntry>) -> (r:
        Result<Self, AstError>)
        requires
            is_sponge(*h),
            distinct_keys(map@),
        ensures
            r matches Ok(t) ==> {
                &&& t.wf(*h)
                &&& t.shape()
                &&& t@.len() == map@.len()
                &&& forall|k: int|
                    0 <= k < map@.len() ==> holds_entry(map@, k, #[trigger] t@[k])
            },
            r is Ok <==> contiguous(map@, map@.len() as int) && map@.len() <= 1024,
            r is Err && contiguous(map@, map@.len() as int) ==> r->Err_0 == AstError::Full,
            r is Err && !contiguous(map@, map@.len() as int) ==> (r->Err_0 matches AstError::NotContiguous {
                expected,
            } && expected < map@.len() && contiguous(map@, expected as int) && !has_index(
                map@,
                expected as int,
            )),
    {
        let n: usize = map.len();
        let mut k: usize = 0;
        while k < n
            invariant
                k <= n,
                n == map@.len(),
                contiguous(map@, k as int),
            decreases n - k,
        {
            match find_index(map, k) {
                Some(_) => {},
                None => {
                    return Err(AstError::NotContiguous { expected: k });
                },
            }
            k += 1;
        }
        let mut ast = Self::new(h);
        let mut k: usize = 0;
        while k < n
            invariant
                is_sponge(*h),
                k <= n,
                n == map@.len(),
                contiguous(map@, n as int),
                distinct_keys(map@),
                ast.wf(*h),
                ast.shape(),
                ast@.len() == k,
                k <= 1024,
                forall|i: int| 0 <= i < k ==> holds_entry(map@, i, #[trigger] ast@[i]),
            decreases n - k,
        {
            match find_index(map, k) {
                Some(j) => {
                    let e = map[j];
                    proof {
                        if has_asset(ast@, e.asset_id) {
                            let i = choose|i: int|
                                0 <= i < ast@.len() && (#[trigger] ast@[i]).asset_id == e.asset_id;
                            assert(holds_entry(map@, i, ast@[i]));
                            let m = choose|m: int|
                                0 <= m < map@.len() && (#[trigger] map@[m]).leaf_index == i
                                    && map@[m].leaf() == ast@[i];
                            assert(map@[m].asset_id != map@[j as int].asset_id);
                        }
                        assert(map@[j as int].leaf() == (AccountStateTreeLeaf {
                            asset_id: e.asset_id,
                            amount: e.amount,
                        }));
                    }
                    match ast.insert_asset(h, e.asset_id, e.amount) {
                        Ok(_) => {},
                        Err(_) => {
                            return Err(AstError::Full);
                        },
                    }
                },
                None => {},
            }
            k += 1;
        }
        Ok(ast)
    }

    /// Current Merkle root of the AST.
    pub fn root(&self) -> (r: HashOutput)
        requires
            self.shape(),
        ensures
            r == self.top(),
    {
        self.tree.root()
    }

    /// Number of occupied leaves.
    pub fn size(&self) -> (r: usize)
        ensures
            r == self@.len(),
    {
        self.assets.len()
    }

    /// Index at which the next new asset would be inserted.
    pub fn next_index(&self) -> (r: usize)
        ensures
            r == self@.len(),
    {
        self.assets.len()
    }

    /// The index of the leaf that holds an asset.
    fn find(&self, asset_id: AssetId) -> (r: Option<usize>)
        ensures
            r is Some <==> has_asset(self@, asset_id),
            r matches Some(i) ==> i < self@.len() && self@[i as int].asset_id == asset_id,
    {
        let mut i: usize = 0;
        while i < self.assets.len()
            invariant
                i <= self.assets@.len(),
                forall|j: int| 0 <= j < i ==> (#[trigger] self.assets@[j]).asset_id != asset_id,
            decreases self.assets@.len() - i,
        {
            if self.assets[i].asset_id == asset_id {
                return Some(i);
            }
            i += 1;
        }
        None
    }

    /// Returns `(leaf_index, amount)` for the given asset, or `None` if never set.
    pub fn amount_for(&self, asset_id: AssetId) -> (r: Option<(usize, U256)>)
        ensures
            r is Some <==> has_asset(self@, asset_id),
            r matches Some(p) ==> p.0 < self@.len() && self@[p.0 as int] == (AccountStateTreeLeaf {
                asset_id,
                amount: p.1,
            }),
    {
        match self.find(asset_id) {
            Some(i) => Some((i, self.assets[i].amount)),
            None => None,
        }
    }

    /// The balance of an asset, zero if it is not in the tree.
    pub fn balance(&self, asset_id: AssetId) -> (r: U256)
        requires
            self.shape(),
        ensures
            r.value() == balance_of(self@, asset_id),
    {
        proof {
            lemma_balance_of(self@, asset_id);
        }
        match self.find(asset_id) {
            Some(i) => self.assets[i].amount,
            None => U256::zero(),
        }
    }

    /// Insert a new asset. Fails if `asset_id` is already tracked, or if every
    /// leaf is taken.
    pub fn insert_asset<H: Fn(Vec<F>, usize) -> Vec<F>>(
        &mut self,
        h: &H,
        asset_id: AssetId,
        amount: U256,
    ) -> (r: Result<(), AstError>)
        requires
            is_sponge(*h),
            old(self).wf(*h),
        ensures
            final(self).wf(*h),
            final(self).shape(),
            r == (if has_asset(old(self)@, asset_id) {
                Err::<(), AstError>(AstError::AlreadyExists)
            } else if old(self)@.len() >= 1024 {
                Err::<(), AstError>(AstError::Full)
            } else {
                Ok::<(), AstError>(())
            }),
            final(self)@ == (if r is Ok {
                old(self)@.push(AccountStateTreeLeaf { asset_id, amount })
            } else {
                old(self)@
            }),
    {
        if let Some(_) = self.find(asset_id) {
            return Err(AstError::AlreadyExists);
        }
        let leaf = AccountStateTreeLeaf { asset_id, amount };
        let node = leaf.commitment(h);
        proof {
            lemma2_to64();
        }
        let ghost before = *self;
        match self.tree.insert(h, node) {
            Err(_) => {
                return Err(AstError::Full);
            },
            Ok(_) => {},
        }
        self.assets.push(leaf);
        proof {
            assert(self.tree.leaf_at() =~= ast_leaves(*h, self.assets@)) by {
                assert forall|i: nat| #[trigger] (self.tree.leaf_at())(i) == (ast_leaves(*h, self.assets@))(i) by {
                    assert((before.tree.leaf_at())(i) == (ast_leaves(*h, before.assets@))(i));
                }
            }
            assert(distinct_assets(self.assets@));
        }
        Ok(())
    }

    /// Update an existing asset's amount and return the previous one. Fails if
    /// the asset is not tracked.
    pub fn update_asset<H: Fn(Vec<F>, usize) -> Vec<F>>(
        &mut self,
        h: &H,
        asset_id: AssetId,
        amount: U256,
    ) -> (r: Result<U256, AstError>)
        requires
            is_sponge(*h),
            old(self).wf(*h),
        ensures
            final(self).wf(*h),
            final(self).shape(),
            r is Err ==> r == Err::<U256, AstError>(AstError::NotFound) && final(self)@ == old(
                self,
            )@,
            r is Ok <==> has_asset(old(self)@, asset_id),
            r matches Ok(prev) ==> exists|i: int|
                0 <= i < old(self)@.len() && #[trigger] old(self)@[i] == (AccountStateTreeLeaf {
                    asset_id,
                    amount: prev,
                }) && final(self)@ == old(self)@.update(i, AccountStateTreeLeaf { asset_id, amount }),
    {
        let index = match self.find(asset_id) {
            Some(i) => i,
            None => {
                return Err(AstError::NotFound);
            },
        };
        let prev = self.assets[index].amount;
        let leaf = AccountStateTreeLeaf { asset_id, amount };
        let node = leaf.commitment(h);
        proof {
            lemma2_to64();
        }
        let ghost before = *self;
        self.tree.set_leaf(h, index, node);
        self.assets.set(index, leaf);
        proof {
            assert(self.tree.leaf_at() =~= ast_leaves(*h, self.assets@)) by {
                assert forall|i: nat| #[trigger] (self.tree.leaf_at())(i) == (ast_leaves(*h, self.assets@))(i) by {
                    assert((before.tree.leaf_at())(i) == (ast_leaves(*h, before.assets@))(i));
                }
            }
            assert forall|i: int, j: int| 0 <= i < j < self.assets@.len() implies (
            #[trigger] self.assets@[i]).asset_id != (#[trigger] self.assets@[j]).asset_id by {
                assert(before.assets@[i].asset_id != before.assets@[j].asset_id);
            }
            assert(before.assets@[index as int] == (AccountStateTreeLeaf { asset_id, amount: prev }));
        }
        Ok(prev)
    }

    /// Insert if new, update if existing.
    /// Returns `None` if newly inserted, `Some(previous_amount)` if updated.
    pub fn insert_or_update_asset<H: Fn(Vec<F>, usize) -> Vec<F>>(
        &mut self,
        h: &H,
        asset_id: AssetId,
        amount: U256,
    ) -> (r: Option<U256>)
        requires
            is_sponge(*h),
            old(self).wf(*h),
            has_asset(old(self)@, asset_id) || old(self)@.len() < 1024,
        ensures
            final(self).wf(*h),
            final(self).shape(),
            r is Some <==> has_asset(old(self)@, asset_id),
            set_balance(old(self)@, asset_id, amount, final(self)@),
            r matches Some(prev) ==> prev.value() == balance_of(old(self)@, asset_id),
    {
        proof {
            self.lemma_wf(*h);
            self.lemma_shape();
            lemma_balance_of(self@, asset_id);
        }
        match self.find(asset_id) {
            Some(_) => {
                match self.update_asset(h, asset_id, amount) {
                    Ok(prev) => Some(prev),
                    Err(_) => None,
                }
            },
            None => {
                let _ = self.insert_asset(h, asset_id, amount);
                None
            },
        }
    }

    /// Generate a Merkle proof for the leaf at `index`.
    pub fn merkle_proof_at(&self, index: usize) -> (r: MerkleProof)
        requires
            self.shape(),
            index < 1024,
        ensures
            self.has_proof(index as nat, r),
    {
        proof {
            lemma2_to64();
        }
        self.tree.merkle_proof_at(index)
    }

    /// Whether a proof is the one that the tree gives for an index.
    pub closed spec fn has_proof(&self, index: nat, p: MerkleProof) -> bool {
        self.tree.has_proof(index, p)
    }

    /// A proof that the tree gives leads from the leaf of the balance (or the
    /// empty leaf) to the root.
    pub proof fn lemma_proof<H: Fn(Vec<F>, usize) -> Vec<F>>(
        &self,
        h: H,
        index: nat,
        p: MerkleProof,
    )
        requires
            self.wf(h),
            index < 1024,
            self.has_proof(index, p),
        ensures
            p.leaf == (ast_leaves(h, self@))(index),
            p.leaf_index == index,
            p.root == self.top(),
            p.path@.len() == ACC_AST_DEPTH,
            crate::tree::path_root(h, p.leaf, p.path@) == p.root,
            crate::tree::path_index(p.path@) == index,
    {
        lemma2_to64();
        self.tree.lemma_proof_verifies(h, index, p);
        self.tree.lemma_path_index(index, p);
    }

    /// Setting one balance changes the root along one path: the path of its leaf
    /// before leads from the new leaf to the root after.
    pub proof fn lemma_path_after_update<H: Fn(Vec<F>, usize) -> Vec<F>>(
        &self,
        after: &Self,
        h: H,
        asset_id: AssetId,
        amount: U256,
        index: nat,
        p: MerkleProof,
    )
        requires
            self.wf(h),
            after.wf(h),
            index < 1024,
            self.has_proof(index, p),
            set_balance(self@, asset_id, amount, after@),
            if has_asset(self@, asset_id) {
                index < self@.len() && self@[index as int].asset_id == asset_id
            } else {
                index == self@.len()
            },
        ensures
            crate::tree::path_root(
                h,
                digest(h, (AccountStateTreeLeaf { asset_id, amount }).preimage()),
                p.path@,
            ) == after.top(),
    {
        lemma2_to64();
        self.lemma_wf(h);
        self.lemma_shape();
        let leaf = AccountStateTreeLeaf { asset_id, amount };
        if has_asset(self@, asset_id) {
            let i = choose|i: int|
                0 <= i < self@.len() && (#[trigger] self@[i]).asset_id == asset_id && after@
                    == self@.update(i, leaf);
            if i < index {
                assert(self@[i].asset_id != self@[index as int].asset_id);
            }
            if index < i {
                assert(self@[index as int].asset_id != self@[i].asset_id);
            }
            assert(after@[index as int] == leaf);
        }
        assert forall|j: nat| j != index implies #[trigger] (self.tree.leaf_at())(j) == (
        after.tree.leaf_at())(j) by {
            assert((self.tree.leaf_at())(j) == (ast_leaves(h, self@))(j));
            assert((after.tree.leaf_at())(j) == (ast_leaves(h, after@))(j));
        }
        assert((after.tree.leaf_at())(index) == (ast_leaves(h, after@))(index));
        self.tree.lemma_path_after_update(&after.tree, h, index, p);
    }

    /// A copy of the tree.
    pub fn duplicate(&self) -> (r: Self)
        requires
            self.shape(),
        ensures
            r.shape(),
            r@ == self@,
            r.top() == self.top(),
            r.same_as(self),
    {
        let tree = self.tree.duplicate();
        let mut assets: Vec<AccountStateTreeLeaf> = Vec::new();
        let mut i: usize = 0;
        while i < self.assets.len()
            invariant
                i <= self.assets@.len(),
                assets@ == self.assets@.take(i as int),
            decreases self.assets@.len() - i,
        {
            assets.push(self.assets[i]);
            i += 1;
            assert(assets@ =~= self.assets@.take(i as int));
        }
        assert(assets@ =~= self.assets@);
        AccountStateTree { tree, assets }
    }

    /// Whether two trees hold the same balances and nodes.
    pub closed spec fn same_as(&self, other: &Self) -> bool {
        self.assets@ == other.assets@ && other.tree.same_as(&self.tree)
    }

    /// A copy of a well-formed tree is well-formed.
    pub proof fn lemma_same_wf<H: Fn(Vec<F>, usize) -> Vec<F>>(&self, other: &Self, h: H)
        requires
            self.same_as(other),
            other.wf(h),
        ensures
            self.wf(h),
    {
        other.tree.lemma_same_wf(&self.tree, h);
    }
}

/// Whether `after` is `before` with the balance of one asset set: in place where
/// the asset was there, at the end where it was not.
pub open spec fn set_balance(
    before: Seq<AccountStateTreeLeaf>,
    asset_id: AssetId,
    amount: U256,
    after: Seq<AccountStateTreeLeaf>,
) -> bool {
    let leaf = AccountStateTreeLeaf { asset_id, amount };
    if has_asset(before, asset_id) {
        exists|i: int|
            0 <= i < before.len() && (#[trigger] before[i]).asset_id == asset_id && after
                == before.update(i, leaf)
    } else {
        after == before.push(leaf)
    }
}

/// Setting the balance of one asset changes no other balance.
pub proof fn lemma_set_balance(
    before: Seq<AccountStateTreeLeaf>,
    asset_id: AssetId,
    amount: U256,
    after: Seq<AccountStateTreeLeaf>,
    other: AssetId,
)
    requires
        distinct_assets(before),
        set_balance(before, asset_id, amount, after),
    ensures
        distinct_assets(after),
        balance_of(after, other) == (if other == asset_id {
            amount.value()
        } else {
            balance_of(before, other)
        }),
        has_asset(after, other) <==> (other == asset_id || has_asset(before, other)),
{
    let leaf = AccountStateTreeLeaf { asset_id, amount };
    if has_asset(before, asset_id) {
        let i = choose|i: int|
            0 <= i < before.len() && (#[trigger] before[i]).asset_id == asset_id && after
                == before.update(i, leaf);
        assert forall|j: int, k: int| 0 <= j < k < after.len() implies (#[trigger] after[j]).asset_id
            != (#[trigger] after[k]).asset_id by {
            assert(before[j].asset_id != before[k].asset_id);
        }
        lemma_balance_of(before, other);
        lemma_balance_of(after, other);
        assert(after[i] == leaf);
        if other != asset_id {
            if has_asset(before, other) {
                let j = choose|j: int| 0 <= j < before.len() && (#[trigger] before[j]).asset_id == other;
                assert(after[j] == before[j]);
            }
            if has_asset(after, other) {
                let j = choose|j: int| 0 <= j < after.len() && (#[trigger] after[j]).asset_id == other;
                assert(after[j] == before[j]);
            }
        }
    } else {
        let n = before.len() as int;
        assert(after[n] == leaf);
        assert forall|j: int, k: int| 0 <= j < k < after.len() implies (#[trigger] after[j]).asset_id
            != (#[trigger] after[k]).asset_id by {
            if k < n {
                assert(before[j].asset_id != before[k].asset_id);
            } else {
                assert(after[j] == before[j]);
            }
        }
        lemma_balance_of(before, other);
        lemma_balance_of(after, other);
        if other != asset_id {
            if has_asset(before, other) {
                let j = choose|j: int| 0 <= j < before.len() && (#[trigger] before[j]).asset_id == other;
                assert(after[j] == before[j]);
            }
            if has_asset(after, other) {
                let j = choose|j: int| 0 <= j < after.len() && (#[trigger] after[j]).asset_id == other;
                assert(after[j] == before[j]);
            }
        }
    }
}

} // verus!
