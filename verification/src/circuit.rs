//! The conditions that the transaction circuits share, on the values of their
//! wires.
use vstd::prelude::*;

use crate::account::{
    account_nullifier_preimage, key_elements, nullifier_key_preimage, public_id_preimage,
    AccountCommitment, AccountNullifier, NullifierKey, PrivateIdentifier, PublicIdentifier,
    StandardAccount, SubpoolId,
};
use crate::ast::{ast_root, AccountStateTreeLeaf, AssetId};
use crate::field::F;
use crate::hash::{digest, hash_no_pad, is_sponge, two_to_one, HashOutput};
use crate::note::ast_default_root;
use crate::params::{
    ACC_AST_DEPTH, DEFAULT_ACC_COMM_CONSUME_PK_PLACEHOLDER, DEFAULT_SPEND_AUTH_PK,
    DS_NULLIFIER_KEY, DS_PUBLIC_IDENTIFIER, MAIN_POOL_CONFIG_DEPTH, STATE_TREE_DEPTH,
    SUBPOOL_CONFIG_DEPTH,
};
use crate::pool_config::{key_node, MainPoolConfigLeaf, SubpoolConfigLeaf, SubpoolFullProof};
use crate::schnorr::{CompPubKey, CompressedPublicKey};
use crate::tree::{path_root, Direction, MerkleProofStep};
use crate::u256::U256;

verus! {

/// The values of the wires of an account.
#[derive(Clone, Copy, Debug, PartialEq, Eq, Structural)]
pub struct AccountTarget {
    pub private_identifier: PrivateIdentifier,
    pub nonce: F,
    pub subpool_id: SubpoolId,
    /// Root of the account's Asset State Tree.
    pub acc_ast_root: HashOutput,
    /// Spend authorization public key.
    pub spend_auth: CompPubKey,
    /// Whether the account consumes with its own key, not the subpool's.
    pub consume_config: bool,
    /// The account's own consume public key, or the placeholder.
    pub consume_pk: CompPubKey,
}

/// Zero or one.
pub open spec fn flag(b: bool) -> F {
    F::of(if b {
        1
    } else {
        0
    })
}

impl AccountTarget {
    /// The hash input of the commitment (19 elements): `private_identifier[2] ||
    /// subpool_id || acc_ast_root[4] || nonce || spend_auth[5] ||
    /// consume_auth.config || consume_auth.pk[5]`.
    pub open spec fn preimage(self) -> Seq<F> {
        seq![self.private_identifier.0, self.private_identifier.1, self.subpool_id.0]
            + self.acc_ast_root.elements() + seq![self.nonce] + self.spend_auth.elements() + seq![
            flag(self.consume_config),
        ] + self.consume_pk.elements()
    }

    /// The commitment.
    pub open spec fn commitment<H: Fn(Vec<F>, usize) -> Vec<F>>(self, h: H) -> HashOutput {
        digest(h, self.preimage())
    }

    /// The nullifier key.
    pub open spec fn nk<H: Fn(Vec<F>, usize) -> Vec<F>>(self, h: H) -> HashOutput {
        digest(h, nullifier_key_preimage(self.private_identifier))
    }

    /// The public identifier.
    pub open spec fn public_id<H: Fn(Vec<F>, usize) -> Vec<F>>(self, h: H) -> HashOutput {
        digest(h, public_id_preimage(self.private_identifier))
    }

    /// The nullifier.
    pub open spec fn nullifier<H: Fn(Vec<F>, usize) -> Vec<F>>(self, h: H) -> HashOutput {
        digest(h, account_nullifier_preimage(self.commitment(h), self.nk(h)))
    }

    /// The values of the wires for an account. Where a key is absent, the
    /// placeholder stands in.
    pub fn set_witness(acc: &StandardAccount) -> (r: Self)
        requires
            acc.ast.shape(),
        ensures
            r.stands_for(acc),
    {
        AccountTarget {
            private_identifier: acc.private_identifier,
            nonce: acc.nonce.0,
            subpool_id: acc.subpool_id,
            acc_ast_root: acc.ast.root(),
            spend_auth: acc.spend_pk_or_default(),
            consume_config: acc.consume_auth.config,
            consume_pk: acc.consume_pk_or_default(),
        }
    }

    /// Whether these are the values of the wires for an account.
    pub open spec fn stands_for(self, acc: &StandardAccount) -> bool {
        &&& self.private_identifier == acc.private_identifier
        &&& self.nonce == acc.nonce.0
        &&& self.subpool_id == acc.subpool_id
        &&& self.acc_ast_root == acc.ast.top()
        &&& self.spend_auth.elements() == crate::account::spend_key_elements(acc.spend_auth)
        &&& self.consume_config == acc.consume_auth.config
        &&& self.consume_pk.elements() == (match acc.consume_auth.pk {
            Some(pk) => pk.elements(),
            None => key_elements(DEFAULT_ACC_COMM_CONSUME_PK_PLACEHOLDER),
        })
    }

    /// The wires of an account hash to its commitment and nullifier. An account
    /// that delegates must hold no own consume key: the commitment pads the key
    /// with the placeholder.
    pub proof fn lemma_commitment<H: Fn(Vec<F>, usize) -> Vec<F>>(self, acc: &StandardAccount, h: H)
        requires
            self.stands_for(acc),
            acc.consume_auth.valid(),
            !acc.consume_auth.config ==> acc.consume_auth.pk is None,
        ensures
            self.commitment(h) == acc.spec_commitment(h),
            self.nk(h) == acc.spec_nk(h),
            self.public_id(h) == acc.spec_public_id(h),
            self.nullifier(h) == acc.spec_nullifier(h),
    {
        assert(self.preimage() =~= acc.preimage());
    }
}

/// Derives the account commitment.
pub fn derive_account_commitment<H: Fn(Vec<F>, usize) -> Vec<F>>(h: &H, acc: &AccountTarget) -> (r:
    AccountCommitment)
    requires
        is_sponge(*h),
    ensures
        r.0 == acc.commitment(*h),
{
    let mut v: Vec<F> = Vec::new();
    v.push(acc.private_identifier.0);
    v.push(acc.private_identifier.1);
    v.push(acc.subpool_id.0);
    acc.acc_ast_root.append_to(&mut v);
    v.push(acc.nonce);
    acc.spend_auth.append_to(&mut v);
    v.push(F::from_bool(acc.consume_config));
    acc.consume_pk.append_to(&mut v);
    assert(v@ =~= acc.preimage());
    AccountCommitment(hash_no_pad(h, v))
}

/// Derives `H(commitment || nk)`, the account's spend-once nullifier.
pub fn derive_account_nullifier<H: Fn(Vec<F>, usize) -> Vec<F>>(
    h: &H,
    acc: &AccountCommitment,
    nk: &NullifierKey,
) -> (r: AccountNullifier)
    requires
        is_sponge(*h),
    ensures
        r.0 == digest(*h, account_nullifier_preimage(acc.0, nk.0)),
{
    let mut v: Vec<F> = Vec::new();
    acc.0.append_to(&mut v);
    nk.0.append_to(&mut v);
    assert(v@ =~= account_nullifier_preimage(acc.0, nk.0));
    AccountNullifier(hash_no_pad(h, v))
}

/// Derives `nk = H(DS_NULLIFIER_KEY || private_identifier)`.
pub fn derive_nullifier_key<H: Fn(Vec<F>, usize) -> Vec<F>>(h: &H, id: &PrivateIdentifier) -> (r:
    NullifierKey)
    requires
        is_sponge(*h),
    ensures
        r.0 == digest(*h, nullifier_key_preimage(*id)),
{
    let mut v: Vec<F> = Vec::new();
    v.push(F::from_canonical_u64(DS_NULLIFIER_KEY));
    v.push(id.0);
    v.push(id.1);
    assert(v@ =~= nullifier_key_preimage(*id));
    NullifierKey(hash_no_pad(h, v))
}

/// Derives `public_id = H(DS_PUBLIC_IDENTIFIER || private_identifier)`.
pub fn derive_public_identifier<H: Fn(Vec<F>, usize) -> Vec<F>>(h: &H, id: &PrivateIdentifier) -> (r:
    PublicIdentifier)
    requires
        is_sponge(*h),
    ensures
        r.0 == digest(*h, public_id_preimage(*id)),
{
    let mut v: Vec<F> = Vec::new();
    v.push(F::from_canonical_u64(DS_PUBLIC_IDENTIFIER));
    v.push(id.0);
    v.push(id.1);
    assert(v@ =~= public_id_preimage(*id));
    PublicIdentifier(hash_no_pad(h, v))
}

/// The key with the given coefficients is the default spend key.
pub open spec fn is_default_key(k: CompPubKey, v: [u64; 5]) -> bool {
    k.elements() == key_elements(v)
}

fn check_default_key(k: &CompPubKey, d: &CompPubKey, v: [u64; 5]) -> (r: bool)
    requires
        d.elements() == key_elements(v),
    ensures
        r == is_default_key(*k, v),
{
    let r = k.0.w == d.0.w;
    proof {
        if is_default_key(*k, v) {
            let (a, b) = (k.elements(), d.elements());
            assert(a[0] == b[0] && a[1] == b[1] && a[2] == b[2] && a[3] == b[3] && a[4] == b[4]);
        }
    }
    r
}

/// Whether the wires are those of an account in the fresh state: nonce zero,
/// default spend and consume keys, and an empty state tree.
pub open spec fn fresh_account<H: Fn(Vec<F>, usize) -> Vec<F>>(h: H, acc: AccountTarget) -> bool {
    &&& acc.acc_ast_root == ast_root(h, Seq::empty())
    &&& acc.nonce == F::of(0)
    &&& is_default_key(acc.spend_auth, DEFAULT_SPEND_AUTH_PK)
    &&& !acc.consume_config
    &&& is_default_key(acc.consume_pk, DEFAULT_ACC_COMM_CONSUME_PK_PLACEHOLDER)
}

/// When the condition is set, the account must be in the fresh state.
pub fn assert_fresh_account<H: Fn(Vec<F>, usize) -> Vec<F>>(
    h: &H,
    acc: &AccountTarget,
    condition: bool,
) -> (r: bool)
    requires
        is_sponge(*h),
    ensures
        r == (condition ==> fresh_account(*h, *acc)),
{
    if !condition {
        return true;
    }
    let spend = CompressedPublicKey::from_canonical_u64s(DEFAULT_SPEND_AUTH_PK);
    let consume = CompressedPublicKey::from_canonical_u64s(DEFAULT_ACC_COMM_CONSUME_PK_PLACEHOLDER);
    assert(spend.elements() =~= key_elements(DEFAULT_SPEND_AUTH_PK));
    assert(consume.elements() =~= key_elements(DEFAULT_ACC_COMM_CONSUME_PK_PLACEHOLDER));
    acc.acc_ast_root == ast_default_root(h) && acc.nonce == F::zero() && check_default_key(
        &acc.spend_auth,
        &spend,
        DEFAULT_SPEND_AUTH_PK,
    ) && !acc.consume_config && check_default_key(
        &acc.consume_pk,
        &consume,
        DEFAULT_ACC_COMM_CONSUME_PK_PLACEHOLDER,
    )
}

/// Whether the two auth keys are unchanged.
pub open spec fn same_auth(accin: AccountTarget, accout: AccountTarget) -> bool {
    &&& accout.spend_auth == accin.spend_auth
    &&& accout.consume_pk == accin.consume_pk
    &&& accout.consume_config == accin.consume_config
}

/// The invariants of every transition: the identifier and the subpool stay, and
/// the nonce grows by one.
pub open spec fn identity_kept(accin: AccountTarget, accout: AccountTarget) -> bool {
    &&& accin.private_identifier == accout.private_identifier
    &&& accin.subpool_id == accout.subpool_id
    &&& accout.nonce == accin.nonce + F::of(1)
}

/// The invariants that hold for deposits and withdrawals: identity kept, nonce
/// incremented by one, and both auth keys frozen.
pub fn assert_account_invariants_simple(accin: &AccountTarget, accout: &AccountTarget) -> (r: bool)
    ensures
        r == (identity_kept(*accin, *accout) && same_auth(*accin, *accout)),
{
    accin.private_identifier == accout.private_identifier && accin.subpool_id == accout.subpool_id
        && accout.nonce == accin.nonce + F::one() && accout.spend_auth == accin.spend_auth
        && accout.consume_pk == accin.consume_pk && accout.consume_config == accin.consume_config
}

/// The invariants of a private transaction: identity kept and nonce incremented;
/// the state root is frozen unless the transaction spends, and the auth keys are
/// frozen if it does.
pub open spec fn account_invariants(accin: AccountTarget, accout: AccountTarget, is_priv_tx: bool) ->
    bool {
    &&& identity_kept(accin, accout)
    &&& !is_priv_tx ==> accout.acc_ast_root == accin.acc_ast_root
    &&& is_priv_tx ==> same_auth(accin, accout)
}

/// Enforces the invariants of a private transaction.
pub fn assert_account_invariants(accin: &AccountTarget, accout: &AccountTarget, is_priv_tx: bool) -> (r:
    bool)
    ensures
        r == account_invariants(*accin, *accout, is_priv_tx),
{
    accin.private_identifier == accout.private_identifier && accin.subpool_id == accout.subpool_id
        && accout.nonce == accin.nonce + F::one() && (is_priv_tx || accout.acc_ast_root
        == accin.acc_ast_root) && (!is_priv_tx || (accout.spend_auth == accin.spend_auth
        && accout.consume_pk == accin.consume_pk && accout.consume_config == accin.consume_config))
}

/// The root that a path leads to from a leaf.
pub fn compute_merkle_root_gadget<H: Fn(Vec<F>, usize) -> Vec<F>>(
    h: &H,
    leaf: HashOutput,
    path: &Vec<MerkleProofStep>,
) -> (r: HashOutput)
    requires
        is_sponge(*h),
    ensures
        r == path_root(*h, leaf, path@),
{
    let mut current = leaf;
    let mut i: usize = 0;
    while i < path.len()
        invariant
            i <= path@.len(),
            is_sponge(*h),
            current == path_root(*h, leaf, path@.take(i as int)),
        decreases path@.len() - i,
    {
        let step = path[i];
        assert(path@.take(i + 1).drop_last() =~= path@.take(i as int));
        current = match step.direction {
            Direction::Left => two_to_one(h, step.sibling, current),
            Direction::Right => two_to_one(h, current, step.sibling),
        };
        i += 1;
    }
    assert(path@.take(i as int) =~= path@);
    current
}

/// Whether a path has the depth of a tree and, where it is selected, leads from
/// the leaf to the root.
pub open spec fn member<H: Fn(Vec<F>, usize) -> Vec<F>>(
    h: H,
    leaf: HashOutput,
    root: HashOutput,
    selector: bool,
    path: Seq<MerkleProofStep>,
    depth: nat,
) -> bool {
    path.len() == depth && (selector ==> path_root(h, leaf, path) == root)
}

/// Verifies a path where it is selected; where it is not, any path of the right
/// depth will do.
pub fn conditional_merkle_verify_gadget<H: Fn(Vec<F>, usize) -> Vec<F>>(
    h: &H,
    leaf: HashOutput,
    expected_root: HashOutput,
    selector: bool,
    path: &Vec<MerkleProofStep>,
    depth: usize,
) -> (r: bool)
    requires
        is_sponge(*h),
    ensures
        r == member(*h, leaf, expected_root, selector, path@, depth as nat),
{
    path.len() == depth && (!selector || compute_merkle_root_gadget(h, leaf, path)
        == expected_root)
}

/// A path of zeros: what stands where no path is checked.
pub open spec fn dummy_path(path: Seq<MerkleProofStep>, depth: nat) -> bool {
    &&& path.len() == depth
    &&& forall|i: int|
        0 <= i < depth ==> #[trigger] path[i] == (MerkleProofStep {
            sibling: HashOutput(F::of(0), F::of(0), F::of(0), F::of(0)),
            direction: Direction::Right,
        })
}

/// A path of zeros.
pub fn set_dummy_witness(depth: usize) -> (r: Vec<MerkleProofStep>)
    ensures
        dummy_path(r@, depth as nat),
{
    let step = MerkleProofStep { sibling: HashOutput::zero(), direction: Direction::Right };
    let mut v: Vec<MerkleProofStep> = Vec::new();
    let mut i: usize = 0;
    while i < depth
        invariant
            i <= depth,
            v@.len() == i,
            step == (MerkleProofStep {
                sibling: HashOutput(F::of(0), F::of(0), F::of(0), F::of(0)),
                direction: Direction::Right,
            }),
            forall|j: int| 0 <= j < i ==> #[trigger] v@[j] == step,
        decreases depth - i,
    {
        v.push(step);
        i += 1;
    }
    v
}

/// A copy of a path.
pub fn copy_path(path: &Vec<MerkleProofStep>) -> (r: Vec<MerkleProofStep>)
    ensures
        r@ == path@,
{
    let mut v: Vec<MerkleProofStep> = Vec::new();
    let mut i: usize = 0;
    while i < path.len()
        invariant
            i <= path@.len(),
            v@ == path@.take(i as int),
        decreases path@.len() - i,
    {
        v.push(path[i]);
        i += 1;
        assert(v@ =~= path@.take(i as int));
    }
    assert(path@.take(i as int) =~= path@);
    v
}

/// The leaf of a balance, or the empty leaf if the asset is not there.
pub open spec fn asset_leaf<H: Fn(Vec<F>, usize) -> Vec<F>>(
    h: H,
    asset_id: AssetId,
    amount: U256,
    exists_in: bool,
) -> HashOutput {
    if exists_in {
        digest(h, (AccountStateTreeLeaf { asset_id, amount }).preimage())
    } else {
        HashOutput(F::of(0), F::of(0), F::of(0), F::of(0))
    }
}

/// Whether a balance (or none, and then the amount is zero) is the leaf of a
/// state tree at the place of a path.
pub open spec fn asset_in_ast<H: Fn(Vec<F>, usize) -> Vec<F>>(
    h: H,
    asset_id: AssetId,
    amt: U256,
    root: HashOutput,
    exists_in: bool,
    path: Seq<MerkleProofStep>,
) -> bool {
    &&& path.len() == ACC_AST_DEPTH
    &&& path_root(h, asset_leaf(h, asset_id, amt, exists_in), path) == root
    &&& !exists_in ==> amt.value() == 0
}

/// Proves that `(asset_id, amt)` is a leaf in the state tree with the given root.
/// When the asset is not there, the leaf is the empty one and the amount must be
/// zero.
pub fn assert_asset_amt_or_default_in_ast<H: Fn(Vec<F>, usize) -> Vec<F>>(
    h: &H,
    asset_id: AssetId,
    amt: &U256,
    root: HashOutput,
    selector: bool,
    path: &Vec<MerkleProofStep>,
) -> (r: bool)
    requires
        is_sponge(*h),
    ensures
        r == asset_in_ast(*h, asset_id, *amt, root, selector, path@),
{
    let leaf = if selector {
        (AccountStateTreeLeaf { asset_id, amount: *amt }).commitment(h)
    } else {
        HashOutput::zero()
    };
    path.len() == ACC_AST_DEPTH && compute_merkle_root_gadget(h, leaf, path) == root && (selector
        || amt.is_zero())
}

/// Whether the state trees of two accounts differ at most in the balance of one
/// asset: both hold it at the place of the same path.
pub open spec fn ast_update<H: Fn(Vec<F>, usize) -> Vec<F>>(
    h: H,
    asset_id: AssetId,
    accin_amt: U256,
    accout_amt: U256,
    accin_root: HashOutput,
    accout_root: HashOutput,
    exists_in: bool,
    exists_out: bool,
    path: Seq<MerkleProofStep>,
) -> bool {
    &&& asset_in_ast(h, asset_id, accin_amt, accin_root, exists_in, path)
    &&& asset_in_ast(h, asset_id, accout_amt, accout_root, exists_out, path)
}

/// Verifies that both state trees hold the asset at the same place: the same
/// siblings and path bits.
pub fn assert_ast_update<H: Fn(Vec<F>, usize) -> Vec<F>>(
    h: &H,
    asset_id: AssetId,
    accin_amt: &U256,
    accout_amt: &U256,
    accin_root: HashOutput,
    accout_root: HashOutput,
    exists_in: bool,
    exists_out: bool,
    path: &Vec<MerkleProofStep>,
) -> (r: bool)
    requires
        is_sponge(*h),
    ensures
        r == ast_update(
            *h,
            asset_id,
            *accin_amt,
            *accout_amt,
            accin_root,
            accout_root,
            exists_in,
            exists_out,
            path@,
        ),
{
    assert_asset_amt_or_default_in_ast(h, asset_id, accin_amt, accin_root, exists_in, path)
        && assert_asset_amt_or_default_in_ast(
        h,
        asset_id,
        accout_amt,
        accout_root,
        exists_out,
        path,
    )
}

/// The values of the wires of the proofs of the authority keys.
pub struct SubpoolFullProofTargets {
    pub approval_proof: Vec<MerkleProofStep>,
    pub rejection_proof: Vec<MerkleProofStep>,
    pub consume_proof: Vec<MerkleProofStep>,
    pub main_pool_proof: Vec<MerkleProofStep>,
    pub subpool_config_root: HashOutput,
}

impl SubpoolFullProofTargets {
    /// The wires for a full proof.
    pub fn set_witness(p: &SubpoolFullProof, subpool_root: HashOutput) -> (r: Self)
        ensures
            r.approval_proof@ == p.approval_proof.path@,
            r.rejection_proof@ == p.rejection_proof.path@,
            r.consume_proof@ == p.consume_proof.path@,
            r.main_pool_proof@ == p.main_pool_proof.path@,
            r.subpool_config_root == subpool_root,
    {
        SubpoolFullProofTargets {
            approval_proof: copy_path(&p.approval_proof.path),
            rejection_proof: copy_path(&p.rejection_proof.path),
            consume_proof: copy_path(&p.consume_proof.path),
            main_pool_proof: copy_path(&p.main_pool_proof.path),
            subpool_config_root: subpool_root,
        }
    }

    /// Wires of zeros, for a transaction that does not check them.
    pub fn set_fake() -> (r: Self)
        ensures
            dummy_path(r.approval_proof@, 2),
            dummy_path(r.rejection_proof@, 2),
            dummy_path(r.consume_proof@, 2),
            dummy_path(r.main_pool_proof@, 20),
            r.subpool_config_root == HashOutput(F::of(0), F::of(0), F::of(0), F::of(0)),
    {
        SubpoolFullProofTargets {
            approval_proof: set_dummy_witness(SUBPOOL_CONFIG_DEPTH),
            rejection_proof: set_dummy_witness(SUBPOOL_CONFIG_DEPTH),
            consume_proof: set_dummy_witness(SUBPOOL_CONFIG_DEPTH),
            main_pool_proof: set_dummy_witness(MAIN_POOL_CONFIG_DEPTH),
            subpool_config_root: HashOutput::zero(),
        }
    }
}

/// Whether the authority keys are leaves of a subpool's configuration, and that
/// configuration with the subpool's id a leaf of the main pool's; all only for a
/// real transaction.
pub open spec fn subpool_proven<H: Fn(Vec<F>, usize) -> Vec<F>>(
    h: H,
    subpool_id: SubpoolId,
    approval: CompPubKey,
    rejection: CompPubKey,
    consume: CompPubKey,
    mainpool_root: HashOutput,
    checked: bool,
    t: SubpoolFullProofTargets,
) -> bool {
    let root = t.subpool_config_root;
    &&& member(h, key_node(h, approval), root, checked, t.approval_proof@, 2)
    &&& member(h, key_node(h, rejection), root, checked, t.rejection_proof@, 2)
    &&& member(h, key_node(h, consume), root, checked, t.consume_proof@, 2)
    &&& member(
        h,
        digest(h, (MainPoolConfigLeaf { subpool_root: root, subpool_id }).preimage()),
        mainpool_root,
        checked,
        t.main_pool_proof@,
        20,
    )
}

/// Verifies all three authority key proofs and the main-pool inclusion proof.
pub fn assert_subpool_full_proof<H: Fn(Vec<F>, usize) -> Vec<F>>(
    h: &H,
    subpool_id: SubpoolId,
    approval_key: CompPubKey,
    rejection_key: CompPubKey,
    consume_key: CompPubKey,
    mainpool_config_root: HashOutput,
    not_fake_tx: bool,
    t: &SubpoolFullProofTargets,
) -> (r: bool)
    requires
        is_sponge(*h),
    ensures
        r == subpool_proven(
            *h,
            subpool_id,
            approval_key,
            rejection_key,
            consume_key,
            mainpool_config_root,
            not_fake_tx,
            *t,
        ),
{
    let root = t.subpool_config_root;
    conditional_merkle_verify_gadget(
        h,
        SubpoolConfigLeaf(Some(approval_key)).node(h),
        root,
        not_fake_tx,
        &t.approval_proof,
        SUBPOOL_CONFIG_DEPTH,
    ) && conditional_merkle_verify_gadget(
        h,
        SubpoolConfigLeaf(Some(rejection_key)).node(h),
        root,
        not_fake_tx,
        &t.rejection_proof,
        SUBPOOL_CONFIG_DEPTH,
    ) && conditional_merkle_verify_gadget(
        h,
        SubpoolConfigLeaf(Some(consume_key)).node(h),
        root,
        not_fake_tx,
        &t.consume_proof,
        SUBPOOL_CONFIG_DEPTH,
    ) && conditional_merkle_verify_gadget(
        h,
        MainPoolConfigLeaf::new(root, subpool_id).node(h),
        mainpool_config_root,
        not_fake_tx,
        &t.main_pool_proof,
        MAIN_POOL_CONFIG_DEPTH,
    )
}

/// Verifies that an account commitment is in the commitment tree, where the
/// condition is set.
pub fn conditionally_assert_account_commitment_exists_in_act<H: Fn(Vec<F>, usize) -> Vec<F>>(
    h: &H,
    acc_comm: &AccountCommitment,
    root: HashOutput,
    condition: bool,
    path: &Vec<MerkleProofStep>,
) -> (r: bool)
    requires
        is_sponge(*h),
    ensures
        r == member(*h, acc_comm.0, root, condition, path@, 32),
{
    conditional_merkle_verify_gadget(h, acc_comm.0, root, condition, path, STATE_TREE_DEPTH)
}

} // verus!
