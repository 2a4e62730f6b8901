//! When a step can be taken, and which signatures a transaction asks for.
use vstd::prelude::*;

use crate::account::{ConsumeAuth, PrivateIdentifier, StandardAccount, SubpoolId};
use crate::addition::{sum_of, u256_addition_chain};
use crate::ast::{
    ast_leaves, balance_of, contiguous, has_asset, holds_entry, AccountStateTree, AssetId,
    AssetMapEntry, AstError,
};
use crate::building_laws::plain_amounts;
use crate::built_priv_tx::BuiltPrivTx;
use crate::deposit_tx::BuiltDepositTx;
use crate::errors::PrivTxProveError;
use crate::field::F;
use crate::freshacc_tx::FreshAccInputs;
use crate::hash::{absorbs, digest, is_sponge, HashOutput};
use crate::note::ast_default_root;
use crate::pool_config::{MainPoolConfigLeaf, MainPoolConfigTree, SubpoolConfigTree};
use crate::reject_tx::RejectTxInputs;
use crate::scalar::Scalar;
use crate::schnorr::{is_signature, CompPubKey, PrivateKey};
use crate::spend_builder::{BuiltSpendTx, RequiredSignatures};
use crate::tree::{path_root, tree_node, MerkleProof, MerkleTree};
use crate::tx_witness::{amounts_of, PreparedTx, SpendTxInputs};
use crate::u256::U256;
use crate::withdraw_slots::{can_withdraw, total_of};
use crate::withdraw_tx::BuiltWithdrawTx;

verus! {

/// A spend asks for the spend signature where notes go out, for the consume signature
/// where notes only come in and the account consumes under a key of its own, and for
/// the approval always.
pub proof fn lemma_asks_for(t: &BuiltSpendTx, r: RequiredSignatures)
    requires
        call_ensures(BuiltSpendTx::required_signatures, (t,), r),
    ensures
        r.spend == (t.onotes@.len() > 0),
        r.consume == (t.inotes@.len() > 0 && t.onotes@.len() == 0 && t.accin.consume_auth.config),
        r.approval,
{
}

/// An approval signs the hash of the transaction, and changes nothing else of it.
pub proof fn lemma_approves<H: Fn(Vec<F>, usize) -> Vec<F>>(
    h: H,
    t: BuiltSpendTx,
    sk: &PrivateKey,
    k: Scalar,
    u: BuiltSpendTx,
)
    requires
        call_ensures(BuiltSpendTx::approval_sign::<H>, (t, &h, sk, k), u),
    ensures
        u == (BuiltSpendTx { approval_sig: u.approval_sig, ..t }),
        u.approval_sig matches Some(s) && is_signature(h, *sk, t.tx_hash.elements(), k, s),
{
}

/// Withdrawals can be made exactly where a leaf holds each asset and the withdrawals
/// of the asset together take no more than its balance.
pub proof fn lemma_can_withdraw(ast: &AccountStateTree, w: &[(AssetId, U256)], r: bool)
    requires
        call_ensures(can_withdraw, (ast, w), r),
    ensures
        r == (forall|i: int|
            0 <= i < w@.len() ==> {
                &&& exists|j: int|
                    0 <= j < ast@.len() && (#[trigger] ast@[j]).asset_id == (#[trigger] w@[i]).0
                &&& total_of(w@, w@[i].0) <= balance_of(ast@, w@[i].0)
            }),
{
    if r {
        assert forall|i: int| 0 <= i < w@.len() implies {
            &&& exists|j: int|
                0 <= j < ast@.len() && (#[trigger] ast@[j]).asset_id == (#[trigger] w@[i]).0
            &&& total_of(w@, w@[i].0) <= balance_of(ast@, w@[i].0)
        } by {
            assert(has_asset(ast@, w@[i].0));
        }
    } else {
        let i = choose|i: int|
            0 <= i < w@.len() && !(has_asset(ast@, (#[trigger] w@[i]).0) && total_of(w@, w@[i].0)
                <= balance_of(ast@, w@[i].0));
        assert(w@[i].0 == w@[i].0);
        assert(has_asset(ast@, w@[i].0) == exists|j: int|
            0 <= j < ast@.len() && (#[trigger] ast@[j]).asset_id == w@[i].0);
    }
}

/// A built deposit can be prepared exactly where each account that consumes under a key
/// of its own has one, there is a leaf for the asset or room for one, and the balance
/// after fits in 256 bits.
pub proof fn lemma_deposit_fits(t: &BuiltDepositTx, r: bool)
    requires
        call_ensures(BuiltDepositTx::is_fit, (t,), r),
    ensures
        r == {
            &&& t.accin.consume_auth.config ==> t.accin.consume_auth.pk is Some
            &&& t.accout.consume_auth.config ==> t.accout.consume_auth.pk is Some
            &&& has_asset(t.accin.ast@, t.deposit_note.asset_id) || t.accin.ast@.len() < 1024
            &&& balance_of(t.accin.ast@, t.deposit_note.asset_id) + t.deposit_note.amount.value()
                < 0x1_0000_0000_0000_0000_0000_0000_0000_0000_0000_0000_0000_0000_0000_0000_0000_0000nat
        },
{
}

/// A built withdrawal can be prepared exactly where it has at most seven slots, the
/// padding has a free leaf, and its withdrawals can be made.
pub proof fn lemma_withdraw_fits(
    t: &BuiltWithdrawTx,
    r: bool,
    w: &[(AssetId, U256)],
    possible: bool,
)
    requires
        w@ == t.withdrawals@,
        call_ensures(can_withdraw, (&t.accin.ast, w), possible),
        call_ensures(BuiltWithdrawTx::is_fit, (t,), r),
    ensures
        r == (w@.len() <= 7 && (w@.len() == 7 || t.accin.ast@.len() < 1024) && possible),
{
}

/// A spend can be prepared exactly where the account has a spend key, there are at most
/// seven notes on either side and at least one in all, every input note has a proof with
/// a position in the field, there is a leaf for the asset or room for one, and the
/// outputs take no more than the balance and the inputs, all of it within 256 bits.
pub proof fn lemma_spend_fits(t: &SpendTxInputs, r: bool)
    requires
        call_ensures(SpendTxInputs::is_fit, (t,), r),
    ensures
        ({
            let a = if t.inotes@.len() > 0 {
                t.inotes@[0].asset_id
            } else {
                t.onotes@[0].asset_id
            };
            let before = balance_of(t.accin.ast@, a);
            let (i, o) = (sum_of(plain_amounts(t.inotes@)), sum_of(plain_amounts(t.onotes@)));
            let bound =
                0x1_0000_0000_0000_0000_0000_0000_0000_0000_0000_0000_0000_0000_0000_0000_0000_0000nat;
            r == {
                &&& t.accin.spend_auth.spend_pk is Some
                &&& t.inotes@.len() <= 7
                &&& t.onotes@.len() <= 7
                &&& t.inotes@.len() + t.onotes@.len() > 0
                &&& t.inotes_nct_proofs@.len() == t.inotes@.len()
                &&& forall|k: int|
                    0 <= k < t.inotes@.len() ==> (#[trigger] t.inotes_nct_proofs@[k]).leaf_index
                        < 0xffff_ffff_0000_0001
                &&& has_asset(t.accin.ast@, a) || t.accin.ast@.len() < 1024
                &&& before + i < bound
                &&& o < bound
                &&& o <= before + i
            }
        }),
{
    assert(plain_amounts(t.inotes@) =~= amounts_of(t.inotes@));
    assert(plain_amounts(t.onotes@) =~= amounts_of(t.onotes@));
}

/// The chain of additions gives the sum of all its numbers, modulo 2 to the 256.
pub proof fn lemma_addition_chain(x: &U256, s: &[U256], r: U256)
    requires
        call_ensures(u256_addition_chain, (x, s), r),
    ensures
        r.value() == (x.value() + sum_of(s@))
            % 0x1_0000_0000_0000_0000_0000_0000_0000_0000_0000_0000_0000_0000_0000_0000_0000_0000nat,
{
}

/// A transaction is prepared exactly where its subpool, with the three keys that it
/// names, was set in the main pool.
pub proof fn lemma_prepared_where_set<H: Fn(Vec<F>, usize) -> Vec<F>>(
    h: H,
    approval: CompPubKey,
    rejection: CompPubKey,
    consume: CompPubKey,
    id: SubpoolId,
    config: SubpoolConfigTree,
    root: HashOutput,
    s: &SpendTxInputs,
    j: &RejectTxInputs,
    f: &FreshAccInputs,
    a: Option<(PreparedTx, StandardAccount)>,
    b: Option<(PreparedTx, StandardAccount)>,
    c: Option<(PreparedTx, StandardAccount)>,
)
    requires
        call_ensures(SubpoolConfigTree::new::<H>, (&h, approval, rejection, consume), config),
        call_ensures(SubpoolConfigTree::root::<H>, (&config, &h), root),
        s.approval_key == approval && s.rejection_key == rejection && s.consume_key == consume,
        s.subpool_id == id,
        j.approval_key == approval && j.rejection_key == rejection && j.consume_key == consume,
        j.subpool_id == id,
        f.approval_key == approval && f.rejection_key == rejection && f.consume_key == consume,
        f.subpool_id == id,
        call_ensures(SpendTxInputs::prepare_spend::<H>, (s, &h), a),
        call_ensures(RejectTxInputs::prepare_reject::<H>, (j, &h), b),
        call_ensures(FreshAccInputs::prepare_freshacc::<H>, (f, &h), c),
    ensures
        ({
            let leaf = MainPoolConfigLeaf { subpool_root: root, subpool_id: id };
            &&& a is Some <==> s.main_pool.places().contains_key(leaf)
            &&& b is Some <==> j.main_pool.places().contains_key(leaf)
            &&& c is Some <==> f.main_pool.places().contains_key(leaf)
        }),
{
    config.lemma_top(h);
}

/// A state tree that is rebuilt from its entries has as many leaves as there are entries,
/// at most 1024, and each leaf is that of an entry with its index.
pub proof fn lemma_rebuilt_leaf<H: Fn(Vec<F>, usize) -> Vec<F>>(
    h: H,
    map: &Vec<AssetMapEntry>,
    t: AccountStateTree,
    k: int,
) -> (j: int)
    requires
        call_ensures(
            AccountStateTree::new_from_asset_map::<H>,
            (&h, map),
            Ok::<AccountStateTree, AstError>(t),
        ),
        0 <= k < map@.len(),
    ensures
        t@.len() == map@.len(),
        map@.len() <= 1024,
        0 <= j < map@.len(),
        map@[j].leaf_index == k,
        t@[k].asset_id == map@[j].asset_id,
        t@[k].amount == map@[j].amount,
{
    assert(holds_entry(map@, k, t@[k]));
    choose|j: int|
        0 <= j < map@.len() && (#[trigger] map@[j]).leaf_index == k && map@[j].leaf() == t@[k]
}

/// Where entries are refused, there are more than 1024 of them, or an index below their
/// number is missing, and the error names it.
pub proof fn lemma_not_rebuilt<H: Fn(Vec<F>, usize) -> Vec<F>>(
    h: H,
    map: &Vec<AssetMapEntry>,
    e: AstError,
    j: int,
)
    requires
        call_ensures(
            AccountStateTree::new_from_asset_map::<H>,
            (&h, map),
            Err::<AccountStateTree, AstError>(e),
        ),
        0 <= j < map@.len(),
    ensures
        match e {
            AstError::NotContiguous { expected } => expected < map@.len() && map@[j].leaf_index
                != expected,
            AstError::Full => map@.len() > 1024,
            _ => false,
        },
{
    if !contiguous(map@, map@.len() as int) {
        assert(e is NotContiguous);
    }
}

/// The proof that a tree gives for a leaf that was set is that of the place where it was
/// set last, and leads from the leaf to the root while the leaf still stands there.
pub proof fn lemma_proof_of_leaf<H: Fn(Vec<F>, usize) -> Vec<F>>(
    h: H,
    t: &MerkleTree,
    leaf: HashOutput,
    r: Option<MerkleProof>,
)
    requires
        t.wf(h),
        call_ensures(MerkleTree::merkle_proof, (t, leaf), r),
    ensures
        r is Some <==> t.places().contains_key(leaf),
        r matches Some(p) ==> {
            &&& p.leaf == leaf
            &&& p.leaf_index == t.places()[leaf]
            &&& p.root == t.top()
            &&& p.path@.len() == t.spec_depth()
            &&& (t.leaf_at())(t.places()[leaf]) == leaf ==> path_root(h, leaf, p.path@) == t.top()
        },
{
    if let Some(p) = r {
        if (t.leaf_at())(t.places()[leaf]) == leaf {
            t.lemma_leaf_proof_verifies(h, leaf, p);
        }
    }
}

/// The proof of a subpool is there exactly where the subpool was set, and is that of the
/// place where it was set last.
pub proof fn lemma_proof_of_subpool<H: Fn(Vec<F>, usize) -> Vec<F>>(
    h: H,
    pool: &MainPoolConfigTree,
    id: SubpoolId,
    root: HashOutput,
    r: Option<MerkleProof>,
)
    requires
        pool.wf(h),
        call_ensures(MainPoolConfigTree::subpool_proof::<H>, (pool, &h, id, root), r),
    ensures
        ({
            let leaf = MainPoolConfigLeaf { subpool_root: root, subpool_id: id };
            let node = digest(h, seq![root.0, root.1, root.2, root.3, id.0]);
            let at = pool.places()[leaf];
            &&& r is Some <==> pool.places().contains_key(leaf)
            &&& r matches Some(p) ==> {
                &&& p.leaf == node
                &&& p.leaf_index == at
                &&& p.root == pool.top()
                &&& p.path@.len() == 20
                &&& (pool.nodes().leaf_at())(at) == node ==> path_root(h, node, p.path@)
                    == pool.top()
            }
        }),
{
    let leaf = MainPoolConfigLeaf { subpool_root: root, subpool_id: id };
    assert(leaf.preimage() =~= seq![root.0, root.1, root.2, root.3, id.0]);
    if let Some(p) = r {
        if (pool.nodes().leaf_at())(pool.places()[leaf]) == p.leaf {
            pool.lemma_subpool_proof_verifies(h, leaf, p);
        }
    }
}

/// A new account has the identifier and the subpool that it was given, no balance, no
/// key and the nonce zero, and is the only kind that counts as fresh. A copy with the
/// next nonce is the same in all else.
pub proof fn lemma_account_life<H: Fn(Vec<F>, usize) -> Vec<F>>(
    h: H,
    id: PrivateIdentifier,
    subpool: SubpoolId,
    a: StandardAccount,
    b: &StandardAccount,
    fresh: bool,
    c: StandardAccount,
)
    requires
        call_ensures(StandardAccount::new_with::<H>, (&h, id, subpool), a),
        call_ensures(StandardAccount::is_fresh, (b,), fresh),
        call_ensures(StandardAccount::clone_with_incremented_nonce, (b,), c),
    ensures
        a.private_identifier == id,
        a.subpool_id == subpool,
        a.nonce.0@ == 0,
        a.spend_auth.spend_pk is None,
        !a.consume_auth.config && a.consume_auth.pk is None,
        a.ast@.len() == 0,
        fresh == (b.nonce.0@ == 0 && b.spend_auth.spend_pk is None && !b.consume_auth.config
            && b.consume_auth.pk is None && b.ast@.len() == 0),
        c.private_identifier == b.private_identifier,
        c.subpool_id == b.subpool_id,
        c.nonce.0@ == (b.nonce.0@ + 1) % 0xffff_ffff_0000_0001,
        c.spend_auth == b.spend_auth,
        c.consume_auth == b.consume_auth,
        c.ast@ == b.ast@,
        c.ast.top() == b.ast.top(),
{
}

/// The root of a state tree without balances is the top of ten levels over zero leaves.
pub proof fn lemma_default_root<H: Fn(Vec<F>, usize) -> Vec<F>>(
    h: H,
    r: HashOutput,
) -> (f: spec_fn(nat) -> HashOutput)
    requires
        call_ensures(ast_default_root::<H>, (&h,), r),
    ensures
        r == tree_node(h, f, 10, 0),
        forall|i: nat|
            #[trigger] f(i) == HashOutput(F::of(0), F::of(0), F::of(0), F::of(0)),
{
    ast_leaves(h, Seq::empty())
}

/// A function that takes every input, gives as many elements as it is asked for, and
/// gives the same elements for the same input can be used to hash.
pub proof fn lemma_can_hash<H: Fn(Vec<F>, usize) -> Vec<F>>(h: H)
    requires
        forall|x: Vec<F>, n: usize| #[trigger] h.requires((x, n)),
        forall|x: Vec<F>, n: usize, y: Vec<F>| #[trigger]
            h.ensures((x, n), y) ==> y@.len() == n,
        forall|x: Vec<F>, y: Vec<F>, n: usize, v: Vec<F>, w: Vec<F>| #[trigger]
            h.ensures((x, n), v) && #[trigger] h.ensures((y, n), w) && x@ == y@ ==> v@ == w@,
    ensures
        is_sponge(h),
{
    assert forall|x: Seq<F>, n: nat, y: Seq<F>, z: Seq<F>| #[trigger]
        absorbs(h, x, n, y) && #[trigger] absorbs(h, x, n, z) implies y == z by {
        let (a, m, v) = choose|xv: Vec<F>, m: usize, yv: Vec<F>|
            #![trigger h.ensures((xv, m), yv)]
            xv@ == x && m == n && yv@ == y && h.ensures((xv, m), yv);
        let (b, k, w) = choose|xv: Vec<F>, m: usize, yv: Vec<F>|
            #![trigger h.ensures((xv, m), yv)]
            xv@ == x && m == n && yv@ == z && h.ensures((xv, m), yv);
        assert(m == k);
        assert(h.ensures((a, m), v) && h.ensures((b, m), w));
    }
}

/// The wires of a built private transaction are made exactly where its notes and seeds
/// fill the seven slots on both sides.
pub proof fn lemma_slots_filled<H: Fn(Vec<F>, usize) -> Vec<F>>(
    h: H,
    t: &BuiltPrivTx,
    r: Result<PreparedTx, PrivTxProveError>,
)
    requires
        call_ensures(BuiltPrivTx::set_transaction_witnesses::<H>, (t, &h), r),
    ensures
        r is Ok <==> {
            let n = t.rejected_inotes@.len();
            &&& n + t.inotes@.len() + t.dinotes@.len() == 7
            &&& n + t.onotes@.len() + t.donotes@.len() == 7
        },
{
}

/// The wires of a built private transaction can be made where every note that comes in
/// has a proof with a position in the field, and each account that consumes under a key
/// of its own has one.
pub proof fn lemma_built_fits(t: &BuiltPrivTx, r: bool, a: &ConsumeAuth, v: bool)
    requires
        call_ensures(BuiltPrivTx::is_fit, (t,), r),
        call_ensures(ConsumeAuth::is_valid, (a,), v),
    ensures
        r == {
            &&& t.accin.consume_auth.config ==> t.accin.consume_auth.pk is Some
            &&& t.accout.consume_auth.config ==> t.accout.consume_auth.pk is Some
            &&& t.rejected_inotes_nct_proofs@.len() == t.rejected_inotes@.len()
            &&& t.inotes_nct_proofs@.len() == t.inotes@.len()
            &&& forall|k: int|
                0 <= k < t.rejected_inotes@.len() ==> (
                #[trigger] t.rejected_inotes_nct_proofs@[k]).leaf_index < 0xffff_ffff_0000_0001
            &&& forall|k: int|
                0 <= k < t.inotes@.len() ==> (#[trigger] t.inotes_nct_proofs@[k]).leaf_index
                    < 0xffff_ffff_0000_0001
        },
        v == (a.config ==> a.pk is Some),
{
}

/// A rejection can be prepared exactly where the account has a spend key, at most seven
/// notes come in and as many go out, every note that comes in has a proof with a position
/// in the field, and there is a leaf for the asset or room for one.
pub proof fn lemma_reject_fits(t: &RejectTxInputs, r: bool)
    requires
        call_ensures(RejectTxInputs::is_fit, (t,), r),
    ensures
        r == {
            let a = if t.inotes@.len() > 0 {
                t.inotes@[0].asset_id
            } else {
                AssetId(F::of(0))
            };
            &&& t.accin.spend_auth.spend_pk is Some
            &&& t.inotes@.len() <= 7
            &&& t.onotes@.len() == t.inotes@.len()
            &&& t.inotes_nct_proofs@.len() == t.inotes@.len()
            &&& forall|k: int|
                0 <= k < t.inotes@.len() ==> (#[trigger] t.inotes_nct_proofs@[k]).leaf_index
                    < 0xffff_ffff_0000_0001
            &&& has_asset(t.accin.ast@, a) || t.accin.ast@.len() < 1024
        },
{
}

} // verus!
