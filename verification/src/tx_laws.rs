//! What a private transaction that meets its conditions does, and that the wires
//! computed for a transaction meet them.
use vstd::arithmetic::div_mod::lemma_small_mod;
use vstd::prelude::*;

use crate::account::StandardAccount;
use crate::addition::sum_of;
use crate::ast::{
    balance_of, has_asset, lemma_balance_of, set_balance, AccountStateTreeLeaf, AssetId,
};
use crate::circuit::{
    asset_in_ast, identity_kept, same_auth, subpool_proven, SubpoolFullProofTargets,
};
use crate::fake_tx::FakeTxInputs;
use crate::field::F;
use crate::freshacc_tx::{first_path, no_assets, FreshAccInputs};
use crate::hash::{digest, HashOutput};
use crate::params::NOTE_BATCH;
use crate::pool_config::MainPoolConfigTree;
use crate::priv_tx::{
    accounts_hold, effective_commitments, effective_nullifiers, inote_valid, input_amounts,
    lemma_value_injective, mirrors, notes_hold, output_amounts, owner_of, priv_tx_holds, spend_required, InputSlot,
    OutputSlot, PrivTxPublicInputs, TxCircuitPrivateTargets, TxCircuitTargets,
};
use crate::reject_tx::RejectTxInputs;
use crate::tree::{path_root, MerkleProof, MerkleProofStep};
use crate::tx_witness::{
    address_of, amounts_of, asset_path, asset_place, authority_wires, idle_input, idle_output,
    input_laid, inputs_laid, output_laid, outputs_laid, subpool_leaf, PreparedTx, SpendTxInputs,
};
use crate::u256::{u256_bound, U256};

verus! {

/// Assets are conserved: where neither side overflows 256 bits, the balance
/// before and the active input notes are together exactly the balance after and
/// the active output notes.
pub proof fn lemma_conserves<H: Fn(Vec<F>, usize) -> Vec<F>>(h: H, t: TxCircuitTargets)
    requires
        priv_tx_holds(h, t),
        t.private.accin_amt.value() + sum_of(input_amounts(t.private.inotes@)) < u256_bound(),
        t.private.accout_amt.value() + sum_of(output_amounts(t.private.onotes@)) < u256_bound(),
    ensures
        t.private.accin_amt.value() + sum_of(input_amounts(t.private.inotes@))
            == t.private.accout_amt.value() + sum_of(output_amounts(t.private.onotes@)),
{
    reveal(notes_hold);
    let a = t.private.accin_amt.value() + sum_of(input_amounts(t.private.inotes@));
    let b = t.private.accout_amt.value() + sum_of(output_amounts(t.private.onotes@));
    lemma_small_mod(a, u256_bound());
    lemma_small_mod(b, u256_bound());
}

/// Every transaction keeps the account's identifier and subpool and increments
/// its nonce. One that spends keeps the auth keys; one that does not keeps the
/// state tree.
pub proof fn lemma_transition<H: Fn(Vec<F>, usize) -> Vec<F>>(h: H, t: TxCircuitTargets)
    requires
        priv_tx_holds(h, t),
    ensures
        identity_kept(t.private.accin, t.private.accout),
        t.private.flags.is_priv_tx ==> same_auth(t.private.accin, t.private.accout),
        !t.private.flags.is_priv_tx ==> t.private.accout.acc_ast_root
            == t.private.accin.acc_ast_root,
{
    reveal(accounts_hold);
}

/// The public inputs of a real transaction are those of its accounts.
pub proof fn lemma_public_accounts<H: Fn(Vec<F>, usize) -> Vec<F>>(h: H, t: TxCircuitTargets)
    requires
        priv_tx_holds(h, t),
        t.public.not_fake_tx,
    ensures
        t.public.accin_nullifier == t.private.accin.nullifier(h),
        t.public.accout_commitment == t.private.accout.commitment(h),
        !t.private.flags.is_fresh_acc ==> path_root(
            h,
            t.private.accin.commitment(h),
            t.private.accin_act_merkle@,
        ) == t.public.state_root,
{
    reveal(accounts_hold);
}

/// A reject returns every note to its sender, and moves nothing else.
pub proof fn lemma_reject_returns<H: Fn(Vec<F>, usize) -> Vec<F>>(h: H, t: TxCircuitTargets, k: int)
    requires
        priv_tx_holds(h, t),
        t.private.flags.is_rjct,
        0 <= k < NOTE_BATCH,
    ensures
        t.private.onotes@[k].note.recipient == t.private.inotes@[k].note.sender,
        t.private.onotes@[k].note.amt == t.private.inotes@[k].note.amt,
        t.private.onotes@[k].is_active == t.private.inotes@[k].is_active,
        sum_of(input_amounts(t.private.inotes@)) == sum_of(output_amounts(t.private.onotes@)),
{
    reveal(notes_hold);
    let (i, o) = (t.private.inotes@, t.private.onotes@);
    assert(mirrors(i[k], o[k]));
    assert(input_amounts(i) =~= output_amounts(o)) by {
        assert forall|j: int| 0 <= j < NOTE_BATCH implies input_amounts(i)[j] == output_amounts(
            o,
        )[j] by {
            assert(mirrors(i[j], o[j]));
        }
    }
}

/// Where no spend signature is required, every note that is made returns the input
/// note of its slot to the sender.
pub proof fn lemma_unspent_returns<H: Fn(Vec<F>, usize) -> Vec<F>>(h: H, t: TxCircuitTargets, k: int)
    requires
        priv_tx_holds(h, t),
        !spend_required(t.private),
        0 <= k < NOTE_BATCH,
        t.private.onotes@[k].is_active,
    ensures
        t.private.inotes@[k].is_active,
        t.private.onotes@[k].note.recipient == t.private.inotes@[k].note.sender,
        t.private.onotes@[k].note.amt == t.private.inotes@[k].note.amt,
        t.private.onotes@[k].note.asset_id == t.private.inotes@[k].note.asset_id,
{
    reveal(notes_hold);
    assert(mirrors(t.private.inotes@[k], t.private.onotes@[k]));
}

/// An active input note is addressed to the account and stands in the commitment
/// tree.
pub proof fn lemma_spends_own_notes<H: Fn(Vec<F>, usize) -> Vec<F>>(
    h: H,
    t: TxCircuitTargets,
    k: int,
)
    requires
        priv_tx_holds(h, t),
        0 <= k < NOTE_BATCH,
        t.private.inotes@[k].is_active,
    ensures
        t.private.inotes@[k].note.recipient == owner_of(h, t.private.accin),
        t.private.inotes@[k].note.asset_id == t.private.asset_id,
        path_root(
            h,
            t.private.inotes@[k].note.spec_commitment(h),
            t.private.inotes@[k].path@,
        ) == t.public.state_root,
{
    reveal(notes_hold);
    assert(inote_valid(
        h,
        t.private.inotes@[k],
        owner_of(h, t.private.accin),
        t.public.state_root,
    ));
}

/// A list padded with zeros has the sum of the list.
proof fn lemma_padded_sum(a: Seq<U256>, b: Seq<U256>)
    requires
        b.len() <= a.len(),
        forall|i: int| 0 <= i < b.len() ==> a[i] == b[i],
        forall|i: int| b.len() <= i < a.len() ==> a[i] == U256(0, 0, 0, 0),
    ensures
        sum_of(a) == sum_of(b),
    decreases a.len(),
{
    if a.len() == b.len() {
        assert(a =~= b);
    } else {
        lemma_padded_sum(a.drop_last(), b);
        assert(a.last().value() == 0);
    }
}

/// The sums over the slots are the sums over the notes.
pub(crate) proof fn lemma_slot_sums(
    i: Seq<InputSlot>,
    o: Seq<OutputSlot>,
    inotes: Seq<crate::note::StandardNote>,
    proofs: Seq<MerkleProof>,
    onotes: Seq<crate::note::StandardNote>,
    di: Seq<HashOutput>,
    dd: Seq<HashOutput>,
    fi: crate::note::StandardNote,
    fo: crate::note::StandardNote,
)
    requires
        inotes.len() <= NOTE_BATCH,
        onotes.len() <= NOTE_BATCH,
        inputs_laid(i, inotes, proofs, di, fi),
        outputs_laid(o, onotes, dd, fo),
    ensures
        sum_of(input_amounts(i)) == sum_of(amounts_of(inotes)),
        sum_of(output_amounts(o)) == sum_of(amounts_of(onotes)),
{
    assert forall|k: int| 0 <= k < inotes.len() implies input_amounts(i)[k] == amounts_of(
        inotes,
    )[k] by {
        assert(input_laid(i[k], k, inotes, proofs, di, fi));
    }
    assert forall|k: int| inotes.len() <= k < NOTE_BATCH implies input_amounts(i)[k] == U256(
        0,
        0,
        0,
        0,
    ) by {
        assert(input_laid(i[k], k, inotes, proofs, di, fi));
    }
    lemma_padded_sum(input_amounts(i), amounts_of(inotes));
    assert forall|k: int| 0 <= k < onotes.len() implies output_amounts(o)[k] == amounts_of(
        onotes,
    )[k] by {
        assert(output_laid(o[k], k, onotes, dd, fo));
    }
    assert forall|k: int| onotes.len() <= k < NOTE_BATCH implies output_amounts(o)[k] == U256(
        0,
        0,
        0,
        0,
    ) by {
        assert(output_laid(o[k], k, onotes, dd, fo));
    }
    lemma_padded_sum(output_amounts(o), amounts_of(onotes));
}

/// The balance of an asset (or its absence) stands in the state tree at the place
/// of its path.
pub proof fn lemma_asset_stands<H: Fn(Vec<F>, usize) -> Vec<F>>(
    h: H,
    acc: &StandardAccount,
    asset: AssetId,
    amt: U256,
    there: bool,
    path: Seq<MerkleProofStep>,
)
    requires
        acc.wf(h),
        asset_path(acc, asset, path),
        amt.value() == balance_of(acc.ast@, asset),
        there == has_asset(acc.ast@, asset),
    ensures
        asset_in_ast(h, asset, amt, acc.ast.top(), there, path),
{
    let (index, p) = choose|index: nat, p: MerkleProof|
        index < 1024 && asset_place(acc, asset, index as int) && #[trigger] acc.ast.has_proof(
            index,
            p,
        ) && p.path@ == path;
    acc.ast.lemma_proof(h, index, p);
    acc.ast.lemma_shape();
    lemma_balance_of(acc.ast@, asset);
    if there {
        let leaf = acc.ast@[index as int];
        lemma_value_injective(leaf.amount, amt);
        assert(leaf == (AccountStateTreeLeaf { asset_id: asset, amount: amt }));
    }
}

/// A balance that was set stands in the state tree after, at the place of its
/// path before.
pub proof fn lemma_asset_set<H: Fn(Vec<F>, usize) -> Vec<F>>(
    h: H,
    before: &StandardAccount,
    after: &StandardAccount,
    asset: AssetId,
    amt: U256,
    path: Seq<MerkleProofStep>,
)
    requires
        before.wf(h),
        after.wf(h),
        asset_path(before, asset, path),
        set_balance(before.ast@, asset, amt, after.ast@),
    ensures
        asset_in_ast(h, asset, amt, after.ast.top(), true, path),
{
    let (index, p) = choose|index: nat, p: MerkleProof|
        index < 1024 && asset_place(before, asset, index as int)
            && #[trigger] before.ast.has_proof(index, p) && p.path@ == path;
    before.ast.lemma_proof(h, index, p);
    before.ast.lemma_path_after_update(&after.ast, h, asset, amt, index, p);
}

/// Whether the subpool is still where it was registered.
pub open spec fn still_registered<H: Fn(Vec<F>, usize) -> Vec<F>>(
    h: H,
    pool: MainPoolConfigTree,
    leaf: crate::pool_config::MainPoolConfigLeaf,
) -> bool {
    &&& pool.places().contains_key(leaf)
    &&& (pool.nodes().leaf_at())(pool.places()[leaf]) == digest(h, leaf.preimage())
}

/// The wires of the authority proofs meet their conditions.
pub proof fn lemma_authority_keys<H: Fn(Vec<F>, usize) -> Vec<F>>(
    h: H,
    approval: crate::schnorr::CompPubKey,
    rejection: crate::schnorr::CompPubKey,
    consume: crate::schnorr::CompPubKey,
    t: SubpoolFullProofTargets,
    subpool_id: crate::account::SubpoolId,
    pool: MainPoolConfigTree,
    checked: bool,
)
    requires
        pool.wf(h),
        authority_wires(h, approval, rejection, consume, subpool_id, pool, t),
        still_registered(h, pool, subpool_leaf(h, approval, rejection, consume, subpool_id)),
    ensures
        subpool_proven(h, subpool_id, approval, rejection, consume, pool.top(), checked, t),
{
    let leaf = subpool_leaf(h, approval, rejection, consume, subpool_id);
    let p = choose|p: MerkleProof| #[trigger]
        pool.proves_leaf(h, leaf, p) && p.path@ == t.main_pool_proof@;
    pool.lemma_subpool_proof_verifies(h, leaf, p);
}

/// The wires of the authority proofs of a transaction meet their conditions.
proof fn lemma_authority<H: Fn(Vec<F>, usize) -> Vec<F>>(
    h: H,
    v: TxCircuitPrivateTargets,
    subpool_id: crate::account::SubpoolId,
    pool: MainPoolConfigTree,
    checked: bool,
)
    requires
        pool.wf(h),
        authority_wires(
            h,
            v.approval_key,
            v.rejection_key,
            v.subpool_consume_key,
            subpool_id,
            pool,
            v.subpool_proof_targets,
        ),
        still_registered(
            h,
            pool,
            subpool_leaf(
                h,
                v.approval_key,
                v.rejection_key,
                v.subpool_consume_key,
                subpool_id,
            ),
        ),
    ensures
        subpool_proven(
            h,
            subpool_id,
            v.approval_key,
            v.rejection_key,
            v.subpool_consume_key,
            pool.top(),
            checked,
            v.subpool_proof_targets,
        ),
{
    lemma_authority_keys(
        h,
        v.approval_key,
        v.rejection_key,
        v.subpool_consume_key,
        v.subpool_proof_targets,
        subpool_id,
        pool,
        checked,
    );
}

/// Whether a note of an input list is addressed to the account, of the asset, and
/// proven to be in the commitment tree.
pub open spec fn spendable<H: Fn(Vec<F>, usize) -> Vec<F>>(
    h: H,
    acc: &StandardAccount,
    note: crate::note::StandardNote,
    asset: AssetId,
    at: MerkleProof,
    root: HashOutput,
) -> bool {
    &&& note.recipient == address_of(h, acc)
    &&& note.asset_id == asset
    &&& at.path@.len() == 32
    &&& path_root(h, note.spec_commitment(h), at.path@) == root
}

/// Whether an account is proven to be in the commitment tree, and its wires hash
/// to its commitment.
pub open spec fn committed<H: Fn(Vec<F>, usize) -> Vec<F>>(
    h: H,
    acc: &StandardAccount,
    at: MerkleProof,
    root: HashOutput,
) -> bool {
    &&& !acc.consume_auth.config ==> acc.consume_auth.pk is None
    &&& at.path@.len() == 32
    &&& path_root(h, acc.spec_commitment(h), at.path@) == root
}

/// The wires computed for a Spend meet the conditions on accounts, notes and
/// authorities, where the inputs are what they should be: the account and its
/// notes are in the commitment tree, the notes are the account's and of one asset,
/// and the subpool is the account's and registered.
pub proof fn lemma_spend_satisfied<H: Fn(Vec<F>, usize) -> Vec<F>>(
    h: H,
    inputs: SpendTxInputs,
    p: PreparedTx,
    accout: &StandardAccount,
)
    requires
        inputs.valid(h),
        inputs.prepared(h, p, accout),
        committed(h, &inputs.accin, inputs.accin_merkle_proof, inputs.root),
        forall|i: int|
            0 <= i < inputs.inotes@.len() ==> spendable(
                h,
                &inputs.accin,
                #[trigger] inputs.inotes@[i],
                inputs.asset(),
                inputs.inotes_nct_proofs@[i],
                inputs.root,
            ),
        forall|i: int|
            0 <= i < inputs.onotes@.len() ==> (#[trigger] inputs.onotes@[i]).asset_id
                == inputs.asset(),
        inputs.subpool_id == inputs.accin.subpool_id,
        still_registered(
            h,
            inputs.main_pool,
            subpool_leaf(
                h,
                inputs.approval_key,
                inputs.rejection_key,
                inputs.consume_key,
                inputs.subpool_id,
            ),
        ),
    ensures
        accounts_hold(h, p.public, p.private),
        notes_hold(h, p.public, p.private),
        subpool_proven(
            h,
            p.private.accin.subpool_id,
            p.private.approval_key,
            p.private.rejection_key,
            p.private.subpool_consume_key,
            p.public.mainpool_config_root,
            true,
            p.private.subpool_proof_targets,
        ),
{
    let (u, v) = (p.public, p.private);
    let asset = inputs.asset();
    let accin = inputs.accin;
    v.accin.lemma_commitment(&accin, h);
    v.accout.lemma_commitment(accout, h);
    let amt = choose|amt: U256|
        amt.value() == inputs.new_balance() && #[trigger] set_balance(
            accin.ast@,
            asset,
            amt,
            accout.ast@,
        );
    lemma_value_injective(amt, v.accout_amt);
    lemma_asset_stands(
        h,
        &accin,
        asset,
        v.accin_amt,
        v.asset_exists_in_accin,
        v.accin_ast_merkle@,
    );
    lemma_asset_set(h, &accin, accout, asset, v.accout_amt, v.accin_ast_merkle@);
    assert(accounts_hold(h, u, v)) by {
        reveal(accounts_hold);
        lemma_same_key(v.accin.spend_auth, v.accout.spend_auth);
        lemma_same_key(v.accin.consume_pk, v.accout.consume_pk);
    }
    let me = address_of(h, &accin);
    assert(owner_of(h, v.accin) == me);
    assert(notes_hold(h, u, v)) by {
        reveal(notes_hold);
        let (i, o) = (v.inotes@, v.onotes@);
        let (fi, fo) = (idle_input(me, asset), idle_output(asset));
        assert forall|k: int| 0 <= k < NOTE_BATCH implies inote_valid(
            h,
            #[trigger] i[k],
            me,
            u.state_root,
        ) by {
            assert(input_laid(
                i[k],
                k,
                inputs.inotes@,
                inputs.inotes_nct_proofs@,
                inputs.dinotes@,
                fi,
            ));
            if k < inputs.inotes@.len() {
                assert(spendable(
                    h,
                    &accin,
                    inputs.inotes@[k],
                    asset,
                    inputs.inotes_nct_proofs@[k],
                    inputs.root,
                ));
            }
        }
        assert forall|k: int| 0 <= k < NOTE_BATCH implies (#[trigger] i[k]).note.asset_id
            == asset by {
            assert(input_laid(
                i[k],
                k,
                inputs.inotes@,
                inputs.inotes_nct_proofs@,
                inputs.dinotes@,
                fi,
            ));
        }
        assert forall|k: int| 0 <= k < NOTE_BATCH implies (#[trigger] o[k]).note.asset_id
            == asset by {
            assert(output_laid(o[k], k, inputs.onotes@, inputs.donotes@, fo));
        }
        lemma_slot_sums(
            i,
            o,
            inputs.inotes@,
            inputs.inotes_nct_proofs@,
            inputs.onotes@,
            inputs.dinotes@,
            inputs.donotes@,
            fi,
            fo,
        );
    }
    lemma_authority(h, v, inputs.subpool_id, inputs.main_pool, true);
}

/// Keys with the same coefficients are the same.
pub proof fn lemma_same_key(a: crate::schnorr::CompPubKey, b: crate::schnorr::CompPubKey)
    ensures
        a.elements() == b.elements() <==> a == b,
{
    if a.elements() == b.elements() {
        let (x, y) = (a.elements(), b.elements());
        assert(x[0] == y[0] && x[1] == y[1] && x[2] == y[2] && x[3] == y[3] && x[4] == y[4]);
        assert(a.0.w == b.0.w);
    }
}

/// The wires computed for a fake transaction meet the conditions on accounts,
/// notes and authorities.
pub proof fn lemma_fake_satisfied<H: Fn(Vec<F>, usize) -> Vec<F>>(
    h: H,
    inputs: FakeTxInputs,
    p: PreparedTx,
    accin: &StandardAccount,
    accout: &StandardAccount,
)
    requires
        inputs.prepared(h, p, accin, accout),
    ensures
        accounts_hold(h, p.public, p.private),
        notes_hold(h, p.public, p.private),
        subpool_proven(
            h,
            p.private.accin.subpool_id,
            p.private.approval_key,
            p.private.rejection_key,
            p.private.subpool_consume_key,
            p.public.mainpool_config_root,
            false,
            p.private.subpool_proof_targets,
        ),
{
    let (u, v) = (p.public, p.private);
    v.accin.lemma_commitment(accin, h);
    lemma_empty_state(h, accin, v.accin_ast_merkle@);
    assert(accounts_hold(h, u, v)) by {
        reveal(accounts_hold);
        lemma_same_key(v.accin.spend_auth, v.accout.spend_auth);
        lemma_same_key(v.accin.consume_pk, v.accout.consume_pk);
    }
    lemma_idle_notes(
        h,
        u,
        v,
        accin,
        crate::fake_tx::zero_digests(),
        crate::fake_tx::zero_digests(),
    );
}

/// The first leaf of an empty state tree is the empty leaf.
pub proof fn lemma_empty_state<H: Fn(Vec<F>, usize) -> Vec<F>>(
    h: H,
    acc: &StandardAccount,
    path: Seq<MerkleProofStep>,
)
    requires
        acc.wf(h),
        acc.ast@.len() == 0,
        first_path(acc, path),
    ensures
        asset_in_ast(h, AssetId(F::of(0)), U256(0, 0, 0, 0), acc.ast.top(), false, path),
{
    let p = choose|p: MerkleProof| #[trigger] acc.ast.has_proof(0, p) && p.path@ == path;
    acc.ast.lemma_proof(h, 0, p);
}

/// The notes of a transaction without notes meet their conditions.
pub(crate) proof fn lemma_idle_notes<H: Fn(Vec<F>, usize) -> Vec<F>>(
    h: H,
    u: PrivTxPublicInputs,
    v: TxCircuitPrivateTargets,
    accin: &StandardAccount,
    di: Seq<HashOutput>,
    dd: Seq<HashOutput>,
)
    requires
        no_assets(h, accin, v, di, dd),
        !v.flags.is_rjct,
        v.accin.stands_for(accin),
        crate::note::nullifier_digests(u.input_note_nullifiers@) == effective_nullifiers(
            h,
            v.inotes@,
            accin.spec_nk(h),
        ),
        crate::note::commitment_digests(u.output_note_commitments@) == effective_commitments(
            h,
            v.onotes@,
        ),
    ensures
        notes_hold(h, u, v),
{
    reveal(notes_hold);
    let (i, o) = (v.inotes@, v.onotes@);
    let asset = AssetId(F::of(0));
    let me = address_of(h, accin);
    let (fi, fo) = (idle_input(me, asset), idle_output(asset));
    let none = Seq::<crate::note::StandardNote>::empty();
    let no_proofs = Seq::<MerkleProof>::empty();
    assert(owner_of(h, v.accin) == me);
    assert forall|k: int| 0 <= k < NOTE_BATCH implies inote_valid(
        h,
        #[trigger] i[k],
        me,
        u.state_root,
    ) by {
        assert(input_laid(i[k], k, none, no_proofs, di, fi));
    }
    assert forall|k: int| 0 <= k < NOTE_BATCH implies (#[trigger] i[k]).note.asset_id == asset by {
        assert(input_laid(i[k], k, none, no_proofs, di, fi));
    }
    assert forall|k: int| 0 <= k < NOTE_BATCH implies (#[trigger] o[k]).note.asset_id == asset by {
        assert(output_laid(o[k], k, none, dd, fo));
    }
    lemma_slot_sums(i, o, none, no_proofs, none, di, dd, fi, fo);
    assert(amounts_of(none) =~= Seq::<U256>::empty());
}

/// The wires computed for a FreshAcc meet the conditions on accounts, notes and
/// authorities, where the account is fresh and the subpool is the account's and
/// registered.
pub proof fn lemma_freshacc_satisfied<H: Fn(Vec<F>, usize) -> Vec<F>>(
    h: H,
    inputs: FreshAccInputs,
    p: PreparedTx,
    accout: &StandardAccount,
)
    requires
        inputs.valid(h),
        inputs.prepared(h, p, accout),
        inputs.accin.spec_is_fresh(),
        inputs.accin.nonce.0.canonical(),
        !inputs.new_consume_auth.config ==> inputs.new_consume_auth.pk is None,
        inputs.subpool_id == inputs.accin.subpool_id,
        still_registered(
            h,
            inputs.main_pool,
            subpool_leaf(
                h,
                inputs.approval_key,
                inputs.rejection_key,
                inputs.consume_key,
                inputs.subpool_id,
            ),
        ),
    ensures
        accounts_hold(h, p.public, p.private),
        notes_hold(h, p.public, p.private),
        subpool_proven(
            h,
            p.private.accin.subpool_id,
            p.private.approval_key,
            p.private.rejection_key,
            p.private.subpool_consume_key,
            p.public.mainpool_config_root,
            true,
            p.private.subpool_proof_targets,
        ),
{
    let (u, v) = (p.public, p.private);
    let accin = inputs.accin;
    v.accin.lemma_commitment(&accin, h);
    v.accout.lemma_commitment(accout, h);
    lemma_empty_state(h, &accin, v.accin_ast_merkle@);
    accin.ast.lemma_wf(h);
    assert(accin.ast@ =~= Seq::empty());
    assert(accounts_hold(h, u, v)) by {
        reveal(accounts_hold);
    }
    lemma_idle_notes(h, u, v, &accin, inputs.dinotes@, inputs.donotes@);
    lemma_authority(h, v, inputs.subpool_id, inputs.main_pool, true);
}

/// The wires computed for a Reject meet the conditions on accounts, notes and
/// authorities, where the inputs are what they should be: the account and its
/// notes are in the commitment tree, the notes are the account's and of one asset,
/// each output note returns its input note, and the subpool is the account's and
/// registered.
pub proof fn lemma_reject_satisfied<H: Fn(Vec<F>, usize) -> Vec<F>>(
    h: H,
    inputs: RejectTxInputs,
    p: PreparedTx,
    accout: &StandardAccount,
)
    requires
        inputs.valid(h),
        inputs.prepared(h, p, accout),
        committed(h, &inputs.accin, inputs.accin_act_merkle_proof, inputs.root),
        forall|i: int|
            0 <= i < inputs.inotes@.len() ==> spendable(
                h,
                &inputs.accin,
                #[trigger] inputs.inotes@[i],
                inputs.asset(),
                inputs.inotes_nct_proofs@[i],
                inputs.root,
            ),
        forall|i: int|
            0 <= i < inputs.onotes@.len() ==> #[trigger] inputs.onotes@[i] == (
            crate::note::StandardNote {
                recipient: inputs.inotes@[i].sender,
                ..inputs.inotes@[i]
            }),
        inputs.subpool_id == inputs.accin.subpool_id,
        still_registered(
            h,
            inputs.main_pool,
            subpool_leaf(
                h,
                inputs.approval_key,
                inputs.rejection_key,
                inputs.consume_key,
                inputs.subpool_id,
            ),
        ),
    ensures
        accounts_hold(h, p.public, p.private),
        notes_hold(h, p.public, p.private),
        subpool_proven(
            h,
            p.private.accin.subpool_id,
            p.private.approval_key,
            p.private.rejection_key,
            p.private.subpool_consume_key,
            p.public.mainpool_config_root,
            true,
            p.private.subpool_proof_targets,
        ),
{
    let (u, v) = (p.public, p.private);
    let asset = inputs.asset();
    let accin = inputs.accin;
    v.accin.lemma_commitment(&accin, h);
    v.accout.lemma_commitment(accout, h);
    lemma_asset_stands(
        h,
        &accin,
        asset,
        v.accin_amt,
        v.asset_exists_in_accin,
        v.accin_ast_merkle@,
    );
    assert(accounts_hold(h, u, v)) by {
        reveal(accounts_hold);
    }
    let me = address_of(h, &accin);
    assert(owner_of(h, v.accin) == me);
    assert(notes_hold(h, u, v)) by {
        reveal(notes_hold);
        let (i, o) = (v.inotes@, v.onotes@);
        let (fi, fo) = (idle_input(me, asset), idle_output(asset));
        assert forall|k: int| 0 <= k < NOTE_BATCH implies ({
            &&& inote_valid(h, #[trigger] i[k], me, u.state_root)
            &&& i[k].note.asset_id == asset
            &&& o[k].note.asset_id == asset
            &&& mirrors(i[k], o[k])
        }) by {
            assert(input_laid(
                i[k],
                k,
                inputs.inotes@,
                inputs.inotes_nct_proofs@,
                inputs.dinotes@,
                fi,
            ));
            assert(output_laid(o[k], k, inputs.onotes@, inputs.donotes@, fo));
            if k < inputs.inotes@.len() {
                assert(spendable(
                    h,
                    &accin,
                    inputs.inotes@[k],
                    asset,
                    inputs.inotes_nct_proofs@[k],
                    inputs.root,
                ));
                assert(inputs.onotes@[k].sender == inputs.inotes@[k].sender);
            }
        }
        assert forall|k: int| 0 <= k < NOTE_BATCH implies (#[trigger] o[k]).note.asset_id
            == asset by {
            assert(i[k].note.asset_id == asset);
        }
        assert(input_amounts(i) =~= output_amounts(o)) by {
            assert forall|j: int| 0 <= j < NOTE_BATCH implies input_amounts(i)[j]
                == output_amounts(o)[j] by {
                assert(mirrors(i[j], o[j]));
            }
        }
    }
    lemma_authority(h, v, inputs.subpool_id, inputs.main_pool, true);
}

} // verus!
