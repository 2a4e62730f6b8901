//! What is promised of spends from the builder to the wires.
use vstd::prelude::*;

use crate::addition::sum_of;
use crate::ast::{has_asset, lemma_set_balance, set_balance};
use crate::built_priv_tx::{
    padded_seeds, place_all, returned, returned_all, BuiltPrivTx, PlacedNote,
};
use crate::circuit::subpool_proven;
use crate::field::F;
use crate::hash::HashOutput;
use crate::note::StandardNote;
use crate::params::NOTE_BATCH;
use crate::priv_tx::{
    accounts_hold, balanced, consume_required, inote_valid, mirrors, notes_hold,
    owner_of, spec_tx_hash, spend_required,
};
use crate::spend_builder::{notes_of, BuiltSpendTx, SpendTxBuilder};
use crate::tree::MerkleProof;
use crate::tx_laws::{
    committed, lemma_asset_set, lemma_asset_stands, lemma_same_key, lemma_slot_sums, spendable,
};
use crate::tx_witness::{
    address_of, amounts_of, asset_path, asset_place, idle_input, idle_output, input_laid,
    output_laid, PreparedTx,
};
use crate::priv_tx::lemma_value_injective;
use crate::u256::U256;

verus! {

/// The sum over two lists is the sum of their sums.
proof fn lemma_sum_concat(a: Seq<StandardNote>, b: Seq<StandardNote>)
    ensures
        sum_of(amounts_of(a + b)) == sum_of(amounts_of(a)) + sum_of(amounts_of(b)),
    decreases b.len(),
{
    if b.len() == 0 {
        assert(a + b =~= a);
    } else {
        lemma_sum_concat(a, b.drop_last());
        assert(amounts_of(a + b).drop_last() =~= amounts_of(a + b.drop_last()));
        assert(amounts_of(b).drop_last() =~= amounts_of(b.drop_last()));
    }
}

/// Returned notes hold what they held.
proof fn lemma_sum_returned(a: Seq<StandardNote>)
    ensures
        sum_of(amounts_of(returned_all(a))) == sum_of(amounts_of(a)),
{
    assert(amounts_of(returned_all(a)) =~= amounts_of(a));
}

/// Whether proofs are those of placed notes: at their positions, and leading from
/// their commitments to the root.
pub open spec fn notes_proven<H: Fn(Vec<F>, usize) -> Vec<F>>(
    h: H,
    notes: Seq<PlacedNote>,
    proofs: Seq<MerkleProof>,
    root: HashOutput,
) -> bool {
    &&& proofs.len() == notes.len()
    &&& forall|i: int|
        0 <= i < notes.len() ==> {
            &&& (#[trigger] proofs[i]).leaf_index == notes[i].position
            &&& proofs[i].path@.len() == 32
            &&& crate::tree::path_root(h, notes[i].note.spec_commitment(h), proofs[i].path@)
                == root
        }
}

/// Whether a spend was completed with proofs that hold: the account and all notes
/// are in the commitment tree, and the keys are those of the account's subpool.
pub open spec fn spend_proven<H: Fn(Vec<F>, usize) -> Vec<F>>(
    h: H,
    b: SpendTxBuilder,
    s: BuiltSpendTx,
    x: BuiltPrivTx,
) -> bool {
    let root = s.accin_proof->0.root;
    &&& committed(h, &b.accin, s.accin_proof->0, root)
    &&& notes_proven(h, b.input_notes@, s.inotes_nct_proofs->0@, root)
    &&& notes_proven(h, b.rejected_notes@, s.rejected_inotes_nct_proofs->0@, root)
    &&& subpool_proven(
        h,
        b.accin.subpool_id,
        x.approval_key,
        x.rejection_key,
        x.consume_key,
        x.main_pool_root,
        true,
        x.subpool_proof,
    )
}

/// Whether a built transaction is the one of a builder, whatever was signed and
/// proven since.
pub open spec fn stems_from<H: Fn(Vec<F>, usize) -> Vec<F>>(
    h: H,
    b: SpendTxBuilder,
    s: BuiltSpendTx,
) -> bool {
    b.built(
        h,
        BuiltSpendTx {
            accin_proof: None,
            inotes_nct_proofs: None,
            rejected_inotes_nct_proofs: None,
            subpool_proof: None,
            spend_sig: None,
            consume_sig: None,
            approval_sig: None,
            ..s
        },
    )
}

/// The asset on the wires is that of the builder.
proof fn lemma_spend_asset<H: Fn(Vec<F>, usize) -> Vec<F>>(
    h: H,
    b: SpendTxBuilder,
    s: BuiltSpendTx,
    x: BuiltPrivTx,
)
    requires
        b.wf(h),
        stems_from(h, b, s),
        s.completed(x),
    ensures
        x.asset() == b.asset_id,
        x.accin == b.accin,
        x.inotes@ == notes_of(b.input_notes@),
        x.rejected_inotes@ == notes_of(b.rejected_notes@),
        x.onotes == b.output_notes,
{
    if b.input_notes@.len() > 0 {
        assert(x.inotes@[0] == b.input_notes@[0].note);
    } else if b.output_notes@.len() > 0 {
        assert(x.onotes@[0] == b.output_notes@[0]);
    } else {
        assert(x.rejected_inotes@[0] == b.rejected_notes@[0].note);
    }
}

/// The proofs of the notes fit them.
proof fn lemma_spend_whole<H: Fn(Vec<F>, usize) -> Vec<F>>(
    h: H,
    b: SpendTxBuilder,
    s: BuiltSpendTx,
    x: BuiltPrivTx,
)
    requires
        b.wf(h),
        stems_from(h, b, s),
        s.completed(x),
        spend_proven(h, b, s, x),
    ensures
        x.whole(),
        place_all(x.rejected_inotes@, x.rejected_inotes_nct_proofs@) == b.rejected_notes@,
        place_all(x.inotes@, x.inotes_nct_proofs@) == b.input_notes@,
{
    lemma_spend_asset(h, b, s, x);
    assert forall|i: int| 0 <= i < x.inotes_nct_proofs@.len() implies (
    #[trigger] x.inotes_nct_proofs@[i]).leaf_index < crate::field::GOLDILOCKS_ORDER by {
        assert(b.input_notes@[i].position < crate::field::GOLDILOCKS_ORDER);
    }
    assert forall|i: int| 0 <= i < x.rejected_inotes_nct_proofs@.len() implies (
    #[trigger] x.rejected_inotes_nct_proofs@[i]).leaf_index < crate::field::GOLDILOCKS_ORDER by {
        assert(b.rejected_notes@[i].position < crate::field::GOLDILOCKS_ORDER);
    }
    assert(place_all(x.rejected_inotes@, x.rejected_inotes_nct_proofs@) =~= b.rejected_notes@);
    assert(place_all(x.inotes@, x.inotes_nct_proofs@) =~= b.input_notes@);
}

/// The conditions on the accounts of a built spend.
proof fn lemma_spend_accounts<H: Fn(Vec<F>, usize) -> Vec<F>>(
    h: H,
    b: SpendTxBuilder,
    s: BuiltSpendTx,
    x: BuiltPrivTx,
    p: PreparedTx,
)
    requires
        b.wf(h),
        stems_from(h, b, s),
        s.completed(x),
        spend_proven(h, b, s, x),
        x.prepared(h, p),
    ensures
        accounts_hold(h, p.public, p.private),
        p.private.accin_amt.value() + b.delta_in() == p.private.accout_amt.value() + b.delta_out(),
        owner_of(h, p.private.accin) == address_of(h, &b.accin),
{
    let v = p.private;
    let (accin, accout) = (b.accin, s.accout);
    let asset = b.asset_id;
    lemma_spend_asset(h, b, s, x);
    v.accin.lemma_commitment(&accin, h);
    v.accout.lemma_commitment(&accout, h);
    let amt = choose|amt: U256|
        amt.value() == b.old_balance() + b.delta_in() - b.delta_out() && #[trigger] set_balance(
            accin.ast@,
            asset,
            amt,
            accout.ast@,
        );
    assert(asset_path(&accin, asset, v.accin_ast_merkle@)) by {
        let (index, q) = choose|index: nat, q: MerkleProof|
            #[trigger] x.accin.ast.has_proof(index, q) && q.path@ == v.accin_ast_merkle@
                && (if has_asset(x.accin.ast@, x.asset()) {
                index < x.accin.ast@.len() && x.accin.ast@[index as int].asset_id == x.asset()
            } else if x.accin.ast@.len() < 1024 {
                index == x.accin.ast@.len()
            } else {
                index == 0
            });
        accin.ast.lemma_shape();
        accout.ast.lemma_shape();
        assert(asset_place(&accin, asset, index as int));
        assert(accin.ast.has_proof(index, q));
    }
    accin.ast.lemma_shape();
    lemma_set_balance(accin.ast@, asset, amt, accout.ast@, asset);
    lemma_value_injective(amt, v.accout_amt);
    lemma_asset_stands(
        h,
        &accin,
        asset,
        v.accin_amt,
        v.asset_exists_in_accin,
        v.accin_ast_merkle@,
    );
    lemma_asset_set(h, &accin, &accout, asset, v.accout_amt, v.accin_ast_merkle@);
    reveal(accounts_hold);
    lemma_same_key(v.accin.spend_auth, v.accout.spend_auth);
    lemma_same_key(v.accin.consume_pk, v.accout.consume_pk);
}

/// The conditions on the notes of a built spend.
proof fn lemma_spend_notes<H: Fn(Vec<F>, usize) -> Vec<F>>(
    h: H,
    b: SpendTxBuilder,
    s: BuiltSpendTx,
    x: BuiltPrivTx,
    p: PreparedTx,
)
    requires
        b.wf(h),
        stems_from(h, b, s),
        s.completed(x),
        spend_proven(h, b, s, x),
        x.slots_fit(),
        x.prepared(h, p),
        p.private.accin_amt.value() + b.delta_in() == p.private.accout_amt.value() + b.delta_out(),
        owner_of(h, p.private.accin) == address_of(h, &b.accin),
    ensures
        notes_hold(h, p.public, p.private),
{
    let (u, v) = (p.public, p.private);
    let (i, o) = (v.inotes@, v.onotes@);
    let asset = b.asset_id;
    let me = address_of(h, &b.accin);
    lemma_spend_asset(h, b, s, x);
    let ins = x.rejected_inotes@ + x.inotes@;
    let proofs = x.rejected_inotes_nct_proofs@ + x.inotes_nct_proofs@;
    let outs = returned_all(x.rejected_inotes@) + x.onotes@;
    let di = padded_seeds(x.rejected_inotes@.len() + x.inotes@.len(), x.dinotes@);
    let dd = padded_seeds(x.rejected_inotes@.len() + x.onotes@.len(), x.donotes@);
    let (fi, fo) = (idle_input(me, asset), idle_output(asset));
    let n = x.rejected_inotes@.len();
    assert forall|k: int| 0 <= k < ins.len() implies spendable(
        h,
        &b.accin,
        #[trigger] ins[k],
        asset,
        proofs[k],
        u.state_root,
    ) by {
        if k < n {
            assert(ins[k] == b.rejected_notes@[k].note);
            assert(proofs[k] == s.rejected_inotes_nct_proofs->0@[k]);
        } else {
            assert(ins[k] == b.input_notes@[k - n].note);
            assert(proofs[k] == s.inotes_nct_proofs->0@[k - n]);
        }
    }
    assert forall|k: int| 0 <= k < outs.len() implies (#[trigger] outs[k]).asset_id == asset by {
        if k < n {
            assert(outs[k] == returned(x.rejected_inotes@[k]));
            assert(x.rejected_inotes@[k] == b.rejected_notes@[k].note);
        } else {
            assert(outs[k] == b.output_notes@[k - n]);
        }
    }
    assert forall|k: int| 0 <= k < NOTE_BATCH implies inote_valid(
        h,
        #[trigger] i[k],
        me,
        u.state_root,
    ) && i[k].note.asset_id == asset by {
        assert(input_laid(i[k], k, ins, proofs, di, fi));
        if k < ins.len() {
            assert(spendable(h, &b.accin, ins[k], asset, proofs[k], u.state_root));
        }
    }
    assert forall|k: int| 0 <= k < NOTE_BATCH implies (#[trigger] o[k]).note.asset_id == asset by {
        assert(output_laid(o[k], k, outs, dd, fo));
        if k < outs.len() {
            assert(outs[k].asset_id == asset);
        }
    }
    assert forall|k: int| 0 <= k < NOTE_BATCH && v.returned[k] implies mirrors(
        #[trigger] i[k],
        o[k],
    ) by {
        assert(k < n);
        assert(input_laid(i[k], k, ins, proofs, di, fi));
        assert(output_laid(o[k], k, outs, dd, fo));
        assert(outs[k] == returned(x.rejected_inotes@[k]));
    }
    assert(balanced(v.accin_amt, v.accout_amt, i, o)) by {
        lemma_slot_sums(i, o, ins, proofs, outs, di, dd, fi, fo);
        lemma_sum_concat(x.rejected_inotes@, x.inotes@);
        lemma_sum_concat(returned_all(x.rejected_inotes@), x.onotes@);
        lemma_sum_returned(x.rejected_inotes@);
    }
    reveal(notes_hold);
}

/// The signatures that the builder asks for are those that the wires ask for.
pub proof fn lemma_required_signatures<H: Fn(Vec<F>, usize) -> Vec<F>>(
    h: H,
    b: SpendTxBuilder,
    s: BuiltSpendTx,
    x: BuiltPrivTx,
    p: PreparedTx,
)
    requires
        b.wf(h),
        stems_from(h, b, s),
        s.completed(x),
        x.slots_fit(),
        x.prepared(h, p),
    ensures
        spend_required(p.private) == s.required().spend,
        consume_required(p.private) == s.required().consume,
        p.public.not_fake_tx == s.required().approval,
{
    let v = p.private;
    let (i, o) = (v.inotes@, v.onotes@);
    let asset = x.asset();
    let me = address_of(h, &b.accin);
    let ins = x.rejected_inotes@ + x.inotes@;
    let proofs = x.rejected_inotes_nct_proofs@ + x.inotes_nct_proofs@;
    let outs = returned_all(x.rejected_inotes@) + x.onotes@;
    let di = padded_seeds(x.rejected_inotes@.len() + x.inotes@.len(), x.dinotes@);
    let dd = padded_seeds(x.rejected_inotes@.len() + x.onotes@.len(), x.donotes@);
    let (fi, fo) = (idle_input(me, asset), idle_output(asset));
    let n = x.rejected_inotes@.len() as int;
    lemma_spend_asset(h, b, s, x);
    assert forall|k: int| 0 <= k < NOTE_BATCH implies (#[trigger] i[k]).is_active == (k
        < ins.len()) by {
        assert(input_laid(i[k], k, ins, proofs, di, fi));
    }
    assert forall|k: int| 0 <= k < NOTE_BATCH implies (#[trigger] o[k]).is_active == (k
        < outs.len()) by {
        assert(output_laid(o[k], k, outs, dd, fo));
    }
    if x.onotes@.len() > 0 {
        assert(o[n].is_active && !v.returned[n]);
    }
    if x.inotes@.len() > 0 {
        assert(i[n].is_active && !v.returned[n]);
    }
}

/// A spend that was built and completed has wires that meet the conditions on
/// accounts, notes and authorities, where its proofs hold; and its hash, which is
/// the one that was signed, is the one on the wires.
pub proof fn lemma_built_spend_satisfied<H: Fn(Vec<F>, usize) -> Vec<F>>(
    h: H,
    b: SpendTxBuilder,
    s: BuiltSpendTx,
    x: BuiltPrivTx,
    p: PreparedTx,
)
    requires
        b.wf(h),
        stems_from(h, b, s),
        s.completed(x),
        spend_proven(h, b, s, x),
        x.slots_fit(),
        x.prepared(h, p),
    ensures
        accounts_hold(h, p.public, p.private),
        notes_hold(h, p.public, p.private),
        subpool_proven(
            h,
            p.private.accin.subpool_id,
            p.private.approval_key,
            p.private.rejection_key,
            p.private.subpool_consume_key,
            p.public.mainpool_config_root,
            true,
            p.private.subpool_proof_targets,
        ),
        spec_tx_hash(h, p.public) == s.tx_hash,
{
    lemma_spend_accounts(h, b, s, x, p);
    lemma_spend_notes(h, b, s, x, p);
    lemma_spend_asset(h, b, s, x);
    lemma_spend_whole(h, b, s, x);
    x.lemma_slots_agree(h, p.private.inotes@, p.private.onotes@);
}

} // verus!
