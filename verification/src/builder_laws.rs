//! What is promised of first transactions and fake ones from the builder to the
//! wires.
use vstd::prelude::*;

use crate::ast::has_asset;
use crate::built_priv_tx::{padded_seeds, place_all, returned_all, BuiltPrivTx};
use crate::circuit::subpool_proven;
use crate::fake_builder::BuiltFakeTx;
use crate::field::F;
use crate::freshacc_builder::{BuiltFreshAccTx, FreshAccTxBuilder};
use crate::freshacc_tx::{first_path, no_assets};
use crate::note::StandardNote;
use crate::priv_tx::{accounts_hold, lemma_value_injective, notes_hold, spec_tx_hash};
use crate::tree::MerkleProof;
use crate::tx_laws::{lemma_empty_state, lemma_idle_notes, lemma_same_key};
use crate::tx_witness::PreparedTx;
use crate::u256::U256;

verus! {

/// Without notes and balances, the wires are those of no asset.
proof fn lemma_nothing_moves<H: Fn(Vec<F>, usize) -> Vec<F>>(h: H, x: BuiltPrivTx, p: PreparedTx)
    requires
        x.prepared(h, p),
        x.accin.wf(h),
        x.accin.ast@.len() == 0,
        x.accout.ast@.len() == 0,
        x.rejected_inotes@.len() == 0,
        x.rejected_inotes_nct_proofs@.len() == 0,
        x.inotes@.len() == 0,
        x.inotes_nct_proofs@.len() == 0,
        x.onotes@.len() == 0,
        x.dinotes@.len() == 7,
        x.donotes@.len() == 7,
        crate::circuit::dummy_path(x.accin_path@, 32),
        !x.tx_kind_flags.is_rjct,
    ensures
        no_assets(h, &x.accin, p.private, x.dinotes@, x.donotes@),
        notes_hold(h, p.public, p.private),
{
    let v = p.private;
    assert(x.accin.ast@ =~= Seq::empty());
    assert(x.accout.ast@ =~= Seq::empty());
    assert(!has_asset(x.accin.ast@, x.asset()));
    lemma_value_injective(v.accin_amt, U256(0, 0, 0, 0));
    lemma_value_injective(v.accout_amt, U256(0, 0, 0, 0));
    assert(first_path(&x.accin, v.accin_ast_merkle@));
    assert(x.rejected_inotes@ + x.inotes@ =~= Seq::<StandardNote>::empty());
    assert(x.rejected_inotes_nct_proofs@ + x.inotes_nct_proofs@ =~= Seq::<MerkleProof>::empty());
    assert(returned_all(x.rejected_inotes@) + x.onotes@ =~= Seq::<StandardNote>::empty());
    assert(padded_seeds(0, x.dinotes@) =~= x.dinotes@);
    assert(padded_seeds(0, x.donotes@) =~= x.donotes@);
    lemma_idle_notes(h, p.public, v, &x.accin, x.dinotes@, x.donotes@);
}

/// A first transaction that was built and completed has wires that meet the
/// conditions on accounts, notes and authorities, where the account is fresh and
/// the keys are those of its subpool; and its hash, which is the one that was
/// signed, is the one on the wires.
pub proof fn lemma_built_freshacc_satisfied<H: Fn(Vec<F>, usize) -> Vec<F>>(
    h: H,
    b: FreshAccTxBuilder,
    s: BuiltFreshAccTx,
    x: BuiltPrivTx,
    p: PreparedTx,
)
    requires
        b.wf(h),
        b.accin.spec_is_fresh(),
        b.built(
            h,
            BuiltFreshAccTx { state_root: None, subpool_proof: None, approval_sig: None, ..s },
        ),
        !s.accout.consume_auth.config ==> s.accout.consume_auth.pk is None,
        s.completed(x),
        x.prepared(h, p),
        subpool_proven(
            h,
            b.accin.subpool_id,
            x.approval_key,
            x.rejection_key,
            x.consume_key,
            x.main_pool_root,
            true,
            x.subpool_proof,
        ),
    ensures
        accounts_hold(h, p.public, p.private),
        notes_hold(h, p.public, p.private),
        subpool_proven(
            h,
            p.private.accin.subpool_id,
            p.private.approval_key,
            p.private.rejection_key,
            p.private.subpool_consume_key,
            p.public.mainpool_config_root,
            true,
            p.private.subpool_proof_targets,
        ),
        spec_tx_hash(h, p.public) == s.tx_hash,
{
    let v = p.private;
    let (accin, accout) = (b.accin, s.accout);
    lemma_nothing_moves(h, x, p);
    v.accin.lemma_commitment(&accin, h);
    v.accout.lemma_commitment(&accout, h);
    lemma_empty_state(h, &accin, v.accin_ast_merkle@);
    accin.ast.lemma_wf(h);
    assert(accin.ast@ =~= Seq::empty());
    assert(accounts_hold(h, p.public, v)) by {
        reveal(accounts_hold);
    }
    assert(place_all(x.rejected_inotes@, x.rejected_inotes_nct_proofs@) =~= Seq::empty());
    assert(place_all(x.inotes@, x.inotes_nct_proofs@) =~= Seq::empty());
    assert(x.rejected_inotes@ =~= Seq::empty());
    assert(x.onotes@ =~= Seq::empty());
    x.lemma_slots_agree(h, v.inotes@, v.onotes@);
}

/// A fake transaction that was built has wires that meet the conditions on
/// accounts, notes and authorities.
pub proof fn lemma_built_fake_satisfied<H: Fn(Vec<F>, usize) -> Vec<F>>(
    h: H,
    s: BuiltFakeTx,
    x: BuiltPrivTx,
    p: PreparedTx,
)
    requires
        s.completed(h, x),
        x.prepared(h, p),
    ensures
        accounts_hold(h, p.public, p.private),
        notes_hold(h, p.public, p.private),
        subpool_proven(
            h,
            p.private.accin.subpool_id,
            p.private.approval_key,
            p.private.rejection_key,
            p.private.subpool_consume_key,
            p.public.mainpool_config_root,
            false,
            p.private.subpool_proof_targets,
        ),
{
    let v = p.private;
    lemma_nothing_moves(h, x, p);
    v.accin.lemma_commitment(&x.accin, h);
    lemma_empty_state(h, &x.accin, v.accin_ast_merkle@);
    assert(accounts_hold(h, p.public, v)) by {
        reveal(accounts_hold);
        lemma_same_key(v.accin.spend_auth, v.accout.spend_auth);
        lemma_same_key(v.accin.consume_pk, v.accout.consume_pk);
    }
}

} // verus!
