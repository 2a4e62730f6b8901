//! What a prepared transaction publishes of the accounts and notes that it was made of.
use vstd::prelude::*;

use crate::account::{AccountCommitment, AccountNullifier, NullifierKey, StandardAccount};
use crate::addition::sum_of;
use crate::ast::{balance_of, lemma_set_balance, set_balance, AssetId};
use crate::building_laws::plain_amounts;
use crate::built_priv_tx::{
    padded_seeds, place_all, returned_all, slot_commitments, slot_nullifiers, BuiltPrivTx,
    PlacedNote,
};
use crate::completion_laws::{lemma_padding, lemma_spent, padding, spent};
use crate::deposit_tx::{BuiltDepositTx, DepositTxPrivateTargets, DepositTxPublicInputs};
use crate::errors::PrivTxProveError;
use crate::fake_tx::FakeTxInputs;
use crate::field::F;
use crate::freshacc_tx::FreshAccInputs;
use crate::hash::HashOutput;
use crate::note::{
    commitment_digests, nullifier_digests, DepositNote, DepositNoteCommitment, StandardNote,
};
use crate::priv_tx::{
    effective_commitment, effective_commitments, effective_nullifier, effective_nullifiers,
    PrivTxPublicInputs,
};
use crate::reject_tx::RejectTxInputs;
use crate::tree::MerkleProof;
use crate::tx_witness::{
    amounts_of, input_laid, inputs_laid, output_laid, outputs_laid, public_side, PreparedTx,
    SpendTxInputs,
};
use crate::u256::U256;
use crate::withdraw_slots::{lemma_drained_balance, slot_of, total_of, WithdrawalSlots};
use crate::withdraw_tx::{
    slot_wires, BuiltWithdrawTx, WithdrawTxPrivateTargets, WithdrawTxPublicInputs,
};

verus! {

/// What the nullifier in a slot is: that of the note at its position, or that of the
/// seed where there is no note.
pub open spec fn slot_spent<H: Fn(Vec<F>, usize) -> Vec<F>>(
    h: H,
    notes: Seq<StandardNote>,
    proofs: Seq<MerkleProof>,
    seeds: Seq<HashOutput>,
    nk: HashOutput,
    k: int,
) -> HashOutput {
    if k < notes.len() {
        spent(h, PlacedNote { note: notes[k], position: proofs[k].leaf_index }, nk)
    } else {
        padding(h, seeds[k])
    }
}

/// What the commitment in a slot is: that of the note, or that of the seed where there
/// is no note.
pub open spec fn slot_made<H: Fn(Vec<F>, usize) -> Vec<F>>(
    h: H,
    notes: Seq<StandardNote>,
    seeds: Seq<HashOutput>,
    k: int,
) -> HashOutput {
    if k < notes.len() {
        notes[k].spec_commitment(h)
    } else {
        padding(h, seeds[k])
    }
}

proof fn lemma_slot_published<H: Fn(Vec<F>, usize) -> Vec<F>>(
    h: H,
    accin: &StandardAccount,
    accout: &StandardAccount,
    root: HashOutput,
    pool: HashOutput,
    p: PreparedTx,
    inotes: Seq<StandardNote>,
    proofs: Seq<MerkleProof>,
    dinotes: Seq<HashOutput>,
    onotes: Seq<StandardNote>,
    donotes: Seq<HashOutput>,
    fillers: (StandardNote, StandardNote),
    k: int,
)
    requires
        public_side(h, accin, accout, root, pool, p),
        inputs_laid(p.private.inotes@, inotes, proofs, dinotes, fillers.0),
        outputs_laid(p.private.onotes@, onotes, donotes, fillers.1),
        0 <= k < 7,
    ensures
        p.public.input_note_nullifiers@[k].0 == slot_spent(
            h,
            inotes,
            proofs,
            dinotes,
            accin.spec_nk(h),
            k,
        ),
        p.public.output_note_commitments@[k].0 == slot_made(h, onotes, donotes, k),
{
    lemma_slot_forms(
        h,
        accin.spec_nk(h),
        p,
        inotes,
        proofs,
        dinotes,
        onotes,
        donotes,
        fillers,
        k,
    );
}

proof fn lemma_slot_forms<H: Fn(Vec<F>, usize) -> Vec<F>>(
    h: H,
    nk: HashOutput,
    p: PreparedTx,
    inotes: Seq<StandardNote>,
    proofs: Seq<MerkleProof>,
    dinotes: Seq<HashOutput>,
    onotes: Seq<StandardNote>,
    donotes: Seq<HashOutput>,
    fillers: (StandardNote, StandardNote),
    k: int,
)
    requires
        nullifier_digests(p.public.input_note_nullifiers@) == effective_nullifiers(
            h,
            p.private.inotes@,
            nk,
        ),
        commitment_digests(p.public.output_note_commitments@) == effective_commitments(
            h,
            p.private.onotes@,
        ),
        inputs_laid(p.private.inotes@, inotes, proofs, dinotes, fillers.0),
        outputs_laid(p.private.onotes@, onotes, donotes, fillers.1),
        0 <= k < 7,
    ensures
        p.public.input_note_nullifiers@[k].0 == slot_spent(h, inotes, proofs, dinotes, nk, k),
        p.public.output_note_commitments@[k].0 == slot_made(h, onotes, donotes, k),
{
    let (i, o) = (p.private.inotes@[k], p.private.onotes@[k]);
    assert(input_laid(i, k, inotes, proofs, dinotes, fillers.0));
    assert(output_laid(o, k, onotes, donotes, fillers.1));
    assert(nullifier_digests(p.public.input_note_nullifiers@)[k]
        == p.public.input_note_nullifiers@[k].0);
    assert(effective_nullifiers(h, p.private.inotes@, nk)[k] == effective_nullifier(h, i, nk));
    assert(commitment_digests(p.public.output_note_commitments@)[k]
        == p.public.output_note_commitments@[k].0);
    assert(effective_commitments(h, p.private.onotes@)[k] == effective_commitment(h, o));
    if k < inotes.len() {
        lemma_spent(h, PlacedNote { note: inotes[k], position: proofs[k].leaf_index }, nk);
    }
    lemma_padding(h, dinotes[k]);
    lemma_padding(h, donotes[k]);
}

/// The account after keeps the identifier and the subpool, and its nonce is one more.
pub open spec fn succeeds(a: StandardAccount, b: StandardAccount) -> bool {
    &&& b.private_identifier == a.private_identifier
    &&& b.subpool_id == a.subpool_id
    &&& b.nonce.0 == F::of(a.nonce.0@ + 1)
}

proof fn lemma_one_more(a: F)
    ensures
        a + F::of(1) == F::of(a@ + 1),
{
    vstd::arithmetic::div_mod::lemma_add_mod_noop_right(a@, 1, crate::primes::goldilocks());
}

/// A prepared spend publishes the nullifier of the account before, the commitment of
/// the account after, the nullifiers of its input notes and the commitments of its
/// output notes, in order, with the seeds behind them. The account after keeps its keys,
/// and nothing is made or lost.
pub proof fn lemma_spend_publishes<H: Fn(Vec<F>, usize) -> Vec<F>>(
    h: H,
    i: &SpendTxInputs,
    p: PreparedTx,
    accout: StandardAccount,
    nullifier: AccountNullifier,
    commitment: AccountCommitment,
    nk: NullifierKey,
    k: int,
    other: AssetId,
)
    requires
        i.accin.ast.shape(),
        call_ensures(SpendTxInputs::prepare_spend::<H>, (i, &h), Some((p, accout))),
        call_ensures(StandardAccount::nullifier::<H>, (&i.accin, &h), nullifier),
        call_ensures(StandardAccount::commitment::<H>, (&accout, &h), commitment),
        call_ensures(StandardAccount::nk::<H>, (&i.accin, &h), nk),
        0 <= k < 7,
    ensures
        p.public.state_root == i.root,
        p.public.mainpool_config_root == i.main_pool.top(),
        p.public.not_fake_tx,
        p.public.accin_nullifier == nullifier.0,
        p.public.accout_commitment == commitment.0,
        p.public.input_note_nullifiers@[k].0 == slot_spent(
            h,
            i.inotes@,
            i.inotes_nct_proofs@,
            i.dinotes@,
            nk.0,
            k,
        ),
        p.public.output_note_commitments@[k].0 == slot_made(h, i.onotes@, i.donotes@, k),
        succeeds(i.accin, accout),
        accout.spend_auth == i.accin.spend_auth,
        accout.consume_auth == i.accin.consume_auth,
        ({
            let a = if i.inotes@.len() > 0 {
                i.inotes@[0].asset_id
            } else {
                i.onotes@[0].asset_id
            };
            &&& balance_of(accout.ast@, a) + sum_of(plain_amounts(i.onotes@)) == balance_of(
                i.accin.ast@,
                a,
            ) + sum_of(plain_amounts(i.inotes@))
            &&& other != a ==> balance_of(accout.ast@, other) == balance_of(i.accin.ast@, other)
        }),
{
    let me = crate::tx_witness::address_of(h, &i.accin);
    lemma_slot_published(
        h,
        &i.accin,
        &accout,
        i.root,
        i.main_pool.top(),
        p,
        i.inotes@,
        i.inotes_nct_proofs@,
        i.dinotes@,
        i.onotes@,
        i.donotes@,
        (
            crate::tx_witness::idle_input(me, i.asset()),
            crate::tx_witness::idle_output(i.asset()),
        ),
        k,
    );
    lemma_one_more(i.accin.nonce.0);
    assert(plain_amounts(i.inotes@) =~= amounts_of(i.inotes@));
    assert(plain_amounts(i.onotes@) =~= amounts_of(i.onotes@));
    i.accin.ast.lemma_shape();
    let a = i.asset();
    let amt = choose|amt: U256|
        amt.value() == i.new_balance() && #[trigger] set_balance(
            i.accin.ast@,
            a,
            amt,
            accout.ast@,
        );
    lemma_set_balance(i.accin.ast@, a, amt, accout.ast@, a);
    lemma_set_balance(i.accin.ast@, a, amt, accout.ast@, other);
}

/// A prepared rejection publishes the same of its accounts and notes. The account after
/// keeps its keys and all its balances.
pub proof fn lemma_reject_publishes<H: Fn(Vec<F>, usize) -> Vec<F>>(
    h: H,
    i: &RejectTxInputs,
    p: PreparedTx,
    accout: StandardAccount,
    nullifier: AccountNullifier,
    commitment: AccountCommitment,
    nk: NullifierKey,
    k: int,
)
    requires
        call_ensures(RejectTxInputs::prepare_reject::<H>, (i, &h), Some((p, accout))),
        call_ensures(StandardAccount::nullifier::<H>, (&i.accin, &h), nullifier),
        call_ensures(StandardAccount::commitment::<H>, (&accout, &h), commitment),
        call_ensures(StandardAccount::nk::<H>, (&i.accin, &h), nk),
        0 <= k < 7,
    ensures
        p.public.state_root == i.root,
        p.public.mainpool_config_root == i.main_pool.top(),
        p.public.not_fake_tx,
        p.private.flags.is_rjct,
        p.public.accin_nullifier == nullifier.0,
        p.public.accout_commitment == commitment.0,
        p.public.input_note_nullifiers@[k].0 == slot_spent(
            h,
            i.inotes@,
            i.inotes_nct_proofs@,
            i.dinotes@,
            nk.0,
            k,
        ),
        p.public.output_note_commitments@[k].0 == slot_made(h, i.onotes@, i.donotes@, k),
        succeeds(i.accin, accout),
        accout.spend_auth == i.accin.spend_auth,
        accout.consume_auth == i.accin.consume_auth,
        accout.ast@ == i.accin.ast@,
        accout.ast.top() == i.accin.ast.top(),
{
    let me = crate::tx_witness::address_of(h, &i.accin);
    lemma_slot_published(
        h,
        &i.accin,
        &accout,
        i.root,
        i.main_pool.top(),
        p,
        i.inotes@,
        i.inotes_nct_proofs@,
        i.dinotes@,
        i.onotes@,
        i.donotes@,
        (
            crate::tx_witness::idle_input(me, i.asset()),
            crate::tx_witness::idle_output(i.asset()),
        ),
        k,
    );
    lemma_one_more(i.accin.nonce.0);
}

/// A prepared opening publishes the nullifier of the account before, the commitment of
/// the account after, and seeds. The account after has the new keys and the same
/// balances.
pub proof fn lemma_opening_publishes<H: Fn(Vec<F>, usize) -> Vec<F>>(
    h: H,
    i: &FreshAccInputs,
    p: PreparedTx,
    accout: StandardAccount,
    nullifier: AccountNullifier,
    commitment: AccountCommitment,
    k: int,
)
    requires
        call_ensures(FreshAccInputs::prepare_freshacc::<H>, (i, &h), Some((p, accout))),
        call_ensures(StandardAccount::nullifier::<H>, (&i.accin, &h), nullifier),
        call_ensures(StandardAccount::commitment::<H>, (&accout, &h), commitment),
        0 <= k < 7,
    ensures
        p.public.state_root == i.root,
        p.public.mainpool_config_root == i.main_pool.top(),
        p.public.not_fake_tx,
        p.private.flags.is_fresh_acc,
        p.public.accin_nullifier == nullifier.0,
        p.public.accout_commitment == commitment.0,
        p.public.input_note_nullifiers@[k].0 == padding(h, i.dinotes@[k]),
        p.public.output_note_commitments@[k].0 == padding(h, i.donotes@[k]),
        succeeds(i.accin, accout),
        accout.spend_auth == i.new_spend_auth,
        accout.consume_auth == i.new_consume_auth,
        accout.ast@ == i.accin.ast@,
        accout.ast.top() == i.accin.ast.top(),
{
    let me = crate::tx_witness::address_of(h, &i.accin);
    let none = AssetId(F::of(0));
    lemma_slot_published(
        h,
        &i.accin,
        &accout,
        i.root,
        i.main_pool.top(),
        p,
        Seq::empty(),
        Seq::empty(),
        i.dinotes@,
        Seq::empty(),
        i.donotes@,
        (crate::tx_witness::idle_input(me, none), crate::tx_witness::idle_output(none)),
        k,
    );
    lemma_one_more(i.accin.nonce.0);
}

/// A prepared padding transaction is marked as such and publishes the roots, the
/// nullifier and the commitment that it was given, and zero seeds.
pub proof fn lemma_padding_publishes<H: Fn(Vec<F>, usize) -> Vec<F>>(
    h: H,
    i: &FakeTxInputs,
    r: (PreparedTx, StandardAccount, StandardAccount),
    k: int,
)
    requires
        call_ensures(FakeTxInputs::prepare_fake::<H>, (i, &h), r),
        0 <= k < 7,
    ensures
        !r.0.public.not_fake_tx,
        r.0.public.state_root == i.root,
        r.0.public.mainpool_config_root == i.mainpool_config_root,
        r.0.public.accin_nullifier == i.override_an,
        r.0.public.accout_commitment == i.override_ac,
        r.0.public.input_note_nullifiers@[k].0 == padding(
            h,
            HashOutput(F::of(0), F::of(0), F::of(0), F::of(0)),
        ),
        r.0.public.output_note_commitments@[k].0 == padding(
            h,
            HashOutput(F::of(0), F::of(0), F::of(0), F::of(0)),
        ),
{
    let me = crate::tx_witness::address_of(h, &r.1);
    let none = AssetId(F::of(0));
    lemma_slot_forms(
        h,
        r.1.spec_nk(h),
        r.0,
        Seq::empty(),
        Seq::empty(),
        crate::fake_tx::zero_digests(),
        Seq::empty(),
        crate::fake_tx::zero_digests(),
        (crate::tx_witness::idle_input(me, none), crate::tx_witness::idle_output(none)),
        k,
    );
}

/// A prepared deposit publishes the nullifier of the account before, the commitment of
/// the account after and that of the note, the amount and the asset of the note, and
/// the address in five words.
pub proof fn lemma_deposit_publishes<H: Fn(Vec<F>, usize) -> Vec<F>>(
    h: H,
    t: &BuiltDepositTx,
    r: (DepositTxPublicInputs, DepositTxPrivateTargets),
    nullifier: AccountNullifier,
    commitment: AccountCommitment,
    note: DepositNoteCommitment,
)
    requires
        call_ensures(BuiltDepositTx::prepare::<H>, (t, &h), r),
        call_ensures(StandardAccount::nullifier::<H>, (&t.accin, &h), nullifier),
        call_ensures(StandardAccount::commitment::<H>, (&t.accout, &h), commitment),
        call_ensures(DepositNote::commitment::<H>, (&t.deposit_note, &h), note),
    ensures
        r.0.state_root == t.state_root,
        r.0.mainpool_config_root == t.main_pool_root,
        r.0.not_fake_tx == t.not_fake_tx,
        r.0.accin_null == nullifier.0,
        r.0.accout_comm == commitment.0,
        r.0.note_comm == note.0,
        r.0.amount == t.deposit_note.amount,
        r.0.asset_id == t.deposit_note.asset_id,
        r.0.eth_address@ == crate::note::h160_elements(t.eth_address@),
{
}

/// A prepared withdrawal publishes the nullifier of the account before, the commitment
/// of the account after, the withdrawals in order with zeros behind them, and the
/// address in five words. The account after keeps its keys, and each balance is lower
/// by what is withdrawn of the asset.
pub proof fn lemma_withdraw_publishes<H: Fn(Vec<F>, usize) -> Vec<F>>(
    h: H,
    t: &BuiltWithdrawTx,
    r: (WithdrawTxPublicInputs, WithdrawTxPrivateTargets, WithdrawalSlots),
    nullifier: AccountNullifier,
    commitment: AccountCommitment,
    k: int,
    a: AssetId,
)
    requires
        t.accin.ast.shape(),
        call_ensures(BuiltWithdrawTx::prepare::<H>, (t, &h), r),
        call_ensures(StandardAccount::nullifier::<H>, (&t.accin, &h), nullifier),
        call_ensures(StandardAccount::commitment::<H>, (&r.2.accout, &h), commitment),
        0 <= k < 7,
        crate::ast::has_asset(t.accin.ast@, a),
    ensures
        r.0.root == t.state_root,
        r.0.mainpool_config_root == t.main_pool_root,
        r.0.not_fake_tx == t.not_fake_tx,
        r.0.accin_null == nullifier.0,
        r.0.accout_comm == commitment.0,
        r.0.asset_ids@[k] == (if k < t.withdrawals@.len() {
            t.withdrawals@[k].0
        } else {
            AssetId(F::of(0))
        }),
        r.0.withdrawal_amts@[k] == (if k < t.withdrawals@.len() {
            t.withdrawals@[k].1
        } else {
            U256(0, 0, 0, 0)
        }),
        r.0.w_acc_addr@ == crate::note::h160_elements(t.w_acc_addr@),
        succeeds(t.accin, r.2.accout),
        r.2.accout.spend_auth == t.accin.spend_auth,
        r.2.accout.consume_auth == t.accin.consume_auth,
        balance_of(r.2.accout.ast@, a) + total_of(t.withdrawals@, a) == balance_of(
            t.accin.ast@,
            a,
        ),
{
    assert(slot_wires(r.0, r.1, r.2, k));
    assert(slot_of(&t.accin, t.withdrawals@, k, r.2.slots@[k]));
    lemma_one_more(t.accin.nonce.0);
    t.accin.ast.lemma_shape();
    lemma_drained_balance(t.accin.ast@, t.withdrawals@, r.2.accout.ast@, a);
}

/// A built private transaction publishes, with its wires and without them alike, the
/// nullifier of the account before and the commitment of the account after, and in each
/// slot what stands there: first the rejected notes, which go back to their senders,
/// then the input or the output notes, then the seeds.
pub proof fn lemma_built_publishes<H: Fn(Vec<F>, usize) -> Vec<F>>(
    h: H,
    t: &BuiltPrivTx,
    p: PreparedTx,
    u: PrivTxPublicInputs,
    nullifier: AccountNullifier,
    commitment: AccountCommitment,
    nk: NullifierKey,
    k: int,
)
    requires
        call_ensures(
            BuiltPrivTx::set_transaction_witnesses::<H>,
            (t, &h),
            Ok::<PreparedTx, PrivTxProveError>(p),
        ),
        call_ensures(BuiltPrivTx::extract_public_inputs::<H>, (t, &h), u),
        t.rejected_inotes_nct_proofs@.len() == t.rejected_inotes@.len(),
        t.inotes_nct_proofs@.len() == t.inotes@.len(),
        call_ensures(StandardAccount::nullifier::<H>, (&t.accin, &h), nullifier),
        call_ensures(StandardAccount::commitment::<H>, (&t.accout, &h), commitment),
        call_ensures(StandardAccount::nk::<H>, (&t.accin, &h), nk),
        0 <= k < 7,
    ensures
        p.public.state_root == t.state_root && u.state_root == t.state_root,
        p.public.mainpool_config_root == t.main_pool_root && u.mainpool_config_root
            == t.main_pool_root,
        p.public.not_fake_tx == t.tx_kind_flags.not_fake_tx,
        p.public.accin_nullifier == nullifier.0 && u.accin_nullifier == nullifier.0,
        p.public.accout_commitment == commitment.0 && u.accout_commitment == commitment.0,
        u.input_note_nullifiers@[k] == p.public.input_note_nullifiers@[k],
        u.output_note_commitments@[k] == p.public.output_note_commitments@[k],
        u.input_note_nullifiers@[k].0 == ({
            let j = k - t.rejected_inotes@.len();
            if j < 0 {
                spent(
                    h,
                    PlacedNote {
                        note: t.rejected_inotes@[k],
                        position: t.rejected_inotes_nct_proofs@[k].leaf_index,
                    },
                    nk.0,
                )
            } else if j < t.inotes@.len() {
                spent(
                    h,
                    PlacedNote {
                        note: t.inotes@[j],
                        position: t.inotes_nct_proofs@[j].leaf_index,
                    },
                    nk.0,
                )
            } else {
                padding(h, t.dinotes@[j - t.inotes@.len()])
            }
        }),
        u.output_note_commitments@[k].0 == ({
            let j = k - t.rejected_inotes@.len();
            if j < 0 {
                let back = t.rejected_inotes@[k];
                (StandardNote { recipient: back.sender, ..back }).spec_commitment(h)
            } else if j < t.onotes@.len() {
                t.onotes@[j].spec_commitment(h)
            } else {
                padding(h, t.donotes@[j - t.onotes@.len()])
            }
        }),
{
    let me = crate::tx_witness::address_of(h, &t.accin);
    let n = t.rejected_inotes@.len();
    let j = k - n;
    lemma_slot_published(
        h,
        &t.accin,
        &t.accout,
        t.state_root,
        t.main_pool_root,
        p,
        t.rejected_inotes@ + t.inotes@,
        t.rejected_inotes_nct_proofs@ + t.inotes_nct_proofs@,
        padded_seeds(n + t.inotes@.len(), t.dinotes@),
        returned_all(t.rejected_inotes@) + t.onotes@,
        padded_seeds(n + t.onotes@.len(), t.donotes@),
        (
            crate::tx_witness::idle_input(me, t.asset()),
            crate::tx_witness::idle_output(t.asset()),
        ),
        k,
    );
    let rejected = place_all(t.rejected_inotes@, t.rejected_inotes_nct_proofs@);
    let inotes = place_all(t.inotes@, t.inotes_nct_proofs@);
    let a = slot_nullifiers(h, rejected, inotes, t.dinotes@, nk.0);
    let c = slot_commitments(h, t.rejected_inotes@, t.onotes@, t.donotes@);
    assert(nullifier_digests(u.input_note_nullifiers@)[k] == u.input_note_nullifiers@[k].0);
    assert(commitment_digests(u.output_note_commitments@)[k] == u.output_note_commitments@[k].0);
    assert(a[k] == crate::built_priv_tx::slot_nullifier_of(
        h,
        rejected,
        inotes,
        t.dinotes@,
        nk.0,
        k,
    ));
    assert(c[k] == crate::built_priv_tx::slot_commitment_of(
        h,
        t.rejected_inotes@,
        t.onotes@,
        t.donotes@,
        k,
    ));
    if j < 0 {
        lemma_spent(h, rejected[k], nk.0);
    } else if j < t.inotes@.len() {
        lemma_spent(h, inotes[j], nk.0);
    } else {
        lemma_padding(h, t.dinotes@[j - t.inotes@.len()]);
    }
    if j >= t.onotes@.len() {
        lemma_padding(h, t.donotes@[j - t.onotes@.len()]);
    }
}

} // verus!
