//! What the checks of transactions accept.
//!
//! Each law starts from a check that returned `true`, and says what then holds of the
//! wires: of accounts, state trees, notes, authority keys, amounts and signatures.
use vstd::prelude::*;

use crate::addition::sum_of;
use crate::ast::ast_root;
use crate::circuit::ast_update;
use crate::challenge_laws::{lemma_held_challenge, spells_challenge};
use crate::deposit_tx::{
    deposit_holds, deposit_tx_circuit, DepositTxPrivateTargets, DepositTxPublicInputs,
    DepositTxTargets,
};
use crate::field::F;
use crate::hash::{digest, HashOutput};
use crate::note::{
    commitment_digests, hash_deposit_tx, hash_withdraw_tx, nullifier_digests,
};
use crate::pool_config::MainPoolConfigLeaf;
use crate::priv_tx::{
    accounts_hold, effective_commitment, effective_commitments, effective_nullifier,
    effective_nullifiers, has_inotes, inote_valid, input_amounts, keeps_inotes, makes_onotes,
    mirrors, notes_hold, output_amounts, owner_of, priv_tx_circuit, spec_tx_hash, InputSlot,
    OutputSlot, TxCircuitTargets,
};
use crate::schnorr_gadget::schnorr_holds;
use crate::tree::path_root;
use crate::u256::{u256_bound, U256};
use crate::withdraw_tx::{
    slot_holds, slots_hold, withdraw_accounts_hold, withdraw_tx_circuit, WithdrawTxTargets,
};

verus! {

/// The accounts of a private transaction that is accepted.
///
/// The public nullifier and commitment of a real one are those of the accounts. The
/// account before is in the commitment tree, unless it is fresh. The identifier and the
/// subpool stay, and the nonce grows by one. A spend keeps the keys, and anything else
/// keeps the state tree.
pub proof fn lemma_private_accounts<H: Fn(Vec<F>, usize) -> Vec<F>>(h: H, t: &TxCircuitTargets)
    requires
        call_ensures(priv_tx_circuit::<H>, (&h, t), true),
    ensures
        t.private.flags.not_fake_tx == t.public.not_fake_tx,
        t.public.not_fake_tx ==> t.public.accin_nullifier == t.private.accin.nullifier(h),
        t.public.not_fake_tx ==> t.public.accout_commitment == t.private.accout.commitment(h),
        t.private.accin_act_merkle@.len() == 32,
        t.public.not_fake_tx && !t.private.flags.is_fresh_acc ==> path_root(
            h,
            t.private.accin.commitment(h),
            t.private.accin_act_merkle@,
        ) == t.public.state_root,
        t.private.accout.private_identifier == t.private.accin.private_identifier,
        t.private.accout.subpool_id == t.private.accin.subpool_id,
        t.private.accout.nonce == F::of(t.private.accin.nonce@ + 1),
        t.private.flags.is_priv_tx ==> {
            &&& t.private.accout.spend_auth == t.private.accin.spend_auth
            &&& t.private.accout.consume_pk == t.private.accin.consume_pk
            &&& t.private.accout.consume_config == t.private.accin.consume_config
        },
        !t.private.flags.is_priv_tx ==> t.private.accout.acc_ast_root
            == t.private.accin.acc_ast_root,
{
    reveal(accounts_hold);
    assert(F::of(1)@ == 1);
}

/// A private transaction that opens an account and is accepted starts from an account
/// with nonce zero, no balances and the default keys.
pub proof fn lemma_private_fresh<H: Fn(Vec<F>, usize) -> Vec<F>>(h: H, t: &TxCircuitTargets)
    requires
        call_ensures(priv_tx_circuit::<H>, (&h, t), true),
        t.private.flags.is_fresh_acc,
    ensures
        t.private.accin.nonce == F::of(0),
        t.private.accin.acc_ast_root == ast_root(h, Seq::empty()),
        !t.private.accin.consume_config,
        ({
            let (a, b) = (t.private.accin.spend_auth.0.w, t.private.accin.consume_pk.0.w);
            &&& a.c0 == F::of(7613690455422068269)
            &&& a.c1 == F::of(12930951591626745075)
            &&& a.c2 == F::of(16103143792840800039)
            &&& a.c3 == F::of(4657200339622395349)
            &&& a.c4 == F::of(3857357297380158342)
            &&& b == a
        }),
{
    reveal(accounts_hold);
    let (a, b) = (t.private.accin.spend_auth.elements(), t.private.accin.consume_pk.elements());
    assert(a[0] == b[0] && a[1] == b[1] && a[2] == b[2] && a[3] == b[3] && a[4] == b[4]);
}

/// The state trees of a private transaction that is accepted: the path of the balance
/// leads from the leaf of the balance before to the root before, and from the leaf of the
/// balance after to the root after. Where the asset is not there, the leaf is the empty
/// one and the balance is zero.
pub proof fn lemma_private_state<H: Fn(Vec<F>, usize) -> Vec<F>>(h: H, t: &TxCircuitTargets)
    requires
        call_ensures(priv_tx_circuit::<H>, (&h, t), true),
    ensures
        t.private.accin_ast_merkle@.len() == 10,
        path_root(
            h,
            if t.private.asset_exists_in_accin {
                digest(h, seq![F::of(1312), t.private.asset_id.0] + t.private.accin_amt.limbs())
            } else {
                HashOutput(F::of(0), F::of(0), F::of(0), F::of(0))
            },
            t.private.accin_ast_merkle@,
        ) == t.private.accin.acc_ast_root,
        !t.private.asset_exists_in_accin ==> t.private.accin_amt.value() == 0,
        path_root(
            h,
            if t.private.asset_exists_in_accout {
                digest(h, seq![F::of(1312), t.private.asset_id.0] + t.private.accout_amt.limbs())
            } else {
                HashOutput(F::of(0), F::of(0), F::of(0), F::of(0))
            },
            t.private.accin_ast_merkle@,
        ) == t.private.accout.acc_ast_root,
        !t.private.asset_exists_in_accout ==> t.private.accout_amt.value() == 0,
{
    reveal(accounts_hold);
}

/// The authority keys of a real private transaction that is accepted are leaves of one
/// configuration, and that configuration with the subpool of the account is a leaf of
/// the main pool.
pub proof fn lemma_private_authority<H: Fn(Vec<F>, usize) -> Vec<F>>(h: H, t: &TxCircuitTargets)
    requires
        call_ensures(priv_tx_circuit::<H>, (&h, t), true),
        t.public.not_fake_tx,
    ensures
        ({
            let v = t.private;
            let s = v.subpool_proof_targets;
            let root = s.subpool_config_root;
            let (a, r, c) = (v.approval_key.0.w, v.rejection_key.0.w, v.subpool_consume_key.0.w);
            &&& s.approval_proof@.len() == 2
            &&& path_root(
                h,
                digest(h, seq![a.c0, a.c1, a.c2, a.c3, a.c4]),
                s.approval_proof@,
            ) == root
            &&& s.rejection_proof@.len() == 2
            &&& path_root(
                h,
                digest(h, seq![r.c0, r.c1, r.c2, r.c3, r.c4]),
                s.rejection_proof@,
            ) == root
            &&& s.consume_proof@.len() == 2
            &&& path_root(
                h,
                digest(h, seq![c.c0, c.c1, c.c2, c.c3, c.c4]),
                s.consume_proof@,
            ) == root
            &&& s.main_pool_proof@.len() == 20
            &&& path_root(
                h,
                digest(h, seq![root.0, root.1, root.2, root.3, v.accin.subpool_id.0]),
                s.main_pool_proof@,
            ) == t.public.mainpool_config_root
        }),
{
    let root = t.private.subpool_proof_targets.subpool_config_root;
    let id = t.private.accin.subpool_id;
    assert((MainPoolConfigLeaf { subpool_root: root, subpool_id: id }).preimage() =~= seq![
        root.0,
        root.1,
        root.2,
        root.3,
        id.0,
    ]);
}

/// An input slot of a private transaction that is accepted: the note is for the account
/// and of the asset of the transaction. An active note is in the commitment tree, and its
/// nullifier is the digest of its commitment, its place and the account's nullifier key;
/// the nullifier of any other slot is the digest of the digest of its seed.
pub proof fn lemma_private_input<H: Fn(Vec<F>, usize) -> Vec<F>>(
    h: H,
    t: &TxCircuitTargets,
    k: int,
)
    requires
        call_ensures(priv_tx_circuit::<H>, (&h, t), true),
        0 <= k < 7,
    ensures
        t.private.inotes@.len() == 7,
        ({
            let s = t.private.inotes@[k];
            let acc = t.private.accin;
            let c = s.note.spec_commitment(h);
            let nk = acc.nk(h);
            let d = digest(h, seq![s.dummy.0, s.dummy.1, s.dummy.2, s.dummy.3]);
            &&& s.note.recipient.subpool_id == acc.subpool_id
            &&& s.note.recipient.public_id.0 == acc.public_id(h)
            &&& s.note.asset_id == t.private.asset_id
            &&& s.path@.len() == 32
            &&& s.is_active ==> path_root(h, c, s.path@) == t.public.state_root
            &&& t.public.input_note_nullifiers@[k].0 == (if s.is_active {
                digest(
                    h,
                    seq![c.0, c.1, c.2, c.3, s.position, nk.0, nk.1, nk.2, nk.3],
                )
            } else {
                digest(h, seq![d.0, d.1, d.2, d.3])
            })
        }),
{
    reveal(notes_hold);
    let (u, v) = (t.public, t.private);
    let s = v.inotes@[k];
    let nk = v.accin.nk(h);
    assert(inote_valid(h, s, owner_of(h, v.accin), u.state_root));
    let x = nullifier_digests(u.input_note_nullifiers@);
    assert(x[k] == u.input_note_nullifiers@[k].0);
    assert(effective_nullifiers(h, v.inotes@, nk)[k] == effective_nullifier(h, s, nk));
    let c = s.note.spec_commitment(h);
    assert(c.elements() + seq![s.position] + nk.elements() =~= seq![
        c.0,
        c.1,
        c.2,
        c.3,
        s.position,
        nk.0,
        nk.1,
        nk.2,
        nk.3,
    ]);
}

/// An output slot of a private transaction that is accepted: the note is of the asset of
/// the transaction. The public commitment is that of the note where the slot is active,
/// else the digest of the digest of its seed.
pub proof fn lemma_private_output<H: Fn(Vec<F>, usize) -> Vec<F>>(
    h: H,
    t: &TxCircuitTargets,
    k: int,
)
    requires
        call_ensures(priv_tx_circuit::<H>, (&h, t), true),
        0 <= k < 7,
    ensures
        t.private.onotes@.len() == 7,
        ({
            let s = t.private.onotes@[k];
            let d = digest(h, seq![s.dummy.0, s.dummy.1, s.dummy.2, s.dummy.3]);
            &&& s.note.asset_id == t.private.asset_id
            &&& t.public.output_note_commitments@[k].0 == (if s.is_active {
                s.note.spec_commitment(h)
            } else {
                digest(h, seq![d.0, d.1, d.2, d.3])
            })
        }),
{
    reveal(notes_hold);
    let (u, v) = (t.public, t.private);
    let s = v.onotes@[k];
    assert(v.inotes@[k].note.asset_id == v.asset_id);
    let x = commitment_digests(u.output_note_commitments@);
    assert(x[k] == u.output_note_commitments@[k].0);
    assert(effective_commitments(h, v.onotes@)[k] == effective_commitment(h, s));
}

/// A slot that a private transaction returns: where it rejects, or marks the slot, the
/// output note is the input note on its way back to the sender.
pub proof fn lemma_private_return<H: Fn(Vec<F>, usize) -> Vec<F>>(
    h: H,
    t: &TxCircuitTargets,
    k: int,
)
    requires
        call_ensures(priv_tx_circuit::<H>, (&h, t), true),
        0 <= k < 7,
        t.private.flags.is_rjct || t.private.returned@[k],
    ensures
        ({
            let (i, o) = (t.private.inotes@[k], t.private.onotes@[k]);
            &&& o.is_active == i.is_active
            &&& o.note.identifier == i.note.identifier
            &&& o.note.amt == i.note.amt
            &&& o.note.asset_id == i.note.asset_id
            &&& o.note.recipient == i.note.sender
            &&& o.note.sender == i.note.sender
        }),
{
    reveal(notes_hold);
    assert(mirrors(t.private.inotes@[k], t.private.onotes@[k]));
}

/// What a slot counts for: the amount of its note where it is active, else nothing.
pub open spec fn counted(active: bool, amount: nat) -> nat {
    if active {
        amount
    } else {
        0
    }
}

/// What a private transaction that is accepted moves: the balance before and the amounts
/// of the active input notes are together the balance after and the amounts of the active
/// output notes, modulo `2^256`.
pub proof fn lemma_private_conserves<H: Fn(Vec<F>, usize) -> Vec<F>>(h: H, t: &TxCircuitTargets)
    requires
        call_ensures(priv_tx_circuit::<H>, (&h, t), true),
    ensures
        ({
            let i = |k: int|
                counted(
                    t.private.inotes@[k].is_active,
                    t.private.inotes@[k].note.amt.value(),
                );
            let o = |k: int|
                counted(
                    t.private.onotes@[k].is_active,
                    t.private.onotes@[k].note.amt.value(),
                );
            (t.private.accin_amt.value() + (i(0) + i(1) + i(2) + i(3) + i(4) + i(5) + i(6)))
                % 0x1_0000_0000_0000_0000_0000_0000_0000_0000_0000_0000_0000_0000_0000_0000_0000_0000nat
                == (t.private.accout_amt.value() + (o(0) + o(1) + o(2) + o(3) + o(4) + o(5)
                + o(6)))
                % 0x1_0000_0000_0000_0000_0000_0000_0000_0000_0000_0000_0000_0000_0000_0000_0000_0000nat
        }),
{
    reveal(notes_hold);
    let (a, b) = (t.private.inotes@, t.private.onotes@);
    lemma_counted_sums(a, b);
}

pub(crate) proof fn lemma_counted_sums(a: Seq<InputSlot>, b: Seq<OutputSlot>)
    requires
        a.len() == 7,
        b.len() == 7,
    ensures
        ({
            let i = |k: int| counted(a[k].is_active, a[k].note.amt.value());
            let o = |k: int| counted(b[k].is_active, b[k].note.amt.value());
            &&& sum_of(input_amounts(a)) == i(0) + i(1) + i(2) + i(3) + i(4) + i(5) + i(6)
            &&& sum_of(output_amounts(b)) == o(0) + o(1) + o(2) + o(3) + o(4) + o(5) + o(6)
        }),
{
    let i = |k: int| counted(a[k].is_active, a[k].note.amt.value());
    let o = |k: int| counted(b[k].is_active, b[k].note.amt.value());
    let (x, y) = (input_amounts(a), output_amounts(b));
    assert forall|k: int| 0 <= k < 7 implies x[k].value() == #[trigger] i(k) by {
        lemma_counted_value(a[k].is_active, a[k].note.amt);
    }
    assert forall|k: int| 0 <= k < 7 implies y[k].value() == #[trigger] o(k) by {
        lemma_counted_value(b[k].is_active, b[k].note.amt);
    }
    lemma_sum_of_seven(x, i);
    lemma_sum_of_seven(y, o);
}

proof fn lemma_counted_value(active: bool, x: U256)
    ensures
        (if active {
            x
        } else {
            U256(0, 0, 0, 0)
        }).value() == counted(active, x.value()),
{
    assert(U256(0, 0, 0, 0).value() == 0);
}

/// The sum of seven numbers with given values.
proof fn lemma_sum_of_seven(s: Seq<U256>, f: spec_fn(int) -> nat)
    requires
        s.len() == 7,
        forall|k: int| 0 <= k < 7 ==> s[k].value() == #[trigger] f(k),
    ensures
        sum_of(s) == f(0) + f(1) + f(2) + f(3) + f(4) + f(5) + f(6),
{
    reveal_with_fuel(sum_of, 8);
    assert(s[0].value() == f(0) && s[1].value() == f(1) && s[2].value() == f(2) && s[3].value()
        == f(3) && s[4].value() == f(4) && s[5].value() == f(5) && s[6].value() == f(6));
}

/// The approval of a real private transaction that is accepted: the selectors on its
/// wires spell the challenge of the transaction's hash under the approval key.
pub proof fn lemma_private_approval<H: Fn(Vec<F>, usize) -> Vec<F>>(h: H, t: &TxCircuitTargets)
    requires
        call_ensures(priv_tx_circuit::<H>, (&h, t), true),
        t.public.not_fake_tx,
        forall|i: int| 0 <= i < 80 ==> (#[trigger] t.sig_targets.approval.da4x@[i]).canonical(),
    ensures
        spells_challenge(
            h,
            t.private.approval_key,
            spec_tx_hash(h, t.public),
            t.sig_targets.approval,
        ),
{
    lemma_held_challenge(
        h,
        spec_tx_hash(h, t.public),
        t.private.approval_key,
        t.sig_targets.approval,
    );
}

/// The spend signature of a private transaction that is accepted: where a note is made
/// that returns none, and the transaction does not reject, the selectors spell the
/// challenge under the account's spend key.
pub proof fn lemma_private_spend<H: Fn(Vec<F>, usize) -> Vec<F>>(
    h: H,
    t: &TxCircuitTargets,
    k: int,
)
    requires
        call_ensures(priv_tx_circuit::<H>, (&h, t), true),
        0 <= k < 7,
        t.private.onotes@[k].is_active,
        !t.private.returned@[k],
        !t.private.flags.is_rjct,
        forall|i: int| 0 <= i < 80 ==> (#[trigger] t.sig_targets.spend.da4x@[i]).canonical(),
    ensures
        spells_challenge(
            h,
            t.private.accin.spend_auth,
            spec_tx_hash(h, t.public),
            t.sig_targets.spend,
        ),
{
    assert(makes_onotes(t.private.onotes@, t.private.returned@));
    lemma_held_challenge(
        h,
        spec_tx_hash(h, t.public),
        t.private.accin.spend_auth,
        t.sig_targets.spend,
    );
}

/// The consume signature of a private transaction that is accepted: a reject of an
/// active note needs it, and so does a transaction of an account with its own consume key
/// that consumes a note without making any. The selectors spell the challenge under the
/// account's own key, or the subpool's where the account delegates.
pub proof fn lemma_private_consume<H: Fn(Vec<F>, usize) -> Vec<F>>(
    h: H,
    t: &TxCircuitTargets,
    k: int,
)
    requires
        call_ensures(priv_tx_circuit::<H>, (&h, t), true),
        0 <= k < 7,
        t.private.inotes@[k].is_active,
        t.private.flags.is_rjct || {
            &&& t.private.accin.consume_config
            &&& !t.private.returned@[k]
            &&& forall|j: int|
                0 <= j < 7 ==> !((#[trigger] t.private.onotes@[j]).is_active
                    && !t.private.returned@[j])
        },
        forall|i: int| 0 <= i < 80 ==> (#[trigger] t.sig_targets.consume.da4x@[i]).canonical(),
    ensures
        spells_challenge(
            h,
            if t.private.accin.consume_config {
                t.private.accin.consume_pk
            } else {
                t.private.subpool_consume_key
            },
            spec_tx_hash(h, t.public),
            t.sig_targets.consume,
        ),
{
    let v = t.private;
    assert(has_inotes(v.inotes@));
    assert(!v.returned@[k] ==> keeps_inotes(v.inotes@, v.returned@));
    lemma_held_challenge(
        h,
        spec_tx_hash(h, t.public),
        if v.accin.consume_config {
            v.accin.consume_pk
        } else {
            v.subpool_consume_key
        },
        t.sig_targets.consume,
    );
}

/// The accounts and the note of a deposit that is accepted.
///
/// The public inputs are those of the accounts and of the note, which is for the account.
/// The account before is in the commitment tree, where the deposit is real. The
/// identifier, the subpool and the keys stay, and the nonce grows by one.
pub proof fn lemma_deposit_accounts<H: Fn(Vec<F>, usize) -> Vec<F>>(h: H, t: &DepositTxTargets)
    requires
        call_ensures(deposit_tx_circuit::<H>, (&h, t), true),
    ensures
        t.public.accin_null == t.private.accin.nullifier(h),
        t.public.accout_comm == t.private.accout.commitment(h),
        t.public.note_comm == digest(h, t.private.deposit_note.preimage()),
        t.public.amount == t.private.deposit_note.amount,
        t.public.asset_id == t.private.deposit_note.asset_id,
        t.private.deposit_note.recipient.subpool_id == t.private.accin.subpool_id,
        t.private.deposit_note.recipient.public_id.0 == t.private.accin.public_id(h),
        t.private.accin_act_merkle@.len() == 32,
        t.public.not_fake_tx ==> path_root(
            h,
            t.private.accin.commitment(h),
            t.private.accin_act_merkle@,
        ) == t.public.state_root,
        t.private.accout.private_identifier == t.private.accin.private_identifier,
        t.private.accout.subpool_id == t.private.accin.subpool_id,
        t.private.accout.nonce == F::of(t.private.accin.nonce@ + 1),
        t.private.accout.spend_auth == t.private.accin.spend_auth,
        t.private.accout.consume_pk == t.private.accin.consume_pk,
        t.private.accout.consume_config == t.private.accin.consume_config,
{
    reveal(deposit_holds);
    assert(F::of(1)@ == 1);
}

/// What a deposit that is accepted credits: the balance after is the balance before and
/// the public amount, modulo `2^256`.
pub proof fn lemma_deposit_amount<H: Fn(Vec<F>, usize) -> Vec<F>>(h: H, t: &DepositTxTargets)
    requires
        call_ensures(deposit_tx_circuit::<H>, (&h, t), true),
    ensures
        t.private.accout_amt.value() == (t.private.accin_amt.value() + t.public.amount.value())
            % 0x1_0000_0000_0000_0000_0000_0000_0000_0000_0000_0000_0000_0000_0000_0000_0000_0000nat,
{
    assert(deposit_holds(h, t.public, t.private));
    lemma_credited(h, t.public, t.private);
}

proof fn lemma_credited<H: Fn(Vec<F>, usize) -> Vec<F>>(
    h: H,
    u: DepositTxPublicInputs,
    v: DepositTxPrivateTargets,
)
    requires
        deposit_holds(h, u, v),
    ensures
        v.accout_amt.value() == (v.accin_amt.value() + u.amount.value()) % u256_bound(),
{
    reveal(deposit_holds);
}

/// The state trees of a deposit that is accepted: the path of the balance leads from the
/// leaf of the balance before to the root before, and from the leaf of the balance after
/// to the root after, whether the asset was there before or not.
pub proof fn lemma_deposit_state<H: Fn(Vec<F>, usize) -> Vec<F>>(h: H, t: &DepositTxTargets)
    requires
        call_ensures(deposit_tx_circuit::<H>, (&h, t), true),
    ensures
        t.private.accin_ast_merkle@.len() == 10,
        path_root(
            h,
            if t.private.asset_exists_in_accin {
                digest(h, seq![F::of(1312), t.public.asset_id.0] + t.private.accin_amt.limbs())
            } else {
                HashOutput(F::of(0), F::of(0), F::of(0), F::of(0))
            },
            t.private.accin_ast_merkle@,
        ) == t.private.accin.acc_ast_root,
        !t.private.asset_exists_in_accin ==> t.private.accin_amt.value() == 0,
        path_root(
            h,
            if t.private.asset_exists_in_accout {
                digest(h, seq![F::of(1312), t.public.asset_id.0] + t.private.accout_amt.limbs())
            } else {
                HashOutput(F::of(0), F::of(0), F::of(0), F::of(0))
            },
            t.private.accin_ast_merkle@,
        ) == t.private.accout.acc_ast_root,
        !t.private.asset_exists_in_accout ==> t.private.accout_amt.value() == 0,
{
    assert(deposit_holds(h, t.public, t.private));
    lemma_updated(h, t.public, t.private);
}

proof fn lemma_updated<H: Fn(Vec<F>, usize) -> Vec<F>>(
    h: H,
    u: DepositTxPublicInputs,
    v: DepositTxPrivateTargets,
)
    requires
        deposit_holds(h, u, v),
    ensures
        ast_update(
            h,
            u.asset_id,
            v.accin_amt,
            v.accout_amt,
            v.accin.acc_ast_root,
            v.accout.acc_ast_root,
            v.asset_exists_in_accin,
            v.asset_exists_in_accout,
            v.accin_ast_merkle@,
        ),
{
    reveal(deposit_holds);
}

/// The authority keys of a real deposit that is accepted are leaves of one configuration,
/// and that configuration with the subpool of the account is a leaf of the main pool.
pub proof fn lemma_deposit_authority<H: Fn(Vec<F>, usize) -> Vec<F>>(h: H, t: &DepositTxTargets)
    requires
        call_ensures(deposit_tx_circuit::<H>, (&h, t), true),
        t.public.not_fake_tx,
    ensures
        ({
            let v = t.private;
            let s = v.subpool_proof_targets;
            let root = s.subpool_config_root;
            let (a, r, c) = (v.approval_key.0.w, v.rejection_key.0.w, v.subpool_consume_key.0.w);
            &&& s.approval_proof@.len() == 2
            &&& path_root(
                h,
                digest(h, seq![a.c0, a.c1, a.c2, a.c3, a.c4]),
                s.approval_proof@,
            ) == root
            &&& s.rejection_proof@.len() == 2
            &&& path_root(
                h,
                digest(h, seq![r.c0, r.c1, r.c2, r.c3, r.c4]),
                s.rejection_proof@,
            ) == root
            &&& s.consume_proof@.len() == 2
            &&& path_root(
                h,
                digest(h, seq![c.c0, c.c1, c.c2, c.c3, c.c4]),
                s.consume_proof@,
            ) == root
            &&& s.main_pool_proof@.len() == 20
            &&& path_root(
                h,
                digest(h, seq![root.0, root.1, root.2, root.3, v.accin.subpool_id.0]),
                s.main_pool_proof@,
            ) == t.public.mainpool_config_root
        }),
{
    reveal(deposit_holds);
    let root = t.private.subpool_proof_targets.subpool_config_root;
    let id = t.private.accin.subpool_id;
    assert((MainPoolConfigLeaf { subpool_root: root, subpool_id: id }).preimage() =~= seq![
        root.0,
        root.1,
        root.2,
        root.3,
        id.0,
    ]);
}

/// The approval of a real deposit that is accepted: the selectors on its wires spell the
/// challenge, under the approval key, of the hash of the public nullifier, commitments and
/// address.
pub proof fn lemma_deposit_approval<H: Fn(Vec<F>, usize) -> Vec<F>>(
    h: H,
    t: &DepositTxTargets,
    tx_hash: HashOutput,
)
    requires
        call_ensures(deposit_tx_circuit::<H>, (&h, t), true),
        t.public.not_fake_tx,
        call_ensures(
            hash_deposit_tx::<H>,
            (
                &h,
                t.public.accin_null,
                t.public.accout_comm,
                t.public.note_comm,
                &t.public.eth_address,
            ),
            tx_hash,
        ),
        forall|i: int| 0 <= i < 80 ==> (#[trigger] t.sig_targets.approval.da4x@[i]).canonical(),
    ensures
        spells_challenge(h, t.private.approval_key, tx_hash, t.sig_targets.approval),
{
    lemma_held_challenge(h, tx_hash, t.private.approval_key, t.sig_targets.approval);
}

/// The consume signature of a real deposit that is accepted: where the account has a
/// consume key of its own, the selectors spell the challenge of the hash under that key.
pub proof fn lemma_deposit_consume<H: Fn(Vec<F>, usize) -> Vec<F>>(
    h: H,
    t: &DepositTxTargets,
    tx_hash: HashOutput,
)
    requires
        call_ensures(deposit_tx_circuit::<H>, (&h, t), true),
        t.public.not_fake_tx,
        t.private.accin.consume_config,
        call_ensures(
            hash_deposit_tx::<H>,
            (
                &h,
                t.public.accin_null,
                t.public.accout_comm,
                t.public.note_comm,
                &t.public.eth_address,
            ),
            tx_hash,
        ),
        forall|i: int| 0 <= i < 80 ==> (#[trigger] t.sig_targets.consume.da4x@[i]).canonical(),
    ensures
        spells_challenge(h, t.private.accin.consume_pk, tx_hash, t.sig_targets.consume),
{
    lemma_held_challenge(h, tx_hash, t.private.accin.consume_pk, t.sig_targets.consume);
}

/// The accounts of a withdrawal that is accepted.
///
/// The public inputs are those of the accounts. The account before is in the commitment
/// tree, where the withdrawal is real. The identifier, the subpool and the keys stay, and
/// the nonce grows by one.
pub proof fn lemma_withdraw_accounts<H: Fn(Vec<F>, usize) -> Vec<F>>(h: H, t: &WithdrawTxTargets)
    requires
        call_ensures(withdraw_tx_circuit::<H>, (&h, t), true),
    ensures
        t.public.accin_null == t.private.accin.nullifier(h),
        t.public.accout_comm == t.private.accout.commitment(h),
        t.private.accin_act_merkle@.len() == 32,
        t.public.not_fake_tx ==> path_root(
            h,
            t.private.accin.commitment(h),
            t.private.accin_act_merkle@,
        ) == t.public.root,
        t.private.accout.private_identifier == t.private.accin.private_identifier,
        t.private.accout.subpool_id == t.private.accin.subpool_id,
        t.private.accout.nonce == F::of(t.private.accin.nonce@ + 1),
        t.private.accout.spend_auth == t.private.accin.spend_auth,
        t.private.accout.consume_pk == t.private.accin.consume_pk,
        t.private.accout.consume_config == t.private.accin.consume_config,
{
    reveal(withdraw_accounts_hold);
    assert(F::of(1)@ == 1);
}

/// What a slot of a withdrawal that is accepted debits: the balance before is the balance
/// after and the public amount, modulo `2^256`, and the path of the balance leads from
/// the leaf of the one to the root before the slot and from the leaf of the other to the
/// root after it. The first slot starts at the state tree of the account before, each
/// other where the one before it ends, and the last one ends at that of the account after.
pub proof fn lemma_withdraw_state<H: Fn(Vec<F>, usize) -> Vec<F>>(
    h: H,
    t: &WithdrawTxTargets,
    i: int,
)
    requires
        call_ensures(withdraw_tx_circuit::<H>, (&h, t), true),
        0 <= i < 7,
    ensures
        t.private.slots@.len() == 7,
        t.private.slots@[6].root_after == t.private.accout.acc_ast_root,
        t.private.slots@[i].accin_amt.value() == (t.private.slots@[i].accout_amt.value()
            + t.public.withdrawal_amts@[i].value())
            % 0x1_0000_0000_0000_0000_0000_0000_0000_0000_0000_0000_0000_0000_0000_0000_0000_0000nat,
        t.private.slots@[i].ast_merkle@.len() == 10,
        path_root(
            h,
            if t.private.slots@[i].asset_exists_in_accin {
                digest(h, seq![F::of(1312), t.public.asset_ids@[i].0] + t.private.slots@[i].accin_amt.limbs())
            } else {
                HashOutput(F::of(0), F::of(0), F::of(0), F::of(0))
            },
            t.private.slots@[i].ast_merkle@,
        ) == (if i == 0 {
            t.private.accin.acc_ast_root
        } else {
            t.private.slots@[i - 1].root_after
        }),
        !t.private.slots@[i].asset_exists_in_accin ==> t.private.slots@[i].accin_amt.value() == 0,
        path_root(
            h,
            if t.private.slots@[i].asset_exists_in_accout {
                digest(h, seq![F::of(1312), t.public.asset_ids@[i].0] + t.private.slots@[i].accout_amt.limbs())
            } else {
                HashOutput(F::of(0), F::of(0), F::of(0), F::of(0))
            },
            t.private.slots@[i].ast_merkle@,
        ) == t.private.slots@[i].root_after,
        !t.private.slots@[i].asset_exists_in_accout ==> t.private.slots@[i].accout_amt.value() == 0,
{
    reveal(slots_hold);
    assert(slot_holds(h, t.public, t.private, i));
}

/// The authority keys of a real withdrawal that is accepted are leaves of one
/// configuration, and that configuration with the subpool of the account is a leaf of the
/// main pool.
pub proof fn lemma_withdraw_authority<H: Fn(Vec<F>, usize) -> Vec<F>>(h: H, t: &WithdrawTxTargets)
    requires
        call_ensures(withdraw_tx_circuit::<H>, (&h, t), true),
        t.public.not_fake_tx,
    ensures
        ({
            let v = t.private;
            let s = v.subpool_proof_targets;
            let root = s.subpool_config_root;
            let (a, r, c) = (v.approval_key.0.w, v.rejection_key.0.w, v.subpool_consume_key.0.w);
            &&& s.approval_proof@.len() == 2
            &&& path_root(
                h,
                digest(h, seq![a.c0, a.c1, a.c2, a.c3, a.c4]),
                s.approval_proof@,
            ) == root
            &&& s.rejection_proof@.len() == 2
            &&& path_root(
                h,
                digest(h, seq![r.c0, r.c1, r.c2, r.c3, r.c4]),
                s.rejection_proof@,
            ) == root
            &&& s.consume_proof@.len() == 2
            &&& path_root(
                h,
                digest(h, seq![c.c0, c.c1, c.c2, c.c3, c.c4]),
                s.consume_proof@,
            ) == root
            &&& s.main_pool_proof@.len() == 20
            &&& path_root(
                h,
                digest(h, seq![root.0, root.1, root.2, root.3, v.accin.subpool_id.0]),
                s.main_pool_proof@,
            ) == t.public.mainpool_config_root
        }),
{
    reveal(withdraw_accounts_hold);
    let root = t.private.subpool_proof_targets.subpool_config_root;
    let id = t.private.accin.subpool_id;
    assert((MainPoolConfigLeaf { subpool_root: root, subpool_id: id }).preimage() =~= seq![
        root.0,
        root.1,
        root.2,
        root.3,
        id.0,
    ]);
}

/// The approval of a real withdrawal that is accepted: the selectors on its wires spell
/// the challenge, under the approval key, of the hash of the public nullifier, commitment,
/// assets, amounts and address.
pub proof fn lemma_withdraw_approval<H: Fn(Vec<F>, usize) -> Vec<F>>(
    h: H,
    t: &WithdrawTxTargets,
    tx_hash: HashOutput,
)
    requires
        call_ensures(withdraw_tx_circuit::<H>, (&h, t), true),
        t.public.not_fake_tx,
        call_ensures(
            hash_withdraw_tx::<H>,
            (
                &h,
                t.public.accin_null,
                t.public.accout_comm,
                &t.public.asset_ids,
                &t.public.withdrawal_amts,
                &t.public.w_acc_addr,
            ),
            tx_hash,
        ),
        forall|i: int| 0 <= i < 80 ==> (#[trigger] t.approval_sig.da4x@[i]).canonical(),
    ensures
        spells_challenge(h, t.private.approval_key, tx_hash, t.approval_sig),
{
    lemma_held_challenge(h, tx_hash, t.private.approval_key, t.approval_sig);
}

/// In an accepted private transaction the wires of all three signatures satisfy the
/// gadget, checked or not: their rows run from the offset to the compressed nonce,
/// over the account's spend key, its consume key or that of the subpool, and the
/// approval key.
pub proof fn lemma_private_signatures<H: Fn(Vec<F>, usize) -> Vec<F>>(
    h: H,
    t: &TxCircuitTargets,
    message: HashOutput,
)
    requires
        call_ensures(priv_tx_circuit::<H>, (&h, t), true),
    ensures
        schnorr_holds(h, message, t.private.accin.spend_auth, false, t.sig_targets.spend),
        schnorr_holds(
            h,
            message,
            if t.private.accin.consume_config {
                t.private.accin.consume_pk
            } else {
                t.private.subpool_consume_key
            },
            false,
            t.sig_targets.consume,
        ),
        schnorr_holds(h, message, t.private.approval_key, false, t.sig_targets.approval),
{
}

/// In an accepted deposit the wires of both signatures satisfy the gadget, checked or
/// not, over the account's consume key and the approval key.
pub proof fn lemma_deposit_signatures<H: Fn(Vec<F>, usize) -> Vec<F>>(
    h: H,
    t: &DepositTxTargets,
    message: HashOutput,
)
    requires
        call_ensures(deposit_tx_circuit::<H>, (&h, t), true),
    ensures
        schnorr_holds(h, message, t.private.accin.consume_pk, false, t.sig_targets.consume),
        schnorr_holds(h, message, t.private.approval_key, false, t.sig_targets.approval),
{
}

/// In an accepted withdrawal the wires of the approval satisfy the gadget, checked or
/// not, over the approval key.
pub proof fn lemma_withdraw_signatures<H: Fn(Vec<F>, usize) -> Vec<F>>(
    h: H,
    t: &WithdrawTxTargets,
    message: HashOutput,
)
    requires
        call_ensures(withdraw_tx_circuit::<H>, (&h, t), true),
    ensures
        schnorr_holds(h, message, t.private.approval_key, false, t.approval_sig),
{
}

} // verus!
