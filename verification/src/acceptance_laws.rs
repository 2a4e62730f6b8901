//! What the checks of transactions must not refuse.
//!
//! Each law lists facts about the wires of a transaction, and says that the check
//! accepts wires of which all these facts hold.
use vstd::prelude::*;

use crate::ast::{ast_root, AssetId};
use crate::circuit::{
    asset_in_ast, is_default_key, subpool_proven, AccountTarget, SubpoolFullProofTargets,
};
use crate::account::{key_elements, SubpoolId};
use crate::deposit_tx::{deposit_holds, deposit_tx_circuit, DepositTxTargets};
use crate::field::F;
use crate::hash::{digest, HashOutput};
use crate::note::{commitment_digests, hash_deposit_tx, hash_withdraw_tx, nullifier_digests};
use crate::params::{DEFAULT_ACC_COMM_CONSUME_PK_PLACEHOLDER, DEFAULT_SPEND_AUTH_PK};
use crate::pool_config::MainPoolConfigLeaf;
use crate::priv_tx::{
    accounts_hold, balanced, effective_commitment, effective_commitments, effective_nullifier,
    effective_nullifiers, notes_hold, priv_tx_circuit, spec_tx_hash, TxCircuitTargets,
};
use crate::schnorr::CompPubKey;
use crate::schnorr_gadget::schnorr_holds;
use crate::soundness_laws::{counted, lemma_counted_sums};
use crate::tree::{path_root, MerkleProofStep};
use crate::u256::{u256_bound, U256};
use crate::withdraw_tx::{
    root_before, slot_holds, slots_hold, withdraw_accounts_hold, withdraw_tx_circuit,
    WithdrawTxTargets,
};

verus! {

/// The account keeps its identifier and its subpool, and its nonce grows by one.
pub open spec fn goes_on(a: AccountTarget, b: AccountTarget) -> bool {
    &&& b.private_identifier == a.private_identifier
    &&& b.subpool_id == a.subpool_id
    &&& b.nonce == F::of(a.nonce@ + 1)
}

/// The account keeps its keys.
pub open spec fn keeps_keys(a: AccountTarget, b: AccountTarget) -> bool {
    &&& b.spend_auth == a.spend_auth
    &&& b.consume_pk == a.consume_pk
    &&& b.consume_config == a.consume_config
}

/// A balance, or the empty leaf with a balance of zero, leads by ten steps to a root.
pub open spec fn holds_balance<H: Fn(Vec<F>, usize) -> Vec<F>>(
    h: H,
    asset: AssetId,
    amount: U256,
    there: bool,
    path: Seq<MerkleProofStep>,
    root: HashOutput,
) -> bool {
    &&& path.len() == 10
    &&& there || amount.value() == 0
    &&& root == path_root(
        h,
        if there {
            digest(h, seq![F::of(1312), asset.0] + amount.limbs())
        } else {
            HashOutput(F::of(0), F::of(0), F::of(0), F::of(0))
        },
        path,
    )
}

/// The three keys lead by two steps to the configuration root of the subpool, and
/// that root with the subpool by twenty steps to the root of the main pool. Where
/// this is not checked, the paths have these lengths.
pub open spec fn has_authority<H: Fn(Vec<F>, usize) -> Vec<F>>(
    h: H,
    id: SubpoolId,
    approval: CompPubKey,
    rejection: CompPubKey,
    consume: CompPubKey,
    pool: HashOutput,
    checked: bool,
    s: SubpoolFullProofTargets,
) -> bool {
    let root = s.subpool_config_root;
    let (a, r, c) = (approval.0.w, rejection.0.w, consume.0.w);
    &&& s.approval_proof@.len() == 2
    &&& s.rejection_proof@.len() == 2
    &&& s.consume_proof@.len() == 2
    &&& s.main_pool_proof@.len() == 20
    &&& checked ==> {
        &&& path_root(h, digest(h, seq![a.c0, a.c1, a.c2, a.c3, a.c4]), s.approval_proof@) == root
        &&& path_root(h, digest(h, seq![r.c0, r.c1, r.c2, r.c3, r.c4]), s.rejection_proof@) == root
        &&& path_root(h, digest(h, seq![c.c0, c.c1, c.c2, c.c3, c.c4]), s.consume_proof@) == root
        &&& path_root(
            h,
            digest(h, seq![root.0, root.1, root.2, root.3, id.0]),
            s.main_pool_proof@,
        ) == pool
    }
}

proof fn lemma_has_authority<H: Fn(Vec<F>, usize) -> Vec<F>>(
    h: H,
    id: SubpoolId,
    approval: CompPubKey,
    rejection: CompPubKey,
    consume: CompPubKey,
    pool: HashOutput,
    checked: bool,
    s: SubpoolFullProofTargets,
)
    requires
        has_authority(h, id, approval, rejection, consume, pool, checked, s),
    ensures
        subpool_proven(h, id, approval, rejection, consume, pool, checked, s),
{
    let root = s.subpool_config_root;
    assert((MainPoolConfigLeaf { subpool_root: root, subpool_id: id }).preimage() =~= seq![
        root.0,
        root.1,
        root.2,
        root.3,
        id.0,
    ]);
}

proof fn lemma_holds_balance<H: Fn(Vec<F>, usize) -> Vec<F>>(
    h: H,
    asset: AssetId,
    amount: U256,
    there: bool,
    path: Seq<MerkleProofStep>,
    root: HashOutput,
)
    requires
        holds_balance(h, asset, amount, there, path, root),
    ensures
        asset_in_ast(h, asset, amount, root, there, path),
{
}

/// A deposit is accepted where its public inputs are those of the accounts and the
/// note, the note is for the account, the account is in the commitment tree, the
/// balance grows by the amount in both state trees, the keys are those of the subpool
/// and the signatures hold.
pub proof fn lemma_deposit_accepted<H: Fn(Vec<F>, usize) -> Vec<F>>(
    h: H,
    t: &DepositTxTargets,
    tx_hash: HashOutput,
    r: bool,
)
    requires
        call_ensures(deposit_tx_circuit::<H>, (&h, t), r),
        t.public.accin_null == t.private.accin.nullifier(h),
        t.public.accout_comm == t.private.accout.commitment(h),
        t.public.note_comm == digest(h, t.private.deposit_note.preimage()),
        t.public.amount == t.private.deposit_note.amount,
        t.public.asset_id == t.private.deposit_note.asset_id,
        t.private.deposit_note.recipient.subpool_id == t.private.accin.subpool_id,
        t.private.deposit_note.recipient.public_id.0 == t.private.accin.public_id(h),
        t.private.accin_act_merkle@.len() == 32,
        t.public.not_fake_tx ==> path_root(
            h,
            t.private.accin.commitment(h),
            t.private.accin_act_merkle@,
        ) == t.public.state_root,
        goes_on(t.private.accin, t.private.accout),
        keeps_keys(t.private.accin, t.private.accout),
        holds_balance(
            h,
            t.public.asset_id,
            t.private.accin_amt,
            t.private.asset_exists_in_accin,
            t.private.accin_ast_merkle@,
            t.private.accin.acc_ast_root,
        ),
        holds_balance(
            h,
            t.public.asset_id,
            t.private.accout_amt,
            t.private.asset_exists_in_accout,
            t.private.accin_ast_merkle@,
            t.private.accout.acc_ast_root,
        ),
        t.private.accout_amt.value() == (t.private.accin_amt.value() + t.public.amount.value())
            % u256_bound(),
        has_authority(
            h,
            t.private.accin.subpool_id,
            t.private.approval_key,
            t.private.rejection_key,
            t.private.subpool_consume_key,
            t.public.mainpool_config_root,
            t.public.not_fake_tx,
            t.private.subpool_proof_targets,
        ),
        call_ensures(
            hash_deposit_tx::<H>,
            (
                &h,
                t.public.accin_null,
                t.public.accout_comm,
                t.public.note_comm,
                &t.public.eth_address,
            ),
            tx_hash,
        ),
        schnorr_holds(
            h,
            tx_hash,
            t.private.accin.consume_pk,
            t.private.accin.consume_config && t.public.not_fake_tx,
            t.sig_targets.consume,
        ),
        schnorr_holds(
            h,
            tx_hash,
            t.private.approval_key,
            t.public.not_fake_tx,
            t.sig_targets.approval,
        ),
    ensures
        r,
{
    let (u, v) = (t.public, t.private);
    lemma_has_authority(
        h,
        v.accin.subpool_id,
        v.approval_key,
        v.rejection_key,
        v.subpool_consume_key,
        u.mainpool_config_root,
        u.not_fake_tx,
        v.subpool_proof_targets,
    );
    lemma_nonce(v.accin, v.accout);
    let path = v.accin_ast_merkle@;
    lemma_holds_balance(
        h,
        u.asset_id,
        v.accin_amt,
        v.asset_exists_in_accin,
        path,
        v.accin.acc_ast_root,
    );
    lemma_holds_balance(
        h,
        u.asset_id,
        v.accout_amt,
        v.asset_exists_in_accout,
        path,
        v.accout.acc_ast_root,
    );
    assert(deposit_holds(h, u, v)) by {
        reveal(deposit_holds);
    }
}

proof fn lemma_nonce(a: AccountTarget, b: AccountTarget)
    requires
        goes_on(a, b),
    ensures
        crate::circuit::identity_kept(a, b),
{
    vstd::arithmetic::div_mod::lemma_add_mod_noop_right(
        a.nonce@,
        1,
        crate::primes::goldilocks(),
    );
}

/// A withdrawal is accepted where its public inputs are those of the accounts, the
/// account is in the commitment tree, each slot takes its amount from one balance and
/// starts where the slot before it ended, the keys are those of the subpool and the
/// approval holds.
pub proof fn lemma_withdraw_accepted<H: Fn(Vec<F>, usize) -> Vec<F>>(
    h: H,
    t: &WithdrawTxTargets,
    tx_hash: HashOutput,
    r: bool,
)
    requires
        call_ensures(withdraw_tx_circuit::<H>, (&h, t), r),
        t.public.accin_null == t.private.accin.nullifier(h),
        t.public.accout_comm == t.private.accout.commitment(h),
        t.private.accin_act_merkle@.len() == 32,
        t.public.not_fake_tx ==> path_root(
            h,
            t.private.accin.commitment(h),
            t.private.accin_act_merkle@,
        ) == t.public.root,
        goes_on(t.private.accin, t.private.accout),
        keeps_keys(t.private.accin, t.private.accout),
        t.private.slots@.len() == 7,
        forall|i: int|
            #![trigger t.private.slots@[i]]
            0 <= i < 7 ==> {
                let s = t.private.slots@[i];
                &&& s.accin_amt.value() == (s.accout_amt.value()
                    + t.public.withdrawal_amts@[i].value()) % u256_bound()
                &&& holds_balance(
                    h,
                    t.public.asset_ids@[i],
                    s.accin_amt,
                    s.asset_exists_in_accin,
                    s.ast_merkle@,
                    if i == 0 {
                        t.private.accin.acc_ast_root
                    } else {
                        t.private.slots@[i - 1].root_after
                    },
                )
                &&& holds_balance(
                    h,
                    t.public.asset_ids@[i],
                    s.accout_amt,
                    s.asset_exists_in_accout,
                    s.ast_merkle@,
                    s.root_after,
                )
            },
        t.private.slots@[6].root_after == t.private.accout.acc_ast_root,
        has_authority(
            h,
            t.private.accin.subpool_id,
            t.private.approval_key,
            t.private.rejection_key,
            t.private.subpool_consume_key,
            t.public.mainpool_config_root,
            t.public.not_fake_tx,
            t.private.subpool_proof_targets,
        ),
        call_ensures(
            hash_withdraw_tx::<H>,
            (
                &h,
                t.public.accin_null,
                t.public.accout_comm,
                &t.public.asset_ids,
                &t.public.withdrawal_amts,
                &t.public.w_acc_addr,
            ),
            tx_hash,
        ),
        schnorr_holds(h, tx_hash, t.private.approval_key, t.public.not_fake_tx, t.approval_sig),
    ensures
        r,
{
    let (u, v) = (t.public, t.private);
    lemma_has_authority(
        h,
        v.accin.subpool_id,
        v.approval_key,
        v.rejection_key,
        v.subpool_consume_key,
        u.mainpool_config_root,
        u.not_fake_tx,
        v.subpool_proof_targets,
    );
    lemma_nonce(v.accin, v.accout);
    assert forall|i: int| 0 <= i < 7 implies #[trigger] slot_holds(h, u, v, i) by {
        let s = v.slots@[i];
        let before = root_before(v, i);
        let path = s.ast_merkle@;
        lemma_holds_balance(
            h,
            u.asset_ids@[i],
            s.accin_amt,
            s.asset_exists_in_accin,
            path,
            before,
        );
        lemma_holds_balance(
            h,
            u.asset_ids@[i],
            s.accout_amt,
            s.asset_exists_in_accout,
            path,
            s.root_after,
        );
    }
    assert(slots_hold(h, u, v)) by {
        reveal(slots_hold);
    }
    assert(withdraw_accounts_hold(h, u, v)) by {
        reveal(withdraw_accounts_hold);
    }
}

/// An input slot of a private transaction: its note is for the account and of the
/// asset; if it is active, the note is in the commitment tree and the public nullifier
/// is that of the note, else the nullifier is that of the seed.
pub open spec fn good_input<H: Fn(Vec<F>, usize) -> Vec<F>>(
    h: H,
    t: TxCircuitTargets,
    k: int,
) -> bool {
    let s = t.private.inotes@[k];
    let acc = t.private.accin;
    let c = s.note.spec_commitment(h);
    let nk = acc.nk(h);
    let d = digest(h, seq![s.dummy.0, s.dummy.1, s.dummy.2, s.dummy.3]);
    &&& s.note.recipient.subpool_id == acc.subpool_id
    &&& s.note.recipient.public_id.0 == acc.public_id(h)
    &&& s.note.asset_id == t.private.asset_id
    &&& s.path@.len() == 32
    &&& s.is_active ==> path_root(h, c, s.path@) == t.public.state_root
    &&& t.public.input_note_nullifiers@[k].0 == (if s.is_active {
        digest(h, seq![c.0, c.1, c.2, c.3, s.position, nk.0, nk.1, nk.2, nk.3])
    } else {
        digest(h, seq![d.0, d.1, d.2, d.3])
    })
}

/// An output slot of a private transaction: its note is of the asset, and the public
/// commitment is that of the note if the slot is active, else that of the seed.
pub open spec fn good_output<H: Fn(Vec<F>, usize) -> Vec<F>>(
    h: H,
    t: TxCircuitTargets,
    k: int,
) -> bool {
    let s = t.private.onotes@[k];
    let d = digest(h, seq![s.dummy.0, s.dummy.1, s.dummy.2, s.dummy.3]);
    &&& s.note.asset_id == t.private.asset_id
    &&& t.public.output_note_commitments@[k].0 == (if s.is_active {
        s.note.spec_commitment(h)
    } else {
        digest(h, seq![d.0, d.1, d.2, d.3])
    })
}

/// The note that goes out in a slot is the one that came in, sent back.
pub open spec fn sends_back(t: TxCircuitTargets, k: int) -> bool {
    let (i, o) = (t.private.inotes@[k], t.private.onotes@[k]);
    &&& o.is_active == i.is_active
    &&& o.note.identifier == i.note.identifier
    &&& o.note.amt == i.note.amt
    &&& o.note.asset_id == i.note.asset_id
    &&& o.note.recipient == i.note.sender
    &&& o.note.sender == i.note.sender
}

/// Whether a note goes out that is none of those sent back.
pub open spec fn sends_out(t: TxCircuitTargets) -> bool {
    exists|k: int|
        0 <= k < 7 && (#[trigger] t.private.onotes@[k]).is_active && !t.private.returned@[k]
}

/// Whether a note comes in that is kept.
pub open spec fn takes_in(t: TxCircuitTargets) -> bool {
    exists|k: int|
        0 <= k < 7 && (#[trigger] t.private.inotes@[k]).is_active && !t.private.returned@[k]
}

/// An account in the state in which it starts.
pub open spec fn at_start<H: Fn(Vec<F>, usize) -> Vec<F>>(h: H, a: AccountTarget) -> bool {
    let (x, y) = (a.spend_auth.0.w, a.consume_pk.0.w);
    &&& a.nonce == F::of(0)
    &&& a.acc_ast_root == ast_root(h, Seq::empty())
    &&& !a.consume_config
    &&& x.c0 == F::of(7613690455422068269)
    &&& x.c1 == F::of(12930951591626745075)
    &&& x.c2 == F::of(16103143792840800039)
    &&& x.c3 == F::of(4657200339622395349)
    &&& x.c4 == F::of(3857357297380158342)
    &&& y == x
}

proof fn lemma_slots<H: Fn(Vec<F>, usize) -> Vec<F>>(h: H, t: TxCircuitTargets)
    requires
        t.private.inotes@.len() == 7,
        t.private.onotes@.len() == 7,
        forall|k: int| 0 <= k < 7 ==> #[trigger] good_input(h, t, k),
        forall|k: int| 0 <= k < 7 ==> #[trigger] good_output(h, t, k),
    ensures
        nullifier_digests(t.public.input_note_nullifiers@) == effective_nullifiers(
            h,
            t.private.inotes@,
            t.private.accin.nk(h),
        ),
        commitment_digests(t.public.output_note_commitments@) == effective_commitments(
            h,
            t.private.onotes@,
        ),
{
    let (u, v) = (t.public, t.private);
    let nk = v.accin.nk(h);
    let x = nullifier_digests(u.input_note_nullifiers@);
    let y = effective_nullifiers(h, v.inotes@, nk);
    assert forall|k: int| 0 <= k < 7 implies x[k] == #[trigger] y[k] by {
        assert(good_input(h, t, k));
        let s = v.inotes@[k];
        assert(y[k] == effective_nullifier(h, s, nk));
        let c = s.note.spec_commitment(h);
        assert(c.elements() + seq![s.position] + nk.elements() =~= seq![
            c.0,
            c.1,
            c.2,
            c.3,
            s.position,
            nk.0,
            nk.1,
            nk.2,
            nk.3,
        ]);
    }
    assert(x =~= y);
    let p = commitment_digests(u.output_note_commitments@);
    let q = effective_commitments(h, v.onotes@);
    assert forall|k: int| 0 <= k < 7 implies p[k] == #[trigger] q[k] by {
        assert(good_output(h, t, k));
        assert(q[k] == effective_commitment(h, v.onotes@[k]));
    }
    assert(p =~= q);
}

proof fn lemma_accounts_hold<H: Fn(Vec<F>, usize) -> Vec<F>>(h: H, t: TxCircuitTargets)
    requires
        t.public.not_fake_tx ==> t.public.accin_nullifier == t.private.accin.nullifier(h),
        t.public.not_fake_tx ==> t.public.accout_commitment == t.private.accout.commitment(h),
        t.private.accin_act_merkle@.len() == 32,
        t.public.not_fake_tx && !t.private.flags.is_fresh_acc ==> path_root(
            h,
            t.private.accin.commitment(h),
            t.private.accin_act_merkle@,
        ) == t.public.state_root,
        t.private.flags.is_fresh_acc ==> at_start(h, t.private.accin),
        goes_on(t.private.accin, t.private.accout),
        if t.private.flags.is_priv_tx {
            keeps_keys(t.private.accin, t.private.accout)
        } else {
            t.private.accout.acc_ast_root == t.private.accin.acc_ast_root
        },
        holds_balance(
            h,
            t.private.asset_id,
            t.private.accin_amt,
            t.private.asset_exists_in_accin,
            t.private.accin_ast_merkle@,
            t.private.accin.acc_ast_root,
        ),
        holds_balance(
            h,
            t.private.asset_id,
            t.private.accout_amt,
            t.private.asset_exists_in_accout,
            t.private.accin_ast_merkle@,
            t.private.accout.acc_ast_root,
        ),
    ensures
        accounts_hold(h, t.public, t.private),
{
    let v = t.private;
    lemma_nonce(v.accin, v.accout);
    if v.flags.is_fresh_acc {
        assert(v.accin.spend_auth.elements() =~= key_elements(DEFAULT_SPEND_AUTH_PK));
        assert(v.accin.consume_pk.elements() =~= key_elements(
            DEFAULT_ACC_COMM_CONSUME_PK_PLACEHOLDER,
        ));
        assert(is_default_key(v.accin.spend_auth, DEFAULT_SPEND_AUTH_PK));
    }
    let path = v.accin_ast_merkle@;
    lemma_holds_balance(
        h,
        v.asset_id,
        v.accin_amt,
        v.asset_exists_in_accin,
        path,
        v.accin.acc_ast_root,
    );
    lemma_holds_balance(
        h,
        v.asset_id,
        v.accout_amt,
        v.asset_exists_in_accout,
        path,
        v.accout.acc_ast_root,
    );
    reveal(accounts_hold);
}

proof fn lemma_notes_hold<H: Fn(Vec<F>, usize) -> Vec<F>>(h: H, t: TxCircuitTargets)
    requires
        t.private.inotes@.len() == 7,
        t.private.onotes@.len() == 7,
        forall|k: int| 0 <= k < 7 ==> #[trigger] good_input(h, t, k),
        forall|k: int| 0 <= k < 7 ==> #[trigger] good_output(h, t, k),
        forall|k: int|
            0 <= k < 7 && (t.private.flags.is_rjct || t.private.returned@[k])
                ==> #[trigger] sends_back(t, k),
        evens_out(t),
    ensures
        notes_hold(h, t.public, t.private),
{
    let (u, v) = (t.public, t.private);
    lemma_slots(h, t);
    lemma_evens_out(t);
    assert forall|k: int| 0 <= k < 7 implies crate::priv_tx::inote_valid(
        h,
        #[trigger] v.inotes@[k],
        crate::priv_tx::owner_of(h, v.accin),
        u.state_root,
    ) && v.inotes@[k].note.asset_id == v.asset_id by {
        assert(good_input(h, t, k));
    }
    assert forall|k: int| 0 <= k < 7 implies (#[trigger] v.onotes@[k]).note.asset_id
        == v.asset_id by {
        assert(good_output(h, t, k));
    }
    assert forall|k: int|
        0 <= k < 7 && (v.flags.is_rjct || v.returned@[k]) implies crate::priv_tx::mirrors(
        #[trigger] v.inotes@[k],
        v.onotes@[k],
    ) by {
        assert(sends_back(t, k));
    }
    reveal(notes_hold);
}

/// The balance before and the inputs are together the balance after and the outputs,
/// modulo the range of an amount.
pub open spec fn evens_out(t: TxCircuitTargets) -> bool {
    let i = |k: int|
        counted(t.private.inotes@[k].is_active, t.private.inotes@[k].note.amt.value());
    let o = |k: int|
        counted(t.private.onotes@[k].is_active, t.private.onotes@[k].note.amt.value());
    (t.private.accin_amt.value() + (i(0) + i(1) + i(2) + i(3) + i(4) + i(5) + i(6)))
        % u256_bound() == (t.private.accout_amt.value() + (o(0) + o(1) + o(2) + o(3) + o(4) + o(5)
        + o(6))) % u256_bound()
}

proof fn lemma_evens_out(t: TxCircuitTargets)
    requires
        t.private.inotes@.len() == 7,
        t.private.onotes@.len() == 7,
        evens_out(t),
    ensures
        balanced(
            t.private.accin_amt,
            t.private.accout_amt,
            t.private.inotes@,
            t.private.onotes@,
        ),
{
    lemma_counted_sums(t.private.inotes@, t.private.onotes@);
}

/// A private transaction is accepted where its public inputs are those of the accounts
/// and the slots, the account is in the commitment tree or at its start, the balance
/// before and the inputs are together the balance after and the outputs, notes that are
/// sent back go to their senders, the keys are those of the subpool and the signatures
/// hold that are called for.
pub proof fn lemma_private_accepted<H: Fn(Vec<F>, usize) -> Vec<F>>(
    h: H,
    t: &TxCircuitTargets,
    r: bool,
)
    requires
        call_ensures(priv_tx_circuit::<H>, (&h, t), r),
        t.private.flags.not_fake_tx == t.public.not_fake_tx,
        t.public.not_fake_tx ==> t.public.accin_nullifier == t.private.accin.nullifier(h),
        t.public.not_fake_tx ==> t.public.accout_commitment == t.private.accout.commitment(h),
        t.private.accin_act_merkle@.len() == 32,
        t.public.not_fake_tx && !t.private.flags.is_fresh_acc ==> path_root(
            h,
            t.private.accin.commitment(h),
            t.private.accin_act_merkle@,
        ) == t.public.state_root,
        t.private.flags.is_fresh_acc ==> at_start(h, t.private.accin),
        goes_on(t.private.accin, t.private.accout),
        if t.private.flags.is_priv_tx {
            keeps_keys(t.private.accin, t.private.accout)
        } else {
            t.private.accout.acc_ast_root == t.private.accin.acc_ast_root
        },
        holds_balance(
            h,
            t.private.asset_id,
            t.private.accin_amt,
            t.private.asset_exists_in_accin,
            t.private.accin_ast_merkle@,
            t.private.accin.acc_ast_root,
        ),
        holds_balance(
            h,
            t.private.asset_id,
            t.private.accout_amt,
            t.private.asset_exists_in_accout,
            t.private.accin_ast_merkle@,
            t.private.accout.acc_ast_root,
        ),
        t.private.inotes@.len() == 7,
        t.private.onotes@.len() == 7,
        forall|k: int| 0 <= k < 7 ==> #[trigger] good_input(h, *t, k),
        forall|k: int| 0 <= k < 7 ==> #[trigger] good_output(h, *t, k),
        forall|k: int|
            0 <= k < 7 && (t.private.flags.is_rjct || t.private.returned@[k])
                ==> #[trigger] sends_back(*t, k),
        evens_out(*t),
        has_authority(
            h,
            t.private.accin.subpool_id,
            t.private.approval_key,
            t.private.rejection_key,
            t.private.subpool_consume_key,
            t.public.mainpool_config_root,
            t.public.not_fake_tx,
            t.private.subpool_proof_targets,
        ),
        schnorr_holds(
            h,
            spec_tx_hash(h, t.public),
            t.private.accin.spend_auth,
            sends_out(*t) && !t.private.flags.is_rjct,
            t.sig_targets.spend,
        ),
        schnorr_holds(
            h,
            spec_tx_hash(h, t.public),
            if t.private.accin.consume_config {
                t.private.accin.consume_pk
            } else {
                t.private.subpool_consume_key
            },
            if t.private.flags.is_rjct {
                exists|k: int| 0 <= k < 7 && (#[trigger] t.private.inotes@[k]).is_active
            } else {
                t.private.accin.consume_config && takes_in(*t) && !sends_out(*t)
            },
            t.sig_targets.consume,
        ),
        schnorr_holds(
            h,
            spec_tx_hash(h, t.public),
            t.private.approval_key,
            t.public.not_fake_tx,
            t.sig_targets.approval,
        ),
    ensures
        r,
{
    let (u, v) = (t.public, t.private);
    lemma_has_authority(
        h,
        v.accin.subpool_id,
        v.approval_key,
        v.rejection_key,
        v.subpool_consume_key,
        u.mainpool_config_root,
        u.not_fake_tx,
        v.subpool_proof_targets,
    );
    lemma_accounts_hold(h, *t);
    lemma_notes_hold(h, *t);
}

} // verus!
