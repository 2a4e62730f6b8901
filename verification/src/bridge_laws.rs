//! Deposits and withdrawals that were completed and signed meet all their conditions,
//! and read back as what was built.
use vstd::prelude::*;

use crate::authority_laws::{clear, lemma_wired_holds};
use crate::ast::AssetId;
use crate::built_priv_tx::SubpoolAuthority;
use crate::circuit::subpool_proven;
use crate::deposit_builder::{lemma_built_deposit_satisfied, BuiltRealDepositTx, DepositTxBuilder};
use crate::deposit_tx::{
    deposit_holds, deposit_tx_holds, BuiltDepositTx, DepositTxTargets,
};
use crate::fake_tx::approval_input;
use crate::field::F;
use crate::hash::{digest, HashOutput};
use crate::pool_config::MainPoolConfigTree;
use crate::public_inputs::{DepositTxPublicTargets, WithdrawTxPublicTargets};
use crate::reader_laws::{
    lemma_deposit_reads_back, lemma_withdraw_reads_back, reads_deposit, reads_withdrawal,
};
use crate::schnorr::CompPubKey;
use crate::tree::{MerkleProof, MerkleTree};
use crate::tx_witness::{consume_input, subpool_leaf};
use crate::u256::U256;
use crate::tx_laws::still_registered;
use crate::withdraw_builder::{
    lemma_built_withdraw_satisfied, lemma_withdraw_hash_signed, padded_amounts, padded_assets,
    BuiltWithdrawRealTx, WithdrawRealTxBuilder,
};
use crate::withdraw_slots::{leaves_balances, WithdrawalSlots};
use crate::withdraw_tx::{
    slots_hold, withdraw_accounts_hold, withdraw_tx_holds, BuiltWithdrawTx, WithdrawTxTargets,
};

verus! {

/// A deposit that was signed meets all its conditions, where it meets those on the
/// accounts and the note and its hash is the one that was signed: the approval is
/// there for a real deposit, and the consume signature where the account has a
/// consume key of its own.
pub proof fn lemma_signed_deposit_holds<H: Fn(Vec<F>, usize) -> Vec<F>>(
    h: H,
    tx: BuiltDepositTx,
    t: DepositTxTargets,
)
    requires
        tx.witnessed(h, t),
        deposit_holds(h, t.public, t.private),
        t.public.tx_hash(h) == tx.tx_hash,
        tx.not_fake_tx ==> tx.approval_sig is Some,
        tx.not_fake_tx && tx.accin.consume_auth.config ==> tx.consume_sig is Some,
        clear(h, t.private.accin.consume_pk, tx.tx_hash, consume_input(tx.consume_sig)),
        clear(h, tx.approval_key, tx.tx_hash, approval_input(tx.approval_sig)),
    ensures
        deposit_tx_holds(h, t),
{
    let (u, v) = (t.public, t.private);
    lemma_wired_holds(
        h,
        v.accin.consume_pk,
        tx.tx_hash,
        consume_input(tx.consume_sig),
        v.accin.consume_config && u.not_fake_tx,
        t.sig_targets.consume,
    );
    lemma_wired_holds(
        h,
        tx.approval_key,
        tx.tx_hash,
        approval_input(tx.approval_sig),
        u.not_fake_tx,
        t.sig_targets.approval,
    );
}

/// From the builder to the readers: a deposit that was built, signed, completed and
/// given its wires meets all conditions, and what is read back from its registered
/// public inputs is the root of the state tree, the root of the main pool, a one for
/// a real transaction, the nullifier of the account before, the commitments of the
/// account after and of the note, the address, the amount and the asset.
///
/// The authority proofs verify for the key that approved, and the wires of both
/// signatures can be computed without a vertical line.
pub proof fn lemma_deposit_end_to_end<H: Fn(Vec<F>, usize) -> Vec<F>>(
    h: H,
    b: DepositTxBuilder,
    s: BuiltRealDepositTx,
    tree: MerkleTree,
    authority: SubpoolAuthority,
    tx: BuiltDepositTx,
    t: DepositTxTargets,
    registered: DepositTxPublicTargets<F>,
    root: HashOutput,
    pool_root: HashOutput,
    mark: F,
    nullifier: HashOutput,
    commitment: HashOutput,
    note: HashOutput,
    address: Seq<u8>,
    amount: U256,
    asset: AssetId,
)
    requires
        b.wf(h),
        !b.accin.consume_auth.config ==> b.accin.consume_auth.pk is None,
        b.built(
            h,
            BuiltRealDepositTx { approval_key: None, consume_sig: None, approval_sig: None, ..s },
        ),
        s.approval_sig is Some,
        !s.consume_missing(),
        tree.wf(h),
        tree.spec_depth() == 32,
        s.completed(h, tree, authority, tx),
        tx.valid(),
        subpool_proven(
            h,
            tx.accin.subpool_id,
            tx.approval_key,
            tx.rejection_key,
            tx.consume_key,
            tx.main_pool_root,
            true,
            tx.subpool_proof,
        ),
        tx.witnessed(h, t),
        clear(h, t.private.accin.consume_pk, tx.tx_hash, consume_input(tx.consume_sig)),
        clear(h, tx.approval_key, tx.tx_hash, approval_input(tx.approval_sig)),
        t.public.laid_out(registered),
        reads_deposit(
            registered.flat(),
            root,
            pool_root,
            mark,
            nullifier,
            commitment,
            note,
            address,
            amount,
            asset,
        ),
    ensures
        deposit_tx_holds(h, t),
        root == tree.top(),
        pool_root == authority.proofs.main_pool_proof.root,
        mark == F::of(1),
        nullifier == b.accin.spec_nullifier(h),
        commitment == s.accout.spec_commitment(h),
        note == digest(h, b.deposit_note.preimage()),
        address == b.eth_address@,
        amount == b.deposit_note.amount,
        asset == b.deposit_note.asset_id,
{
    let (i, p) = choose|i: nat, p: MerkleProof|
        s.stands_at(h, tree, i) && #[trigger] tree.has_proof(i, p) && tx.accin_act_path@ == p.path@;
    lemma_built_deposit_satisfied(h, b, s, tree, i, p, tx, t.public, t.private);
    lemma_signed_deposit_holds(h, tx, t);
    lemma_deposit_reads_back(
        h,
        tx,
        t.public,
        t.private,
        registered,
        root,
        pool_root,
        mark,
        nullifier,
        commitment,
        note,
        address,
        amount,
        asset,
    );
}

/// A withdrawal that was approved meets all its conditions, where it meets those on
/// the accounts and the slots.
pub proof fn lemma_signed_withdraw_holds<H: Fn(Vec<F>, usize) -> Vec<F>>(
    h: H,
    tx: BuiltWithdrawTx,
    t: WithdrawTxTargets,
)
    requires
        tx.witnessed(h, t),
        withdraw_accounts_hold(h, t.public, t.private),
        slots_hold(h, t.public, t.private),
        tx.not_fake_tx ==> tx.approval_sig is Some,
        clear(h, tx.approval_key, t.public.tx_hash(h), approval_input(tx.approval_sig)),
    ensures
        withdraw_tx_holds(h, t),
{
    lemma_wired_holds(
        h,
        tx.approval_key,
        t.public.tx_hash(h),
        approval_input(tx.approval_sig),
        t.public.not_fake_tx,
        t.approval_sig,
    );
}

/// From the builder to the readers: a withdrawal that was built, approved, completed
/// and given its wires meets all conditions, and what is read back from its registered
/// public inputs is the root of the state tree, the root of the main pool, a one for a
/// real transaction, the nullifier of the account before, the commitment of the account
/// after, the assets and amounts of the withdrawals, padded with zeros, and the address.
///
/// The subpool is still where it was registered, every withdrawal leaves a balance, and
/// the wires of the approval can be computed without a vertical line.
pub proof fn lemma_withdraw_end_to_end<H: Fn(Vec<F>, usize) -> Vec<F>>(
    h: H,
    b: WithdrawRealTxBuilder,
    s: BuiltWithdrawRealTx,
    tree: MerkleTree,
    pool: MainPoolConfigTree,
    rejection_key: CompPubKey,
    consume_key: CompPubKey,
    tx: BuiltWithdrawTx,
    t: WithdrawTxTargets,
    registered: WithdrawTxPublicTargets<F>,
    root: HashOutput,
    pool_root: HashOutput,
    mark: F,
    nullifier: HashOutput,
    commitment: HashOutput,
    assets: Seq<AssetId>,
    amounts: Seq<U256>,
    address: Seq<u8>,
)
    requires
        b.wf(h),
        !b.accin.consume_auth.config ==> b.accin.consume_auth.pk is None,
        b.built(h, BuiltWithdrawRealTx { approval_key: None, approval_sig: None, ..s }),
        leaves_balances(b.accin.ast@, b.withdrawals@),
        s.approval_sig is Some,
        tree.wf(h),
        tree.spec_depth() == 32,
        pool.wf(h),
        s.completed(h, tree, pool, rejection_key, consume_key, tx),
        still_registered(
            h,
            pool,
            subpool_leaf(h, tx.approval_key, rejection_key, consume_key, b.accin.subpool_id),
        ),
        tx.valid(h),
        tx.witnessed(h, t),
        clear(h, tx.approval_key, s.tx_hash, approval_input(tx.approval_sig)),
        t.public.laid_out(registered),
        reads_withdrawal(
            registered.flat(),
            root,
            pool_root,
            mark,
            nullifier,
            commitment,
            assets,
            amounts,
            address,
        ),
    ensures
        withdraw_tx_holds(h, t),
        root == tree.top(),
        pool_root == pool.top(),
        mark == F::of(1),
        nullifier == b.accin.spec_nullifier(h),
        commitment == s.accout.spec_commitment(h),
        assets == padded_assets(b.withdrawals@),
        amounts == padded_amounts(b.withdrawals@),
        address == b.w_acc_addr@,
{
    let (i, p) = choose|i: nat, p: MerkleProof|
        s.stands_at(h, tree, i) && #[trigger] tree.has_proof(i, p) && tx.accin_act_path@ == p.path@;
    let slots = choose|slots: WithdrawalSlots| #[trigger]
        tx.prepared(h, slots, t.public, t.private);
    let unsigned = BuiltWithdrawRealTx { approval_key: None, approval_sig: None, ..s };
    lemma_built_withdraw_satisfied(h, tx, tree, i, p, pool, slots, t.public, t.private);
    lemma_withdraw_hash_signed(h, b, unsigned, tx, slots, t.public, t.private);
    lemma_signed_withdraw_holds(h, tx, t);
    lemma_withdraw_reads_back(
        t.public,
        b.w_acc_addr@,
        registered,
        root,
        pool_root,
        mark,
        nullifier,
        commitment,
        assets,
        amounts,
        address,
    );
}

} // verus!
