//! What the readers of public inputs give back of what was registered.
use vstd::prelude::*;

use crate::ast::AssetId;
use crate::circuit::flag;
use crate::deposit_tx::{BuiltDepositTx, DepositTxPrivateTargets, DepositTxPublicInputs};
use crate::field::F;
use crate::hash::{digest, HashOutput};
use crate::note::h160_elements;
use crate::params::NOTE_BATCH;
use crate::priv_tx::PrivTxPublicInputs;
use crate::public_inputs::{
    blocks, lemma_address_roundtrip, lemma_amount_roundtrip, spells_address, spells_amount,
    DepositTxPublicTargets, TxCircuitPublicTargets, WithdrawTxPublicTargets,
};
use crate::u256::U256;
use crate::withdraw_tx::WithdrawTxPublicInputs;

verus! {

/// Digests with the same elements are the same.
proof fn lemma_same_digest(x: HashOutput, y: HashOutput, a: Seq<F>, b: Seq<F>)
    requires
        x.elements() == a,
        y.elements() == b,
        a =~= b,
    ensures
        x == y,
{
    assert(a[0] == b[0] && a[1] == b[1] && a[2] == b[2] && a[3] == b[3]);
}

/// What the readers of public inputs give back of a list, for a private transaction.
pub open spec fn reads_private(
    pis: Seq<F>,
    root: HashOutput,
    pool_root: HashOutput,
    mark: F,
    nullifier: HashOutput,
    commitment: HashOutput,
    nullifiers: Seq<HashOutput>,
    commitments: Seq<HashOutput>,
) -> bool {
    &&& root.elements() == pis.subrange(0, 4)
    &&& pool_root.elements() == pis.subrange(4, 8)
    &&& mark == pis[8]
    &&& nullifier.elements() == pis.subrange(9, 13)
    &&& commitment.elements() == pis.subrange(13, 17)
    &&& nullifiers.len() == NOTE_BATCH
    &&& forall|i: int|
        0 <= i < NOTE_BATCH ==> (#[trigger] nullifiers[i]).elements() == pis.subrange(
            17 + 4 * i,
            17 + 4 * i + 4,
        )
    &&& commitments.len() == NOTE_BATCH
    &&& forall|i: int|
        0 <= i < NOTE_BATCH ==> (#[trigger] commitments[i]).elements() == pis.subrange(
            45 + 4 * i,
            45 + 4 * i + 4,
        )
}

/// A block of four of seven.
proof fn lemma_block_of_four(s: [[F; 4]; NOTE_BATCH], i: int)
    requires
        0 <= i < NOTE_BATCH,
    ensures
        blocks(s).subrange(4 * i, 4 * i + 4) == s@[i]@,
{
    let all = blocks(s);
    if i == 0 {
        assert(all.subrange(0, 4) =~= s@[0]@);
    } else if i == 1 {
        assert(all.subrange(4, 8) =~= s@[1]@);
    } else if i == 2 {
        assert(all.subrange(8, 12) =~= s@[2]@);
    } else if i == 3 {
        assert(all.subrange(12, 16) =~= s@[3]@);
    } else if i == 4 {
        assert(all.subrange(16, 20) =~= s@[4]@);
    } else if i == 5 {
        assert(all.subrange(20, 24) =~= s@[5]@);
    } else {
        assert(all.subrange(24, 28) =~= s@[6]@);
    }
}

/// What the readers of public inputs give back of the registered list of a private
/// transaction is what was registered: its roots, the mark of a real transaction, the
/// nullifier of the account before, the commitment of the account after, and the
/// nullifiers and commitments of all notes.
pub proof fn lemma_private_reads_back(
    u: PrivTxPublicInputs,
    t: TxCircuitPublicTargets<F>,
    root: HashOutput,
    pool_root: HashOutput,
    mark: F,
    nullifier: HashOutput,
    commitment: HashOutput,
    nullifiers: Seq<HashOutput>,
    commitments: Seq<HashOutput>,
)
    requires
        u.laid_out(t),
        reads_private(
            t.flat(),
            root,
            pool_root,
            mark,
            nullifier,
            commitment,
            nullifiers,
            commitments,
        ),
    ensures
        root == u.state_root,
        pool_root == u.mainpool_config_root,
        mark == flag(u.not_fake_tx),
        nullifier == u.accin_nullifier,
        commitment == u.accout_commitment,
        forall|i: int|
            0 <= i < NOTE_BATCH ==> #[trigger] nullifiers[i] == u.input_note_nullifiers@[i].0,
        forall|i: int|
            0 <= i < NOTE_BATCH ==> #[trigger] commitments[i] == u.output_note_commitments@[i].0,
{
    let f = t.flat();
    lemma_same_digest(root, u.state_root, f.subrange(0, 4), t.state_root@);
    lemma_same_digest(pool_root, u.mainpool_config_root, f.subrange(4, 8), t.mainpool_config_root@);
    lemma_same_digest(nullifier, u.accin_nullifier, f.subrange(9, 13), t.accin_null@);
    lemma_same_digest(commitment, u.accout_commitment, f.subrange(13, 17), t.accout_comm@);
    let (x, y) = (blocks(t.inotes_null), blocks(t.onotes_comm));
    assert(f.subrange(17, 45) =~= x);
    assert(f.subrange(45, 73) =~= y);
    assert forall|i: int| 0 <= i < NOTE_BATCH implies #[trigger] nullifiers[i]
        == u.input_note_nullifiers@[i].0 by {
        lemma_block_of_four(t.inotes_null, i);
        assert(f.subrange(17 + 4 * i, 17 + 4 * i + 4) =~= x.subrange(4 * i, 4 * i + 4));
        assert(t.inotes_null@[i]@ == u.input_note_nullifiers@[i].0.elements());
        lemma_same_digest(
            nullifiers[i],
            u.input_note_nullifiers@[i].0,
            f.subrange(17 + 4 * i, 17 + 4 * i + 4),
            t.inotes_null@[i]@,
        );
    }
    assert forall|i: int| 0 <= i < NOTE_BATCH implies #[trigger] commitments[i]
        == u.output_note_commitments@[i].0 by {
        lemma_block_of_four(t.onotes_comm, i);
        assert(f.subrange(45 + 4 * i, 45 + 4 * i + 4) =~= y.subrange(4 * i, 4 * i + 4));
        assert(t.onotes_comm@[i]@ == u.output_note_commitments@[i].0.elements());
        lemma_same_digest(
            commitments[i],
            u.output_note_commitments@[i].0,
            f.subrange(45 + 4 * i, 45 + 4 * i + 4),
            t.onotes_comm@[i]@,
        );
    }
}

/// What the readers of public inputs give back of a list, for a deposit.
pub open spec fn reads_deposit(
    pis: Seq<F>,
    root: HashOutput,
    pool_root: HashOutput,
    mark: F,
    nullifier: HashOutput,
    commitment: HashOutput,
    note: HashOutput,
    address: Seq<u8>,
    amount: U256,
    asset: AssetId,
) -> bool {
    &&& root.elements() == pis.subrange(0, 4)
    &&& pool_root.elements() == pis.subrange(4, 8)
    &&& mark == pis[8]
    &&& nullifier.elements() == pis.subrange(9, 13)
    &&& commitment.elements() == pis.subrange(13, 17)
    &&& note.elements() == pis.subrange(17, 21)
    &&& spells_address(pis.subrange(21, 26), address)
    &&& spells_amount(pis.subrange(26, 34), amount)
    &&& asset.0 == pis[34]
}

/// What the readers of public inputs give back of a deposit's registered list: its
/// roots, the nullifier of the account before, the commitments of the account after
/// and of the note, the address, the amount and the asset.
pub proof fn lemma_deposit_reads_back<H: Fn(Vec<F>, usize) -> Vec<F>>(
    h: H,
    tx: BuiltDepositTx,
    u: DepositTxPublicInputs,
    v: DepositTxPrivateTargets,
    t: DepositTxPublicTargets<F>,
    root: HashOutput,
    pool_root: HashOutput,
    mark: F,
    nullifier: HashOutput,
    commitment: HashOutput,
    note: HashOutput,
    address: Seq<u8>,
    amount: U256,
    asset: AssetId,
)
    requires
        tx.prepared(h, u, v),
        u.laid_out(t),
        reads_deposit(
            t.flat(),
            root,
            pool_root,
            mark,
            nullifier,
            commitment,
            note,
            address,
            amount,
            asset,
        ),
    ensures
        root == tx.state_root,
        pool_root == tx.main_pool_root,
        mark == flag(tx.not_fake_tx),
        nullifier == tx.accin.spec_nullifier(h),
        commitment == tx.accout.spec_commitment(h),
        note == digest(h, tx.deposit_note.preimage()),
        address == tx.eth_address@,
        amount == tx.deposit_note.amount,
        asset == tx.deposit_note.asset_id,
{
    let f = t.flat();
    lemma_same_digest(root, tx.state_root, f.subrange(0, 4), t.state_root@);
    lemma_same_digest(pool_root, tx.main_pool_root, f.subrange(4, 8), t.mainpool_config_root@);
    lemma_same_digest(nullifier, u.accin_null, f.subrange(9, 13), t.accin_null@);
    lemma_same_digest(commitment, u.accout_comm, f.subrange(13, 17), t.accout_comm@);
    lemma_same_digest(note, u.note_comm, f.subrange(17, 21), t.note_comm@);
    assert(f.subrange(21, 26) =~= t.eth_address@);
    lemma_address_roundtrip(tx.eth_address@, address);
    assert(f.subrange(26, 34) =~= t.amount@);
    lemma_amount_roundtrip(tx.deposit_note.amount, amount);
}

/// What the readers of public inputs give back of a list, for a withdrawal.
pub open spec fn reads_withdrawal(
    pis: Seq<F>,
    root: HashOutput,
    pool_root: HashOutput,
    mark: F,
    nullifier: HashOutput,
    commitment: HashOutput,
    assets: Seq<AssetId>,
    amounts: Seq<U256>,
    address: Seq<u8>,
) -> bool {
    &&& root.elements() == pis.subrange(0, 4)
    &&& pool_root.elements() == pis.subrange(4, 8)
    &&& mark == pis[8]
    &&& nullifier.elements() == pis.subrange(9, 13)
    &&& commitment.elements() == pis.subrange(13, 17)
    &&& assets.len() == NOTE_BATCH
    &&& forall|i: int| 0 <= i < NOTE_BATCH ==> (#[trigger] assets[i]).0 == pis[17 + i]
    &&& amounts.len() == NOTE_BATCH
    &&& forall|i: int|
        0 <= i < NOTE_BATCH ==> spells_amount(
            pis.subrange(24 + 8 * i, 24 + 8 * i + 8),
            #[trigger] amounts[i],
        )
    &&& spells_address(pis.subrange(80, 85), address)
}

/// The block of an amount in the registered list of a withdrawal.
proof fn lemma_amount_block(t: WithdrawTxPublicTargets<F>, i: int)
    requires
        0 <= i < NOTE_BATCH,
    ensures
        t.flat().subrange(24 + 8 * i, 24 + 8 * i + 8) == t.withdrawal_amts@[i]@,
        t.flat()[17 + i] == t.asset_ids@[i],
{
    let f = t.flat();
    let all = blocks(t.withdrawal_amts);
    assert(f.subrange(24, 80) =~= all);
    assert(f.subrange(24 + 8 * i, 24 + 8 * i + 8) =~= all.subrange(8 * i, 8 * i + 8));
    let a = t.withdrawal_amts@;
    if i == 0 {
        assert(all.subrange(0, 8) =~= a[0]@);
    } else if i == 1 {
        assert(all.subrange(8, 16) =~= a[1]@);
    } else if i == 2 {
        assert(all.subrange(16, 24) =~= a[2]@);
    } else if i == 3 {
        assert(all.subrange(24, 32) =~= a[3]@);
    } else if i == 4 {
        assert(all.subrange(32, 40) =~= a[4]@);
    } else if i == 5 {
        assert(all.subrange(40, 48) =~= a[5]@);
    } else {
        assert(all.subrange(48, 56) =~= a[6]@);
    }
}

/// What the readers of public inputs give back of a withdrawal's registered list is
/// what was registered.
pub proof fn lemma_withdraw_reads_back(
    u: WithdrawTxPublicInputs,
    destination: Seq<u8>,
    t: WithdrawTxPublicTargets<F>,
    root: HashOutput,
    pool_root: HashOutput,
    mark: F,
    nullifier: HashOutput,
    commitment: HashOutput,
    assets: Seq<AssetId>,
    amounts: Seq<U256>,
    address: Seq<u8>,
)
    requires
        destination.len() == 20,
        u.w_acc_addr@ == h160_elements(destination),
        u.laid_out(t),
        reads_withdrawal(
            t.flat(),
            root,
            pool_root,
            mark,
            nullifier,
            commitment,
            assets,
            amounts,
            address,
        ),
    ensures
        root == u.root,
        pool_root == u.mainpool_config_root,
        mark == flag(u.not_fake_tx),
        nullifier == u.accin_null,
        commitment == u.accout_comm,
        assets == u.asset_ids@,
        amounts == u.withdrawal_amts@,
        address == destination,
{
    let f = t.flat();
    lemma_same_digest(root, u.root, f.subrange(0, 4), t.root@);
    lemma_same_digest(pool_root, u.mainpool_config_root, f.subrange(4, 8), t.mainpool_config_root@);
    lemma_same_digest(nullifier, u.accin_null, f.subrange(9, 13), t.accin_null@);
    lemma_same_digest(commitment, u.accout_comm, f.subrange(13, 17), t.accout_comm@);
    assert(f.subrange(80, 85) =~= t.w_acc_addr@);
    lemma_address_roundtrip(destination, address);
    assert forall|i: int| 0 <= i < NOTE_BATCH implies assets[i] == u.asset_ids@[i] && amounts[i]
        == u.withdrawal_amts@[i] by {
        lemma_amount_block(t, i);
        assert(t.asset_ids@[i] == u.asset_ids@[i].0);
        assert(t.withdrawal_amts@[i]@ == u.withdrawal_amts@[i].limbs());
        assert(assets[i].0 == f[17 + i]);
        lemma_amount_roundtrip(u.withdrawal_amts@[i], amounts[i]);
    }
    assert(assets =~= u.asset_ids@);
    assert(amounts =~= u.withdrawal_amts@);
}

} // verus!
