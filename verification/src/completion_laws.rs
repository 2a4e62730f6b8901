//! What a built transaction is hashed over, and what it takes to complete it.
use vstd::prelude::*;

use crate::account::{AccountCommitment, AccountNullifier, NullifierKey, StandardAccount};
use crate::ast::AssetId;
use crate::built_priv_tx::{BuiltPrivTx, PlacedNote, SubpoolAuthority};
use crate::deposit_builder::{
    BuiltFakeDepositTx, BuiltRealDepositTx, DepositTxBuilder,
};
use crate::deposit_tx::BuiltDepositTx;
use crate::errors::{
    DepositTxBuilderError, FreshAccTxBuilderError, SpendTxBuilderError, WithdrawTxBuilderError,
};
use crate::fake_builder::BuiltFakeTx;
use crate::field::F;
use crate::freshacc_builder::BuiltFreshAccTx;
use crate::hash::{digest, HashOutput};
use crate::note::{
    commitment_digests, derive_deposit_tx_hash, derive_priv_tx_hash, derive_withdraw_tx_hash,
    double_digest, note_nullifier_preimage, nullifier_digests, DepositNote, DepositNoteCommitment,
    NoteCommitment, NoteNullifier, StandardNote,
};
use crate::params::NOTE_BATCH;
use crate::pool_config::{MainPoolConfigLeaf, MainPoolConfigTree, SubpoolConfigTree};
use crate::schnorr::CompPubKey;
use crate::spend_builder::{BuiltSpendTx, SpendTxBuilder};
use crate::tree::{path_root, MerkleProof, MerkleTree};
use crate::u256::U256;
use crate::withdraw_builder::{
    padded_amounts, padded_assets, BuiltFakeWithdrawTx, BuiltWithdrawRealTx, WithdrawRealTxBuilder,
};
use crate::withdraw_tx::BuiltWithdrawTx;

verus! {

/// A deposit is hashed over the nullifier of the account before, the commitment of
/// the account after, the commitment of the note and the address.
pub proof fn lemma_deposit_hashes<H: Fn(Vec<F>, usize) -> Vec<F>>(
    h: H,
    b: DepositTxBuilder,
    t: BuiltRealDepositTx,
    nullifier: AccountNullifier,
    commitment: AccountCommitment,
    note: DepositNoteCommitment,
    hash: HashOutput,
)
    requires
        call_ensures(DepositTxBuilder::build::<H>, (b, &h), t),
        call_ensures(StandardAccount::nullifier::<H>, (&b.accin, &h), nullifier),
        call_ensures(StandardAccount::commitment::<H>, (&t.accout, &h), commitment),
        call_ensures(DepositNote::commitment::<H>, (&b.deposit_note, &h), note),
        call_ensures(
            derive_deposit_tx_hash::<H>,
            (&h, nullifier, commitment, note, &b.eth_address),
            hash,
        ),
    ensures
        t.tx_hash == hash,
{
}

/// A withdrawal is hashed over the nullifier of the account before, the commitment of
/// the account after, the withdrawals in their order, padded with zeros to seven, and
/// the address.
pub proof fn lemma_withdraw_hashes<H: Fn(Vec<F>, usize) -> Vec<F>>(
    h: H,
    b: WithdrawRealTxBuilder,
    t: BuiltWithdrawRealTx,
    nullifier: AccountNullifier,
    commitment: AccountCommitment,
    assets: [AssetId; NOTE_BATCH],
    amounts: [U256; NOTE_BATCH],
    hash: HashOutput,
)
    requires
        call_ensures(
            WithdrawRealTxBuilder::build::<H>,
            (b, &h),
            Ok::<BuiltWithdrawRealTx, WithdrawTxBuilderError>(t),
        ),
        call_ensures(StandardAccount::nullifier::<H>, (&b.accin, &h), nullifier),
        call_ensures(StandardAccount::commitment::<H>, (&t.accout, &h), commitment),
        forall|i: int|
            0 <= i < 7 ==> #[trigger] assets@[i] == (if i < b.withdrawals@.len() {
                b.withdrawals@[i].0
            } else {
                AssetId(F::of(0))
            }),
        forall|i: int|
            0 <= i < 7 ==> #[trigger] amounts@[i] == (if i < b.withdrawals@.len() {
                b.withdrawals@[i].1
            } else {
                U256(0, 0, 0, 0)
            }),
        call_ensures(
            derive_withdraw_tx_hash::<H>,
            (&h, nullifier, commitment, &assets, &amounts, &b.w_acc_addr),
            hash,
        ),
    ensures
        t.tx_hash == hash,
{
    assert(assets@ =~= padded_assets(b.withdrawals@));
    assert(amounts@ =~= padded_amounts(b.withdrawals@));
}

/// The nullifier of a note at a position under a nullifier key: the digest of the
/// three.
pub open spec fn spent<H: Fn(Vec<F>, usize) -> Vec<F>>(
    h: H,
    n: PlacedNote,
    nk: HashOutput,
) -> HashOutput {
    let c = n.note.spec_commitment(h);
    digest(
        h,
        seq![c.0, c.1, c.2, c.3, F::of(n.position as int), nk.0, nk.1, nk.2, nk.3],
    )
}

/// What stands in a slot that no note takes: the digest of the digest of a seed.
pub open spec fn padding<H: Fn(Vec<F>, usize) -> Vec<F>>(h: H, seed: HashOutput) -> HashOutput {
    let d = digest(h, seq![seed.0, seed.1, seed.2, seed.3]);
    digest(h, seq![d.0, d.1, d.2, d.3])
}

pub(crate) proof fn lemma_spent<H: Fn(Vec<F>, usize) -> Vec<F>>(h: H, n: PlacedNote, nk: HashOutput)
    ensures
        crate::built_priv_tx::placed_nullifier(h, n, nk) == spent(h, n, nk),
{
    let c = n.note.spec_commitment(h);
    assert(note_nullifier_preimage(c, F::of(n.position as int), nk) =~= seq![
        c.0,
        c.1,
        c.2,
        c.3,
        F::of(n.position as int),
        nk.0,
        nk.1,
        nk.2,
        nk.3,
    ]);
}

pub(crate) proof fn lemma_padding<H: Fn(Vec<F>, usize) -> Vec<F>>(h: H, seed: HashOutput)
    ensures
        double_digest(h, seed) == padding(h, seed),
{
    let d = digest(h, seq![seed.0, seed.1, seed.2, seed.3]);
    assert(seed.elements() =~= seq![seed.0, seed.1, seed.2, seed.3]);
    assert(d.elements() =~= seq![d.0, d.1, d.2, d.3]);
}

/// A spend transaction is hashed over the nullifier of the account before, the
/// commitment of the account after, seven nullifiers and seven commitments. The
/// rejected notes come first on both sides, with their sender for recipient on the
/// way out; then the input notes, or the output notes; then the seeds.
pub proof fn lemma_spend_hashes<H: Fn(Vec<F>, usize) -> Vec<F>>(
    h: H,
    b: SpendTxBuilder,
    t: BuiltSpendTx,
    nk: NullifierKey,
    nullifier: AccountNullifier,
    commitment: AccountCommitment,
    n: [NoteNullifier; NOTE_BATCH],
    c: [NoteCommitment; NOTE_BATCH],
    hash: HashOutput,
)
    requires
        call_ensures(
            SpendTxBuilder::build::<H>,
            (b, &h),
            Ok::<BuiltSpendTx, SpendTxBuilderError>(t),
        ),
        call_ensures(StandardAccount::nk::<H>, (&b.accin, &h), nk),
        call_ensures(StandardAccount::nullifier::<H>, (&b.accin, &h), nullifier),
        call_ensures(StandardAccount::commitment::<H>, (&t.accout, &h), commitment),
        forall|i: int|
            0 <= i < 7 ==> (#[trigger] n@[i]).0 == ({
                let j = i - b.rejected_notes@.len();
                if j < 0 {
                    spent(h, b.rejected_notes@[i], nk.0)
                } else if j < b.input_notes@.len() {
                    spent(h, b.input_notes@[j], nk.0)
                } else {
                    padding(h, (b.dinotes->0)@[j - b.input_notes@.len()])
                }
            }),
        forall|i: int|
            0 <= i < 7 ==> (#[trigger] c@[i]).0 == ({
                let j = i - b.rejected_notes@.len();
                if j < 0 {
                    let back = b.rejected_notes@[i].note;
                    (StandardNote { recipient: back.sender, ..back }).spec_commitment(h)
                } else if j < b.output_notes@.len() {
                    b.output_notes@[j].spec_commitment(h)
                } else {
                    padding(h, (b.donotes->0)@[j - b.output_notes@.len()])
                }
            }),
        call_ensures(derive_priv_tx_hash::<H>, (&h, nullifier, commitment, &n, &c), hash),
    ensures
        t.tx_hash == hash,
{
    let rejected = crate::spend_builder::notes_of(b.rejected_notes@);
    let a = crate::built_priv_tx::slot_nullifiers(
        h,
        b.rejected_notes@,
        b.input_notes@,
        t.dinotes@,
        nk.0,
    );
    let d = crate::built_priv_tx::slot_commitments(h, rejected, b.output_notes@, t.donotes@);
    assert forall|i: int| 0 <= i < 7 implies nullifier_digests(n@)[i] == #[trigger] a[i] by {
        let j = i - b.rejected_notes@.len();
        if j < 0 {
            lemma_spent(h, b.rejected_notes@[i], nk.0);
        } else if j < b.input_notes@.len() {
            lemma_spent(h, b.input_notes@[j], nk.0);
        } else {
            lemma_padding(h, t.dinotes@[j - b.input_notes@.len()]);
        }
        assert(n@[i].0 == a[i]);
    }
    assert(nullifier_digests(n@) =~= a);
    assert forall|i: int| 0 <= i < 7 implies commitment_digests(c@)[i] == #[trigger] d[i] by {
        let j = i - b.rejected_notes@.len();
        if j < 0 {
            assert(rejected[i] == b.rejected_notes@[i].note);
        } else if j >= b.output_notes@.len() {
            lemma_padding(h, t.donotes@[j - b.output_notes@.len()]);
        }
        assert(c@[i].0 == d[i]);
    }
    assert(commitment_digests(c@) =~= d);
}

/// A deposit can be completed exactly where it is approved, has the consume signature
/// if the account consumes under a key of its own, and the account's commitment is a
/// leaf of the state tree. What comes out is marked as genuine, names the root of the
/// tree, and holds a path from the commitment to that root.
pub proof fn lemma_deposit_completes<H: Fn(Vec<F>, usize) -> Vec<F>>(
    h: H,
    b: BuiltRealDepositTx,
    tree: &MerkleTree,
    authority: SubpoolAuthority,
    commitment: AccountCommitment,
    r: Result<BuiltDepositTx, DepositTxBuilderError>,
)
    requires
        tree.wf(h),
        tree.spec_depth() == 32,
        call_ensures(StandardAccount::commitment::<H>, (&b.accin, &h), commitment),
        call_ensures(BuiltRealDepositTx::into_deposit_tx::<H>, (b, &h, tree, authority), r),
    ensures
        r is Ok <==> {
            &&& b.approval_key is Some
            &&& b.approval_sig is Some
            &&& b.accin.consume_auth.config ==> b.consume_sig is Some
            &&& exists|j: nat|
                j < tree.spec_next() && #[trigger] (tree.leaf_at())(j) == commitment.0
        },
        r matches Ok(t) ==> {
            &&& t.not_fake_tx
            &&& t.accin == b.accin
            &&& t.accout == b.accout
            &&& t.deposit_note == b.deposit_note
            &&& t.eth_address == b.eth_address
            &&& t.tx_hash == b.tx_hash
            &&& t.consume_sig == b.consume_sig
            &&& t.approval_sig == b.approval_sig
            &&& Some(t.approval_key) == b.approval_key
            &&& t.rejection_key == authority.rejection_key
            &&& t.consume_key == authority.consume_key
            &&& t.state_root == tree.top()
            &&& t.main_pool_root == authority.proofs.main_pool_proof.root
            &&& t.accin_act_path@.len() == 32
            &&& path_root(h, commitment.0, t.accin_act_path@) == tree.top()
        },
{
    if let Ok(t) = r {
        let (i, p) = choose|i: nat, p: MerkleProof|
            b.stands_at(h, *tree, i) && #[trigger] tree.has_proof(i, p) && t.accin_act_path@
                == p.path@;
        tree.lemma_wf_shape(h);
        tree.lemma_next_in_range();
        tree.lemma_proof_verifies(h, i, p);
    }
}

/// A withdrawal can be completed exactly where it is approved, the account's
/// commitment is a leaf of the state tree, and the subpool with its keys was set in
/// the main pool. What comes out is marked as genuine, names the roots of both trees,
/// and holds a path from the commitment to the root of the state tree.
pub proof fn lemma_withdraw_completes<H: Fn(Vec<F>, usize) -> Vec<F>>(
    h: H,
    b: BuiltWithdrawRealTx,
    tree: &MerkleTree,
    pool: &MainPoolConfigTree,
    rejection: CompPubKey,
    consume: CompPubKey,
    commitment: AccountCommitment,
    config: SubpoolConfigTree,
    root: HashOutput,
    r: Result<BuiltWithdrawTx, WithdrawTxBuilderError>,
)
    requires
        tree.wf(h),
        tree.spec_depth() == 32,
        b.approval_key matches Some(approval) ==> call_ensures(
            SubpoolConfigTree::new::<H>,
            (&h, approval, rejection, consume),
            config,
        ),
        call_ensures(SubpoolConfigTree::root::<H>, (&config, &h), root),
        call_ensures(StandardAccount::commitment::<H>, (&b.accin, &h), commitment),
        call_ensures(
            BuiltWithdrawRealTx::into_withdraw_tx::<H>,
            (b, &h, tree, pool, rejection, consume),
            r,
        ),
    ensures
        r is Ok <==> {
            &&& b.approval_key is Some
            &&& b.approval_sig is Some
            &&& exists|j: nat|
                j < tree.spec_next() && #[trigger] (tree.leaf_at())(j) == commitment.0
            &&& pool.places().contains_key(
                (MainPoolConfigLeaf { subpool_root: root, subpool_id: b.accin.subpool_id }),
            )
        },
        r matches Ok(t) ==> {
            &&& t.not_fake_tx
            &&& t.accin == b.accin
            &&& t.withdrawals == b.withdrawals
            &&& t.w_acc_addr == b.w_acc_addr
            &&& t.approval_sig == b.approval_sig
            &&& Some(t.approval_key) == b.approval_key
            &&& t.rejection_key == rejection
            &&& t.consume_key == consume
            &&& t.state_root == tree.top()
            &&& t.main_pool_root == pool.top()
            &&& t.accin_act_path@.len() == 32
            &&& path_root(h, commitment.0, t.accin_act_path@) == tree.top()
        },
{
    if b.approval_key is Some {
        config.lemma_top(h);
    }
    if let Ok(t) = r {
        let (i, p) = choose|i: nat, p: MerkleProof|
            b.stands_at(h, *tree, i) && #[trigger] tree.has_proof(i, p) && t.accin_act_path@
                == p.path@;
        tree.lemma_wf_shape(h);
        tree.lemma_next_in_range();
        tree.lemma_proof_verifies(h, i, p);
    }
}

/// A spend transaction can be completed exactly where all its proofs are set. What
/// comes out is a genuine private transaction, and neither a rejection nor an opening,
/// with the accounts, the notes, the seeds, the hash and the signatures of the built
/// one and the roots and keys of its proofs.
pub proof fn lemma_spend_completes(b: BuiltSpendTx, r: Result<BuiltPrivTx, SpendTxBuilderError>)
    requires
        call_ensures(BuiltSpendTx::into_priv_tx, (b,), r),
    ensures
        r is Ok <==> b.accin_proof is Some && b.inotes_nct_proofs is Some
            && b.rejected_inotes_nct_proofs is Some && b.subpool_proof is Some,
        r matches Ok(t) ==> {
            let s = b.subpool_proof->0;
            &&& t.tx_kind_flags.is_priv_tx && t.tx_kind_flags.not_fake_tx
            &&& !t.tx_kind_flags.is_rjct && !t.tx_kind_flags.is_fresh_acc
            &&& !t.tx_kind_flags.is_update_auth
            &&& t.accin == b.accin && t.accout == b.accout
            &&& t.accin_path == b.accin_proof->0.path
            &&& t.state_root == b.accin_proof->0.root
            &&& t.rejected_inotes@.len() == b.rejected_inotes@.len()
            &&& forall|i: int|
                0 <= i < b.rejected_inotes@.len() ==> #[trigger] t.rejected_inotes@[i]
                    == b.rejected_inotes@[i].note
            &&& t.inotes@.len() == b.inotes@.len()
            &&& forall|i: int|
                0 <= i < b.inotes@.len() ==> #[trigger] t.inotes@[i] == b.inotes@[i].note
            &&& t.onotes == b.onotes && t.dinotes == b.dinotes && t.donotes == b.donotes
            &&& Some(t.inotes_nct_proofs) == b.inotes_nct_proofs
            &&& Some(t.rejected_inotes_nct_proofs) == b.rejected_inotes_nct_proofs
            &&& t.tx_hash == b.tx_hash
            &&& t.subpool_id == b.subpool_id
            &&& t.main_pool_root == s.proofs.main_pool_proof.root
            &&& t.approval_key == s.approval_key
            &&& t.rejection_key == s.rejection_key
            &&& t.consume_key == s.consume_key
            &&& t.spend_sig == b.spend_sig
            &&& t.consume_sig == b.consume_sig
            &&& t.approval_sig == b.approval_sig
        },
{
}

/// An opening can be completed exactly where it is approved and its root and proof are
/// set. What comes out is a genuine opening without notes.
pub proof fn lemma_opening_completes(
    b: BuiltFreshAccTx,
    r: Result<BuiltPrivTx, FreshAccTxBuilderError>,
)
    requires
        call_ensures(BuiltFreshAccTx::into_priv_tx, (b,), r),
    ensures
        r is Ok <==> b.approval_sig is Some && b.state_root is Some && b.subpool_proof is Some,
        r matches Ok(t) ==> {
            let s = b.subpool_proof->0;
            &&& t.tx_kind_flags.is_fresh_acc && t.tx_kind_flags.not_fake_tx
            &&& !t.tx_kind_flags.is_rjct && !t.tx_kind_flags.is_priv_tx
            &&& !t.tx_kind_flags.is_update_auth
            &&& t.accin == b.accin && t.accout == b.accout
            &&& Some(t.state_root) == b.state_root
            &&& t.rejected_inotes@.len() == 0 && t.inotes@.len() == 0 && t.onotes@.len() == 0
            &&& t.dinotes == b.dinotes && t.donotes == b.donotes
            &&& t.tx_hash == b.tx_hash
            &&& t.subpool_id == b.subpool_id
            &&& t.main_pool_root == s.proofs.main_pool_proof.root
            &&& t.approval_key == s.approval_key
            &&& t.rejection_key == s.rejection_key
            &&& t.consume_key == s.consume_key
            &&& t.spend_sig is None && t.consume_sig is None
            &&& t.approval_sig == b.approval_sig
        },
{
}

/// Every padding transaction is marked as such, names the roots that it was made for,
/// moves nothing and carries no signature.
pub proof fn lemma_padding_is_marked<H: Fn(Vec<F>, usize) -> Vec<F>>(
    h: H,
    p: BuiltFakeTx,
    a: BuiltPrivTx,
    d: BuiltFakeDepositTx,
    b: BuiltDepositTx,
    w: BuiltFakeWithdrawTx,
    c: BuiltWithdrawTx,
)
    requires
        call_ensures(BuiltFakeTx::into_priv_tx::<H>, (p, &h), a),
        call_ensures(BuiltFakeDepositTx::into_deposit_tx::<H>, (d, &h), b),
        call_ensures(BuiltFakeWithdrawTx::into_withdraw_tx::<H>, (w, &h), c),
    ensures
        !a.tx_kind_flags.not_fake_tx,
        a.state_root == p.state_root,
        a.main_pool_root == p.mainpool_config_root,
        a.rejected_inotes@.len() == 0 && a.inotes@.len() == 0 && a.onotes@.len() == 0,
        a.spend_sig is None && a.consume_sig is None && a.approval_sig is None,
        !b.not_fake_tx,
        b.state_root == d.state_root,
        b.main_pool_root == d.mainpool_config_root,
        b.deposit_note.amount.value() == 0,
        b.consume_sig is None && b.approval_sig is None,
        !c.not_fake_tx,
        c.state_root == w.state_root,
        c.main_pool_root == w.mainpool_config_root,
        c.withdrawals@.len() == 0,
        c.approval_sig is None,
{
}

} // verus!
