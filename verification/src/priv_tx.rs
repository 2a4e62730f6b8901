//! The private transaction: the values of its wires, and the conditions that they
//! meet.
//!
//! One set of conditions covers four kinds of transaction, selected by flags:
//! FreshAcc, Reject, UpdateAuth, and Spend.
use vstd::prelude::*;

use crate::account::{AccountAddress, AccountCommitment, AccountNullifier, PublicIdentifier};
use crate::addition::{sum_of, u256_addition_chain};
use crate::ast::AssetId;
use crate::circuit::{
    account_invariants, ast_update, assert_account_invariants, assert_ast_update,
    assert_fresh_account, assert_subpool_full_proof, conditional_merkle_verify_gadget,
    conditionally_assert_account_commitment_exists_in_act, derive_account_commitment,
    derive_account_nullifier, derive_nullifier_key, derive_public_identifier, fresh_account, member,
    subpool_proven, AccountTarget, SubpoolFullProofTargets,
};
use crate::field::F;
use crate::hash::{digest, is_sponge, HashOutput};
use crate::note::{
    commitment_digests, compute_note_nullifier, derive_priv_tx_hash, double_digest,
    double_hash_native, note_nullifier_preimage, nullifier_digests, priv_tx_preimage,
    NoteCommitment, NoteNullifier, StandardNote,
};
use crate::params::{NOTE_BATCH, STATE_TREE_DEPTH};
use crate::public_inputs::TxCircuitPublicTargets;
use crate::schnorr::CompPubKey;
use crate::schnorr_gadget::{conditional_schnorr_verify_gadget, schnorr_holds, SchnorrTargets};
use crate::tree::MerkleProofStep;
use crate::u256::{u256_bound, U256};

verus! {

/// The kind of a transaction.
#[derive(Clone, Copy, Debug, PartialEq, Eq, Structural)]
pub struct TxKindFlags {
    pub is_rjct: bool,
    pub is_fresh_acc: bool,
    pub is_update_auth: bool,
    pub is_priv_tx: bool,
    pub not_fake_tx: bool,
}

impl TxKindFlags {
    /// Flags for a fake (dummy) transaction.
    pub fn fake() -> (r: Self)
        ensures
            r == (TxKindFlags {
                is_rjct: false,
                is_fresh_acc: false,
                is_update_auth: false,
                is_priv_tx: false,
                not_fake_tx: false,
            }),
    {
        TxKindFlags {
            is_rjct: false,
            is_fresh_acc: false,
            is_update_auth: false,
            is_priv_tx: false,
            not_fake_tx: false,
        }
    }

    /// Flags for a FreshAcc transaction.
    pub fn fresh_acc() -> (r: Self)
        ensures
            r == (TxKindFlags {
                is_rjct: false,
                is_fresh_acc: true,
                is_update_auth: false,
                is_priv_tx: false,
                not_fake_tx: true,
            }),
    {
        TxKindFlags {
            is_rjct: false,
            is_fresh_acc: true,
            is_update_auth: false,
            is_priv_tx: false,
            not_fake_tx: true,
        }
    }

    /// Flags for a Reject transaction.
    pub fn reject() -> (r: Self)
        ensures
            r == (TxKindFlags {
                is_rjct: true,
                is_fresh_acc: false,
                is_update_auth: false,
                is_priv_tx: false,
                not_fake_tx: true,
            }),
    {
        TxKindFlags {
            is_rjct: true,
            is_fresh_acc: false,
            is_update_auth: false,
            is_priv_tx: false,
            not_fake_tx: true,
        }
    }

    /// Flags for a Spend transaction.
    pub fn spend() -> (r: Self)
        ensures
            r == (TxKindFlags {
                is_rjct: false,
                is_fresh_acc: false,
                is_update_auth: false,
                is_priv_tx: true,
                not_fake_tx: true,
            }),
    {
        TxKindFlags {
            is_rjct: false,
            is_fresh_acc: false,
            is_update_auth: false,
            is_priv_tx: true,
            not_fake_tx: true,
        }
    }
}

/// An input note slot.
pub struct InputSlot {
    pub note: StandardNote,
    /// Leaf position of the note in the commitment tree.
    pub position: F,
    /// Whether the note is being spent.
    pub is_active: bool,
    /// Path of the note in the commitment tree.
    pub path: Vec<MerkleProofStep>,
    /// Seed of the nullifier of a slot that is not active.
    pub dummy: HashOutput,
}

/// An output note slot.
#[derive(Clone, Copy, Debug)]
pub struct OutputSlot {
    pub note: StandardNote,
    /// Whether the note is being created.
    pub is_active: bool,
    /// Seed of the commitment of a slot that is not active.
    pub dummy: HashOutput,
}

/// The nullifier of an input slot: that of the note if it is active, else that of
/// the seed.
pub open spec fn effective_nullifier<H: Fn(Vec<F>, usize) -> Vec<F>>(
    h: H,
    slot: InputSlot,
    nk: HashOutput,
) -> HashOutput {
    if slot.is_active {
        digest(h, note_nullifier_preimage(slot.note.spec_commitment(h), slot.position, nk))
    } else {
        double_digest(h, slot.dummy)
    }
}

/// The commitment of an output slot: that of the note if it is active, else that
/// of the seed.
pub open spec fn effective_commitment<H: Fn(Vec<F>, usize) -> Vec<F>>(
    h: H,
    slot: OutputSlot,
) -> HashOutput {
    if slot.is_active {
        slot.note.spec_commitment(h)
    } else {
        double_digest(h, slot.dummy)
    }
}

/// The nullifiers of the input slots.
pub open spec fn effective_nullifiers<H: Fn(Vec<F>, usize) -> Vec<F>>(
    h: H,
    slots: Seq<InputSlot>,
    nk: HashOutput,
) -> Seq<HashOutput> {
    slots.map_values(|s: InputSlot| effective_nullifier(h, s, nk))
}

/// The commitments of the output slots.
pub open spec fn effective_commitments<H: Fn(Vec<F>, usize) -> Vec<F>>(
    h: H,
    slots: Seq<OutputSlot>,
) -> Seq<HashOutput> {
    slots.map_values(|s: OutputSlot| effective_commitment(h, s))
}

/// The public inputs of a private transaction.
#[derive(Clone, Copy, Debug)]
pub struct PrivTxPublicInputs {
    pub state_root: HashOutput,
    pub mainpool_config_root: HashOutput,
    pub accin_nullifier: HashOutput,
    pub accout_commitment: HashOutput,
    pub input_note_nullifiers: [NoteNullifier; NOTE_BATCH],
    pub output_note_commitments: [NoteCommitment; NOTE_BATCH],
    pub not_fake_tx: bool,
}

impl PrivTxPublicInputs {
    /// The inputs as elements, in the order of the layout.
    pub open spec fn laid_out(&self, t: TxCircuitPublicTargets<F>) -> bool {
        &&& t.state_root@ == self.state_root.elements()
        &&& t.mainpool_config_root@ == self.mainpool_config_root.elements()
        &&& t.not_fake_tx == crate::circuit::flag(self.not_fake_tx)
        &&& t.accin_null@ == self.accin_nullifier.elements()
        &&& t.accout_comm@ == self.accout_commitment.elements()
        &&& forall|i: int|
            0 <= i < 7 ==> (#[trigger] t.inotes_null@[i])@
                == self.input_note_nullifiers@[i].0.elements()
        &&& forall|i: int|
            0 <= i < 7 ==> (#[trigger] t.onotes_comm@[i])@
                == self.output_note_commitments@[i].0.elements()
    }

    /// The inputs as elements.
    pub fn to_targets(&self) -> (r: TxCircuitPublicTargets<F>)
        ensures
            self.laid_out(r),
    {
        let n = &self.input_note_nullifiers;
        let c = &self.output_note_commitments;
        TxCircuitPublicTargets {
            state_root: self.state_root.to_elements(),
            mainpool_config_root: self.mainpool_config_root.to_elements(),
            not_fake_tx: F::from_bool(self.not_fake_tx),
            accin_null: self.accin_nullifier.to_elements(),
            accout_comm: self.accout_commitment.to_elements(),
            inotes_null: [
                n[0].0.to_elements(),
                n[1].0.to_elements(),
                n[2].0.to_elements(),
                n[3].0.to_elements(),
                n[4].0.to_elements(),
                n[5].0.to_elements(),
                n[6].0.to_elements(),
            ],
            onotes_comm: [
                c[0].0.to_elements(),
                c[1].0.to_elements(),
                c[2].0.to_elements(),
                c[3].0.to_elements(),
                c[4].0.to_elements(),
                c[5].0.to_elements(),
                c[6].0.to_elements(),
            ],
        }
    }
}

/// The values of the private wires of a transaction.
pub struct TxCircuitPrivateTargets {
    pub flags: TxKindFlags,
    pub approval_key: CompPubKey,
    pub rejection_key: CompPubKey,
    pub subpool_consume_key: CompPubKey,
    pub accin: AccountTarget,
    pub accout: AccountTarget,
    pub asset_id: AssetId,
    /// Balance for `asset_id` before the transaction.
    pub accin_amt: U256,
    /// Balance for `asset_id` after the transaction.
    pub accout_amt: U256,
    pub asset_exists_in_accin: bool,
    pub asset_exists_in_accout: bool,
    /// Path of the input account in the commitment tree.
    pub accin_act_merkle: Vec<MerkleProofStep>,
    /// Path of the balance in the state tree, before and after.
    pub accin_ast_merkle: Vec<MerkleProofStep>,
    pub inotes: Vec<InputSlot>,
    pub onotes: Vec<OutputSlot>,
    /// For each slot, whether its output note returns its input note to the sender.
    pub returned: [bool; NOTE_BATCH],
    /// Authority key membership proofs.
    pub subpool_proof_targets: SubpoolFullProofTargets,
}

/// The wires of the three signatures of a private transaction.
pub struct TxSignatureTargets {
    pub spend: SchnorrTargets,
    pub consume: SchnorrTargets,
    pub approval: SchnorrTargets,
}

/// All wires of a transaction.
pub struct TxCircuitTargets {
    pub public: PrivTxPublicInputs,
    pub private: TxCircuitPrivateTargets,
    pub sig_targets: TxSignatureTargets,
}

/// The nullifiers of the input slots.
pub fn input_nullifiers<H: Fn(Vec<F>, usize) -> Vec<F>>(
    h: &H,
    slots: &Vec<InputSlot>,
    nk: &crate::account::NullifierKey,
) -> (r: [NoteNullifier; NOTE_BATCH])
    requires
        is_sponge(*h),
        slots@.len() == NOTE_BATCH,
    ensures
        nullifier_digests(r@) == effective_nullifiers(*h, slots@, nk.0),
{
    let r = [
        slot_nullifier(h, &slots[0], nk),
        slot_nullifier(h, &slots[1], nk),
        slot_nullifier(h, &slots[2], nk),
        slot_nullifier(h, &slots[3], nk),
        slot_nullifier(h, &slots[4], nk),
        slot_nullifier(h, &slots[5], nk),
        slot_nullifier(h, &slots[6], nk),
    ];
    assert(nullifier_digests(r@) =~= effective_nullifiers(*h, slots@, nk.0));
    r
}

fn slot_nullifier<H: Fn(Vec<F>, usize) -> Vec<F>>(
    h: &H,
    slot: &InputSlot,
    nk: &crate::account::NullifierKey,
) -> (r: NoteNullifier)
    requires
        is_sponge(*h),
    ensures
        r.0 == effective_nullifier(*h, *slot, nk.0),
{
    if slot.is_active {
        compute_note_nullifier(h, &slot.note.commitment(h), slot.position, nk)
    } else {
        NoteNullifier(double_hash_native(h, slot.dummy))
    }
}

/// The commitments of the output slots.
pub fn output_commitments<H: Fn(Vec<F>, usize) -> Vec<F>>(h: &H, slots: &Vec<OutputSlot>) -> (r: [
    NoteCommitment; NOTE_BATCH])
    requires
        is_sponge(*h),
        slots@.len() == NOTE_BATCH,
    ensures
        commitment_digests(r@) == effective_commitments(*h, slots@),
{
    let r = [
        slot_commitment(h, &slots[0]),
        slot_commitment(h, &slots[1]),
        slot_commitment(h, &slots[2]),
        slot_commitment(h, &slots[3]),
        slot_commitment(h, &slots[4]),
        slot_commitment(h, &slots[5]),
        slot_commitment(h, &slots[6]),
    ];
    assert(commitment_digests(r@) =~= effective_commitments(*h, slots@));
    r
}

fn slot_commitment<H: Fn(Vec<F>, usize) -> Vec<F>>(h: &H, slot: &OutputSlot) -> (r: NoteCommitment)
    requires
        is_sponge(*h),
    ensures
        r.0 == effective_commitment(*h, *slot),
{
    if slot.is_active {
        slot.note.commitment(h)
    } else {
        NoteCommitment(double_hash_native(h, slot.dummy))
    }
}

/// Whether an output slot mirrors an input slot: the note goes back to its
/// sender, and stays otherwise as it was.
pub open spec fn mirrors(i: InputSlot, o: OutputSlot) -> bool {
    &&& i.is_active == o.is_active
    &&& i.note.identifier == o.note.identifier
    &&& i.note.amt == o.note.amt
    &&& i.note.asset_id == o.note.asset_id
    &&& i.note.sender == o.note.recipient
    &&& i.note.sender == o.note.sender
}

fn is_mirror(i: &InputSlot, o: &OutputSlot) -> (r: bool)
    ensures
        r == mirrors(*i, *o),
{
    i.is_active == o.is_active && i.note.identifier == o.note.identifier && i.note.amt
        == o.note.amt && i.note.asset_id == o.note.asset_id && i.note.sender == o.note.recipient
        && i.note.sender == o.note.sender
}

/// Whether every output slot mirrors its input slot.
pub open spec fn all_mirror(inotes: Seq<InputSlot>, onotes: Seq<OutputSlot>) -> bool {
    forall|k: int| 0 <= k < NOTE_BATCH ==> mirrors(#[trigger] inotes[k], onotes[k])
}

/// When the transaction rejects, every output slot must mirror its input slot.
pub fn assert_is_reject(is_rjct: bool, inotes: &Vec<InputSlot>, onotes: &Vec<OutputSlot>) -> (r:
    bool)
    requires
        inotes@.len() == NOTE_BATCH,
        onotes@.len() == NOTE_BATCH,
    ensures
        r == (is_rjct ==> all_mirror(inotes@, onotes@)),
{
    if !is_rjct {
        return true;
    }
    let mut k: usize = 0;
    while k < NOTE_BATCH
        invariant
            k <= NOTE_BATCH,
            is_rjct,
            inotes@.len() == NOTE_BATCH,
            onotes@.len() == NOTE_BATCH,
            forall|j: int| 0 <= j < k ==> mirrors(#[trigger] inotes@[j], onotes@[j]),
        decreases NOTE_BATCH - k,
    {
        if !is_mirror(&inotes[k], &onotes[k]) {
            assert(!mirrors(inotes@[k as int], onotes@[k as int]));
            return false;
        }
        k += 1;
    }
    true
}

/// Whether every output slot that is marked as returned mirrors its input slot.
pub open spec fn returns_mirror(
    inotes: Seq<InputSlot>,
    onotes: Seq<OutputSlot>,
    returned: Seq<bool>,
) -> bool {
    forall|k: int| 0 <= k < NOTE_BATCH && returned[k] ==> mirrors(#[trigger] inotes[k], onotes[k])
}

/// Whether no slot is marked as returned.
pub open spec fn no_returns(returned: Seq<bool>) -> bool {
    forall|k: int| 0 <= k < NOTE_BATCH ==> !#[trigger] returned[k]
}

/// Every output slot that is marked as returned must mirror its input slot.
pub fn assert_returns(
    inotes: &Vec<InputSlot>,
    onotes: &Vec<OutputSlot>,
    returned: &[bool; NOTE_BATCH],
) -> (r: bool)
    requires
        inotes@.len() == NOTE_BATCH,
        onotes@.len() == NOTE_BATCH,
    ensures
        r == returns_mirror(inotes@, onotes@, returned@),
{
    let mut k: usize = 0;
    while k < NOTE_BATCH
        invariant
            k <= NOTE_BATCH,
            inotes@.len() == NOTE_BATCH,
            onotes@.len() == NOTE_BATCH,
            forall|j: int|
                0 <= j < k && returned[j] ==> mirrors(#[trigger] inotes@[j], onotes@[j]),
        decreases NOTE_BATCH - k,
    {
        if returned[k] && !is_mirror(&inotes[k], &onotes[k]) {
            assert(!mirrors(inotes@[k as int], onotes@[k as int]));
            return false;
        }
        k += 1;
    }
    true
}

/// Whether every note is of the asset of the transaction.
pub open spec fn one_asset(
    inotes: Seq<InputSlot>,
    onotes: Seq<OutputSlot>,
    asset_id: AssetId,
) -> bool {
    &&& forall|k: int| 0 <= k < NOTE_BATCH ==> (#[trigger] inotes[k]).note.asset_id == asset_id
    &&& forall|k: int| 0 <= k < NOTE_BATCH ==> (#[trigger] onotes[k]).note.asset_id == asset_id
}

fn check_one_asset(inotes: &Vec<InputSlot>, onotes: &Vec<OutputSlot>, asset_id: AssetId) -> (r: bool)
    requires
        inotes@.len() == NOTE_BATCH,
        onotes@.len() == NOTE_BATCH,
    ensures
        r == one_asset(inotes@, onotes@, asset_id),
{
    let mut k: usize = 0;
    while k < NOTE_BATCH
        invariant
            k <= NOTE_BATCH,
            inotes@.len() == NOTE_BATCH,
            onotes@.len() == NOTE_BATCH,
            forall|j: int| 0 <= j < k ==> (#[trigger] inotes@[j]).note.asset_id == asset_id,
            forall|j: int| 0 <= j < k ==> (#[trigger] onotes@[j]).note.asset_id == asset_id,
        decreases NOTE_BATCH - k,
    {
        if inotes[k].note.asset_id != asset_id || onotes[k].note.asset_id != asset_id {
            return false;
        }
        k += 1;
    }
    true
}

/// Whether an input slot may be spent by the account: the note is addressed to
/// it, and is in the commitment tree if the slot is active.
pub open spec fn inote_valid<H: Fn(Vec<F>, usize) -> Vec<F>>(
    h: H,
    slot: InputSlot,
    owner: AccountAddress,
    root: HashOutput,
) -> bool {
    &&& member(h, slot.note.spec_commitment(h), root, slot.is_active, slot.path@, 32)
    &&& slot.note.recipient == owner
}

/// Whether every input slot may be spent by the account.
pub open spec fn inotes_valid<H: Fn(Vec<F>, usize) -> Vec<F>>(
    h: H,
    inotes: Seq<InputSlot>,
    owner: AccountAddress,
    root: HashOutput,
) -> bool {
    forall|k: int| 0 <= k < NOTE_BATCH ==> inote_valid(h, #[trigger] inotes[k], owner, root)
}

/// For each active input note, verifies membership in the commitment tree; and
/// for each one, that its recipient is the spender.
pub fn assert_inotes_valid<H: Fn(Vec<F>, usize) -> Vec<F>>(
    h: &H,
    inotes: &Vec<InputSlot>,
    owner: &AccountAddress,
    root: HashOutput,
) -> (r: bool)
    requires
        is_sponge(*h),
        inotes@.len() == NOTE_BATCH,
    ensures
        r == inotes_valid(*h, inotes@, *owner, root),
{
    let mut k: usize = 0;
    while k < NOTE_BATCH
        invariant
            k <= NOTE_BATCH,
            is_sponge(*h),
            inotes@.len() == NOTE_BATCH,
            forall|j: int| 0 <= j < k ==> inote_valid(*h, #[trigger] inotes@[j], *owner, root),
        decreases NOTE_BATCH - k,
    {
        let slot = &inotes[k];
        let ok = conditional_merkle_verify_gadget(
            h,
            slot.note.commitment(h).0,
            root,
            slot.is_active,
            &slot.path,
            STATE_TREE_DEPTH,
        ) && slot.note.recipient == *owner;
        assert(ok == inote_valid(*h, inotes@[k as int], *owner, root));
        if !ok {
            return false;
        }
        k += 1;
    }
    true
}

/// The amounts of the input slots; a slot that is not active counts as zero.
pub open spec fn input_amounts(s: Seq<InputSlot>) -> Seq<U256> {
    s.map_values(
        |x: InputSlot|
            if x.is_active {
                x.note.amt
            } else {
                U256(0, 0, 0, 0)
            },
    )
}

/// The amounts of the output slots; a slot that is not active counts as zero.
pub open spec fn output_amounts(s: Seq<OutputSlot>) -> Seq<U256> {
    s.map_values(
        |x: OutputSlot|
            if x.is_active {
                x.note.amt
            } else {
                U256(0, 0, 0, 0)
            },
    )
}

/// The asset conservation law, modulo `2^256`: the balance before and the active
/// input notes together are the balance after and the active output notes.
pub open spec fn balanced(
    accin_amt: U256,
    accout_amt: U256,
    inotes: Seq<InputSlot>,
    onotes: Seq<OutputSlot>,
) -> bool {
    (accin_amt.value() + sum_of(input_amounts(inotes))) % u256_bound() == (accout_amt.value()
        + sum_of(output_amounts(onotes))) % u256_bound()
}

/// Enforces the asset conservation law. The sums are taken with carries, and the
/// last carry is dropped.
pub fn assert_balance_invariant(
    accin_amt: &U256,
    accout_amt: &U256,
    inotes: &Vec<InputSlot>,
    onotes: &Vec<OutputSlot>,
) -> (r: bool)
    requires
        inotes@.len() == NOTE_BATCH,
        onotes@.len() == NOTE_BATCH,
    ensures
        r == balanced(*accin_amt, *accout_amt, inotes@, onotes@),
{
    let mut ins: Vec<U256> = Vec::new();
    let mut outs: Vec<U256> = Vec::new();
    let mut k: usize = 0;
    while k < NOTE_BATCH
        invariant
            k <= NOTE_BATCH,
            inotes@.len() == NOTE_BATCH,
            onotes@.len() == NOTE_BATCH,
            ins@ == input_amounts(inotes@).take(k as int),
            outs@ == output_amounts(onotes@).take(k as int),
        decreases NOTE_BATCH - k,
    {
        ins.push(if inotes[k].is_active {
            inotes[k].note.amt
        } else {
            U256::zero()
        });
        outs.push(if onotes[k].is_active {
            onotes[k].note.amt
        } else {
            U256::zero()
        });
        k += 1;
        assert(ins@ =~= input_amounts(inotes@).take(k as int));
        assert(outs@ =~= output_amounts(onotes@).take(k as int));
    }
    assert(ins@ =~= input_amounts(inotes@));
    assert(outs@ =~= output_amounts(onotes@));
    let lhs = u256_addition_chain(accin_amt, ins.as_slice());
    let rhs = u256_addition_chain(accout_amt, outs.as_slice());
    let r = lhs == rhs;
    proof {
        lemma_value_injective(lhs, rhs);
    }
    r
}

/// Numbers with the same value are the same.
pub proof fn lemma_value_injective(x: U256, y: U256)
    ensures
        x.value() == y.value() <==> x == y,
{
}

/// Whether some input slot is active.
pub open spec fn has_inotes(s: Seq<InputSlot>) -> bool {
    exists|k: int| 0 <= k < NOTE_BATCH && (#[trigger] s[k]).is_active
}

/// Whether some input slot is active and not returned.
pub open spec fn keeps_inotes(s: Seq<InputSlot>, returned: Seq<bool>) -> bool {
    exists|k: int| 0 <= k < NOTE_BATCH && (#[trigger] s[k]).is_active && !returned[k]
}

/// Whether some output slot is active and returns no input.
pub open spec fn makes_onotes(s: Seq<OutputSlot>, returned: Seq<bool>) -> bool {
    exists|k: int| 0 <= k < NOTE_BATCH && (#[trigger] s[k]).is_active && !returned[k]
}

fn any_inote(s: &Vec<InputSlot>) -> (r: bool)
    requires
        s@.len() == NOTE_BATCH,
    ensures
        r == has_inotes(s@),
{
    let mut k: usize = 0;
    while k < NOTE_BATCH
        invariant
            k <= NOTE_BATCH,
            s@.len() == NOTE_BATCH,
            forall|j: int| 0 <= j < k ==> !(#[trigger] s@[j]).is_active,
        decreases NOTE_BATCH - k,
    {
        if s[k].is_active {
            return true;
        }
        k += 1;
    }
    false
}

fn any_kept_inote(s: &Vec<InputSlot>, returned: &[bool; NOTE_BATCH]) -> (r: bool)
    requires
        s@.len() == NOTE_BATCH,
    ensures
        r == keeps_inotes(s@, returned@),
{
    let mut k: usize = 0;
    while k < NOTE_BATCH
        invariant
            k <= NOTE_BATCH,
            s@.len() == NOTE_BATCH,
            forall|j: int| 0 <= j < k ==> !((#[trigger] s@[j]).is_active && !returned[j]),
        decreases NOTE_BATCH - k,
    {
        if s[k].is_active && !returned[k] {
            return true;
        }
        k += 1;
    }
    false
}

fn any_made_onote(s: &Vec<OutputSlot>, returned: &[bool; NOTE_BATCH]) -> (r: bool)
    requires
        s@.len() == NOTE_BATCH,
    ensures
        r == makes_onotes(s@, returned@),
{
    let mut k: usize = 0;
    while k < NOTE_BATCH
        invariant
            k <= NOTE_BATCH,
            s@.len() == NOTE_BATCH,
            forall|j: int| 0 <= j < k ==> !((#[trigger] s@[j]).is_active && !returned[j]),
        decreases NOTE_BATCH - k,
    {
        if s[k].is_active && !returned[k] {
            return true;
        }
        k += 1;
    }
    false
}

/// Whether a spend signature is required: an output note is active that returns no
/// input note, and the transaction does not reject.
pub open spec fn spend_required(t: TxCircuitPrivateTargets) -> bool {
    makes_onotes(t.onotes@, t.returned@) && !t.flags.is_rjct
}

/// Whether a consume signature is required. A Reject with an active input note
/// requires it. Any other transaction requires it where it consumes notes without
/// spending and the account has a consume key of its own; where the account
/// delegates, the approval is enough. Notes that are returned are not consumed.
pub open spec fn consume_required(t: TxCircuitPrivateTargets) -> bool {
    if t.flags.is_rjct {
        has_inotes(t.inotes@)
    } else {
        &&& t.accin.consume_config
        &&& keeps_inotes(t.inotes@, t.returned@)
        &&& !spend_required(t)
    }
}

/// The key that consumes: the account's own, or the subpool's.
pub open spec fn consume_key(t: TxCircuitPrivateTargets) -> CompPubKey {
    if t.accin.consume_config {
        t.accin.consume_pk
    } else {
        t.subpool_consume_key
    }
}

impl TxCircuitPrivateTargets {
    /// The key that consumes: the account's own, or the subpool's.
    pub fn consuming_key(&self) -> (r: CompPubKey)
        ensures
            r == consume_key(*self),
    {
        if self.accin.consume_config {
            self.accin.consume_pk
        } else {
            self.subpool_consume_key
        }
    }
}

/// The three signatures of a transaction.
pub open spec fn tx_signatures<H: Fn(Vec<F>, usize) -> Vec<F>>(
    h: H,
    tx_hash: HashOutput,
    t: TxCircuitPrivateTargets,
    sigs: TxSignatureTargets,
    not_fake_tx: bool,
) -> bool {
    &&& schnorr_holds(h, tx_hash, t.accin.spend_auth, spend_required(t), sigs.spend)
    &&& schnorr_holds(h, tx_hash, consume_key(t), consume_required(t), sigs.consume)
    &&& schnorr_holds(h, tx_hash, t.approval_key, not_fake_tx, sigs.approval)
}

/// Verifies the three signatures of a transaction.
///
/// - **Spend** is required when an output note is active that returns no input note,
///   and the transaction does not reject. Signed by the account's spend key.
/// - **Consume** is required for a Reject with an active input note, signed by the
///   account's own consume key or the subpool's; and for any other transaction that
///   consumes notes without spending, where the account has a consume key of its own.
/// - **Approval** is required for every real transaction.
pub fn assert_tx_signatures<H: Fn(Vec<F>, usize) -> Vec<F>>(
    h: &H,
    tx_hash: &HashOutput,
    t: &TxCircuitPrivateTargets,
    sigs: &TxSignatureTargets,
    not_fake_tx: bool,
) -> (r: bool)
    requires
        is_sponge(*h),
        t.inotes@.len() == NOTE_BATCH,
        t.onotes@.len() == NOTE_BATCH,
    ensures
        r == tx_signatures(*h, *tx_hash, *t, *sigs, not_fake_tx),
{
    let is_spend_req = any_made_onote(&t.onotes, &t.returned) && !t.flags.is_rjct;
    let is_consume_req = if t.flags.is_rjct {
        any_inote(&t.inotes)
    } else {
        t.accin.consume_config && any_kept_inote(&t.inotes, &t.returned) && !is_spend_req
    };
    let key = t.consuming_key();
    conditional_schnorr_verify_gadget(h, tx_hash, &t.accin.spend_auth, is_spend_req, &sigs.spend)
        && conditional_schnorr_verify_gadget(h, tx_hash, &key, is_consume_req, &sigs.consume)
        && conditional_schnorr_verify_gadget(
        h,
        tx_hash,
        &t.approval_key,
        not_fake_tx,
        &sigs.approval,
    )
}

/// The hash of a transaction, from its public inputs.
pub open spec fn spec_tx_hash<H: Fn(Vec<F>, usize) -> Vec<F>>(
    h: H,
    public: PrivTxPublicInputs,
) -> HashOutput {
    digest(
        h,
        priv_tx_preimage(
            public.accin_nullifier,
            public.accout_commitment,
            nullifier_digests(public.input_note_nullifiers@),
            commitment_digests(public.output_note_commitments@),
        ),
    )
}

/// The address of the account that spends.
pub open spec fn owner_of<H: Fn(Vec<F>, usize) -> Vec<F>>(h: H, acc: AccountTarget) -> AccountAddress {
    AccountAddress { subpool_id: acc.subpool_id, public_id: PublicIdentifier(acc.public_id(h)) }
}

/// The conditions on the accounts.
#[verifier::opaque]
pub open spec fn accounts_hold<H: Fn(Vec<F>, usize) -> Vec<F>>(
    h: H,
    u: PrivTxPublicInputs,
    v: TxCircuitPrivateTargets,
) -> bool {
    &&& u.not_fake_tx ==> u.accout_commitment == v.accout.commitment(h)
    &&& v.flags.is_fresh_acc ==> fresh_account(h, v.accin)
    &&& account_invariants(v.accin, v.accout, v.flags.is_priv_tx)
    &&& member(
        h,
        v.accin.commitment(h),
        u.state_root,
        !v.flags.is_fresh_acc && u.not_fake_tx,
        v.accin_act_merkle@,
        32,
    )
    &&& u.not_fake_tx ==> u.accin_nullifier == v.accin.nullifier(h)
    &&& ast_update(
        h,
        v.asset_id,
        v.accin_amt,
        v.accout_amt,
        v.accin.acc_ast_root,
        v.accout.acc_ast_root,
        v.asset_exists_in_accin,
        v.asset_exists_in_accout,
        v.accin_ast_merkle@,
    )
}

fn check_accounts<H: Fn(Vec<F>, usize) -> Vec<F>>(
    h: &H,
    u: &PrivTxPublicInputs,
    v: &TxCircuitPrivateTargets,
) -> (r: bool)
    requires
        is_sponge(*h),
    ensures
        r == accounts_hold(*h, *u, *v),
{
    reveal(accounts_hold);
    let nk = derive_nullifier_key(h, &v.accin.private_identifier);
    let accin_comm = derive_account_commitment(h, &v.accin);
    let accout_comm = derive_account_commitment(h, &v.accout);
    let accin_null = derive_account_nullifier(h, &accin_comm, &nk);
    (!u.not_fake_tx || u.accout_commitment == accout_comm.0) && assert_fresh_account(
        h,
        &v.accin,
        v.flags.is_fresh_acc,
    ) && assert_account_invariants(&v.accin, &v.accout, v.flags.is_priv_tx)
        && conditionally_assert_account_commitment_exists_in_act(
        h,
        &accin_comm,
        u.state_root,
        !v.flags.is_fresh_acc && u.not_fake_tx,
        &v.accin_act_merkle,
    ) && (!u.not_fake_tx || u.accin_nullifier == accin_null.0) && assert_ast_update(
        h,
        v.asset_id,
        &v.accin_amt,
        &v.accout_amt,
        v.accin.acc_ast_root,
        v.accout.acc_ast_root,
        v.asset_exists_in_accin,
        v.asset_exists_in_accout,
        &v.accin_ast_merkle,
    )
}

/// The conditions on the notes.
#[verifier::opaque]
pub open spec fn notes_hold<H: Fn(Vec<F>, usize) -> Vec<F>>(
    h: H,
    u: PrivTxPublicInputs,
    v: TxCircuitPrivateTargets,
) -> bool {
    let (i, o) = (v.inotes@, v.onotes@);
    &&& i.len() == NOTE_BATCH
    &&& o.len() == NOTE_BATCH
    &&& v.flags.is_rjct ==> all_mirror(i, o)
    &&& returns_mirror(i, o, v.returned@)
    &&& one_asset(i, o, v.asset_id)
    &&& inotes_valid(h, i, owner_of(h, v.accin), u.state_root)
    &&& balanced(v.accin_amt, v.accout_amt, i, o)
    &&& nullifier_digests(u.input_note_nullifiers@) == effective_nullifiers(h, i, v.accin.nk(h))
    &&& commitment_digests(u.output_note_commitments@) == effective_commitments(h, o)
}

fn same_nullifiers(a: &[NoteNullifier; NOTE_BATCH], b: &[NoteNullifier; NOTE_BATCH]) -> (r: bool)
    ensures
        r == (nullifier_digests(a@) == nullifier_digests(b@)),
{
    let ghost (x, y) = (nullifier_digests(a@), nullifier_digests(b@));
    let mut k: usize = 0;
    while k < NOTE_BATCH
        invariant
            k <= NOTE_BATCH,
            x == nullifier_digests(a@),
            y == nullifier_digests(b@),
            forall|j: int| 0 <= j < k ==> x[j] == y[j],
        decreases NOTE_BATCH - k,
    {
        if a[k].0 != b[k].0 {
            assert(x[k as int] != y[k as int]);
            return false;
        }
        k += 1;
    }
    assert(x =~= y);
    true
}

fn same_commitments(a: &[NoteCommitment; NOTE_BATCH], b: &[NoteCommitment; NOTE_BATCH]) -> (r: bool)
    ensures
        r == (commitment_digests(a@) == commitment_digests(b@)),
{
    let ghost (x, y) = (commitment_digests(a@), commitment_digests(b@));
    let mut k: usize = 0;
    while k < NOTE_BATCH
        invariant
            k <= NOTE_BATCH,
            x == commitment_digests(a@),
            y == commitment_digests(b@),
            forall|j: int| 0 <= j < k ==> x[j] == y[j],
        decreases NOTE_BATCH - k,
    {
        if a[k].0 != b[k].0 {
            assert(x[k as int] != y[k as int]);
            return false;
        }
        k += 1;
    }
    assert(x =~= y);
    true
}

fn check_notes<H: Fn(Vec<F>, usize) -> Vec<F>>(
    h: &H,
    u: &PrivTxPublicInputs,
    v: &TxCircuitPrivateTargets,
) -> (r: bool)
    requires
        is_sponge(*h),
    ensures
        r == notes_hold(*h, *u, *v),
{
    reveal(notes_hold);
    if v.inotes.len() != NOTE_BATCH || v.onotes.len() != NOTE_BATCH {
        return false;
    }
    let nk = derive_nullifier_key(h, &v.accin.private_identifier);
    let owner = AccountAddress {
        subpool_id: v.accin.subpool_id,
        public_id: derive_public_identifier(h, &v.accin.private_identifier),
    };
    assert_is_reject(v.flags.is_rjct, &v.inotes, &v.onotes) && assert_returns(
        &v.inotes,
        &v.onotes,
        &v.returned,
    ) && check_one_asset(&v.inotes, &v.onotes, v.asset_id) && assert_inotes_valid(h, &v.inotes, &owner, u.state_root) && assert_balance_invariant(
        &v.accin_amt,
        &v.accout_amt,
        &v.inotes,
        &v.onotes,
    ) && same_nullifiers(&u.input_note_nullifiers, &input_nullifiers(h, &v.inotes, &nk))
        && same_commitments(&u.output_note_commitments, &output_commitments(h, &v.onotes))
}

/// The conditions of a private transaction:
///
/// 1. the commitment and the nullifier of the accounts are the public ones, for a
///    real transaction;
/// 2. a FreshAcc starts from an account in the default state;
/// 3. the account changes as its kind of transaction allows;
/// 4. the input account is in the commitment tree, unless it is fresh or the
///    transaction is fake;
/// 5. the state tree is updated at one leaf;
/// 6. the notes are spendable and of one asset, and a reject mirrors them, as does
///    every slot that is marked as returned;
/// 7. assets are conserved;
/// 8. the authority keys are those of the subpool, for a real transaction;
/// 9. the signatures hold.
pub open spec fn priv_tx_holds<H: Fn(Vec<F>, usize) -> Vec<F>>(h: H, t: TxCircuitTargets) -> bool {
    let (u, v) = (t.public, t.private);
    &&& v.flags.not_fake_tx == u.not_fake_tx
    &&& accounts_hold(h, u, v)
    &&& notes_hold(h, u, v)
    &&& subpool_proven(
        h,
        v.accin.subpool_id,
        v.approval_key,
        v.rejection_key,
        v.subpool_consume_key,
        u.mainpool_config_root,
        u.not_fake_tx,
        v.subpool_proof_targets,
    )
    &&& tx_signatures(h, spec_tx_hash(h, u), v, t.sig_targets, u.not_fake_tx)
}

/// Whether the values of the wires meet the conditions of a private transaction.
pub fn priv_tx_circuit<H: Fn(Vec<F>, usize) -> Vec<F>>(h: &H, t: &TxCircuitTargets) -> (r: bool)
    requires
        is_sponge(*h),
    ensures
        r == priv_tx_holds(*h, *t),
{
    let (u, v) = (&t.public, &t.private);
    if v.flags.not_fake_tx != u.not_fake_tx {
        return false;
    }
    if !check_accounts(h, u, v) || !check_notes(h, u, v) {
        return false;
    }
    proof {
        reveal(notes_hold);
    }
    let tx_hash = derive_priv_tx_hash(
        h,
        AccountNullifier(u.accin_nullifier),
        AccountCommitment(u.accout_commitment),
        &u.input_note_nullifiers,
        &u.output_note_commitments,
    );
    assert_subpool_full_proof(
        h,
        v.accin.subpool_id,
        v.approval_key,
        v.rejection_key,
        v.subpool_consume_key,
        u.mainpool_config_root,
        u.not_fake_tx,
        &v.subpool_proof_targets,
    ) && assert_tx_signatures(h, &tx_hash, v, &t.sig_targets, u.not_fake_tx)
}

} // verus!
