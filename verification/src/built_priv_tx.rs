//! A private transaction that is ready to be proven, of whatever kind.
//!
//! The presence of notes decides what the wires hold, not the kind: with notes the
//! asset is that of the first one, input notes before output notes before rejected
//! ones, and without it is zero; note slots that are free are filled with dummies.
use vstd::prelude::*;

use crate::account::{AccountAddress, StandardAccount, SubpoolId};
use crate::ast::{balance_of, has_asset, AssetId};
use crate::circuit::{copy_path, AccountTarget, SubpoolFullProofTargets};
use crate::errors::PrivTxProveError;
use crate::field::{F, GOLDILOCKS_ORDER};
use crate::hash::{digest, is_sponge, HashOutput};
use crate::note::{
    commitment_digests, compute_note_nullifier, double_digest, double_hash_native,
    note_nullifier_preimage, nullifier_digests, NoteCommitment, NoteNullifier, StandardNote,
};
use crate::params::NOTE_BATCH;
use crate::pool_config::SubpoolFullProof;
use crate::priv_tx::{
    consume_key, effective_commitments, effective_nullifiers, InputSlot, OutputSlot, PrivTxPublicInputs, TxCircuitPrivateTargets, TxCircuitTargets,
    TxKindFlags, TxSignatureTargets,
};
use crate::schnorr::{CompPubKey, Signature};
use crate::tree::{MerkleProof, MerkleProofStep};
use crate::fake_tx::approval_input;
use crate::tx_witness::{
    address_of, check_positions, consume_input, idle_input, idle_note, idle_output, input_laid, inputs_laid,
    lay_inputs, lay_outputs, output_laid, outputs_laid, positions_fit, prepare, public_side,
    real_or_fake, signature_wires, spend_input, wirable, wired, PreparedTx,
};

verus! {

/// A note and its leaf position in the commitment tree.
#[derive(Clone, Copy, Debug, PartialEq, Eq, Structural)]
pub struct PlacedNote {
    pub note: StandardNote,
    pub position: usize,
}

/// The note that a rejected note becomes: it goes back to its sender.
pub open spec fn returned(n: StandardNote) -> StandardNote {
    StandardNote { recipient: n.sender, ..n }
}

/// The note that a rejected note becomes.
pub fn return_note(n: &StandardNote) -> (r: StandardNote)
    ensures
        r == returned(*n),
{
    StandardNote {
        identifier: n.identifier,
        asset_id: n.asset_id,
        amt: n.amt,
        recipient: n.sender,
        sender: n.sender,
    }
}

/// The nullifier of a placed note.
pub open spec fn placed_nullifier<H: Fn(Vec<F>, usize) -> Vec<F>>(
    h: H,
    n: PlacedNote,
    nk: HashOutput,
) -> HashOutput {
    digest(
        h,
        note_nullifier_preimage(n.note.spec_commitment(h), F::of(n.position as int), nk),
    )
}

/// The nullifier of a slot: first the rejected notes, then the input notes, then
/// the dummies.
pub open spec fn slot_nullifier_of<H: Fn(Vec<F>, usize) -> Vec<F>>(
    h: H,
    rejected: Seq<PlacedNote>,
    inotes: Seq<PlacedNote>,
    dinotes: Seq<HashOutput>,
    nk: HashOutput,
    i: int,
) -> HashOutput {
    let j = i - rejected.len();
    if j < 0 {
        placed_nullifier(h, rejected[i], nk)
    } else if j < inotes.len() {
        placed_nullifier(h, inotes[j], nk)
    } else {
        double_digest(h, dinotes[j - inotes.len()])
    }
}

/// The nullifiers of all slots.
pub open spec fn slot_nullifiers<H: Fn(Vec<F>, usize) -> Vec<F>>(
    h: H,
    rejected: Seq<PlacedNote>,
    inotes: Seq<PlacedNote>,
    dinotes: Seq<HashOutput>,
    nk: HashOutput,
) -> Seq<HashOutput> {
    Seq::new(7, |i: int| slot_nullifier_of(h, rejected, inotes, dinotes, nk, i))
}

/// The commitment of a slot: first the returned notes, then the output notes, then
/// the dummies.
pub open spec fn slot_commitment_of<H: Fn(Vec<F>, usize) -> Vec<F>>(
    h: H,
    rejected: Seq<StandardNote>,
    onotes: Seq<StandardNote>,
    donotes: Seq<HashOutput>,
    i: int,
) -> HashOutput {
    let j = i - rejected.len();
    if j < 0 {
        returned(rejected[i]).spec_commitment(h)
    } else if j < onotes.len() {
        onotes[j].spec_commitment(h)
    } else {
        double_digest(h, donotes[j - onotes.len()])
    }
}

/// The commitments of all slots.
pub open spec fn slot_commitments<H: Fn(Vec<F>, usize) -> Vec<F>>(
    h: H,
    rejected: Seq<StandardNote>,
    onotes: Seq<StandardNote>,
    donotes: Seq<HashOutput>,
) -> Seq<HashOutput> {
    Seq::new(7, |i: int| slot_commitment_of(h, rejected, onotes, donotes, i))
}

/// Whether positions are elements of the field.
pub open spec fn places_fit(s: Seq<PlacedNote>) -> bool {
    forall|i: int| 0 <= i < s.len() ==> (#[trigger] s[i]).position < GOLDILOCKS_ORDER
}

/// Computes the nullifiers of all slots.
pub fn nullifiers_of_slots<H: Fn(Vec<F>, usize) -> Vec<F>>(
    h: &H,
    rejected: &Vec<PlacedNote>,
    inotes: &Vec<PlacedNote>,
    dinotes: &Vec<HashOutput>,
    nk: &crate::account::NullifierKey,
) -> (r: [NoteNullifier; NOTE_BATCH])
    requires
        is_sponge(*h),
        rejected@.len() + inotes@.len() <= NOTE_BATCH,
        rejected@.len() + inotes@.len() + dinotes@.len() >= NOTE_BATCH,
        places_fit(rejected@),
        places_fit(inotes@),
    ensures
        nullifier_digests(r@) == slot_nullifiers(*h, rejected@, inotes@, dinotes@, nk.0),
{
    let mut v: Vec<NoteNullifier> = Vec::new();
    let mut i: usize = 0;
    while i < NOTE_BATCH
        invariant
            i <= NOTE_BATCH,
            is_sponge(*h),
            rejected@.len() + inotes@.len() <= NOTE_BATCH,
            rejected@.len() + inotes@.len() + dinotes@.len() >= NOTE_BATCH,
            places_fit(rejected@),
            places_fit(inotes@),
            v@.len() == i,
            forall|k: int|
                0 <= k < i ==> (#[trigger] v@[k]).0 == slot_nullifier_of(
                    *h,
                    rejected@,
                    inotes@,
                    dinotes@,
                    nk.0,
                    k,
                ),
        decreases NOTE_BATCH - i,
    {
        let null = if i < rejected.len() {
            placed(h, &rejected[i], nk)
        } else if i - rejected.len() < inotes.len() {
            placed(h, &inotes[i - rejected.len()], nk)
        } else {
            NoteNullifier(double_hash_native(h, dinotes[i - rejected.len() - inotes.len()]))
        };
        v.push(null);
        i += 1;
    }
    let r = [v[0], v[1], v[2], v[3], v[4], v[5], v[6]];
    assert(r@ =~= v@);
    assert(nullifier_digests(r@) =~= slot_nullifiers(*h, rejected@, inotes@, dinotes@, nk.0));
    r
}

fn placed<H: Fn(Vec<F>, usize) -> Vec<F>>(
    h: &H,
    n: &PlacedNote,
    nk: &crate::account::NullifierKey,
) -> (r: NoteNullifier)
    requires
        is_sponge(*h),
        n.position < GOLDILOCKS_ORDER,
    ensures
        r.0 == placed_nullifier(*h, *n, nk.0),
{
    let position = F::from_canonical_u64(n.position as u64);
    compute_note_nullifier(h, &n.note.commitment(h), position, nk)
}

/// Computes the commitments of all slots.
pub fn commitments_of_slots<H: Fn(Vec<F>, usize) -> Vec<F>>(
    h: &H,
    rejected: &Vec<StandardNote>,
    onotes: &Vec<StandardNote>,
    donotes: &Vec<HashOutput>,
) -> (r: [NoteCommitment; NOTE_BATCH])
    requires
        is_sponge(*h),
        rejected@.len() + onotes@.len() <= NOTE_BATCH,
        rejected@.len() + onotes@.len() + donotes@.len() >= NOTE_BATCH,
    ensures
        commitment_digests(r@) == slot_commitments(*h, rejected@, onotes@, donotes@),
{
    let mut v: Vec<NoteCommitment> = Vec::new();
    let mut i: usize = 0;
    while i < NOTE_BATCH
        invariant
            i <= NOTE_BATCH,
            is_sponge(*h),
            rejected@.len() + onotes@.len() <= NOTE_BATCH,
            rejected@.len() + onotes@.len() + donotes@.len() >= NOTE_BATCH,
            v@.len() == i,
            forall|k: int|
                0 <= k < i ==> (#[trigger] v@[k]).0 == slot_commitment_of(
                    *h,
                    rejected@,
                    onotes@,
                    donotes@,
                    k,
                ),
        decreases NOTE_BATCH - i,
    {
        let comm = if i < rejected.len() {
            return_note(&rejected[i]).commitment(h)
        } else if i - rejected.len() < onotes.len() {
            onotes[i - rejected.len()].commitment(h)
        } else {
            NoteCommitment(double_hash_native(h, donotes[i - rejected.len() - onotes.len()]))
        };
        v.push(comm);
        i += 1;
    }
    let r = [v[0], v[1], v[2], v[3], v[4], v[5], v[6]];
    assert(r@ =~= v@);
    assert(commitment_digests(r@) =~= slot_commitments(*h, rejected@, onotes@, donotes@));
    r
}

/// The authority keys of a subpool, and the proofs that they are.
pub struct SubpoolAuthority {
    pub approval_key: CompPubKey,
    pub rejection_key: CompPubKey,
    pub consume_key: CompPubKey,
    /// Root of the subpool's configuration.
    pub config_root: HashOutput,
    pub proofs: SubpoolFullProof,
}

/// A built private transaction, ready to be proven.
pub struct BuiltPrivTx {
    /// Transaction kind flags
    pub tx_kind_flags: TxKindFlags,
    /// Input account
    pub accin: StandardAccount,
    /// Output account (derived from accin with modifications)
    pub accout: StandardAccount,
    /// Path of accin's commitment in the state tree
    pub accin_path: Vec<MerkleProofStep>,
    /// Rejected input notes: they take the first slots, and the output notes in
    /// these slots are the same notes returned to their senders.
    pub rejected_inotes: Vec<StandardNote>,
    /// Proofs of rejected input note commitments in the state tree
    pub rejected_inotes_nct_proofs: Vec<MerkleProof>,
    /// Input notes
    pub inotes: Vec<StandardNote>,
    /// Proofs of input note commitments in the state tree
    pub inotes_nct_proofs: Vec<MerkleProof>,
    /// Output notes
    pub onotes: Vec<StandardNote>,
    /// Dummy input note seeds (for free input slots)
    pub dinotes: Vec<HashOutput>,
    /// Dummy output note seeds (for free output slots)
    pub donotes: Vec<HashOutput>,
    /// Transaction hash
    pub tx_hash: HashOutput,
    /// State tree root at proof time
    pub state_root: HashOutput,
    /// Subpool of the account
    pub subpool_id: SubpoolId,
    /// Main pool configuration tree root
    pub main_pool_root: HashOutput,
    /// Wires of the authority proofs
    pub subpool_proof: SubpoolFullProofTargets,
    pub approval_key: CompPubKey,
    pub rejection_key: CompPubKey,
    pub consume_key: CompPubKey,
    /// Spend signature, or none where none is needed
    pub spend_sig: Option<Signature>,
    /// Consume signature, or none where none is needed
    pub consume_sig: Option<Signature>,
    /// Approval signature, or none for a fake transaction
    pub approval_sig: Option<Signature>,
}

/// Marks the first `n` slots.
fn mark_returned(n: usize) -> (r: [bool; NOTE_BATCH])
    ensures
        forall|k: int| 0 <= k < NOTE_BATCH ==> #[trigger] r[k] == (k < n),
{
    [0 < n, 1 < n, 2 < n, 3 < n, 4 < n, 5 < n, 6 < n]
}

/// Notes with the positions of their proofs.
pub open spec fn place_all(notes: Seq<StandardNote>, proofs: Seq<MerkleProof>) -> Seq<PlacedNote> {
    Seq::new(
        notes.len(),
        |i: int| PlacedNote { note: notes[i], position: proofs[i].leaf_index },
    )
}

fn place_notes(notes: &Vec<StandardNote>, proofs: &Vec<MerkleProof>) -> (r: Vec<PlacedNote>)
    requires
        notes@.len() == proofs@.len(),
        positions_fit(proofs@),
    ensures
        r@ == place_all(notes@, proofs@),
        places_fit(r@),
{
    let mut v: Vec<PlacedNote> = Vec::new();
    let mut i: usize = 0;
    while i < notes.len()
        invariant
            i <= notes@.len(),
            notes@.len() == proofs@.len(),
            positions_fit(proofs@),
            v@ == place_all(notes@, proofs@).take(i as int),
            places_fit(v@),
        decreases notes@.len() - i,
    {
        assert(proofs@[i as int].leaf_index < GOLDILOCKS_ORDER);
        v.push(PlacedNote { note: notes[i], position: proofs[i].leaf_index });
        i += 1;
        assert(v@ =~= place_all(notes@, proofs@).take(i as int));
    }
    assert(v@ =~= place_all(notes@, proofs@));
    v
}

/// The notes that rejected notes become.
pub open spec fn returned_all(s: Seq<StandardNote>) -> Seq<StandardNote> {
    s.map_values(|n: StandardNote| returned(n))
}

/// The dummies of all slots: zero for the slots in use, then the seeds.
pub open spec fn padded_seeds(used: nat, seeds: Seq<HashOutput>) -> Seq<HashOutput> {
    Seq::new(
        7,
        |i: int|
            if i < used {
                HashOutput(F::of(0), F::of(0), F::of(0), F::of(0))
            } else {
                seeds[i - used]
            },
    )
}

fn pad_seeds(used: usize, seeds: &Vec<HashOutput>) -> (r: [HashOutput; NOTE_BATCH])
    requires
        used <= NOTE_BATCH,
        used + seeds@.len() >= NOTE_BATCH,
    ensures
        r@ == padded_seeds(used as nat, seeds@),
{
    let mut v: Vec<HashOutput> = Vec::new();
    let mut i: usize = 0;
    while i < NOTE_BATCH
        invariant
            i <= NOTE_BATCH,
            used <= NOTE_BATCH,
            used + seeds@.len() >= NOTE_BATCH,
            v@ == padded_seeds(used as nat, seeds@).take(i as int),
        decreases NOTE_BATCH - i,
    {
        v.push(if i < used {
            HashOutput::zero()
        } else {
            seeds[i - used]
        });
        i += 1;
        assert(v@ =~= padded_seeds(used as nat, seeds@).take(i as int));
    }
    let r = [v[0], v[1], v[2], v[3], v[4], v[5], v[6]];
    assert(r@ =~= padded_seeds(used as nat, seeds@));
    r
}

fn join_notes(a: &Vec<StandardNote>, b: &Vec<StandardNote>, back: bool) -> (r: Vec<StandardNote>)
    ensures
        r@ == (if back {
            returned_all(a@)
        } else {
            a@
        }) + b@,
{
    let ghost first = if back {
        returned_all(a@)
    } else {
        a@
    };
    let mut v: Vec<StandardNote> = Vec::new();
    let mut i: usize = 0;
    while i < a.len()
        invariant
            i <= a@.len(),
            first == (if back {
                returned_all(a@)
            } else {
                a@
            }),
            v@ == first.take(i as int),
        decreases a@.len() - i,
    {
        v.push(if back {
            return_note(&a[i])
        } else {
            a[i]
        });
        i += 1;
        assert(v@ =~= first.take(i as int));
    }
    assert(first.take(i as int) =~= first);
    let mut j: usize = 0;
    while j < b.len()
        invariant
            j <= b@.len(),
            v@ == first + b@.take(j as int),
        decreases b@.len() - j,
    {
        v.push(b[j]);
        j += 1;
        assert(v@ =~= first + b@.take(j as int));
    }
    assert(b@.take(j as int) =~= b@);
    v
}

/// Whether two lists hold proofs with the same paths, positions, leaves and roots.
pub open spec fn same_proofs(a: Seq<MerkleProof>, b: Seq<MerkleProof>) -> bool {
    &&& a.len() == b.len()
    &&& forall|i: int|
        0 <= i < a.len() ==> {
            &&& (#[trigger] a[i]).path@ == b[i].path@
            &&& a[i].leaf_index == b[i].leaf_index
            &&& a[i].leaf == b[i].leaf
            &&& a[i].root == b[i].root
        }
}

fn join_proofs(a: &Vec<MerkleProof>, b: &Vec<MerkleProof>) -> (r: Vec<MerkleProof>)
    ensures
        same_proofs(r@, a@ + b@),
{
    let mut v: Vec<MerkleProof> = Vec::new();
    let mut i: usize = 0;
    while i < a.len()
        invariant
            i <= a@.len(),
            same_proofs(v@, a@.take(i as int)),
        decreases a@.len() - i,
    {
        v.push(
            MerkleProof {
                leaf: a[i].leaf,
                leaf_index: a[i].leaf_index,
                path: copy_path(&a[i].path),
                root: a[i].root,
            },
        );
        i += 1;
    }
    assert(a@.take(i as int) =~= a@);
    let mut j: usize = 0;
    while j < b.len()
        invariant
            j <= b@.len(),
            same_proofs(v@, a@ + b@.take(j as int)),
        decreases b@.len() - j,
    {
        v.push(
            MerkleProof {
                leaf: b[j].leaf,
                leaf_index: b[j].leaf_index,
                path: copy_path(&b[j].path),
                root: b[j].root,
            },
        );
        j += 1;
        assert((a@ + b@.take(j as int)).drop_last() =~= a@ + b@.take(j - 1));
    }
    assert(b@.take(j as int) =~= b@);
    v
}

impl BuiltPrivTx {
    /// Whether the lists of proofs fit the lists of notes, and the accounts are
    /// whole.
    pub open spec fn whole(&self) -> bool {
        &&& self.accin.ast.shape()
        &&& self.accout.ast.shape()
        &&& self.fits()
    }

    /// What is asked of the transaction beyond its state trees: consume keys where
    /// they are needed, and a proof at a position of the field for each note.
    pub open spec fn fits(&self) -> bool {
        &&& self.accin.consume_auth.valid()
        &&& self.accout.consume_auth.valid()
        &&& self.rejected_inotes_nct_proofs@.len() == self.rejected_inotes@.len()
        &&& self.inotes_nct_proofs@.len() == self.inotes@.len()
        &&& positions_fit(self.rejected_inotes_nct_proofs@)
        &&& positions_fit(self.inotes_nct_proofs@)
    }

    /// Whether the transaction fits.
    pub fn is_fit(&self) -> (r: bool)
        ensures
            r == self.fits(),
    {
        self.accin.consume_auth.is_valid() && self.accout.consume_auth.is_valid()
            && self.rejected_inotes_nct_proofs.len() == self.rejected_inotes.len()
            && self.inotes_nct_proofs.len() == self.inotes.len() && check_positions(
            &self.rejected_inotes_nct_proofs,
        ) && check_positions(&self.inotes_nct_proofs)
    }

    /// Whether the notes fit the slots, and the dummies fill the rest.
    pub open spec fn slots_fit(&self) -> bool {
        let n_rjct = self.rejected_inotes@.len();
        &&& n_rjct + self.inotes@.len() <= NOTE_BATCH
        &&& n_rjct + self.onotes@.len() <= NOTE_BATCH
        &&& n_rjct + self.inotes@.len() + self.dinotes@.len() == NOTE_BATCH
        &&& n_rjct + self.onotes@.len() + self.donotes@.len() == NOTE_BATCH
    }

    /// Compute input note nullifiers for all slots: rejected notes, then input
    /// notes, then dummies.
    pub fn compute_input_nullifiers<H: Fn(Vec<F>, usize) -> Vec<F>>(&self, h: &H) -> (r: [
        NoteNullifier; NOTE_BATCH])
        requires
            is_sponge(*h),
            self.whole(),
            self.slots_fit(),
        ensures
            nullifier_digests(r@) == slot_nullifiers(
                *h,
                place_all(self.rejected_inotes@, self.rejected_inotes_nct_proofs@),
                place_all(self.inotes@, self.inotes_nct_proofs@),
                self.dinotes@,
                self.accin.spec_nk(*h),
            ),
    {
        let rejected = place_notes(&self.rejected_inotes, &self.rejected_inotes_nct_proofs);
        let inotes = place_notes(&self.inotes, &self.inotes_nct_proofs);
        nullifiers_of_slots(h, &rejected, &inotes, &self.dinotes, &self.accin.nk(h))
    }

    /// Compute output note commitments for all slots: returned notes, then output
    /// notes, then dummies.
    pub fn compute_output_commitments<H: Fn(Vec<F>, usize) -> Vec<F>>(&self, h: &H) -> (r: [
        NoteCommitment; NOTE_BATCH])
        requires
            is_sponge(*h),
            self.slots_fit(),
        ensures
            commitment_digests(r@) == slot_commitments(
                *h,
                self.rejected_inotes@,
                self.onotes@,
                self.donotes@,
            ),
    {
        commitments_of_slots(h, &self.rejected_inotes, &self.onotes, &self.donotes)
    }

    /// Extract the public inputs of this transaction.
    pub fn extract_public_inputs<H: Fn(Vec<F>, usize) -> Vec<F>>(&self, h: &H) -> (r:
        PrivTxPublicInputs)
        requires
            is_sponge(*h),
            self.whole(),
            self.slots_fit(),
        ensures
            r.state_root == self.state_root,
            r.mainpool_config_root == self.main_pool_root,
            r.accin_nullifier == self.accin.spec_nullifier(*h),
            r.accout_commitment == self.accout.spec_commitment(*h),
            nullifier_digests(r.input_note_nullifiers@) == slot_nullifiers(
                *h,
                place_all(self.rejected_inotes@, self.rejected_inotes_nct_proofs@),
                place_all(self.inotes@, self.inotes_nct_proofs@),
                self.dinotes@,
                self.accin.spec_nk(*h),
            ),
            commitment_digests(r.output_note_commitments@) == slot_commitments(
                *h,
                self.rejected_inotes@,
                self.onotes@,
                self.donotes@,
            ),
            r.not_fake_tx == (self.tx_kind_flags != (TxKindFlags {
                is_rjct: false,
                is_fresh_acc: false,
                is_update_auth: false,
                is_priv_tx: false,
                not_fake_tx: false,
            })),
    {
        PrivTxPublicInputs {
            state_root: self.state_root,
            mainpool_config_root: self.main_pool_root,
            accin_nullifier: self.accin.nullifier(h).0,
            accout_commitment: self.accout.commitment(h).0,
            input_note_nullifiers: self.compute_input_nullifiers(h),
            output_note_commitments: self.compute_output_commitments(h),
            not_fake_tx: self.tx_kind_flags != TxKindFlags::fake(),
        }
    }

    /// The asset of the transaction: that of the first input note, or the first
    /// output note, or the first rejected note, or zero.
    pub open spec fn asset(&self) -> AssetId {
        if self.inotes@.len() > 0 {
            self.inotes@[0].asset_id
        } else if self.onotes@.len() > 0 {
            self.onotes@[0].asset_id
        } else if self.rejected_inotes@.len() > 0 {
            self.rejected_inotes@[0].asset_id
        } else {
            AssetId(F::of(0))
        }
    }

    fn first_asset(&self) -> (r: AssetId)
        ensures
            r == self.asset(),
    {
        if self.inotes.len() > 0 {
            self.inotes[0].asset_id
        } else if self.onotes.len() > 0 {
            self.onotes[0].asset_id
        } else if self.rejected_inotes.len() > 0 {
            self.rejected_inotes[0].asset_id
        } else {
            AssetId::zero()
        }
    }

    /// What the slots cannot be laid out for.
    pub open spec fn slot_error(&self) -> Option<PrivTxProveError> {
        let n_rjct = self.rejected_inotes@.len();
        let n_in = self.inotes@.len();
        let n_out = self.onotes@.len();
        if n_rjct + n_in > NOTE_BATCH || n_rjct + n_out > NOTE_BATCH {
            Some(
                PrivTxProveError::NoteBatchOverflow {
                    rejected: n_rjct as usize,
                    inotes: n_in as usize,
                    onotes: n_out as usize,
                    limit: NOTE_BATCH,
                },
            )
        } else if self.dinotes@.len() != NOTE_BATCH - n_in - n_rjct {
            Some(
                PrivTxProveError::DinotesLength {
                    expected: (NOTE_BATCH - n_in - n_rjct) as usize,
                    got: self.dinotes@.len() as usize,
                },
            )
        } else if self.donotes@.len() != NOTE_BATCH - n_out - n_rjct {
            Some(
                PrivTxProveError::DonotesLength {
                    expected: (NOTE_BATCH - n_out - n_rjct) as usize,
                    got: self.donotes@.len() as usize,
                },
            )
        } else {
            None
        }
    }

    /// Whether slots hold the notes of the transaction: the rejected ones first
    /// (returned on the output side), then the others, then fillers with the
    /// dummies.
    pub open spec fn slots_laid<H: Fn(Vec<F>, usize) -> Vec<F>>(
        &self,
        h: H,
        i: Seq<InputSlot>,
        o: Seq<OutputSlot>,
    ) -> bool {
        let n_rjct = self.rejected_inotes@.len();
        &&& inputs_laid(
            i,
            self.rejected_inotes@ + self.inotes@,
            self.rejected_inotes_nct_proofs@ + self.inotes_nct_proofs@,
            padded_seeds(n_rjct + self.inotes@.len(), self.dinotes@),
            idle_input(address_of(h, &self.accin), self.asset()),
        )
        &&& outputs_laid(
            o,
            returned_all(self.rejected_inotes@) + self.onotes@,
            padded_seeds(n_rjct + self.onotes@.len(), self.donotes@),
            idle_output(self.asset()),
        )
    }

    /// Lays out the note slots: rejected pairs first, then the other notes, then
    /// dummies.
    pub fn set_notes_witness<H: Fn(Vec<F>, usize) -> Vec<F>>(&self, h: &H) -> (r: Result<
        (Vec<InputSlot>, Vec<OutputSlot>),
        PrivTxProveError,
    >)
        requires
            is_sponge(*h),
            self.whole(),
        ensures
            r is Err <==> self.slot_error() is Some,
            r matches Err(e) ==> self.slot_error() == Some(e),
            r matches Ok(s) ==> self.slots_fit() && self.slots_laid(*h, s.0@, s.1@),
    {
        let n_rjct: usize = self.rejected_inotes.len();
        let n_in: usize = self.inotes.len();
        let n_out: usize = self.onotes.len();
        if n_rjct > NOTE_BATCH || n_in > NOTE_BATCH - n_rjct || n_out > NOTE_BATCH - n_rjct {
            return Err(
                PrivTxProveError::NoteBatchOverflow {
                    rejected: n_rjct,
                    inotes: n_in,
                    onotes: n_out,
                    limit: NOTE_BATCH,
                },
            );
        }
        let expected_dinotes: usize = NOTE_BATCH - n_in - n_rjct;
        if self.dinotes.len() != expected_dinotes {
            return Err(
                PrivTxProveError::DinotesLength {
                    expected: expected_dinotes,
                    got: self.dinotes.len(),
                },
            );
        }
        let expected_donotes: usize = NOTE_BATCH - n_out - n_rjct;
        if self.donotes.len() != expected_donotes {
            return Err(
                PrivTxProveError::DonotesLength {
                    expected: expected_donotes,
                    got: self.donotes.len(),
                },
            );
        }
        let asset = self.first_asset();
        let me = AccountAddress::from_acc(h, &self.accin);
        let notes = join_notes(&self.rejected_inotes, &self.inotes, false);
        let proofs = join_proofs(&self.rejected_inotes_nct_proofs, &self.inotes_nct_proofs);
        let back = join_notes(&self.rejected_inotes, &self.onotes, true);
        let ghost all = self.rejected_inotes_nct_proofs@ + self.inotes_nct_proofs@;
        assert(positions_fit(proofs@)) by {
            assert forall|i: int| 0 <= i < proofs@.len() implies (#[trigger] proofs@[i]).leaf_index
                < GOLDILOCKS_ORDER by {
                assert(proofs@[i].leaf_index == all[i].leaf_index);
                if i < n_rjct {
                    assert(all[i] == self.rejected_inotes_nct_proofs@[i]);
                } else {
                    assert(all[i] == self.inotes_nct_proofs@[i - n_rjct]);
                }
            }
        }
        let seeds = pad_seeds(n_rjct + n_in, &self.dinotes);
        let filler = idle_note(me, asset);
        let i = lay_inputs(&notes, &proofs, &seeds, &filler);
        assert(inputs_laid(i@, notes@, all, seeds@, filler)) by {
            assert forall|k: int| 0 <= k < NOTE_BATCH implies input_laid(
                #[trigger] i@[k],
                k,
                notes@,
                all,
                seeds@,
                filler,
            ) by {
                assert(input_laid(i@[k], k, notes@, proofs@, seeds@, filler));
                if k < notes@.len() {
                    assert(proofs@[k].leaf_index == all[k].leaf_index);
                }
            }
        }
        let o = lay_outputs(
            &back,
            &pad_seeds(n_rjct + n_out, &self.donotes),
            &idle_note(AccountAddress::zero(), asset),
        );
        Ok((i, o))
    }

    /// Whether a path is that of the asset of the transaction in the state tree, or
    /// of the next free leaf (the first leaf, where the tree is full).
    pub open spec fn asset_leaf_path(&self, path: Seq<MerkleProofStep>) -> bool {
        exists|index: nat, p: MerkleProof|
            #[trigger] self.accin.ast.has_proof(index, p) && p.path@ == path && (if has_asset(
                self.accin.ast@,
                self.asset(),
            ) {
                index < self.accin.ast@.len() && self.accin.ast@[index as int].asset_id
                    == self.asset()
            } else if self.accin.ast@.len() < 1024 {
                index == self.accin.ast@.len()
            } else {
                index == 0
            })
    }

    fn asset_leaf(&self) -> (r: Vec<MerkleProofStep>)
        requires
            self.accin.ast.shape(),
        ensures
            self.asset_leaf_path(r@),
    {
        proof {
            self.accin.ast.lemma_shape();
        }
        let index: usize = match self.accin.ast.amount_for(self.first_asset()) {
            Some((i, _)) => i,
            None => if self.accin.ast.size() < 1024 {
                self.accin.ast.size()
            } else {
                0
            },
        };
        let p = self.accin.ast.merkle_proof_at(index);
        assert(self.accin.ast.has_proof(index as nat, p));
        copy_path(&p.path)
    }

    /// Whether all wires but those of the signatures are the ones of the
    /// transaction.
    pub open spec fn prepared<H: Fn(Vec<F>, usize) -> Vec<F>>(&self, h: H, p: PreparedTx) -> bool {
        let v = p.private;
        &&& public_side(h, &self.accin, &self.accout, self.state_root, self.main_pool_root, p)
        &&& v.flags == self.tx_kind_flags
        &&& v.approval_key == self.approval_key
        &&& v.rejection_key == self.rejection_key
        &&& v.subpool_consume_key == self.consume_key
        &&& v.accin.stands_for(&self.accin)
        &&& v.accout.stands_for(&self.accout)
        &&& v.asset_id == self.asset()
        &&& v.accin_amt.value() == balance_of(self.accin.ast@, self.asset())
        &&& v.accout_amt.value() == balance_of(self.accout.ast@, self.asset())
        &&& v.asset_exists_in_accin == has_asset(self.accin.ast@, self.asset())
        &&& v.asset_exists_in_accout == has_asset(self.accout.ast@, self.asset())
        &&& v.accin_act_merkle@ == self.accin_path@
        &&& self.asset_leaf_path(v.accin_ast_merkle@)
        &&& self.slots_laid(h, v.inotes@, v.onotes@)
        &&& forall|k: int|
            0 <= k < NOTE_BATCH ==> #[trigger] v.returned[k] == (k < self.rejected_inotes@.len())
        &&& v.subpool_proof_targets.approval_proof@ == self.subpool_proof.approval_proof@
        &&& v.subpool_proof_targets.rejection_proof@ == self.subpool_proof.rejection_proof@
        &&& v.subpool_proof_targets.consume_proof@ == self.subpool_proof.consume_proof@
        &&& v.subpool_proof_targets.main_pool_proof@ == self.subpool_proof.main_pool_proof@
        &&& v.subpool_proof_targets.subpool_config_root == self.subpool_proof.subpool_config_root
        &&& p.spend_key == v.accin.spend_auth
        &&& p.consume_key == consume_key(v)
    }

    /// Computes all wires but those of the signatures.
    pub fn set_transaction_witnesses<H: Fn(Vec<F>, usize) -> Vec<F>>(&self, h: &H) -> (r: Result<
        PreparedTx,
        PrivTxProveError,
    >)
        requires
            is_sponge(*h),
            self.whole(),
        ensures
            r is Err <==> self.slot_error() is Some,
            r matches Err(e) ==> self.slot_error() == Some(e),
            r matches Ok(p) ==> self.slots_fit() && self.prepared(*h, p),
    {
        let (inotes, onotes) = match self.set_notes_witness(h) {
            Err(e) => {
                return Err(e);
            },
            Ok(s) => s,
        };
        let asset = self.first_asset();
        let accin = AccountTarget::set_witness(&self.accin);
        let spend_key = accin.spend_auth;
        let private = TxCircuitPrivateTargets {
            flags: self.tx_kind_flags,
            approval_key: self.approval_key,
            rejection_key: self.rejection_key,
            subpool_consume_key: self.consume_key,
            accin,
            accout: AccountTarget::set_witness(&self.accout),
            asset_id: asset,
            accin_amt: self.accin.ast.balance(asset),
            accout_amt: self.accout.ast.balance(asset),
            asset_exists_in_accin: self.accin.ast.amount_for(asset).is_some(),
            asset_exists_in_accout: self.accout.ast.amount_for(asset).is_some(),
            accin_act_merkle: copy_path(&self.accin_path),
            accin_ast_merkle: self.asset_leaf(),
            inotes,
            onotes,
            returned: mark_returned(self.rejected_inotes.len()),
            subpool_proof_targets: SubpoolFullProofTargets {
                approval_proof: copy_path(&self.subpool_proof.approval_proof),
                rejection_proof: copy_path(&self.subpool_proof.rejection_proof),
                consume_proof: copy_path(&self.subpool_proof.consume_proof),
                main_pool_proof: copy_path(&self.subpool_proof.main_pool_proof),
                subpool_config_root: self.subpool_proof.subpool_config_root,
            },
        };
        let consume_key = private.consuming_key();
        Ok(
            prepare(
                h,
                &self.accin,
                &self.accout,
                self.state_root,
                self.main_pool_root,
                private,
                spend_key,
                consume_key,
            ),
        )
    }

    /// Whether the wires of the three signatures can be computed.
    pub open spec fn authorizable<H: Fn(Vec<F>, usize) -> Vec<F>>(
        &self,
        h: H,
        v: TxCircuitPrivateTargets,
    ) -> bool {
        &&& wirable(h, v.accin.spend_auth, self.tx_hash, spend_input(self.spend_sig))
        &&& wirable(h, consume_key(v), self.tx_hash, consume_input(self.consume_sig))
        &&& wirable(h, self.approval_key, self.tx_hash, approval_input(self.approval_sig))
    }

    /// Whether wires are those of the three signatures.
    pub open spec fn authorized<H: Fn(Vec<F>, usize) -> Vec<F>>(
        &self,
        h: H,
        v: TxCircuitPrivateTargets,
        t: TxSignatureTargets,
    ) -> bool {
        &&& wired(h, v.accin.spend_auth, self.tx_hash, spend_input(self.spend_sig), t.spend)
        &&& wired(h, consume_key(v), self.tx_hash, consume_input(self.consume_sig), t.consume)
        &&& wired(h, self.approval_key, self.tx_hash, approval_input(self.approval_sig), t.approval)
    }

    /// Computes the wires of the three signatures over the transaction hash, real
    /// or fake ones; `None` where those of one of them cannot be computed.
    pub fn set_authorization_witness<H: Fn(Vec<F>, usize) -> Vec<F>>(
        &self,
        h: &H,
        v: &TxCircuitPrivateTargets,
    ) -> (r: Option<TxSignatureTargets>)
        requires
            is_sponge(*h),
        ensures
            r is Some <==> self.authorizable(*h, *v),
            r matches Some(t) ==> self.authorized(*h, *v, t),
    {
        let spend = real_or_fake(&self.spend_sig, [11, 22, 33, 44, 55], [9, 8, 7, 6, 5]);
        let consume = real_or_fake(
            &self.consume_sig,
            [13, 13, 13, 13, 13],
            [14, 15, 16, 17, 18],
        );
        let approval = real_or_fake(
            &self.approval_sig,
            [21, 22, 23, 24, 25],
            [31, 32, 33, 34, 35],
        );
        assert(spend == spend_input(self.spend_sig));
        assert(consume == consume_input(self.consume_sig));
        assert(approval == approval_input(self.approval_sig));
        match signature_wires(h, &v.accin.spend_auth, &self.tx_hash, &spend) {
            None => None,
            Some(spend) => match signature_wires(
                h,
                &v.consuming_key(),
                &self.tx_hash,
                &consume,
            ) {
                None => None,
                Some(consume) => match signature_wires(
                    h,
                    &self.approval_key,
                    &self.tx_hash,
                    &approval,
                ) {
                    None => None,
                    Some(approval) => Some(TxSignatureTargets { spend, consume, approval }),
                },
            },
        }
    }

    /// Computes all wires of the transaction. `Ok(None)` where those of a signature
    /// cannot be computed.
    pub fn set_witness<H: Fn(Vec<F>, usize) -> Vec<F>>(&self, h: &H) -> (r: Result<
        Option<TxCircuitTargets>,
        PrivTxProveError,
    >)
        requires
            is_sponge(*h),
            self.whole(),
        ensures
            r is Err <==> self.slot_error() is Some,
            r matches Err(e) ==> self.slot_error() == Some(e),
            r matches Ok(None) ==> exists|p: PreparedTx| #[trigger]
                self.prepared(*h, p) && !self.authorizable(*h, p.private),
            r matches Ok(Some(t)) ==> exists|p: PreparedTx| #[trigger]
                self.prepared(*h, p) && t.public == p.public && t.private == p.private
                    && self.authorized(*h, p.private, t.sig_targets),
    {
        match self.set_transaction_witnesses(h) {
            Err(e) => Err(e),
            Ok(p) => {
                assert(self.prepared(*h, p));
                match self.set_authorization_witness(h, &p.private) {
                    None => Ok(None),
                    Some(sig_targets) => Ok(
                        Some(
                            TxCircuitTargets {
                                public: p.public,
                                private: p.private,
                                sig_targets,
                            },
                        ),
                    ),
                }
            },
        }
    }

    /// The slots that are laid out have the nullifiers and commitments that are
    /// computed for the public inputs.
    pub proof fn lemma_slots_agree<H: Fn(Vec<F>, usize) -> Vec<F>>(
        &self,
        h: H,
        i: Seq<InputSlot>,
        o: Seq<OutputSlot>,
    )
        requires
            self.whole(),
            self.slots_fit(),
            self.slots_laid(h, i, o),
        ensures
            effective_nullifiers(h, i, self.accin.spec_nk(h)) == slot_nullifiers(
                h,
                place_all(self.rejected_inotes@, self.rejected_inotes_nct_proofs@),
                place_all(self.inotes@, self.inotes_nct_proofs@),
                self.dinotes@,
                self.accin.spec_nk(h),
            ),
            effective_commitments(h, o) == slot_commitments(
                h,
                self.rejected_inotes@,
                self.onotes@,
                self.donotes@,
            ),
    {
        let nk = self.accin.spec_nk(h);
        let n_rjct = self.rejected_inotes@.len();
        let rejected = place_all(self.rejected_inotes@, self.rejected_inotes_nct_proofs@);
        let inotes = place_all(self.inotes@, self.inotes_nct_proofs@);
        let a = effective_nullifiers(h, i, nk);
        let b = slot_nullifiers(h, rejected, inotes, self.dinotes@, nk);
        assert forall|k: int| 0 <= k < NOTE_BATCH implies a[k] == b[k] by {
            assert(input_laid(
                i[k],
                k,
                self.rejected_inotes@ + self.inotes@,
                self.rejected_inotes_nct_proofs@ + self.inotes_nct_proofs@,
                padded_seeds(n_rjct + self.inotes@.len(), self.dinotes@),
                idle_input(address_of(h, &self.accin), self.asset()),
            ));
        }
        assert(a =~= b);
        let c = effective_commitments(h, o);
        let d = slot_commitments(h, self.rejected_inotes@, self.onotes@, self.donotes@);
        assert forall|k: int| 0 <= k < NOTE_BATCH implies c[k] == d[k] by {
            assert(output_laid(
                o[k],
                k,
                returned_all(self.rejected_inotes@) + self.onotes@,
                padded_seeds(n_rjct + self.onotes@.len(), self.donotes@),
                idle_output(self.asset()),
            ));
        }
        assert(c =~= d);
    }
}

} // verus!
