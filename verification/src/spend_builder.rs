//! Builder for Spend transactions.
use vstd::prelude::*;

use crate::account::{AccountAddress, StandardAccount, SubpoolId};
use crate::addition::{checked_sum, sum_of};
use crate::ast::{balance_of, has_asset, set_balance, AssetId};
use crate::built_priv_tx::{
    commitments_of_slots, nullifiers_of_slots, places_fit, slot_commitments, slot_nullifiers,
    BuiltPrivTx, PlacedNote, SubpoolAuthority,
};
use crate::circuit::SubpoolFullProofTargets;
use crate::ecgfp5::compressed;
use crate::errors::{KeyKind, NoteKind, SpendTxBuilderError, TxSignError};
use crate::field::{F, GOLDILOCKS_ORDER};
use crate::hash::{digest, is_sponge, HashOutput};
use crate::note::{
    derive_priv_tx_hash, priv_tx_preimage, NodeIdentifier, StandardNote,
};
use crate::params::NOTE_BATCH;
use crate::priv_tx::TxKindFlags;
use crate::scalar::Scalar;
use crate::schnorr::{
    can_sign, compressed_public_key, is_signature, schnorr_sign, CompPubKey, PrivateKey, Signature,
};
use crate::tree::MerkleProof;
use crate::tx_witness::{address_of, amounts_of, note_amounts};
use crate::u256::{u256_bound, U256};

verus! {

/// Builder for constructing spend transactions with validation.
pub struct SpendTxBuilder {
    /// Input account (must exist in state tree)
    pub accin: StandardAccount,
    /// Asset being transacted
    pub asset_id: AssetId,
    /// Accumulated input notes with their positions
    pub input_notes: Vec<PlacedNote>,
    /// Accumulated output notes
    pub output_notes: Vec<StandardNote>,
    /// Rejected input notes with their positions (returned to sender)
    pub rejected_notes: Vec<PlacedNote>,
    /// Dummy input note seeds
    pub dinotes: Option<Vec<HashOutput>>,
    /// Dummy output note seeds
    pub donotes: Option<Vec<HashOutput>>,
}

/// Information about which signatures are required for a transaction.
#[derive(Clone, Copy, Debug, PartialEq, Eq, Structural)]
pub struct RequiredSignatures {
    pub spend: bool,
    pub consume: bool,
    pub approval: bool,
}

/// Validated, ready-to-sign spend transaction.
pub struct BuiltSpendTx {
    /// Original input account
    pub accin: StandardAccount,
    /// Derived output account (nonce+1, balance updated)
    pub accout: StandardAccount,
    /// Rejected input notes with their positions
    pub rejected_inotes: Vec<PlacedNote>,
    /// Input notes with their positions
    pub inotes: Vec<PlacedNote>,
    /// Output notes
    pub onotes: Vec<StandardNote>,
    /// Dummy input note seeds
    pub dinotes: Vec<HashOutput>,
    /// Dummy output note seeds
    pub donotes: Vec<HashOutput>,
    /// Transaction hash
    pub tx_hash: HashOutput,
    /// Subpool ID (from accin)
    pub subpool_id: SubpoolId,
    /// Proof of accin's commitment (set via with_account_path)
    pub accin_proof: Option<MerkleProof>,
    /// Proofs of input note commitments (set via with_input_notes_path)
    pub inotes_nct_proofs: Option<Vec<MerkleProof>>,
    /// Proofs of rejected note commitments (set via with_rejected_notes_path)
    pub rejected_inotes_nct_proofs: Option<Vec<MerkleProof>>,
    /// Authority keys of the subpool (set via with_subpool_proof)
    pub subpool_proof: Option<SubpoolAuthority>,
    /// Spend signature (set via spend_sign)
    pub spend_sig: Option<Signature>,
    /// Consume signature (set via consume_sign)
    pub consume_sig: Option<Signature>,
    /// Approval signature (set via approval_sign)
    pub approval_sig: Option<Signature>,
}

/// The notes of placed notes.
pub open spec fn notes_of(s: Seq<PlacedNote>) -> Seq<StandardNote> {
    s.map_values(|n: PlacedNote| n.note)
}

pub(crate) fn take_notes(s: &Vec<PlacedNote>) -> (r: Vec<StandardNote>)
    ensures
        r@ == notes_of(s@),
{
    let mut v: Vec<StandardNote> = Vec::new();
    let mut i: usize = 0;
    while i < s.len()
        invariant
            i <= s@.len(),
            v@ == notes_of(s@).take(i as int),
        decreases s@.len() - i,
    {
        v.push(s[i].note);
        i += 1;
        assert(v@ =~= notes_of(s@).take(i as int));
    }
    assert(v@ =~= notes_of(s@));
    v
}

/// Whether every note is of an asset and for an account.
pub open spec fn notes_match(s: Seq<PlacedNote>, asset: AssetId, owner: AccountAddress) -> bool {
    forall|i: int|
        0 <= i < s.len() ==> (#[trigger] s[i]).note.asset_id == asset && s[i].note.recipient
            == owner
}

impl SpendTxBuilder {
    /// What every step of the builder keeps: the account is active, the notes fit
    /// the slots, the input notes are the account's, all notes are of the asset, and
    /// the dummies that were filled in suffice.
    pub open spec fn wf<H: Fn(Vec<F>, usize) -> Vec<F>>(&self, h: H) -> bool {
        &&& self.accin.wf(h)
        &&& self.accin.nonce.0 != F::of(0)
        &&& self.rejected_notes@.len() + self.input_notes@.len() <= NOTE_BATCH
        &&& self.rejected_notes@.len() + self.output_notes@.len() <= NOTE_BATCH
        &&& places_fit(self.input_notes@)
        &&& places_fit(self.rejected_notes@)
        &&& notes_match(self.input_notes@, self.asset_id, address_of(h, &self.accin))
        &&& notes_match(self.rejected_notes@, self.asset_id, address_of(h, &self.accin))
        &&& forall|i: int|
            0 <= i < self.output_notes@.len() ==> (#[trigger] self.output_notes@[i]).asset_id
                == self.asset_id
        &&& self.dinotes matches Some(d) ==> self.rejected_notes@.len() + self.input_notes@.len()
            + d@.len() >= NOTE_BATCH
        &&& self.donotes matches Some(d) ==> self.rejected_notes@.len() + self.output_notes@.len()
            + d@.len() >= NOTE_BATCH
    }

    /// Create a new spend transaction builder.
    ///
    /// # Errors
    /// - `AccountNotInitialized`: account has nonce=0 (must perform FreshAcc first)
    pub fn new<H: Fn(Vec<F>, usize) -> Vec<F>>(h: &H, accin: StandardAccount, asset_id: AssetId) -> (r:
        Result<Self, SpendTxBuilderError>)
        requires
            accin.wf(*h),
        ensures
            r is Err <==> accin.nonce.0 == F::of(0),
            r matches Err(e) ==> e == SpendTxBuilderError::AccountNotInitialized,
            r matches Ok(b) ==> {
                &&& b.wf(*h)
                &&& b.accin == accin
                &&& b.asset_id == asset_id
                &&& b.input_notes@.len() == 0
                &&& b.output_notes@.len() == 0
                &&& b.rejected_notes@.len() == 0
                &&& b.dinotes is None
                &&& b.donotes is None
            },
    {
        if accin.nonce.0 == F::zero() {
            return Err(SpendTxBuilderError::AccountNotInitialized);
        }
        Ok(
            SpendTxBuilder {
                accin,
                asset_id,
                input_notes: Vec::new(),
                output_notes: Vec::new(),
                rejected_notes: Vec::new(),
                dinotes: None,
                donotes: None,
            },
        )
    }

    /// Add an input note to consume.
    ///
    /// # Errors
    /// - `NoteBatchLimitReached`: all slots are taken
    /// - `AssetMismatch`: the note is of another asset
    /// - `RecipientMismatch`: the note is not for accin
    pub fn add_input_note<H: Fn(Vec<F>, usize) -> Vec<F>>(
        self,
        h: &H,
        note: StandardNote,
        position: usize,
    ) -> (r: Result<Self, SpendTxBuilderError>)
        requires
            is_sponge(*h),
            self.wf(*h),
            position < GOLDILOCKS_ORDER,
        ensures
            r matches Ok(b) ==> {
                &&& b.wf(*h)
                &&& b.accin == self.accin
                &&& b.asset_id == self.asset_id
                &&& b.input_notes@ == self.input_notes@.push(PlacedNote { note, position })
                &&& b.output_notes == self.output_notes
                &&& b.rejected_notes == self.rejected_notes
                &&& b.dinotes == self.dinotes
                &&& b.donotes == self.donotes
            },
            r is Ok <==> {
                &&& self.rejected_notes@.len() + self.input_notes@.len() < NOTE_BATCH
                &&& note.asset_id == self.asset_id
                &&& note.recipient == address_of(*h, &self.accin)
            },
            r matches Err(e) ==> e == (if self.rejected_notes@.len() + self.input_notes@.len()
                >= NOTE_BATCH {
                SpendTxBuilderError::NoteBatchLimitReached {
                    kind: NoteKind::Input,
                    limit: NOTE_BATCH,
                }
            } else if note.asset_id != self.asset_id {
                SpendTxBuilderError::AssetMismatch { expected: self.asset_id, got: note.asset_id }
            } else {
                SpendTxBuilderError::RecipientMismatch
            }),
    {
        let mut this = self;
        if this.rejected_notes.len() + this.input_notes.len() + 1 > NOTE_BATCH {
            return Err(
                SpendTxBuilderError::NoteBatchLimitReached {
                    kind: NoteKind::Input,
                    limit: NOTE_BATCH,
                },
            );
        }
        if note.asset_id != this.asset_id {
            return Err(
                SpendTxBuilderError::AssetMismatch { expected: this.asset_id, got: note.asset_id },
            );
        }
        if note.recipient != AccountAddress::from_acc(h, &this.accin) {
            return Err(SpendTxBuilderError::RecipientMismatch);
        }
        this.input_notes.push(PlacedNote { note, position });
        Ok(this)
    }

    /// Add an output note to create, with a sampled identifier.
    ///
    /// # Errors
    /// - `NoteBatchLimitReached`: all slots are taken
    pub fn add_output_note<H: Fn(Vec<F>, usize) -> Vec<F>>(
        self,
        h: &H,
        recipient: AccountAddress,
        amount: U256,
        identifier: NodeIdentifier,
    ) -> (r: Result<Self, SpendTxBuilderError>)
        requires
            is_sponge(*h),
            self.wf(*h),
        ensures
            r is Ok <==> self.rejected_notes@.len() + self.output_notes@.len() < NOTE_BATCH,
            r matches Err(e) ==> e == (SpendTxBuilderError::NoteBatchLimitReached {
                kind: NoteKind::Output,
                limit: NOTE_BATCH,
            }),
            r matches Ok(b) ==> {
                &&& b.wf(*h)
                &&& b.accin == self.accin
                &&& b.asset_id == self.asset_id
                &&& b.input_notes == self.input_notes
                &&& b.output_notes@ == self.output_notes@.push(
                    StandardNote {
                        identifier,
                        asset_id: self.asset_id,
                        amt: amount,
                        recipient,
                        sender: address_of(*h, &self.accin),
                    },
                )
                &&& b.rejected_notes == self.rejected_notes
                &&& b.dinotes == self.dinotes
                &&& b.donotes == self.donotes
            },
    {
        let mut this = self;
        if this.rejected_notes.len() + this.output_notes.len() + 1 > NOTE_BATCH {
            return Err(
                SpendTxBuilderError::NoteBatchLimitReached {
                    kind: NoteKind::Output,
                    limit: NOTE_BATCH,
                },
            );
        }
        let sender = AccountAddress::from_acc(h, &this.accin);
        this.output_notes.push(
            StandardNote::new(identifier, this.asset_id, amount, recipient, sender),
        );
        Ok(this)
    }

    /// Add a rejected input note (will be returned to its original sender).
    ///
    /// # Errors
    /// - `NoteBatchLimitReached`: all slots of the inputs or of the outputs are taken
    /// - `AssetMismatch`: the note is of another asset
    /// - `RecipientMismatch`: the note is not for accin
    pub fn add_rejected_note<H: Fn(Vec<F>, usize) -> Vec<F>>(
        self,
        h: &H,
        note: StandardNote,
        position: usize,
    ) -> (r: Result<Self, SpendTxBuilderError>)
        requires
            is_sponge(*h),
            self.wf(*h),
            position < GOLDILOCKS_ORDER,
        ensures
            r matches Ok(b) ==> {
                &&& b.wf(*h)
                &&& b.accin == self.accin
                &&& b.asset_id == self.asset_id
                &&& b.input_notes == self.input_notes
                &&& b.output_notes == self.output_notes
                &&& b.rejected_notes@ == self.rejected_notes@.push(PlacedNote { note, position })
                &&& b.dinotes == self.dinotes
                &&& b.donotes == self.donotes
            },
            r is Ok <==> {
                &&& self.rejected_notes@.len() + self.input_notes@.len() < NOTE_BATCH
                &&& self.rejected_notes@.len() + self.output_notes@.len() < NOTE_BATCH
                &&& note.asset_id == self.asset_id
                &&& note.recipient == address_of(*h, &self.accin)
            },
            r matches Err(e) ==> e == (if self.rejected_notes@.len() + self.input_notes@.len()
                >= NOTE_BATCH || self.rejected_notes@.len() + self.output_notes@.len()
                >= NOTE_BATCH {
                SpendTxBuilderError::NoteBatchLimitReached {
                    kind: NoteKind::Rejected,
                    limit: NOTE_BATCH,
                }
            } else if note.asset_id != self.asset_id {
                SpendTxBuilderError::AssetMismatch { expected: self.asset_id, got: note.asset_id }
            } else {
                SpendTxBuilderError::RecipientMismatch
            }),
    {
        let mut this = self;
        let n: usize = if this.input_notes.len() > this.output_notes.len() {
            this.input_notes.len()
        } else {
            this.output_notes.len()
        };
        if this.rejected_notes.len() + 1 + n > NOTE_BATCH {
            return Err(
                SpendTxBuilderError::NoteBatchLimitReached {
                    kind: NoteKind::Rejected,
                    limit: NOTE_BATCH,
                },
            );
        }
        if note.asset_id != this.asset_id {
            return Err(
                SpendTxBuilderError::AssetMismatch { expected: this.asset_id, got: note.asset_id },
            );
        }
        if note.recipient != AccountAddress::from_acc(h, &this.accin) {
            return Err(SpendTxBuilderError::RecipientMismatch);
        }
        this.rejected_notes.push(PlacedNote { note, position });
        Ok(this)
    }

    /// Number of input slots that no note takes.
    pub fn free_inputs(&self) -> (r: usize)
        requires
            self.rejected_notes@.len() + self.input_notes@.len() <= NOTE_BATCH,
        ensures
            r == NOTE_BATCH - self.input_notes@.len() - self.rejected_notes@.len(),
    {
        NOTE_BATCH - self.input_notes.len() - self.rejected_notes.len()
    }

    /// Number of output slots that no note takes.
    pub fn free_outputs(&self) -> (r: usize)
        requires
            self.rejected_notes@.len() + self.output_notes@.len() <= NOTE_BATCH,
        ensures
            r == NOTE_BATCH - self.output_notes@.len() - self.rejected_notes@.len(),
    {
        NOTE_BATCH - self.output_notes.len() - self.rejected_notes.len()
    }

    /// Set sampled dummy input note seeds for the free input slots.
    pub fn fill_dinotes<H: Fn(Vec<F>, usize) -> Vec<F>>(self, h: &H, seeds: Vec<HashOutput>) -> (r:
        Self)
        requires
            self.wf(*h),
            seeds@.len() == NOTE_BATCH - self.input_notes@.len() - self.rejected_notes@.len(),
        ensures
            r.wf(*h),
            r == (SpendTxBuilder { dinotes: Some(seeds), ..self }),
    {
        let mut this = self;
        this.dinotes = Some(seeds);
        this
    }

    /// Set sampled dummy output note seeds for the free output slots.
    pub fn fill_donotes<H: Fn(Vec<F>, usize) -> Vec<F>>(self, h: &H, seeds: Vec<HashOutput>) -> (r:
        Self)
        requires
            self.wf(*h),
            seeds@.len() == NOTE_BATCH - self.output_notes@.len() - self.rejected_notes@.len(),
        ensures
            r.wf(*h),
            r == (SpendTxBuilder { donotes: Some(seeds), ..self }),
    {
        let mut this = self;
        this.donotes = Some(seeds);
        this
    }

    /// The balance of the asset before the transaction.
    pub open spec fn old_balance(&self) -> nat {
        balance_of(self.accin.ast@, self.asset_id)
    }

    /// What the input notes bring in.
    pub open spec fn delta_in(&self) -> nat {
        sum_of(amounts_of(notes_of(self.input_notes@)))
    }

    /// What the output notes take out.
    pub open spec fn delta_out(&self) -> nat {
        sum_of(amounts_of(self.output_notes@))
    }

    /// Whether the balance covers the outputs, and the sum of balance and inputs
    /// fits in 256 bits.
    pub open spec fn covered(&self) -> bool {
        &&& self.old_balance() + self.delta_in() < u256_bound()
        &&& self.old_balance() + self.delta_in() >= self.delta_out()
    }

    /// Whether a built transaction is the one of this builder: it has a note, the output account
    /// has the nonce incremented and the balance changed by the notes, and the
    /// hash is that of the nullifiers and commitments of all slots.
    pub open spec fn built<H: Fn(Vec<F>, usize) -> Vec<F>>(&self, h: H, t: BuiltSpendTx) -> bool {
        &&& self.has_notes()
        &&& t.accin == self.accin
        &&& t.accout.wf(h)
        &&& t.accout.private_identifier == self.accin.private_identifier
        &&& t.accout.subpool_id == self.accin.subpool_id
        &&& t.accout.nonce.0 == self.accin.nonce.0 + F::of(1)
        &&& t.accout.spend_auth == self.accin.spend_auth
        &&& t.accout.consume_auth == self.accin.consume_auth
        &&& exists|amt: U256|
            amt.value() == self.old_balance() + self.delta_in() - self.delta_out()
                && #[trigger] set_balance(self.accin.ast@, self.asset_id, amt, t.accout.ast@)
        &&& t.rejected_inotes == self.rejected_notes
        &&& t.inotes == self.input_notes
        &&& t.onotes == self.output_notes
        &&& self.dinotes == Some(t.dinotes)
        &&& self.donotes == Some(t.donotes)
        &&& t.tx_hash == digest(
            h,
            priv_tx_preimage(
                self.accin.spec_nullifier(h),
                t.accout.spec_commitment(h),
                slot_nullifiers(
                    h,
                    self.rejected_notes@,
                    self.input_notes@,
                    t.dinotes@,
                    self.accin.spec_nk(h),
                ),
                slot_commitments(
                    h,
                    notes_of(self.rejected_notes@),
                    self.output_notes@,
                    t.donotes@,
                ),
            ),
        )
        &&& t.subpool_id == self.accin.subpool_id
        &&& t.accin_proof is None
        &&& t.inotes_nct_proofs is None
        &&& t.rejected_inotes_nct_proofs is None
        &&& t.subpool_proof is None
        &&& t.spend_sig is None
        &&& t.consume_sig is None
        &&& t.approval_sig is None
    }

    /// Whether there is a note at all.
    pub open spec fn has_notes(&self) -> bool {
        self.input_notes@.len() > 0 || self.output_notes@.len() > 0 || self.rejected_notes@.len()
            > 0
    }

    /// Validate inputs and compute all derived values.
    ///
    /// # Errors
    /// - `NoActiveNotes`: must have at least one input, output, or rejected note
    /// - `InsufficientBalance`: outputs exceed inputs + existing balance
    /// - `DummyNotesNotFilled`: `fill_dinotes()` or `fill_donotes()` was not called
    pub fn build<H: Fn(Vec<F>, usize) -> Vec<F>>(self, h: &H) -> (r: Result<
        BuiltSpendTx,
        SpendTxBuilderError,
    >)
        requires
            is_sponge(*h),
            self.wf(*h),
            self.delta_in() < u256_bound(),
            self.delta_out() < u256_bound(),
            has_asset(self.accin.ast@, self.asset_id) || self.accin.ast@.len() < 1024,
        ensures
            r is Ok <==> self.has_notes() && self.covered() && self.dinotes is Some
                && self.donotes is Some,
            r matches Ok(t) ==> self.built(*h, t),
            r matches Err(e) ==> if !self.has_notes() {
                e == SpendTxBuilderError::NoActiveNotes
            } else if !self.covered() {
                e matches SpendTxBuilderError::InsufficientBalance {
                    old_balance,
                    delta_in,
                    delta_out,
                } && old_balance.value() == self.old_balance() && delta_in.value()
                    == self.delta_in() && delta_out.value() == self.delta_out()
            } else if self.dinotes is None {
                e == (SpendTxBuilderError::DummyNotesNotFilled { kind: NoteKind::Input })
            } else {
                e == (SpendTxBuilderError::DummyNotesNotFilled { kind: NoteKind::Output })
            },
    {
        let ghost start = self;
        if self.input_notes.len() == 0 && self.output_notes.len() == 0 && self.rejected_notes.len()
            == 0 {
            return Err(SpendTxBuilderError::NoActiveNotes);
        }
        let subpool_id = self.accin.subpool_id;
        let ins = note_amounts(&take_notes(&self.input_notes));
        let outs = note_amounts(&self.output_notes);
        let mut delta_in = U256::zero();
        if let Some(s) = checked_sum(ins.as_slice()) {
            delta_in = s;
        }
        let mut delta_out = U256::zero();
        if let Some(s) = checked_sum(outs.as_slice()) {
            delta_out = s;
        }
        let old_bal = self.accin.ast.balance(self.asset_id);
        let new_bal = match old_bal.checked_add(delta_in) {
            None => {
                return Err(
                    SpendTxBuilderError::InsufficientBalance {
                        old_balance: old_bal,
                        delta_in,
                        delta_out,
                    },
                );
            },
            Some(b) => match b.checked_sub(delta_out) {
                None => {
                    return Err(
                        SpendTxBuilderError::InsufficientBalance {
                            old_balance: old_bal,
                            delta_in,
                            delta_out,
                        },
                    );
                },
                Some(n) => n,
            },
        };
        let mut accout = self.accin.clone_with_incremented_nonce();
        proof {
            accout.lemma_copy_wf(&self.accin, *h);
        }
        let _ = accout.ast.insert_or_update_asset(h, self.asset_id, new_bal);
        assert(set_balance(self.accin.ast@, self.asset_id, new_bal, accout.ast@));
        let accin_null = self.accin.nullifier(h);
        let nk = self.accin.nk(h);
        let accout_comm = accout.commitment(h);
        let SpendTxBuilder {
            accin,
            asset_id,
            input_notes,
            output_notes,
            rejected_notes,
            dinotes,
            donotes,
        } = self;
        let dinotes = match dinotes {
            None => {
                return Err(SpendTxBuilderError::DummyNotesNotFilled { kind: NoteKind::Input });
            },
            Some(d) => d,
        };
        let donotes = match donotes {
            None => {
                return Err(SpendTxBuilderError::DummyNotesNotFilled { kind: NoteKind::Output });
            },
            Some(d) => d,
        };
        let nulls = nullifiers_of_slots(h, &rejected_notes, &input_notes, &dinotes, &nk);
        let back = take_notes(&rejected_notes);
        let comms = commitments_of_slots(h, &back, &output_notes, &donotes);
        let tx_hash = derive_priv_tx_hash(h, accin_null, accout_comm, &nulls, &comms);
        Ok(
            BuiltSpendTx {
                accin,
                accout,
                rejected_inotes: rejected_notes,
                inotes: input_notes,
                onotes: output_notes,
                dinotes,
                donotes,
                tx_hash,
                subpool_id,
                accin_proof: None,
                inotes_nct_proofs: None,
                rejected_inotes_nct_proofs: None,
                subpool_proof: None,
                spend_sig: None,
                consume_sig: None,
                approval_sig: None,
            },
        )
    }
}

/// The compressed public key of a private key, in contracts.
pub open spec fn key_of_secret(sk: PrivateKey, k: CompPubKey) -> bool {
    k.0.w == compressed(sk.public_point())
}

/// The compressed public key of a key that signs.
pub(crate) fn signer_key(sk: &PrivateKey) -> (r: CompPubKey)
    ensures
        key_of_secret(*sk, r),
{
    compressed_public_key(sk)
}

/// Why a signature is refused, for the key that an account has set.
pub open spec fn refuses_key(expected: CompPubKey, sk: PrivateKey) -> bool {
    expected.0.w != compressed(sk.public_point())
}

impl BuiltSpendTx {
    /// Whether there is no input note, rejected or not.
    pub open spec fn no_input_notes(&self) -> bool {
        self.inotes@.len() == 0 && self.rejected_inotes@.len() == 0
    }

    /// Generate and store a consume signature for this transaction, with a sampled
    /// nonce.
    ///
    /// Required only when there are active input notes, no output notes, and
    /// consume auth is non-delegated.
    ///
    /// # Errors
    /// - `ConsumeNotRequired`: no input notes or has output notes
    /// - `ConsumeDelegated`: consume auth is delegated
    /// - `ConsumeKeyNotSet`: the account has no consume key
    /// - `KeyMismatch`: provided key doesn't match the account's
    pub fn consume_sign<H: Fn(Vec<F>, usize) -> Vec<F>>(self, h: &H, consume_sk: &PrivateKey, k: Scalar) -> (r:
        Result<Self, TxSignError>)
        requires
            is_sponge(*h),
            can_sign(*consume_sk, k),
        ensures
            r is Ok <==> {
                &&& !self.no_input_notes()
                &&& self.onotes@.len() == 0
                &&& self.accin.consume_auth.config
                &&& self.accin.consume_auth.pk is Some
                &&& !refuses_key(self.accin.consume_auth.pk->0, *consume_sk)
            },
            r matches Ok(t) ==> {
                &&& t.consume_sig is Some
                &&& is_signature(*h, *consume_sk, self.tx_hash.elements(), k, t.consume_sig->0)
                &&& t == (BuiltSpendTx { consume_sig: t.consume_sig, ..self })
            },
            r matches Err(e) ==> if self.no_input_notes() || self.onotes@.len() > 0 {
                e == (TxSignError::ConsumeNotRequired {
                    has_input_notes: !self.no_input_notes(),
                    has_output_notes: self.onotes@.len() > 0,
                })
            } else if !self.accin.consume_auth.config {
                e == TxSignError::ConsumeDelegated
            } else if self.accin.consume_auth.pk is None {
                e == TxSignError::ConsumeKeyNotSet
            } else {
                e matches TxSignError::KeyMismatch { key_type, expected, provided } && key_type
                    == KeyKind::Consume && expected == self.accin.consume_auth.pk->0
                    && key_of_secret(*consume_sk, provided)
            },
    {
        let mut this = self;
        let no_input_notes = this.inotes.len() == 0 && this.rejected_inotes.len() == 0;
        let has_output_notes = this.onotes.len() > 0;
        if no_input_notes || has_output_notes {
            return Err(
                TxSignError::ConsumeNotRequired {
                    has_input_notes: !no_input_notes,
                    has_output_notes,
                },
            );
        }
        if !this.accin.consume_auth.config {
            return Err(TxSignError::ConsumeDelegated);
        }
        let expected = match this.accin.consume_auth.pk {
            None => {
                return Err(TxSignError::ConsumeKeyNotSet);
            },
            Some(k) => k,
        };
        let provided = signer_key(consume_sk);
        if expected.0.w != provided.0.w {
            return Err(
                TxSignError::KeyMismatch { key_type: KeyKind::Consume, expected, provided },
            );
        }
        let m = this.tx_hash.to_elements();
        this.consume_sig = Some(schnorr_sign(h, consume_sk, m.as_slice(), k));
        Ok(this)
    }

    /// Generate and store a spend signature for this transaction, with a sampled
    /// nonce.
    ///
    /// Required when there are active output notes.
    ///
    /// # Errors
    /// - `SpendNotRequired`: no output notes exist
    /// - `SpendKeyNotSet`: the account has no spend key
    /// - `KeyMismatch`: provided key doesn't match the account's
    pub fn spend_sign<H: Fn(Vec<F>, usize) -> Vec<F>>(self, h: &H, spend_sk: &PrivateKey, k: Scalar) -> (r:
        Result<Self, TxSignError>)
        requires
            is_sponge(*h),
            can_sign(*spend_sk, k),
        ensures
            r is Ok <==> {
                &&& self.onotes@.len() > 0
                &&& self.accin.spend_auth.spend_pk is Some
                &&& !refuses_key(self.accin.spend_auth.spend_pk->0, *spend_sk)
            },
            r matches Ok(t) ==> {
                &&& t.spend_sig is Some
                &&& is_signature(*h, *spend_sk, self.tx_hash.elements(), k, t.spend_sig->0)
                &&& t == (BuiltSpendTx { spend_sig: t.spend_sig, ..self })
            },
            r matches Err(e) ==> if self.onotes@.len() == 0 {
                e == TxSignError::SpendNotRequired
            } else if self.accin.spend_auth.spend_pk is None {
                e == TxSignError::SpendKeyNotSet
            } else {
                e matches TxSignError::KeyMismatch { key_type, expected, provided } && key_type
                    == KeyKind::Spend && expected == self.accin.spend_auth.spend_pk->0
                    && key_of_secret(*spend_sk, provided)
            },
    {
        let mut this = self;
        if this.onotes.len() == 0 {
            return Err(TxSignError::SpendNotRequired);
        }
        let expected = match this.accin.spend_auth.spend_pk {
            None => {
                return Err(TxSignError::SpendKeyNotSet);
            },
            Some(k) => k,
        };
        let provided = signer_key(spend_sk);
        if expected.0.w != provided.0.w {
            return Err(TxSignError::KeyMismatch { key_type: KeyKind::Spend, expected, provided });
        }
        let m = this.tx_hash.to_elements();
        this.spend_sig = Some(schnorr_sign(h, spend_sk, m.as_slice(), k));
        Ok(this)
    }

    /// Generate and store an approval signature for this transaction, with a
    /// sampled nonce. It is required for every spend transaction.
    pub fn approval_sign<H: Fn(Vec<F>, usize) -> Vec<F>>(
        self,
        h: &H,
        approval_sk: &PrivateKey,
        k: Scalar,
    ) -> (t: Self)
        requires
            is_sponge(*h),
            can_sign(*approval_sk, k),
        ensures
            t.approval_sig is Some,
            is_signature(*h, *approval_sk, self.tx_hash.elements(), k, t.approval_sig->0),
            t == (BuiltSpendTx { approval_sig: t.approval_sig, ..self }),
    {
        let mut this = self;
        let m = this.tx_hash.to_elements();
        this.approval_sig = Some(schnorr_sign(h, approval_sk, m.as_slice(), k));
        this
    }

    /// Get the transaction hash that needs to be signed.
    pub fn tx_hash(&self) -> (r: HashOutput)
        ensures
            r == self.tx_hash,
    {
        self.tx_hash
    }

    /// Provide the merkle proof for the account commitment in the state tree.
    pub fn with_account_path(self, accin_proof: MerkleProof) -> (t: Self)
        ensures
            t == (BuiltSpendTx { accin_proof: Some(accin_proof), ..self }),
    {
        let mut this = self;
        this.accin_proof = Some(accin_proof);
        this
    }

    /// Provide merkle proofs for the input note commitments, in the order in which
    /// the notes were added.
    pub fn with_input_notes_path(self, inotes_proofs: Vec<MerkleProof>) -> (t: Self)
        ensures
            t == (BuiltSpendTx { inotes_nct_proofs: Some(inotes_proofs), ..self }),
    {
        let mut this = self;
        this.inotes_nct_proofs = Some(inotes_proofs);
        this
    }

    /// Provide merkle proofs for the rejected note commitments, in the order in
    /// which the notes were added.
    pub fn with_rejected_notes_path(self, rejected_proofs: Vec<MerkleProof>) -> (t: Self)
        ensures
            t == (BuiltSpendTx { rejected_inotes_nct_proofs: Some(rejected_proofs), ..self }),
    {
        let mut this = self;
        this.rejected_inotes_nct_proofs = Some(rejected_proofs);
        this
    }

    /// Provide the authority keys of the subpool, with their proofs.
    pub fn with_subpool_proof(self, subpool_proof: SubpoolAuthority) -> (t: Self)
        ensures
            t == (BuiltSpendTx { subpool_proof: Some(subpool_proof), ..self }),
    {
        let mut this = self;
        this.subpool_proof = Some(subpool_proof);
        this
    }

    /// The signatures that this transaction requires, in contracts: a spend signature
    /// where it makes notes; a consume signature where it consumes notes without
    /// making any and the account has a consume key of its own; the approval always.
    pub open spec fn required(&self) -> RequiredSignatures {
        RequiredSignatures {
            spend: self.onotes@.len() > 0,
            consume: self.inotes@.len() > 0 && self.onotes@.len() == 0
                && self.accin.consume_auth.config,
            approval: true,
        }
    }

    /// Check which signatures are required for this transaction.
    pub fn required_signatures(&self) -> (r: RequiredSignatures)
        ensures
            r == self.required(),
    {
        RequiredSignatures {
            spend: self.onotes.len() > 0,
            consume: self.inotes.len() > 0 && self.onotes.len() == 0
                && self.accin.consume_auth.config,
            approval: true,
        }
    }

    /// Whether this is the transaction with its proofs, in the form common to all
    /// kinds.
    pub open spec fn completed(&self, t: BuiltPrivTx) -> bool {
        let authority = self.subpool_proof->0;
        &&& t.tx_kind_flags == (TxKindFlags {
            is_rjct: false,
            is_fresh_acc: false,
            is_update_auth: false,
            is_priv_tx: true,
            not_fake_tx: true,
        })
        &&& t.accin == self.accin
        &&& t.accout == self.accout
        &&& t.accin_path == self.accin_proof->0.path
        &&& t.rejected_inotes@ == notes_of(self.rejected_inotes@)
        &&& t.rejected_inotes_nct_proofs == self.rejected_inotes_nct_proofs->0
        &&& t.inotes@ == notes_of(self.inotes@)
        &&& t.inotes_nct_proofs == self.inotes_nct_proofs->0
        &&& t.onotes == self.onotes
        &&& t.dinotes == self.dinotes
        &&& t.donotes == self.donotes
        &&& t.tx_hash == self.tx_hash
        &&& t.state_root == self.accin_proof->0.root
        &&& t.subpool_id == self.subpool_id
        &&& t.main_pool_root == authority.proofs.main_pool_proof.root
        &&& t.subpool_proof.approval_proof@ == authority.proofs.approval_proof.path@
        &&& t.subpool_proof.rejection_proof@ == authority.proofs.rejection_proof.path@
        &&& t.subpool_proof.consume_proof@ == authority.proofs.consume_proof.path@
        &&& t.subpool_proof.main_pool_proof@ == authority.proofs.main_pool_proof.path@
        &&& t.subpool_proof.subpool_config_root == authority.config_root
        &&& t.approval_key == authority.approval_key
        &&& t.rejection_key == authority.rejection_key
        &&& t.consume_key == authority.consume_key
        &&& t.spend_sig == self.spend_sig
        &&& t.consume_sig == self.consume_sig
        &&& t.approval_sig == self.approval_sig
    }

    /// Convert this built spend transaction to a unified [`BuiltPrivTx`].
    ///
    /// # Errors
    /// - `AccountPathNotSet`: `with_account_path` was not called
    /// - `NotePathsNotSet`: note paths were not set
    /// - `SubpoolProofNotSet`: `with_subpool_proof` was not called
    pub fn into_priv_tx(self) -> (r: Result<BuiltPrivTx, SpendTxBuilderError>)
        ensures
            r is Ok <==> {
                &&& self.accin_proof is Some
                &&& self.inotes_nct_proofs is Some
                &&& self.rejected_inotes_nct_proofs is Some
                &&& self.subpool_proof is Some
            },
            r matches Err(e) ==> e == (if self.accin_proof is None {
                SpendTxBuilderError::AccountPathNotSet
            } else if self.inotes_nct_proofs is None || self.rejected_inotes_nct_proofs is None {
                SpendTxBuilderError::NotePathsNotSet
            } else {
                SpendTxBuilderError::SubpoolProofNotSet
            }),
            r matches Ok(t) ==> self.completed(t),
    {
        let rejected_inotes = take_notes(&self.rejected_inotes);
        let inotes = take_notes(&self.inotes);
        let BuiltSpendTx {
            accin,
            accout,
            rejected_inotes: _,
            inotes: _,
            onotes,
            dinotes,
            donotes,
            tx_hash,
            subpool_id,
            accin_proof,
            inotes_nct_proofs,
            rejected_inotes_nct_proofs,
            subpool_proof,
            spend_sig,
            consume_sig,
            approval_sig,
        } = self;
        let accin_proof = match accin_proof {
            None => {
                return Err(SpendTxBuilderError::AccountPathNotSet);
            },
            Some(p) => p,
        };
        let inotes_nct_proofs = match inotes_nct_proofs {
            None => {
                return Err(SpendTxBuilderError::NotePathsNotSet);
            },
            Some(p) => p,
        };
        let rejected_inotes_nct_proofs = match rejected_inotes_nct_proofs {
            None => {
                return Err(SpendTxBuilderError::NotePathsNotSet);
            },
            Some(p) => p,
        };
        let authority = match subpool_proof {
            None => {
                return Err(SpendTxBuilderError::SubpoolProofNotSet);
            },
            Some(p) => p,
        };
        Ok(
            BuiltPrivTx {
                tx_kind_flags: TxKindFlags::spend(),
                accin,
                accout,
                state_root: accin_proof.root,
                accin_path: accin_proof.path,
                rejected_inotes,
                rejected_inotes_nct_proofs,
                inotes,
                inotes_nct_proofs,
                onotes,
                dinotes,
                donotes,
                tx_hash,
                subpool_id,
                main_pool_root: authority.proofs.main_pool_proof.root,
                subpool_proof: SubpoolFullProofTargets::set_witness(
                    &authority.proofs,
                    authority.config_root,
                ),
                approval_key: authority.approval_key,
                rejection_key: authority.rejection_key,
                consume_key: authority.consume_key,
                spend_sig,
                consume_sig,
                approval_sig,
            },
        )
    }
}

} // verus!
