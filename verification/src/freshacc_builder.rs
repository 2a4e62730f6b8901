//! Builder for FreshAcc transactions.
use vstd::prelude::*;

use crate::account::{ConsumeAuth, SpendAuth, StandardAccount, SubpoolId};
use crate::built_priv_tx::{
    commitments_of_slots, nullifiers_of_slots, slot_commitments, slot_nullifiers, BuiltPrivTx,
    SubpoolAuthority,
};
use crate::circuit::{dummy_path, set_dummy_witness, SubpoolFullProofTargets};
use crate::errors::{FreshAccTxBuilderError, NoteKind};
use crate::field::F;
use crate::hash::{digest, is_sponge, HashOutput};
use crate::note::{derive_priv_tx_hash, priv_tx_preimage};
use crate::params::{NOTE_BATCH, STATE_TREE_DEPTH};
use crate::priv_tx::TxKindFlags;
use crate::scalar::Scalar;
use crate::schnorr::{can_sign, is_signature, schnorr_sign, CompPubKey, PrivateKey, Signature};

verus! {

/// Builder for constructing FreshAcc transactions with validation.
pub struct FreshAccTxBuilder {
    /// Input account (must have nonce=0)
    pub accin: StandardAccount,
    /// New spend authorization (set via with_new_spend_key)
    pub new_spend_auth: Option<SpendAuth>,
    /// New consume authorization (set via with_new_consume_key or
    /// with_delegated_consume)
    pub new_consume_auth: Option<ConsumeAuth>,
    /// Dummy input note seeds
    pub dinotes: Option<Vec<HashOutput>>,
    /// Dummy output note seeds
    pub donotes: Option<Vec<HashOutput>>,
}

/// Validated, ready-to-prove FreshAcc transaction.
pub struct BuiltFreshAccTx {
    /// Input account (nonce=0)
    pub accin: StandardAccount,
    /// Output account (nonce=1, with new auth keys)
    pub accout: StandardAccount,
    /// Dummy input note seeds
    pub dinotes: Vec<HashOutput>,
    /// Dummy output note seeds
    pub donotes: Vec<HashOutput>,
    /// Transaction hash
    pub tx_hash: HashOutput,
    /// Subpool ID (from accin)
    pub subpool_id: SubpoolId,
    /// State tree root (set via with_state_root)
    pub state_root: Option<HashOutput>,
    /// Authority keys of the subpool (set via with_subpool_proof)
    pub subpool_proof: Option<SubpoolAuthority>,
    /// Approval signature (set via approval_sign)
    pub approval_sig: Option<Signature>,
}

/// The hash of a transaction without notes, over the dummies of all slots.
pub open spec fn dummy_tx_hash<H: Fn(Vec<F>, usize) -> Vec<F>>(
    h: H,
    accin: &StandardAccount,
    accout: &StandardAccount,
    dinotes: Seq<HashOutput>,
    donotes: Seq<HashOutput>,
) -> HashOutput {
    digest(
        h,
        priv_tx_preimage(
            accin.spec_nullifier(h),
            accout.spec_commitment(h),
            slot_nullifiers(h, Seq::empty(), Seq::empty(), dinotes, accin.spec_nk(h)),
            slot_commitments(h, Seq::empty(), Seq::empty(), donotes),
        ),
    )
}

impl FreshAccTxBuilder {
    /// What every step of the builder keeps: the account has never been used, a key
    /// is there where one is needed, and the dummies that were filled in are those
    /// of all slots.
    pub open spec fn wf<H: Fn(Vec<F>, usize) -> Vec<F>>(&self, h: H) -> bool {
        &&& self.accin.wf(h)
        &&& self.accin.nonce.0 == F::of(0)
        &&& self.new_consume_auth matches Some(c) ==> c.valid()
        &&& self.dinotes matches Some(d) ==> d@.len() == NOTE_BATCH
        &&& self.donotes matches Some(d) ==> d@.len() == NOTE_BATCH
    }

    /// Create a new FreshAcc transaction builder.
    ///
    /// # Errors
    /// - `AccountAlreadyInitialized`: account has nonce != 0
    pub fn new<H: Fn(Vec<F>, usize) -> Vec<F>>(h: &H, accin: StandardAccount) -> (r: Result<
        Self,
        FreshAccTxBuilderError,
    >)
        requires
            accin.wf(*h),
        ensures
            r is Err <==> accin.nonce.0 != F::of(0),
            r matches Err(e) ==> e == FreshAccTxBuilderError::AccountAlreadyInitialized,
            r matches Ok(b) ==> b.wf(*h) && b == (FreshAccTxBuilder {
                accin,
                new_spend_auth: None,
                new_consume_auth: None,
                dinotes: None,
                donotes: None,
            }),
    {
        if accin.nonce.0 != F::zero() {
            return Err(FreshAccTxBuilderError::AccountAlreadyInitialized);
        }
        Ok(
            FreshAccTxBuilder {
                accin,
                new_spend_auth: None,
                new_consume_auth: None,
                dinotes: None,
                donotes: None,
            },
        )
    }

    /// Set the new spend authorization key.
    pub fn with_new_spend_key(self, spend_pk: CompPubKey) -> (r: Self)
        ensures
            r == (FreshAccTxBuilder {
                new_spend_auth: Some(SpendAuth { spend_pk: Some(spend_pk) }),
                ..self
            }),
    {
        let mut this = self;
        this.new_spend_auth = Some(SpendAuth { spend_pk: Some(spend_pk) });
        this
    }

    /// Set the new consume authorization key (non-delegated mode).
    pub fn with_new_consume_key(self, consume_pk: CompPubKey) -> (r: Self)
        ensures
            r == (FreshAccTxBuilder {
                new_consume_auth: Some(ConsumeAuth { config: true, pk: Some(consume_pk) }),
                ..self
            }),
    {
        let mut this = self;
        this.new_consume_auth = Some(ConsumeAuth { config: true, pk: Some(consume_pk) });
        this
    }

    /// Set consume authorization to delegated mode.
    pub fn with_delegated_consume(self) -> (r: Self)
        ensures
            r == (FreshAccTxBuilder {
                new_consume_auth: Some(ConsumeAuth { config: false, pk: None }),
                ..self
            }),
    {
        let mut this = self;
        this.new_consume_auth = Some(ConsumeAuth::delegated());
        this
    }

    /// Set sampled dummy input note seeds for all input slots.
    pub fn fill_dinotes(self, seeds: Vec<HashOutput>) -> (r: Self)
        requires
            seeds@.len() == NOTE_BATCH,
        ensures
            r == (FreshAccTxBuilder { dinotes: Some(seeds), ..self }),
    {
        let mut this = self;
        this.dinotes = Some(seeds);
        this
    }

    /// Set sampled dummy output note seeds for all output slots.
    pub fn fill_donotes(self, seeds: Vec<HashOutput>) -> (r: Self)
        requires
            seeds@.len() == NOTE_BATCH,
        ensures
            r == (FreshAccTxBuilder { donotes: Some(seeds), ..self }),
    {
        let mut this = self;
        this.donotes = Some(seeds);
        this
    }

    /// Whether a built transaction is the one of this builder: the output account
    /// is the input account with the nonce incremented and the new keys, and the
    /// hash is that of the accounts and the dummies.
    pub open spec fn built<H: Fn(Vec<F>, usize) -> Vec<F>>(&self, h: H, t: BuiltFreshAccTx) -> bool {
        &&& t.accin == self.accin
        &&& t.accout.wf(h)
        &&& t.accout.private_identifier == self.accin.private_identifier
        &&& t.accout.subpool_id == self.accin.subpool_id
        &&& t.accout.nonce.0 == F::of(1)
        &&& self.new_spend_auth == Some(t.accout.spend_auth)
        &&& self.new_consume_auth == Some(t.accout.consume_auth)
        &&& t.accout.ast@ == self.accin.ast@
        &&& t.accout.ast.top() == self.accin.ast.top()
        &&& self.dinotes == Some(t.dinotes)
        &&& self.donotes == Some(t.donotes)
        &&& t.tx_hash == dummy_tx_hash(h, &self.accin, &t.accout, t.dinotes@, t.donotes@)
        &&& t.subpool_id == self.accin.subpool_id
        &&& t.state_root is None
        &&& t.subpool_proof is None
        &&& t.approval_sig is None
    }

    /// Validate inputs and compute all derived values.
    ///
    /// # Errors
    /// - `SpendKeyNotSet`: must call with_new_spend_key() first
    /// - `ConsumeKeyNotSet`: must call with_new_consume_key() or
    ///   with_delegated_consume() first
    /// - `DummyNotesNotFilled`: `fill_dinotes()` or `fill_donotes()` was not called
    pub fn build<H: Fn(Vec<F>, usize) -> Vec<F>>(self, h: &H) -> (r: Result<
        BuiltFreshAccTx,
        FreshAccTxBuilderError,
    >)
        requires
            is_sponge(*h),
            self.wf(*h),
        ensures
            r is Ok <==> self.new_spend_auth is Some && self.new_consume_auth is Some
                && self.dinotes is Some && self.donotes is Some,
            r matches Ok(t) ==> self.built(*h, t),
            r matches Err(e) ==> e == (if self.new_spend_auth is None {
                FreshAccTxBuilderError::SpendKeyNotSet
            } else if self.new_consume_auth is None {
                FreshAccTxBuilderError::ConsumeKeyNotSet
            } else if self.dinotes is None {
                FreshAccTxBuilderError::DummyNotesNotFilled { kind: NoteKind::Input }
            } else {
                FreshAccTxBuilderError::DummyNotesNotFilled { kind: NoteKind::Output }
            }),
    {
        let FreshAccTxBuilder { accin, new_spend_auth, new_consume_auth, dinotes, donotes } = self;
        let new_spend_auth = match new_spend_auth {
            None => {
                return Err(FreshAccTxBuilderError::SpendKeyNotSet);
            },
            Some(a) => a,
        };
        let new_consume_auth = match new_consume_auth {
            None => {
                return Err(FreshAccTxBuilderError::ConsumeKeyNotSet);
            },
            Some(a) => a,
        };
        let subpool_id = accin.subpool_id;
        let mut accout = accin.clone_with_incremented_nonce();
        proof {
            accout.lemma_copy_wf(&accin, *h);
        }
        accout.spend_auth = new_spend_auth;
        accout.consume_auth = new_consume_auth;
        let dinotes = match dinotes {
            None => {
                return Err(FreshAccTxBuilderError::DummyNotesNotFilled { kind: NoteKind::Input });
            },
            Some(d) => d,
        };
        let donotes = match donotes {
            None => {
                return Err(FreshAccTxBuilderError::DummyNotesNotFilled { kind: NoteKind::Output });
            },
            Some(d) => d,
        };
        let nk = accin.nk(h);
        let placed = Vec::new();
        let notes = Vec::new();
        proof {
            assert(placed@ =~= Seq::empty());
            assert(notes@ =~= Seq::empty());
        }
        let nulls = nullifiers_of_slots(h, &placed, &placed, &dinotes, &nk);
        let comms = commitments_of_slots(h, &notes, &notes, &donotes);
        let accin_null = accin.nullifier(h);
        let tx_hash = derive_priv_tx_hash(h, accin_null, accout.commitment(h), &nulls, &comms);
        Ok(
            BuiltFreshAccTx {
                accin,
                accout,
                dinotes,
                donotes,
                tx_hash,
                subpool_id,
                state_root: None,
                subpool_proof: None,
                approval_sig: None,
            },
        )
    }
}

impl BuiltFreshAccTx {
    /// Generate and store the approval signature for this transaction, with a
    /// sampled nonce. It is always required.
    pub fn approval_sign<H: Fn(Vec<F>, usize) -> Vec<F>>(
        self,
        h: &H,
        approval_sk: &PrivateKey,
        k: Scalar,
    ) -> (t: Self)
        requires
            is_sponge(*h),
            can_sign(*approval_sk, k),
        ensures
            t.approval_sig is Some,
            is_signature(*h, *approval_sk, self.tx_hash.elements(), k, t.approval_sig->0),
            t == (BuiltFreshAccTx { approval_sig: t.approval_sig, ..self }),
    {
        let mut this = self;
        let m = this.tx_hash.to_elements();
        this.approval_sig = Some(schnorr_sign(h, approval_sk, m.as_slice(), k));
        this
    }

    /// Get the transaction hash that needs to be signed.
    pub fn tx_hash(&self) -> (r: HashOutput)
        ensures
            r == self.tx_hash,
    {
        self.tx_hash
    }

    /// Set the state tree root: the account is not in the tree yet, so there is no
    /// account proof to take it from.
    pub fn with_state_root(self, state_root: HashOutput) -> (t: Self)
        ensures
            t == (BuiltFreshAccTx { state_root: Some(state_root), ..self }),
    {
        let mut this = self;
        this.state_root = Some(state_root);
        this
    }

    /// Provide the authority keys of the subpool, with their proofs.
    pub fn with_subpool_proof(self, subpool_proof: SubpoolAuthority) -> (t: Self)
        ensures
            t == (BuiltFreshAccTx { subpool_proof: Some(subpool_proof), ..self }),
    {
        let mut this = self;
        this.subpool_proof = Some(subpool_proof);
        this
    }

    /// Whether this is the transaction with its proofs, in the form common to all
    /// kinds.
    pub open spec fn completed(&self, t: BuiltPrivTx) -> bool {
        let authority = self.subpool_proof->0;
        &&& t.tx_kind_flags == (TxKindFlags {
            is_rjct: false,
            is_fresh_acc: true,
            is_update_auth: false,
            is_priv_tx: false,
            not_fake_tx: true,
        })
        &&& t.accin == self.accin
        &&& t.accout == self.accout
        &&& dummy_path(t.accin_path@, 32)
        &&& t.rejected_inotes@.len() == 0
        &&& t.rejected_inotes_nct_proofs@.len() == 0
        &&& t.inotes@.len() == 0
        &&& t.inotes_nct_proofs@.len() == 0
        &&& t.onotes@.len() == 0
        &&& t.dinotes == self.dinotes
        &&& t.donotes == self.donotes
        &&& t.tx_hash == self.tx_hash
        &&& t.state_root == self.state_root->0
        &&& t.subpool_id == self.subpool_id
        &&& t.main_pool_root == authority.proofs.main_pool_proof.root
        &&& t.subpool_proof.approval_proof@ == authority.proofs.approval_proof.path@
        &&& t.subpool_proof.rejection_proof@ == authority.proofs.rejection_proof.path@
        &&& t.subpool_proof.consume_proof@ == authority.proofs.consume_proof.path@
        &&& t.subpool_proof.main_pool_proof@ == authority.proofs.main_pool_proof.path@
        &&& t.subpool_proof.subpool_config_root == authority.config_root
        &&& t.approval_key == authority.approval_key
        &&& t.rejection_key == authority.rejection_key
        &&& t.consume_key == authority.consume_key
        &&& t.spend_sig is None
        &&& t.consume_sig is None
        &&& t.approval_sig == self.approval_sig
    }

    /// Convert this built FreshAcc transaction to a unified [`BuiltPrivTx`].
    ///
    /// # Errors
    /// - `ApprovalSigNotSet`: `approval_sign` was not called
    /// - `StateRootNotSet`: `with_state_root` was not called
    /// - `SubpoolProofNotSet`: `with_subpool_proof` was not called
    pub fn into_priv_tx(self) -> (r: Result<BuiltPrivTx, FreshAccTxBuilderError>)
        ensures
            r is Ok <==> self.approval_sig is Some && self.state_root is Some
                && self.subpool_proof is Some,
            r matches Err(e) ==> e == (if self.approval_sig is None {
                FreshAccTxBuilderError::ApprovalSigNotSet
            } else if self.state_root is None {
                FreshAccTxBuilderError::StateRootNotSet
            } else {
                FreshAccTxBuilderError::SubpoolProofNotSet
            }),
            r matches Ok(t) ==> self.completed(t),
    {
        let BuiltFreshAccTx {
            accin,
            accout,
            dinotes,
            donotes,
            tx_hash,
            subpool_id,
            state_root,
            subpool_proof,
            approval_sig,
        } = self;
        if approval_sig.is_none() {
            return Err(FreshAccTxBuilderError::ApprovalSigNotSet);
        }
        let state_root = match state_root {
            None => {
                return Err(FreshAccTxBuilderError::StateRootNotSet);
            },
            Some(r) => r,
        };
        let authority = match subpool_proof {
            None => {
                return Err(FreshAccTxBuilderError::SubpoolProofNotSet);
            },
            Some(p) => p,
        };
        Ok(
            BuiltPrivTx {
                tx_kind_flags: TxKindFlags::fresh_acc(),
                accin,
                accout,
                accin_path: set_dummy_witness(STATE_TREE_DEPTH),
                rejected_inotes: Vec::new(),
                rejected_inotes_nct_proofs: Vec::new(),
                inotes: Vec::new(),
                inotes_nct_proofs: Vec::new(),
                onotes: Vec::new(),
                dinotes,
                donotes,
                tx_hash,
                state_root,
                subpool_id,
                main_pool_root: authority.proofs.main_pool_proof.root,
                subpool_proof: SubpoolFullProofTargets::set_witness(
                    &authority.proofs,
                    authority.config_root,
                ),
                approval_key: authority.approval_key,
                rejection_key: authority.rejection_key,
                consume_key: authority.consume_key,
                spend_sig: None,
                consume_sig: None,
                approval_sig,
            },
        )
    }
}

} // verus!
