//! The values of the wires of private transactions, from the inputs of each kind.
use vstd::prelude::*;

use crate::account::{AccountAddress, PublicIdentifier, StandardAccount, SubpoolId};
use crate::addition::{checked_sum, sum_of};
use crate::ast::{balance_of, has_asset, set_balance, AssetId};
use crate::circuit::{
    copy_path, dummy_path, set_dummy_witness, AccountTarget, SubpoolFullProofTargets,
};
use crate::field::{F, GOLDILOCKS_ORDER};
use crate::hash::{is_sponge, HashOutput};
use crate::note::{
    commitment_digests, derive_priv_tx_hash, nullifier_digests, NodeIdentifier, StandardNote,
};
use crate::params::{NOTE_BATCH, STATE_TREE_DEPTH};
use crate::pool_config::{
    config_root, key_node, MainPoolConfigLeaf, MainPoolConfigTree, SubpoolConfigTree,
};
use crate::priv_tx::{
    no_returns,
    consume_key, effective_commitments, effective_nullifiers, input_nullifiers, output_commitments,
    spec_tx_hash, InputSlot, OutputSlot, PrivTxPublicInputs, TxCircuitPrivateTargets,
    TxCircuitTargets, TxKindFlags, TxSignatureTargets,
};
use crate::scalar::Scalar;
use crate::schnorr::{CompPubKey, Signature};
use crate::schnorr_gadget::SchnorrTargets;
use crate::signature_wires::{
    can_fake, can_wire, fake_wires, real_wires, set_fake_schnorr_signature,
    set_real_schnorr_signature,
};
use crate::ecgfp5::PointEw;
use crate::tree::{path_root, MerkleProof, MerkleProofStep};
use crate::u256::{u256_bound, U256};

verus! {

/// A signature to put on the wires: a real one, or a fake one with the given
/// scalars.
#[derive(Clone, Copy, Debug)]
pub enum SignatureInput {
    Real(Signature),
    Fake { e: [u64; 5], s: [u64; 5] },
}

/// Whether the wires of a signature can be computed.
pub open spec fn wirable<H: Fn(Vec<F>, usize) -> Vec<F>>(
    h: H,
    key: CompPubKey,
    tx_hash: HashOutput,
    input: SignatureInput,
) -> bool {
    match input {
        SignatureInput::Real(sig) => exists|q: PointEw| #[trigger]
            can_wire(h, key, tx_hash, sig, q),
        SignatureInput::Fake { e, s } => exists|q: PointEw| #[trigger]
            can_fake(key, Scalar(e).value(), Scalar(s).value(), q),
    }
}

/// Whether these are the wires of a signature.
pub open spec fn wired<H: Fn(Vec<F>, usize) -> Vec<F>>(
    h: H,
    key: CompPubKey,
    tx_hash: HashOutput,
    input: SignatureInput,
    t: SchnorrTargets,
) -> bool {
    match input {
        SignatureInput::Real(sig) => real_wires(h, key, tx_hash, sig, t),
        SignatureInput::Fake { e, s } => fake_wires(key, Scalar(e).value(), Scalar(s).value(), t),
    }
}

/// The wires of a signature.
pub fn signature_wires<H: Fn(Vec<F>, usize) -> Vec<F>>(
    h: &H,
    key: &CompPubKey,
    tx_hash: &HashOutput,
    input: &SignatureInput,
) -> (r: Option<SchnorrTargets>)
    requires
        is_sponge(*h),
    ensures
        r is Some <==> wirable(*h, *key, *tx_hash, *input),
        r matches Some(t) ==> wired(*h, *key, *tx_hash, *input, t),
{
    match input {
        SignatureInput::Real(sig) => set_real_schnorr_signature(h, key, tx_hash, sig),
        SignatureInput::Fake { e, s } => set_fake_schnorr_signature(key, *e, *s),
    }
}

/// A transaction with all wires but those of its signatures, and the hash to sign.
pub struct PreparedTx {
    pub public: PrivTxPublicInputs,
    pub private: TxCircuitPrivateTargets,
    pub tx_hash: HashOutput,
    /// The key of the spend signature.
    pub spend_key: CompPubKey,
    /// The key of the consume signature.
    pub consume_key: CompPubKey,
}

impl PreparedTx {
    /// Adds the wires of the three signatures; `None` where those of one of them
    /// cannot be computed.
    pub fn finish<H: Fn(Vec<F>, usize) -> Vec<F>>(
        self,
        h: &H,
        spend: &SignatureInput,
        consume: &SignatureInput,
        approval: &SignatureInput,
    ) -> (r: Option<TxCircuitTargets>)
        requires
            is_sponge(*h),
        ensures
            r is Some <==> signable(*h, self, *spend, *consume, *approval),
            r matches Some(t) ==> finished(*h, self, *spend, *consume, *approval, t),
    {
        match signature_wires(h, &self.spend_key, &self.tx_hash, spend) {
            None => None,
            Some(spend) => match signature_wires(h, &self.consume_key, &self.tx_hash, consume) {
                None => None,
                Some(consume) => match signature_wires(
                    h,
                    &self.private.approval_key,
                    &self.tx_hash,
                    approval,
                ) {
                    None => None,
                    Some(approval) => Some(
                        TxCircuitTargets {
                            public: self.public,
                            private: self.private,
                            sig_targets: TxSignatureTargets { spend, consume, approval },
                        },
                    ),
                },
            },
        }
    }
}

/// Whether an input slot holds the note of its position with its proof, or the
/// filler.
pub open spec fn input_laid(
    s: InputSlot,
    i: int,
    notes: Seq<StandardNote>,
    proofs: Seq<MerkleProof>,
    dummies: Seq<HashOutput>,
    filler: StandardNote,
) -> bool {
    &&& s.dummy == dummies[i]
    &&& if i < notes.len() {
        &&& s.note == notes[i]
        &&& s.position == F::of(proofs[i].leaf_index as int)
        &&& s.is_active
        &&& s.path@ == proofs[i].path@
    } else {
        &&& s.note == filler
        &&& s.position == F::of(0)
        &&& !s.is_active
        &&& dummy_path(s.path@, 32)
    }
}

/// Whether the input slots hold the notes with their proofs, and then fillers.
pub open spec fn inputs_laid(
    s: Seq<InputSlot>,
    notes: Seq<StandardNote>,
    proofs: Seq<MerkleProof>,
    dummies: Seq<HashOutput>,
    filler: StandardNote,
) -> bool {
    &&& s.len() == NOTE_BATCH
    &&& forall|i: int|
        0 <= i < NOTE_BATCH ==> input_laid(#[trigger] s[i], i, notes, proofs, dummies, filler)
}

/// Whether an output slot holds the note of its position, or the filler.
pub open spec fn output_laid(
    s: OutputSlot,
    i: int,
    notes: Seq<StandardNote>,
    dummies: Seq<HashOutput>,
    filler: StandardNote,
) -> bool {
    &&& s.dummy == dummies[i]
    &&& s.is_active == (i < notes.len())
    &&& s.note == (if i < notes.len() {
        notes[i]
    } else {
        filler
    })
}

/// Whether the output slots hold the notes, and then fillers.
pub open spec fn outputs_laid(
    s: Seq<OutputSlot>,
    notes: Seq<StandardNote>,
    dummies: Seq<HashOutput>,
    filler: StandardNote,
) -> bool {
    &&& s.len() == NOTE_BATCH
    &&& forall|i: int|
        0 <= i < NOTE_BATCH ==> output_laid(#[trigger] s[i], i, notes, dummies, filler)
}

/// Whether the positions of the proofs are elements of the field.
pub open spec fn positions_fit(proofs: Seq<MerkleProof>) -> bool {
    forall|i: int|
        0 <= i < proofs.len() ==> (#[trigger] proofs[i]).leaf_index < GOLDILOCKS_ORDER
}

/// Whether the positions of the proofs are elements of the field.
pub fn check_positions(p: &Vec<MerkleProof>) -> (r: bool)
    ensures
        r == positions_fit(p@),
{
    let mut i: usize = 0;
    while i < p.len()
        invariant
            i <= p@.len(),
            forall|k: int| 0 <= k < i ==> (#[trigger] p@[k]).leaf_index < GOLDILOCKS_ORDER,
        decreases p@.len() - i,
    {
        if p[i].leaf_index as u64 >= GOLDILOCKS_ORDER {
            assert(!(p@[i as int].leaf_index < GOLDILOCKS_ORDER));
            return false;
        }
        i += 1;
    }
    true
}

/// Lays out the input slots.
pub fn lay_inputs(
    notes: &Vec<StandardNote>,
    proofs: &Vec<MerkleProof>,
    dummies: &[HashOutput; NOTE_BATCH],
    filler: &StandardNote,
) -> (r: Vec<InputSlot>)
    requires
        notes@.len() <= NOTE_BATCH,
        proofs@.len() == notes@.len(),
        positions_fit(proofs@),
    ensures
        inputs_laid(r@, notes@, proofs@, dummies@, *filler),
{
    let mut v: Vec<InputSlot> = Vec::new();
    let mut i: usize = 0;
    while i < NOTE_BATCH
        invariant
            i <= NOTE_BATCH,
            notes@.len() <= NOTE_BATCH,
            proofs@.len() == notes@.len(),
            positions_fit(proofs@),
            v@.len() == i,
            forall|j: int|
                0 <= j < i ==> input_laid(
                    #[trigger] v@[j],
                    j,
                    notes@,
                    proofs@,
                    dummies@,
                    *filler,
                ),
        decreases NOTE_BATCH - i,
    {
        if i < notes.len() {
            assert(proofs@[i as int].leaf_index < GOLDILOCKS_ORDER);
            v.push(
                InputSlot {
                    note: notes[i],
                    position: F::from_canonical_u64(proofs[i].leaf_index as u64),
                    is_active: true,
                    path: copy_path(&proofs[i].path),
                    dummy: dummies[i],
                },
            );
        } else {
            v.push(
                InputSlot {
                    note: *filler,
                    position: F::zero(),
                    is_active: false,
                    path: set_dummy_witness(STATE_TREE_DEPTH),
                    dummy: dummies[i],
                },
            );
        }
        i += 1;
    }
    v
}

/// Lays out the output slots.
pub fn lay_outputs(
    notes: &Vec<StandardNote>,
    dummies: &[HashOutput; NOTE_BATCH],
    filler: &StandardNote,
) -> (r: Vec<OutputSlot>)
    requires
        notes@.len() <= NOTE_BATCH,
    ensures
        outputs_laid(r@, notes@, dummies@, *filler),
{
    let mut v: Vec<OutputSlot> = Vec::new();
    let mut i: usize = 0;
    while i < NOTE_BATCH
        invariant
            i <= NOTE_BATCH,
            notes@.len() <= NOTE_BATCH,
            v@.len() == i,
            forall|j: int|
                0 <= j < i ==> output_laid(#[trigger] v@[j], j, notes@, dummies@, *filler),
        decreases NOTE_BATCH - i,
    {
        let active = i < notes.len();
        let note = if active {
            notes[i]
        } else {
            *filler
        };
        v.push(OutputSlot { note, is_active: active, dummy: dummies[i] });
        i += 1;
    }
    v
}

/// The address of zeros.
pub open spec fn zero_address() -> AccountAddress {
    AccountAddress {
        subpool_id: SubpoolId(F::of(0)),
        public_id: PublicIdentifier(HashOutput(F::of(0), F::of(0), F::of(0), F::of(0))),
    }
}

/// The address of an account, in contracts.
pub open spec fn address_of<H: Fn(Vec<F>, usize) -> Vec<F>>(h: H, acc: &StandardAccount) ->
    AccountAddress {
    AccountAddress {
        subpool_id: acc.subpool_id,
        public_id: PublicIdentifier(acc.spec_public_id(h)),
    }
}

/// The note in an input slot that is not active: nothing, for the account itself.
pub open spec fn idle_input(owner: AccountAddress, asset_id: AssetId) -> StandardNote {
    StandardNote {
        identifier: NodeIdentifier(F::of(0), F::of(0)),
        asset_id,
        amt: U256(0, 0, 0, 0),
        recipient: owner,
        sender: zero_address(),
    }
}

/// The note in an output slot that is not active: nothing, for nobody.
pub open spec fn idle_output(asset_id: AssetId) -> StandardNote {
    idle_input(zero_address(), asset_id)
}

pub(crate) fn idle_note(owner: AccountAddress, asset_id: AssetId) -> (r: StandardNote)
    ensures
        r == idle_input(owner, asset_id),
{
    StandardNote {
        identifier: NodeIdentifier::zero(),
        asset_id,
        amt: U256::zero(),
        recipient: owner,
        sender: AccountAddress::zero(),
    }
}

/// Computes the public inputs and the hash of a transaction from its private
/// wires.
pub(crate) fn prepare<H: Fn(Vec<F>, usize) -> Vec<F>>(
    h: &H,
    accin: &StandardAccount,
    accout: &StandardAccount,
    state_root: HashOutput,
    mainpool_config_root: HashOutput,
    private: TxCircuitPrivateTargets,
    spend_key: CompPubKey,
    consume_key: CompPubKey,
) -> (r: PreparedTx)
    requires
        is_sponge(*h),
        accin.ast.shape(),
        accin.consume_auth.valid(),
        accout.ast.shape(),
        accout.consume_auth.valid(),
        private.inotes@.len() == NOTE_BATCH,
        private.onotes@.len() == NOTE_BATCH,
    ensures
        r.private == private,
        r.spend_key == spend_key,
        r.consume_key == consume_key,
        public_side(*h, accin, accout, state_root, mainpool_config_root, r),
{
    let nulls = input_nullifiers(h, &private.inotes, &accin.nk(h));
    let comms = output_commitments(h, &private.onotes);
    let accin_null = accin.nullifier(h);
    let accout_comm = accout.commitment(h);
    let tx_hash = derive_priv_tx_hash(h, accin_null, accout_comm, &nulls, &comms);
    let public = PrivTxPublicInputs {
        state_root,
        mainpool_config_root,
        accin_nullifier: accin_null.0,
        accout_commitment: accout_comm.0,
        input_note_nullifiers: nulls,
        output_note_commitments: comms,
        not_fake_tx: private.flags.not_fake_tx,
    };
    PreparedTx { public, private, tx_hash, spend_key, consume_key }
}

/// Whether a public side is that of a transaction between two accounts with the
/// given private wires.
pub open spec fn public_side<H: Fn(Vec<F>, usize) -> Vec<F>>(
    h: H,
    accin: &StandardAccount,
    accout: &StandardAccount,
    state_root: HashOutput,
    mainpool_config_root: HashOutput,
    p: PreparedTx,
) -> bool {
    &&& p.public.state_root == state_root
    &&& p.public.mainpool_config_root == mainpool_config_root
    &&& p.public.not_fake_tx == p.private.flags.not_fake_tx
    &&& p.public.accin_nullifier == accin.spec_nullifier(h)
    &&& p.public.accout_commitment == accout.spec_commitment(h)
    &&& nullifier_digests(p.public.input_note_nullifiers@) == effective_nullifiers(
        h,
        p.private.inotes@,
        accin.spec_nk(h),
    )
    &&& commitment_digests(p.public.output_note_commitments@) == effective_commitments(
        h,
        p.private.onotes@,
    )
    &&& p.tx_hash == spec_tx_hash(h, p.public)
}

/// The leaf of a subpool with the given keys in the main pool.
pub open spec fn subpool_leaf<H: Fn(Vec<F>, usize) -> Vec<F>>(
    h: H,
    approval: CompPubKey,
    rejection: CompPubKey,
    consume: CompPubKey,
    subpool_id: SubpoolId,
) -> MainPoolConfigLeaf {
    MainPoolConfigLeaf { subpool_root: config_root(h, approval, rejection, consume), subpool_id }
}

/// Whether a path is that of a main pool proof of a leaf.
pub open spec fn main_path<H: Fn(Vec<F>, usize) -> Vec<F>>(
    h: H,
    pool: MainPoolConfigTree,
    leaf: MainPoolConfigLeaf,
    path: Seq<MerkleProofStep>,
) -> bool {
    exists|p: MerkleProof| #[trigger] pool.proves_leaf(h, leaf, p) && p.path@ == path
}

/// Whether the wires of the authority proofs are those of the subpool with the
/// given keys in the main pool.
pub open spec fn authority_wires<H: Fn(Vec<F>, usize) -> Vec<F>>(
    h: H,
    approval: CompPubKey,
    rejection: CompPubKey,
    consume: CompPubKey,
    subpool_id: SubpoolId,
    pool: MainPoolConfigTree,
    t: SubpoolFullProofTargets,
) -> bool {
    let root = config_root(h, approval, rejection, consume);
    &&& t.subpool_config_root == root
    &&& t.approval_proof@.len() == 2 && path_root(h, key_node(h, approval), t.approval_proof@)
        == root
    &&& t.rejection_proof@.len() == 2 && path_root(h, key_node(h, rejection), t.rejection_proof@)
        == root
    &&& t.consume_proof@.len() == 2 && path_root(h, key_node(h, consume), t.consume_proof@) == root
    &&& main_path(
        h,
        pool,
        subpool_leaf(h, approval, rejection, consume, subpool_id),
        t.main_pool_proof@,
    )
}

/// The wires of the authority proofs; `None` where the subpool is not registered
/// in the main pool.
pub fn set_subpool_full_proof<H: Fn(Vec<F>, usize) -> Vec<F>>(
    h: &H,
    main_pool: &MainPoolConfigTree,
    approval_key: CompPubKey,
    rejection_key: CompPubKey,
    consume_key: CompPubKey,
    subpool_id: SubpoolId,
) -> (r: Option<SubpoolFullProofTargets>)
    requires
        is_sponge(*h),
        main_pool.wf(*h),
    ensures
        r is Some <==> main_pool.places().contains_key(
            subpool_leaf(*h, approval_key, rejection_key, consume_key, subpool_id),
        ),
        r matches Some(t) ==> authority_wires(
            *h,
            approval_key,
            rejection_key,
            consume_key,
            subpool_id,
            *main_pool,
            t,
        ),
{
    let subpool = SubpoolConfigTree::new(h, approval_key, rejection_key, consume_key);
    proof {
        subpool.lemma_top(*h);
    }
    match main_pool.full_subpool_proof(h, &subpool, subpool_id) {
        None => None,
        Some(p) => {
            let r = SubpoolFullProofTargets::set_witness(&p, subpool.root(h));
            assert(main_pool.proves_leaf(
                *h,
                subpool_leaf(*h, approval_key, rejection_key, consume_key, subpool_id),
                p.main_pool_proof,
            ));
            Some(r)
        },
    }
}

/// The amounts of notes.
pub open spec fn amounts_of(s: Seq<StandardNote>) -> Seq<U256> {
    s.map_values(|n: StandardNote| n.amt)
}

/// The amounts of notes.
pub fn note_amounts(s: &Vec<StandardNote>) -> (r: Vec<U256>)
    ensures
        r@ == amounts_of(s@),
{
    let mut v: Vec<U256> = Vec::new();
    let mut i: usize = 0;
    while i < s.len()
        invariant
            i <= s@.len(),
            v@ == amounts_of(s@).take(i as int),
        decreases s@.len() - i,
    {
        v.push(s[i].amt);
        i += 1;
        assert(v@ =~= amounts_of(s@).take(i as int));
    }
    assert(v@ =~= amounts_of(s@));
    v
}

/// The place of an asset in a state tree: its leaf, or the next free one.
pub open spec fn asset_place(acc: &StandardAccount, asset_id: AssetId, index: int) -> bool {
    if has_asset(acc.ast@, asset_id) {
        0 <= index < acc.ast@.len() && acc.ast@[index].asset_id == asset_id
    } else {
        index == acc.ast@.len()
    }
}

/// Whether a path is that of an asset in a state tree, or of the next free leaf.
pub open spec fn asset_path(
    acc: &StandardAccount,
    asset_id: AssetId,
    path: Seq<MerkleProofStep>,
) -> bool {
    exists|index: nat, p: MerkleProof|
        index < 1024 && asset_place(acc, asset_id, index as int) && #[trigger] acc.ast.has_proof(
            index,
            p,
        ) && p.path@ == path
}

/// Inputs for a Spend (private) transaction.
///
/// Transfers assets between notes. `accin` must exist in the commitment tree with
/// `root`, and each active input note must also exist in the same tree.
pub struct SpendTxInputs {
    pub accin: StandardAccount,
    /// Root of the commitment tree, for accounts and notes.
    pub root: HashOutput,
    pub accin_merkle_proof: MerkleProof,
    pub inotes: Vec<StandardNote>,
    pub inotes_nct_proofs: Vec<MerkleProof>,
    pub onotes: Vec<StandardNote>,
    pub dinotes: [HashOutput; NOTE_BATCH],
    pub donotes: [HashOutput; NOTE_BATCH],
    pub approval_key: CompPubKey,
    pub rejection_key: CompPubKey,
    pub consume_key: CompPubKey,
    pub subpool_id: SubpoolId,
    pub main_pool: MainPoolConfigTree,
    /// Spend-auth signature. `Some` when there are active output notes; else a fake
    /// one takes its place.
    pub spend_sig: Option<Signature>,
    /// Consume-auth signature. `Some` when consuming active input notes without
    /// active output notes; else a fake one takes its place.
    pub consume_sig: Option<Signature>,
    pub approval_sig: Signature,
}

impl SpendTxInputs {
    /// The asset of the transaction: that of the first note.
    pub open spec fn asset(&self) -> AssetId {
        if self.inotes@.len() > 0 {
            self.inotes@[0].asset_id
        } else {
            self.onotes@[0].asset_id
        }
    }

    /// The balance before the transaction.
    pub open spec fn old_balance(&self) -> nat {
        balance_of(self.accin.ast@, self.asset())
    }

    /// The balance after the transaction.
    pub open spec fn new_balance(&self) -> int {
        self.old_balance() + sum_of(amounts_of(self.inotes@)) - sum_of(amounts_of(self.onotes@))
    }

    /// Whether the inputs are those of a transaction: at least one note, no more
    /// than the slots, a proof for each input note; and the sums fit, and the
    /// balance covers the outputs.
    pub open spec fn valid<H: Fn(Vec<F>, usize) -> Vec<F>>(&self, h: H) -> bool {
        &&& self.accin.wf(h)
        &&& self.main_pool.wf(h)
        &&& self.fits()
    }

    /// What is asked of the inputs beyond their trees: at least one note and no more
    /// than the slots, a proof for each input note, a spend key, and a balance that
    /// covers the output notes and finds room.
    pub open spec fn fits(&self) -> bool {
        &&& self.accin.spend_auth.spend_pk is Some
        &&& self.inotes@.len() <= NOTE_BATCH
        &&& self.onotes@.len() <= NOTE_BATCH
        &&& self.inotes@.len() + self.onotes@.len() > 0
        &&& self.inotes_nct_proofs@.len() == self.inotes@.len()
        &&& positions_fit(self.inotes_nct_proofs@)
        &&& has_asset(self.accin.ast@, self.asset()) || self.accin.ast@.len() < 1024
        &&& self.old_balance() + sum_of(amounts_of(self.inotes@)) < u256_bound()
        &&& sum_of(amounts_of(self.onotes@)) < u256_bound()
        &&& self.new_balance() >= 0
    }

    /// Whether the inputs fit.
    pub fn is_fit(&self) -> (r: bool)
        requires
            self.accin.ast.shape(),
        ensures
            r == self.fits(),
    {
        if self.accin.spend_auth.spend_pk.is_none() || self.inotes.len() > NOTE_BATCH
            || self.onotes.len() > NOTE_BATCH || (self.inotes.len() == 0 && self.onotes.len() == 0)
            || self.inotes_nct_proofs.len() != self.inotes.len() || !check_positions(
            &self.inotes_nct_proofs,
        ) {
            return false;
        }
        let asset = if self.inotes.len() > 0 {
            self.inotes[0].asset_id
        } else {
            self.onotes[0].asset_id
        };
        assert(asset == self.asset());
        if self.accin.ast.amount_for(asset).is_none() && self.accin.ast.size() >= 1024 {
            return false;
        }
        let ins = note_amounts(&self.inotes);
        let outs = note_amounts(&self.onotes);
        let old = self.accin.ast.balance(asset);
        match (checked_sum(ins.as_slice()), checked_sum(outs.as_slice())) {
            (Some(i), Some(o)) => match old.checked_add(i) {
                Some(s) => !s.less_than(&o),
                None => false,
            },
            _ => false,
        }
    }

    /// The output account: nonce incremented, the balance of the asset set.
    pub open spec fn leads_to<H: Fn(Vec<F>, usize) -> Vec<F>>(&self, h: H, accout: &StandardAccount) ->
        bool {
        &&& accout.wf(h)
        &&& accout.private_identifier == self.accin.private_identifier
        &&& accout.subpool_id == self.accin.subpool_id
        &&& accout.nonce.0 == self.accin.nonce.0 + F::of(1)
        &&& accout.spend_auth == self.accin.spend_auth
        &&& accout.consume_auth == self.accin.consume_auth
        &&& exists|amt: U256|
            amt.value() == self.new_balance() && #[trigger] set_balance(
                self.accin.ast@,
                self.asset(),
                amt,
                accout.ast@,
            )
    }

    /// Whether all wires but those of the signatures are the ones of the
    /// transaction.
    pub open spec fn prepared<H: Fn(Vec<F>, usize) -> Vec<F>>(
        &self,
        h: H,
        p: PreparedTx,
        accout: &StandardAccount,
    ) -> bool {
        let v = p.private;
        let asset = self.asset();
        let me = address_of(h, &self.accin);
        &&& self.leads_to(h, accout)
        &&& public_side(h, &self.accin, accout, self.root, self.main_pool.top(), p)
        &&& v.flags == (TxKindFlags {
            is_rjct: false,
            is_fresh_acc: false,
            is_update_auth: false,
            is_priv_tx: true,
            not_fake_tx: true,
        })
        &&& p.spend_key == v.accin.spend_auth
        &&& p.consume_key == consume_key(v)
        &&& v.approval_key == self.approval_key
        &&& v.rejection_key == self.rejection_key
        &&& v.subpool_consume_key == self.consume_key
        &&& no_returns(v.returned@)
        &&& v.accin.stands_for(&self.accin)
        &&& v.accout.stands_for(accout)
        &&& v.asset_id == asset
        &&& v.accin_amt.value() == self.old_balance()
        &&& v.accout_amt.value() == self.new_balance()
        &&& v.asset_exists_in_accin == has_asset(self.accin.ast@, asset)
        &&& v.asset_exists_in_accout
        &&& v.accin_act_merkle@ == self.accin_merkle_proof.path@
        &&& asset_path(&self.accin, asset, v.accin_ast_merkle@)
        &&& inputs_laid(
            v.inotes@,
            self.inotes@,
            self.inotes_nct_proofs@,
            self.dinotes@,
            idle_input(me, asset),
        )
        &&& outputs_laid(v.onotes@, self.onotes@, self.donotes@, idle_output(asset))
        &&& authority_wires(
            h,
            self.approval_key,
            self.rejection_key,
            self.consume_key,
            self.subpool_id,
            self.main_pool,
            v.subpool_proof_targets,
        )
    }

    /// Whether the subpool is registered in the main pool.
    pub open spec fn registered<H: Fn(Vec<F>, usize) -> Vec<F>>(&self, h: H) -> bool {
        self.main_pool.places().contains_key(
            subpool_leaf(
                h,
                self.approval_key,
                self.rejection_key,
                self.consume_key,
                self.subpool_id,
            ),
        )
    }

    fn first_asset(&self) -> (r: AssetId)
        requires
            self.inotes@.len() + self.onotes@.len() > 0,
        ensures
            r == self.asset(),
    {
        if self.inotes.len() > 0 {
            self.inotes[0].asset_id
        } else {
            self.onotes[0].asset_id
        }
    }

    /// The output account, its balance of the asset, and the amounts before and
    /// after.
    fn derive_accout<H: Fn(Vec<F>, usize) -> Vec<F>>(&self, h: &H) -> (r: (
        StandardAccount,
        U256,
        U256,
    ))
        requires
            is_sponge(*h),
            self.valid(*h),
        ensures
            self.leads_to(*h, &r.0),
            r.1.value() == self.old_balance(),
            r.2.value() == self.new_balance(),
    {
        let asset = self.first_asset();
        let old = self.accin.ast.balance(asset);
        let ins = note_amounts(&self.inotes);
        let outs = note_amounts(&self.onotes);
        let mut new = old;
        if let Some(delta_in) = checked_sum(ins.as_slice()) {
            if let Some(delta_out) = checked_sum(outs.as_slice()) {
                if let Some(up) = old.checked_add(delta_in) {
                    if let Some(down) = up.checked_sub(delta_out) {
                        new = down;
                    }
                }
            }
        }
        assert(new.value() == self.new_balance());
        let mut accout = self.accin.clone_with_incremented_nonce();
        proof {
            accout.lemma_copy_wf(&self.accin, *h);
        }
        let _ = accout.ast.insert_or_update_asset(h, asset, new);
        assert(set_balance(self.accin.ast@, asset, new, accout.ast@));
        (accout, old, new)
    }

    /// The path of the asset in the state tree of the input account.
    fn ast_path(&self) -> (r: Vec<MerkleProofStep>)
        requires
            self.accin.ast.shape(),
            self.inotes@.len() + self.onotes@.len() > 0,
            has_asset(self.accin.ast@, self.asset()) || self.accin.ast@.len() < 1024,
        ensures
            asset_path(&self.accin, self.asset(), r@),
    {
        place_path(&self.accin, self.first_asset())
    }

    /// Computes all wires but those of the signatures; `None` where the subpool is
    /// not registered in the main pool.
    pub fn prepare_spend<H: Fn(Vec<F>, usize) -> Vec<F>>(&self, h: &H) -> (r: Option<
        (PreparedTx, StandardAccount),
    >)
        requires
            is_sponge(*h),
            self.valid(*h),
        ensures
            r is Some <==> self.registered(*h),
            r matches Some(p) ==> self.prepared(*h, p.0, &p.1),
    {
        let subpool_proof_targets = match set_subpool_full_proof(
            h,
            &self.main_pool,
            self.approval_key,
            self.rejection_key,
            self.consume_key,
            self.subpool_id,
        ) {
            None => {
                return None;
            },
            Some(t) => t,
        };
        let asset = self.first_asset();
        let (accout, accin_amt, accout_amt) = self.derive_accout(h);
        let me = AccountAddress::from_acc(h, &self.accin);
        let inotes = lay_inputs(
            &self.inotes,
            &self.inotes_nct_proofs,
            &self.dinotes,
            &idle_note(me, asset),
        );
        let onotes = lay_outputs(
            &self.onotes,
            &self.donotes,
            &idle_note(AccountAddress::zero(), asset),
        );
        let private = TxCircuitPrivateTargets {
            flags: TxKindFlags::spend(),
            approval_key: self.approval_key,
            rejection_key: self.rejection_key,
            subpool_consume_key: self.consume_key,
            accin: AccountTarget::set_witness(&self.accin),
            accout: AccountTarget::set_witness(&accout),
            asset_id: asset,
            accin_amt,
            accout_amt,
            asset_exists_in_accin: self.accin.ast.amount_for(asset).is_some(),
            asset_exists_in_accout: true,
            accin_act_merkle: copy_path(&self.accin_merkle_proof.path),
            accin_ast_merkle: self.ast_path(),
            inotes,
            onotes,
            returned: [false; NOTE_BATCH],
            subpool_proof_targets,
        };
        let spend_key = private.accin.spend_auth;
        let consume_key = private.consuming_key();
        let p = prepare(
            h,
            &self.accin,
            &accout,
            self.root,
            self.main_pool.root(h),
            private,
            spend_key,
            consume_key,
        );
        Some((p, accout))
    }
}

/// The path of an asset in the state tree of an account, or of the next free leaf.
pub(crate) fn place_path(acc: &StandardAccount, asset_id: AssetId) -> (r: Vec<MerkleProofStep>)
    requires
        acc.ast.shape(),
        has_asset(acc.ast@, asset_id) || acc.ast@.len() < 1024,
    ensures
        asset_path(acc, asset_id, r@),
{
    proof {
        acc.ast.lemma_shape();
    }
    let index: usize = match acc.ast.amount_for(asset_id) {
        Some((i, _)) => i,
        None => acc.ast.next_index(),
    };
    let p = acc.ast.merkle_proof_at(index);
    assert(acc.ast.has_proof(index as nat, p));
    copy_path(&p.path)
}

pub(crate) fn real_or_fake(sig: &Option<Signature>, e: [u64; 5], s: [u64; 5]) -> (r: SignatureInput)
    ensures
        r == (match *sig {
            Some(x) => SignatureInput::Real(x),
            None => SignatureInput::Fake { e, s },
        }),
{
    match sig {
        Some(x) => SignatureInput::Real(*x),
        None => SignatureInput::Fake { e, s },
    }
}

/// The signature on the wires of a spend key: the given one, or a fake one.
pub open spec fn spend_input(sig: Option<Signature>) -> SignatureInput {
    match sig {
        Some(x) => SignatureInput::Real(x),
        None => SignatureInput::Fake { e: [11, 22, 33, 44, 55], s: [9, 8, 7, 6, 5] },
    }
}

/// The signature on the wires of a consume key: the given one, or a fake one.
pub open spec fn consume_input(sig: Option<Signature>) -> SignatureInput {
    match sig {
        Some(x) => SignatureInput::Real(x),
        None => SignatureInput::Fake { e: [13, 13, 13, 13, 13], s: [14, 15, 16, 17, 18] },
    }
}

/// Whether the wires of the three signatures of a prepared transaction can be
/// computed.
pub open spec fn signable<H: Fn(Vec<F>, usize) -> Vec<F>>(
    h: H,
    p: PreparedTx,
    spend: SignatureInput,
    consume: SignatureInput,
    approval: SignatureInput,
) -> bool {
    &&& wirable(h, p.spend_key, p.tx_hash, spend)
    &&& wirable(h, p.consume_key, p.tx_hash, consume)
    &&& wirable(h, p.private.approval_key, p.tx_hash, approval)
}

/// Whether a full set of wires is a prepared transaction with its signatures.
pub open spec fn finished<H: Fn(Vec<F>, usize) -> Vec<F>>(
    h: H,
    p: PreparedTx,
    spend: SignatureInput,
    consume: SignatureInput,
    approval: SignatureInput,
    t: TxCircuitTargets,
) -> bool {
    &&& t.public == p.public
    &&& t.private == p.private
    &&& wired(h, p.spend_key, p.tx_hash, spend, t.sig_targets.spend)
    &&& wired(h, p.consume_key, p.tx_hash, consume, t.sig_targets.consume)
    &&& wired(h, p.private.approval_key, p.tx_hash, approval, t.sig_targets.approval)
}

/// Computes all wires of a Spend transaction.
///
/// The output account is derived: a copy of `accin` with the nonce incremented and
/// the balance changed by the notes. `None` where the subpool is not registered in
/// the main pool, or the wires of a signature cannot be computed.
pub fn set_spend_tx_witness<H: Fn(Vec<F>, usize) -> Vec<F>>(h: &H, inputs: &SpendTxInputs) -> (r:
    Option<TxCircuitTargets>)
    requires
        is_sponge(*h),
        inputs.valid(*h),
    ensures
        r is None ==> !inputs.registered(*h) || exists|p: PreparedTx, accout: StandardAccount|
            #[trigger] inputs.prepared(*h, p, &accout) && !signable(
                *h,
                p,
                spend_input(inputs.spend_sig),
                consume_input(inputs.consume_sig),
                SignatureInput::Real(inputs.approval_sig),
            ),
        r matches Some(t) ==> inputs.registered(*h) && exists|p: PreparedTx, accout: StandardAccount|
            #[trigger] inputs.prepared(*h, p, &accout) && finished(
                *h,
                p,
                spend_input(inputs.spend_sig),
                consume_input(inputs.consume_sig),
                SignatureInput::Real(inputs.approval_sig),
                t,
            ),
{
    match inputs.prepare_spend(h) {
        None => None,
        Some((p, accout)) => {
            let spend = real_or_fake(&inputs.spend_sig, [11, 22, 33, 44, 55], [9, 8, 7, 6, 5]);
            let consume = real_or_fake(
                &inputs.consume_sig,
                [13, 13, 13, 13, 13],
                [14, 15, 16, 17, 18],
            );
            let approval = SignatureInput::Real(inputs.approval_sig);
            assert(spend == spend_input(inputs.spend_sig));
            assert(consume == consume_input(inputs.consume_sig));
            assert(inputs.prepared(*h, p, &accout));
            p.finish(h, &spend, &consume, &approval)
        },
    }
}

} // verus!
