//! Deposits: the conditions, and the values of the wires.
//!
//! An Ethereum user deposits funds into an account. The note of the deposit names
//! the account, and the account's balance grows by its amount.
use vstd::prelude::*;

use crate::account::{AccountAddress, StandardAccount};
use crate::addition::{sum_of, u256_addition_chain};
use crate::ast::{balance_of, has_asset, set_balance, AccountStateTreeLeaf, AssetId};
use crate::circuit::{
    assert_account_invariants_simple, assert_ast_update, assert_subpool_full_proof, ast_update,
    conditionally_assert_account_commitment_exists_in_act, copy_path, derive_account_commitment,
    derive_account_nullifier, derive_nullifier_key, derive_public_identifier, flag, identity_kept,
    member, same_auth, subpool_proven, AccountTarget, SubpoolFullProofTargets,
};
use crate::fake_tx::approval_input;
use crate::field::F;
use crate::hash::{digest, is_sponge, HashOutput};
use crate::note::{
    deposit_tx_preimage, h160_elements, hash_deposit_tx, map_h160_to_f, DepositNote,
};
use crate::priv_tx::owner_of;
use crate::public_inputs::DepositTxPublicTargets;
use crate::schnorr::{CompPubKey, Signature};
use crate::schnorr_gadget::{conditional_schnorr_verify_gadget, schnorr_holds, SchnorrTargets};
use crate::tree::{path_root, MerkleProofStep};
use crate::tx_laws::{lemma_asset_set, lemma_asset_stands, lemma_same_key};
use crate::tx_witness::{
    address_of, asset_path, consume_input, place_path, real_or_fake, signature_wires, wirable,
    wired,
};
use crate::u256::{u256_bound, U256};

verus! {

/// The public inputs of a deposit.
#[derive(Clone, Copy, Debug)]
pub struct DepositTxPublicInputs {
    /// Root of the commitment tree.
    pub state_root: HashOutput,
    /// Root of the main pool configuration.
    pub mainpool_config_root: HashOutput,
    /// Whether this is a real transaction, not a padding one.
    pub not_fake_tx: bool,
    /// Nullifier of the input account.
    pub accin_null: HashOutput,
    /// Commitment of the output account.
    pub accout_comm: HashOutput,
    /// Commitment of the deposit note.
    pub note_comm: HashOutput,
    /// Ethereum address, as five limbs.
    pub eth_address: [F; 5],
    /// Deposited amount.
    pub amount: U256,
    /// Deposited asset.
    pub asset_id: AssetId,
}

impl DepositTxPublicInputs {
    /// Whether elements are these inputs, in the layout of the circuit.
    pub open spec fn laid_out(&self, t: DepositTxPublicTargets<F>) -> bool {
        &&& t.state_root@ == self.state_root.elements()
        &&& t.mainpool_config_root@ == self.mainpool_config_root.elements()
        &&& t.not_fake_tx == flag(self.not_fake_tx)
        &&& t.accin_null@ == self.accin_null.elements()
        &&& t.accout_comm@ == self.accout_comm.elements()
        &&& t.note_comm@ == self.note_comm.elements()
        &&& t.eth_address@ == self.eth_address@
        &&& t.amount@ == self.amount.limbs()
        &&& t.asset_id == self.asset_id.0
    }

    /// The inputs as elements.
    pub fn to_targets(&self) -> (r: DepositTxPublicTargets<F>)
        ensures
            self.laid_out(r),
    {
        let mut v: Vec<F> = Vec::new();
        self.amount.append_limbs(&mut v);
        let amount = [v[0], v[1], v[2], v[3], v[4], v[5], v[6], v[7]];
        assert(amount@ =~= self.amount.limbs());
        DepositTxPublicTargets {
            state_root: self.state_root.to_elements(),
            mainpool_config_root: self.mainpool_config_root.to_elements(),
            not_fake_tx: F::from_bool(self.not_fake_tx),
            accin_null: self.accin_null.to_elements(),
            accout_comm: self.accout_comm.to_elements(),
            note_comm: self.note_comm.to_elements(),
            eth_address: self.eth_address,
            amount,
            asset_id: self.asset_id.0,
        }
    }

    /// The hash that the deposit is signed over.
    pub open spec fn tx_hash<H: Fn(Vec<F>, usize) -> Vec<F>>(&self, h: H) -> HashOutput {
        digest(
            h,
            deposit_tx_preimage(
                self.accin_null,
                self.accout_comm,
                self.note_comm,
                self.eth_address@,
            ),
        )
    }
}

/// The values of the private wires of a deposit.
pub struct DepositTxPrivateTargets {
    /// The deposit note.
    pub deposit_note: DepositNote,
    /// Account before the transaction.
    pub accin: AccountTarget,
    /// Account after the transaction.
    pub accout: AccountTarget,
    /// Path of the input account in the commitment tree.
    pub accin_act_merkle: Vec<MerkleProofStep>,
    /// Path of the balance in the state tree, before and after.
    pub accin_ast_merkle: Vec<MerkleProofStep>,
    /// Balance before the deposit.
    pub accin_amt: U256,
    /// Balance after the deposit.
    pub accout_amt: U256,
    pub asset_exists_in_accin: bool,
    pub asset_exists_in_accout: bool,
    pub approval_key: CompPubKey,
    pub rejection_key: CompPubKey,
    pub subpool_consume_key: CompPubKey,
    /// Authority key membership proofs.
    pub subpool_proof_targets: SubpoolFullProofTargets,
}

/// The wires of the two signatures of a deposit.
pub struct DepositTxSignatureTargets {
    pub consume: SchnorrTargets,
    pub approval: SchnorrTargets,
}

/// The values of all wires of a deposit.
pub struct DepositTxTargets {
    pub public: DepositTxPublicInputs,
    pub private: DepositTxPrivateTargets,
    pub sig_targets: DepositTxSignatureTargets,
}

/// Whether the public inputs are those of the accounts and of the note.
pub open spec fn deposit_public<H: Fn(Vec<F>, usize) -> Vec<F>>(
    h: H,
    u: DepositTxPublicInputs,
    v: DepositTxPrivateTargets,
) -> bool {
    &&& u.accin_null == v.accin.nullifier(h)
    &&& u.accout_comm == v.accout.commitment(h)
    &&& u.note_comm == digest(h, v.deposit_note.preimage())
    &&& u.amount == v.deposit_note.amount
    &&& u.asset_id == v.deposit_note.asset_id
}

/// The conditions of a deposit but for its signatures:
///
/// 1. the public inputs are those of the accounts and of the note;
/// 2. the input account is in the commitment tree, for a real transaction;
/// 3. the note is for the account;
/// 4. the account's identifier, subpool and keys stay, and its nonce grows by one;
/// 5. the state tree is updated at one leaf;
/// 6. the balance grows by the amount of the note, modulo `2^256`;
/// 7. the authority keys are those of the subpool, for a real transaction.
#[verifier::opaque]
pub open spec fn deposit_holds<H: Fn(Vec<F>, usize) -> Vec<F>>(
    h: H,
    u: DepositTxPublicInputs,
    v: DepositTxPrivateTargets,
) -> bool {
    &&& deposit_public(h, u, v)
    &&& member(
        h,
        v.accin.commitment(h),
        u.state_root,
        u.not_fake_tx,
        v.accin_act_merkle@,
        32,
    )
    &&& v.deposit_note.recipient == owner_of(h, v.accin)
    &&& identity_kept(v.accin, v.accout)
    &&& same_auth(v.accin, v.accout)
    &&& ast_update(
        h,
        v.deposit_note.asset_id,
        v.accin_amt,
        v.accout_amt,
        v.accin.acc_ast_root,
        v.accout.acc_ast_root,
        v.asset_exists_in_accin,
        v.asset_exists_in_accout,
        v.accin_ast_merkle@,
    )
    &&& v.accout_amt.value() == (v.accin_amt.value() + v.deposit_note.amount.value())
        % u256_bound()
    &&& subpool_proven(
        h,
        v.accin.subpool_id,
        v.approval_key,
        v.rejection_key,
        v.subpool_consume_key,
        u.mainpool_config_root,
        u.not_fake_tx,
        v.subpool_proof_targets,
    )
}

/// The conditions on the signatures of a deposit: the account's own consume key
/// signs a real deposit where the account does not delegate, and the approval key
/// signs every real deposit.
pub open spec fn deposit_signatures<H: Fn(Vec<F>, usize) -> Vec<F>>(
    h: H,
    u: DepositTxPublicInputs,
    v: DepositTxPrivateTargets,
    sigs: DepositTxSignatureTargets,
) -> bool {
    &&& schnorr_holds(
        h,
        u.tx_hash(h),
        v.accin.consume_pk,
        v.accin.consume_config && u.not_fake_tx,
        sigs.consume,
    )
    &&& schnorr_holds(h, u.tx_hash(h), v.approval_key, u.not_fake_tx, sigs.approval)
}

/// The conditions of a deposit.
pub open spec fn deposit_tx_holds<H: Fn(Vec<F>, usize) -> Vec<F>>(h: H, t: DepositTxTargets) -> bool {
    &&& deposit_holds(h, t.public, t.private)
    &&& deposit_signatures(h, t.public, t.private, t.sig_targets)
}

fn check_deposit<H: Fn(Vec<F>, usize) -> Vec<F>>(
    h: &H,
    u: &DepositTxPublicInputs,
    v: &DepositTxPrivateTargets,
) -> (r: bool)
    requires
        is_sponge(*h),
    ensures
        r == deposit_holds(*h, *u, *v),
{
    reveal(deposit_holds);
    let nk = derive_nullifier_key(h, &v.accin.private_identifier);
    let accin_comm = derive_account_commitment(h, &v.accin);
    let accout_comm = derive_account_commitment(h, &v.accout);
    let accin_null = derive_account_nullifier(h, &accin_comm, &nk);
    let note_comm = v.deposit_note.commitment(h);
    let owner = AccountAddress {
        subpool_id: v.accin.subpool_id,
        public_id: derive_public_identifier(h, &v.accin.private_identifier),
    };
    let chain = [v.deposit_note.amount];
    let sum = u256_addition_chain(&v.accin_amt, &chain);
    proof {
        let c = chain@;
        assert(c.drop_last() =~= Seq::empty());
        assert(sum_of(c.drop_last()) == 0);
        assert(sum_of(c) == v.deposit_note.amount.value());
        if sum.value() == v.accout_amt.value() {
            crate::priv_tx::lemma_value_injective(sum, v.accout_amt);
        }
    }
    u.accin_null == accin_null.0 && u.accout_comm == accout_comm.0 && u.note_comm == note_comm.0
        && u.amount == v.deposit_note.amount && u.asset_id == v.deposit_note.asset_id
        && conditionally_assert_account_commitment_exists_in_act(
        h,
        &accin_comm,
        u.state_root,
        u.not_fake_tx,
        &v.accin_act_merkle,
    ) && v.deposit_note.recipient == owner && assert_account_invariants_simple(&v.accin, &v.accout)
        && assert_ast_update(
        h,
        v.deposit_note.asset_id,
        &v.accin_amt,
        &v.accout_amt,
        v.accin.acc_ast_root,
        v.accout.acc_ast_root,
        v.asset_exists_in_accin,
        v.asset_exists_in_accout,
        &v.accin_ast_merkle,
    ) && sum == v.accout_amt && assert_subpool_full_proof(
        h,
        v.accin.subpool_id,
        v.approval_key,
        v.rejection_key,
        v.subpool_consume_key,
        u.mainpool_config_root,
        u.not_fake_tx,
        &v.subpool_proof_targets,
    )
}

/// Whether the values of the wires meet the conditions of a deposit.
pub fn deposit_tx_circuit<H: Fn(Vec<F>, usize) -> Vec<F>>(h: &H, t: &DepositTxTargets) -> (r: bool)
    requires
        is_sponge(*h),
    ensures
        r == deposit_tx_holds(*h, *t),
{
    let (u, v) = (&t.public, &t.private);
    if !check_deposit(h, u, v) {
        return false;
    }
    let tx_hash = hash_deposit_tx(h, u.accin_null, u.accout_comm, u.note_comm, &u.eth_address);
    conditional_schnorr_verify_gadget(
        h,
        &tx_hash,
        &v.accin.consume_pk,
        v.accin.consume_config && u.not_fake_tx,
        &t.sig_targets.consume,
    ) && conditional_schnorr_verify_gadget(
        h,
        &tx_hash,
        &v.approval_key,
        u.not_fake_tx,
        &t.sig_targets.approval,
    )
}

/// A deposit that meets its conditions credits the account that the note names
/// with the amount of the note, where the balance fits in 256 bits, and keeps
/// everything else.
pub proof fn lemma_deposit_credits<H: Fn(Vec<F>, usize) -> Vec<F>>(h: H, t: DepositTxTargets)
    requires
        deposit_tx_holds(h, t),
        t.private.accin_amt.value() + t.public.amount.value() < u256_bound(),
    ensures
        t.private.accout_amt.value() == t.private.accin_amt.value() + t.public.amount.value(),
        t.private.deposit_note.recipient == owner_of(h, t.private.accin),
        t.public.note_comm == digest(h, t.private.deposit_note.preimage()),
        identity_kept(t.private.accin, t.private.accout),
        same_auth(t.private.accin, t.private.accout),
        t.public.not_fake_tx ==> path_root(
            h,
            t.private.accin.commitment(h),
            t.private.accin_act_merkle@,
        ) == t.public.state_root,
{
    reveal(deposit_holds);
    vstd::arithmetic::div_mod::lemma_small_mod(
        t.private.accin_amt.value() + t.public.amount.value(),
        u256_bound(),
    );
}

/// A deposit ready to be proven, real or not.
pub struct BuiltDepositTx {
    pub not_fake_tx: bool,
    pub accin: StandardAccount,
    pub accout: StandardAccount,
    pub deposit_note: DepositNote,
    pub eth_address: [u8; 20],
    pub tx_hash: HashOutput,
    pub approval_key: CompPubKey,
    pub rejection_key: CompPubKey,
    pub consume_key: CompPubKey,
    pub state_root: HashOutput,
    pub main_pool_root: HashOutput,
    /// Path of the input account in the commitment tree.
    pub accin_act_path: Vec<MerkleProofStep>,
    /// Wires of the authority proofs.
    pub subpool_proof: SubpoolFullProofTargets,
    pub consume_sig: Option<Signature>,
    /// `Some` for real transactions, `None` for fake ones.
    pub approval_sig: Option<Signature>,
}

impl BuiltDepositTx {
    /// The balance of the deposited asset before the deposit.
    pub open spec fn old_balance(&self) -> nat {
        balance_of(self.accin.ast@, self.deposit_note.asset_id)
    }

    /// Whether the accounts are whole, there is a leaf for the balance, and the
    /// balance fits in 256 bits.
    pub open spec fn valid(&self) -> bool {
        &&& self.accin.ast.shape()
        &&& self.accout.ast.shape()
        &&& self.fits()
    }

    /// Whether the deposit fits.
    pub fn is_fit(&self) -> (r: bool)
        requires
            self.accin.ast.shape(),
        ensures
            r == self.fits(),
    {
        let asset = self.deposit_note.asset_id;
        self.accin.consume_auth.is_valid() && self.accout.consume_auth.is_valid() && (
        self.accin.ast.amount_for(asset).is_some() || self.accin.ast.size() < 1024)
            && self.accin.ast.balance(asset).checked_add(self.deposit_note.amount).is_some()
    }

    /// What is asked of the deposit beyond its state trees: consume keys where they
    /// are needed, and a balance that finds room and does not overflow.
    pub open spec fn fits(&self) -> bool {
        &&& self.accin.consume_auth.valid()
        &&& self.accout.consume_auth.valid()
        &&& has_asset(self.accin.ast@, self.deposit_note.asset_id) || self.accin.ast@.len() < 1024
        &&& self.old_balance() + self.deposit_note.amount.value() < u256_bound()
    }

    /// Whether the wires, but for those of the signatures, are those of the
    /// deposit.
    pub open spec fn prepared<H: Fn(Vec<F>, usize) -> Vec<F>>(
        &self,
        h: H,
        u: DepositTxPublicInputs,
        v: DepositTxPrivateTargets,
    ) -> bool {
        let asset = self.deposit_note.asset_id;
        &&& u.state_root == self.state_root
        &&& u.mainpool_config_root == self.main_pool_root
        &&& u.not_fake_tx == self.not_fake_tx
        &&& u.accin_null == self.accin.spec_nullifier(h)
        &&& u.accout_comm == self.accout.spec_commitment(h)
        &&& u.note_comm == digest(h, self.deposit_note.preimage())
        &&& u.eth_address@ == h160_elements(self.eth_address@)
        &&& u.amount == self.deposit_note.amount
        &&& u.asset_id == asset
        &&& v.deposit_note == self.deposit_note
        &&& v.accin.stands_for(&self.accin)
        &&& v.accout.stands_for(&self.accout)
        &&& v.accin_act_merkle@ == self.accin_act_path@
        &&& asset_path(&self.accin, asset, v.accin_ast_merkle@)
        &&& v.accin_amt.value() == self.old_balance()
        &&& v.accout_amt.value() == self.old_balance() + self.deposit_note.amount.value()
        &&& v.asset_exists_in_accin == has_asset(self.accin.ast@, asset)
        &&& v.asset_exists_in_accout == has_asset(self.accout.ast@, asset)
        &&& v.approval_key == self.approval_key
        &&& v.rejection_key == self.rejection_key
        &&& v.subpool_consume_key == self.consume_key
        &&& v.subpool_proof_targets.approval_proof@ == self.subpool_proof.approval_proof@
        &&& v.subpool_proof_targets.rejection_proof@ == self.subpool_proof.rejection_proof@
        &&& v.subpool_proof_targets.consume_proof@ == self.subpool_proof.consume_proof@
        &&& v.subpool_proof_targets.main_pool_proof@ == self.subpool_proof.main_pool_proof@
        &&& v.subpool_proof_targets.subpool_config_root == self.subpool_proof.subpool_config_root
    }

    /// Computes the wires but for those of the signatures.
    pub fn prepare<H: Fn(Vec<F>, usize) -> Vec<F>>(&self, h: &H) -> (r: (
        DepositTxPublicInputs,
        DepositTxPrivateTargets,
    ))
        requires
            is_sponge(*h),
            self.valid(),
        ensures
            self.prepared(*h, r.0, r.1),
    {
        proof {
            self.accin.ast.lemma_shape();
            self.accout.ast.lemma_shape();
        }
        let asset = self.deposit_note.asset_id;
        let accin_amt = self.accin.ast.balance(asset);
        let accout_amt = match accin_amt.checked_add(self.deposit_note.amount) {
            Some(a) => a,
            None => U256::zero(),
        };
        let public = DepositTxPublicInputs {
            state_root: self.state_root,
            mainpool_config_root: self.main_pool_root,
            not_fake_tx: self.not_fake_tx,
            accin_null: self.accin.nullifier(h).0,
            accout_comm: self.accout.commitment(h).0,
            note_comm: self.deposit_note.commitment(h).0,
            eth_address: map_h160_to_f(&self.eth_address),
            amount: self.deposit_note.amount,
            asset_id: asset,
        };
        let private = DepositTxPrivateTargets {
            deposit_note: self.deposit_note,
            accin: AccountTarget::set_witness(&self.accin),
            accout: AccountTarget::set_witness(&self.accout),
            accin_act_merkle: copy_path(&self.accin_act_path),
            accin_ast_merkle: place_path(&self.accin, asset),
            accin_amt,
            accout_amt,
            asset_exists_in_accin: self.accin.ast.amount_for(asset).is_some(),
            asset_exists_in_accout: self.accout.ast.amount_for(asset).is_some(),
            approval_key: self.approval_key,
            rejection_key: self.rejection_key,
            subpool_consume_key: self.consume_key,
            subpool_proof_targets: SubpoolFullProofTargets {
                approval_proof: copy_path(&self.subpool_proof.approval_proof),
                rejection_proof: copy_path(&self.subpool_proof.rejection_proof),
                consume_proof: copy_path(&self.subpool_proof.consume_proof),
                main_pool_proof: copy_path(&self.subpool_proof.main_pool_proof),
                subpool_config_root: self.subpool_proof.subpool_config_root,
            },
        };
        (public, private)
    }

    /// Whether the wires of the signatures can be computed for prepared wires.
    pub open spec fn signable<H: Fn(Vec<F>, usize) -> Vec<F>>(
        &self,
        h: H,
        v: DepositTxPrivateTargets,
    ) -> bool {
        &&& wirable(h, v.accin.consume_pk, self.tx_hash, consume_input(self.consume_sig))
        &&& wirable(h, self.approval_key, self.tx_hash, approval_input(self.approval_sig))
    }

    /// Whether these are all wires of the deposit.
    pub open spec fn witnessed<H: Fn(Vec<F>, usize) -> Vec<F>>(
        &self,
        h: H,
        t: DepositTxTargets,
    ) -> bool {
        &&& self.prepared(h, t.public, t.private)
        &&& wired(
            h,
            t.private.accin.consume_pk,
            self.tx_hash,
            consume_input(self.consume_sig),
            t.sig_targets.consume,
        )
        &&& wired(
            h,
            self.approval_key,
            self.tx_hash,
            approval_input(self.approval_sig),
            t.sig_targets.approval,
        )
    }

    /// Computes the values of all wires. Where there is no signature, a fake one
    /// takes its place. `None` where the wires of a signature cannot be computed.
    pub fn set_witness<H: Fn(Vec<F>, usize) -> Vec<F>>(&self, h: &H) -> (r: Option<
        DepositTxTargets,
    >)
        requires
            is_sponge(*h),
            self.valid(),
        ensures
            r is None ==> exists|u: DepositTxPublicInputs, v: DepositTxPrivateTargets| #[trigger]
                self.prepared(*h, u, v) && !self.signable(*h, v),
            r matches Some(t) ==> self.witnessed(*h, t),
    {
        let (public, private) = self.prepare(h);
        assert(self.prepared(*h, public, private));
        let consume = real_or_fake(
            &self.consume_sig,
            [13, 13, 13, 13, 13],
            [14, 15, 16, 17, 18],
        );
        let approval = real_or_fake(
            &self.approval_sig,
            [21, 22, 23, 24, 25],
            [31, 32, 33, 34, 35],
        );
        assert(consume == consume_input(self.consume_sig));
        assert(approval == approval_input(self.approval_sig));
        match signature_wires(h, &private.accin.consume_pk, &self.tx_hash, &consume) {
            None => None,
            Some(consume) => match signature_wires(
                h,
                &self.approval_key,
                &self.tx_hash,
                &approval,
            ) {
                None => None,
                Some(approval) => Some(
                    DepositTxTargets {
                        public,
                        private,
                        sig_targets: DepositTxSignatureTargets { consume, approval },
                    },
                ),
            },
        }
    }

    /// Whether the output account is the input account with the nonce incremented
    /// and the deposit credited.
    pub open spec fn credits<H: Fn(Vec<F>, usize) -> Vec<F>>(&self, h: H) -> bool {
        &&& self.accin.wf(h)
        &&& self.accout.wf(h)
        &&& self.accout.private_identifier == self.accin.private_identifier
        &&& self.accout.subpool_id == self.accin.subpool_id
        &&& self.accout.nonce.0 == self.accin.nonce.0 + F::of(1)
        &&& self.accout.spend_auth == self.accin.spend_auth
        &&& self.accout.consume_auth == self.accin.consume_auth
        &&& exists|amt: U256|
            amt.value() == self.old_balance() + self.deposit_note.amount.value()
                && #[trigger] set_balance(
                self.accin.ast@,
                self.deposit_note.asset_id,
                amt,
                self.accout.ast@,
            )
    }
}

/// The wires computed for a deposit meet its conditions, where the account is in
/// the commitment tree, the note is for it, the output account is the credited
/// one, and the authority proofs verify. Its hash is the one that was signed.
pub proof fn lemma_deposit_satisfied<H: Fn(Vec<F>, usize) -> Vec<F>>(
    h: H,
    tx: BuiltDepositTx,
    u: DepositTxPublicInputs,
    v: DepositTxPrivateTargets,
)
    requires
        tx.valid(),
        tx.credits(h),
        tx.prepared(h, u, v),
        !tx.accin.consume_auth.config ==> tx.accin.consume_auth.pk is None,
        tx.deposit_note.recipient == address_of(h, &tx.accin),
        tx.accin_act_path@.len() == 32,
        path_root(h, tx.accin.spec_commitment(h), tx.accin_act_path@) == tx.state_root,
        subpool_proven(
            h,
            tx.accin.subpool_id,
            tx.approval_key,
            tx.rejection_key,
            tx.consume_key,
            tx.main_pool_root,
            tx.not_fake_tx,
            tx.subpool_proof,
        ),
        tx.tx_hash == digest(
            h,
            deposit_tx_preimage(
                tx.accin.spec_nullifier(h),
                tx.accout.spec_commitment(h),
                digest(h, tx.deposit_note.preimage()),
                h160_elements(tx.eth_address@),
            ),
        ),
    ensures
        deposit_holds(h, u, v),
        u.tx_hash(h) == tx.tx_hash,
{
    let asset = tx.deposit_note.asset_id;
    assert(u.accin_null == v.accin.nullifier(h) && u.accout_comm == v.accout.commitment(h)
        && v.accin.commitment(h) == tx.accin.spec_commitment(h) && owner_of(h, v.accin)
        == address_of(h, &tx.accin)) by {
        v.accin.lemma_commitment(&tx.accin, h);
        v.accout.lemma_commitment(&tx.accout, h);
    }
    lemma_deposit_leaf(h, tx, u, v);
    vstd::arithmetic::div_mod::lemma_small_mod(
        v.accin_amt.value() + tx.deposit_note.amount.value(),
        u256_bound(),
    );
    assert(identity_kept(v.accin, v.accout) && same_auth(v.accin, v.accout)) by {
        lemma_same_key(v.accin.spend_auth, v.accout.spend_auth);
        lemma_same_key(v.accin.consume_pk, v.accout.consume_pk);
    }
    assert(u.eth_address@ == h160_elements(tx.eth_address@));
    reveal(deposit_holds);
}

/// The deposited asset stands in both state trees, at the place of its path.
proof fn lemma_deposit_leaf<H: Fn(Vec<F>, usize) -> Vec<F>>(
    h: H,
    tx: BuiltDepositTx,
    u: DepositTxPublicInputs,
    v: DepositTxPrivateTargets,
)
    requires
        tx.valid(),
        tx.credits(h),
        tx.prepared(h, u, v),
    ensures
        ast_update(
            h,
            v.deposit_note.asset_id,
            v.accin_amt,
            v.accout_amt,
            v.accin.acc_ast_root,
            v.accout.acc_ast_root,
            v.asset_exists_in_accin,
            v.asset_exists_in_accout,
            v.accin_ast_merkle@,
        ),
{
    let asset = tx.deposit_note.asset_id;
    let amt = choose|amt: U256|
        amt.value() == tx.old_balance() + tx.deposit_note.amount.value()
            && #[trigger] set_balance(tx.accin.ast@, asset, amt, tx.accout.ast@);
    assert(amt == v.accout_amt) by {
        crate::priv_tx::lemma_value_injective(amt, v.accout_amt);
    }
    assert(asset_path(&tx.accin, asset, v.accin_ast_merkle@));
    lemma_asset_stands(
        h,
        &tx.accin,
        asset,
        v.accin_amt,
        v.asset_exists_in_accin,
        v.accin_ast_merkle@,
    );
    lemma_asset_set(h, &tx.accin, &tx.accout, asset, v.accout_amt, v.accin_ast_merkle@);
    lemma_set_is_there(tx.accin.ast@, asset, amt, tx.accout.ast@);
}

/// An asset whose balance was set is there.
pub proof fn lemma_set_is_there(
    before: Seq<AccountStateTreeLeaf>,
    asset: AssetId,
    amt: U256,
    after: Seq<AccountStateTreeLeaf>,
)
    requires
        set_balance(before, asset, amt, after),
    ensures
        has_asset(after, asset),
{
    let leaf = AccountStateTreeLeaf { asset_id: asset, amount: amt };
    if has_asset(before, asset) {
        let i = choose|i: int|
            0 <= i < before.len() && (#[trigger] before[i]).asset_id == asset && after
                == before.update(i, leaf);
        assert(after[i].asset_id == asset);
    } else {
        assert(after[before.len() as int].asset_id == asset);
    }
}

} // verus!
