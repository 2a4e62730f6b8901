//! The values of the wires of a Reject transaction.
use vstd::prelude::*;

use crate::account::{AccountAddress, StandardAccount, SubpoolId};
use crate::ast::{balance_of, has_asset, AssetId};
use crate::circuit::{copy_path, AccountTarget};
use crate::field::F;
use crate::hash::{is_sponge, HashOutput};
use crate::note::StandardNote;
use crate::params::NOTE_BATCH;
use crate::pool_config::MainPoolConfigTree;
use crate::priv_tx::{no_returns, TxCircuitPrivateTargets, TxCircuitTargets, TxKindFlags};
use crate::schnorr::{CompPubKey, Signature};
use crate::tree::MerkleProof;
use crate::tx_witness::{
    address_of, asset_path, authority_wires, finished, idle_input, idle_note, idle_output,
    inputs_laid, lay_inputs, lay_outputs, outputs_laid, place_path, positions_fit, prepare,
    public_side, set_subpool_full_proof, signable, subpool_leaf, PreparedTx, SignatureInput,
    check_positions,
};

verus! {

/// Inputs for a Reject transaction: pending notes go back to their senders.
/// `accin` and the input notes must exist in the commitment tree.
pub struct RejectTxInputs {
    pub accin: StandardAccount,
    pub accin_act_merkle_proof: MerkleProof,
    /// Root of the commitment tree, for accounts and notes.
    pub root: HashOutput,
    pub inotes: Vec<StandardNote>,
    pub inotes_nct_proofs: Vec<MerkleProof>,
    pub onotes: Vec<StandardNote>,
    pub dinotes: [HashOutput; NOTE_BATCH],
    pub donotes: [HashOutput; NOTE_BATCH],
    pub approval_key: CompPubKey,
    pub rejection_key: CompPubKey,
    pub consume_key: CompPubKey,
    pub subpool_id: SubpoolId,
    pub main_pool: MainPoolConfigTree,
    pub consume_sig: Signature,
    pub approval_sig: Signature,
}

/// The fake spend signature of a transaction that does not spend.
pub open spec fn idle_spend() -> SignatureInput {
    SignatureInput::Fake { e: [42, 8, 2, 5, 1], s: [7, 12, 13, 14, 14] }
}

impl RejectTxInputs {
    /// The asset of the transaction: that of the first note, or zero.
    pub open spec fn asset(&self) -> AssetId {
        if self.inotes@.len() > 0 {
            self.inotes@[0].asset_id
        } else {
            AssetId(F::of(0))
        }
    }

    /// Whether the inputs are those of a transaction: as many output notes and
    /// proofs as input notes, no more than the slots, and an account with a spend
    /// key.
    pub open spec fn valid<H: Fn(Vec<F>, usize) -> Vec<F>>(&self, h: H) -> bool {
        &&& self.accin.wf(h)
        &&& self.main_pool.wf(h)
        &&& self.fits()
    }

    /// What is asked of the inputs beyond their trees.
    pub open spec fn fits(&self) -> bool {
        &&& self.inotes@.len() <= NOTE_BATCH
        &&& self.onotes@.len() == self.inotes@.len()
        &&& self.inotes_nct_proofs@.len() == self.inotes@.len()
        &&& positions_fit(self.inotes_nct_proofs@)
        &&& has_asset(self.accin.ast@, self.asset()) || self.accin.ast@.len() < 1024
        &&& self.accin.spend_auth.spend_pk is Some
    }

    /// Whether the inputs fit.
    pub fn is_fit(&self) -> (r: bool)
        requires
            self.accin.ast.shape(),
        ensures
            r == self.fits(),
    {
        if self.inotes.len() > NOTE_BATCH || self.onotes.len() != self.inotes.len()
            || self.inotes_nct_proofs.len() != self.inotes.len() || !check_positions(
            &self.inotes_nct_proofs,
        ) || self.accin.spend_auth.spend_pk.is_none() {
            return false;
        }
        let asset = if self.inotes.len() > 0 {
            self.inotes[0].asset_id
        } else {
            AssetId::zero()
        };
        assert(asset == self.asset());
        self.accin.ast.amount_for(asset).is_some() || self.accin.ast.size() < 1024
    }

    /// Whether the subpool is registered in the main pool.
    pub open spec fn registered<H: Fn(Vec<F>, usize) -> Vec<F>>(&self, h: H) -> bool {
        self.main_pool.places().contains_key(
            subpool_leaf(
                h,
                self.approval_key,
                self.rejection_key,
                self.consume_key,
                self.subpool_id,
            ),
        )
    }

    /// Whether all wires but those of the signatures are the ones of the
    /// transaction. The account keeps all but its nonce.
    pub open spec fn prepared<H: Fn(Vec<F>, usize) -> Vec<F>>(
        &self,
        h: H,
        p: PreparedTx,
        accout: &StandardAccount,
    ) -> bool {
        let v = p.private;
        let asset = self.asset();
        let me = address_of(h, &self.accin);
        &&& accout.same_but_nonce(&self.accin)
        &&& accout.nonce.0 == self.accin.nonce.0 + F::of(1)
        &&& public_side(h, &self.accin, accout, self.root, self.main_pool.top(), p)
        &&& v.flags == (TxKindFlags {
            is_rjct: true,
            is_fresh_acc: false,
            is_update_auth: false,
            is_priv_tx: false,
            not_fake_tx: true,
        })
        &&& p.spend_key == self.accin.spend_auth.spend_pk->0
        &&& p.consume_key == self.consume_key
        &&& v.approval_key == self.approval_key
        &&& v.rejection_key == self.rejection_key
        &&& v.subpool_consume_key == self.consume_key
        &&& no_returns(v.returned@)
        &&& v.accin.stands_for(&self.accin)
        &&& v.accout.stands_for(accout)
        &&& v.asset_id == asset
        &&& v.accin_amt.value() == balance_of(self.accin.ast@, asset)
        &&& v.accout_amt == v.accin_amt
        &&& v.asset_exists_in_accin == has_asset(self.accin.ast@, asset)
        &&& v.asset_exists_in_accout == v.asset_exists_in_accin
        &&& v.accin_act_merkle@ == self.accin_act_merkle_proof.path@
        &&& asset_path(&self.accin, asset, v.accin_ast_merkle@)
        &&& inputs_laid(
            v.inotes@,
            self.inotes@,
            self.inotes_nct_proofs@,
            self.dinotes@,
            idle_input(me, asset),
        )
        &&& outputs_laid(v.onotes@, self.onotes@, self.donotes@, idle_output(asset))
        &&& authority_wires(
            h,
            self.approval_key,
            self.rejection_key,
            self.consume_key,
            self.subpool_id,
            self.main_pool,
            v.subpool_proof_targets,
        )
    }

    /// Computes all wires but those of the signatures; `None` where the subpool is
    /// not registered in the main pool.
    pub fn prepare_reject<H: Fn(Vec<F>, usize) -> Vec<F>>(&self, h: &H) -> (r: Option<
        (PreparedTx, StandardAccount),
    >)
        requires
            is_sponge(*h),
            self.valid(*h),
        ensures
            r is Some <==> self.registered(*h),
            r matches Some(p) ==> self.prepared(*h, p.0, &p.1),
    {
        let subpool_proof_targets = match set_subpool_full_proof(
            h,
            &self.main_pool,
            self.approval_key,
            self.rejection_key,
            self.consume_key,
            self.subpool_id,
        ) {
            None => {
                return None;
            },
            Some(t) => t,
        };
        let asset = if self.inotes.len() > 0 {
            self.inotes[0].asset_id
        } else {
            AssetId::zero()
        };
        let accout = self.accin.clone_with_incremented_nonce();
        proof {
            accout.lemma_copy_wf(&self.accin, *h);
        }
        let me = AccountAddress::from_acc(h, &self.accin);
        let inotes = lay_inputs(
            &self.inotes,
            &self.inotes_nct_proofs,
            &self.dinotes,
            &idle_note(me, asset),
        );
        let onotes = lay_outputs(
            &self.onotes,
            &self.donotes,
            &idle_note(AccountAddress::zero(), asset),
        );
        let amount = self.accin.ast.balance(asset);
        let there = self.accin.ast.amount_for(asset).is_some();
        let private = TxCircuitPrivateTargets {
            flags: TxKindFlags::reject(),
            approval_key: self.approval_key,
            rejection_key: self.rejection_key,
            subpool_consume_key: self.consume_key,
            accin: AccountTarget::set_witness(&self.accin),
            accout: AccountTarget::set_witness(&accout),
            asset_id: asset,
            accin_amt: amount,
            accout_amt: amount,
            asset_exists_in_accin: there,
            asset_exists_in_accout: there,
            accin_act_merkle: copy_path(&self.accin_act_merkle_proof.path),
            accin_ast_merkle: place_path(&self.accin, asset),
            inotes,
            onotes,
            returned: [false; NOTE_BATCH],
            subpool_proof_targets,
        };
        let spend_key = match self.accin.spend_auth.spend_pk {
            Some(k) => k,
            None => self.consume_key,
        };
        let p = prepare(
            h,
            &self.accin,
            &accout,
            self.root,
            self.main_pool.root(h),
            private,
            spend_key,
            self.consume_key,
        );
        Some((p, accout))
    }
}

/// Computes all wires of a Reject transaction.
///
/// The output account is a copy of `accin` with the nonce incremented. The spend
/// signature is a fake one; the consume signature is made with the subpool's key.
/// `None` where the subpool is not registered in the main pool, or the wires of a
/// signature cannot be computed.
pub fn set_reject_tx_witness<H: Fn(Vec<F>, usize) -> Vec<F>>(h: &H, inputs: &RejectTxInputs) -> (r:
    Option<TxCircuitTargets>)
    requires
        is_sponge(*h),
        inputs.valid(*h),
    ensures
        r is None ==> !inputs.registered(*h) || exists|p: PreparedTx, accout: StandardAccount|
            #[trigger] inputs.prepared(*h, p, &accout) && !signable(
                *h,
                p,
                idle_spend(),
                SignatureInput::Real(inputs.consume_sig),
                SignatureInput::Real(inputs.approval_sig),
            ),
        r matches Some(t) ==> inputs.registered(*h) && exists|p: PreparedTx, accout: StandardAccount|
            #[trigger] inputs.prepared(*h, p, &accout) && finished(
                *h,
                p,
                idle_spend(),
                SignatureInput::Real(inputs.consume_sig),
                SignatureInput::Real(inputs.approval_sig),
                t,
            ),
{
    match inputs.prepare_reject(h) {
        None => None,
        Some((p, accout)) => {
            let spend = SignatureInput::Fake { e: [42, 8, 2, 5, 1], s: [7, 12, 13, 14, 14] };
            let consume = SignatureInput::Real(inputs.consume_sig);
            let approval = SignatureInput::Real(inputs.approval_sig);
            assert(spend == idle_spend());
            assert(inputs.prepared(*h, p, &accout));
            p.finish(h, &spend, &consume, &approval)
        },
    }
}

} // verus!
