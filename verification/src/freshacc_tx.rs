//! The values of the wires of a FreshAcc transaction.
use vstd::prelude::*;

use crate::account::{AccountAddress, ConsumeAuth, SpendAuth, StandardAccount, SubpoolId};
use crate::ast::AssetId;
use crate::circuit::{dummy_path, set_dummy_witness, copy_path, AccountTarget};
use crate::field::F;
use crate::hash::{is_sponge, HashOutput};
use crate::note::StandardNote;
use crate::params::{DEFAULT_SPEND_AUTH_PK, NOTE_BATCH, STATE_TREE_DEPTH};
use crate::pool_config::MainPoolConfigTree;
use crate::priv_tx::{no_returns, TxCircuitPrivateTargets, TxCircuitTargets, TxKindFlags};
use crate::reject_tx::idle_spend;
use crate::schnorr::{CompPubKey, CompressedPublicKey, Signature};
use crate::tree::{MerkleProof, MerkleProofStep};
use crate::tx_witness::{
    address_of, authority_wires, finished, idle_input, idle_note, idle_output, inputs_laid,
    lay_inputs, lay_outputs, outputs_laid, prepare, public_side, set_subpool_full_proof, signable,
    subpool_leaf, PreparedTx, SignatureInput,
};
use crate::u256::U256;

verus! {

/// Inputs for a FreshAcc transaction: `accin` is registered for the first time. No
/// membership proof is required.
pub struct FreshAccInputs {
    pub accin: StandardAccount,
    pub new_spend_auth: SpendAuth,
    pub new_consume_auth: ConsumeAuth,
    /// Root of the commitment tree. Not checked for a FreshAcc, but public.
    pub root: HashOutput,
    pub approval_key: CompPubKey,
    pub rejection_key: CompPubKey,
    pub consume_key: CompPubKey,
    pub subpool_id: SubpoolId,
    pub main_pool: MainPoolConfigTree,
    pub approval_sig: Signature,
    pub dinotes: [HashOutput; NOTE_BATCH],
    pub donotes: [HashOutput; NOTE_BATCH],
}

/// The fake consume signature of a transaction that does not consume.
pub open spec fn idle_consume() -> SignatureInput {
    SignatureInput::Fake { e: [13, 13, 5, 6, 7], s: [17, 19, 12, 13, 16] }
}

/// Whether a path is that of the first leaf of a state tree.
pub open spec fn first_path(acc: &StandardAccount, path: Seq<MerkleProofStep>) -> bool {
    exists|p: MerkleProof| #[trigger] acc.ast.has_proof(0, p) && p.path@ == path
}

pub(crate) fn first_leaf_path(acc: &StandardAccount) -> (r: Vec<MerkleProofStep>)
    requires
        acc.ast.shape(),
    ensures
        first_path(acc, r@),
{
    let p = acc.ast.merkle_proof_at(0);
    assert(acc.ast.has_proof(0, p));
    copy_path(&p.path)
}

/// Whether the wires of assets and notes are those of a transaction without any.
pub open spec fn no_assets<H: Fn(Vec<F>, usize) -> Vec<F>>(
    h: H,
    accin: &StandardAccount,
    v: TxCircuitPrivateTargets,
    dinotes: Seq<HashOutput>,
    donotes: Seq<HashOutput>,
) -> bool {
    let asset = AssetId(F::of(0));
    &&& v.asset_id == asset
    &&& v.accin_amt == U256(0, 0, 0, 0)
    &&& v.accout_amt == U256(0, 0, 0, 0)
    &&& !v.asset_exists_in_accin
    &&& !v.asset_exists_in_accout
    &&& no_returns(v.returned@)
    &&& dummy_path(v.accin_act_merkle@, 32)
    &&& first_path(accin, v.accin_ast_merkle@)
    &&& inputs_laid(
        v.inotes@,
        Seq::empty(),
        Seq::empty(),
        dinotes,
        idle_input(address_of(h, accin), asset),
    )
    &&& outputs_laid(v.onotes@, Seq::empty(), donotes, idle_output(asset))
}

impl FreshAccInputs {
    /// Whether the inputs are those of a transaction.
    pub open spec fn valid<H: Fn(Vec<F>, usize) -> Vec<F>>(&self, h: H) -> bool {
        &&& self.accin.wf(h)
        &&& self.main_pool.wf(h)
        &&& self.new_consume_auth.valid()
    }

    /// Whether the subpool is registered in the main pool.
    pub open spec fn registered<H: Fn(Vec<F>, usize) -> Vec<F>>(&self, h: H) -> bool {
        self.main_pool.places().contains_key(
            subpool_leaf(
                h,
                self.approval_key,
                self.rejection_key,
                self.consume_key,
                self.subpool_id,
            ),
        )
    }

    /// The output account: nonce incremented, the new keys set.
    pub open spec fn leads_to(&self, accout: &StandardAccount) -> bool {
        &&& accout.private_identifier == self.accin.private_identifier
        &&& accout.subpool_id == self.accin.subpool_id
        &&& accout.nonce.0 == self.accin.nonce.0 + F::of(1)
        &&& accout.spend_auth == self.new_spend_auth
        &&& accout.consume_auth == self.new_consume_auth
        &&& accout.ast@ == self.accin.ast@
        &&& accout.ast.top() == self.accin.ast.top()
        &&& accout.ast.same_as(&self.accin.ast)
        &&& accout.ast.shape()
    }

    /// Whether all wires but those of the signatures are the ones of the
    /// transaction.
    pub open spec fn prepared<H: Fn(Vec<F>, usize) -> Vec<F>>(
        &self,
        h: H,
        p: PreparedTx,
        accout: &StandardAccount,
    ) -> bool {
        let v = p.private;
        &&& self.leads_to(accout)
        &&& public_side(h, &self.accin, accout, self.root, self.main_pool.top(), p)
        &&& v.flags == (TxKindFlags {
            is_rjct: false,
            is_fresh_acc: true,
            is_update_auth: false,
            is_priv_tx: false,
            not_fake_tx: true,
        })
        &&& p.spend_key.elements() == crate::account::key_elements(DEFAULT_SPEND_AUTH_PK)
        &&& p.consume_key == self.consume_key
        &&& v.approval_key == self.approval_key
        &&& v.rejection_key == self.rejection_key
        &&& v.subpool_consume_key == self.consume_key
        &&& v.accin.stands_for(&self.accin)
        &&& v.accout.stands_for(accout)
        &&& no_assets(h, &self.accin, v, self.dinotes@, self.donotes@)
        &&& authority_wires(
            h,
            self.approval_key,
            self.rejection_key,
            self.consume_key,
            self.subpool_id,
            self.main_pool,
            v.subpool_proof_targets,
        )
    }

    /// Computes all wires but those of the signatures; `None` where the subpool is
    /// not registered in the main pool.
    pub fn prepare_freshacc<H: Fn(Vec<F>, usize) -> Vec<F>>(&self, h: &H) -> (r: Option<
        (PreparedTx, StandardAccount),
    >)
        requires
            is_sponge(*h),
            self.valid(*h),
        ensures
            r is Some <==> self.registered(*h),
            r matches Some(p) ==> self.prepared(*h, p.0, &p.1),
    {
        let subpool_proof_targets = match set_subpool_full_proof(
            h,
            &self.main_pool,
            self.approval_key,
            self.rejection_key,
            self.consume_key,
            self.subpool_id,
        ) {
            None => {
                return None;
            },
            Some(t) => t,
        };
        let mut accout = self.accin.clone_with_incremented_nonce();
        accout.spend_auth = self.new_spend_auth;
        accout.consume_auth = self.new_consume_auth;
        let asset = AssetId::zero();
        let me = AccountAddress::from_acc(h, &self.accin);
        let notes: Vec<StandardNote> = Vec::new();
        let proofs: Vec<MerkleProof> = Vec::new();
        let inotes = lay_inputs(&notes, &proofs, &self.dinotes, &idle_note(me, asset));
        let onotes = lay_outputs(&notes, &self.donotes, &idle_note(AccountAddress::zero(), asset));
        proof {
            assert(notes@ =~= Seq::empty());
            assert(proofs@ =~= Seq::empty());
        }
        let private = TxCircuitPrivateTargets {
            flags: TxKindFlags::fresh_acc(),
            approval_key: self.approval_key,
            rejection_key: self.rejection_key,
            subpool_consume_key: self.consume_key,
            accin: AccountTarget::set_witness(&self.accin),
            accout: AccountTarget::set_witness(&accout),
            asset_id: asset,
            accin_amt: U256::zero(),
            accout_amt: U256::zero(),
            asset_exists_in_accin: false,
            asset_exists_in_accout: false,
            accin_act_merkle: set_dummy_witness(STATE_TREE_DEPTH),
            accin_ast_merkle: first_leaf_path(&self.accin),
            inotes,
            onotes,
            returned: [false; NOTE_BATCH],
            subpool_proof_targets,
        };
        let spend_key = CompressedPublicKey::from_canonical_u64s(DEFAULT_SPEND_AUTH_PK);
        assert(spend_key.elements() =~= crate::account::key_elements(DEFAULT_SPEND_AUTH_PK));
        let p = prepare(
            h,
            &self.accin,
            &accout,
            self.root,
            self.main_pool.root(h),
            private,
            spend_key,
            self.consume_key,
        );
        Some((p, accout))
    }
}

/// Computes all wires of a FreshAcc transaction.
///
/// The output account is a copy of `accin` with the new keys and the nonce
/// incremented. The spend and consume signatures are fake ones. `None` where the
/// subpool is not registered in the main pool, or the wires of a signature cannot
/// be computed.
pub fn set_freshacc_tx_witness<H: Fn(Vec<F>, usize) -> Vec<F>>(h: &H, inputs: &FreshAccInputs) -> (r:
    Option<TxCircuitTargets>)
    requires
        is_sponge(*h),
        inputs.valid(*h),
    ensures
        r is None ==> !inputs.registered(*h) || exists|p: PreparedTx, accout: StandardAccount|
            #[trigger] inputs.prepared(*h, p, &accout) && !signable(
                *h,
                p,
                idle_spend(),
                idle_consume(),
                SignatureInput::Real(inputs.approval_sig),
            ),
        r matches Some(t) ==> inputs.registered(*h) && exists|p: PreparedTx, accout: StandardAccount|
            #[trigger] inputs.prepared(*h, p, &accout) && finished(
                *h,
                p,
                idle_spend(),
                idle_consume(),
                SignatureInput::Real(inputs.approval_sig),
                t,
            ),
{
    match inputs.prepare_freshacc(h) {
        None => None,
        Some((p, accout)) => {
            let spend = SignatureInput::Fake { e: [42, 8, 2, 5, 1], s: [7, 12, 13, 14, 14] };
            let consume = SignatureInput::Fake { e: [13, 13, 5, 6, 7], s: [17, 19, 12, 13, 16] };
            let approval = SignatureInput::Real(inputs.approval_sig);
            assert(spend == idle_spend());
            assert(consume == idle_consume());
            assert(inputs.prepared(*h, p, &accout));
            p.finish(h, &spend, &consume, &approval)
        },
    }
}

} // verus!
