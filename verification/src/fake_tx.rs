//! The values of the wires of a fake (padding) transaction.
use vstd::prelude::*;

use crate::account::{key_elements, AccountAddress, PrivateIdentifier, StandardAccount, SubpoolId};
use crate::ast::AssetId;
use crate::circuit::{
    dummy_path, set_dummy_witness, AccountTarget, SubpoolFullProofTargets,
};
use crate::ecgfp5::{compressed};
use crate::field::F;
use crate::freshacc_tx::{first_leaf_path, no_assets};
use crate::hash::{is_sponge, HashOutput};
use crate::note::StandardNote;
use crate::params::{DEFAULT_SPEND_AUTH_PK, MAIN_POOL_CONFIG_DEPTH, STATE_TREE_DEPTH, NOTE_BATCH};
use crate::pool_config::{config_root, key_node, SubpoolConfigTree};
use crate::priv_tx::{
    effective_commitments, effective_nullifiers, TxCircuitPrivateTargets, TxCircuitTargets,
    TxKindFlags,
};
use crate::scalar::Scalar;
use crate::schnorr::{
    compressed_public_key, CompPubKey, CompressedPublicKey, PrivateKey, Signature,
};
use crate::tree::{path_root, MerkleProof};
use crate::tx_witness::{
    finished, idle_note, lay_inputs, lay_outputs, prepare, signable, PreparedTx, SignatureInput,
};
use crate::u256::U256;

verus! {

/// Inputs for a fake transaction, used to pad empty aggregation slots. The
/// overrides become the public account nullifier and commitment.
#[derive(Clone, Copy, Debug)]
pub struct FakeTxInputs {
    pub root: HashOutput,
    pub mainpool_config_root: HashOutput,
    pub override_an: HashOutput,
    pub override_ac: HashOutput,
}

/// Whether a key is the public key of a scalar.
pub open spec fn key_of(scalar: [u64; 5], k: CompPubKey) -> bool {
    k.0.w == compressed(PrivateKey(Scalar(scalar)).public_point())
}

/// The authority keys of fake transactions, from fixed scalars.
pub fn fake_authority_keys() -> (k: (CompPubKey, CompPubKey, CompPubKey))
    ensures
        key_of([1, 2, 3, 4, 5], k.0),
        key_of([6, 7, 8, 9, 0], k.1),
        key_of([11, 12, 13, 14, 0], k.2),
{
    (
        compressed_public_key(&PrivateKey(Scalar([1, 2, 3, 4, 5]))),
        compressed_public_key(&PrivateKey(Scalar([6, 7, 8, 9, 0]))),
        compressed_public_key(&PrivateKey(Scalar([11, 12, 13, 14, 0]))),
    )
}

/// Whether the wires of the authority proofs are those of the fake keys: the
/// proofs within the subpool are real, the one in the main pool is zero.
pub open spec fn fake_authority_wires<H: Fn(Vec<F>, usize) -> Vec<F>>(
    h: H,
    v: TxCircuitPrivateTargets,
) -> bool {
    let t = v.subpool_proof_targets;
    let root = config_root(h, v.approval_key, v.rejection_key, v.subpool_consume_key);
    &&& t.subpool_config_root == root
    &&& t.approval_proof@.len() == 2 && path_root(h, key_node(h, v.approval_key), t.approval_proof@)
        == root
    &&& t.rejection_proof@.len() == 2 && path_root(
        h,
        key_node(h, v.rejection_key),
        t.rejection_proof@,
    ) == root
    &&& t.consume_proof@.len() == 2 && path_root(
        h,
        key_node(h, v.subpool_consume_key),
        t.consume_proof@,
    ) == root
    &&& dummy_path(t.main_pool_proof@, 20)
}

/// Seven digests of zeros.
pub open spec fn zero_digests() -> Seq<HashOutput> {
    Seq::new(7, |i: int| HashOutput(F::of(0), F::of(0), F::of(0), F::of(0)))
}

impl FakeTxInputs {
    /// Whether all wires but those of the signatures are the ones of the fake
    /// transaction: a padding account, no assets, all flags unset.
    pub open spec fn prepared<H: Fn(Vec<F>, usize) -> Vec<F>>(
        &self,
        h: H,
        p: PreparedTx,
        accin: &StandardAccount,
        accout: &StandardAccount,
    ) -> bool {
        let v = p.private;
        &&& accin.wf(h) && accin.spec_is_fresh()
        &&& accin.private_identifier == PrivateIdentifier(F::of(1), F::of(2))
        &&& accin.subpool_id == SubpoolId(F::of(0))
        &&& accout.same_but_nonce(accin)
        &&& accout.nonce.0 == accin.nonce.0 + F::of(1)
        &&& p.public.state_root == self.root
        &&& p.public.mainpool_config_root == self.mainpool_config_root
        &&& !p.public.not_fake_tx
        &&& p.public.accin_nullifier == self.override_an
        &&& p.public.accout_commitment == self.override_ac
        &&& crate::note::nullifier_digests(p.public.input_note_nullifiers@)
            == effective_nullifiers(h, v.inotes@, accin.spec_nk(h))
        &&& crate::note::commitment_digests(p.public.output_note_commitments@)
            == effective_commitments(h, v.onotes@)
        &&& v.flags == (TxKindFlags {
            is_rjct: false,
            is_fresh_acc: false,
            is_update_auth: false,
            is_priv_tx: false,
            not_fake_tx: false,
        })
        &&& p.spend_key.elements() == key_elements(DEFAULT_SPEND_AUTH_PK)
        &&& p.consume_key == v.subpool_consume_key
        &&& key_of([1, 2, 3, 4, 5], v.approval_key)
        &&& key_of([6, 7, 8, 9, 0], v.rejection_key)
        &&& key_of([11, 12, 13, 14, 0], v.subpool_consume_key)
        &&& v.accin.stands_for(accin)
        &&& v.accout.stands_for(accout)
        &&& no_assets(h, accin, v, zero_digests(), zero_digests())
        &&& fake_authority_wires(h, v)
    }

    /// Computes all wires but those of the signatures.
    pub fn prepare_fake<H: Fn(Vec<F>, usize) -> Vec<F>>(&self, h: &H) -> (r: (
        PreparedTx,
        StandardAccount,
        StandardAccount,
    ))
        requires
            is_sponge(*h),
        ensures
            self.prepared(*h, r.0, &r.1, &r.2),
    {
        let (approval_key, rejection_key, consume_key) = fake_authority_keys();
        let accin = StandardAccount::fake(h);
        let accout = accin.clone_with_incremented_nonce();
        let asset = AssetId::zero();
        let me = AccountAddress::from_acc(h, &accin);
        let z = HashOutput::zero();
        let zeros = [z, z, z, z, z, z, z];
        let notes: Vec<StandardNote> = Vec::new();
        let proofs: Vec<MerkleProof> = Vec::new();
        let inotes = lay_inputs(&notes, &proofs, &zeros, &idle_note(me, asset));
        let onotes = lay_outputs(&notes, &zeros, &idle_note(AccountAddress::zero(), asset));
        proof {
            assert(notes@ =~= Seq::empty());
            assert(proofs@ =~= Seq::empty());
            assert(zeros@ =~= zero_digests());
        }
        let subpool = SubpoolConfigTree::new(h, approval_key, rejection_key, consume_key);
        proof {
            subpool.lemma_top(*h);
        }
        let subpool_proof_targets = SubpoolFullProofTargets {
            approval_proof: subpool.approval_key_proof(h).path,
            rejection_proof: subpool.rejection_key_proof(h).path,
            consume_proof: subpool.consume_key_proof(h).path,
            main_pool_proof: set_dummy_witness(MAIN_POOL_CONFIG_DEPTH),
            subpool_config_root: subpool.root(h),
        };
        let private = TxCircuitPrivateTargets {
            flags: TxKindFlags::fake(),
            approval_key,
            rejection_key,
            subpool_consume_key: consume_key,
            accin: AccountTarget::set_witness(&accin),
            accout: AccountTarget::set_witness(&accout),
            asset_id: asset,
            accin_amt: U256::zero(),
            accout_amt: U256::zero(),
            asset_exists_in_accin: false,
            asset_exists_in_accout: false,
            accin_act_merkle: set_dummy_witness(STATE_TREE_DEPTH),
            accin_ast_merkle: first_leaf_path(&accin),
            inotes,
            onotes,
            returned: [false; NOTE_BATCH],
            subpool_proof_targets,
        };
        let spend_key = CompressedPublicKey::from_canonical_u64s(DEFAULT_SPEND_AUTH_PK);
        assert(spend_key.elements() =~= key_elements(DEFAULT_SPEND_AUTH_PK));
        let mut p = prepare(
            h,
            &accin,
            &accout,
            self.root,
            self.mainpool_config_root,
            private,
            spend_key,
            consume_key,
        );
        p.public.accin_nullifier = self.override_an;
        p.public.accout_commitment = self.override_ac;
        (p, accin, accout)
    }
}

/// The fake spend signature of a fake transaction.
pub open spec fn fake_spend() -> SignatureInput {
    SignatureInput::Fake { e: [11, 22, 33, 44, 55], s: [9, 8, 7, 6, 5] }
}

/// The fake consume signature of a fake transaction.
pub open spec fn fake_consume() -> SignatureInput {
    SignatureInput::Fake { e: [13, 13, 13, 13, 13], s: [14, 15, 16, 17, 18] }
}

/// The fake approval signature of a fake transaction.
pub open spec fn fake_approval() -> SignatureInput {
    SignatureInput::Fake { e: [21, 22, 23, 24, 25], s: [31, 32, 33, 34, 35] }
}

/// The signature on the wires of the approval key: the given one, or a fake one.
pub open spec fn approval_input(sig: Option<Signature>) -> SignatureInput {
    match sig {
        Some(x) => SignatureInput::Real(x),
        None => fake_approval(),
    }
}

/// Computes all wires of a fake transaction. No condition is enforced on it beyond
/// the shape; all signatures are fake ones. `None` where the wires of one of
/// the fixed signatures cannot be computed.
pub fn set_fake_tx_witness<H: Fn(Vec<F>, usize) -> Vec<F>>(h: &H, inputs: &FakeTxInputs) -> (r:
    Option<TxCircuitTargets>)
    requires
        is_sponge(*h),
    ensures
        r is None ==> exists|p: PreparedTx, accin: StandardAccount, accout: StandardAccount|
            #[trigger] inputs.prepared(*h, p, &accin, &accout) && !signable(
                *h,
                p,
                fake_spend(),
                fake_consume(),
                fake_approval(),
            ),
        r matches Some(t) ==> exists|
            p: PreparedTx,
            accin: StandardAccount,
            accout: StandardAccount,
        |
            #[trigger] inputs.prepared(*h, p, &accin, &accout) && finished(
                *h,
                p,
                fake_spend(),
                fake_consume(),
                fake_approval(),
                t,
            ),
{
    let (p, accin, accout) = inputs.prepare_fake(h);
    let spend = SignatureInput::Fake { e: [11, 22, 33, 44, 55], s: [9, 8, 7, 6, 5] };
    let consume = SignatureInput::Fake { e: [13, 13, 13, 13, 13], s: [14, 15, 16, 17, 18] };
    let approval = SignatureInput::Fake { e: [21, 22, 23, 24, 25], s: [31, 32, 33, 34, 35] };
    assert(spend == fake_spend());
    assert(consume == fake_consume());
    assert(approval == fake_approval());
    assert(inputs.prepared(*h, p, &accin, &accout));
    p.finish(h, &spend, &consume, &approval)
}

} // verus!
