//! Builder for fake (dummy) transactions.
use vstd::prelude::*;

use crate::account::{PrivateIdentifier, StandardAccount, SubpoolId};
use crate::built_priv_tx::BuiltPrivTx;
use crate::circuit::{dummy_path, set_dummy_witness, SubpoolFullProofTargets};
use crate::fake_tx::{fake_authority_keys, key_of};
use crate::field::F;
use crate::hash::{is_sponge, HashOutput};
use crate::params::{NOTE_BATCH, STATE_TREE_DEPTH};
use crate::priv_tx::TxKindFlags;

verus! {

/// Builder for constructing fake (dummy) transactions.
///
/// Fake transactions pad empty aggregation slots. No conditions are enforced on
/// them.
#[derive(Clone, Copy, Debug)]
pub struct FakeTxBuilder {
    /// State tree root (passed through to public inputs, not enforced)
    pub state_root: HashOutput,
    /// Main pool config root (passed through to public inputs, not enforced)
    pub mainpool_config_root: HashOutput,
}

/// Validated, ready-to-prove fake transaction.
#[derive(Clone, Copy, Debug)]
pub struct BuiltFakeTx {
    /// State tree root
    pub state_root: HashOutput,
    /// Main pool config root
    pub mainpool_config_root: HashOutput,
}

impl FakeTxBuilder {
    /// Create a new fake transaction builder.
    pub fn new(state_root: HashOutput, mainpool_config_root: HashOutput) -> (r: Self)
        ensures
            r.state_root == state_root,
            r.mainpool_config_root == mainpool_config_root,
    {
        FakeTxBuilder { state_root, mainpool_config_root }
    }

    /// Build the fake transaction. There is nothing to validate.
    pub fn build(self) -> (r: BuiltFakeTx)
        ensures
            r.state_root == self.state_root,
            r.mainpool_config_root == self.mainpool_config_root,
    {
        BuiltFakeTx {
            state_root: self.state_root,
            mainpool_config_root: self.mainpool_config_root,
        }
    }
}

/// A list of zero digests.
fn zero_seeds() -> (r: Vec<HashOutput>)
    ensures
        r@.len() == NOTE_BATCH,
        forall|i: int|
            0 <= i < NOTE_BATCH ==> #[trigger] r@[i] == HashOutput(
                F::of(0),
                F::of(0),
                F::of(0),
                F::of(0),
            ),
{
    let mut v: Vec<HashOutput> = Vec::new();
    let mut i: usize = 0;
    while i < NOTE_BATCH
        invariant
            i <= NOTE_BATCH,
            v@.len() == i,
            forall|k: int|
                0 <= k < i ==> #[trigger] v@[k] == HashOutput(
                    F::of(0),
                    F::of(0),
                    F::of(0),
                    F::of(0),
                ),
        decreases NOTE_BATCH - i,
    {
        v.push(HashOutput::zero());
        i += 1;
    }
    v
}

impl BuiltFakeTx {
    /// Whether this is the transaction in the form common to all kinds: zeros, the
    /// fixed fake account and the fixed authority keys.
    pub open spec fn completed<H: Fn(Vec<F>, usize) -> Vec<F>>(&self, h: H, t: BuiltPrivTx) -> bool {
        &&& t.tx_kind_flags == (TxKindFlags {
            is_rjct: false,
            is_fresh_acc: false,
            is_update_auth: false,
            is_priv_tx: false,
            not_fake_tx: false,
        })
        &&& t.whole()
        &&& t.slots_fit()
        &&& t.accin.wf(h) && t.accin.spec_is_fresh()
        &&& t.accin.private_identifier == PrivateIdentifier(F::of(1), F::of(2))
        &&& t.accin.subpool_id == SubpoolId(F::of(0))
        &&& t.accout.same_but_nonce(&t.accin)
        &&& t.accout.nonce.0 == F::of(1)
        &&& dummy_path(t.accin_path@, 32)
        &&& t.rejected_inotes@.len() == 0
        &&& t.inotes@.len() == 0
        &&& t.onotes@.len() == 0
        &&& forall|i: int|
            0 <= i < NOTE_BATCH ==> #[trigger] t.dinotes@[i] == HashOutput(
                F::of(0),
                F::of(0),
                F::of(0),
                F::of(0),
            )
        &&& forall|i: int|
            0 <= i < NOTE_BATCH ==> #[trigger] t.donotes@[i] == HashOutput(
                F::of(0),
                F::of(0),
                F::of(0),
                F::of(0),
            )
        &&& t.tx_hash == HashOutput(F::of(0), F::of(0), F::of(0), F::of(0))
        &&& t.state_root == self.state_root
        &&& t.subpool_id == SubpoolId(F::of(0))
        &&& t.main_pool_root == self.mainpool_config_root
        &&& dummy_path(t.subpool_proof.approval_proof@, 2)
        &&& dummy_path(t.subpool_proof.rejection_proof@, 2)
        &&& dummy_path(t.subpool_proof.consume_proof@, 2)
        &&& dummy_path(t.subpool_proof.main_pool_proof@, 20)
        &&& key_of([1, 2, 3, 4, 5], t.approval_key)
        &&& key_of([6, 7, 8, 9, 0], t.rejection_key)
        &&& key_of([11, 12, 13, 14, 0], t.consume_key)
        &&& t.spend_sig is None
        &&& t.consume_sig is None
        &&& t.approval_sig is None
    }

    /// Convert this built fake transaction to a unified [`BuiltPrivTx`], with
    /// zeros, the fixed fake account and the fixed authority keys.
    pub fn into_priv_tx<H: Fn(Vec<F>, usize) -> Vec<F>>(self, h: &H) -> (t: BuiltPrivTx)
        requires
            is_sponge(*h),
        ensures
            self.completed(*h, t),
    {
        let (approval_key, rejection_key, consume_key) = fake_authority_keys();
        let accin = StandardAccount::fake(h);
        let accout = accin.clone_with_incremented_nonce();
        proof {
            accout.lemma_copy_wf(&accin, *h);
        }
        BuiltPrivTx {
            tx_kind_flags: TxKindFlags::fake(),
            accin,
            accout,
            accin_path: set_dummy_witness(STATE_TREE_DEPTH),
            rejected_inotes: Vec::new(),
            rejected_inotes_nct_proofs: Vec::new(),
            inotes: Vec::new(),
            inotes_nct_proofs: Vec::new(),
            onotes: Vec::new(),
            dinotes: zero_seeds(),
            donotes: zero_seeds(),
            tx_hash: HashOutput::zero(),
            state_root: self.state_root,
            subpool_id: SubpoolId(F::zero()),
            main_pool_root: self.mainpool_config_root,
            subpool_proof: SubpoolFullProofTargets::set_fake(),
            approval_key,
            rejection_key,
            consume_key,
            spend_sig: None,
            consume_sig: None,
            approval_sig: None,
        }
    }
}

} // verus!
