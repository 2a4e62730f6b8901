//! Withdrawals: the conditions, and the values of the wires.
//!
//! A withdrawal moves the balances of up to one asset per slot from an account to
//! an Ethereum address.
use vstd::prelude::*;

use crate::account::StandardAccount;
use crate::addition::{sum_of, u256_addition_chain};
use crate::ast::{
    balance_of, distinct_assets, has_asset, lemma_balance_of, set_balance, AccountStateTree,
    AccountStateTreeLeaf, AssetId,
};
use crate::circuit::{
    assert_account_invariants_simple, assert_ast_update, assert_subpool_full_proof, ast_update,
    conditionally_assert_account_commitment_exists_in_act, copy_path, derive_account_commitment,
    derive_account_nullifier, derive_nullifier_key, flag, identity_kept, member, same_auth,
    subpool_proven, AccountTarget, SubpoolFullProofTargets,
};
use crate::fake_tx::approval_input;
use crate::field::F;
use crate::hash::{digest, is_sponge, HashOutput};
use crate::note::{h160_elements, hash_withdraw_tx, map_h160_to_f, withdraw_tx_preimage};
use crate::params::NOTE_BATCH;
use crate::public_inputs::WithdrawTxPublicTargets;
use crate::schnorr::{CompPubKey, Signature};
use crate::schnorr_gadget::{conditional_schnorr_verify_gadget, schnorr_holds, SchnorrTargets};
use crate::tree::{path_root, MerkleProofStep};
use crate::tx_laws::lemma_same_key;
use crate::tx_witness::{real_or_fake, signature_wires, wirable, wired};
use crate::u256::{u256_bound, U256};
use crate::withdraw_slots::{
    before_slot, compute_withdrawal_slots, drained, lemma_drained_balance, lemma_drained_unique,
    can_withdraw, leaves_balances, slot_leaf, slot_of, slot_proof, total_of, withdrawable,
    WithdrawalSlots,
};

verus! {

/// The public inputs of a withdrawal.
#[derive(Clone, Copy, Debug)]
pub struct WithdrawTxPublicInputs {
    /// Root of the commitment tree.
    pub root: HashOutput,
    /// Root of the main pool configuration.
    pub mainpool_config_root: HashOutput,
    /// Whether this is a real withdrawal, not a padding one.
    pub not_fake_tx: bool,
    /// Nullifier of the input account.
    pub accin_null: HashOutput,
    /// Commitment of the output account.
    pub accout_comm: HashOutput,
    /// Asset of each slot.
    pub asset_ids: [AssetId; NOTE_BATCH],
    /// Amount of each slot.
    pub withdrawal_amts: [U256; NOTE_BATCH],
    /// Ethereum address, as five limbs.
    pub w_acc_addr: [F; 5],
}

fn limb_array(x: &U256) -> (r: [F; 8])
    ensures
        r@ == x.limbs(),
{
    let mut v: Vec<F> = Vec::new();
    x.append_limbs(&mut v);
    let r = [v[0], v[1], v[2], v[3], v[4], v[5], v[6], v[7]];
    assert(r@ =~= x.limbs());
    r
}

impl WithdrawTxPublicInputs {
    /// Whether elements are these inputs, in the layout of the circuit.
    pub open spec fn laid_out(&self, t: WithdrawTxPublicTargets<F>) -> bool {
        &&& t.root@ == self.root.elements()
        &&& t.mainpool_config_root@ == self.mainpool_config_root.elements()
        &&& t.not_fake_tx == flag(self.not_fake_tx)
        &&& t.accin_null@ == self.accin_null.elements()
        &&& t.accout_comm@ == self.accout_comm.elements()
        &&& forall|i: int|
            0 <= i < NOTE_BATCH ==> #[trigger] t.asset_ids@[i] == self.asset_ids@[i].0
        &&& forall|i: int|
            0 <= i < NOTE_BATCH ==> (#[trigger] t.withdrawal_amts@[i])@
                == self.withdrawal_amts@[i].limbs()
        &&& t.w_acc_addr@ == self.w_acc_addr@
    }

    /// The inputs as elements.
    pub fn to_targets(&self) -> (r: WithdrawTxPublicTargets<F>)
        ensures
            self.laid_out(r),
    {
        let a = &self.asset_ids;
        let w = &self.withdrawal_amts;
        WithdrawTxPublicTargets {
            root: self.root.to_elements(),
            mainpool_config_root: self.mainpool_config_root.to_elements(),
            not_fake_tx: F::from_bool(self.not_fake_tx),
            accin_null: self.accin_null.to_elements(),
            accout_comm: self.accout_comm.to_elements(),
            asset_ids: [a[0].0, a[1].0, a[2].0, a[3].0, a[4].0, a[5].0, a[6].0],
            withdrawal_amts: [
                limb_array(&w[0]),
                limb_array(&w[1]),
                limb_array(&w[2]),
                limb_array(&w[3]),
                limb_array(&w[4]),
                limb_array(&w[5]),
                limb_array(&w[6]),
            ],
            w_acc_addr: self.w_acc_addr,
        }
    }

    /// The hash that the withdrawal is signed over.
    pub open spec fn tx_hash<H: Fn(Vec<F>, usize) -> Vec<F>>(&self, h: H) -> HashOutput {
        digest(
            h,
            withdraw_tx_preimage(
                self.accin_null,
                self.accout_comm,
                self.asset_ids@,
                self.withdrawal_amts@,
                self.w_acc_addr@,
            ),
        )
    }
}

/// The private wires of a slot.
pub struct WithdrawalSlotTargets {
    /// Balance before the slot.
    pub accin_amt: U256,
    /// Balance after the slot.
    pub accout_amt: U256,
    pub asset_exists_in_accin: bool,
    pub asset_exists_in_accout: bool,
    /// Path of the balance in the state tree, before and after.
    pub ast_merkle: Vec<MerkleProofStep>,
    /// Root of the state tree after the slot.
    pub root_after: HashOutput,
}

/// The values of the private wires of a withdrawal.
pub struct WithdrawTxPrivateTargets {
    pub approval_key: CompPubKey,
    pub rejection_key: CompPubKey,
    pub subpool_consume_key: CompPubKey,
    /// Account before the withdrawal.
    pub accin: AccountTarget,
    /// Account after the withdrawal.
    pub accout: AccountTarget,
    pub slots: Vec<WithdrawalSlotTargets>,
    /// Path of the input account in the commitment tree.
    pub accin_act_merkle: Vec<MerkleProofStep>,
    /// Authority key membership proofs.
    pub subpool_proof_targets: SubpoolFullProofTargets,
}

/// The values of all wires of a withdrawal.
pub struct WithdrawTxTargets {
    pub public: WithdrawTxPublicInputs,
    pub private: WithdrawTxPrivateTargets,
    pub approval_sig: SchnorrTargets,
}

/// The root of the state tree before a slot.
pub open spec fn root_before(v: WithdrawTxPrivateTargets, i: int) -> HashOutput {
    if i == 0 {
        v.accin.acc_ast_root
    } else {
        v.slots@[i - 1].root_after
    }
}

/// The conditions on a slot: the balance before is the balance after and the
/// amount, modulo `2^256`, and the state tree is updated at one leaf.
pub open spec fn slot_holds<H: Fn(Vec<F>, usize) -> Vec<F>>(
    h: H,
    u: WithdrawTxPublicInputs,
    v: WithdrawTxPrivateTargets,
    i: int,
) -> bool {
    let s = v.slots@[i];
    &&& s.accin_amt.value() == (s.accout_amt.value() + u.withdrawal_amts@[i].value())
        % u256_bound()
    &&& ast_update(
        h,
        u.asset_ids@[i],
        s.accin_amt,
        s.accout_amt,
        root_before(v, i),
        s.root_after,
        s.asset_exists_in_accin,
        s.asset_exists_in_accout,
        s.ast_merkle@,
    )
}

/// The conditions on all slots: each starts from the state tree that the one
/// before it left, and the last leaves that of the output account.
#[verifier::opaque]
pub open spec fn slots_hold<H: Fn(Vec<F>, usize) -> Vec<F>>(
    h: H,
    u: WithdrawTxPublicInputs,
    v: WithdrawTxPrivateTargets,
) -> bool {
    &&& v.slots@.len() == NOTE_BATCH
    &&& forall|i: int| 0 <= i < NOTE_BATCH ==> #[trigger] slot_holds(h, u, v, i)
    &&& v.slots@[NOTE_BATCH - 1].root_after == v.accout.acc_ast_root
}

/// The conditions of a withdrawal but for its slots and its signature:
///
/// 1. the public inputs are those of the accounts;
/// 2. the input account is in the commitment tree, for a real withdrawal;
/// 3. the account's identifier, subpool and keys stay, and its nonce grows by one;
/// 4. the authority keys are those of the subpool, for a real withdrawal.
#[verifier::opaque]
pub open spec fn withdraw_accounts_hold<H: Fn(Vec<F>, usize) -> Vec<F>>(
    h: H,
    u: WithdrawTxPublicInputs,
    v: WithdrawTxPrivateTargets,
) -> bool {
    &&& u.accin_null == v.accin.nullifier(h)
    &&& u.accout_comm == v.accout.commitment(h)
    &&& member(
        h,
        v.accin.commitment(h),
        u.root,
        u.not_fake_tx,
        v.accin_act_merkle@,
        32,
    )
    &&& identity_kept(v.accin, v.accout)
    &&& same_auth(v.accin, v.accout)
    &&& subpool_proven(
        h,
        v.accin.subpool_id,
        v.approval_key,
        v.rejection_key,
        v.subpool_consume_key,
        u.mainpool_config_root,
        u.not_fake_tx,
        v.subpool_proof_targets,
    )
}

/// The conditions of a withdrawal.
pub open spec fn withdraw_tx_holds<H: Fn(Vec<F>, usize) -> Vec<F>>(
    h: H,
    t: WithdrawTxTargets,
) -> bool {
    let (u, v) = (t.public, t.private);
    &&& withdraw_accounts_hold(h, u, v)
    &&& slots_hold(h, u, v)
    &&& schnorr_holds(h, u.tx_hash(h), v.approval_key, u.not_fake_tx, t.approval_sig)
}

fn check_slot<H: Fn(Vec<F>, usize) -> Vec<F>>(
    h: &H,
    u: &WithdrawTxPublicInputs,
    v: &WithdrawTxPrivateTargets,
    i: usize,
) -> (r: bool)
    requires
        is_sponge(*h),
        i < NOTE_BATCH,
        v.slots@.len() == NOTE_BATCH,
    ensures
        r == slot_holds(*h, *u, *v, i as int),
{
    let s = &v.slots[i];
    let prev = if i == 0 {
        v.accin.acc_ast_root
    } else {
        v.slots[i - 1].root_after
    };
    let chain = [u.withdrawal_amts[i]];
    let sum = u256_addition_chain(&s.accout_amt, &chain);
    proof {
        let c = chain@;
        assert(c.drop_last() =~= Seq::empty());
        assert(sum_of(c.drop_last()) == 0);
        assert(sum_of(c) == u.withdrawal_amts@[i as int].value());
        if sum.value() == s.accin_amt.value() {
            crate::priv_tx::lemma_value_injective(sum, s.accin_amt);
        }
    }
    sum == s.accin_amt && assert_ast_update(
        h,
        u.asset_ids[i],
        &s.accin_amt,
        &s.accout_amt,
        prev,
        s.root_after,
        s.asset_exists_in_accin,
        s.asset_exists_in_accout,
        &s.ast_merkle,
    )
}

fn check_slots<H: Fn(Vec<F>, usize) -> Vec<F>>(
    h: &H,
    u: &WithdrawTxPublicInputs,
    v: &WithdrawTxPrivateTargets,
) -> (r: bool)
    requires
        is_sponge(*h),
    ensures
        r == slots_hold(*h, *u, *v),
{
    reveal(slots_hold);
    if v.slots.len() != NOTE_BATCH {
        return false;
    }
    let mut i: usize = 0;
    while i < NOTE_BATCH
        invariant
            i <= NOTE_BATCH,
            is_sponge(*h),
            v.slots@.len() == NOTE_BATCH,
            forall|k: int| 0 <= k < i ==> #[trigger] slot_holds(*h, *u, *v, k),
        decreases NOTE_BATCH - i,
    {
        if !check_slot(h, u, v, i) {
            assert(!slot_holds(*h, *u, *v, i as int));
            assert(!slots_hold(*h, *u, *v)) by {
                reveal(slots_hold);
            }
            return false;
        }
        i += 1;
    }
    v.slots[NOTE_BATCH - 1].root_after == v.accout.acc_ast_root
}

fn check_withdraw_accounts<H: Fn(Vec<F>, usize) -> Vec<F>>(
    h: &H,
    u: &WithdrawTxPublicInputs,
    v: &WithdrawTxPrivateTargets,
) -> (r: bool)
    requires
        is_sponge(*h),
    ensures
        r == withdraw_accounts_hold(*h, *u, *v),
{
    reveal(withdraw_accounts_hold);
    let nk = derive_nullifier_key(h, &v.accin.private_identifier);
    let accin_comm = derive_account_commitment(h, &v.accin);
    let accout_comm = derive_account_commitment(h, &v.accout);
    let accin_null = derive_account_nullifier(h, &accin_comm, &nk);
    u.accin_null == accin_null.0 && u.accout_comm == accout_comm.0
        && conditionally_assert_account_commitment_exists_in_act(
        h,
        &accin_comm,
        u.root,
        u.not_fake_tx,
        &v.accin_act_merkle,
    ) && assert_account_invariants_simple(&v.accin, &v.accout) && assert_subpool_full_proof(
        h,
        v.accin.subpool_id,
        v.approval_key,
        v.rejection_key,
        v.subpool_consume_key,
        u.mainpool_config_root,
        u.not_fake_tx,
        &v.subpool_proof_targets,
    )
}

/// Whether the values of the wires meet the conditions of a withdrawal.
pub fn withdraw_tx_circuit<H: Fn(Vec<F>, usize) -> Vec<F>>(h: &H, t: &WithdrawTxTargets) -> (r: bool)
    requires
        is_sponge(*h),
    ensures
        r == withdraw_tx_holds(*h, *t),
{
    let (u, v) = (&t.public, &t.private);
    if !check_withdraw_accounts(h, u, v) || !check_slots(h, u, v) {
        return false;
    }
    let tx_hash = hash_withdraw_tx(
        h,
        u.accin_null,
        u.accout_comm,
        &u.asset_ids,
        &u.withdrawal_amts,
        &u.w_acc_addr,
    );
    conditional_schnorr_verify_gadget(
        h,
        &tx_hash,
        &v.approval_key,
        u.not_fake_tx,
        &t.approval_sig,
    )
}

/// A withdrawal that meets its conditions keeps the account's identity and keys,
/// and where no slot overflows 256 bits, the balance of each slot falls by exactly
/// its amount.
pub proof fn lemma_withdraw_debits<H: Fn(Vec<F>, usize) -> Vec<F>>(
    h: H,
    t: WithdrawTxTargets,
    i: int,
)
    requires
        withdraw_tx_holds(h, t),
        0 <= i < NOTE_BATCH,
        t.private.slots@[i].accout_amt.value() + t.public.withdrawal_amts@[i].value()
            < u256_bound(),
    ensures
        t.private.slots@[i].accin_amt.value() == t.private.slots@[i].accout_amt.value()
            + t.public.withdrawal_amts@[i].value(),
        identity_kept(t.private.accin, t.private.accout),
        same_auth(t.private.accin, t.private.accout),
{
    reveal(slots_hold);
    reveal(withdraw_accounts_hold);
    assert(slot_holds(h, t.public, t.private, i));
    vstd::arithmetic::div_mod::lemma_small_mod(
        t.private.slots@[i].accout_amt.value() + t.public.withdrawal_amts@[i].value(),
        u256_bound(),
    );
}

/// A withdrawal ready to be proven, real or not.
pub struct BuiltWithdrawTx {
    pub not_fake_tx: bool,
    pub accin: StandardAccount,
    pub withdrawals: Vec<(AssetId, U256)>,
    pub w_acc_addr: [u8; 20],
    pub approval_key: CompPubKey,
    pub rejection_key: CompPubKey,
    pub consume_key: CompPubKey,
    pub state_root: HashOutput,
    pub main_pool_root: HashOutput,
    /// Path of the input account in the commitment tree.
    pub accin_act_path: Vec<MerkleProofStep>,
    /// Wires of the authority proofs.
    pub subpool_proof: SubpoolFullProofTargets,
    /// `Some` for real transactions, `None` for fake ones.
    pub approval_sig: Option<Signature>,
}

/// Whether the wires of a slot are those of a computed slot; `root` is that of the
/// state tree after it.
pub open spec fn slot_wires(
    u: WithdrawTxPublicInputs,
    v: WithdrawTxPrivateTargets,
    s: WithdrawalSlots,
    i: int,
) -> bool {
    let (t, c) = (v.slots@[i], s.slots@[i]);
    &&& u.asset_ids@[i] == c.asset_id
    &&& u.withdrawal_amts@[i] == c.withdrawal_amt
    &&& t.accin_amt == c.accin_amt
    &&& t.accout_amt == c.accout_amt
    &&& t.asset_exists_in_accin == c.exists_in
    &&& t.asset_exists_in_accout == c.exists_out
    &&& t.ast_merkle@ == c.ast_proof.path@
    &&& t.root_after == (if i + 1 < NOTE_BATCH {
        s.slots@[i + 1].ast_proof.root
    } else {
        s.accout.ast.top()
    })
}

impl BuiltWithdrawTx {
    /// Whether the account is whole and the withdrawals can be made.
    pub open spec fn valid<H: Fn(Vec<F>, usize) -> Vec<F>>(&self, h: H) -> bool {
        &&& self.accin.wf(h)
        &&& self.fits()
    }

    /// Whether the withdrawal fits.
    pub fn is_fit(&self) -> (r: bool)
        requires
            self.accin.ast.shape(),
        ensures
            r == self.fits(),
    {
        self.withdrawals.len() <= NOTE_BATCH && (self.withdrawals.len() == NOTE_BATCH
            || self.accin.ast.size() < 1024) && can_withdraw(
            &self.accin.ast,
            self.withdrawals.as_slice(),
        )
    }

    /// What is asked of the withdrawal beyond its state tree: no more withdrawals
    /// than slots, a free leaf for the slots that are left, and every asset there and
    /// not overdrawn.
    pub open spec fn fits(&self) -> bool {
        &&& self.withdrawals@.len() <= NOTE_BATCH
        &&& self.withdrawals@.len() == NOTE_BATCH || self.accin.ast@.len() < 1024
        &&& withdrawable(self.accin.ast@, self.withdrawals@)
    }

    /// Whether the wires, but for those of the signature, are those of the
    /// withdrawal with the given slots.
    pub open spec fn prepared<H: Fn(Vec<F>, usize) -> Vec<F>>(
        &self,
        h: H,
        s: WithdrawalSlots,
        u: WithdrawTxPublicInputs,
        v: WithdrawTxPrivateTargets,
    ) -> bool {
        &&& s.computed(h, &self.accin, self.withdrawals@)
        &&& u.root == self.state_root
        &&& u.mainpool_config_root == self.main_pool_root
        &&& u.not_fake_tx == self.not_fake_tx
        &&& u.accin_null == self.accin.spec_nullifier(h)
        &&& u.accout_comm == s.accout.spec_commitment(h)
        &&& u.w_acc_addr@ == h160_elements(self.w_acc_addr@)
        &&& v.slots@.len() == NOTE_BATCH
        &&& forall|i: int| 0 <= i < NOTE_BATCH ==> #[trigger] slot_wires(u, v, s, i)
        &&& v.accin.stands_for(&self.accin)
        &&& v.accout.stands_for(&s.accout)
        &&& v.accin_act_merkle@ == self.accin_act_path@
        &&& v.approval_key == self.approval_key
        &&& v.rejection_key == self.rejection_key
        &&& v.subpool_consume_key == self.consume_key
        &&& v.subpool_proof_targets.approval_proof@ == self.subpool_proof.approval_proof@
        &&& v.subpool_proof_targets.rejection_proof@ == self.subpool_proof.rejection_proof@
        &&& v.subpool_proof_targets.consume_proof@ == self.subpool_proof.consume_proof@
        &&& v.subpool_proof_targets.main_pool_proof@ == self.subpool_proof.main_pool_proof@
        &&& v.subpool_proof_targets.subpool_config_root == self.subpool_proof.subpool_config_root
    }

    /// Computes the wires but for those of the signature.
    pub fn prepare<H: Fn(Vec<F>, usize) -> Vec<F>>(&self, h: &H) -> (r: (
        WithdrawTxPublicInputs,
        WithdrawTxPrivateTargets,
        WithdrawalSlots,
    ))
        requires
            is_sponge(*h),
            self.valid(*h),
        ensures
            self.prepared(*h, r.2, r.0, r.1),
    {
        let s = compute_withdrawal_slots(h, &self.accin, self.withdrawals.as_slice());
        let (asset_ids, withdrawal_amts) = slot_publics(&s);
        let slots = slot_privates(&s);
        let public = WithdrawTxPublicInputs {
            root: self.state_root,
            mainpool_config_root: self.main_pool_root,
            not_fake_tx: self.not_fake_tx,
            accin_null: self.accin.nullifier(h).0,
            accout_comm: s.accout.commitment(h).0,
            asset_ids,
            withdrawal_amts,
            w_acc_addr: map_h160_to_f(&self.w_acc_addr),
        };
        let private = WithdrawTxPrivateTargets {
            approval_key: self.approval_key,
            rejection_key: self.rejection_key,
            subpool_consume_key: self.consume_key,
            accin: AccountTarget::set_witness(&self.accin),
            accout: AccountTarget::set_witness(&s.accout),
            slots,
            accin_act_merkle: copy_path(&self.accin_act_path),
            subpool_proof_targets: SubpoolFullProofTargets {
                approval_proof: copy_path(&self.subpool_proof.approval_proof),
                rejection_proof: copy_path(&self.subpool_proof.rejection_proof),
                consume_proof: copy_path(&self.subpool_proof.consume_proof),
                main_pool_proof: copy_path(&self.subpool_proof.main_pool_proof),
                subpool_config_root: self.subpool_proof.subpool_config_root,
            },
        };
        proof {
            assert forall|i: int| 0 <= i < NOTE_BATCH implies #[trigger] slot_wires(
                public,
                private,
                s,
                i,
            ) by {
                assert(slot_copied(slots@[i], s, i));
                assert(asset_ids@[i] == s.slots@[i].asset_id);
            }
        }
        (public, private, s)
    }

    /// Whether these are all wires of the withdrawal.
    pub open spec fn witnessed<H: Fn(Vec<F>, usize) -> Vec<F>>(
        &self,
        h: H,
        t: WithdrawTxTargets,
    ) -> bool {
        &&& exists|s: WithdrawalSlots| #[trigger]
            self.prepared(h, s, t.public, t.private)
        &&& wired(
            h,
            self.approval_key,
            t.public.tx_hash(h),
            approval_input(self.approval_sig),
            t.approval_sig,
        )
    }

    /// Computes the values of all wires. Where there is no signature, a fake one
    /// takes its place. `None` where the wires of the signature cannot be computed.
    pub fn set_witness<H: Fn(Vec<F>, usize) -> Vec<F>>(&self, h: &H) -> (r: Option<
        WithdrawTxTargets,
    >)
        requires
            is_sponge(*h),
            self.valid(*h),
        ensures
            r is None ==> exists|
                s: WithdrawalSlots,
                u: WithdrawTxPublicInputs,
                v: WithdrawTxPrivateTargets,
            | #[trigger]
                self.prepared(*h, s, u, v) && !wirable(
                    *h,
                    self.approval_key,
                    u.tx_hash(*h),
                    approval_input(self.approval_sig),
                ),
            r matches Some(t) ==> self.witnessed(*h, t),
    {
        let (public, private, s) = self.prepare(h);
        assert(self.prepared(*h, s, public, private));
        let tx_hash = hash_withdraw_tx(
            h,
            public.accin_null,
            public.accout_comm,
            &public.asset_ids,
            &public.withdrawal_amts,
            &public.w_acc_addr,
        );
        let approval = real_or_fake(
            &self.approval_sig,
            [21, 22, 23, 24, 25],
            [31, 32, 33, 34, 35],
        );
        assert(approval == approval_input(self.approval_sig));
        match signature_wires(h, &self.approval_key, &tx_hash, &approval) {
            None => None,
            Some(approval_sig) => {
                let t = WithdrawTxTargets { public, private, approval_sig };
                assert(self.prepared(*h, s, t.public, t.private));
                Some(t)
            },
        }
    }
}

/// The assets and amounts of computed slots.
pub(crate) fn slot_publics(s: &WithdrawalSlots) -> (r: ([AssetId; NOTE_BATCH], [U256; NOTE_BATCH]))
    requires
        s.slots@.len() == NOTE_BATCH,
    ensures
        forall|i: int|
            0 <= i < NOTE_BATCH ==> #[trigger] r.0@[i] == s.slots@[i].asset_id && r.1@[i]
                == s.slots@[i].withdrawal_amt,
{
    let t = &s.slots;
    (
        [
            t[0].asset_id,
            t[1].asset_id,
            t[2].asset_id,
            t[3].asset_id,
            t[4].asset_id,
            t[5].asset_id,
            t[6].asset_id,
        ],
        [
            t[0].withdrawal_amt,
            t[1].withdrawal_amt,
            t[2].withdrawal_amt,
            t[3].withdrawal_amt,
            t[4].withdrawal_amt,
            t[5].withdrawal_amt,
            t[6].withdrawal_amt,
        ],
    )
}

spec fn slot_copied(t: WithdrawalSlotTargets, s: WithdrawalSlots, i: int) -> bool {
    let c = s.slots@[i];
    &&& t.accin_amt == c.accin_amt
    &&& t.accout_amt == c.accout_amt
    &&& t.asset_exists_in_accin == c.exists_in
    &&& t.asset_exists_in_accout == c.exists_out
    &&& t.ast_merkle@ == c.ast_proof.path@
    &&& t.root_after == (if i + 1 < NOTE_BATCH {
        s.slots@[i + 1].ast_proof.root
    } else {
        s.accout.ast.top()
    })
}

fn slot_privates(s: &WithdrawalSlots) -> (r: Vec<WithdrawalSlotTargets>)
    requires
        s.slots@.len() == NOTE_BATCH,
        s.accout.ast.shape(),
    ensures
        r@.len() == NOTE_BATCH,
        forall|i: int| 0 <= i < NOTE_BATCH ==> slot_copied(#[trigger] r@[i], *s, i),
{
    let mut v: Vec<WithdrawalSlotTargets> = Vec::new();
    let mut i: usize = 0;
    while i < NOTE_BATCH
        invariant
            i <= NOTE_BATCH,
            s.slots@.len() == NOTE_BATCH,
            s.accout.ast.shape(),
            v@.len() == i,
            forall|k: int| 0 <= k < i ==> slot_copied(#[trigger] v@[k], *s, k),
        decreases NOTE_BATCH - i,
    {
        let c = &s.slots[i];
        let root_after = if i + 1 < NOTE_BATCH {
            s.slots[i + 1].ast_proof.root
        } else {
            s.accout.ast.root()
        };
        v.push(
            WithdrawalSlotTargets {
                accin_amt: c.accin_amt,
                accout_amt: c.accout_amt,
                asset_exists_in_accin: c.exists_in,
                asset_exists_in_accout: c.exists_out,
                ast_merkle: copy_path(&c.ast_proof.path),
                root_after,
            },
        );
        i += 1;
    }
    v
}

/// The state trees before two neighbouring slots differ by the withdrawal of the
/// first.
proof fn lemma_slot_update(
    before: Seq<AccountStateTreeLeaf>,
    w: Seq<(AssetId, U256)>,
    i: int,
    mid: Seq<AccountStateTreeLeaf>,
    after: Seq<AccountStateTreeLeaf>,
    index: int,
    x: U256,
)
    requires
        distinct_assets(before),
        0 <= i < w.len(),
        drained(before, w.take(i), mid),
        drained(before, w.take(i + 1), after),
        0 <= index < mid.len(),
        mid[index].asset_id == w[i].0,
        x.value() == mid[index].amount.value() - w[i].1.value(),
    ensures
        has_asset(mid, w[i].0),
        set_balance(mid, w[i].0, x, after),
{
    let a = w[i].0;
    let leaf = AccountStateTreeLeaf { asset_id: a, amount: x };
    assert(w.take(i + 1).drop_last() =~= w.take(i));
    let other = mid.update(index, leaf);
    assert forall|k: int| 0 <= k < before.len() implies after[k] == other[k] by {
        assert(after[k].asset_id == before[k].asset_id);
        assert(mid[k].asset_id == before[k].asset_id);
        assert(mid[index].asset_id == before[index].asset_id);
        if k == index {
            crate::priv_tx::lemma_value_injective(after[k].amount, x);
        } else {
            if k < index {
                assert(before[k].asset_id != before[index].asset_id);
            } else {
                assert(before[index].asset_id != before[k].asset_id);
            }
            crate::priv_tx::lemma_value_injective(after[k].amount, mid[k].amount);
        }
    }
    assert(after =~= other);
    assert(mid[index].asset_id == a);
}

/// The roots before and after a computed slot: those of the state trees that the
/// withdrawals so far leave.
proof fn lemma_slot_roots<H: Fn(Vec<F>, usize) -> Vec<F>>(
    h: H,
    tx: BuiltWithdrawTx,
    s: WithdrawalSlots,
    i: int,
) -> (r: (AccountStateTree, nat))
    requires
        tx.valid(h),
        s.computed(h, &tx.accin, tx.withdrawals@),
        0 <= i < NOTE_BATCH,
    ensures
        slot_leaf(h, &tx.accin, tx.withdrawals@, i, r.0, r.1),
        r.0.has_proof(r.1, s.slots@[i].ast_proof),
        s.slots@[i].ast_proof.root == r.0.top(),
        i == 0 ==> r.0.top() == tx.accin.ast.top(),
{
    let w = tx.withdrawals@;
    let p = s.slots@[i].ast_proof;
    assert(slot_proof(h, &tx.accin, w, i, p));
    let (c, index) = choose|c: AccountStateTree, index: nat| #[trigger]
        slot_leaf(h, &tx.accin, w, i, c, index) && c.has_proof(index, p);
    c.lemma_proof(h, index, p);
    if i == 0 {
        let b = tx.accin.ast@;
        assert(before_slot(w, 0) =~= Seq::empty());
        assert(drained(b, before_slot(w, 0), b));
        lemma_drained_unique(b, before_slot(w, 0), c@, b);
        c.lemma_wf(h);
        tx.accin.ast.lemma_wf(h);
    }
    (c, index)
}

/// The wires of a slot of a withdrawal meet its conditions, where a balance is
/// left after it.
#[verifier::rlimit(60)]
proof fn lemma_slot_satisfied<H: Fn(Vec<F>, usize) -> Vec<F>>(
    h: H,
    tx: BuiltWithdrawTx,
    s: WithdrawalSlots,
    u: WithdrawTxPublicInputs,
    v: WithdrawTxPrivateTargets,
    i: int,
)
    requires
        tx.valid(h),
        tx.prepared(h, s, u, v),
        0 <= i < NOTE_BATCH,
        i < tx.withdrawals@.len() ==> s.slots@[i].accout_amt.value() > 0,
    ensures
        slot_holds(h, u, v, i),
{
    let w = tx.withdrawals@;
    let c = s.slots@[i];
    assert(slot_wires(u, v, s, i));
    assert(slot_of(&tx.accin, w, i, c));
    let (tree, index) = lemma_slot_roots(h, tx, s, i);
    tree.lemma_proof(h, index, c.ast_proof);
    tree.lemma_wf(h);
    assert(root_before(v, i) == tree.top()) by {
        if i > 0 {
            assert(slot_wires(u, v, s, i - 1));
        }
    }
    // The tree after the slot.
    let after = if i + 1 < NOTE_BATCH {
        lemma_slot_roots(h, tx, s, i + 1).0
    } else {
        s.accout.ast
    };
    after.lemma_wf(h);
    assert(v.slots@[i].root_after == after.top());
    assert(drained(tx.accin.ast@, before_slot(w, i + 1), after@));
    tx.accin.ast.lemma_shape();
    tree.lemma_shape();
    if i < w.len() {
        let a = w[i].0;
        if i + 1 == w.len() {
            assert(w.take(i + 1) =~= w);
        }
        lemma_balance_of(tree@, a);
        assert(has_asset(tx.accin.ast@, a));
        lemma_drained_balance(tx.accin.ast@, w.take(i), tree@, a);
        crate::priv_tx::lemma_value_injective(tree@[index as int].amount, c.accin_amt);
        assert(tree@[index as int] == (AccountStateTreeLeaf { asset_id: a, amount: c.accin_amt }));
        lemma_slot_update(tx.accin.ast@, w, i, tree@, after@, index as int, c.accout_amt);
        tree.lemma_path_after_update(&after, h, a, c.accout_amt, index, c.ast_proof);
        vstd::arithmetic::div_mod::lemma_small_mod(
            c.accout_amt.value() + c.withdrawal_amt.value(),
            u256_bound(),
        );
    } else {
        lemma_drained_unique(tx.accin.ast@, w, tree@, after@);
        vstd::arithmetic::div_mod::lemma_small_mod(0, u256_bound());
    }
}

/// The wires computed for a withdrawal meet its conditions, where the account is
/// in the commitment tree, the authority proofs verify, and every withdrawal
/// leaves a balance.
pub proof fn lemma_withdraw_satisfied<H: Fn(Vec<F>, usize) -> Vec<F>>(
    h: H,
    tx: BuiltWithdrawTx,
    s: WithdrawalSlots,
    u: WithdrawTxPublicInputs,
    v: WithdrawTxPrivateTargets,
)
    requires
        tx.valid(h),
        tx.prepared(h, s, u, v),
        !tx.accin.consume_auth.config ==> tx.accin.consume_auth.pk is None,
        tx.accin_act_path@.len() == 32,
        tx.not_fake_tx ==> path_root(h, tx.accin.spec_commitment(h), tx.accin_act_path@)
            == tx.state_root,
        subpool_proven(
            h,
            tx.accin.subpool_id,
            tx.approval_key,
            tx.rejection_key,
            tx.consume_key,
            tx.main_pool_root,
            tx.not_fake_tx,
            tx.subpool_proof,
        ),
        leaves_balances(tx.accin.ast@, tx.withdrawals@),
    ensures
        withdraw_accounts_hold(h, u, v),
        slots_hold(h, u, v),
{
    let w = tx.withdrawals@;
    assert(withdraw_accounts_hold(h, u, v)) by {
        reveal(withdraw_accounts_hold);
        v.accin.lemma_commitment(&tx.accin, h);
        v.accout.lemma_commitment(&s.accout, h);
        lemma_same_key(v.accin.spend_auth, v.accout.spend_auth);
        lemma_same_key(v.accin.consume_pk, v.accout.consume_pk);
    }
    assert forall|i: int| 0 <= i < NOTE_BATCH implies #[trigger] slot_holds(h, u, v, i) by {
        if i < w.len() {
            let a = w[i].0;
            assert(slot_of(&tx.accin, w, i, s.slots@[i]));
            assert(total_of(w, a) < balance_of(tx.accin.ast@, a));
            crate::withdraw_slots::lemma_total_prefix(w, i + 1, a);
            assert(w.take(i + 1).drop_last() =~= w.take(i));
        }
        lemma_slot_satisfied(h, tx, s, u, v, i);
    }
    assert(slot_wires(u, v, s, NOTE_BATCH - 1));
    reveal(slots_hold);
}

} // verus!
