//! Builder for withdrawals.
use vstd::prelude::*;

use crate::account::{PrivateIdentifier, StandardAccount, SubpoolId};
use crate::ast::{balance_of, has_asset, AssetId};
use crate::circuit::{dummy_path, set_dummy_witness, SubpoolFullProofTargets};
use crate::errors::WithdrawTxBuilderError;
use crate::fake_tx::{fake_authority_keys, key_of};
use crate::field::F;
use crate::hash::{digest, is_sponge, HashOutput};
use crate::note::{derive_withdraw_tx_hash, h160_elements, withdraw_tx_preimage};
use crate::params::{NOTE_BATCH, STATE_TREE_DEPTH};
use crate::pool_config::MainPoolConfigTree;
use crate::scalar::Scalar;
use crate::schnorr::{can_sign, is_signature, schnorr_sign, CompPubKey, PrivateKey, Signature};
use crate::spend_builder::{key_of_secret, signer_key};
use crate::tree::{MerkleProof, MerkleTree};
use crate::tx_witness::{authority_wires, set_subpool_full_proof, subpool_leaf};
use crate::u256::U256;
use crate::withdraw_slots::{
    compute_withdrawal_slots, drained, leaves_balances, lemma_total_prefix, total_of,
    WithdrawalSlots,
};
use crate::withdraw_tx::{
    slot_publics, slots_hold, withdraw_accounts_hold, BuiltWithdrawTx, WithdrawTxPrivateTargets,
    WithdrawTxPublicInputs,
};

verus! {

/// Builder for constructing real withdrawal transactions.
pub struct WithdrawRealTxBuilder {
    pub accin: StandardAccount,
    pub w_acc_addr: [u8; 20],
    pub withdrawals: Vec<(AssetId, U256)>,
}

/// Validated, ready-to-sign real withdrawal transaction.
pub struct BuiltWithdrawRealTx {
    pub accin: StandardAccount,
    pub accout: StandardAccount,
    pub withdrawals: Vec<(AssetId, U256)>,
    pub w_acc_addr: [u8; 20],
    pub tx_hash: HashOutput,
    /// Set when `approval_sign` is called.
    pub approval_key: Option<CompPubKey>,
    /// Set when `approval_sign` is called.
    pub approval_sig: Option<Signature>,
}

/// The assets of all slots: those of the withdrawals, then zeros.
pub open spec fn padded_assets(w: Seq<(AssetId, U256)>) -> Seq<AssetId> {
    Seq::new(
        7,
        |i: int|
            if i < w.len() {
                w[i].0
            } else {
                AssetId(F::of(0))
            },
    )
}

/// The amounts of all slots: those of the withdrawals, then zeros.
pub open spec fn padded_amounts(w: Seq<(AssetId, U256)>) -> Seq<U256> {
    Seq::new(
        7,
        |i: int|
            if i < w.len() {
                w[i].1
            } else {
                U256(0, 0, 0, 0)
            },
    )
}

/// The hash of a withdrawal between two accounts.
pub open spec fn withdraw_hash<H: Fn(Vec<F>, usize) -> Vec<F>>(
    h: H,
    accin: &StandardAccount,
    accout: &StandardAccount,
    w: Seq<(AssetId, U256)>,
    addr: Seq<u8>,
) -> HashOutput {
    digest(
        h,
        withdraw_tx_preimage(
            accin.spec_nullifier(h),
            accout.spec_commitment(h),
            padded_assets(w),
            padded_amounts(w),
            h160_elements(addr),
        ),
    )
}

/// Whether a withdrawal takes no more than the balance.
pub open spec fn within_balance(accin: &StandardAccount, w: (AssetId, U256)) -> bool {
    w.1.value() <= balance_of(accin.ast@, w.0)
}

/// Whether no withdrawal, taken alone, takes more than the balance.
pub open spec fn all_within_balance(accin: &StandardAccount, w: Seq<(AssetId, U256)>) -> bool {
    forall|i: int| 0 <= i < w.len() ==> within_balance(accin, #[trigger] w[i])
}

/// Whether the withdrawals of each asset together take no more than its balance.
pub open spec fn none_overdrawn(accin: &StandardAccount, w: Seq<(AssetId, U256)>) -> bool {
    forall|i: int|
        0 <= i < w.len() ==> total_of(w, (#[trigger] w[i]).0) <= balance_of(accin.ast@, w[i].0)
}

/// Whether the withdrawals up to the `i`-th overdraw its asset.
pub open spec fn overdraws(accin: &StandardAccount, w: Seq<(AssetId, U256)>, i: int) -> bool {
    total_of(w.take(i + 1), w[i].0) > balance_of(accin.ast@, w[i].0)
}

/// A withdrawal is no more than all of its asset together.
proof fn lemma_total_single(w: Seq<(AssetId, U256)>, i: int)
    requires
        0 <= i < w.len(),
    ensures
        w[i].1.value() <= total_of(w, w[i].0),
{
    lemma_total_prefix(w, i + 1, w[i].0);
    assert(w.take(i + 1).drop_last() =~= w.take(i));
}

/// Where no withdrawal overdraws its asset when its turn comes, none is overdrawn.
proof fn lemma_none_overdrawn(accin: &StandardAccount, w: Seq<(AssetId, U256)>, a: AssetId, n: int)
    requires
        0 <= n <= w.len(),
        forall|i: int| 0 <= i < w.len() ==> !#[trigger] overdraws(accin, w, i),
    ensures
        total_of(w.take(n), a) <= balance_of(accin.ast@, a),
    decreases n,
{
    if n > 0 {
        lemma_none_overdrawn(accin, w, a, n - 1);
        assert(w.take(n).drop_last() =~= w.take(n - 1));
        assert(!overdraws(accin, w, n - 1));
    }
}

impl WithdrawRealTxBuilder {
    /// What every step of the builder keeps: the account is active, and no more
    /// withdrawals are added than there are slots.
    pub open spec fn wf<H: Fn(Vec<F>, usize) -> Vec<F>>(&self, h: H) -> bool {
        &&& self.accin.wf(h)
        &&& self.accin.nonce.0 != F::of(0)
        &&& self.withdrawals@.len() <= NOTE_BATCH
    }

    /// Create a new withdrawal transaction builder.
    ///
    /// # Errors
    /// - `AccountNotInitialized`: `accin.nonce == 0` (FreshAcc required first)
    pub fn new<H: Fn(Vec<F>, usize) -> Vec<F>>(
        h: &H,
        accin: StandardAccount,
        w_acc_addr: [u8; 20],
    ) -> (r: Result<Self, WithdrawTxBuilderError>)
        requires
            accin.wf(*h),
        ensures
            r is Err <==> accin.nonce.0 == F::of(0),
            r matches Err(e) ==> e == WithdrawTxBuilderError::AccountNotInitialized,
            r matches Ok(b) ==> b.wf(*h) && b.accin == accin && b.w_acc_addr == w_acc_addr
                && b.withdrawals@.len() == 0,
    {
        if accin.nonce.0 == F::zero() {
            return Err(WithdrawTxBuilderError::AccountNotInitialized);
        }
        Ok(WithdrawRealTxBuilder { accin, w_acc_addr, withdrawals: Vec::new() })
    }

    /// Add a withdrawal slot.
    ///
    /// # Errors
    /// - `TooManyWithdrawals`: all slots are taken
    pub fn add_withdrawal(&mut self, asset_id: AssetId, amount: U256) -> (r: Result<
        (),
        WithdrawTxBuilderError,
    >)
        ensures
            r is Err <==> old(self).withdrawals@.len() == NOTE_BATCH,
            r matches Err(e) ==> e == (WithdrawTxBuilderError::TooManyWithdrawals {
                limit: NOTE_BATCH,
            }) && *final(self) == *old(self),
            r is Ok ==> {
                &&& final(self).accin == old(self).accin
                &&& final(self).w_acc_addr == old(self).w_acc_addr
                &&& final(self).withdrawals@ == old(self).withdrawals@.push((asset_id, amount))
            },
    {
        if self.withdrawals.len() == NOTE_BATCH {
            return Err(WithdrawTxBuilderError::TooManyWithdrawals { limit: NOTE_BATCH });
        }
        self.withdrawals.push((asset_id, amount));
        Ok(())
    }

    /// Whether a built transaction is the one of this builder: the output account
    /// has the nonce incremented and the withdrawals debited, and the hash is that
    /// of the accounts, the slots and the address.
    pub open spec fn built<H: Fn(Vec<F>, usize) -> Vec<F>>(
        &self,
        h: H,
        t: BuiltWithdrawRealTx,
    ) -> bool {
        &&& t.accin == self.accin
        &&& t.accout.wf(h)
        &&& t.accout.private_identifier == self.accin.private_identifier
        &&& t.accout.subpool_id == self.accin.subpool_id
        &&& t.accout.nonce.0 == self.accin.nonce.0 + F::of(1)
        &&& t.accout.spend_auth == self.accin.spend_auth
        &&& t.accout.consume_auth == self.accin.consume_auth
        &&& drained(self.accin.ast@, self.withdrawals@, t.accout.ast@)
        &&& t.withdrawals == self.withdrawals
        &&& t.w_acc_addr == self.w_acc_addr
        &&& t.tx_hash == withdraw_hash(
            h,
            &self.accin,
            &t.accout,
            self.withdrawals@,
            self.w_acc_addr@,
        )
        &&& t.approval_key is None
        &&& t.approval_sig is None
    }

    /// Whether an error names the first withdrawal that exceeds its balance.
    pub open spec fn first_excess(&self, e: WithdrawTxBuilderError) -> bool {
        exists|i: int|
            0 <= i < self.withdrawals@.len() && all_within_balance(
                &self.accin,
                self.withdrawals@.take(i),
            ) && !within_balance(&self.accin, #[trigger] self.withdrawals@[i]) && (
            e matches WithdrawTxBuilderError::InsufficientBalance {
                asset_id,
                balance,
                withdrawal,
            } && asset_id == self.withdrawals@[i].0 && balance.value() == balance_of(
                self.accin.ast@,
                self.withdrawals@[i].0,
            ) && withdrawal == self.withdrawals@[i].1)
    }

    /// Whether an error names the first withdrawal that exceeds what the ones before
    /// it leave of the balance.
    pub open spec fn first_overdraft(&self, e: WithdrawTxBuilderError) -> bool {
        let w = self.withdrawals@;
        exists|i: int|
            0 <= i < w.len() && #[trigger] overdraws(&self.accin, w, i) && (forall|j: int|
                0 <= j < i ==> !#[trigger] overdraws(&self.accin, w, j)) && (
            e matches WithdrawTxBuilderError::InsufficientBalance {
                asset_id,
                balance,
                withdrawal,
            } && asset_id == w[i].0 && balance.value() == balance_of(self.accin.ast@, w[i].0)
                - total_of(w.take(i), w[i].0) && withdrawal == w[i].1)
    }

    /// What the withdrawals before the `i`-th leave of the balance of its asset.
    fn left_before(&self, i: usize) -> (r: U256)
        requires
            self.accin.ast.shape(),
            i < self.withdrawals@.len(),
            forall|j: int|
                0 <= j < i ==> !#[trigger] overdraws(&self.accin, self.withdrawals@, j),
        ensures
            r.value() == balance_of(self.accin.ast@, self.withdrawals@[i as int].0) - total_of(
                self.withdrawals@.take(i as int),
                self.withdrawals@[i as int].0,
            ),
    {
        let ghost w = self.withdrawals@;
        let asset_id = self.withdrawals[i].0;
        let mut left = self.accin.ast.balance(asset_id);
        let mut j: usize = 0;
        while j < i
            invariant
                j <= i < w.len(),
                w == self.withdrawals@,
                asset_id == w[i as int].0,
                forall|k: int| 0 <= k < i ==> !#[trigger] overdraws(&self.accin, w, k),
                left.value() == balance_of(self.accin.ast@, asset_id) - total_of(
                    w.take(j as int),
                    asset_id,
                ),
            decreases i - j,
        {
            proof {
                assert(w.take(j + 1).drop_last() =~= w.take(j as int));
                assert(!overdraws(&self.accin, w, j as int));
            }
            if self.withdrawals[j].0 == asset_id {
                left = match left.checked_sub(self.withdrawals[j].1) {
                    Some(d) => d,
                    None => U256::zero(),
                };
            }
            j += 1;
        }
        left
    }

    /// Validate withdrawals and produce a [`BuiltWithdrawRealTx`].
    ///
    /// Where no asset is overdrawn, each withdrawal must be of an asset that is
    /// there: nothing can be withdrawn of one that is not.
    ///
    /// # Errors
    /// - `NoWithdrawals`: no withdrawal slots were added
    /// - `InsufficientBalance`: an asset's balance is less than a requested
    ///   withdrawal, or than all requested withdrawals of the asset together
    pub fn build<H: Fn(Vec<F>, usize) -> Vec<F>>(self, h: &H) -> (r: Result<
        BuiltWithdrawRealTx,
        WithdrawTxBuilderError,
    >)
        requires
            is_sponge(*h),
            self.wf(*h),
            none_overdrawn(&self.accin, self.withdrawals@) ==> forall|i: int|
                0 <= i < self.withdrawals@.len() ==> has_asset(
                    self.accin.ast@,
                    (#[trigger] self.withdrawals@[i]).0,
                ),
            self.withdrawals@.len() == NOTE_BATCH || self.accin.ast@.len() < 1024,
        ensures
            r is Ok <==> self.withdrawals@.len() > 0 && none_overdrawn(
                &self.accin,
                self.withdrawals@,
            ),
            r matches Ok(t) ==> self.built(*h, t),
            r matches Err(e) ==> if self.withdrawals@.len() == 0 {
                e == WithdrawTxBuilderError::NoWithdrawals
            } else if !all_within_balance(&self.accin, self.withdrawals@) {
                self.first_excess(e)
            } else {
                self.first_overdraft(e)
            },
    {
        if self.withdrawals.len() == 0 {
            return Err(WithdrawTxBuilderError::NoWithdrawals);
        }
        let mut i: usize = 0;
        while i < self.withdrawals.len()
            invariant
                i <= self.withdrawals@.len(),
                self.accin.ast.shape(),
                self.withdrawals@.len() > 0,
                forall|k: int|
                    0 <= k < i ==> within_balance(&self.accin, #[trigger] self.withdrawals@[k]),
            decreases self.withdrawals@.len() - i,
        {
            let asset_id = self.withdrawals[i].0;
            let withdrawal = self.withdrawals[i].1;
            let balance = self.accin.ast.balance(asset_id);
            if balance.less_than(&withdrawal) {
                proof {
                    let w = self.withdrawals@;
                    assert(!within_balance(&self.accin, w[i as int]));
                    lemma_total_single(w, i as int);
                    assert forall|k: int| 0 <= k < i implies within_balance(
                        &self.accin,
                        #[trigger] w.take(i as int)[k],
                    ) by {
                        assert(within_balance(&self.accin, w[k]));
                    }
                }
                return Err(
                    WithdrawTxBuilderError::InsufficientBalance { asset_id, balance, withdrawal },
                );
            }
            i += 1;
        }
        assert(all_within_balance(&self.accin, self.withdrawals@));
        let mut i: usize = 0;
        while i < self.withdrawals.len()
            invariant
                i <= self.withdrawals@.len(),
                self.accin.ast.shape(),
                self.withdrawals@.len() > 0,
                all_within_balance(&self.accin, self.withdrawals@),
                forall|k: int|
                    0 <= k < i ==> !#[trigger] overdraws(&self.accin, self.withdrawals@, k),
            decreases self.withdrawals@.len() - i,
        {
            let asset_id = self.withdrawals[i].0;
            let withdrawal = self.withdrawals[i].1;
            let balance = self.left_before(i);
            let ghost w = self.withdrawals@;
            assert(w.take(i + 1).drop_last() =~= w.take(i as int));
            if balance.less_than(&withdrawal) {
                proof {
                    assert(overdraws(&self.accin, w, i as int));
                    lemma_total_prefix(w, i + 1, asset_id);
                    assert(w[i as int].0 == asset_id);
                    assert(!none_overdrawn(&self.accin, w));
                }
                return Err(
                    WithdrawTxBuilderError::InsufficientBalance { asset_id, balance, withdrawal },
                );
            }
            i += 1;
        }
        proof {
            let w = self.withdrawals@;
            assert forall|k: int| 0 <= k < w.len() implies total_of(w, (#[trigger] w[k]).0)
                <= balance_of(self.accin.ast@, w[k].0) by {
                lemma_none_overdrawn(&self.accin, w, w[k].0, w.len() as int);
                assert(w.take(w.len() as int) =~= w);
            }
            assert(none_overdrawn(&self.accin, w));
        }
        let s = compute_withdrawal_slots(h, &self.accin, self.withdrawals.as_slice());
        let (asset_ids, amounts) = slot_publics(&s);
        proof {
            lemma_slot_publics(*h, &self.accin, self.withdrawals@, s, asset_ids@, amounts@);
        }
        let accin_null = self.accin.nullifier(h);
        let WithdrawalSlots { slots: _, accout } = s;
        let tx_hash = derive_withdraw_tx_hash(
            h,
            accin_null,
            accout.commitment(h),
            &asset_ids,
            &amounts,
            &self.w_acc_addr,
        );
        Ok(
            BuiltWithdrawRealTx {
                accin: self.accin,
                accout,
                withdrawals: self.withdrawals,
                w_acc_addr: self.w_acc_addr,
                tx_hash,
                approval_key: None,
                approval_sig: None,
            },
        )
    }
}

/// The assets and amounts of computed slots are those of the withdrawals, padded.
proof fn lemma_slot_publics<H: Fn(Vec<F>, usize) -> Vec<F>>(
    h: H,
    accin: &StandardAccount,
    w: Seq<(AssetId, U256)>,
    s: WithdrawalSlots,
    assets: Seq<AssetId>,
    amounts: Seq<U256>,
)
    requires
        s.computed(h, accin, w),
        assets.len() == 7,
        amounts.len() == 7,
        forall|i: int|
            0 <= i < NOTE_BATCH ==> #[trigger] assets[i] == s.slots@[i].asset_id && amounts[i]
                == s.slots@[i].withdrawal_amt,
    ensures
        assets == padded_assets(w),
        amounts == padded_amounts(w),
{
    assert forall|i: int| 0 <= i < NOTE_BATCH implies assets[i] == padded_assets(w)[i]
        && amounts[i] == padded_amounts(w)[i] by {
        assert(crate::withdraw_slots::slot_of(accin, w, i, s.slots@[i]));
        assert(assets[i] == s.slots@[i].asset_id);
    }
    assert(assets =~= padded_assets(w));
    assert(amounts =~= padded_amounts(w));
}

impl BuiltWithdrawRealTx {
    /// Return the transaction hash that needs to be signed.
    pub fn tx_hash(&self) -> (r: HashOutput)
        ensures
            r == self.tx_hash,
    {
        self.tx_hash
    }

    /// Return the output account (post-withdrawal state).
    pub fn accout(&self) -> (r: &StandardAccount)
        ensures
            *r == self.accout,
    {
        &self.accout
    }

    /// Generate and store an approval signature from the subpool authority key,
    /// with a sampled nonce.
    pub fn approval_sign<H: Fn(Vec<F>, usize) -> Vec<F>>(
        &mut self,
        h: &H,
        approval_sk: &PrivateKey,
        k: Scalar,
    )
        requires
            is_sponge(*h),
            can_sign(*approval_sk, k),
        ensures
            final(self).approval_key is Some,
            key_of_secret(*approval_sk, final(self).approval_key->0),
            final(self).approval_sig is Some,
            is_signature(
                *h,
                *approval_sk,
                old(self).tx_hash.elements(),
                k,
                final(self).approval_sig->0,
            ),
            *final(self) == (BuiltWithdrawRealTx {
                approval_key: final(self).approval_key,
                approval_sig: final(self).approval_sig,
                ..*old(self)
            }),
    {
        let approval_key = signer_key(approval_sk);
        let m = self.tx_hash.to_elements();
        let sig = schnorr_sign(h, approval_sk, m.as_slice(), k);
        self.approval_key = Some(approval_key);
        self.approval_sig = Some(sig);
    }

    /// Whether the account's commitment was inserted into a state tree.
    pub open spec fn stands_in<H: Fn(Vec<F>, usize) -> Vec<F>>(&self, h: H, tree: MerkleTree) -> bool {
        exists|j: nat|
            j < tree.spec_next() && #[trigger] (tree.leaf_at())(j) == self.accin.spec_commitment(h)
    }

    /// Whether a position of a state tree is the first that holds the account.
    pub open spec fn stands_at<H: Fn(Vec<F>, usize) -> Vec<F>>(
        &self,
        h: H,
        tree: MerkleTree,
        i: nat,
    ) -> bool {
        &&& i < tree.spec_next()
        &&& (tree.leaf_at())(i) == self.accin.spec_commitment(h)
        &&& forall|j: nat|
            j < i ==> #[trigger] (tree.leaf_at())(j) != self.accin.spec_commitment(h)
    }

    /// Whether the account's subpool is in the main pool, with the key that
    /// approved and the other two.
    pub open spec fn registered<H: Fn(Vec<F>, usize) -> Vec<F>>(
        &self,
        h: H,
        pool: MainPoolConfigTree,
        rejection_key: CompPubKey,
        consume_key: CompPubKey,
    ) -> bool {
        pool.places().contains_key(
            subpool_leaf(
                h,
                self.approval_key->0,
                rejection_key,
                consume_key,
                self.accin.subpool_id,
            ),
        )
    }

    /// Whether a withdrawal is this one with proofs that the account is in a state
    /// tree and that the keys are those of the subpool.
    pub open spec fn completed<H: Fn(Vec<F>, usize) -> Vec<F>>(
        &self,
        h: H,
        tree: MerkleTree,
        pool: MainPoolConfigTree,
        rejection_key: CompPubKey,
        consume_key: CompPubKey,
        t: BuiltWithdrawTx,
    ) -> bool {
        &&& t.not_fake_tx
        &&& t.accin == self.accin
        &&& t.withdrawals == self.withdrawals
        &&& t.w_acc_addr == self.w_acc_addr
        &&& Some(t.approval_key) == self.approval_key
        &&& t.rejection_key == rejection_key
        &&& t.consume_key == consume_key
        &&& t.state_root == tree.top()
        &&& t.main_pool_root == pool.top()
        &&& exists|i: nat, p: MerkleProof|
            self.stands_at(h, tree, i) && #[trigger] tree.has_proof(i, p)
                && t.accin_act_path@ == p.path@
        &&& authority_wires(
            h,
            t.approval_key,
            rejection_key,
            consume_key,
            self.accin.subpool_id,
            pool,
            t.subpool_proof,
        )
        &&& t.approval_sig == self.approval_sig
    }

    /// Attach state-tree and main-pool proofs to produce a [`BuiltWithdrawTx`].
    ///
    /// # Errors
    /// - `ApprovalSignRequired`: `approval_sign` was not called
    /// - `AccinNotInStateTree`: commitment not present in `state_tree`
    /// - `SubpoolNotFound`: the account's subpool is not in `main_pool`
    pub fn into_withdraw_tx<H: Fn(Vec<F>, usize) -> Vec<F>>(
        self,
        h: &H,
        state_tree: &MerkleTree,
        main_pool: &MainPoolConfigTree,
        rejection_key: CompPubKey,
        consume_key: CompPubKey,
    ) -> (r: Result<BuiltWithdrawTx, WithdrawTxBuilderError>)
        requires
            is_sponge(*h),
            self.accin.wf(*h),
            state_tree.shape(),
            main_pool.wf(*h),
        ensures
            r is Ok <==> {
                &&& self.approval_key is Some
                &&& self.approval_sig is Some
                &&& self.stands_in(*h, *state_tree)
                &&& self.registered(*h, *main_pool, rejection_key, consume_key)
            },
            r matches Err(e) ==> e == (if self.approval_key is None || self.approval_sig is None {
                WithdrawTxBuilderError::ApprovalSignRequired
            } else if !self.stands_in(*h, *state_tree) {
                WithdrawTxBuilderError::AccinNotInStateTree
            } else {
                WithdrawTxBuilderError::SubpoolNotFound
            }),
            r matches Ok(t) ==> self.completed(
                *h,
                *state_tree,
                *main_pool,
                rejection_key,
                consume_key,
                t,
            ),
    {
        let approval_key = match self.approval_key {
            None => {
                return Err(WithdrawTxBuilderError::ApprovalSignRequired);
            },
            Some(k) => k,
        };
        let approval_sig = match self.approval_sig {
            None => {
                return Err(WithdrawTxBuilderError::ApprovalSignRequired);
            },
            Some(s) => s,
        };
        let accin_comm = self.accin.commitment(h).0;
        let pos = match state_tree.position(accin_comm) {
            None => {
                return Err(WithdrawTxBuilderError::AccinNotInStateTree);
            },
            Some(i) => i,
        };
        proof {
            assert(self.stands_at(*h, *state_tree, pos as nat));
            assert((state_tree.leaf_at())(pos as nat) == self.accin.spec_commitment(*h));
            state_tree.lemma_next_in_range();
        }
        let p = state_tree.merkle_proof_at(pos);
        assert(state_tree.has_proof(pos as nat, p));
        let subpool_proof = match set_subpool_full_proof(
            h,
            main_pool,
            approval_key,
            rejection_key,
            consume_key,
            self.accin.subpool_id,
        ) {
            None => {
                return Err(WithdrawTxBuilderError::SubpoolNotFound);
            },
            Some(t) => t,
        };
        let state_root = state_tree.root();
        let main_pool_root = main_pool.root(h);
        Ok(
            BuiltWithdrawTx {
                not_fake_tx: true,
                accin: self.accin,
                withdrawals: self.withdrawals,
                w_acc_addr: self.w_acc_addr,
                approval_key,
                rejection_key,
                consume_key,
                state_root,
                main_pool_root,
                accin_act_path: p.path,
                subpool_proof,
                approval_sig: Some(approval_sig),
            },
        )
    }
}

/// The hash on the wires of a withdrawal is the one that the builder computed and
/// that was signed, and so are the account after it, the assets and the amounts.
pub proof fn lemma_withdraw_hash_signed<H: Fn(Vec<F>, usize) -> Vec<F>>(
    h: H,
    b: WithdrawRealTxBuilder,
    s: BuiltWithdrawRealTx,
    t: BuiltWithdrawTx,
    slots: WithdrawalSlots,
    u: WithdrawTxPublicInputs,
    v: WithdrawTxPrivateTargets,
)
    requires
        b.wf(h),
        b.built(h, s),
        t.accin == b.accin,
        t.withdrawals == b.withdrawals,
        t.w_acc_addr == b.w_acc_addr,
        t.prepared(h, slots, u, v),
    ensures
        u.tx_hash(h) == s.tx_hash,
        u.accout_comm == s.accout.spec_commitment(h),
        u.asset_ids@ == padded_assets(b.withdrawals@),
        u.withdrawal_amts@ == padded_amounts(b.withdrawals@),
{
    let w = b.withdrawals@;
    assert forall|i: int| 0 <= i < NOTE_BATCH implies #[trigger] u.asset_ids@[i]
        == slots.slots@[i].asset_id && u.withdrawal_amts@[i] == slots.slots@[i].withdrawal_amt by {
        assert(crate::withdraw_tx::slot_wires(u, v, slots, i));
    }
    lemma_slot_publics(h, &b.accin, w, slots, u.asset_ids@, u.withdrawal_amts@);
    let (x, y) = (slots.accout, s.accout);
    crate::withdraw_slots::lemma_drained_unique(b.accin.ast@, w, x.ast@, y.ast@);
    x.ast.lemma_wf(h);
    y.ast.lemma_wf(h);
    assert(x.preimage() =~= y.preimage());
}

/// The wires of a withdrawal that was completed from a state tree and a main pool
/// meet the conditions of a withdrawal, where the subpool is still where it was
/// registered and every withdrawal leaves a balance.
pub proof fn lemma_built_withdraw_satisfied<H: Fn(Vec<F>, usize) -> Vec<F>>(
    h: H,
    t: BuiltWithdrawTx,
    tree: MerkleTree,
    i: nat,
    p: MerkleProof,
    pool: MainPoolConfigTree,
    slots: WithdrawalSlots,
    u: WithdrawTxPublicInputs,
    v: WithdrawTxPrivateTargets,
)
    requires
        tree.wf(h),
        tree.spec_depth() == 32,
        i < tree.spec_next(),
        (tree.leaf_at())(i) == t.accin.spec_commitment(h),
        tree.has_proof(i, p),
        t.accin_act_path@ == p.path@,
        t.state_root == tree.top(),
        pool.wf(h),
        t.main_pool_root == pool.top(),
        authority_wires(
            h,
            t.approval_key,
            t.rejection_key,
            t.consume_key,
            t.accin.subpool_id,
            pool,
            t.subpool_proof,
        ),
        crate::tx_laws::still_registered(
            h,
            pool,
            subpool_leaf(
                h,
                t.approval_key,
                t.rejection_key,
                t.consume_key,
                t.accin.subpool_id,
            ),
        ),
        t.valid(h),
        t.prepared(h, slots, u, v),
        !t.accin.consume_auth.config ==> t.accin.consume_auth.pk is None,
        leaves_balances(t.accin.ast@, t.withdrawals@),
    ensures
        withdraw_accounts_hold(h, u, v),
        slots_hold(h, u, v),
{
    tree.lemma_wf_shape(h);
    tree.lemma_next_in_range();
    tree.lemma_proof_verifies(h, i, p);
    crate::tx_laws::lemma_authority_keys(
        h,
        t.approval_key,
        t.rejection_key,
        t.consume_key,
        t.subpool_proof,
        t.accin.subpool_id,
        pool,
        t.not_fake_tx,
    );
    crate::withdraw_tx::lemma_withdraw_satisfied(h, t, slots, u, v);
}

/// Builder for constructing fake (dummy) withdrawal transactions, which pad empty
/// aggregation slots.
#[derive(Clone, Copy, Debug)]
pub struct FakeWithdrawTxBuilder {
    pub state_root: HashOutput,
    pub mainpool_config_root: HashOutput,
}

/// Validated fake withdrawal transaction ready to be converted to
/// [`BuiltWithdrawTx`].
#[derive(Clone, Copy, Debug)]
pub struct BuiltFakeWithdrawTx {
    pub state_root: HashOutput,
    pub mainpool_config_root: HashOutput,
}

impl FakeWithdrawTxBuilder {
    /// Create a new fake withdrawal transaction builder.
    pub fn new(state_root: HashOutput, mainpool_config_root: HashOutput) -> (r: Self)
        ensures
            r.state_root == state_root,
            r.mainpool_config_root == mainpool_config_root,
    {
        FakeWithdrawTxBuilder { state_root, mainpool_config_root }
    }

    /// Build the fake transaction. There is nothing to validate.
    pub fn build(self) -> (r: BuiltFakeWithdrawTx)
        ensures
            r.state_root == self.state_root,
            r.mainpool_config_root == self.mainpool_config_root,
    {
        BuiltFakeWithdrawTx {
            state_root: self.state_root,
            mainpool_config_root: self.mainpool_config_root,
        }
    }
}

impl BuiltFakeWithdrawTx {
    /// Whether a withdrawal is the fake one: zeros, the fixed fake account and the
    /// fixed authority keys.
    pub open spec fn faked<H: Fn(Vec<F>, usize) -> Vec<F>>(&self, h: H, t: BuiltWithdrawTx) -> bool {
        &&& !t.not_fake_tx
        &&& t.valid(h)
        &&& t.accin.spec_is_fresh()
        &&& t.accin.private_identifier == PrivateIdentifier(F::of(1), F::of(2))
        &&& t.accin.subpool_id == SubpoolId(F::of(0))
        &&& t.withdrawals@.len() == 0
        &&& forall|i: int| 0 <= i < 20 ==> #[trigger] t.w_acc_addr@[i] == 0
        &&& key_of([1, 2, 3, 4, 5], t.approval_key)
        &&& key_of([6, 7, 8, 9, 0], t.rejection_key)
        &&& key_of([11, 12, 13, 14, 0], t.consume_key)
        &&& t.state_root == self.state_root
        &&& t.main_pool_root == self.mainpool_config_root
        &&& dummy_path(t.accin_act_path@, 32)
        &&& dummy_path(t.subpool_proof.approval_proof@, 2)
        &&& dummy_path(t.subpool_proof.rejection_proof@, 2)
        &&& dummy_path(t.subpool_proof.consume_proof@, 2)
        &&& dummy_path(t.subpool_proof.main_pool_proof@, 20)
        &&& t.approval_sig is None
    }

    /// Convert this fake transaction into a unified [`BuiltWithdrawTx`].
    pub fn into_withdraw_tx<H: Fn(Vec<F>, usize) -> Vec<F>>(self, h: &H) -> (t: BuiltWithdrawTx)
        requires
            is_sponge(*h),
        ensures
            self.faked(*h, t),
    {
        let (approval_key, rejection_key, consume_key) = fake_authority_keys();
        BuiltWithdrawTx {
            not_fake_tx: false,
            accin: StandardAccount::fake(h),
            withdrawals: Vec::new(),
            w_acc_addr: [0;20],
            approval_key,
            rejection_key,
            consume_key,
            state_root: self.state_root,
            main_pool_root: self.mainpool_config_root,
            accin_act_path: set_dummy_witness(STATE_TREE_DEPTH),
            subpool_proof: SubpoolFullProofTargets::set_fake(),
            approval_sig: None,
        }
    }
}

/// The wires computed for a fake withdrawal meet the conditions of a withdrawal.
pub proof fn lemma_fake_withdraw_satisfied<H: Fn(Vec<F>, usize) -> Vec<F>>(
    h: H,
    b: BuiltFakeWithdrawTx,
    t: BuiltWithdrawTx,
    slots: WithdrawalSlots,
    u: WithdrawTxPublicInputs,
    v: WithdrawTxPrivateTargets,
)
    requires
        b.faked(h, t),
        t.prepared(h, slots, u, v),
    ensures
        withdraw_accounts_hold(h, u, v),
        slots_hold(h, u, v),
{
    crate::withdraw_tx::lemma_withdraw_satisfied(h, t, slots, u, v);
}

} // verus!
