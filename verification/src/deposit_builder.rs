//! Builder for deposits.
use vstd::prelude::*;

use crate::account::{AccountAddress, PrivateIdentifier, StandardAccount, SubpoolId};
use crate::ast::{balance_of, has_asset, set_balance, AssetId};
use crate::built_priv_tx::SubpoolAuthority;
use crate::circuit::{dummy_path, set_dummy_witness, subpool_proven, SubpoolFullProofTargets};
use crate::deposit_tx::{
    deposit_holds, lemma_deposit_satisfied, BuiltDepositTx, DepositTxPrivateTargets,
    DepositTxPublicInputs,
};
use crate::errors::{DepositTxBuilderError, DepositTxSignError, KeyKind};
use crate::fake_tx::{fake_authority_keys, key_of};
use crate::field::F;
use crate::hash::{digest, is_sponge, HashOutput};
use crate::note::{
    deposit_tx_preimage, derive_deposit_tx_hash, h160_elements, DepositNote, NodeIdentifier,
};
use crate::params::STATE_TREE_DEPTH;
use crate::scalar::Scalar;
use crate::schnorr::{can_sign, is_signature, schnorr_sign, CompPubKey, PrivateKey, Signature};
use crate::spend_builder::{key_of_secret, refuses_key, signer_key};
use crate::tree::MerkleTree;
use crate::tx_laws::{lemma_empty_state, lemma_same_key};
use crate::tx_witness::{address_of, asset_place};
use crate::u256::{u256_bound, U256};

verus! {

/// Builder for constructing real deposit transactions with validation.
pub struct DepositTxBuilder {
    pub accin: StandardAccount,
    pub deposit_note: DepositNote,
    pub eth_address: [u8; 20],
}

/// Validated, ready-to-sign real deposit transaction.
pub struct BuiltRealDepositTx {
    pub accin: StandardAccount,
    pub accout: StandardAccount,
    pub deposit_note: DepositNote,
    pub eth_address: [u8; 20],
    pub tx_hash: HashOutput,
    /// Set when `approval_sign` is called.
    pub approval_key: Option<CompPubKey>,
    /// Set when `consume_sign` is called (None if consume is delegated).
    pub consume_sig: Option<Signature>,
    /// Set when `approval_sign` is called.
    pub approval_sig: Option<Signature>,
}

/// The hash of a deposit between two accounts.
pub open spec fn deposit_hash<H: Fn(Vec<F>, usize) -> Vec<F>>(
    h: H,
    accin: &StandardAccount,
    accout: &StandardAccount,
    note: DepositNote,
    eth: Seq<u8>,
) -> HashOutput {
    digest(
        h,
        deposit_tx_preimage(
            accin.spec_nullifier(h),
            accout.spec_commitment(h),
            digest(h, note.preimage()),
            h160_elements(eth),
        ),
    )
}

impl DepositTxBuilder {
    /// What `new` establishes: the account is active and the note is for it.
    pub open spec fn wf<H: Fn(Vec<F>, usize) -> Vec<F>>(&self, h: H) -> bool {
        &&& self.accin.wf(h)
        &&& self.accin.nonce.0 != F::of(0)
        &&& self.deposit_note.recipient == address_of(h, &self.accin)
    }

    /// Create a new deposit transaction builder.
    ///
    /// # Errors
    /// - `AccountNotInitialized`: `accin.nonce == 0` (FreshAcc required first)
    /// - `RecipientMismatch`: the note is not for `accin`
    pub fn new<H: Fn(Vec<F>, usize) -> Vec<F>>(
        h: &H,
        accin: StandardAccount,
        deposit_note: DepositNote,
        eth_address: [u8; 20],
    ) -> (r: Result<Self, DepositTxBuilderError>)
        requires
            is_sponge(*h),
            accin.wf(*h),
        ensures
            r is Ok <==> accin.nonce.0 != F::of(0) && deposit_note.recipient == address_of(
                *h,
                &accin,
            ),
            r matches Err(e) ==> e == (if accin.nonce.0 == F::of(0) {
                DepositTxBuilderError::AccountNotInitialized
            } else {
                DepositTxBuilderError::RecipientMismatch
            }),
            r matches Ok(b) ==> b.wf(*h) && b == (DepositTxBuilder {
                accin,
                deposit_note,
                eth_address,
            }),
    {
        if accin.nonce.0 == F::zero() {
            return Err(DepositTxBuilderError::AccountNotInitialized);
        }
        if deposit_note.recipient != AccountAddress::from_acc(h, &accin) {
            return Err(DepositTxBuilderError::RecipientMismatch);
        }
        Ok(DepositTxBuilder { accin, deposit_note, eth_address })
    }

    /// Whether a built transaction is the one of this builder: the output account
    /// has the nonce incremented and the deposit credited, and the hash is that of
    /// the accounts, the note and the address.
    pub open spec fn built<H: Fn(Vec<F>, usize) -> Vec<F>>(
        &self,
        h: H,
        t: BuiltRealDepositTx,
    ) -> bool {
        &&& t.accin == self.accin
        &&& t.accout.wf(h)
        &&& t.accout.private_identifier == self.accin.private_identifier
        &&& t.accout.subpool_id == self.accin.subpool_id
        &&& t.accout.nonce.0 == self.accin.nonce.0 + F::of(1)
        &&& t.accout.spend_auth == self.accin.spend_auth
        &&& t.accout.consume_auth == self.accin.consume_auth
        &&& exists|amt: U256|
            amt.value() == balance_of(self.accin.ast@, self.deposit_note.asset_id)
                + self.deposit_note.amount.value() && #[trigger] set_balance(
                self.accin.ast@,
                self.deposit_note.asset_id,
                amt,
                t.accout.ast@,
            )
        &&& t.deposit_note == self.deposit_note
        &&& t.eth_address == self.eth_address
        &&& t.tx_hash == deposit_hash(
            h,
            &self.accin,
            &t.accout,
            self.deposit_note,
            self.eth_address@,
        )
        &&& t.approval_key is None
        &&& t.consume_sig is None
        &&& t.approval_sig is None
    }

    /// Compute derived values and produce a [`BuiltRealDepositTx`].
    pub fn build<H: Fn(Vec<F>, usize) -> Vec<F>>(self, h: &H) -> (t: BuiltRealDepositTx)
        requires
            is_sponge(*h),
            self.wf(*h),
            balance_of(self.accin.ast@, self.deposit_note.asset_id)
                + self.deposit_note.amount.value() < u256_bound(),
            has_asset(self.accin.ast@, self.deposit_note.asset_id) || self.accin.ast@.len() < 1024,
        ensures
            self.built(*h, t),
    {
        let asset_id = self.deposit_note.asset_id;
        let accin_amt = self.accin.ast.balance(asset_id);
        let accout_amt = match accin_amt.checked_add(self.deposit_note.amount) {
            Some(a) => a,
            None => U256::zero(),
        };
        let mut accout = self.accin.clone_with_incremented_nonce();
        proof {
            accout.lemma_copy_wf(&self.accin, *h);
        }
        let _ = accout.ast.insert_or_update_asset(h, asset_id, accout_amt);
        assert(set_balance(self.accin.ast@, asset_id, accout_amt, accout.ast@));
        let accin_null = self.accin.nullifier(h);
        let deposit_note_comm = self.deposit_note.commitment(h);
        let tx_hash = derive_deposit_tx_hash(
            h,
            accin_null,
            accout.commitment(h),
            deposit_note_comm,
            &self.eth_address,
        );
        BuiltRealDepositTx {
            accin: self.accin,
            accout,
            deposit_note: self.deposit_note,
            eth_address: self.eth_address,
            tx_hash,
            approval_key: None,
            consume_sig: None,
            approval_sig: None,
        }
    }
}

impl BuiltRealDepositTx {
    /// Return the transaction hash that needs to be signed.
    pub fn tx_hash(&self) -> (r: HashOutput)
        ensures
            r == self.tx_hash,
    {
        self.tx_hash
    }

    /// Generate and store a consume signature, with a sampled nonce.
    ///
    /// Required only when `accin.consume_auth.config == true`.
    ///
    /// # Errors
    /// - `ConsumeDelegated`: `consume_auth.config == false`
    /// - `ConsumeKeyNotSet`: key absent in `consume_auth`
    /// - `KeyMismatch`: provided key does not match `consume_auth.pk`
    pub fn consume_sign<H: Fn(Vec<F>, usize) -> Vec<F>>(
        &mut self,
        h: &H,
        consume_sk: &PrivateKey,
        k: Scalar,
    ) -> (r: Result<(), DepositTxSignError>)
        requires
            is_sponge(*h),
            can_sign(*consume_sk, k),
        ensures
            r is Ok <==> {
                &&& old(self).accin.consume_auth.config
                &&& old(self).accin.consume_auth.pk is Some
                &&& !refuses_key(old(self).accin.consume_auth.pk->0, *consume_sk)
            },
            r is Ok ==> {
                &&& final(self).consume_sig is Some
                &&& is_signature(
                    *h,
                    *consume_sk,
                    old(self).tx_hash.elements(),
                    k,
                    final(self).consume_sig->0,
                )
                &&& *final(self) == (BuiltRealDepositTx {
                    consume_sig: final(self).consume_sig,
                    ..*old(self)
                })
            },
            r matches Err(e) ==> {
                &&& *final(self) == *old(self)
                &&& if !old(self).accin.consume_auth.config {
                    e == DepositTxSignError::ConsumeDelegated
                } else if old(self).accin.consume_auth.pk is None {
                    e == DepositTxSignError::ConsumeKeyNotSet
                } else {
                    e matches DepositTxSignError::KeyMismatch { key_type, expected, provided }
                        && key_type == KeyKind::Consume && expected == old(
                        self,
                    ).accin.consume_auth.pk->0 && key_of_secret(*consume_sk, provided)
                }
            },
    {
        if !self.accin.consume_auth.config {
            return Err(DepositTxSignError::ConsumeDelegated);
        }
        let expected = match self.accin.consume_auth.pk {
            None => {
                return Err(DepositTxSignError::ConsumeKeyNotSet);
            },
            Some(k) => k,
        };
        let provided = signer_key(consume_sk);
        if expected.0.w != provided.0.w {
            return Err(
                DepositTxSignError::KeyMismatch { key_type: KeyKind::Consume, expected, provided },
            );
        }
        let m = self.tx_hash.to_elements();
        self.consume_sig = Some(schnorr_sign(h, consume_sk, m.as_slice(), k));
        Ok(())
    }

    /// Generate and store an approval signature from the subpool authority key,
    /// with a sampled nonce. Also records the approval public key.
    pub fn approval_sign<H: Fn(Vec<F>, usize) -> Vec<F>>(
        &mut self,
        h: &H,
        approval_sk: &PrivateKey,
        k: Scalar,
    )
        requires
            is_sponge(*h),
            can_sign(*approval_sk, k),
        ensures
            final(self).approval_key is Some,
            key_of_secret(*approval_sk, final(self).approval_key->0),
            final(self).approval_sig is Some,
            is_signature(
                *h,
                *approval_sk,
                old(self).tx_hash.elements(),
                k,
                final(self).approval_sig->0,
            ),
            *final(self) == (BuiltRealDepositTx {
                approval_key: final(self).approval_key,
                approval_sig: final(self).approval_sig,
                ..*old(self)
            }),
    {
        let approval_key = signer_key(approval_sk);
        let m = self.tx_hash.to_elements();
        let sig = schnorr_sign(h, approval_sk, m.as_slice(), k);
        self.approval_key = Some(approval_key);
        self.approval_sig = Some(sig);
    }

    /// Whether a position of a state tree is the first that holds the account.
    pub open spec fn stands_at<H: Fn(Vec<F>, usize) -> Vec<F>>(
        &self,
        h: H,
        tree: MerkleTree,
        i: nat,
    ) -> bool {
        &&& i < tree.spec_next()
        &&& (tree.leaf_at())(i) == self.accin.spec_commitment(h)
        &&& forall|j: nat|
            j < i ==> #[trigger] (tree.leaf_at())(j) != self.accin.spec_commitment(h)
    }

    /// Whether the account's commitment was inserted into a state tree.
    pub open spec fn stands_in<H: Fn(Vec<F>, usize) -> Vec<F>>(&self, h: H, tree: MerkleTree) -> bool {
        exists|j: nat|
            j < tree.spec_next() && #[trigger] (tree.leaf_at())(j) == self.accin.spec_commitment(h)
    }

    /// Whether a signature that is needed is missing.
    pub open spec fn consume_missing(&self) -> bool {
        self.accin.consume_auth.config && self.consume_sig is None
    }

    /// Whether a deposit is this one with proofs that the account is in a state tree
    /// and that the keys are those of the subpool.
    pub open spec fn completed<H: Fn(Vec<F>, usize) -> Vec<F>>(
        &self,
        h: H,
        tree: MerkleTree,
        authority: SubpoolAuthority,
        t: BuiltDepositTx,
    ) -> bool {
        &&& t.not_fake_tx
        &&& t.accin == self.accin
        &&& t.accout == self.accout
        &&& t.deposit_note == self.deposit_note
        &&& t.eth_address == self.eth_address
        &&& t.tx_hash == self.tx_hash
        &&& Some(t.approval_key) == self.approval_key
        &&& t.rejection_key == authority.rejection_key
        &&& t.consume_key == authority.consume_key
        &&& t.state_root == tree.top()
        &&& t.main_pool_root == authority.proofs.main_pool_proof.root
        &&& exists|i: nat, p: crate::tree::MerkleProof|
            self.stands_at(h, tree, i) && #[trigger] tree.has_proof(i, p)
                && t.accin_act_path@ == p.path@
        &&& t.subpool_proof.approval_proof@ == authority.proofs.approval_proof.path@
        &&& t.subpool_proof.rejection_proof@ == authority.proofs.rejection_proof.path@
        &&& t.subpool_proof.consume_proof@ == authority.proofs.consume_proof.path@
        &&& t.subpool_proof.main_pool_proof@ == authority.proofs.main_pool_proof.path@
        &&& t.subpool_proof.subpool_config_root == authority.config_root
        &&& t.consume_sig == self.consume_sig
        &&& t.approval_sig == self.approval_sig
    }

    /// Attach state-tree and subpool proofs to produce a [`BuiltDepositTx`].
    ///
    /// Looks up `accin` in `state_tree` by its commitment. The main-pool root is
    /// that of the main-pool proof.
    ///
    /// # Errors
    /// - `ApprovalSignRequired`: `approval_sign` was not called
    /// - `ConsumeSignRequired`: `consume_auth.config == true` but `consume_sign` was
    ///   not called
    /// - `AccinNotInStateTree`: commitment not present in `state_tree`
    pub fn into_deposit_tx<H: Fn(Vec<F>, usize) -> Vec<F>>(
        self,
        h: &H,
        state_tree: &MerkleTree,
        authority: SubpoolAuthority,
    ) -> (r: Result<BuiltDepositTx, DepositTxBuilderError>)
        requires
            is_sponge(*h),
            self.accin.wf(*h),
            state_tree.shape(),
        ensures
            r is Ok <==> {
                &&& self.approval_key is Some
                &&& self.approval_sig is Some
                &&& !self.consume_missing()
                &&& self.stands_in(*h, *state_tree)
            },
            r matches Err(e) ==> e == (if self.approval_key is None || self.approval_sig is None {
                DepositTxBuilderError::ApprovalSignRequired
            } else if self.consume_missing() {
                DepositTxBuilderError::ConsumeSignRequired
            } else {
                DepositTxBuilderError::AccinNotInStateTree
            }),
            r matches Ok(t) ==> self.completed(*h, *state_tree, authority, t),
    {
        let approval_key = match self.approval_key {
            None => {
                return Err(DepositTxBuilderError::ApprovalSignRequired);
            },
            Some(k) => k,
        };
        let approval_sig = match self.approval_sig {
            None => {
                return Err(DepositTxBuilderError::ApprovalSignRequired);
            },
            Some(s) => s,
        };
        if self.accin.consume_auth.config && self.consume_sig.is_none() {
            return Err(DepositTxBuilderError::ConsumeSignRequired);
        }
        let accin_comm = self.accin.commitment(h).0;
        let pos = match state_tree.position(accin_comm) {
            None => {
                return Err(DepositTxBuilderError::AccinNotInStateTree);
            },
            Some(i) => i,
        };
        proof {
            assert(self.stands_at(*h, *state_tree, pos as nat));
            assert((state_tree.leaf_at())(pos as nat) == self.accin.spec_commitment(*h));
            state_tree.lemma_next_in_range();
        }
        let p = state_tree.merkle_proof_at(pos);
        assert(state_tree.has_proof(pos as nat, p));
        let state_root = state_tree.root();
        let main_pool_root = authority.proofs.main_pool_proof.root;
        let subpool_proof = SubpoolFullProofTargets::set_witness(
            &authority.proofs,
            authority.config_root,
        );
        Ok(
            BuiltDepositTx {
                not_fake_tx: true,
                accin: self.accin,
                accout: self.accout,
                deposit_note: self.deposit_note,
                eth_address: self.eth_address,
                tx_hash: self.tx_hash,
                approval_key,
                rejection_key: authority.rejection_key,
                consume_key: authority.consume_key,
                state_root,
                main_pool_root,
                accin_act_path: p.path,
                subpool_proof,
                consume_sig: self.consume_sig,
                approval_sig: Some(approval_sig),
            },
        )
    }
}

/// A deposit that was built, signed and completed has wires that meet the
/// conditions of a deposit, where the authority proofs verify for the key that
/// approved, and its hash is the one that was signed.
pub proof fn lemma_built_deposit_satisfied<H: Fn(Vec<F>, usize) -> Vec<F>>(
    h: H,
    b: DepositTxBuilder,
    s: BuiltRealDepositTx,
    tree: MerkleTree,
    i: nat,
    p: crate::tree::MerkleProof,
    t: BuiltDepositTx,
    u: DepositTxPublicInputs,
    v: DepositTxPrivateTargets,
)
    requires
        b.wf(h),
        b.built(
            h,
            BuiltRealDepositTx { approval_key: None, consume_sig: None, approval_sig: None, ..s },
        ),
        tree.wf(h),
        tree.spec_depth() == 32,
        i < tree.spec_next(),
        (tree.leaf_at())(i) == b.accin.spec_commitment(h),
        tree.has_proof(i, p),
        t.not_fake_tx,
        t.accin == s.accin,
        t.accout == s.accout,
        t.deposit_note == s.deposit_note,
        t.eth_address == s.eth_address,
        t.tx_hash == s.tx_hash,
        t.state_root == tree.top(),
        t.accin_act_path@ == p.path@,
        t.valid(),
        t.prepared(h, u, v),
        !b.accin.consume_auth.config ==> b.accin.consume_auth.pk is None,
        subpool_proven(
            h,
            t.accin.subpool_id,
            t.approval_key,
            t.rejection_key,
            t.consume_key,
            t.main_pool_root,
            true,
            t.subpool_proof,
        ),
    ensures
        deposit_holds(h, u, v),
        u.tx_hash(h) == s.tx_hash,
{
    tree.lemma_wf_shape(h);
    tree.lemma_next_in_range();
    tree.lemma_proof_verifies(h, i, p);
    assert(t.credits(h));
    lemma_deposit_satisfied(h, t, u, v);
}

/// Builder for constructing fake (dummy) deposit transactions, which pad empty
/// aggregation slots.
#[derive(Clone, Copy, Debug)]
pub struct FakeDepositTxBuilder {
    pub state_root: HashOutput,
    pub mainpool_config_root: HashOutput,
}

/// Validated fake deposit transaction, ready to be converted to
/// [`BuiltDepositTx`].
#[derive(Clone, Copy, Debug)]
pub struct BuiltFakeDepositTx {
    pub state_root: HashOutput,
    pub mainpool_config_root: HashOutput,
}

impl FakeDepositTxBuilder {
    /// Create a new fake deposit transaction builder.
    pub fn new(state_root: HashOutput, mainpool_config_root: HashOutput) -> (r: Self)
        ensures
            r.state_root == state_root,
            r.mainpool_config_root == mainpool_config_root,
    {
        FakeDepositTxBuilder { state_root, mainpool_config_root }
    }

    /// Build the fake transaction. There is nothing to validate.
    pub fn build(self) -> (r: BuiltFakeDepositTx)
        ensures
            r.state_root == self.state_root,
            r.mainpool_config_root == self.mainpool_config_root,
    {
        BuiltFakeDepositTx {
            state_root: self.state_root,
            mainpool_config_root: self.mainpool_config_root,
        }
    }
}

/// The note of a fake deposit: nothing, for an account.
pub open spec fn empty_deposit(recipient: AccountAddress) -> DepositNote {
    DepositNote {
        identifier: NodeIdentifier(F::of(0), F::of(0)),
        recipient,
        amount: U256(0, 0, 0, 0),
        asset_id: AssetId(F::of(0)),
    }
}

impl BuiltFakeDepositTx {
    /// Whether a deposit is the fake one: zeros, the fixed fake account and the
    /// fixed authority keys.
    pub open spec fn faked<H: Fn(Vec<F>, usize) -> Vec<F>>(&self, h: H, t: BuiltDepositTx) -> bool {
        &&& !t.not_fake_tx
        &&& t.valid()
        &&& t.accin.wf(h) && t.accin.spec_is_fresh()
        &&& t.accin.private_identifier == PrivateIdentifier(F::of(1), F::of(2))
        &&& t.accin.subpool_id == SubpoolId(F::of(0))
        &&& t.accout.same_but_nonce(&t.accin)
        &&& t.accout.nonce.0 == F::of(1)
        &&& t.deposit_note == empty_deposit(address_of(h, &t.accin))
        &&& forall|i: int| 0 <= i < 20 ==> #[trigger] t.eth_address@[i] == 0
        &&& t.tx_hash == HashOutput(F::of(0), F::of(0), F::of(0), F::of(0))
        &&& key_of([1, 2, 3, 4, 5], t.approval_key)
        &&& key_of([6, 7, 8, 9, 0], t.rejection_key)
        &&& key_of([11, 12, 13, 14, 0], t.consume_key)
        &&& t.state_root == self.state_root
        &&& t.main_pool_root == self.mainpool_config_root
        &&& dummy_path(t.accin_act_path@, 32)
        &&& dummy_path(t.subpool_proof.approval_proof@, 2)
        &&& dummy_path(t.subpool_proof.rejection_proof@, 2)
        &&& dummy_path(t.subpool_proof.consume_proof@, 2)
        &&& dummy_path(t.subpool_proof.main_pool_proof@, 20)
        &&& t.consume_sig is None
        &&& t.approval_sig is None
    }

    /// Convert this fake transaction into a unified [`BuiltDepositTx`].
    pub fn into_deposit_tx<H: Fn(Vec<F>, usize) -> Vec<F>>(self, h: &H) -> (t: BuiltDepositTx)
        requires
            is_sponge(*h),
        ensures
            self.faked(*h, t),
    {
        let (approval_key, rejection_key, consume_key) = fake_authority_keys();
        let accin = StandardAccount::fake(h);
        let accout = accin.clone_with_incremented_nonce();
        proof {
            accout.lemma_copy_wf(&accin, *h);
        }
        let deposit_note = DepositNote {
            identifier: NodeIdentifier::zero(),
            recipient: AccountAddress::from_acc(h, &accin),
            amount: U256::zero(),
            asset_id: AssetId::zero(),
        };
        proof {
            assert(accin.ast@.len() == 0);
            assert(balance_of(accin.ast@, deposit_note.asset_id) == 0);
        }
        BuiltDepositTx {
            not_fake_tx: false,
            accin,
            accout,
            deposit_note,
            eth_address: [0;20],
            tx_hash: HashOutput::zero(),
            approval_key,
            rejection_key,
            consume_key,
            state_root: self.state_root,
            main_pool_root: self.mainpool_config_root,
            accin_act_path: set_dummy_witness(STATE_TREE_DEPTH),
            subpool_proof: SubpoolFullProofTargets::set_fake(),
            consume_sig: None,
            approval_sig: None,
        }
    }
}

/// The wires computed for a fake deposit meet the conditions of a deposit.
pub proof fn lemma_fake_deposit_satisfied<H: Fn(Vec<F>, usize) -> Vec<F>>(
    h: H,
    b: BuiltFakeDepositTx,
    t: BuiltDepositTx,
    u: DepositTxPublicInputs,
    v: DepositTxPrivateTargets,
)
    requires
        b.faked(h, t),
        t.prepared(h, u, v),
    ensures
        deposit_holds(h, u, v),
{
    let accin = t.accin;
    v.accin.lemma_commitment(&accin, h);
    v.accout.lemma_commitment(&t.accout, h);
    assert(crate::freshacc_tx::first_path(&accin, v.accin_ast_merkle@)) by {
        let (index, p) = choose|index: nat, p: crate::tree::MerkleProof|
            index < 1024 && asset_place(&accin, t.deposit_note.asset_id, index as int)
                && #[trigger] accin.ast.has_proof(index, p) && p.path@ == v.accin_ast_merkle@;
        assert(index == 0);
    }
    lemma_empty_state(h, &accin, v.accin_ast_merkle@);
    assert(!has_asset(accin.ast@, t.deposit_note.asset_id));
    assert(v.accin_amt.value() == 0 && v.accout_amt.value() == 0);
    crate::priv_tx::lemma_value_injective(v.accin_amt, U256(0, 0, 0, 0));
    crate::priv_tx::lemma_value_injective(v.accout_amt, U256(0, 0, 0, 0));
    lemma_same_key(v.accin.spend_auth, v.accout.spend_auth);
    lemma_same_key(v.accin.consume_pk, v.accout.consume_pk);
    vstd::arithmetic::div_mod::lemma_small_mod(0, u256_bound());
    reveal(deposit_holds);
}

} // verus!
