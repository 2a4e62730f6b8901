use rand_chacha::rand_core::{Rng, SeedableRng};
use rand_chacha::ChaCha8Rng;
use tessera_client::account::{
    AccountAddress, ConsumeAuth, Nonce, PrivateIdentifier, SpendAuth, StandardAccount, SubpoolId,
};
use tessera_client::ast::AssetId;
use tessera_client::built_priv_tx::SubpoolAuthority;
use tessera_client::deposit_builder::{DepositTxBuilder, FakeDepositTxBuilder};
use tessera_client::deposit_tx::deposit_tx_circuit;
use tessera_client::errors::{
    DepositTxBuilderError, DepositTxSignError, KeyKind, WithdrawTxBuilderError,
};
use tessera_client::field::F;
use tessera_client::hash::HashOutput;
use tessera_client::note::{derive_withdraw_tx_hash, DepositNote, NodeIdentifier};
use tessera_client::params::{NOTE_BATCH, STATE_TREE_DEPTH};
use tessera_client::pool_config::{MainPoolConfigTree, SubpoolConfigTree};
use tessera_client::public_inputs::{
    accin_nullifier, accout_commitment, act_root, amount, asset_id, asset_ids, eth_address,
    mainpool_config_root, not_fake_tx, note_commitment, withdrawal_address, withdrawal_amts,
};
use tessera_client::scalar::Scalar;
use tessera_client::schnorr::{compressed_public_key, CompPubKey, PrivateKey};
use tessera_client::tree::MerkleTree;
use tessera_client::u256::U256;
use tessera_client::withdraw_builder::{FakeWithdrawTxBuilder, WithdrawRealTxBuilder};
use tessera_client::withdraw_slots::compute_withdrawal_slots;
use tessera_client::withdraw_tx::withdraw_tx_circuit;

const P: u128 = 0xffff_ffff_0000_0001;

/// A small deterministic sponge: good enough to tell inputs apart.
fn sponge(x: Vec<F>, n: usize) -> Vec<F> {
    let mut s: u128 = 7 + x.len() as u128;
    for e in &x {
        s = (s + e.to_canonical_u64() as u128 + 1) % P;
        s = s * s % P * s % P * 11 % P + 3;
    }
    let mut out = Vec::new();
    for i in 0..n {
        s = (s + i as u128 + 5) % P;
        s = s * s % P * s % P * 13 % P + 1;
        out.push(F::from_canonical_u64((s % P) as u64));
    }
    out
}

fn f(n: u64) -> F {
    F::from_canonical_u64(n)
}

fn key(raw: [u64; 5]) -> PrivateKey {
    PrivateKey::new(Scalar(raw))
}

fn public(sk: &PrivateKey) -> CompPubKey {
    compressed_public_key(sk)
}

fn sample_scalar(rng: &mut ChaCha8Rng) -> Scalar {
    let mut b = [0u8; 40];
    rng.fill_bytes(&mut b);
    Scalar::decode_reduce(&b)
}

fn sample_key(rng: &mut ChaCha8Rng) -> PrivateKey {
    PrivateKey::new(sample_scalar(rng))
}

fn sample_element(rng: &mut ChaCha8Rng) -> F {
    F::from_noncanonical_u64(rng.next_u64())
}

fn sample_account(rng: &mut ChaCha8Rng, subpool_id: SubpoolId) -> StandardAccount {
    let id = PrivateIdentifier(sample_element(rng), sample_element(rng));
    StandardAccount::new_with(&sponge, id, subpool_id)
}

struct Pool {
    approval: PrivateKey,
    rejection: PrivateKey,
    consume: PrivateKey,
    id: SubpoolId,
    config: SubpoolConfigTree,
    main: MainPoolConfigTree,
}

fn pool(approval: PrivateKey, rejection: PrivateKey, consume: PrivateKey) -> Pool {
    let config =
        SubpoolConfigTree::new(&sponge, public(&approval), public(&rejection), public(&consume));
    let id = SubpoolId(f(1));
    let mut main = MainPoolConfigTree::new(&sponge);
    main.set_subpool(&sponge, 0, id, config.root(&sponge));
    Pool { approval, rejection, consume, id, config, main }
}

fn authority(p: &Pool) -> SubpoolAuthority {
    SubpoolAuthority {
        approval_key: public(&p.approval),
        rejection_key: public(&p.rejection),
        consume_key: public(&p.consume),
        config_root: p.config.root(&sponge),
        proofs: p.main.full_subpool_proof(&sponge, &p.config, p.id).unwrap(),
    }
}

fn tree_with(acc: &StandardAccount) -> MerkleTree {
    let mut act = MerkleTree::new(&sponge, STATE_TREE_DEPTH, HashOutput::zero());
    act.insert(&sponge, acc.commitment(&sponge).0).unwrap();
    act
}

fn deposit_to(acc: &StandardAccount) -> DepositNote {
    DepositNote {
        identifier: NodeIdentifier(f(11), f(22)),
        recipient: AccountAddress::from_acc(&sponge, acc),
        amount: U256::from_u64(1000),
        asset_id: AssetId(f(7)),
    }
}

#[test]
fn test_prove_deposit_tx() {
    let mut rng = ChaCha8Rng::seed_from_u64(42);
    let (a, r, c) = (sample_key(&mut rng), sample_key(&mut rng), sample_key(&mut rng));
    let p = pool(a, r, c);
    let mut accin = sample_account(&mut rng, p.id);
    accin.nonce = Nonce(f(1));
    accin.spend_auth = SpendAuth { spend_pk: Some(public(&sample_key(&mut rng))) };
    let act = tree_with(&accin);

    let note = deposit_to(&accin);
    let mut eth = [0u8; 20];
    rng.fill_bytes(&mut eth);

    let accin_null = accin.nullifier(&sponge);
    let mut accout_check = accin.clone_with_incremented_nonce();
    accout_check.ast.insert_or_update_asset(&sponge, AssetId(f(7)), U256::from_u64(1000));

    let mut built = DepositTxBuilder::new(&sponge, accin, note, eth).unwrap().build(&sponge);
    built.approval_sign(&sponge, &p.approval, sample_scalar(&mut rng));
    let tx = built.into_deposit_tx(&sponge, &act, authority(&p)).unwrap();
    let t = tx.set_witness(&sponge).unwrap();
    assert!(deposit_tx_circuit(&sponge, &t));

    let pis = t.public.to_targets().register();
    assert_eq!(act_root(&pis), act.root());
    assert_eq!(mainpool_config_root(&pis), p.main.root(&sponge));
    assert_eq!(not_fake_tx(&pis), f(1));
    assert_eq!(accin_nullifier(&pis), accin_null.0);
    assert_eq!(accout_commitment(&pis), accout_check.commitment(&sponge).0);
    assert_eq!(note_commitment(&pis), note.commitment(&sponge).0);
    assert_eq!(eth_address(&pis), eth);
    assert_eq!(amount(&pis), U256::from_u64(1000));
    assert_eq!(asset_id(&pis), AssetId(f(7)));

    // one unit more is not what was deposited
    let mut more = t;
    more.private.accout_amt = U256::from_u64(1001);
    assert!(!deposit_tx_circuit(&sponge, &more));
}

#[test]
fn test_test_fake_tx() {
    let z = HashOutput::zero();
    let tx = FakeDepositTxBuilder::new(z, z).build().into_deposit_tx(&sponge);
    let t = tx.set_witness(&sponge).unwrap();
    assert!(deposit_tx_circuit(&sponge, &t));
    assert_eq!(not_fake_tx(&t.public.to_targets().register()), f(0));
}

#[test]
fn deposits_to_an_account_with_its_own_consume_key() {
    let mut rng = ChaCha8Rng::seed_from_u64(43);
    let p = pool(key([1, 2, 3, 4, 5]), key([5, 6, 7, 8, 0]), key([9, 10, 11, 12, 0]));
    let own = sample_key(&mut rng);
    let mut accin = sample_account(&mut rng, p.id).clone_with_incremented_nonce();
    accin.consume_auth = ConsumeAuth { config: true, pk: Some(public(&own)) };
    let act = tree_with(&accin);
    let note = deposit_to(&accin);
    let build = || {
        DepositTxBuilder::new(&sponge, accin.duplicate(), note, [3; 20]).unwrap().build(&sponge)
    };

    assert_eq!(
        build().into_deposit_tx(&sponge, &act, authority(&p)).err(),
        Some(DepositTxBuilderError::ApprovalSignRequired)
    );
    let mut tx = build();
    tx.approval_sign(&sponge, &p.approval, sample_scalar(&mut rng));
    assert_eq!(
        tx.into_deposit_tx(&sponge, &act, authority(&p)).err(),
        Some(DepositTxBuilderError::ConsumeSignRequired)
    );
    let mut tx = build();
    assert_eq!(
        tx.consume_sign(&sponge, &p.consume, sample_scalar(&mut rng)).err(),
        Some(DepositTxSignError::KeyMismatch {
            key_type: KeyKind::Consume,
            expected: public(&own),
            provided: public(&p.consume)
        })
    );
    tx.consume_sign(&sponge, &own, sample_scalar(&mut rng)).unwrap();
    tx.approval_sign(&sponge, &p.approval, sample_scalar(&mut rng));
    let t = tx.into_deposit_tx(&sponge, &act, authority(&p)).unwrap().set_witness(&sponge).unwrap();
    assert!(deposit_tx_circuit(&sponge, &t));
}

#[test]
fn deposits_are_refused_where_they_cannot_be() {
    let mut rng = ChaCha8Rng::seed_from_u64(44);
    let id = SubpoolId(f(1));
    let fresh = sample_account(&mut rng, id);
    let note = deposit_to(&fresh);
    let acc = fresh.clone_with_incremented_nonce();
    assert_eq!(
        DepositTxBuilder::new(&sponge, fresh, note, [0; 20]).err(),
        Some(DepositTxBuilderError::AccountNotInitialized)
    );
    let away = DepositNote { recipient: AccountAddress::zero(), ..note };
    assert_eq!(
        DepositTxBuilder::new(&sponge, acc.duplicate(), away, [0; 20]).err(),
        Some(DepositTxBuilderError::RecipientMismatch)
    );
    let mut tx = DepositTxBuilder::new(&sponge, acc, note, [0; 20]).unwrap().build(&sponge);
    let sk = sample_key(&mut rng);
    assert_eq!(
        tx.consume_sign(&sponge, &sk, sample_scalar(&mut rng)).err(),
        Some(DepositTxSignError::ConsumeDelegated)
    );
    tx.approval_sign(&sponge, &sk, sample_scalar(&mut rng));
    let p = pool(key([1, 2, 3, 4, 5]), key([5, 6, 7, 8, 0]), key([9, 10, 11, 12, 0]));
    let empty = MerkleTree::new(&sponge, STATE_TREE_DEPTH, HashOutput::zero());
    assert_eq!(
        tx.into_deposit_tx(&sponge, &empty, authority(&p)).err(),
        Some(DepositTxBuilderError::AccinNotInStateTree)
    );
    assert_eq!(
        DepositTxSignError::ConsumeKeyNotSet.message(),
        "Consume key not set (consume_auth.pk is None)"
    );
    assert_eq!(
        DepositTxBuilderError::RecipientMismatch.message(),
        "Deposit note recipient does not match accin address"
    );
}

fn rich_account(rng: &mut ChaCha8Rng, id: SubpoolId) -> StandardAccount {
    let mut accin = sample_account(rng, id);
    accin.nonce = Nonce(f(1));
    accin.spend_auth = SpendAuth { spend_pk: Some(public(&key([8, 7, 6, 5, 4]))) };
    for (asset, amt) in [(1, 100), (2, 200), (3, 300)] {
        accin.ast.insert_asset(&sponge, AssetId(f(asset)), U256::from_u64(amt)).unwrap();
    }
    accin
}

#[test]
fn test_prove_withdraw_tx() {
    let p = pool(key([1, 2, 3, 4, 5]), key([5, 6, 7, 8, 0]), key([9, 10, 11, 12, 0]));
    let mut rng = ChaCha8Rng::seed_from_u64(2);
    let accin = rich_account(&mut rng, p.id);
    let act = tree_with(&accin);
    assert!(act.merkle_proof(accin.commitment(&sponge).0).unwrap().verify(&sponge));

    let withdrawals =
        [(AssetId(f(2)), U256::from_u64(50)), (AssetId(f(3)), U256::from_u64(60))];
    let slots = compute_withdrawal_slots(&sponge, &accin, &withdrawals);
    let ids: [AssetId; NOTE_BATCH] = core::array::from_fn(|i| slots.slots[i].asset_id);
    let amts: [U256; NOTE_BATCH] = core::array::from_fn(|i| slots.slots[i].withdrawal_amt);
    let tx_hash = derive_withdraw_tx_hash(
        &sponge,
        accin.nullifier(&sponge),
        slots.accout.commitment(&sponge),
        &ids,
        &amts,
        &[0; 20],
    );
    assert_eq!(slots.accout.ast.balance(AssetId(f(2))), U256::from_u64(150));
    assert_eq!(slots.accout.ast.balance(AssetId(f(3))), U256::from_u64(240));

    let accin_null = accin.nullifier(&sponge).0;
    let mut builder = WithdrawRealTxBuilder::new(&sponge, accin, [0; 20]).unwrap();
    for (asset, amt) in withdrawals {
        builder.add_withdrawal(asset, amt).unwrap();
    }
    let mut built = builder.build(&sponge).unwrap();
    assert_eq!(built.tx_hash(), tx_hash);
    let accout_comm = built.accout().commitment(&sponge).0;
    built.approval_sign(&sponge, &p.approval, Scalar([1, 2, 3, 4, 5]));
    let tx = built
        .into_withdraw_tx(&sponge, &act, &p.main, public(&p.rejection), public(&p.consume))
        .unwrap();
    let t = tx.set_witness(&sponge).unwrap();
    assert!(withdraw_tx_circuit(&sponge, &t));

    let pis = t.public.to_targets().register();
    assert_eq!(act_root(&pis), act.root());
    assert_eq!(not_fake_tx(&pis), f(1));
    assert_eq!(accin_nullifier(&pis), accin_null);
    assert_eq!(accout_commitment(&pis), accout_comm);
    assert_eq!(asset_ids(&pis)[0..2], [AssetId(f(2)), AssetId(f(3))]);
    assert_eq!(withdrawal_amts(&pis)[0..2], [U256::from_u64(50), U256::from_u64(60)]);
    assert_eq!(withdrawal_amts(&pis)[2], U256::zero());
    assert_eq!(withdrawal_address(&pis), [0; 20]);

    let mut less = t;
    less.public.withdrawal_amts[0] = U256::from_u64(51);
    assert!(!withdraw_tx_circuit(&sponge, &less));
}

#[test]
fn a_drained_asset_does_not_exist_after_its_slot() {
    let p = pool(key([1, 2, 3, 4, 5]), key([5, 6, 7, 8, 0]), key([9, 10, 11, 12, 0]));
    let mut rng = ChaCha8Rng::seed_from_u64(5);
    let accin = rich_account(&mut rng, p.id);
    let act = tree_with(&accin);
    let mut builder = WithdrawRealTxBuilder::new(&sponge, accin, [9; 20]).unwrap();
    builder.add_withdrawal(AssetId(f(2)), U256::from_u64(150)).unwrap();
    builder.add_withdrawal(AssetId(f(2)), U256::from_u64(50)).unwrap();
    let mut built = builder.build(&sponge).unwrap();
    assert_eq!(built.accout().ast.amount_for(AssetId(f(2))), Some((1, U256::zero())));
    built.approval_sign(&sponge, &p.approval, Scalar([1, 2, 3, 4, 5]));
    let tx = built
        .into_withdraw_tx(&sponge, &act, &p.main, public(&p.rejection), public(&p.consume))
        .unwrap();
    assert!(tx.is_fit());
    let t = tx.set_witness(&sponge).unwrap();
    // the balance is 200: the first slot leaves 50, the second nothing
    assert!(t.private.slots[0].asset_exists_in_accin);
    assert!(t.private.slots[0].asset_exists_in_accout);
    assert_eq!(t.private.slots[0].accout_amt, U256::from_u64(50));
    assert!(t.private.slots[1].asset_exists_in_accin);
    assert!(!t.private.slots[1].asset_exists_in_accout);
    assert_eq!(t.private.slots[1].accout_amt, U256::zero());
    // the leaf keeps its asset, so the path without the asset does not lead to the root
    assert!(!withdraw_tx_circuit(&sponge, &t));
}

#[test]
fn fake_withdrawals_hold() {
    let z = HashOutput::zero();
    let tx = FakeWithdrawTxBuilder::new(z, z).build().into_withdraw_tx(&sponge);
    let t = tx.set_witness(&sponge).unwrap();
    assert!(withdraw_tx_circuit(&sponge, &t));
    assert_eq!(not_fake_tx(&t.public.to_targets().register()), f(0));
}

#[test]
fn withdrawals_are_refused_where_they_cannot_be() {
    let mut rng = ChaCha8Rng::seed_from_u64(3);
    let id = SubpoolId(f(1));
    let fresh = sample_account(&mut rng, id);
    assert_eq!(
        WithdrawRealTxBuilder::new(&sponge, fresh, [0; 20]).err(),
        Some(WithdrawTxBuilderError::AccountNotInitialized)
    );
    let acc = rich_account(&mut rng, id);
    let start = || WithdrawRealTxBuilder::new(&sponge, acc.duplicate(), [1; 20]).unwrap();
    assert_eq!(start().build(&sponge).err(), Some(WithdrawTxBuilderError::NoWithdrawals));
    let mut many = start();
    for _ in 0..7 {
        many.add_withdrawal(AssetId(f(3)), U256::from_u64(1)).unwrap();
    }
    assert_eq!(
        many.add_withdrawal(AssetId(f(3)), U256::from_u64(1)),
        Err(WithdrawTxBuilderError::TooManyWithdrawals { limit: 7 })
    );
    let mut dear = start();
    dear.add_withdrawal(AssetId(f(1)), U256::from_u64(101)).unwrap();
    assert_eq!(
        dear.build(&sponge).err(),
        Some(WithdrawTxBuilderError::InsufficientBalance {
            asset_id: AssetId(f(1)),
            balance: U256::from_u64(100),
            withdrawal: U256::from_u64(101)
        })
    );
    // each passes alone, but not both together
    let mut twice = start();
    twice.add_withdrawal(AssetId(f(1)), U256::from_u64(60)).unwrap();
    twice.add_withdrawal(AssetId(f(1)), U256::from_u64(60)).unwrap();
    assert_eq!(
        twice.build(&sponge).err(),
        Some(WithdrawTxBuilderError::InsufficientBalance {
            asset_id: AssetId(f(1)),
            balance: U256::from_u64(40),
            withdrawal: U256::from_u64(60)
        })
    );
    let p = pool(key([1, 2, 3, 4, 5]), key([5, 6, 7, 8, 0]), key([9, 10, 11, 12, 0]));
    let act = tree_with(&acc);
    let built = || {
        let mut b = start();
        b.add_withdrawal(AssetId(f(1)), U256::from_u64(1)).unwrap();
        b.build(&sponge).unwrap()
    };
    let (r, c) = (public(&p.rejection), public(&p.consume));
    assert_eq!(
        built().into_withdraw_tx(&sponge, &act, &p.main, r, c).err(),
        Some(WithdrawTxBuilderError::ApprovalSignRequired)
    );
    let mut signed = built();
    signed.approval_sign(&sponge, &p.approval, Scalar([1, 2, 3, 4, 5]));
    let empty = MerkleTree::new(&sponge, STATE_TREE_DEPTH, HashOutput::zero());
    assert_eq!(
        signed.into_withdraw_tx(&sponge, &empty, &p.main, r, c).err(),
        Some(WithdrawTxBuilderError::AccinNotInStateTree)
    );
    let mut signed = built();
    signed.approval_sign(&sponge, &p.approval, Scalar([1, 2, 3, 4, 5]));
    assert_eq!(
        signed.into_withdraw_tx(&sponge, &act, &p.main, c, r).err(),
        Some(WithdrawTxBuilderError::SubpoolNotFound)
    );
    assert_eq!(
        WithdrawTxBuilderError::TooManyWithdrawals { limit: 7 }.message(),
        "Too many withdrawals: limit is 7"
    );
}
