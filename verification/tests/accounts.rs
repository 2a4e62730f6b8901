use tessera_client::account::{
    AccountAddress, AddressError, PrivateIdentifier, PublicIdentifier, StandardAccount, SubpoolId,
};
use tessera_client::addition::{checked_sum, u256_addition_chain};
use tessera_client::ast::{AccountStateTree, AccountStateTreeLeaf, AssetId, AssetMapEntry, AstError};
use tessera_client::commitment::Commitment;
use tessera_client::field::F;
use tessera_client::hash::{hash_no_pad, two_to_one, HashOutput};
use tessera_client::hash_gadgets::{
    acc_comm_gadget, note_nullifier_gadget, tx_hash_gadget, BalanceAccountTarget,
};
use tessera_client::note::{
    ast_default_root, compute_note_nullifier, double_hash_native, map_h160_to_f, DepositNote,
    NodeIdentifier, NoteCommitment, NoteNullifier, StandardNote,
};
use tessera_client::public_inputs::{
    accin_nullifier, accout_commitment, act_root, amount, asset_id, asset_ids, batch_common_pis,
    batch_unique_pis, eth_address, input_note_nullifiers, mainpool_config_root, not_fake_tx,
    note_commitment, output_note_commitments, withdrawal_address, withdrawal_amts,
    DepositTxPublicTargets, TxCircuitPublicTargets, WithdrawTxPublicTargets,
};
use tessera_client::schnorr::CompressedPublicKey;
use tessera_client::text::{append_decimal, append_u256};
use tessera_client::u256::{split_limb_sum, U256};

const P: u128 = 0xffff_ffff_0000_0001;

/// A small deterministic sponge: good enough to tell inputs apart.
fn sponge(x: Vec<F>, n: usize) -> Vec<F> {
    let mut s: u128 = 7 + x.len() as u128;
    for e in &x {
        s = (s + e.to_canonical_u64() as u128 + 1) % P;
        s = s * s % P * s % P * 11 % P + 3;
    }
    let mut out = Vec::new();
    for i in 0..n {
        s = (s + i as u128 + 5) % P;
        s = s * s % P * s % P * 13 % P + 1;
        out.push(F::from_canonical_u64((s % P) as u64));
    }
    out
}

fn f(n: u64) -> F {
    F::from_canonical_u64(n)
}

fn max() -> U256 {
    U256(u64::MAX, u64::MAX, u64::MAX, u64::MAX)
}

#[test]
fn test_u256_nine_sum_no_carry() {
    // Ten ones, no carry between the limbs.
    let input = U256::from_u64(1);
    let chain = [U256::from_u64(1); 9];
    assert_eq!(u256_addition_chain(&input, &chain), U256::from_u64(10));
}

#[test]
fn carries_run_through_all_limbs() {
    let chain = [U256::from_u64(0xffff_ffff); 8];
    assert_eq!(
        u256_addition_chain(&U256::from_u64(0xffff_ffff), &chain),
        U256::from_u64(9 * 0xffff_ffff)
    );
    assert_eq!(u256_addition_chain(&max(), &[U256::from_u64(1)]), U256::zero());
    // nine times the greatest value is minus nine
    let nine = u256_addition_chain(&max(), &[max(); 8]);
    assert_eq!(nine, U256(u64::MAX - 8, u64::MAX, u64::MAX, u64::MAX));
    let s = split_limb_sum(0x8_ffff_fff7);
    assert_eq!((s.limb, s.carry), (0xffff_fff7, 8));
}

#[test]
fn checked_operations_stay_in_range() {
    assert_eq!(max().checked_add(U256::from_u64(1)), None);
    assert_eq!(U256(u64::MAX, 0, 0, 0).checked_add(U256::from_u64(1)), Some(U256(0, 1, 0, 0)));
    assert_eq!(U256::zero().checked_sub(U256::from_u64(1)), None);
    assert_eq!(U256(0, 1, 0, 0).checked_sub(U256::from_u64(1)), Some(U256(u64::MAX, 0, 0, 0)));
    assert!(U256(5, 0, 0, 0).less_than(&U256(0, 0, 0, 1)));
    assert_eq!(checked_sum(&[U256::from_u64(2), U256::from_u64(3)]), Some(U256::from_u64(5)));
    assert_eq!(checked_sum(&[max(), U256::from_u64(1)]), None);
}

#[test]
fn numbers_are_spelled_in_decimal() {
    let mut s = String::new();
    append_decimal(&mut s, 0);
    append_decimal(&mut s, 18446744073709551615);
    assert_eq!(s, "018446744073709551615");
    let mut t = String::new();
    append_u256(&mut t, &max());
    assert_eq!(
        t,
        "115792089237316195423570985008687907853269984665640564039457584007913129639935"
    );
}

#[test]
fn limbs_are_little_endian() {
    let mut v = Vec::new();
    U256(0x1_0000_0002, 3, 0, 0x5_0000_0000).append_limbs(&mut v);
    let got: Vec<u64> = v.iter().map(|x| x.to_canonical_u64()).collect();
    assert_eq!(got, vec![2, 1, 3, 0, 0, 0, 0, 5]);
}

fn account() -> StandardAccount {
    StandardAccount::new_with(&sponge, PrivateIdentifier(f(11), f(22)), SubpoolId(f(1)))
}

#[test]
fn identifiers_are_hashes_with_their_domain() {
    let a = account();
    assert_eq!(a.nk(&sponge).0, hash_no_pad(&sponge, vec![f(12), f(11), f(22)]));
    assert_eq!(a.public_id(&sponge).0, hash_no_pad(&sponge, vec![f(13), f(11), f(22)]));
    let mut v = Vec::new();
    a.commitment(&sponge).0.append_to(&mut v);
    a.nk(&sponge).0.append_to(&mut v);
    assert_eq!(a.nullifier(&sponge).0, hash_no_pad(&sponge, v));
}

#[test]
fn the_nonce_changes_the_commitment_and_nothing_else() {
    let a = account();
    assert!(a.is_fresh());
    let b = a.clone_with_incremented_nonce();
    assert_eq!(b.nonce.0, f(1));
    assert!(!b.is_fresh());
    assert_eq!(a.address(&sponge), b.address(&sponge));
    assert_ne!(a.commitment(&sponge), b.commitment(&sponge));
    assert_eq!(a.duplicate().commitment(&sponge), a.commitment(&sponge));
    let fake = StandardAccount::fake(&sponge);
    assert_eq!(fake.private_identifier, PrivateIdentifier(f(1), f(2)));
}

#[test]
fn addresses_survive_bytes_and_text() {
    let a = AccountAddress::from_acc(&sponge, &account());
    let b = a.to_bytes();
    assert_eq!(&b[0..8], &1u64.to_le_bytes());
    assert_eq!(AccountAddress::from_bytes(&b), Ok(a));
    assert_eq!(AccountAddress::from_hex(&a.to_hex()), Ok(a));
    assert_eq!(a.to_hex().len(), 80);
    assert!(a.to_hex().starts_with("0100000000000000"));
}

#[test]
fn what_is_no_address_is_refused() {
    assert_eq!(AccountAddress::from_bytes(&[0; 39]), Err(AddressError::ByteLength(39)));
    assert_eq!(AccountAddress::from_hex("0102"), Err(AddressError::HexLength(4)));
    let mut bad = "0".repeat(79);
    bad.push('g');
    assert_eq!(AccountAddress::from_hex(&bad), Err(AddressError::HexDigit));
    let upper = "AB".repeat(40);
    assert_eq!(
        AccountAddress::from_hex(&upper),
        AccountAddress::from_bytes(&[0xab; 40])
    );
}

#[test]
fn balances_are_inserted_and_updated() {
    let mut t = AccountStateTree::new(&sponge);
    assert_eq!(t.root(), ast_default_root(&sponge));
    let (a, b) = (AssetId(f(5)), AssetId(f(6)));
    assert_eq!(t.insert_asset(&sponge, a, U256::from_u64(10)), Ok(()));
    assert_eq!(t.insert_asset(&sponge, a, U256::from_u64(10)), Err(AstError::AlreadyExists));
    assert_eq!(t.update_asset(&sponge, b, U256::from_u64(1)), Err(AstError::NotFound));
    assert_eq!(t.insert_or_update_asset(&sponge, b, U256::from_u64(1)), None);
    assert_eq!(
        t.insert_or_update_asset(&sponge, a, U256::from_u64(12)),
        Some(U256::from_u64(10))
    );
    assert_eq!(t.amount_for(a), Some((0, U256::from_u64(12))));
    assert_eq!(t.balance(AssetId(f(7))), U256::zero());
    assert_eq!(t.size(), 2);
    let p = t.merkle_proof_at(1);
    assert!(p.verify(&sponge));
    assert_eq!(p.root, t.root());
    assert_eq!(
        p.leaf,
        (AccountStateTreeLeaf { asset_id: b, amount: U256::from_u64(1) }).commitment(&sponge)
    );
    // the same balances give the same root
    let map = vec![
        AssetMapEntry { asset_id: b, leaf_index: 1, amount: U256::from_u64(1) },
        AssetMapEntry { asset_id: a, leaf_index: 0, amount: U256::from_u64(12) },
    ];
    assert_eq!(AccountStateTree::new_from_asset_map(&sponge, &map).unwrap().root(), t.root());
    let gap = vec![AssetMapEntry { asset_id: a, leaf_index: 1, amount: U256::zero() }];
    assert!(matches!(
        AccountStateTree::new_from_asset_map(&sponge, &gap),
        Err(AstError::NotContiguous { expected: 0 })
    ));
}

#[test]
fn asset_ids_are_canonical() {
    assert_eq!(AssetId::from_u64(7), Some(AssetId(f(7))));
    assert_eq!(AssetId::from_u64(0xffff_ffff_0000_0001), None);
    assert_eq!(AssetId(f(9)).to_u64(), 9);
}

fn note() -> StandardNote {
    let a = AccountAddress::from_acc(&sponge, &account());
    StandardNote::new(
        NodeIdentifier(f(1), f(2)),
        AssetId(f(3)),
        U256::from_u64(4),
        a,
        AccountAddress::zero(),
    )
}

#[test]
fn note_commitments_bind_every_field() {
    let n = note();
    let c = n.commitment(&sponge);
    let other = StandardNote { amt: U256::from_u64(5), ..n };
    assert_ne!(c, other.commitment(&sponge));
    let back = StandardNote { recipient: n.sender, sender: n.recipient, ..n };
    assert_ne!(c, back.commitment(&sponge));
    assert_eq!(n.amt(), U256::from_u64(4));
    let nk = account().nk(&sponge);
    let at0 = compute_note_nullifier(&sponge, &c, f(0), &nk);
    assert_ne!(at0, compute_note_nullifier(&sponge, &c, f(1), &nk));
    let d = HashOutput(f(1), f(2), f(3), f(4));
    assert_eq!(
        double_hash_native(&sponge, d),
        hash_no_pad(&sponge, hash_no_pad(&sponge, d.to_elements().to_vec()).to_elements().to_vec())
    );
}

#[test]
fn deposit_notes_hash_sixteen_elements() {
    let a = account().address(&sponge);
    let n = DepositNote {
        identifier: NodeIdentifier(f(11), f(22)),
        recipient: a,
        amount: U256::from_u64(1000),
        asset_id: AssetId(f(7)),
    };
    let mut v = vec![f(11), f(22), f(1)];
    a.public_id.0.append_to(&mut v);
    n.amount.append_limbs(&mut v);
    v.push(f(7));
    assert_eq!(v.len(), 16);
    assert_eq!(n.commitment(&sponge).0, hash_no_pad(&sponge, v));
}

#[test]
fn ethereum_addresses_are_five_limbs() {
    let b: [u8; 20] = core::array::from_fn(|i| i as u8 + 1);
    let e = map_h160_to_f(&b);
    assert_eq!(e[0].to_canonical_u64(), 0x04030201);
    assert_eq!(e[4].to_canonical_u64(), 0x14131211);
}

fn d(n: u64) -> [F; 4] {
    [f(n), f(n + 1), f(n + 2), f(n + 3)]
}

fn h(n: u64) -> HashOutput {
    HashOutput::from_elements(d(n))
}

#[test]
fn private_public_inputs_keep_their_places() {
    let t = TxCircuitPublicTargets {
        state_root: d(100),
        mainpool_config_root: d(200),
        not_fake_tx: f(1),
        accin_null: d(300),
        accout_comm: d(400),
        inotes_null: core::array::from_fn(|i| d(1000 + 10 * i as u64)),
        onotes_comm: core::array::from_fn(|i| d(2000 + 10 * i as u64)),
    };
    let pis = t.register();
    assert_eq!(pis.len(), 73);
    assert_eq!(act_root(&pis), h(100));
    assert_eq!(mainpool_config_root(&pis), h(200));
    assert_eq!(not_fake_tx(&pis), f(1));
    assert_eq!(accin_nullifier(&pis), h(300));
    assert_eq!(accout_commitment(&pis), h(400));
    assert_eq!(input_note_nullifiers(&pis)[6], h(1060));
    assert_eq!(output_note_commitments(&pis)[1], h(2010));
    assert_eq!(TxCircuitPublicTargets::from_pis(&pis).register(), pis);
    assert_eq!(batch_common_pis(&pis), pis[0..8].to_vec());
    assert_eq!(batch_unique_pis(&pis), t.unique_pi_targets());
    assert_eq!(t.output_commitments()[0], d(400));
    assert_eq!(t.output_commitments()[7], d(2060));
}

#[test]
fn bridge_public_inputs_keep_their_places() {
    let b: [u8; 20] = core::array::from_fn(|i| 3 * i as u8 + 1);
    let x = U256(0x1234_5678_9abc_def0, 7, 0, u64::MAX);
    let limbs = |x: &U256| -> [F; 8] {
        let mut v = Vec::new();
        x.append_limbs(&mut v);
        core::array::from_fn(|i| v[i])
    };
    let t = DepositTxPublicTargets {
        state_root: d(1),
        mainpool_config_root: d(5),
        not_fake_tx: f(0),
        accin_null: d(9),
        accout_comm: d(13),
        note_comm: d(17),
        eth_address: map_h160_to_f(&b),
        amount: limbs(&x),
        asset_id: f(77),
    };
    let pis = t.register();
    assert_eq!(pis.len(), 35);
    assert_eq!(note_commitment(&pis), h(17));
    assert_eq!(eth_address(&pis), b);
    assert_eq!(amount(&pis), x);
    assert_eq!(asset_id(&pis), AssetId(f(77)));
    assert_eq!(DepositTxPublicTargets::from_pis(&pis).register(), pis);
    assert_eq!(t.output_commitment(), d(13));

    let w = WithdrawTxPublicTargets {
        root: d(1),
        mainpool_config_root: d(5),
        not_fake_tx: f(1),
        accin_null: d(9),
        accout_comm: d(13),
        asset_ids: core::array::from_fn(|i| f(i as u64)),
        withdrawal_amts: core::array::from_fn(|i| limbs(&U256::from_u64(100 + i as u64))),
        w_acc_addr: map_h160_to_f(&b),
    };
    let pis = w.register();
    assert_eq!(pis.len(), 85);
    assert_eq!(asset_ids(&pis)[3], AssetId(f(3)));
    assert_eq!(withdrawal_amts(&pis)[6], U256::from_u64(106));
    assert_eq!(withdrawal_address(&pis), b);
    assert_eq!(WithdrawTxPublicTargets::from_pis(&pis).register(), pis);
}

#[test]
fn any_bytes_make_a_commitment() {
    let mut b = [0u8; 32];
    b[0] = 0xff;
    b[7] = 1;
    b[31] = 2;
    let c = Commitment::new_from_bytes(b);
    assert_eq!(c.as_field_elems(), [f(0x7f00_0000_0000_0001), f(0), f(0), f(2)]);
}

#[test]
fn balance_accounts_hash_as_a_small_tree() {
    let key = CompressedPublicKey::from_canonical_u64s([1, 2, 3, 4, 5]);
    let acc = BalanceAccountTarget {
        private_identifier: PrivateIdentifier(f(11), f(22)),
        nonce: f(3),
        subpool_id: SubpoolId(f(1)),
        balance: U256::from_u64(9),
        auth: key,
    };
    let public = PublicIdentifier(h(50));
    let node0 = hash_no_pad(&sponge, vec![f(11), f(22), f(3)]);
    let mut v = Vec::new();
    acc.balance.append_limbs(&mut v);
    key.append_to(&mut v);
    let node1 = hash_no_pad(&sponge, v);
    let node2 = hash_no_pad(&sponge, vec![f(50), f(51), f(52), f(53), f(1)]);
    let top = two_to_one(&sponge, two_to_one(&sponge, node0, node1), node2);
    assert_eq!(acc_comm_gadget(&sponge, &acc, &public).0, top);

    let nc = NoteCommitment(h(60));
    let nk = account().nk(&sponge);
    assert_eq!(
        note_nullifier_gadget(&sponge, &nc, &PrivateIdentifier(f(11), f(22))).0,
        two_to_one(&sponge, nk.0, nc.0)
    );

    // seven nullifiers: three pairs, of which one pair and no more
    let n: [NoteNullifier; 7] = core::array::from_fn(|i| NoteNullifier(h(10 * i as u64)));
    let a = two_to_one(&sponge, n[0].0, n[1].0);
    let b = two_to_one(&sponge, n[2].0, n[3].0);
    assert_eq!(tx_hash_gadget(&sponge, &n), two_to_one(&sponge, a, b));
}

#[test]
fn commitments_keep_their_elements() {
    let e = [f(1), f(2), f(3), F::from_canonical_u64(0xffff_ffff_0000_0000)];
    let c = Commitment::new_from_field_elements(e);
    assert_eq!(c.as_field_elems(), e);
    assert_eq!(c.as_field_hash(), HashOutput::from_elements(e));
    let p = PublicIdentifier(c.as_field_hash());
    assert_eq!(p.0.to_elements(), e);
}
