use rand_chacha::rand_core::{Rng, SeedableRng};
use rand_chacha::ChaCha8Rng;
use tessera_client::account::{
    AccountAddress, ConsumeAuth, Nonce, PrivateIdentifier, PublicIdentifier, SpendAuth,
    StandardAccount, SubpoolId,
};
use tessera_client::ast::AssetId;
use tessera_client::built_priv_tx::{return_note, BuiltPrivTx, SubpoolAuthority};
use tessera_client::errors::{
    FreshAccTxBuilderError, KeyKind, NoteKind, PrivTxProveError, SpendTxBuilderError, TxSignError,
};
use tessera_client::fake_builder::FakeTxBuilder;
use tessera_client::fake_tx::{set_fake_tx_witness, FakeTxInputs};
use tessera_client::field::F;
use tessera_client::freshacc_builder::FreshAccTxBuilder;
use tessera_client::freshacc_tx::{set_freshacc_tx_witness, FreshAccInputs};
use tessera_client::hash::{hash_no_pad, HashOutput};
use tessera_client::note::{
    derive_priv_tx_hash, double_hash_native, NodeIdentifier, NoteCommitment, NoteNullifier,
    PositionedStandardNode, StandardNote,
};
use tessera_client::params::{DS_PUBLIC_IDENTIFIER, NOTE_BATCH, STATE_TREE_DEPTH};
use tessera_client::pool_config::{MainPoolConfigTree, SubpoolConfigTree};
use tessera_client::priv_tx::{priv_tx_circuit, TxCircuitTargets};
use tessera_client::priv_tx_inputs::PrivTxInputs;
use tessera_client::public_inputs::{accin_nullifier, accout_commitment, act_root, not_fake_tx};
use tessera_client::reject_tx::{set_reject_tx_witness, RejectTxInputs};
use tessera_client::scalar::Scalar;
use tessera_client::schnorr::{compressed_public_key, schnorr_sign, CompPubKey, PrivateKey};
use tessera_client::spend_builder::SpendTxBuilder;
use tessera_client::tree::MerkleTree;
use tessera_client::tx_witness::{set_spend_tx_witness, SpendTxInputs};
use tessera_client::u256::U256;

const P: u128 = 0xffff_ffff_0000_0001;

/// A small deterministic sponge: good enough to tell inputs apart.
fn sponge(x: Vec<F>, n: usize) -> Vec<F> {
    let mut s: u128 = 7 + x.len() as u128;
    for e in &x {
        s = (s + e.to_canonical_u64() as u128 + 1) % P;
        s = s * s % P * s % P * 11 % P + 3;
    }
    let mut out = Vec::new();
    for i in 0..n {
        s = (s + i as u128 + 5) % P;
        s = s * s % P * s % P * 13 % P + 1;
        out.push(F::from_canonical_u64((s % P) as u64));
    }
    out
}

fn f(n: u64) -> F {
    F::from_canonical_u64(n)
}

fn key(raw: [u64; 5]) -> PrivateKey {
    PrivateKey::new(Scalar(raw))
}

fn public(sk: &PrivateKey) -> CompPubKey {
    compressed_public_key(sk)
}

fn sample_scalar(rng: &mut ChaCha8Rng) -> Scalar {
    let mut b = [0u8; 40];
    rng.fill_bytes(&mut b);
    Scalar::decode_reduce(&b)
}

fn sample_key(rng: &mut ChaCha8Rng) -> PrivateKey {
    PrivateKey::new(sample_scalar(rng))
}

fn sample_element(rng: &mut ChaCha8Rng) -> F {
    F::from_noncanonical_u64(rng.next_u64())
}

fn sample_account(rng: &mut ChaCha8Rng, subpool_id: SubpoolId) -> StandardAccount {
    let id = PrivateIdentifier(sample_element(rng), sample_element(rng));
    StandardAccount::new_with(&sponge, id, subpool_id)
}

fn sample_digest(rng: &mut ChaCha8Rng) -> HashOutput {
    HashOutput(
        sample_element(rng),
        sample_element(rng),
        sample_element(rng),
        sample_element(rng),
    )
}

fn sample_digests(rng: &mut ChaCha8Rng, n: usize) -> Vec<HashOutput> {
    (0..n).map(|_| sample_digest(rng)).collect()
}

fn sample_identifier(rng: &mut ChaCha8Rng) -> NodeIdentifier {
    NodeIdentifier(sample_element(rng), sample_element(rng))
}

/// A subpool with its three secret keys, in a main pool of its own.
struct Pool {
    approval: PrivateKey,
    rejection: PrivateKey,
    consume: PrivateKey,
    id: SubpoolId,
    config: SubpoolConfigTree,
    main: MainPoolConfigTree,
}

impl Pool {
    fn new(approval: PrivateKey, rejection: PrivateKey, consume: PrivateKey) -> Pool {
        let config = SubpoolConfigTree::new(
            &sponge,
            public(&approval),
            public(&rejection),
            public(&consume),
        );
        let id = SubpoolId(f(1));
        let mut main = MainPoolConfigTree::new(&sponge);
        main.set_subpool(&sponge, 0, id, config.root(&sponge));
        Pool { approval, rejection, consume, id, config, main }
    }

    fn sampled(rng: &mut ChaCha8Rng) -> Pool {
        let (a, r, c) = (sample_key(rng), sample_key(rng), sample_key(rng));
        Pool::new(a, r, c)
    }

    fn fixed() -> Pool {
        Pool::new(key([2, 3, 4, 5, 6]), key([5, 6, 7, 8, 0]), key([9, 10, 11, 12, 0]))
    }

    fn authority(&self) -> SubpoolAuthority {
        SubpoolAuthority {
            approval_key: public(&self.approval),
            rejection_key: public(&self.rejection),
            consume_key: public(&self.consume),
            config_root: self.config.root(&sponge),
            proofs: self.main.full_subpool_proof(&sponge, &self.config, self.id).unwrap(),
        }
    }
}

fn state_tree() -> MerkleTree {
    MerkleTree::new(&sponge, STATE_TREE_DEPTH, HashOutput::zero())
}

/// An account after its first transaction, with a spend key.
fn spend_test_acc0(rng: &mut ChaCha8Rng, id: SubpoolId) -> (StandardAccount, PrivateKey) {
    let spend_sk = sample_key(rng);
    let mut acc0 = sample_account(rng, id).clone_with_incremented_nonce();
    acc0.spend_auth = SpendAuth { spend_pk: Some(public(&spend_sk)) };
    (acc0, spend_sk)
}

fn public_inputs(t: &TxCircuitTargets) -> Vec<F> {
    t.public.to_targets().register()
}

#[test]
fn freshacc_test_prove_fresh_acc_tx() {
    let mut rng = ChaCha8Rng::seed_from_u64(42);
    let pool = Pool::sampled(&mut rng);
    let accin = sample_account(&mut rng, pool.id);

    let nspend_sk = sample_key(&mut rng);
    let new_spend_auth = SpendAuth { spend_pk: Some(public(&nspend_sk)) };
    let new_consume_auth = accin.consume_auth;

    let mut accout = accin.duplicate();
    accout.nonce = Nonce(f(1));
    accout.spend_auth = new_spend_auth;
    accout.consume_auth = new_consume_auth;
    let dinotes: [HashOutput; NOTE_BATCH] = core::array::from_fn(|_| sample_digest(&mut rng));
    let donotes: [HashOutput; NOTE_BATCH] = core::array::from_fn(|_| sample_digest(&mut rng));
    let nulls: [NoteNullifier; NOTE_BATCH] =
        core::array::from_fn(|i| NoteNullifier(double_hash_native(&sponge, dinotes[i])));
    let comms: [NoteCommitment; NOTE_BATCH] =
        core::array::from_fn(|i| NoteCommitment(double_hash_native(&sponge, donotes[i])));
    let tx_hash = derive_priv_tx_hash(
        &sponge,
        accin.nullifier(&sponge),
        accout.commitment(&sponge),
        &nulls,
        &comms,
    );
    let approval_sig =
        schnorr_sign(&sponge, &pool.approval, &tx_hash.to_elements(), Scalar([1; 5]));

    let inputs = FreshAccInputs {
        accin,
        new_spend_auth,
        new_consume_auth,
        root: HashOutput::zero(),
        approval_key: public(&pool.approval),
        rejection_key: public(&pool.rejection),
        consume_key: public(&pool.consume),
        subpool_id: pool.id,
        main_pool: pool.main,
        approval_sig,
        dinotes,
        donotes,
    };
    let t = set_freshacc_tx_witness(&sponge, &inputs).unwrap();
    assert!(priv_tx_circuit(&sponge, &t));
    let pis = public_inputs(&t);
    assert_eq!(not_fake_tx(&pis), f(1));
    assert_eq!(accin_nullifier(&pis), inputs.accin.nullifier(&sponge).0);
    assert_eq!(accout_commitment(&pis), accout.commitment(&sponge).0);

    // the same through the sum of all kinds
    let t = PrivTxInputs::FreshAcc(inputs).set_witness(&sponge).unwrap();
    assert!(priv_tx_circuit(&sponge, &t));
    // a first transaction that keeps the nonce is none
    let mut stale = t;
    stale.private.accout.nonce = f(0);
    assert!(!priv_tx_circuit(&sponge, &stale));
}

#[test]
fn tests_test_prove_fresh_acc_tx() {
    let mut rng = ChaCha8Rng::seed_from_u64(42);
    let pool = Pool::sampled(&mut rng);
    let accin = sample_account(&mut rng, pool.id);
    let spend_sk = sample_key(&mut rng);
    let tree = state_tree();

    let k = sample_scalar(&mut rng);
    let built = FreshAccTxBuilder::new(&sponge, accin)
        .unwrap()
        .with_new_spend_key(public(&spend_sk))
        .with_delegated_consume()
        .fill_dinotes(sample_digests(&mut rng, 7))
        .fill_donotes(sample_digests(&mut rng, 7))
        .build(&sponge)
        .unwrap()
        .approval_sign(&sponge, &pool.approval, k)
        .with_state_root(tree.root())
        .with_subpool_proof(pool.authority());
    let hash = built.tx_hash();
    let tx = built.into_priv_tx().unwrap();
    assert_eq!(tx.tx_hash, hash);
    let t = tx.set_witness(&sponge).unwrap().unwrap();
    assert!(priv_tx_circuit(&sponge, &t));
    assert_eq!(not_fake_tx(&public_inputs(&t)), f(1));
}

/// Two notes to an account that has no balance yet.
struct TwoNotes {
    acc: StandardAccount,
    sender: AccountAddress,
    tree: MerkleTree,
    notes: [StandardNote; 2],
    positions: [usize; 2],
}

fn two_notes(rng: &mut ChaCha8Rng, id: SubpoolId, sender: AccountAddress) -> TwoNotes {
    let spend_sk = key([999, 1000, 1001, 1002, 0]);
    let mut acc = sample_account(rng, id);
    acc.nonce = Nonce(f(1));
    acc.spend_auth = SpendAuth { spend_pk: Some(public(&spend_sk)) };
    let me = AccountAddress::from_acc(&sponge, &acc);
    let asset = AssetId(f(1));
    let notes = [
        StandardNote::new(sample_identifier(rng), asset, U256::from_u64(100), me, sender),
        StandardNote::new(sample_identifier(rng), asset, U256::from_u64(50), me, sender),
    ];
    let mut tree = state_tree();
    tree.insert(&sponge, acc.commitment(&sponge).0).unwrap();
    let positions = [
        tree.insert(&sponge, notes[0].commitment(&sponge).0).unwrap(),
        tree.insert(&sponge, notes[1].commitment(&sponge).0).unwrap(),
    ];
    TwoNotes { acc, sender, tree, notes, positions }
}

fn note_nulls(s: &TwoNotes, dinotes: &[HashOutput; NOTE_BATCH]) -> [NoteNullifier; NOTE_BATCH] {
    let nk = s.acc.nk(&sponge);
    core::array::from_fn(|i| {
        if i < 2 {
            PositionedStandardNode::from_note(s.notes[i], f(s.positions[i] as u64))
                .nullifier(&sponge, &nk)
        } else {
            NoteNullifier(double_hash_native(&sponge, dinotes[i]))
        }
    })
}

#[test]
fn test_prove_reject_tx() {
    let pool = Pool::fixed();
    let mut rng = ChaCha8Rng::seed_from_u64(99);
    let sender = AccountAddress::new(
        SubpoolId(f(2)),
        PublicIdentifier(hash_no_pad(&sponge, vec![f(DS_PUBLIC_IDENTIFIER), f(77), f(88)])),
    );
    let s = two_notes(&mut rng, pool.id, sender);
    let back: Vec<StandardNote> = s
        .notes
        .iter()
        .map(|n| StandardNote { recipient: s.sender, sender: s.sender, ..*n })
        .collect();

    let dinotes: [HashOutput; NOTE_BATCH] = core::array::from_fn(|_| sample_digest(&mut rng));
    let donotes: [HashOutput; NOTE_BATCH] = core::array::from_fn(|_| sample_digest(&mut rng));
    let comms: [NoteCommitment; NOTE_BATCH] = core::array::from_fn(|i| {
        if i < 2 {
            back[i].commitment(&sponge)
        } else {
            NoteCommitment(double_hash_native(&sponge, donotes[i]))
        }
    });
    let mut accout = s.acc.duplicate();
    accout.nonce = Nonce(f(2));
    let tx_hash = derive_priv_tx_hash(
        &sponge,
        s.acc.nullifier(&sponge),
        accout.commitment(&sponge),
        &note_nulls(&s, &dinotes),
        &comms,
    )
    .to_elements();
    let consume_sig = schnorr_sign(&sponge, &pool.consume, &tx_hash, Scalar([7, 8, 9, 10, 11]));
    let approval_sig = schnorr_sign(&sponge, &pool.approval, &tx_hash, Scalar([1, 2, 3, 4, 5]));

    let accin_act_merkle_proof = s.tree.merkle_proof(s.acc.commitment(&sponge).0).unwrap();
    assert!(accin_act_merkle_proof.verify(&sponge));
    let inputs = RejectTxInputs {
        accin_act_merkle_proof,
        root: s.tree.root(),
        inotes: s.notes.to_vec(),
        inotes_nct_proofs: s.positions.iter().map(|i| s.tree.merkle_proof_at(*i)).collect(),
        onotes: back,
        dinotes,
        donotes,
        approval_key: public(&pool.approval),
        rejection_key: public(&pool.rejection),
        consume_key: public(&pool.consume),
        subpool_id: pool.id,
        main_pool: pool.main,
        consume_sig,
        approval_sig,
        accin: s.acc,
    };
    let t = set_reject_tx_witness(&sponge, &inputs).unwrap();
    assert!(priv_tx_circuit(&sponge, &t));
    // the balance of the account stays
    assert_eq!(t.private.accin_amt, t.private.accout_amt);
    // a rejected note goes back to its sender, and to nobody else
    let mut diverted = t;
    diverted.private.onotes[0].note.recipient = AccountAddress::zero();
    assert!(!priv_tx_circuit(&sponge, &diverted));
}

#[test]
fn test_prove_priv_tx() {
    let pool = Pool::fixed();
    let mut rng = ChaCha8Rng::seed_from_u64(1);
    let acc1 = sample_account(&mut rng, SubpoolId(f(2)));
    let s = two_notes(&mut rng, pool.id, AccountAddress::from_acc(&sponge, &acc1));

    // 100 and 50 come in
    let mut accout = s.acc.duplicate();
    accout.nonce = Nonce(f(2));
    accout.ast.insert_or_update_asset(&sponge, AssetId(f(1)), U256::from_u64(150));

    let dinotes: [HashOutput; NOTE_BATCH] =
        core::array::from_fn(|i| HashOutput::from_elements([f(i as u64); 4]));
    let donotes: [HashOutput; NOTE_BATCH] =
        core::array::from_fn(|i| HashOutput::from_elements([f((i + NOTE_BATCH) as u64); 4]));
    let comms: [NoteCommitment; NOTE_BATCH] =
        core::array::from_fn(|i| NoteCommitment(double_hash_native(&sponge, donotes[i])));
    let nulls = note_nulls(&s, &dinotes);
    let accin_null = s.acc.nullifier(&sponge);
    let tx_hash =
        derive_priv_tx_hash(&sponge, accin_null, accout.commitment(&sponge), &nulls, &comms)
            .to_elements();
    // the consume signature is real: two notes come in and none goes out; the
    // account has no consume key of its own, so the key is that of the subpool
    let consume_sig = schnorr_sign(&sponge, &pool.consume, &tx_hash, Scalar([7, 8, 9, 10, 11]));
    let approval_sig = schnorr_sign(&sponge, &pool.approval, &tx_hash, Scalar([1, 2, 3, 4, 5]));

    let accin_merkle_proof = s.tree.merkle_proof(s.acc.commitment(&sponge).0).unwrap();
    assert!(accin_merkle_proof.verify(&sponge));
    let inputs = SpendTxInputs {
        accin_merkle_proof,
        root: s.tree.root(),
        inotes: s.notes.to_vec(),
        inotes_nct_proofs: s.positions.iter().map(|i| s.tree.merkle_proof_at(*i)).collect(),
        onotes: vec![],
        dinotes,
        donotes,
        approval_key: public(&pool.approval),
        rejection_key: public(&pool.rejection),
        consume_key: public(&pool.consume),
        subpool_id: pool.id,
        main_pool: pool.main,
        spend_sig: None,
        consume_sig: Some(consume_sig),
        approval_sig,
        accin: s.acc,
    };
    let t = set_spend_tx_witness(&sponge, &inputs).unwrap();
    assert!(priv_tx_circuit(&sponge, &t));
    assert_eq!(t.private.accout_amt, U256::from_u64(150));
    let pis = public_inputs(&t);
    assert_eq!(act_root(&pis), s.tree.root());
    assert_eq!(accin_nullifier(&pis), accin_null.0);
    assert_eq!(accout_commitment(&pis), accout.commitment(&sponge).0);

    // what is not conserved does not hold
    let mut more = t;
    more.private.accout_amt = U256::from_u64(151);
    assert!(!priv_tx_circuit(&sponge, &more));
    more.private.accout_amt = U256::from_u64(150);
    assert!(priv_tx_circuit(&sponge, &more));
    more.private.inotes[0].position = f(9);
    assert!(!priv_tx_circuit(&sponge, &more));

    // the account delegates, so the approval is enough
    let unsigned = SpendTxInputs { consume_sig: None, ..inputs };
    let t = set_spend_tx_witness(&sponge, &unsigned).unwrap();
    assert!(priv_tx_circuit(&sponge, &t));
}

#[test]
fn spend_test_fake_tx() {
    let z = HashOutput::zero();
    let inputs = FakeTxInputs {
        root: z,
        mainpool_config_root: z,
        override_an: z,
        override_ac: z,
    };
    let t = set_fake_tx_witness(&sponge, &inputs).unwrap();
    assert!(priv_tx_circuit(&sponge, &t));
    assert_eq!(not_fake_tx(&public_inputs(&t)), f(0));
    let mut real = t;
    real.public.not_fake_tx = true;
    assert!(!priv_tx_circuit(&sponge, &real));
}

#[test]
fn test_fake_spend_tx() {
    let z = HashOutput::zero();
    let tx = FakeTxBuilder::new(z, z).build().into_priv_tx(&sponge);
    let t = tx.set_witness(&sponge).unwrap().unwrap();
    assert!(priv_tx_circuit(&sponge, &t));
}

fn finish(
    built: tessera_client::spend_builder::BuiltSpendTx,
    pool: &Pool,
    tree: &MerkleTree,
    acc: HashOutput,
) -> BuiltPrivTx {
    let inotes = built.inotes.iter().map(|n| tree.merkle_proof_at(n.position)).collect();
    let rejected = built.rejected_inotes.iter().map(|n| tree.merkle_proof_at(n.position)).collect();
    built
        .with_account_path(tree.merkle_proof(acc).unwrap())
        .with_input_notes_path(inotes)
        .with_rejected_notes_path(rejected)
        .with_subpool_proof(pool.authority())
        .into_priv_tx()
        .unwrap()
}

#[test]
fn test_spend_tx_spend_from_balance() {
    let mut rng = ChaCha8Rng::seed_from_u64(202);
    let pool = Pool::sampled(&mut rng);
    let (mut acc0, spend_sk) = spend_test_acc0(&mut rng, pool.id);
    let asset_id = AssetId(f(1));
    acc0.ast.insert_or_update_asset(&sponge, asset_id, U256::from_u64(100));
    let acc1 = sample_account(&mut rng, SubpoolId(f(2)));
    let mut tree = state_tree();
    let comm = acc0.commitment(&sponge).0;
    tree.insert(&sponge, comm).unwrap();

    let to = AccountAddress::from_acc(&sponge, &acc1);
    let built = SpendTxBuilder::new(&sponge, acc0, asset_id)
        .unwrap()
        .add_output_note(&sponge, to, U256::from_u64(50), sample_identifier(&mut rng))
        .unwrap()
        .fill_dinotes(&sponge, sample_digests(&mut rng, 7))
        .fill_donotes(&sponge, sample_digests(&mut rng, 6))
        .build(&sponge)
        .unwrap();
    assert_eq!(built.accout.ast.balance(asset_id), U256::from_u64(50));
    let needs = built.required_signatures();
    assert!(needs.spend && !needs.consume && needs.approval);
    let built = built
        .spend_sign(&sponge, &spend_sk, sample_scalar(&mut rng))
        .unwrap()
        .approval_sign(&sponge, &pool.approval, sample_scalar(&mut rng));
    let tx = finish(built, &pool, &tree, comm);
    let t = tx.set_witness(&sponge).unwrap().unwrap();
    assert!(priv_tx_circuit(&sponge, &t));
    let pis = public_inputs(&t);
    assert_eq!(not_fake_tx(&pis), f(1));
    assert_eq!(act_root(&pis), tree.root());
}

#[test]
fn test_spend_tx_consume_non_delegated() {
    let mut rng = ChaCha8Rng::seed_from_u64(203);
    let pool = Pool::sampled(&mut rng);
    let (mut acc0, _spend_sk) = spend_test_acc0(&mut rng, pool.id);
    let consume_sk = sample_key(&mut rng);
    acc0.consume_auth = ConsumeAuth { config: true, pk: Some(public(&consume_sk)) };
    let acc1 = sample_account(&mut rng, SubpoolId(f(2)));
    let asset_id = AssetId(f(1));
    let n0 = StandardNote::new(
        sample_identifier(&mut rng),
        asset_id,
        U256::from_u64(60),
        AccountAddress::from_acc(&sponge, &acc0),
        AccountAddress::from_acc(&sponge, &acc1),
    );
    let mut tree = state_tree();
    let comm = acc0.commitment(&sponge).0;
    tree.insert(&sponge, comm).unwrap();
    let n0_pos = tree.insert(&sponge, n0.commitment(&sponge).0).unwrap();

    let built = SpendTxBuilder::new(&sponge, acc0, asset_id)
        .unwrap()
        .add_input_note(&sponge, n0, n0_pos)
        .unwrap()
        .fill_dinotes(&sponge, sample_digests(&mut rng, 6))
        .fill_donotes(&sponge, sample_digests(&mut rng, 7))
        .build(&sponge)
        .unwrap()
        .consume_sign(&sponge, &consume_sk, sample_scalar(&mut rng))
        .unwrap()
        .approval_sign(&sponge, &pool.approval, sample_scalar(&mut rng));
    let tx = finish(built, &pool, &tree, comm);
    let t = tx.set_witness(&sponge).unwrap().unwrap();
    assert!(priv_tx_circuit(&sponge, &t));
    let pis = public_inputs(&t);
    assert_eq!(not_fake_tx(&pis), f(1));
    assert_eq!(act_root(&pis), tree.root());
    assert_eq!(t.private.accout_amt, U256::from_u64(60));
    assert_eq!(tx.extract_public_inputs(&sponge).to_targets().register(), pis);
}

/// Consume an input note sent from acc1 to acc0, with delegated consume auth.
///
/// Delegated consume: no separate consume signature is required, the approval covers
/// authorization.
#[test]
fn test_spend_tx_consume_delegated() {
    let mut rng = ChaCha8Rng::seed_from_u64(200);
    let pool = Pool::sampled(&mut rng);
    let (acc0, _spend_sk) = spend_test_acc0(&mut rng, pool.id);
    let acc1 = sample_account(&mut rng, SubpoolId(f(2)));
    let asset_id = AssetId(f(1));
    let n0 = StandardNote::new(
        sample_identifier(&mut rng),
        asset_id,
        U256::from_u64(100),
        AccountAddress::from_acc(&sponge, &acc0),
        AccountAddress::from_acc(&sponge, &acc1),
    );
    let mut tree = state_tree();
    let comm = acc0.commitment(&sponge).0;
    tree.insert(&sponge, comm).unwrap();
    let n0_pos = tree.insert(&sponge, n0.commitment(&sponge).0).unwrap();

    let built = SpendTxBuilder::new(&sponge, acc0, asset_id)
        .unwrap()
        .add_input_note(&sponge, n0, n0_pos)
        .unwrap()
        .fill_dinotes(&sponge, sample_digests(&mut rng, 6))
        .fill_donotes(&sponge, sample_digests(&mut rng, 7))
        .build(&sponge)
        .unwrap();
    let needs = built.required_signatures();
    assert!(!needs.spend && !needs.consume && needs.approval);
    let built = built.approval_sign(&sponge, &pool.approval, sample_scalar(&mut rng));
    let tx = finish(built, &pool, &tree, comm);
    assert!(tx.is_fit());
    let t = tx.set_witness(&sponge).unwrap().unwrap();
    assert!(priv_tx_circuit(&sponge, &t));
    let pis = public_inputs(&t);
    assert_eq!(not_fake_tx(&pis).to_canonical_u64(), 1);
    assert_eq!(act_root(&pis), tree.root());
}

/// Reject an input note sent from acc1 to acc0 (returns it to sender).
///
/// Reject pair: the note is consumed and a mirror output note is produced. No regular
/// input or output notes; approval signature only.
#[test]
fn test_spend_tx_reject_input_note() {
    let mut rng = ChaCha8Rng::seed_from_u64(201);
    let pool = Pool::sampled(&mut rng);
    let (acc0, _spend_sk) = spend_test_acc0(&mut rng, pool.id);
    let acc1 = sample_account(&mut rng, SubpoolId(f(2)));
    let asset_id = AssetId(f(1));
    let from = AccountAddress::from_acc(&sponge, &acc1);
    let n0 = StandardNote::new(
        sample_identifier(&mut rng),
        asset_id,
        U256::from_u64(75),
        AccountAddress::from_acc(&sponge, &acc0),
        from,
    );
    let mut tree = state_tree();
    let comm = acc0.commitment(&sponge).0;
    tree.insert(&sponge, comm).unwrap();
    let n0_pos = tree.insert(&sponge, n0.commitment(&sponge).0).unwrap();

    let built = SpendTxBuilder::new(&sponge, acc0, asset_id)
        .unwrap()
        .add_rejected_note(&sponge, n0, n0_pos)
        .unwrap()
        .fill_dinotes(&sponge, sample_digests(&mut rng, 6))
        .fill_donotes(&sponge, sample_digests(&mut rng, 6))
        .build(&sponge)
        .unwrap();
    let needs = built.required_signatures();
    assert!(!needs.spend && !needs.consume && needs.approval);
    let built = built.approval_sign(&sponge, &pool.approval, sample_scalar(&mut rng));
    let tx = finish(built, &pool, &tree, comm);
    let t = tx.set_witness(&sponge).unwrap().unwrap();
    assert_eq!(t.private.asset_id, asset_id);
    assert!(priv_tx_circuit(&sponge, &t));
    let pis = public_inputs(&t);
    assert_eq!(not_fake_tx(&pis).to_canonical_u64(), 1);
    assert_eq!(act_root(&pis), tree.root());
    // the note goes back, and the balance stays
    let back = return_note(&n0);
    assert_eq!((back.recipient, back.amt), (from, U256::from_u64(75)));
    assert_eq!(t.private.onotes[0].note, back);
    assert_eq!(t.private.accout_amt, U256::zero());
    // a slot that is not marked as returned needs a spend signature
    let mut unmarked = t;
    unmarked.private.returned[0] = false;
    assert!(!priv_tx_circuit(&sponge, &unmarked));
    // and one that does not go back to the sender cannot be marked
    unmarked.private.returned[0] = true;
    assert!(priv_tx_circuit(&sponge, &unmarked));
    unmarked.private.onotes[0].note.recipient = AccountAddress::zero();
    assert!(!priv_tx_circuit(&sponge, &unmarked));
}

#[test]
fn a_new_asset_finds_the_next_free_leaf() {
    let mut rng = ChaCha8Rng::seed_from_u64(204);
    let pool = Pool::sampled(&mut rng);
    let (mut acc0, _) = spend_test_acc0(&mut rng, pool.id);
    acc0.ast.insert_asset(&sponge, AssetId(f(8)), U256::from_u64(5)).unwrap();
    acc0.ast.insert_asset(&sponge, AssetId(f(9)), U256::from_u64(6)).unwrap();
    let me = AccountAddress::from_acc(&sponge, &acc0);
    let asset_id = AssetId(f(1));
    let n0 =
        StandardNote::new(sample_identifier(&mut rng), asset_id, U256::from_u64(7), me, me);
    let mut tree = state_tree();
    let comm = acc0.commitment(&sponge).0;
    tree.insert(&sponge, comm).unwrap();
    let pos = tree.insert(&sponge, n0.commitment(&sponge).0).unwrap();
    let built = SpendTxBuilder::new(&sponge, acc0, asset_id)
        .unwrap()
        .add_input_note(&sponge, n0, pos)
        .unwrap()
        .fill_dinotes(&sponge, sample_digests(&mut rng, 6))
        .fill_donotes(&sponge, sample_digests(&mut rng, 7))
        .build(&sponge)
        .unwrap()
        .approval_sign(&sponge, &pool.approval, sample_scalar(&mut rng));
    assert_eq!(built.accout.ast.amount_for(asset_id), Some((2, U256::from_u64(7))));
    let t = finish(built, &pool, &tree, comm).set_witness(&sponge).unwrap().unwrap();
    assert!(priv_tx_circuit(&sponge, &t));
}

#[test]
fn the_spend_builder_refuses_what_cannot_be() {
    let mut rng = ChaCha8Rng::seed_from_u64(7);
    let id = SubpoolId(f(1));
    let fresh = sample_account(&mut rng, id);
    let asset = AssetId(f(1));
    assert_eq!(
        SpendTxBuilder::new(&sponge, fresh, asset).err(),
        Some(SpendTxBuilderError::AccountNotInitialized)
    );
    let (acc, _) = spend_test_acc0(&mut rng, id);
    let me = AccountAddress::from_acc(&sponge, &acc);
    let one = U256::from_u64(1);
    let note = StandardNote::new(sample_identifier(&mut rng), asset, one, me, me);
    let start = || SpendTxBuilder::new(&sponge, acc.duplicate(), asset).unwrap();
    let other = AssetId(f(2));
    assert_eq!(
        start().add_input_note(&sponge, StandardNote { asset_id: other, ..note }, 0).err(),
        Some(SpendTxBuilderError::AssetMismatch { expected: asset, got: other })
    );
    let away = StandardNote { recipient: AccountAddress::zero(), ..note };
    assert_eq!(
        start().add_input_note(&sponge, away, 0).err(),
        Some(SpendTxBuilderError::RecipientMismatch)
    );
    assert_eq!(
        start().add_rejected_note(&sponge, away, 0).err(),
        Some(SpendTxBuilderError::RecipientMismatch)
    );
    assert_eq!(start().build(&sponge).err(), Some(SpendTxBuilderError::NoActiveNotes));
    let dear = start().add_output_note(&sponge, me, one, note.identifier).unwrap();
    assert_eq!(
        dear.build(&sponge).err(),
        Some(SpendTxBuilderError::InsufficientBalance {
            old_balance: U256::zero(),
            delta_in: U256::zero(),
            delta_out: one
        })
    );
    let bare = start().add_input_note(&sponge, note, 0).unwrap();
    assert_eq!((bare.free_inputs(), bare.free_outputs()), (6, 7));
    assert_eq!(
        bare.build(&sponge).err(),
        Some(SpendTxBuilderError::DummyNotesNotFilled { kind: NoteKind::Input })
    );
    let half = start()
        .add_input_note(&sponge, note, 0)
        .unwrap()
        .fill_dinotes(&sponge, sample_digests(&mut rng, 6));
    assert_eq!(
        half.build(&sponge).err(),
        Some(SpendTxBuilderError::DummyNotesNotFilled { kind: NoteKind::Output })
    );
    let mut full = start();
    for i in 0..7 {
        full = full.add_input_note(&sponge, note, i).unwrap();
    }
    assert_eq!(
        full.add_input_note(&sponge, note, 7).err(),
        Some(SpendTxBuilderError::NoteBatchLimitReached { kind: NoteKind::Input, limit: 7 })
    );
}

#[test]
fn signatures_are_refused_where_none_is_due() {
    let mut rng = ChaCha8Rng::seed_from_u64(8);
    let (mut acc, spend_sk) = spend_test_acc0(&mut rng, SubpoolId(f(1)));
    let asset = AssetId(f(1));
    acc.ast.insert_or_update_asset(&sponge, asset, U256::from_u64(5));
    let me = AccountAddress::from_acc(&sponge, &acc);
    let one = U256::from_u64(1);
    let note = StandardNote::new(sample_identifier(&mut rng), asset, one, me, me);
    let mut seeds = ChaCha8Rng::seed_from_u64(9);
    let mut consuming = |acc: StandardAccount| {
        SpendTxBuilder::new(&sponge, acc, asset)
            .unwrap()
            .add_input_note(&sponge, note, 3)
            .unwrap()
            .fill_dinotes(&sponge, sample_digests(&mut seeds, 6))
            .fill_donotes(&sponge, sample_digests(&mut seeds, 7))
            .build(&sponge)
            .unwrap()
    };
    let k = sample_scalar(&mut rng);
    assert_eq!(
        consuming(acc.duplicate()).spend_sign(&sponge, &spend_sk, k).err(),
        Some(TxSignError::SpendNotRequired)
    );
    assert_eq!(
        consuming(acc.duplicate()).consume_sign(&sponge, &spend_sk, k).err(),
        Some(TxSignError::ConsumeDelegated)
    );
    let own = sample_key(&mut rng);
    let mut keyed = acc.duplicate();
    keyed.consume_auth = ConsumeAuth { config: true, pk: Some(public(&own)) };
    assert_eq!(
        consuming(keyed).consume_sign(&sponge, &spend_sk, k).err(),
        Some(TxSignError::KeyMismatch {
            key_type: KeyKind::Consume,
            expected: public(&own),
            provided: public(&spend_sk)
        })
    );
    let spending = |acc: StandardAccount| {
        let mut seeds = ChaCha8Rng::seed_from_u64(10);
        SpendTxBuilder::new(&sponge, acc, asset)
            .unwrap()
            .add_output_note(&sponge, me, one, note.identifier)
            .unwrap()
            .fill_dinotes(&sponge, sample_digests(&mut seeds, 7))
            .fill_donotes(&sponge, sample_digests(&mut seeds, 6))
            .build(&sponge)
            .unwrap()
    };
    assert_eq!(
        spending(acc.duplicate()).consume_sign(&sponge, &own, k).err(),
        Some(TxSignError::ConsumeNotRequired { has_input_notes: false, has_output_notes: true })
    );
    assert_eq!(
        spending(acc.duplicate()).spend_sign(&sponge, &own, k).err(),
        Some(TxSignError::KeyMismatch {
            key_type: KeyKind::Spend,
            expected: public(&spend_sk),
            provided: public(&own)
        })
    );
    let mut keyless = acc.duplicate();
    keyless.spend_auth = SpendAuth::unset();
    assert_eq!(
        spending(keyless).spend_sign(&sponge, &own, k).err(),
        Some(TxSignError::SpendKeyNotSet)
    );
    assert_eq!(
        spending(acc).into_priv_tx().err(),
        Some(SpendTxBuilderError::AccountPathNotSet)
    );
}

#[test]
fn the_first_transaction_needs_both_keys() {
    let mut rng = ChaCha8Rng::seed_from_u64(11);
    let id = SubpoolId(f(1));
    let (old, _) = spend_test_acc0(&mut rng, id);
    assert_eq!(
        FreshAccTxBuilder::new(&sponge, old).err(),
        Some(FreshAccTxBuilderError::AccountAlreadyInitialized)
    );
    let acc = sample_account(&mut rng, id);
    let pk = public(&sample_key(&mut rng));
    let start = || FreshAccTxBuilder::new(&sponge, acc.duplicate()).unwrap();
    assert_eq!(start().build(&sponge).err(), Some(FreshAccTxBuilderError::SpendKeyNotSet));
    assert_eq!(
        start().with_new_spend_key(pk).build(&sponge).err(),
        Some(FreshAccTxBuilderError::ConsumeKeyNotSet)
    );
    let keyed = || start().with_new_spend_key(pk).with_new_consume_key(pk);
    assert_eq!(
        keyed().build(&sponge).err(),
        Some(FreshAccTxBuilderError::DummyNotesNotFilled { kind: NoteKind::Input })
    );
    let seeds = || vec![HashOutput::zero(); 7];
    let built = || keyed().fill_dinotes(seeds()).fill_donotes(seeds()).build(&sponge).unwrap();
    assert_eq!(built().accout.consume_auth, ConsumeAuth { config: true, pk: Some(pk) });
    assert_eq!(built().into_priv_tx().err(), Some(FreshAccTxBuilderError::ApprovalSigNotSet));
    let pool = Pool::fixed();
    let signed = || built().approval_sign(&sponge, &pool.approval, Scalar([1, 2, 3, 4, 5]));
    assert_eq!(signed().into_priv_tx().err(), Some(FreshAccTxBuilderError::StateRootNotSet));
    assert_eq!(
        signed().with_state_root(HashOutput::zero()).into_priv_tx().err(),
        Some(FreshAccTxBuilderError::SubpoolProofNotSet)
    );
}

#[test]
fn too_many_notes_are_no_witness() {
    let z = HashOutput::zero();
    let mut tx = FakeTxBuilder::new(z, z).build().into_priv_tx(&sponge);
    let me = AccountAddress::zero();
    let n = StandardNote::new(NodeIdentifier(f(1), f(2)), AssetId(f(1)), U256::zero(), me, me);
    tx.onotes = vec![n; 8];
    assert_eq!(
        tx.set_witness(&sponge).err(),
        Some(PrivTxProveError::NoteBatchOverflow { rejected: 0, inotes: 0, onotes: 8, limit: 7 })
    );
    tx.onotes = vec![n; 1];
    assert_eq!(
        tx.set_witness(&sponge).err(),
        Some(PrivTxProveError::DonotesLength { expected: 6, got: 7 })
    );
    tx.onotes = vec![];
    tx.dinotes = vec![];
    assert_eq!(
        tx.set_witness(&sponge).err(),
        Some(PrivTxProveError::DinotesLength { expected: 7, got: 0 })
    );
}

#[test]
fn errors_say_what_is_wrong() {
    assert_eq!(
        SpendTxBuilderError::NoteBatchLimitReached { kind: NoteKind::Output, limit: 7 }.message(),
        "Note batch limit reached: output notes already at limit (7)"
    );
    assert_eq!(
        SpendTxBuilderError::InsufficientBalance {
            old_balance: U256::from_u64(1),
            delta_in: U256::from_u64(2),
            delta_out: U256(0, 1, 0, 0)
        }
        .message(),
        "Insufficient balance: old_balance=1, delta_in=2, delta_out=18446744073709551616"
    );
    assert_eq!(
        TxSignError::ConsumeNotRequired { has_input_notes: true, has_output_notes: false }
            .message(),
        "Consume signature not required: has_input_notes=true, has_output_notes=false"
    );
    assert_eq!(
        PrivTxProveError::DinotesLength { expected: 7, got: 0 }.message(),
        "Proof generation failed: dinotes length mismatch: expected 7, got 0"
    );
    assert_eq!(
        FreshAccTxBuilderError::SpendKeyNotSet.message(),
        "Spend key not set. Call with_new_spend_key() before building"
    );
}
