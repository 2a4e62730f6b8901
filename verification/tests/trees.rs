use tessera_client::account::SubpoolId;
use tessera_client::circuit::{
    assert_subpool_full_proof, compute_merkle_root_gadget, conditional_merkle_verify_gadget,
    set_dummy_witness, SubpoolFullProofTargets,
};
use tessera_client::commitment_tree::{
    conditional_merkle_verify_commitment_tree_gadget, CommitmentTreeMerkleProof,
    CommitmentTreeMerkleTarget,
};
use tessera_client::field::F;
use tessera_client::hash::{hash_no_pad, two_to_one, HashOutput};
use tessera_client::hash_gadgets::{merkle_verify_gadget, MerkleTargets};
use tessera_client::pool_config::{MainPoolConfigTree, SubpoolConfigLeaf, SubpoolConfigTree};
use tessera_client::scalar::Scalar;
use tessera_client::schnorr::{compressed_public_key, CompressedPublicKey, PrivateKey};
use tessera_client::tree::{Direction, MerkleProofStep, MerkleTree, MerkleTreeError};

const P: u128 = 0xffff_ffff_0000_0001;

/// A small deterministic sponge: good enough to tell inputs apart.
fn sponge(x: Vec<F>, n: usize) -> Vec<F> {
    let mut s: u128 = 7 + x.len() as u128;
    for e in &x {
        s = (s + e.to_canonical_u64() as u128 + 1) % P;
        s = s * s % P * s % P * 11 % P + 3;
    }
    let mut out = Vec::new();
    for i in 0..n {
        s = (s + i as u128 + 5) % P;
        s = s * s % P * s % P * 13 % P + 1;
        out.push(F::from_canonical_u64((s % P) as u64));
    }
    out
}

fn f(n: u64) -> F {
    F::from_canonical_u64(n)
}

fn d(n: u64) -> HashOutput {
    HashOutput(f(n), f(n + 1), f(n + 2), f(n + 3))
}

#[test]
fn leaves_are_inserted_from_the_left() {
    let mut t = MerkleTree::new(&sponge, 2, HashOutput::zero());
    assert_eq!((t.capacity(), t.depth(), t.num_leaves()), (4, 2, 0));
    let z = HashOutput::zero();
    let zz = two_to_one(&sponge, z, z);
    assert_eq!(t.root(), two_to_one(&sponge, zz, zz));
    assert_eq!(t.insert(&sponge, d(1)), Ok(0));
    assert_eq!(t.insert(&sponge, d(5)), Ok(1));
    assert_eq!(t.insert(&sponge, d(9)), Ok(2));
    let left = two_to_one(&sponge, d(1), d(5));
    assert_eq!(t.root(), two_to_one(&sponge, left, two_to_one(&sponge, d(9), z)));
    assert!(!t.is_full());
    assert_eq!(t.insert(&sponge, d(13)), Ok(3));
    assert!(t.is_full());
    assert_eq!(t.insert(&sponge, d(17)), Err(MerkleTreeError::CapacityReached));
    assert_eq!(t.size(), 4);
}

#[test]
fn a_batch_is_a_row_of_insertions() {
    let mut a = MerkleTree::new(&sponge, 10, HashOutput::zero());
    let mut b = a.duplicate();
    a.batch_insert(&sponge, &vec![d(1), d(2), d(3)]);
    for i in 1..4 {
        b.insert(&sponge, d(i)).unwrap();
    }
    assert_eq!(a.root(), b.root());
    assert_eq!(a.next_index(), 3);
}

#[test]
fn proofs_verify_for_every_leaf() {
    let mut t = MerkleTree::new(&sponge, 32, HashOutput::zero());
    for i in 0..9 {
        t.insert(&sponge, d(10 * i)).unwrap();
    }
    for i in 0..9 {
        let p = t.merkle_proof(d(10 * i)).unwrap();
        assert_eq!(p.leaf_index as u64, i);
        assert_eq!(p.path.len(), 32);
        assert!(p.verify(&sponge));
        assert!(t.verify(&sponge, &p));
        assert_eq!(t.position(d(10 * i)), Some(i as usize));
        assert_eq!(compute_merkle_root_gadget(&sponge, p.leaf, &p.path), t.root());
    }
    assert!(t.merkle_proof(d(7)).is_none());
    assert_eq!(t.position(d(7)), None);
    // a proof of an old root is no proof of the new one
    let p = t.merkle_proof(d(0)).unwrap();
    t.insert(&sponge, d(1000)).unwrap();
    assert!(p.verify(&sponge));
    assert!(!t.verify(&sponge, &p));
    // a leaf that was set anew is not at its old place
    t.set_leaf(&sponge, 0, d(2000));
    assert_eq!(t.position(d(2000)), Some(0));
    assert!(t.merkle_proof_at(0).verify(&sponge));
}

#[test]
fn siblings_and_bits_tell_the_side() {
    let mut t = MerkleTree::new(&sponge, 3, HashOutput::zero());
    for i in 0..6 {
        t.insert(&sponge, d(10 * i)).unwrap();
    }
    let p = t.merkle_proof_at(5);
    let (siblings, bits) = p.extract_siblings_bits();
    assert_eq!(siblings[0], d(40));
    assert_eq!(bits, vec![true, false, true]);
    assert_eq!(p.extract_root(), t.root());
}

fn hand_made_path() -> (HashOutput, HashOutput, HashOutput) {
    let leaf = HashOutput(f(1), f(2), f(3), f(4));
    let sibling = HashOutput(f(0xdeadbeef), f(0xcafebabe), f(0x12345678), f(0xabcdef01));
    let mut root = leaf;
    for _ in 0..32 {
        root = two_to_one(&sponge, root, sibling);
    }
    (leaf, sibling, root)
}

fn steps(sibling: HashOutput) -> Vec<MerkleProofStep> {
    vec![MerkleProofStep { sibling, direction: Direction::Right }; 32]
}

fn wires() -> MerkleTargets {
    let (leaf, sibling, computed_root) = hand_made_path();
    MerkleTargets { leaf, siblings: [sibling; 32], bits: [false; 32], computed_root }
}

#[test]
fn merkle_test_merkle_gadget_valid() {
    let (leaf, sibling, root) = hand_made_path();
    assert!(merkle_verify_gadget(&sponge, root, true, &wires()));
    assert!(conditional_merkle_verify_gadget(&sponge, leaf, root, true, &steps(sibling), 32));
}

#[test]
fn merkle_test_merkle_gadget_selector_off() {
    let (leaf, sibling, _) = hand_made_path();
    let wrong = HashOutput(f(0xbad), f(0xbad), f(0xbad), f(0xbad));
    assert!(merkle_verify_gadget(&sponge, wrong, false, &wires()));
    assert!(conditional_merkle_verify_gadget(&sponge, leaf, wrong, false, &steps(sibling), 32));
    assert!(conditional_merkle_verify_gadget(
        &sponge,
        leaf,
        wrong,
        false,
        &set_dummy_witness(32),
        32
    ));
}

#[test]
fn merkle_test_merkle_gadget_wrong_root_selector_on() {
    let (leaf, sibling, _) = hand_made_path();
    let wrong = HashOutput(f(0xbad), f(0xbad), f(0xbad), f(0xbad));
    assert!(!merkle_verify_gadget(&sponge, wrong, true, &wires()));
    assert!(!merkle_verify_gadget(
        &sponge,
        wrong,
        true,
        &MerkleTargets { computed_root: wrong, ..wires() }
    ));
    assert!(!conditional_merkle_verify_gadget(&sponge, leaf, wrong, true, &steps(sibling), 32));
}

#[test]
fn the_commitment_root_counts_the_leaves() {
    // leaf at position 2 of three, depth 2: the root hashes the count too
    let bottom = two_to_one(&sponge, d(9), HashOutput::zero());
    let other = two_to_one(&sponge, d(1), d(5));
    let mut v = vec![f(3)];
    other.append_to(&mut v);
    bottom.append_to(&mut v);
    let root = hash_no_pad(&sponge, v);
    let p = CommitmentTreeMerkleProof::new(vec![HashOutput::zero(), other], 2, 3, 2);
    assert_eq!(p.extract_siblings_bits().1, vec![false, true]);
    let t = CommitmentTreeMerkleTarget::set_witness(&p);
    let check = conditional_merkle_verify_commitment_tree_gadget;
    assert!(check(&sponge, d(9), root, true, &t, 2));
    assert!(!check(&sponge, d(8), root, true, &t, 2));
    assert!(check(&sponge, d(8), root, false, &t, 2));
    let dummy = CommitmentTreeMerkleTarget::set_dummy_witness(2);
    assert!(check(&sponge, d(8), root, false, &dummy, 2));
}

fn dummy_key(seed: u64) -> CompressedPublicKey {
    let sk = PrivateKey::new(Scalar([seed, seed + 1, seed + 2, seed + 3, seed & 0x7F]));
    compressed_public_key(&sk)
}

#[test]
fn test_full_subpool_proof() {
    let subpool = SubpoolConfigTree::new(&sponge, dummy_key(1), dummy_key(2), dummy_key(3));
    let mut main_pool = MainPoolConfigTree::new(&sponge);
    let id = SubpoolId(f(5));
    main_pool.set_subpool(&sponge, 7, id, subpool.root(&sponge));

    let proof = main_pool.full_subpool_proof(&sponge, &subpool, id).unwrap();
    assert!(proof.approval_proof.verify(&sponge));
    assert!(proof.rejection_proof.verify(&sponge));
    assert!(proof.consume_proof.verify(&sponge));
    assert!(proof.main_pool_proof.verify(&sponge));
    assert_eq!(proof.approval_proof.extract_root(), subpool.root(&sponge));
    assert_eq!(proof.main_pool_proof.extract_root(), main_pool.root(&sponge));
    assert_eq!(proof.main_pool_proof.leaf_index, 7);

    // the same facts as the wires of a transaction
    let t = SubpoolFullProofTargets::set_witness(&proof, subpool.root(&sponge));
    let root = main_pool.root(&sponge);
    let (a, r, c) = (dummy_key(1), dummy_key(2), dummy_key(3));
    assert!(assert_subpool_full_proof(&sponge, id, a, r, c, root, true, &t));
    assert!(!assert_subpool_full_proof(&sponge, id, c, r, a, root, true, &t));
    assert!(!assert_subpool_full_proof(&sponge, SubpoolId(f(6)), a, r, c, root, true, &t));
}

#[test]
fn unknown_subpools_have_no_proof() {
    let subpool = SubpoolConfigTree::new(&sponge, dummy_key(1), dummy_key(2), dummy_key(3));
    let mut main_pool = MainPoolConfigTree::new(&sponge);
    main_pool.set_subpool(&sponge, 0, SubpoolId(f(1)), subpool.root(&sponge));
    assert!(main_pool.full_subpool_proof(&sponge, &subpool, SubpoolId(f(2))).is_none());
    assert!(main_pool.subpool_proof(&sponge, SubpoolId(f(1)), HashOutput::zero()).is_none());
    assert_eq!(
        SubpoolConfigLeaf(None).node(&sponge),
        SubpoolConfigLeaf::empty(&sponge)
    );
}
