//! What the digests of the protocol are digests of.
//!
//! Each law names the hash input of a result, element by element: its length, and what
//! stands at each place. So two results with the same input are those of the same
//! values.
use vstd::prelude::*;

use crate::account::{
    AccountAddress, AccountCommitment, AccountNullifier, NullifierKey, PrivateIdentifier,
    PublicIdentifier, StandardAccount,
};
use crate::circuit::{
    compute_merkle_root_gadget, derive_account_commitment, derive_account_nullifier,
    derive_nullifier_key, derive_public_identifier, AccountTarget,
};
use crate::field::F;
use crate::hash::{digest, hash_n_to_m, hash_no_pad, is_sponge, squeeze, two_to_one, HashOutput};
use crate::tree::{path_root, Direction, MerkleProof, MerkleProofStep};
use crate::u256::U256;

verus! {

/// What the sponge returns for an input is the value that contracts name: all elements
/// of the input enter, in order, and the digest is the first four elements of an output
/// of four.
pub proof fn lemma_sponge_output<H: Fn(Vec<F>, usize) -> Vec<F>>(
    h: H,
    x: Vec<F>,
    n: usize,
    y: Vec<F>,
)
    requires
        is_sponge(h),
        h.ensures((x, n), y),
    ensures
        squeeze(h, x@, n as nat) == y@,
        y@.len() == n,
        n == 4 ==> digest(h, x@) == HashOutput(y@[0], y@[1], y@[2], y@[3]),
{
    assert(crate::hash::absorbs(h, x@, n as nat, y@));
}

/// What a call of the sponge returns is an output of the sponge for that very input.
pub proof fn lemma_hash_calls<H: Fn(Vec<F>, usize) -> Vec<F>>(
    h: H,
    x: Vec<F>,
    m: usize,
    y: Vec<F>,
    d: HashOutput,
)
    requires
        call_ensures(hash_n_to_m::<H>, (&h, x, m), y),
        call_ensures(hash_no_pad::<H>, (&h, x), d),
    ensures
        exists|xv: Vec<F>, yv: Vec<F>| #[trigger]
            h.ensures((xv, m), yv) && xv@ == x@ && yv@ == y@,
        exists|xv: Vec<F>, yv: Vec<F>| #[trigger]
            h.ensures((xv, 4usize), yv) && xv@ == x@ && yv@ == seq![d.0, d.1, d.2, d.3],
        y@.len() == m,
{
}

/// The digest of two digests is that of all their elements, the first digest first.
pub proof fn lemma_pair_input<H: Fn(Vec<F>, usize) -> Vec<F>>(
    h: H,
    l: HashOutput,
    r: HashOutput,
    d: HashOutput,
)
    requires
        call_ensures(two_to_one::<H>, (&h, l, r), d),
    ensures
        d == digest(h, seq![l.0, l.1, l.2, l.3, r.0, r.1, r.2, r.3]),
{
    assert(l.elements() + r.elements() =~= seq![l.0, l.1, l.2, l.3, r.0, r.1, r.2, r.3]);
}

/// A path leads from a leaf, through one digest per step, to a root: a sibling on the
/// left goes first, one on the right last.
pub proof fn lemma_path_steps<H: Fn(Vec<F>, usize) -> Vec<F>>(
    h: H,
    leaf: HashOutput,
    path: Seq<MerkleProofStep>,
    step: MerkleProofStep,
)
    ensures
        path_root(h, leaf, Seq::empty()) == leaf,
        path_root(h, leaf, path.push(step)) == ({
            let (n, s) = (path_root(h, leaf, path), step.sibling);
            if step.direction == Direction::Left {
                digest(h, seq![s.0, s.1, s.2, s.3, n.0, n.1, n.2, n.3])
            } else {
                digest(h, seq![n.0, n.1, n.2, n.3, s.0, s.1, s.2, s.3])
            }
        }),
{
    assert(path.push(step).drop_last() =~= path);
    let (n, s) = (path_root(h, leaf, path), step.sibling);
    assert(s.elements() + n.elements() =~= seq![s.0, s.1, s.2, s.3, n.0, n.1, n.2, n.3]);
    assert(n.elements() + s.elements() =~= seq![n.0, n.1, n.2, n.3, s.0, s.1, s.2, s.3]);
}

/// A node of a tree is the digest of the two nodes below it, the left one first, and
/// the nodes at the bottom are the leaves.
pub proof fn lemma_tree_nodes<H: Fn(Vec<F>, usize) -> Vec<F>>(
    h: H,
    leaves: spec_fn(nat) -> HashOutput,
    l: nat,
    i: nat,
)
    ensures
        crate::tree::tree_node(h, leaves, 0, i) == leaves(i),
        crate::tree::tree_node(h, leaves, l + 1, i) == ({
            let (a, b) = (
                crate::tree::tree_node(h, leaves, l, 2 * i),
                crate::tree::tree_node(h, leaves, l, 2 * i + 1),
            );
            digest(h, seq![a.0, a.1, a.2, a.3, b.0, b.1, b.2, b.3])
        }),
{
    let (a, b) = (
        crate::tree::tree_node(h, leaves, l, 2 * i),
        crate::tree::tree_node(h, leaves, l, 2 * i + 1),
    );
    assert(a.elements() + b.elements() =~= seq![a.0, a.1, a.2, a.3, b.0, b.1, b.2, b.3]);
}

/// Proofs verify by their path alone, natively and on wires.
pub proof fn lemma_path_checks<H: Fn(Vec<F>, usize) -> Vec<F>>(
    h: H,
    p: &MerkleProof,
    r: bool,
    leaf: HashOutput,
    path: &Vec<MerkleProofStep>,
    root: HashOutput,
)
    requires
        call_ensures(MerkleProof::verify::<H>, (p, &h), r),
        call_ensures(compute_merkle_root_gadget::<H>, (&h, leaf, path), root),
    ensures
        r == (path_root(h, p.leaf, p.path@) == p.root),
        root == path_root(h, leaf, path@),
{
}

/// An amount is four 64-bit words, least significant first, and its limbs are the
/// halves of the words.
pub proof fn lemma_amount_limbs(x: U256)
    ensures
        x.value() == x.0 + x.1 * 0x1_0000_0000_0000_0000 + x.2
            * 0x1_0000_0000_0000_0000_0000_0000_0000_0000int + x.3
            * 0x1_0000_0000_0000_0000_0000_0000_0000_0000_0000_0000_0000_0000int,
        x.limbs().len() == 8,
        x.limbs()[0]@ == x.0 as int % 0x1_0000_0000,
        x.limbs()[1]@ == x.0 as int / 0x1_0000_0000,
        x.limbs()[2]@ == x.1 as int % 0x1_0000_0000,
        x.limbs()[3]@ == x.1 as int / 0x1_0000_0000,
        x.limbs()[4]@ == x.2 as int % 0x1_0000_0000,
        x.limbs()[5]@ == x.2 as int / 0x1_0000_0000,
        x.limbs()[6]@ == x.3 as int % 0x1_0000_0000,
        x.limbs()[7]@ == x.3 as int / 0x1_0000_0000,
{
    crate::u256::lemma_limbs_spell_value(x);
    crate::u256::lemma_limb_class(x.0);
    crate::u256::lemma_limb_class(x.1);
    crate::u256::lemma_limb_class(x.2);
    crate::u256::lemma_limb_class(x.3);
}

/// The hash input of an account commitment: the identifier, the subpool, the root of
/// the state tree, the nonce, the spend key, a flag and the consume key.
///
/// An absent spend key stands as the default key; a delegated consume key as a zero and
/// the placeholder.
pub proof fn lemma_commitment_input<H: Fn(Vec<F>, usize) -> Vec<F>>(
    h: H,
    acc: &StandardAccount,
    r: AccountCommitment,
) -> (x: Seq<F>)
    requires
        acc.consume_auth.valid(),
        call_ensures(StandardAccount::commitment::<H>, (acc, &h), r),
    ensures
        r.0 == digest(h, x),
        acc.spec_commitment(h) == digest(h, x),
        acc.preimage() == x,
        x.len() == 19,
        x[0] == acc.private_identifier.0,
        x[1] == acc.private_identifier.1,
        x[2] == acc.subpool_id.0,
        HashOutput(x[3], x[4], x[5], x[6]) == acc.ast.top(),
        x[7] == acc.nonce.0,
        acc.spend_auth.spend_pk matches Some(k) ==> {
            let w = k.0.w;
            x[8] == w.c0 && x[9] == w.c1 && x[10] == w.c2 && x[11] == w.c3 && x[12] == w.c4
        },
        acc.spend_auth.spend_pk is None ==> {
            &&& x[8] == F::of(7613690455422068269)
            &&& x[9] == F::of(12930951591626745075)
            &&& x[10] == F::of(16103143792840800039)
            &&& x[11] == F::of(4657200339622395349)
            &&& x[12] == F::of(3857357297380158342)
        },
        acc.consume_auth.config ==> {
            let k = acc.consume_auth.pk->0;
            let w = k.0.w;
            x[13] == F::of(1) && x[14] == w.c0 && x[15] == w.c1 && x[16] == w.c2 && x[17] == w.c3
                && x[18] == w.c4
        },
        !acc.consume_auth.config ==> {
            &&& x[13] == F::of(0)
            &&& x[14] == F::of(7613690455422068269)
            &&& x[15] == F::of(12930951591626745075)
            &&& x[16] == F::of(16103143792840800039)
            &&& x[17] == F::of(4657200339622395349)
            &&& x[18] == F::of(3857357297380158342)
        },
{
    acc.preimage()
}

/// Accounts with the same hash input have the same identifier, subpool, state tree,
/// nonce and keys.
pub proof fn lemma_commitment_binds_fields(a: &StandardAccount, b: &StandardAccount)
    requires
        a.consume_auth.valid(),
        b.consume_auth.valid(),
        a.preimage() == b.preimage(),
    ensures
        a.private_identifier == b.private_identifier,
        a.subpool_id == b.subpool_id,
        a.ast.top() == b.ast.top(),
        a.nonce == b.nonce,
        a.spend_auth.spend_pk is Some && b.spend_auth.spend_pk is Some ==> a.spend_auth
            == b.spend_auth,
        a.consume_auth.config == b.consume_auth.config,
        a.consume_auth.config ==> a.consume_auth == b.consume_auth,
{
    let (x, y) = (a.preimage(), b.preimage());
    assert(F::of(0) != F::of(1));
    assert(x[0] == y[0] && x[1] == y[1] && x[2] == y[2] && x[3] == y[3] && x[4] == y[4] && x[5]
        == y[5] && x[6] == y[6] && x[7] == y[7] && x[8] == y[8] && x[9] == y[9] && x[10] == y[10]
        && x[11] == y[11] && x[12] == y[12] && x[13] == y[13] && x[14] == y[14] && x[15] == y[15]
        && x[16] == y[16] && x[17] == y[17] && x[18] == y[18]);
}

/// The hash input of the commitment of an account on wires.
pub proof fn lemma_wire_commitment_input<H: Fn(Vec<F>, usize) -> Vec<F>>(
    h: H,
    acc: &AccountTarget,
    r: AccountCommitment,
) -> (x: Seq<F>)
    requires
        call_ensures(derive_account_commitment::<H>, (&h, acc), r),
    ensures
        r.0 == digest(h, x),
        acc.commitment(h) == digest(h, x),
        x.len() == 19,
        x[0] == acc.private_identifier.0,
        x[1] == acc.private_identifier.1,
        x[2] == acc.subpool_id.0,
        HashOutput(x[3], x[4], x[5], x[6]) == acc.acc_ast_root,
        x[7] == acc.nonce,
        x[8] == acc.spend_auth.0.w.c0,
        x[9] == acc.spend_auth.0.w.c1,
        x[10] == acc.spend_auth.0.w.c2,
        x[11] == acc.spend_auth.0.w.c3,
        x[12] == acc.spend_auth.0.w.c4,
        x[13] == (if acc.consume_config {
            F::of(1)
        } else {
            F::of(0)
        }),
        x[14] == acc.consume_pk.0.w.c0,
        x[15] == acc.consume_pk.0.w.c1,
        x[16] == acc.consume_pk.0.w.c2,
        x[17] == acc.consume_pk.0.w.c3,
        x[18] == acc.consume_pk.0.w.c4,
{
    acc.preimage()
}

/// The same of the commitment that the conditions of transactions speak of.
pub proof fn lemma_wire_commitment<H: Fn(Vec<F>, usize) -> Vec<F>>(h: H, acc: AccountTarget)
    ensures
        acc.commitment(h) == digest(
            h,
            seq![
                acc.private_identifier.0,
                acc.private_identifier.1,
                acc.subpool_id.0,
                acc.acc_ast_root.0,
                acc.acc_ast_root.1,
                acc.acc_ast_root.2,
                acc.acc_ast_root.3,
                acc.nonce,
                acc.spend_auth.0.w.c0,
                acc.spend_auth.0.w.c1,
                acc.spend_auth.0.w.c2,
                acc.spend_auth.0.w.c3,
                acc.spend_auth.0.w.c4,
                F::of(
                    if acc.consume_config {
                        1
                    } else {
                        0
                    },
                ),
                acc.consume_pk.0.w.c0,
                acc.consume_pk.0.w.c1,
                acc.consume_pk.0.w.c2,
                acc.consume_pk.0.w.c3,
                acc.consume_pk.0.w.c4,
            ],
        ),
{
    assert(acc.preimage() =~= seq![
        acc.private_identifier.0,
        acc.private_identifier.1,
        acc.subpool_id.0,
        acc.acc_ast_root.0,
        acc.acc_ast_root.1,
        acc.acc_ast_root.2,
        acc.acc_ast_root.3,
        acc.nonce,
        acc.spend_auth.0.w.c0,
        acc.spend_auth.0.w.c1,
        acc.spend_auth.0.w.c2,
        acc.spend_auth.0.w.c3,
        acc.spend_auth.0.w.c4,
        F::of(
            if acc.consume_config {
                1
            } else {
                0
            },
        ),
        acc.consume_pk.0.w.c0,
        acc.consume_pk.0.w.c1,
        acc.consume_pk.0.w.c2,
        acc.consume_pk.0.w.c3,
        acc.consume_pk.0.w.c4,
    ]);
}

/// The nullifier key and the public identifier are digests of the private identifier
/// behind different marks, natively and on wires.
pub proof fn lemma_identifier_inputs<H: Fn(Vec<F>, usize) -> Vec<F>>(
    h: H,
    acc: &StandardAccount,
    nk: NullifierKey,
    id: PublicIdentifier,
    p: &PrivateIdentifier,
    wire_nk: NullifierKey,
    wire_id: PublicIdentifier,
)
    requires
        call_ensures(StandardAccount::nk::<H>, (acc, &h), nk),
        call_ensures(StandardAccount::public_id::<H>, (acc, &h), id),
        call_ensures(derive_nullifier_key::<H>, (&h, p), wire_nk),
        call_ensures(derive_public_identifier::<H>, (&h, p), wire_id),
    ensures
        nk.0 == digest(
            h,
            seq![F::of(12), acc.private_identifier.0, acc.private_identifier.1],
        ),
        id.0 == digest(
            h,
            seq![F::of(13), acc.private_identifier.0, acc.private_identifier.1],
        ),
        wire_nk.0 == digest(h, seq![F::of(12), p.0, p.1]),
        wire_id.0 == digest(h, seq![F::of(13), p.0, p.1]),
        acc.spec_nk(h) == nk.0,
        acc.spec_public_id(h) == id.0,
{
}

/// The nullifier key and the public identifier of an account on wires.
pub proof fn lemma_wire_identifiers<H: Fn(Vec<F>, usize) -> Vec<F>>(h: H, acc: AccountTarget)
    ensures
        acc.nk(h) == digest(
            h,
            seq![F::of(12), acc.private_identifier.0, acc.private_identifier.1],
        ),
        acc.public_id(h) == digest(
            h,
            seq![F::of(13), acc.private_identifier.0, acc.private_identifier.1],
        ),
{
}

/// The address of an account is its subpool and its public identifier.
pub proof fn lemma_address_parts<H: Fn(Vec<F>, usize) -> Vec<F>>(
    h: H,
    acc: &StandardAccount,
    a: AccountAddress,
    b: AccountAddress,
)
    requires
        call_ensures(StandardAccount::address::<H>, (acc, &h), a),
        call_ensures(AccountAddress::from_acc::<H>, (&h, acc), b),
    ensures
        a.subpool_id == acc.subpool_id,
        a.public_id.0 == digest(
            h,
            seq![F::of(13), acc.private_identifier.0, acc.private_identifier.1],
        ),
        b == a,
{
}

/// The nullifier of an account is the digest of its commitment and its nullifier key.
pub proof fn lemma_nullifier_input<H: Fn(Vec<F>, usize) -> Vec<F>>(
    h: H,
    acc: &StandardAccount,
    c: AccountCommitment,
    nk: NullifierKey,
    r: AccountNullifier,
)
    requires
        call_ensures(StandardAccount::commitment::<H>, (acc, &h), c),
        call_ensures(StandardAccount::nk::<H>, (acc, &h), nk),
        call_ensures(StandardAccount::nullifier::<H>, (acc, &h), r),
    ensures
        r.0 == digest(
            h,
            seq![c.0.0, c.0.1, c.0.2, c.0.3, nk.0.0, nk.0.1, nk.0.2, nk.0.3],
        ),
        acc.spec_nullifier(h) == r.0,
{
    assert(c.0.elements() + nk.0.elements() =~= seq![
        c.0.0,
        c.0.1,
        c.0.2,
        c.0.3,
        nk.0.0,
        nk.0.1,
        nk.0.2,
        nk.0.3,
    ]);
}

/// The nullifier of an account on wires is the digest of its commitment and its
/// nullifier key.
pub proof fn lemma_wire_nullifier_input<H: Fn(Vec<F>, usize) -> Vec<F>>(
    h: H,
    c: &AccountCommitment,
    nk: &NullifierKey,
    r: AccountNullifier,
    acc: AccountTarget,
)
    requires
        call_ensures(derive_account_nullifier::<H>, (&h, c, nk), r),
    ensures
        r.0 == digest(
            h,
            seq![c.0.0, c.0.1, c.0.2, c.0.3, nk.0.0, nk.0.1, nk.0.2, nk.0.3],
        ),
        acc.nullifier(h) == ({
            let (a, k) = (acc.commitment(h), acc.nk(h));
            digest(h, seq![a.0, a.1, a.2, a.3, k.0, k.1, k.2, k.3])
        }),
{
    assert(c.0.elements() + nk.0.elements() =~= seq![
        c.0.0,
        c.0.1,
        c.0.2,
        c.0.3,
        nk.0.0,
        nk.0.1,
        nk.0.2,
        nk.0.3,
    ]);
    let (a, k) = (acc.commitment(h), acc.nk(h));
    assert(a.elements() + k.elements() =~= seq![a.0, a.1, a.2, a.3, k.0, k.1, k.2, k.3]);
}

} // verus!
