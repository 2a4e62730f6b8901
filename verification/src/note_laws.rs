//! What the digests of notes, transactions and configurations are digests of.
use vstd::prelude::*;

use crate::account::{AccountCommitment, AccountNullifier, NullifierKey};
use crate::ast::{AccountStateTreeLeaf, AssetId};
use crate::field::F;
use crate::hash::{digest, HashOutput};
use crate::note::{
    asset_elements, commitment_digests, compute_note_nullifier, concat_digests, concat_limbs,
    derive_deposit_tx_hash, derive_priv_tx_hash, derive_withdraw_tx_hash, double_hash_native,
    h160_elements, hash_deposit_tx, hash_withdraw_tx, map_h160_to_f, nullifier_digests,
    DepositNote, DepositNoteCommitment, NoteCommitment, NoteNullifier, PositionedStandardNode,
    StandardNote,
};
use crate::params::NOTE_BATCH;
use crate::pool_config::{key_node, MainPoolConfigLeaf, SubpoolConfigLeaf};
use crate::priv_tx::{spec_tx_hash, PrivTxPublicInputs};
use crate::schnorr::CompPubKey;
use crate::u256::U256;

verus! {

/// The hash input of a note commitment: the identifier, the limbs of the amount, the
/// asset, the recipient and the sender.
pub proof fn lemma_note_input<H: Fn(Vec<F>, usize) -> Vec<F>>(
    h: H,
    n: &StandardNote,
    r: NoteCommitment,
) -> (x: Seq<F>)
    requires
        call_ensures(StandardNote::commitment::<H>, (n, &h), r),
    ensures
        r.0 == digest(h, x),
        n.spec_commitment(h) == digest(h, x),
        n.preimage() == x,
        x.len() == 21,
        x[0] == n.identifier.0,
        x[1] == n.identifier.1,
        x.subrange(2, 10) == n.amt.limbs(),
        x[10] == n.asset_id.0,
        x[11] == n.recipient.subpool_id.0,
        HashOutput(x[12], x[13], x[14], x[15]) == n.recipient.public_id.0,
        x[16] == n.sender.subpool_id.0,
        HashOutput(x[17], x[18], x[19], x[20]) == n.sender.public_id.0,
{
    let x = n.preimage();
    assert(x.subrange(2, 10) =~= n.amt.limbs());
    x
}

/// Notes with the same hash input are the same.
pub proof fn lemma_note_binds_fields(a: StandardNote, b: StandardNote)
    requires
        a.preimage() == b.preimage(),
    ensures
        a == b,
{
    let (x, y) = (a.preimage(), b.preimage());
    assert(x.subrange(2, 10) =~= a.amt.limbs());
    assert(y.subrange(2, 10) =~= b.amt.limbs());
    crate::u256::lemma_limbs_injective(a.amt, b.amt);
    assert(x[0] == y[0] && x[1] == y[1] && x[10] == y[10] && x[11] == y[11] && x[12] == y[12]
        && x[13] == y[13] && x[14] == y[14] && x[15] == y[15] && x[16] == y[16] && x[17] == y[17]
        && x[18] == y[18] && x[19] == y[19] && x[20] == y[20]);
}

/// The hash input of a deposit note: the identifier, the recipient, the limbs of the
/// amount and the asset.
pub proof fn lemma_deposit_note_input<H: Fn(Vec<F>, usize) -> Vec<F>>(
    h: H,
    n: &DepositNote,
    r: DepositNoteCommitment,
) -> (x: Seq<F>)
    requires
        call_ensures(DepositNote::commitment::<H>, (n, &h), r),
    ensures
        r.0 == digest(h, x),
        n.preimage() == x,
        x.len() == 16,
        x[0] == n.identifier.0,
        x[1] == n.identifier.1,
        x[2] == n.recipient.subpool_id.0,
        HashOutput(x[3], x[4], x[5], x[6]) == n.recipient.public_id.0,
        x.subrange(7, 15) == n.amount.limbs(),
        x[15] == n.asset_id.0,
{
    let x = n.preimage();
    assert(x.subrange(7, 15) =~= n.amount.limbs());
    x
}

/// Deposit notes with the same hash input are the same.
pub proof fn lemma_deposit_note_binds_fields(a: DepositNote, b: DepositNote)
    requires
        a.preimage() == b.preimage(),
    ensures
        a == b,
{
    let (x, y) = (a.preimage(), b.preimage());
    assert(x.subrange(7, 15) =~= a.amount.limbs());
    assert(y.subrange(7, 15) =~= b.amount.limbs());
    crate::u256::lemma_limbs_injective(a.amount, b.amount);
    assert(x[0] == y[0] && x[1] == y[1] && x[2] == y[2] && x[3] == y[3] && x[4] == y[4] && x[5]
        == y[5] && x[6] == y[6] && x[15] == y[15]);
}

/// The nullifier of a note is the digest of its commitment, its place in the commitment
/// tree and the nullifier key.
pub proof fn lemma_note_nullifier_input<H: Fn(Vec<F>, usize) -> Vec<F>>(
    h: H,
    n: &PositionedStandardNode,
    c: &NoteCommitment,
    position: F,
    nk: &NullifierKey,
    r: NoteNullifier,
    s: NoteNullifier,
)
    requires
        call_ensures(compute_note_nullifier::<H>, (&h, c, position, nk), r),
        call_ensures(PositionedStandardNode::nullifier::<H>, (n, &h, nk), s),
    ensures
        r.0 == digest(
            h,
            seq![c.0.0, c.0.1, c.0.2, c.0.3, position, nk.0.0, nk.0.1, nk.0.2, nk.0.3],
        ),
        s.0 == ({
            let d = n.note.spec_commitment(h);
            digest(
                h,
                seq![d.0, d.1, d.2, d.3, n.position, nk.0.0, nk.0.1, nk.0.2, nk.0.3],
            )
        }),
{
    assert(c.0.elements() + seq![position] + nk.0.elements() =~= seq![
        c.0.0,
        c.0.1,
        c.0.2,
        c.0.3,
        position,
        nk.0.0,
        nk.0.1,
        nk.0.2,
        nk.0.3,
    ]);
    let d = n.note.spec_commitment(h);
    assert(d.elements() + seq![n.position] + nk.0.elements() =~= seq![
        d.0,
        d.1,
        d.2,
        d.3,
        n.position,
        nk.0.0,
        nk.0.1,
        nk.0.2,
        nk.0.3,
    ]);
}

/// What stands in a slot that is not in use is the digest of the digest of its seed.
pub proof fn lemma_idle_input<H: Fn(Vec<F>, usize) -> Vec<F>>(h: H, x: HashOutput, r: HashOutput)
    requires
        call_ensures(double_hash_native::<H>, (&h, x), r),
    ensures
        r == ({
            let d = digest(h, seq![x.0, x.1, x.2, x.3]);
            digest(h, seq![d.0, d.1, d.2, d.3])
        }),
{
}

/// Digests one after the other: digest `i` stands at `4 i`.
proof fn lemma_concat_at(s: Seq<HashOutput>, i: int)
    requires
        0 <= i < s.len(),
    ensures
        concat_digests(s).len() == 4 * s.len(),
        concat_digests(s)[4 * i] == s[i].0,
        concat_digests(s)[4 * i + 1] == s[i].1,
        concat_digests(s)[4 * i + 2] == s[i].2,
        concat_digests(s)[4 * i + 3] == s[i].3,
    decreases s.len(),
{
    lemma_concat_len(s.drop_last());
    if i < s.len() - 1 {
        lemma_concat_at(s.drop_last(), i);
    }
}

proof fn lemma_concat_len(s: Seq<HashOutput>)
    ensures
        concat_digests(s).len() == 4 * s.len(),
    decreases s.len(),
{
    if s.len() > 0 {
        lemma_concat_len(s.drop_last());
    }
}

/// Amounts one after the other: amount `i` stands at `8 i`.
proof fn lemma_limbs_at(s: Seq<U256>, i: int)
    requires
        0 <= i < s.len(),
    ensures
        concat_limbs(s).len() == 8 * s.len(),
        concat_limbs(s).subrange(8 * i, 8 * i + 8) == s[i].limbs(),
    decreases s.len(),
{
    lemma_limbs_len(s.drop_last());
    let (a, b) = (concat_limbs(s), concat_limbs(s.drop_last()));
    if i < s.len() - 1 {
        lemma_limbs_at(s.drop_last(), i);
        assert(a.subrange(8 * i, 8 * i + 8) =~= b.subrange(8 * i, 8 * i + 8));
    } else {
        assert(a.subrange(8 * i, 8 * i + 8) =~= s[i].limbs());
    }
}

proof fn lemma_limbs_len(s: Seq<U256>)
    ensures
        concat_limbs(s).len() == 8 * s.len(),
    decreases s.len(),
{
    if s.len() > 0 {
        lemma_limbs_len(s.drop_last());
    }
}

/// The hash input of a private transaction: the nullifier of the account before, the
/// commitment of the account after, and the nullifiers and commitments of all note
/// slots, in order.
pub proof fn lemma_private_tx_input<H: Fn(Vec<F>, usize) -> Vec<F>>(
    h: H,
    accin_null: AccountNullifier,
    accout_comm: AccountCommitment,
    n: &[NoteNullifier; NOTE_BATCH],
    c: &[NoteCommitment; NOTE_BATCH],
    r: HashOutput,
) -> (x: Seq<F>)
    requires
        call_ensures(derive_priv_tx_hash::<H>, (&h, accin_null, accout_comm, n, c), r),
    ensures
        r == digest(h, x),
        x.len() == 64,
        HashOutput(x[0], x[1], x[2], x[3]) == accin_null.0,
        HashOutput(x[4], x[5], x[6], x[7]) == accout_comm.0,
        forall|i: int|
            0 <= i < 7 ==> HashOutput(
                x[8 + 4 * i],
                x[9 + 4 * i],
                x[10 + 4 * i],
                x[11 + 4 * i],
            ) == (#[trigger] n@[i]).0,
        forall|i: int|
            0 <= i < 7 ==> HashOutput(
                x[36 + 4 * i],
                x[37 + 4 * i],
                x[38 + 4 * i],
                x[39 + 4 * i],
            ) == (#[trigger] c@[i]).0,
{
    let (a, b) = (nullifier_digests(n@), commitment_digests(c@));
    let x = crate::note::priv_tx_preimage(accin_null.0, accout_comm.0, a, b);
    lemma_concat_len(a);
    lemma_concat_len(b);
    let (p, q) = (concat_digests(a), concat_digests(b));
    assert forall|i: int| 0 <= i < 7 implies HashOutput(
        x[8 + 4 * i],
        x[9 + 4 * i],
        x[10 + 4 * i],
        x[11 + 4 * i],
    ) == (#[trigger] n@[i]).0 by {
        lemma_concat_at(a, i);
        assert(a[i] == n@[i].0);
        assert(x[8 + 4 * i] == p[4 * i] && x[9 + 4 * i] == p[4 * i + 1] && x[10 + 4 * i] == p[4 * i
            + 2] && x[11 + 4 * i] == p[4 * i + 3]);
    }
    assert forall|i: int| 0 <= i < 7 implies HashOutput(
        x[36 + 4 * i],
        x[37 + 4 * i],
        x[38 + 4 * i],
        x[39 + 4 * i],
    ) == (#[trigger] c@[i]).0 by {
        lemma_concat_at(b, i);
        assert(b[i] == c@[i].0);
        assert(x[36 + 4 * i] == q[4 * i] && x[37 + 4 * i] == q[4 * i + 1] && x[38 + 4 * i] == q[4
            * i + 2] && x[39 + 4 * i] == q[4 * i + 3]);
    }
    x
}

/// The hash that the conditions of a private transaction speak of is that of its public
/// inputs.
pub proof fn lemma_public_tx_hash<H: Fn(Vec<F>, usize) -> Vec<F>>(
    h: H,
    u: PrivTxPublicInputs,
    r: HashOutput,
)
    requires
        call_ensures(
            derive_priv_tx_hash::<H>,
            (
                &h,
                AccountNullifier(u.accin_nullifier),
                AccountCommitment(u.accout_commitment),
                &u.input_note_nullifiers,
                &u.output_note_commitments,
            ),
            r,
        ),
    ensures
        spec_tx_hash(h, u) == r,
{
}

/// A 20-byte address is five 32-bit limbs, least significant byte first.
pub proof fn lemma_address_limbs(b: &[u8; 20], r: [F; 5])
    requires
        call_ensures(map_h160_to_f, (b,), r),
    ensures
        forall|k: int|
            0 <= k < 5 ==> (#[trigger] r@[k])@ == b@[4 * k] + 256 * b@[4 * k + 1] + 65536 * b@[4 * k
                + 2] + 16777216 * b@[4 * k + 3],
        r@ == h160_elements(b@),
{
    let p = crate::primes::goldilocks() as nat;
    assert forall|k: int| 0 <= k < 5 implies (#[trigger] r@[k])@ == b@[4 * k] + 256 * b@[4 * k + 1]
        + 65536 * b@[4 * k + 2] + 16777216 * b@[4 * k + 3] by {
        let v = crate::note::u32_of_le(b@, 4 * k);
        assert(r@[k] == F::of(v));
        vstd::arithmetic::div_mod::lemma_small_mod(v as nat, p);
    }
}

/// The hash input of a deposit: the nullifier of the account before, the commitment of
/// the account after, the commitment of the note, and the address.
pub proof fn lemma_deposit_tx_input<H: Fn(Vec<F>, usize) -> Vec<F>>(
    h: H,
    accin_null: HashOutput,
    accout_comm: HashOutput,
    note_comm: HashOutput,
    eth: &[F; 5],
    r: HashOutput,
) -> (x: Seq<F>)
    requires
        call_ensures(hash_deposit_tx::<H>, (&h, accin_null, accout_comm, note_comm, eth), r),
    ensures
        r == digest(h, x),
        x.len() == 17,
        HashOutput(x[0], x[1], x[2], x[3]) == accin_null,
        HashOutput(x[4], x[5], x[6], x[7]) == accout_comm,
        HashOutput(x[8], x[9], x[10], x[11]) == note_comm,
        x.subrange(12, 17) == eth@,
{
    let x = crate::note::deposit_tx_preimage(accin_null, accout_comm, note_comm, eth@);
    assert(x.subrange(12, 17) =~= eth@);
    x
}

/// The hash of a deposit, from the address itself.
pub proof fn lemma_deposit_hash_of_address<H: Fn(Vec<F>, usize) -> Vec<F>>(
    h: H,
    accin_null: AccountNullifier,
    accout_comm: AccountCommitment,
    note_comm: DepositNoteCommitment,
    b: &[u8; 20],
    eth: [F; 5],
    r: HashOutput,
    s: HashOutput,
)
    requires
        call_ensures(
            derive_deposit_tx_hash::<H>,
            (&h, accin_null, accout_comm, note_comm, b),
            r,
        ),
        call_ensures(map_h160_to_f, (b,), eth),
        call_ensures(
            hash_deposit_tx::<H>,
            (&h, accin_null.0, accout_comm.0, note_comm.0, &eth),
            s,
        ),
    ensures
        r == s,
{
}

/// The hash input of a withdrawal: the nullifier of the account before, the commitment
/// of the account after, the assets and the limbs of the amounts of all slots, and the
/// address.
pub proof fn lemma_withdraw_tx_input<H: Fn(Vec<F>, usize) -> Vec<F>>(
    h: H,
    accin_null: HashOutput,
    accout_comm: HashOutput,
    assets: &[AssetId; NOTE_BATCH],
    amounts: &[U256; NOTE_BATCH],
    eth: &[F; 5],
    r: HashOutput,
) -> (x: Seq<F>)
    requires
        call_ensures(hash_withdraw_tx::<H>, (&h, accin_null, accout_comm, assets, amounts, eth), r),
    ensures
        r == digest(h, x),
        x.len() == 76,
        HashOutput(x[0], x[1], x[2], x[3]) == accin_null,
        HashOutput(x[4], x[5], x[6], x[7]) == accout_comm,
        forall|i: int| 0 <= i < 7 ==> x[8 + i] == (#[trigger] assets@[i]).0,
        forall|i: int|
            0 <= i < 7 ==> x.subrange(15 + 8 * i, 23 + 8 * i) == (#[trigger] amounts@[i]).limbs(),
        x.subrange(71, 76) == eth@,
{
    let x = crate::note::withdraw_tx_preimage(accin_null, accout_comm, assets@, amounts@, eth@);
    lemma_limbs_len(amounts@);
    let l = concat_limbs(amounts@);
    let e = asset_elements(assets@);
    assert(x.subrange(71, 76) =~= eth@);
    assert forall|i: int| 0 <= i < 7 implies x[8 + i] == (#[trigger] assets@[i]).0 by {
        assert(x[8 + i] == e[i]);
    }
    assert forall|i: int| 0 <= i < 7 implies x.subrange(15 + 8 * i, 23 + 8 * i) == (
    #[trigger] amounts@[i]).limbs() by {
        lemma_limbs_at(amounts@, i);
        assert(x.subrange(15 + 8 * i, 23 + 8 * i) =~= l.subrange(8 * i, 8 * i + 8));
    }
    x
}

/// The hash of a withdrawal, from the address itself.
pub proof fn lemma_withdraw_hash_of_address<H: Fn(Vec<F>, usize) -> Vec<F>>(
    h: H,
    accin_null: AccountNullifier,
    accout_comm: AccountCommitment,
    assets: &[AssetId; NOTE_BATCH],
    amounts: &[U256; NOTE_BATCH],
    b: &[u8; 20],
    eth: [F; 5],
    r: HashOutput,
    s: HashOutput,
)
    requires
        call_ensures(
            derive_withdraw_tx_hash::<H>,
            (&h, accin_null, accout_comm, assets, amounts, b),
            r,
        ),
        call_ensures(map_h160_to_f, (b,), eth),
        call_ensures(
            hash_withdraw_tx::<H>,
            (&h, accin_null.0, accout_comm.0, assets, amounts, &eth),
            s,
        ),
    ensures
        r == s,
{
}

/// The leaf of a balance is the digest of a mark, the asset and the limbs of the amount.
pub proof fn lemma_balance_leaf_input<H: Fn(Vec<F>, usize) -> Vec<F>>(
    h: H,
    leaf: &AccountStateTreeLeaf,
    r: HashOutput,
) -> (x: Seq<F>)
    requires
        call_ensures(AccountStateTreeLeaf::commitment::<H>, (leaf, &h), r),
    ensures
        r == digest(h, x),
        leaf.preimage() == x,
        x.len() == 10,
        x[0] == F::of(1312),
        x[1] == leaf.asset_id.0,
        x.subrange(2, 10) == leaf.amount.limbs(),
{
    let x = leaf.preimage();
    assert(x.subrange(2, 10) =~= leaf.amount.limbs());
    x
}

/// Leaves with the same hash input hold the same balance of the same asset.
pub proof fn lemma_balance_leaf_binds(a: AccountStateTreeLeaf, b: AccountStateTreeLeaf)
    requires
        a.preimage() == b.preimage(),
    ensures
        a == b,
{
    let (x, y) = (a.preimage(), b.preimage());
    assert(x.subrange(2, 10) =~= a.amount.limbs());
    assert(y.subrange(2, 10) =~= b.amount.limbs());
    crate::u256::lemma_limbs_injective(a.amount, b.amount);
    assert(x[1] == y[1]);
}

/// The leaf of an authority key is the digest of its coefficients, and that of a
/// subpool the digest of the root of its keys and its identifier.
pub proof fn lemma_config_leaf_inputs<H: Fn(Vec<F>, usize) -> Vec<F>>(
    h: H,
    k: CompPubKey,
    a: HashOutput,
    b: HashOutput,
    leaf: &MainPoolConfigLeaf,
    c: HashOutput,
)
    requires
        call_ensures(SubpoolConfigLeaf::node::<H>, (&SubpoolConfigLeaf(Some(k)), &h), a),
        call_ensures(SubpoolConfigLeaf::node::<H>, (&SubpoolConfigLeaf(None), &h), b),
        call_ensures(MainPoolConfigLeaf::node::<H>, (leaf, &h), c),
    ensures
        a == digest(h, seq![k.0.w.c0, k.0.w.c1, k.0.w.c2, k.0.w.c3, k.0.w.c4]),
        key_node(h, k) == a,
        b == digest(h, seq![F::of(0), F::of(0), F::of(0), F::of(0), F::of(0)]),
        c == ({
            let s = leaf.subpool_root;
            digest(h, seq![s.0, s.1, s.2, s.3, leaf.subpool_id.0])
        }),
{
    let s = leaf.subpool_root;
    assert(leaf.preimage() =~= seq![s.0, s.1, s.2, s.3, leaf.subpool_id.0]);
}

} // verus!
