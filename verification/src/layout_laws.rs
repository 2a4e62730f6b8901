//! Where values stand: on the wires of a row, and among the public inputs.
use vstd::prelude::*;

use crate::ecgfp5::{coeff_a_third, on_curve, PointEw};
use crate::field::F;
use crate::gate_laws::{lemma_compression, lemma_zeros_concat, zeros};
use crate::gates::{
    compression, compressions, extension_at, CompressionGate, DoubleAdd4xTargets, LocalPointEw,
};
use crate::params::NOTE_BATCH;
use crate::public_inputs::{
    blocks, DepositTxPublicTargets, TxCircuitPublicTargets, WithdrawTxPublicTargets,
};
use crate::quintic::QuinticExtension;

verus! {

/// An element stands on five wires from a place on.
pub open spec fn stands(x: QuinticExtension, w: Seq<F>, at: int) -> bool {
    x.c0 == w[at] && x.c1 == w[at + 1] && x.c2 == w[at + 2] && x.c3 == w[at + 3] && x.c4 == w[at
        + 4]
}

/// A point stands on ten wires from a place on, its abscissa first.
pub open spec fn stands_point(p: LocalPointEw, w: Seq<F>, at: int) -> bool {
    stands(p.x, w, at) && stands(p.y, w, at + 5)
}

/// Where the wires of a row of four steps stand, read and written alike.
pub proof fn lemma_row_places(w: &[F], t: DoubleAdd4xTargets, s: &DoubleAdd4xTargets, v: Vec<F>)
    requires
        call_ensures(DoubleAdd4xTargets::from_row, (w,), t),
        call_ensures(DoubleAdd4xTargets::to_row, (s,), v),
    ensures
        at_places(t, w@),
        at_places(*s, v@),
        v@.len() == 130,
{
}

/// The wires of a row of four steps, by place: the point, the accumulator before and
/// after, the selectors of the point and those of the generator, the mark of the last
/// row, and then the points and slopes between.
pub open spec fn at_places(t: DoubleAdd4xTargets, w: Seq<F>) -> bool {
    &&& stands_point(t.p, w, 0)
    &&& stands_point(t.accin, w, 10)
    &&& stands_point(t.acco4, w, 20)
    &&& t.sp.0 == w[30] && t.sp.1 == w[31] && t.sp.2 == w[32] && t.sp.3 == w[33]
    &&& t.sg.0 == w[35] && t.sg.1 == w[36] && t.sg.2 == w[37] && t.sg.3 == w[38]
    &&& t.lgs == w[39]
    &&& stands_point(t.acco1, w, 40)
    &&& stands_point(t.acco2, w, 50)
    &&& stands_point(t.acco3, w, 60)
    &&& stands_point(t.accdblin, w, 70)
    &&& stands_point(t.accdblo1, w, 80)
    &&& stands_point(t.accdblo2, w, 90)
    &&& stands_point(t.accdblo3, w, 100)
    &&& stands(t.lambda1, w, 110)
    &&& stands(t.lambda2, w, 115)
    &&& stands(t.lambda3, w, 120)
    &&& stands(t.lambda4, w, 125)
}

proof fn lemma_each_compression(w: Seq<F>, n: nat, k: int)
    requires
        zeros(compressions(w, n)),
        0 <= k < n,
    ensures
        zeros(
            compression(
                extension_at(w, 16 * k),
                extension_at(w, 16 * k + 5),
                extension_at(w, 16 * k + 10),
                w[16 * k + 15],
            ),
        ),
    decreases n,
{
    let at = 16 * (n - 1);
    let last = compression(
        extension_at(w, at),
        extension_at(w, at + 5),
        extension_at(w, at + 10),
        w[at + 15],
    );
    lemma_zeros_concat(compressions(w, (n - 1) as nat), last);
    if k < n - 1 {
        lemma_each_compression(w, (n - 1) as nat, k);
    }
}

/// Where the constraints of a compression gate are all zero, each active operation has
/// on its first fifteen wires the compressed form and the coordinates of a point of the
/// curve.
pub proof fn lemma_compression_places(
    g: &CompressionGate,
    wires: &[F],
    r: Vec<F>,
    k: int,
    w: QuinticExtension,
    x: QuinticExtension,
    y: QuinticExtension,
)
    requires
        call_ensures(CompressionGate::eval_unfiltered, (g, wires), r),
        forall|i: int| 0 <= i < r@.len() ==> #[trigger] r@[i] == F::of(0),
        0 <= k < g.num_ops,
        stands(w, wires@, 16 * k),
        stands(x, wires@, 16 * k + 5),
        stands(y, wires@, 16 * k + 10),
        wires@[16 * k + 15] == F::of(1),
        w.canonical(),
        x.canonical(),
        y.canonical(),
    ensures
        w * (coeff_a_third() - x) == y,
        on_curve(PointEw { x, y, at_inf: false }),
{
    lemma_each_compression(wires@, g.num_ops as nat, k);
    assert(w == extension_at(wires@, 16 * k));
    assert(x == extension_at(wires@, 16 * k + 5));
    assert(y == extension_at(wires@, 16 * k + 10));
    lemma_compression(w, x, y);
}

proof fn lemma_fours(s: [[F; 4]; NOTE_BATCH], i: int, j: int)
    requires
        0 <= i < 7,
        0 <= j < 4,
    ensures
        blocks(s).len() == 28,
        blocks(s)[4 * i + j] == s@[i]@[j],
{
    let (a, b, c, d) = (s@[0]@, s@[1]@, s@[2]@, s@[3]@);
    assert(a.len() == 4 && b.len() == 4 && c.len() == 4 && d.len() == 4);
    assert(s@[4]@.len() == 4 && s@[5]@.len() == 4 && s@[6]@.len() == 4);
    if i == 0 {
    } else if i == 1 {
    } else if i == 2 {
    } else if i == 3 {
    } else if i == 4 {
    } else if i == 5 {
    } else {
        assert(i == 6);
    }
}

proof fn lemma_eights(s: [[F; 8]; NOTE_BATCH], i: int, j: int)
    requires
        0 <= i < 7,
        0 <= j < 8,
    ensures
        blocks(s).len() == 56,
        blocks(s)[8 * i + j] == s@[i]@[j],
{
    let (a, b, c, d) = (s@[0]@, s@[1]@, s@[2]@, s@[3]@);
    assert(a.len() == 8 && b.len() == 8 && c.len() == 8 && d.len() == 8);
    assert(s@[4]@.len() == 8 && s@[5]@.len() == 8 && s@[6]@.len() == 8);
    if i == 0 {
    } else if i == 1 {
    } else if i == 2 {
    } else if i == 3 {
    } else if i == 4 {
    } else if i == 5 {
    } else {
        assert(i == 6);
    }
}

/// Where the public inputs of a private transaction stand, registered and read alike.
pub proof fn lemma_private_places(
    t: &TxCircuitPublicTargets<F>,
    r: Vec<F>,
    pis: &[F],
    u: TxCircuitPublicTargets<F>,
    i: int,
    j: int,
)
    requires
        call_ensures(TxCircuitPublicTargets::<F>::register, (t,), r),
        call_ensures(TxCircuitPublicTargets::<F>::from_pis, (pis,), u),
        pis@.len() >= 73,
        0 <= i < 7,
        0 <= j < 4,
    ensures
        r@.len() == 73,
        private_places(*t, r@, i, j),
        private_places(u, pis@, i, j),
{
    lemma_fours(t.inotes_null, i, j);
    lemma_fours(t.onotes_comm, i, j);
    lemma_fours(u.inotes_null, i, j);
    lemma_fours(u.onotes_comm, i, j);
    assert(u.flat() =~= pis@.take(73));
    lemma_private_flat(*t, i, j);
    lemma_private_flat(u, i, j);
    let k = 4 * i + j;
    assert(pis@.take(73)[j] == pis@[j] && pis@.take(73)[4 + j] == pis@[4 + j] && pis@.take(73)[8]
        == pis@[8] && pis@.take(73)[9 + j] == pis@[9 + j] && pis@.take(73)[13 + j] == pis@[13 + j]
        && pis@.take(73)[17 + k] == pis@[17 + k] && pis@.take(73)[45 + k] == pis@[45 + k]);
}

/// The public inputs of a private transaction, by place.
pub open spec fn private_places(t: TxCircuitPublicTargets<F>, s: Seq<F>, i: int, j: int) -> bool {
    &&& s[j] == t.state_root@[j]
    &&& s[4 + j] == t.mainpool_config_root@[j]
    &&& s[8] == t.not_fake_tx
    &&& s[9 + j] == t.accin_null@[j]
    &&& s[13 + j] == t.accout_comm@[j]
    &&& s[17 + (4 * i + j)] == t.inotes_null@[i]@[j]
    &&& s[45 + (4 * i + j)] == t.onotes_comm@[i]@[j]
}

proof fn lemma_private_flat(t: TxCircuitPublicTargets<F>, i: int, j: int)
    requires
        0 <= i < 7,
        0 <= j < 4,
    ensures
        t.flat().len() == 73,
        private_places(t, t.flat(), i, j),
{
    lemma_fours(t.inotes_null, i, j);
    lemma_fours(t.onotes_comm, i, j);
    let (a, b) = (blocks(t.inotes_null), blocks(t.onotes_comm));
    let k = 4 * i + j;
    let u = t.unique();
    assert(u[9 + k] == a[k]);
    assert(u[37 + k] == b[k]);
    assert(t.flat()[17 + k] == u[9 + k]);
    assert(t.flat()[45 + k] == u[37 + k]);
}

/// Where the public inputs of a deposit stand, registered and read alike.
pub proof fn lemma_deposit_places(
    t: &DepositTxPublicTargets<F>,
    r: Vec<F>,
    pis: &[F],
    u: DepositTxPublicTargets<F>,
    j: int,
)
    requires
        call_ensures(DepositTxPublicTargets::<F>::register, (t,), r),
        call_ensures(DepositTxPublicTargets::<F>::from_pis, (pis,), u),
        pis@.len() >= 35,
        0 <= j < 8,
    ensures
        r@.len() == 35,
        deposit_places(*t, r@, j),
        deposit_places(u, pis@, j),
{
    lemma_deposit_flat(*t, j);
    lemma_deposit_flat(u, j);
    let p = pis@.take(35);
    assert(u.flat() =~= p);
    assert(p[8] == pis@[8] && p[34] == pis@[34] && p[26 + j] == pis@[26 + j]);
    assert(j < 5 ==> p[21 + j] == pis@[21 + j]);
    assert(j < 4 ==> p[j] == pis@[j] && p[4 + j] == pis@[4 + j] && p[9 + j] == pis@[9 + j] && p[13
        + j] == pis@[13 + j] && p[17 + j] == pis@[17 + j]);
}

/// The public inputs of a deposit, by place.
pub open spec fn deposit_places(t: DepositTxPublicTargets<F>, s: Seq<F>, j: int) -> bool {
    &&& j < 4 ==> s[j] == t.state_root@[j]
    &&& j < 4 ==> s[4 + j] == t.mainpool_config_root@[j]
    &&& s[8] == t.not_fake_tx
    &&& j < 4 ==> s[9 + j] == t.accin_null@[j]
    &&& j < 4 ==> s[13 + j] == t.accout_comm@[j]
    &&& j < 4 ==> s[17 + j] == t.note_comm@[j]
    &&& j < 5 ==> s[21 + j] == t.eth_address@[j]
    &&& s[26 + j] == t.amount@[j]
    &&& s[34] == t.asset_id
}

proof fn lemma_deposit_flat(t: DepositTxPublicTargets<F>, j: int)
    requires
        0 <= j < 8,
    ensures
        t.flat().len() == 35,
        deposit_places(t, t.flat(), j),
{
    let u = t.unique();
    assert(u.len() == 27);
    assert(u[18 + j] == t.amount@[j]);
    assert(t.flat()[26 + j] == u[18 + j]);
    assert(u[26] == t.asset_id);
    assert(t.flat()[34] == u[26]);
}

/// Where the public inputs of a withdrawal stand, registered and read alike.
pub proof fn lemma_withdraw_places(
    t: &WithdrawTxPublicTargets<F>,
    r: Vec<F>,
    pis: &[F],
    u: WithdrawTxPublicTargets<F>,
    i: int,
    j: int,
)
    requires
        call_ensures(WithdrawTxPublicTargets::<F>::register, (t,), r),
        call_ensures(WithdrawTxPublicTargets::<F>::from_pis, (pis,), u),
        pis@.len() >= 85,
        0 <= i < 7,
        0 <= j < 8,
    ensures
        r@.len() == 85,
        withdraw_places(*t, r@, i, j),
        withdraw_places(u, pis@, i, j),
{
    lemma_withdraw_flat(*t, i, j);
    lemma_withdraw_flat(u, i, j);
    let p = pis@.take(85);
    let k = 8 * i + j;
    assert(u.flat() =~= p);
    assert(p[8] == pis@[8] && p[17 + i] == pis@[17 + i] && p[24 + k] == pis@[24 + k]);
    assert(j < 5 ==> p[80 + j] == pis@[80 + j]);
    assert(j < 4 ==> p[j] == pis@[j] && p[4 + j] == pis@[4 + j] && p[9 + j] == pis@[9 + j] && p[13
        + j] == pis@[13 + j]);
}

/// The public inputs of a withdrawal, by place.
pub open spec fn withdraw_places(t: WithdrawTxPublicTargets<F>, s: Seq<F>, i: int, j: int) -> bool {
    &&& j < 4 ==> s[j] == t.root@[j]
    &&& j < 4 ==> s[4 + j] == t.mainpool_config_root@[j]
    &&& s[8] == t.not_fake_tx
    &&& j < 4 ==> s[9 + j] == t.accin_null@[j]
    &&& j < 4 ==> s[13 + j] == t.accout_comm@[j]
    &&& s[17 + i] == t.asset_ids@[i]
    &&& s[24 + (8 * i + j)] == t.withdrawal_amts@[i]@[j]
    &&& j < 5 ==> s[80 + j] == t.w_acc_addr@[j]
}

proof fn lemma_withdraw_flat(t: WithdrawTxPublicTargets<F>, i: int, j: int)
    requires
        0 <= i < 7,
        0 <= j < 8,
    ensures
        t.flat().len() == 85,
        withdraw_places(t, t.flat(), i, j),
{
    lemma_eights(t.withdrawal_amts, i, j);
    let b = blocks(t.withdrawal_amts);
    let k = 8 * i + j;
    let u = t.unique();
    assert(u.len() == 77);
    assert(u[16 + k] == b[k]);
    assert(t.flat()[24 + k] == u[16 + k]);
    assert(u[9 + i] == t.asset_ids@[i]);
    assert(t.flat()[17 + i] == u[9 + i]);
}

} // verus!
