//! The two custom gates of signature verification: their wires and constraints.
//!
//! A gate is satisfied by a row of wires if all its constraints are zero.
use vstd::prelude::*;

use crate::ecgfp5::{
    coeff_a_third, coeff_cap_a, coeff_cap_b, generator_point, small, PointEw, GENERATOR_X,
    GENERATOR_Y,
};
use crate::field::F;
use crate::quintic::QuinticExtension;
use crate::schnorr::{append_coefficients, coefficients};

verus! {

/// The first coordinate of the offset point `O`, at which the accumulator starts.
pub const OFFSET_X: [u64; 5] = [
    2626390539619063455,
    3069873143820007175,
    16481805966921623903,
    2169403494164322467,
    15849876939764656634,
];

/// The second coordinate of the offset point `O`.
pub const OFFSET_Y: [u64; 5] = [
    8052493994140007067,
    12476750341447220703,
    7297584762312352412,
    4456043296886321460,
    17416054515469523789,
];

/// The first coordinate of `-2^319 * O`, which is added to the accumulator at the
/// end of the chain.
pub const OFFSET_NEG_319_X: [u64; 5] = [
    4290739547668160462,
    4414444320864360104,
    13341412719882091143,
    6277196213122332219,
    5576063673169056362,
];

/// The second coordinate of `-2^319 * O`.
pub const OFFSET_NEG_319_Y: [u64; 5] = [
    31345035390588453,
    16142908491486898889,
    1937863704661416826,
    5598663702127262288,
    17388813215359868465,
];

/// A point given by its two coordinates, as wires hold it.
#[derive(Clone, Copy, Debug, PartialEq, Eq, Structural)]
pub struct LocalPointEw {
    pub x: QuinticExtension,
    pub y: QuinticExtension,
}

impl LocalPointEw {
    /// The point of the curve with these coordinates.
    pub open spec fn point(self) -> PointEw {
        PointEw { x: self.x, y: self.y, at_inf: false }
    }

    /// Whether the coordinates are canonical.
    pub open spec fn canonical(self) -> bool {
        self.x.canonical() && self.y.canonical()
    }

    /// The coordinates of a point.
    pub fn of_point(p: &PointEw) -> (r: Self)
        ensures
            r == (LocalPointEw { x: p.x, y: p.y }),
    {
        LocalPointEw { x: p.x, y: p.y }
    }
}

/// The offset point.
pub open spec fn offset_point() -> LocalPointEw {
    LocalPointEw {
        x: QuinticExtension::of_ints(
            2626390539619063455,
            3069873143820007175,
            16481805966921623903,
            2169403494164322467,
            15849876939764656634,
        ),
        y: QuinticExtension::of_ints(
            8052493994140007067,
            12476750341447220703,
            7297584762312352412,
            4456043296886321460,
            17416054515469523789,
        ),
    }
}

/// The point that takes the offset away again.
pub open spec fn offset_end() -> LocalPointEw {
    LocalPointEw {
        x: QuinticExtension::of_ints(
            4290739547668160462,
            4414444320864360104,
            13341412719882091143,
            6277196213122332219,
            5576063673169056362,
        ),
        y: QuinticExtension::of_ints(
            31345035390588453,
            16142908491486898889,
            1937863704661416826,
            5598663702127262288,
            17388813215359868465,
        ),
    }
}

/// The offset point.
pub fn offset() -> (r: LocalPointEw)
    ensures
        r == offset_point(),
{
    LocalPointEw {
        x: QuinticExtension::from_canonical_u64s(OFFSET_X),
        y: QuinticExtension::from_canonical_u64s(OFFSET_Y),
    }
}

/// The point that takes the offset away again.
pub fn offset_neg_319() -> (r: LocalPointEw)
    ensures
        r == offset_end(),
{
    LocalPointEw {
        x: QuinticExtension::from_canonical_u64s(OFFSET_NEG_319_X),
        y: QuinticExtension::from_canonical_u64s(OFFSET_NEG_319_Y),
    }
}

/// The coordinates of the generator.
pub open spec fn generator_coordinates() -> LocalPointEw {
    LocalPointEw { x: generator_point().x, y: generator_point().y }
}

fn generator() -> (r: LocalPointEw)
    ensures
        r == generator_coordinates(),
{
    LocalPointEw {
        x: QuinticExtension::from_canonical_u64s(GENERATOR_X),
        y: QuinticExtension::from_canonical_u64s(GENERATOR_Y),
    }
}

/// The constraint `x == y`: the coefficients of the difference.
pub open spec fn equality(x: QuinticExtension, y: QuinticExtension) -> Seq<F> {
    coefficients(x - y)
}

/// Returns the constraints for `x == y`.
pub fn assert_equal(x: QuinticExtension, y: QuinticExtension) -> (r: Vec<F>)
    ensures
        r@ == equality(x, y),
{
    let mut v: Vec<F> = Vec::new();
    append_coefficients(&(x - y), &mut v);
    assert(v@ =~= equality(x, y));
    v
}

/// The constraints for `po == p1 + p2`:
/// `(xo + x1 + x2) (x2 - x1)^2 == (y2 - y1)^2` and
/// `(yo + y1) (x2 - x1) == (y2 - y1) (x1 - xo)`.
pub open spec fn addition(p1: LocalPointEw, p2: LocalPointEw, po: LocalPointEw) -> Seq<F> {
    let dx = p2.x - p1.x;
    let dy = p2.y - p1.y;
    equality(((po.x + p1.x) + p2.x) * (dx * dx), dy * dy) + equality(
        (po.y + p1.y) * dx,
        dy * (p1.x - po.x),
    )
}

/// Returns the constraints for `po == p1 + p2`.
pub fn add_two_points(p1: &LocalPointEw, p2: &LocalPointEw, po: &LocalPointEw) -> (r: Vec<F>)
    ensures
        r@ == addition(*p1, *p2, *po),
{
    let dx = p2.x - p1.x;
    let dy = p2.y - p1.y;
    let mut v = assert_equal(((po.x + p1.x) + p2.x) * dx.square(), dy.square());
    let mut w = assert_equal((po.y + p1.y) * dx, dy * (p1.x - po.x));
    v.append(&mut w);
    v
}

/// The point that the line of slope `l` through `p1` and `p2` leads to.
pub open spec fn middle(p1: LocalPointEw, p2: LocalPointEw, l: QuinticExtension) -> LocalPointEw {
    let x = l * l - p1.x - p2.x;
    LocalPointEw { x, y: l * (p1.x - x) - p1.y }
}

/// The constraints for `po == p1 + p2 + p3`, where `l` is the slope of the line
/// through `p1` and `p2`.
pub open spec fn addition_of_three(
    p1: LocalPointEw,
    p2: LocalPointEw,
    p3: LocalPointEw,
    l: QuinticExtension,
    po: LocalPointEw,
) -> Seq<F> {
    let m = middle(p1, p2, l);
    let dx = m.x - p3.x;
    let dy = m.y - p3.y;
    equality(l * (p2.x - p1.x), p2.y - p1.y) + equality(
        ((po.x + m.x) + p3.x) * (dx * dx),
        dy * dy,
    ) + equality((po.y + p3.y) * dx, dy * (p3.x - po.x))
}

/// Returns the constraints for `po == p1 + p2 + p3`.
pub fn add_three_points(
    p1: &LocalPointEw,
    p2: &LocalPointEw,
    p3: &LocalPointEw,
    lambda: &QuinticExtension,
    po: &LocalPointEw,
) -> (r: Vec<F>)
    ensures
        r@ == addition_of_three(*p1, *p2, *p3, *lambda, *po),
{
    let xi = lambda.square() - p1.x - p2.x;
    let yi = (*lambda * (p1.x - xi)) - p1.y;
    let dy = yi - p3.y;
    let dx = xi - p3.x;
    let mut v = assert_equal(*lambda * (p2.x - p1.x), p2.y - p1.y);
    let mut w = assert_equal(((po.x + xi) + p3.x) * dx.square(), dy.square());
    let mut u = assert_equal((po.y + p3.y) * dx, dy * (p3.x - po.x));
    v.append(&mut w);
    v.append(&mut u);
    v
}

/// Every constraint times a selector.
pub open spec fn scaled(s: F, c: Seq<F>) -> Seq<F> {
    Seq::new(c.len(), |i: int| s * c[i])
}

fn append_scaled(v: &mut Vec<F>, s: F, c: &Vec<F>)
    ensures
        final(v)@ == old(v)@ + scaled(s, c@),
{
    let mut i: usize = 0;
    while i < c.len()
        invariant
            i <= c@.len(),
            v@ == old(v)@ + scaled(s, c@).take(i as int),
        decreases c@.len() - i,
    {
        v.push(s * c[i]);
        i += 1;
        assert(v@ =~= old(v)@ + scaled(s, c@).take(i as int));
    }
    assert(scaled(s, c@).take(i as int) =~= scaled(s, c@));
}

/// The constraints `p == q`, coordinate by coordinate, times a selector.
pub open spec fn unchanged(s: F, p: LocalPointEw, q: LocalPointEw) -> Seq<F> {
    seq![
        s * (p.x.c0 - q.x.c0),
        s * (p.y.c0 - q.y.c0),
        s * (p.x.c1 - q.x.c1),
        s * (p.y.c1 - q.y.c1),
        s * (p.x.c2 - q.x.c2),
        s * (p.y.c2 - q.y.c2),
        s * (p.x.c3 - q.x.c3),
        s * (p.y.c3 - q.y.c3),
        s * (p.x.c4 - q.x.c4),
        s * (p.y.c4 - q.y.c4),
    ]
}

fn append_unchanged(v: &mut Vec<F>, s: F, p: &LocalPointEw, q: &LocalPointEw)
    ensures
        final(v)@ == old(v)@ + unchanged(s, *p, *q),
{
    v.push(s * (p.x.c0 - q.x.c0));
    v.push(s * (p.y.c0 - q.y.c0));
    v.push(s * (p.x.c1 - q.x.c1));
    v.push(s * (p.y.c1 - q.y.c1));
    v.push(s * (p.x.c2 - q.x.c2));
    v.push(s * (p.y.c2 - q.y.c2));
    v.push(s * (p.x.c3 - q.x.c3));
    v.push(s * (p.y.c3 - q.y.c3));
    v.push(s * (p.x.c4 - q.x.c4));
    v.push(s * (p.y.c4 - q.y.c4));
    assert(v@ =~= old(v)@ + unchanged(s, *p, *q));
}

/// The constraints for `po == pi + b0 p1 + b1 p2`, where the bits select.
pub open spec fn chain(
    pi: LocalPointEw,
    p1: LocalPointEw,
    p2: LocalPointEw,
    po: LocalPointEw,
    l: QuinticExtension,
    b0: F,
    b1: F,
) -> Seq<F> {
    let one = F::of(1);
    seq![(one - b0) * b0, (one - b1) * b1] + unchanged((one - b0) * (one - b1), pi, po) + scaled(
        b0 * (one - b1),
        addition(pi, p1, po),
    ) + scaled((one - b0) * b1, addition(pi, p2, po)) + scaled(
        b0 * b1,
        addition_of_three(pi, p1, p2, l, po),
    )
}

/// Returns the constraints for `po == pi + b0 p1 + b1 p2`, where the bits select.
pub fn double_acc_chain(
    pi: &LocalPointEw,
    p1: &LocalPointEw,
    p2: &LocalPointEw,
    po: &LocalPointEw,
    lambda: &QuinticExtension,
    b0: F,
    b1: F,
) -> (r: Vec<F>)
    ensures
        r@ == chain(*pi, *p1, *p2, *po, *lambda, b0, b1),
        r@.len() == 47,
{
    let one = F::one();
    let mut v: Vec<F> = Vec::new();
    v.push((one - b0) * b0);
    v.push((one - b1) * b1);
    append_unchanged(&mut v, (one - b0) * (one - b1), pi, po);
    append_scaled(&mut v, b0 * (one - b1), &add_two_points(pi, p1, po));
    append_scaled(&mut v, (one - b0) * b1, &add_two_points(pi, p2, po));
    append_scaled(&mut v, b0 * b1, &add_three_points(pi, p1, p2, lambda, po));
    assert(v@ =~= chain(*pi, *p1, *p2, *po, *lambda, b0, b1));
    v
}

/// The constraints for `p2 == 2 p1`. With `n = 3 x1^2 + A` and `m = 2 y1`:
/// `(x2 + x1 + x1) m^2 == n^2` and `(y2 + y1) m^3 == 3 x1 n m^2 - n^3`.
pub open spec fn doubling(p1: LocalPointEw, p2: LocalPointEw) -> Seq<F> {
    let n = (p1.x * p1.x) * small(3) + coeff_cap_a();
    let m = p1.y * small(2);
    equality(((p2.x + p1.x) + p1.x) * (m * m), n * n) + equality(
        (p2.y + p1.y) * ((m * m) * m),
        ((p1.x * n) * (m * m)) * small(3) - (n * n) * n,
    )
}

/// Returns the constraints for `p2 == 2 p1`.
pub fn p2_doubleof_p1(p1: &LocalPointEw, p2: &LocalPointEw) -> (r: Vec<F>)
    ensures
        r@ == doubling(*p1, *p2),
        r@.len() == 10,
{
    let three = PointEw::scalar(3);
    let n = p1.x.square() * three + PointEw::cap_a();
    let m = p1.y * PointEw::scalar(2);
    let m_sq = m.square();
    let n_sq = n.square();
    let mut v = assert_equal(((p2.x + p1.x) + p1.x) * m_sq, n_sq);
    let mut w = assert_equal(
        (p2.y + p1.y) * (m_sq * m),
        ((p1.x * n) * m_sq) * three - n_sq * n,
    );
    v.append(&mut w);
    v
}

/// Four elements: the selector bits of a row.
#[derive(Clone, Copy, Debug, PartialEq, Eq, Structural)]
pub struct Bits(pub F, pub F, pub F, pub F);

/// All wires of a [`DoubleAdd4x`] row.
#[derive(Clone, Copy, Debug, PartialEq, Eq, Structural)]
pub struct DoubleAdd4xTargets {
    pub p: LocalPointEw,
    pub accin: LocalPointEw,
    pub acco4: LocalPointEw,
    pub sp: Bits,
    pub sg: Bits,
    /// Last gate selector.
    pub lgs: F,
    pub acco1: LocalPointEw,
    pub acco2: LocalPointEw,
    pub acco3: LocalPointEw,
    pub accdblin: LocalPointEw,
    pub accdblo1: LocalPointEw,
    pub accdblo2: LocalPointEw,
    pub accdblo3: LocalPointEw,
    pub lambda1: QuinticExtension,
    pub lambda2: QuinticExtension,
    pub lambda3: QuinticExtension,
    pub lambda4: QuinticExtension,
}

/// The element of the extension on five wires.
pub open spec fn extension_at(w: Seq<F>, at: int) -> QuinticExtension {
    QuinticExtension { c0: w[at], c1: w[at + 1], c2: w[at + 2], c3: w[at + 3], c4: w[at + 4] }
}

/// The point on ten wires.
pub open spec fn point_at(w: Seq<F>, at: int) -> LocalPointEw {
    LocalPointEw { x: extension_at(w, at), y: extension_at(w, at + 5) }
}

fn read_extension(w: &[F], at: usize) -> (r: QuinticExtension)
    requires
        at + 5 <= w@.len(),
    ensures
        r == extension_at(w@, at as int),
{
    QuinticExtension { c0: w[at], c1: w[at + 1], c2: w[at + 2], c3: w[at + 3], c4: w[at + 4] }
}

fn read_point(w: &[F], at: usize) -> (r: LocalPointEw)
    requires
        at <= 1000,
        at + 10 <= w@.len(),
    ensures
        r == point_at(w@, at as int),
{
    LocalPointEw { x: read_extension(w, at), y: read_extension(w, at + 5) }
}

/// The wires of a [`DoubleAdd4x`] row, by name.
pub open spec fn row_of(w: Seq<F>) -> DoubleAdd4xTargets {
    DoubleAdd4xTargets {
        p: point_at(w, 0),
        accin: point_at(w, 10),
        acco4: point_at(w, 20),
        sp: Bits(w[30], w[31], w[32], w[33]),
        sg: Bits(w[35], w[36], w[37], w[38]),
        lgs: w[39],
        acco1: point_at(w, 40),
        acco2: point_at(w, 50),
        acco3: point_at(w, 60),
        accdblin: point_at(w, 70),
        accdblo1: point_at(w, 80),
        accdblo2: point_at(w, 90),
        accdblo3: point_at(w, 100),
        lambda1: extension_at(w, 110),
        lambda2: extension_at(w, 115),
        lambda3: extension_at(w, 120),
        lambda4: extension_at(w, 125),
    }
}

/// Coordinates, as elements.
pub open spec fn point_wires(p: LocalPointEw) -> Seq<F> {
    coefficients(p.x) + coefficients(p.y)
}

impl DoubleAdd4xTargets {
    /// The wires of a row, by name.
    pub fn from_row(w: &[F]) -> (r: Self)
        requires
            w@.len() >= 130,
        ensures
            r == row_of(w@),
    {
        DoubleAdd4xTargets {
            p: read_point(w, 0),
            accin: read_point(w, 10),
            acco4: read_point(w, 20),
            sp: Bits(w[30], w[31], w[32], w[33]),
            sg: Bits(w[35], w[36], w[37], w[38]),
            lgs: w[39],
            acco1: read_point(w, 40),
            acco2: read_point(w, 50),
            acco3: read_point(w, 60),
            accdblin: read_point(w, 70),
            accdblo1: read_point(w, 80),
            accdblo2: read_point(w, 90),
            accdblo3: read_point(w, 100),
            lambda1: read_extension(w, 110),
            lambda2: read_extension(w, 115),
            lambda3: read_extension(w, 120),
            lambda4: read_extension(w, 125),
        }
    }

    /// The row of wires, in order; the wire that no constraint reads is zero.
    pub fn to_row(&self) -> (r: Vec<F>)
        ensures
            r@.len() == 130,
            row_of(r@) == *self,
            r@[34] == F::of(0),
    {
        let mut v: Vec<F> = Vec::new();
        append_point(&self.p, &mut v);
        append_point(&self.accin, &mut v);
        append_point(&self.acco4, &mut v);
        v.push(self.sp.0);
        v.push(self.sp.1);
        v.push(self.sp.2);
        v.push(self.sp.3);
        v.push(F::zero());
        v.push(self.sg.0);
        v.push(self.sg.1);
        v.push(self.sg.2);
        v.push(self.sg.3);
        v.push(self.lgs);
        append_point(&self.acco1, &mut v);
        append_point(&self.acco2, &mut v);
        append_point(&self.acco3, &mut v);
        append_point(&self.accdblin, &mut v);
        append_point(&self.accdblo1, &mut v);
        append_point(&self.accdblo2, &mut v);
        append_point(&self.accdblo3, &mut v);
        append_coefficients(&self.lambda1, &mut v);
        append_coefficients(&self.lambda2, &mut v);
        append_coefficients(&self.lambda3, &mut v);
        append_coefficients(&self.lambda4, &mut v);
        v
    }

    /// Whether every wire is canonical.
    pub open spec fn canonical(self) -> bool {
        &&& self.p.canonical()
        &&& self.accin.canonical()
        &&& self.acco1.canonical()
        &&& self.acco2.canonical()
        &&& self.acco3.canonical()
        &&& self.acco4.canonical()
        &&& self.accdblin.canonical()
        &&& self.accdblo1.canonical()
        &&& self.accdblo2.canonical()
        &&& self.accdblo3.canonical()
        &&& self.lambda1.canonical()
        &&& self.lambda2.canonical()
        &&& self.lambda3.canonical()
        &&& self.lambda4.canonical()
        &&& self.sp.0.canonical() && self.sp.1.canonical() && self.sp.2.canonical()
            && self.sp.3.canonical()
        &&& self.sg.0.canonical() && self.sg.1.canonical() && self.sg.2.canonical()
            && self.sg.3.canonical()
        &&& self.lgs.canonical()
    }
}

fn append_point(p: &LocalPointEw, v: &mut Vec<F>)
    ensures
        final(v)@ == old(v)@ + point_wires(*p),
{
    append_coefficients(&p.x, v);
    append_coefficients(&p.y, v);
    assert(v@ =~= old(v)@ + point_wires(*p));
}

/// The second point of the last chain: the generator, or on the last row the
/// point that takes the offset away.
pub open spec fn blended(lgs: F) -> LocalPointEw {
    let nlgs = F::of(1) - lgs;
    let g = generator_coordinates();
    let e = offset_end();
    LocalPointEw {
        x: QuinticExtension {
            c0: nlgs * g.x.c0 + lgs * e.x.c0,
            c1: nlgs * g.x.c1 + lgs * e.x.c1,
            c2: nlgs * g.x.c2 + lgs * e.x.c2,
            c3: nlgs * g.x.c3 + lgs * e.x.c3,
            c4: nlgs * g.x.c4 + lgs * e.x.c4,
        },
        y: QuinticExtension {
            c0: nlgs * g.y.c0 + lgs * e.y.c0,
            c1: nlgs * g.y.c1 + lgs * e.y.c1,
            c2: nlgs * g.y.c2 + lgs * e.y.c2,
            c3: nlgs * g.y.c3 + lgs * e.y.c3,
            c4: nlgs * g.y.c4 + lgs * e.y.c4,
        },
    }
}

fn blend_extension(k: F, a: &QuinticExtension, l: F, b: &QuinticExtension) -> (r: QuinticExtension)
    ensures
        r == (QuinticExtension {
            c0: k * a.c0 + l * b.c0,
            c1: k * a.c1 + l * b.c1,
            c2: k * a.c2 + l * b.c2,
            c3: k * a.c3 + l * b.c3,
            c4: k * a.c4 + l * b.c4,
        }),
{
    QuinticExtension {
        c0: k * a.c0 + l * b.c0,
        c1: k * a.c1 + l * b.c1,
        c2: k * a.c2 + l * b.c2,
        c3: k * a.c3 + l * b.c3,
        c4: k * a.c4 + l * b.c4,
    }
}

fn blend(lgs: F) -> (r: LocalPointEw)
    ensures
        r == blended(lgs),
{
    let nlgs = F::one() - lgs;
    let g = generator();
    let e = offset_neg_319();
    LocalPointEw {
        x: blend_extension(nlgs, &g.x, lgs, &e.x),
        y: blend_extension(nlgs, &g.y, lgs, &e.y),
    }
}

/// The constraints of the doublings of a row.
pub open spec fn doubling_constraints(t: DoubleAdd4xTargets) -> Seq<F> {
    let nlgs = F::of(1) - t.lgs;
    doubling(t.accin, t.accdblin) + doubling(t.acco1, t.accdblo1) + doubling(t.acco2, t.accdblo2)
        + seq![t.lgs * nlgs] + scaled(nlgs, doubling(t.acco3, t.accdblo3)) + scaled(
        t.lgs,
        equality(t.acco3.x, t.accdblo3.x) + equality(t.acco3.y, t.accdblo3.y),
    )
}

/// The constraints of the four additions of a row.
pub open spec fn chain_constraints(t: DoubleAdd4xTargets) -> Seq<F> {
    let g = generator_coordinates();
    chain(t.accdblin, t.p, g, t.acco1, t.lambda1, t.sp.0, t.sg.0) + chain(
        t.accdblo1,
        t.p,
        g,
        t.acco2,
        t.lambda2,
        t.sp.1,
        t.sg.1,
    ) + chain(t.accdblo2, t.p, g, t.acco3, t.lambda3, t.sp.2, t.sg.2) + chain(
        t.accdblo3,
        t.p,
        blended(t.lgs),
        t.acco4,
        t.lambda4,
        t.sp.3,
        t.sg.3,
    )
}

/// A gate of four steps `acc := 2 acc + sp P + sg G`. On the last row of a chain
/// the fourth step does not double, and adds the end of the offset in place of
/// the generator.
#[derive(Clone, Copy, Debug)]
pub struct DoubleAdd4x {}

impl DoubleAdd4x {
    /// A gate: it has no parameters.
    pub fn new() -> (r: Self)
        ensures
            r == (DoubleAdd4x {}),
    {
        DoubleAdd4x {  }
    }

    /// Number of wires.
    pub fn num_wires(&self) -> (r: usize)
        ensures
            r == 130,
    {
        130
    }

    /// Number of constraints: four chains, four doublings, one bit and one equality
    /// of points.
    pub fn num_constraints(&self) -> (r: usize)
        ensures
            r == 47 * 4 + 10 * 4 + 1 + 10,
    {
        239
    }

    /// The constraints of a row.
    pub fn eval_unfiltered(&self, wires: &[F]) -> (r: Vec<F>)
        requires
            wires@.len() >= 130,
        ensures
            r@ == doubling_constraints(row_of(wires@)) + chain_constraints(row_of(wires@)),
            r@.len() == 239,
    {
        let t = DoubleAdd4xTargets::from_row(wires);
        let nlgs = F::one() - t.lgs;
        let mut v = p2_doubleof_p1(&t.accin, &t.accdblin);
        let mut d1 = p2_doubleof_p1(&t.acco1, &t.accdblo1);
        let mut d2 = p2_doubleof_p1(&t.acco2, &t.accdblo2);
        v.append(&mut d1);
        v.append(&mut d2);
        v.push(t.lgs * nlgs);
        append_scaled(&mut v, nlgs, &p2_doubleof_p1(&t.acco3, &t.accdblo3));
        let mut same = assert_equal(t.acco3.x, t.accdblo3.x);
        let mut same_y = assert_equal(t.acco3.y, t.accdblo3.y);
        same.append(&mut same_y);
        append_scaled(&mut v, t.lgs, &same);
        assert(v@ =~= doubling_constraints(t));
        let g = generator();
        let mut c1 = double_acc_chain(
            &t.accdblin,
            &t.p,
            &g,
            &t.acco1,
            &t.lambda1,
            t.sp.0,
            t.sg.0,
        );
        let mut c2 = double_acc_chain(
            &t.accdblo1,
            &t.p,
            &g,
            &t.acco2,
            &t.lambda2,
            t.sp.1,
            t.sg.1,
        );
        let mut c3 = double_acc_chain(
            &t.accdblo2,
            &t.p,
            &g,
            &t.acco3,
            &t.lambda3,
            t.sp.2,
            t.sg.2,
        );
        let p2 = blend(t.lgs);
        let mut c4 = double_acc_chain(
            &t.accdblo3,
            &t.p,
            &p2,
            &t.acco4,
            &t.lambda4,
            t.sp.3,
            t.sg.3,
        );
        v.append(&mut c1);
        v.append(&mut c2);
        v.append(&mut c3);
        v.append(&mut c4);
        assert(v@ =~= doubling_constraints(t) + chain_constraints(t));
        v
    }
}

/// Checks that `w` is the compressed form of a point of the curve, for several
/// points in a row.
#[derive(Clone, Copy, Debug)]
pub struct CompressionGate {
    pub num_ops: usize,
}

/// The constraints of one operation of a compression gate: `w (a/3 - x) == y`, and
/// `x^3 + (A x + B) active == y^2`.
pub open spec fn compression(
    w: QuinticExtension,
    x: QuinticExtension,
    y: QuinticExtension,
    active: F,
) -> Seq<F> {
    equality(w * (coeff_a_third() - x), y) + equality(
        (x * x) * x + times_base(coeff_cap_a() * x + coeff_cap_b(), active),
        y * y,
    )
}

/// An element of the extension times one of the base field.
pub open spec fn times_base(x: QuinticExtension, k: F) -> QuinticExtension {
    QuinticExtension::of(x@.scale(k@))
}

/// The constraints of the first `n` operations of a row.
pub open spec fn compressions(w: Seq<F>, n: nat) -> Seq<F>
    decreases n,
{
    if n == 0 {
        Seq::empty()
    } else {
        let at = 16 * (n - 1);
        compressions(w, (n - 1) as nat) + compression(
            extension_at(w, at),
            extension_at(w, at + 5),
            extension_at(w, at + 10),
            w[at + 15],
        )
    }
}

impl CompressionGate {
    /// As many operations as the routed wires hold.
    pub fn new_from_config(num_routed_wires: usize) -> (r: Self)
        ensures
            r.num_ops == num_routed_wires / 15,
    {
        CompressionGate { num_ops: num_routed_wires / 15 }
    }

    /// Number of wires: sixteen for each operation.
    pub fn num_wires(&self) -> (r: usize)
        requires
            16 * self.num_ops <= usize::MAX,
        ensures
            r == 16 * self.num_ops,
    {
        16 * self.num_ops
    }

    /// Number of constraints: ten for each operation.
    pub fn num_constraints(&self) -> (r: usize)
        requires
            10 * self.num_ops <= usize::MAX,
        ensures
            r == 10 * self.num_ops,
    {
        10 * self.num_ops
    }

    /// First wire of `w` of an operation.
    pub fn wire_ith_w_offset(i: usize) -> (r: usize)
        requires
            i * 16 <= usize::MAX,
        ensures
            r == i * 16,
    {
        i * 16
    }

    /// First wire of `x` of an operation.
    pub fn wire_ith_x_offset(i: usize) -> (r: usize)
        requires
            i * 16 + 5 <= usize::MAX,
        ensures
            r == i * 16 + 5,
    {
        i * 16 + 5
    }

    /// First wire of `y` of an operation.
    pub fn wire_ith_y_offset(i: usize) -> (r: usize)
        requires
            i * 16 + 10 <= usize::MAX,
        ensures
            r == i * 16 + 10,
    {
        i * 16 + 10
    }

    /// The wire that says whether an operation is active.
    pub fn wire_ith_isactive_offset(i: usize) -> (r: usize)
        requires
            i * 16 + 15 <= usize::MAX,
        ensures
            r == i * 16 + 15,
    {
        i * 16 + 15
    }

    /// The constraints of a row.
    pub fn eval_unfiltered(&self, wires: &[F]) -> (r: Vec<F>)
        requires
            wires@.len() >= 16 * self.num_ops,
        ensures
            r@ == compressions(wires@, self.num_ops as nat),
            r@.len() == 10 * self.num_ops,
    {
        let mut v: Vec<F> = Vec::new();
        let third = PointEw::adiv3();
        let cap_a = PointEw::cap_a();
        let cap_b = PointEw::cap_b();
        let mut i: usize = 0;
        while i < self.num_ops
            invariant
                wires@.len() >= 16 * self.num_ops,
                i <= self.num_ops,
                third == coeff_a_third(),
                cap_a == coeff_cap_a(),
                cap_b == coeff_cap_b(),
                v@ == compressions(wires@, i as nat),
                v@.len() == 10 * i,
            decreases self.num_ops - i,
        {
            let count: usize = wires.len();
            assert(i * 16 + 15 < count);
            let active = wires[Self::wire_ith_isactive_offset(i)];
            let w = read_extension(wires, Self::wire_ith_w_offset(i));
            let x = read_extension(wires, Self::wire_ith_x_offset(i));
            let y = read_extension(wires, Self::wire_ith_y_offset(i));
            let mut c1 = assert_equal(w * (third - x), y);
            let mut c2 = assert_equal(
                x.square() * x + (cap_a * x + cap_b).scalar_mul(active),
                y.square(),
            );
            v.append(&mut c1);
            v.append(&mut c2);
            i += 1;
            assert(v@ =~= compressions(wires@, i as nat));
        }
        v
    }
}

/// The generator of a [`DoubleAdd4x`] row: it waits for all wires and sets none.
#[derive(Clone, Copy, Debug)]
pub struct DoubleAdd4xGenerator {
    pub row: usize,
}

impl DoubleAdd4xGenerator {
    /// The columns that the generator waits for: all wires but the unused one.
    pub fn dependencies(&self) -> (r: Vec<usize>)
        ensures
            r@.len() == 129,
            forall|i: int| 0 <= i < 129 ==> #[trigger] r@[i] == (if i < 34 {
                i
            } else {
                i + 1
            }),
    {
        let mut v: Vec<usize> = Vec::new();
        let mut i: usize = 0;
        while i < 129
            invariant
                i <= 129,
                v@.len() == i,
                forall|j: int| 0 <= j < i ==> #[trigger] v@[j] == (if j < 34 {
                    j
                } else {
                    j + 1
                }),
            decreases 129 - i,
        {
            v.push(if i < 34 {
                i
            } else {
                i + 1
            });
            i += 1;
        }
        v
    }
}

/// The generator of one operation of a [`CompressionGate`] row: it waits for the
/// wires of the point and its compressed form, and sets none.
#[derive(Clone, Copy, Debug)]
pub struct CompressionGateGenerator {
    pub row: usize,
    pub i: usize,
}

impl CompressionGateGenerator {
    /// The columns that the generator waits for: fifteen wires from the first of
    /// the operation on.
    pub fn dependencies(&self) -> (r: Vec<usize>)
        requires
            16 * self.i + 14 <= usize::MAX,
        ensures
            r@.len() == 15,
            forall|j: int| 0 <= j < 15 ==> #[trigger] r@[j] == 16 * self.i + j,
    {
        let first: usize = CompressionGate::wire_ith_w_offset(self.i);
        let mut v: Vec<usize> = Vec::new();
        let mut k: usize = 0;
        while k < 15
            invariant
                k <= 15,
                16 * self.i + 14 <= usize::MAX,
                first == 16 * self.i,
                v@.len() == k,
                forall|j: int| 0 <= j < k ==> #[trigger] v@[j] == 16 * self.i + j,
            decreases 15 - k,
        {
            v.push(first + k);
            k += 1;
        }
        v
    }
}

} // verus!
