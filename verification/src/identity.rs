//! Identities of integers are identities of the quintic extension.
//!
//! An equation between two expressions in sums, differences and products that
//! holds for all integers holds for all elements of the extension: an element is
//! the value of a polynomial with integer coefficients, and polynomials that agree
//! on all integers are the same.
use vstd::prelude::*;

use crate::algebra::lemma_sub_add;
use crate::conjugate::konst;
use crate::quintic::{
    lemma_add_assoc, lemma_add_comm, lemma_distribute, lemma_mul_assoc, lemma_mul_comm,
    QuinticExtension,
};
use crate::quintic_field::{lemma_konst_add, lemma_konst_mul, lemma_konst_view, lemma_shape};
use crate::quintic_power::{lemma_mul_canonical, lemma_one_times, lemma_units_canonical};
use crate::quintic_ring::Z5;

verus! {

/// The element `z` of which all elements are polynomials.
pub open spec fn root() -> QuinticExtension {
    QuinticExtension::of_ints(0, 1, 0, 0, 0)
}

/// The value of a polynomial with integer coefficients at an integer.
pub open spec fn at_int(c: Seq<int>, t: int) -> int
    decreases c.len(),
{
    if c.len() == 0 {
        0
    } else {
        c[0] + t * at_int(c.drop_first(), t)
    }
}

/// The value of a polynomial with integer coefficients at `z`.
pub open spec fn at_root(c: Seq<int>) -> QuinticExtension
    decreases c.len(),
{
    if c.len() == 0 {
        QuinticExtension::nought()
    } else {
        konst(c[0]) + root() * at_root(c.drop_first())
    }
}

/// The sum of two polynomials.
pub open spec fn poly_sum(c: Seq<int>, d: Seq<int>) -> Seq<int>
    decreases c.len(),
{
    if c.len() == 0 {
        d
    } else if d.len() == 0 {
        c
    } else {
        seq![c[0] + d[0]] + poly_sum(c.drop_first(), d.drop_first())
    }
}

/// A multiple of a polynomial.
pub open spec fn poly_scale(k: int, c: Seq<int>) -> Seq<int>
    decreases c.len(),
{
    if c.len() == 0 {
        c
    } else {
        seq![k * c[0]] + poly_scale(k, c.drop_first())
    }
}

/// The product of two polynomials.
pub open spec fn poly_product(c: Seq<int>, d: Seq<int>) -> Seq<int>
    decreases c.len(),
{
    if c.len() == 0 {
        c
    } else {
        poly_sum(poly_scale(c[0], d), seq![0int] + poly_product(c.drop_first(), d))
    }
}

proof fn lemma_canonical_value(c: Seq<int>)
    ensures
        at_root(c).canonical(),
{
    lemma_units_canonical();
    if c.len() > 0 {
        lemma_mul_canonical(konst(c[0]), root() * at_root(c.drop_first()));
    }
}

proof fn lemma_sum_value(c: Seq<int>, d: Seq<int>)
    ensures
        at_root(poly_sum(c, d)) == at_root(c) + at_root(d),
        forall|t: int| #[trigger] at_int(poly_sum(c, d), t) == at_int(c, t) + at_int(d, t),
    decreases c.len(),
{
    lemma_canonical_value(c);
    lemma_canonical_value(d);
    lemma_one_times(at_root(c));
    lemma_one_times(at_root(d));
    if c.len() > 0 && d.len() > 0 {
        let (cr, dr) = (c.drop_first(), d.drop_first());
        lemma_sum_value(cr, dr);
        let s = poly_sum(c, d);
        assert(s.drop_first() =~= poly_sum(cr, dr));
        let (a, b, x, y) = (konst(c[0]), konst(d[0]), root() * at_root(cr), root() * at_root(dr));
        lemma_konst_add(c[0], d[0]);
        lemma_distribute(at_root(cr), at_root(dr), root());
        // (a + b) + (x + y) == (a + x) + (b + y)
        lemma_add_assoc(a, b, x + y);
        lemma_add_assoc(b, x, y);
        lemma_add_comm(b, x);
        lemma_add_assoc(x, b, y);
        lemma_add_assoc(a, x, b + y);
        assert forall|t: int| #[trigger] at_int(s, t) == at_int(c, t) + at_int(d, t) by {
            assert(at_int(poly_sum(cr, dr), t) == at_int(cr, t) + at_int(dr, t));
            assert(t * (at_int(cr, t) + at_int(dr, t)) == t * at_int(cr, t) + t * at_int(dr, t))
                by (nonlinear_arith);
        }
    }
}

proof fn lemma_scale_value(k: int, c: Seq<int>)
    ensures
        at_root(poly_scale(k, c)) == konst(k) * at_root(c),
        forall|t: int| #[trigger] at_int(poly_scale(k, c), t) == k * at_int(c, t),
    decreases c.len(),
{
    lemma_konst_view(k);
    lemma_one_times(konst(k));
    if c.len() > 0 {
        let r = c.drop_first();
        lemma_scale_value(k, r);
        let s = poly_scale(k, c);
        assert(s.drop_first() =~= poly_scale(k, r));
        lemma_konst_mul(k, c[0]);
        lemma_distribute(konst(c[0]), root() * at_root(r), konst(k));
        lemma_mul_assoc(konst(k), root(), at_root(r));
        lemma_mul_comm(konst(k), root());
        lemma_mul_assoc(root(), konst(k), at_root(r));
        assert forall|t: int| #[trigger] at_int(s, t) == k * at_int(c, t) by {
            assert(at_int(poly_scale(k, r), t) == k * at_int(r, t));
            let v = at_int(r, t);
            assert(k * c[0] + t * (k * v) == k * (c[0] + t * v)) by (nonlinear_arith);
        }
    } else {
        assert forall|t: int| #[trigger] at_int(poly_scale(k, c), t) == k * at_int(c, t) by {
            assert(k * 0 == 0);
        }
    }
}

proof fn lemma_shift_value(c: Seq<int>)
    ensures
        at_root(seq![0int] + c) == root() * at_root(c),
        forall|t: int| #[trigger] at_int(seq![0int] + c, t) == t * at_int(c, t),
{
    assert((seq![0int] + c).drop_first() =~= c);
    lemma_units_canonical();
    lemma_mul_canonical(root(), at_root(c));
    lemma_one_times(root() * at_root(c));
}

proof fn lemma_product_value(c: Seq<int>, d: Seq<int>)
    ensures
        at_root(poly_product(c, d)) == at_root(c) * at_root(d),
        forall|t: int| #[trigger] at_int(poly_product(c, d), t) == at_int(c, t) * at_int(d, t),
    decreases c.len(),
{
    lemma_canonical_value(d);
    lemma_one_times(at_root(d));
    if c.len() > 0 {
        let r = c.drop_first();
        let (a, b) = (poly_scale(c[0], d), poly_product(r, d));
        lemma_product_value(r, d);
        lemma_scale_value(c[0], d);
        lemma_shift_value(b);
        lemma_sum_value(a, seq![0int] + b);
        lemma_distribute(konst(c[0]), root() * at_root(r), at_root(d));
        lemma_mul_assoc(root(), at_root(r), at_root(d));
        assert forall|t: int| #[trigger] at_int(poly_product(c, d), t) == at_int(c, t) * at_int(
            d,
            t,
        ) by {
            let (u, v) = (at_int(r, t), at_int(d, t));
            assert(at_int(a, t) == c[0] * v);
            assert(at_int(b, t) == u * v);
            assert(at_int(seq![0int] + b, t) == t * (u * v));
            assert(c[0] * v + t * (u * v) == (c[0] + t * u) * v) by (nonlinear_arith);
        }
    } else {
        assert forall|t: int| #[trigger] at_int(poly_product(c, d), t) == at_int(c, t) * at_int(
            d,
            t,
        ) by {
            assert(0 * at_int(d, t) == 0);
        }
    }
}

/// A polynomial that is zero at all positive integers is zero at `z`.
proof fn lemma_vanishes(c: Seq<int>)
    requires
        forall|t: int| t > 0 ==> #[trigger] at_int(c, t) == 0,
    ensures
        at_root(c) == QuinticExtension::nought(),
    decreases c.len(),
{
    if c.len() > 0 {
        let r = c.drop_first();
        let m: int = if c[0] >= 0 {
            c[0] + 1
        } else {
            1 - c[0]
        };
        let v = at_int(r, m);
        assert(at_int(c, m) == 0);
        assert(c[0] == 0) by (nonlinear_arith)
            requires
                c[0] + m * v == 0,
                m > 0,
                c[0] < m,
                -c[0] < m,
        ;
        assert forall|t: int| t > 0 implies #[trigger] at_int(r, t) == 0 by {
            let w = at_int(r, t);
            assert(at_int(c, t) == 0);
            assert(w == 0) by (nonlinear_arith)
                requires
                    t * w == 0,
                    t > 0,
            ;
        }
        lemma_vanishes(r);
        lemma_units_canonical();
        lemma_konst_view(1);
        lemma_mul_canonical(root(), root());
        crate::quintic::lemma_of_view(Z5 { c0: 0, c1: 1, c2: 0, c3: 0, c4: 0 });
        lemma_one_times(root());
        lemma_one_times(QuinticExtension::nought());
    }
}

/// Polynomials that agree on all integers agree at `z`.
proof fn lemma_agree(c: Seq<int>, d: Seq<int>)
    requires
        forall|t: int| #[trigger] at_int(c, t) == at_int(d, t),
    ensures
        at_root(c) == at_root(d),
{
    let n = poly_scale(-1, d);
    let s = poly_sum(c, n);
    lemma_scale_value(-1, d);
    lemma_sum_value(c, n);
    assert forall|t: int| t > 0 implies #[trigger] at_int(s, t) == 0 by {
        assert(at_int(c, t) == at_int(d, t));
        assert(at_int(n, t) == -1 * at_int(d, t));
    }
    lemma_vanishes(s);
    // c + (-1) d == 0 and d + (-1) d == 0
    let zero = poly_sum(d, n);
    lemma_sum_value(d, n);
    assert forall|t: int| t > 0 implies #[trigger] at_int(zero, t) == 0 by {
        assert(at_int(n, t) == -1 * at_int(d, t));
    }
    lemma_vanishes(zero);
    lemma_canonical_value(c);
    lemma_canonical_value(d);
    lemma_canonical_value(n);
    lemma_sub_add(at_root(c), at_root(n));
    lemma_sub_add(at_root(d), at_root(n));
}

/// The coefficients of an element.
pub open spec fn coefficients(x: QuinticExtension) -> Seq<int> {
    seq![x.c0@, x.c1@, x.c2@, x.c3@, x.c4@]
}

/// An element is the value of the polynomial of its coefficients.
proof fn lemma_coefficients_value(x: QuinticExtension)
    requires
        x.canonical(),
    ensures
        at_root(coefficients(x)) == x,
{
    let (a, b, c, d, e) = (x.c0@, x.c1@, x.c2@, x.c3@, x.c4@);
    let s = coefficients(x);
    let s1 = s.drop_first();
    let s2 = s1.drop_first();
    let s3 = s2.drop_first();
    let s4 = s3.drop_first();
    let s5 = s4.drop_first();
    assert(s1 =~= seq![b, c, d, e]);
    assert(s2 =~= seq![c, d, e]);
    assert(s3 =~= seq![d, e]);
    assert(s4 =~= seq![e]);
    assert(s5 =~= Seq::empty());
    lemma_units_canonical();
    crate::quintic::lemma_of_view(Z5 { c0: 0, c1: 1, c2: 0, c3: 0, c4: 0 });
    lemma_one_times(root());
    lemma_konst_view(e);
    lemma_one_times(konst(e));
    assert(at_root(s5) == QuinticExtension::nought());
    assert(at_root(s4) == konst(e));
    assert(at_root(s4) == QuinticExtension::of_ints(e, 0, 0, 0, 0));
    lemma_horner(d, e, 0, 0, 0, 0);
    assert(at_root(s3) == QuinticExtension::of_ints(d, e, 0, 0, 0));
    lemma_horner(c, d, e, 0, 0, 0);
    assert(at_root(s2) == QuinticExtension::of_ints(c, d, e, 0, 0));
    lemma_horner(b, c, d, e, 0, 0);
    assert(at_root(s1) == QuinticExtension::of_ints(b, c, d, e, 0));
    lemma_horner(a, b, c, d, e, 0);
    assert(at_root(s) == QuinticExtension::of_ints(a, b, c, d, e));
    lemma_shape(x);
}

/// One step of the evaluation at `z`.
proof fn lemma_horner(a: int, b: int, c: int, d: int, e: int, f: int)
    requires
        f == 0,
    ensures
        konst(a) + root() * QuinticExtension::of_ints(b, c, d, e, f)
            == QuinticExtension::of_ints(a, b, c, d, e),
{
    reveal(QuinticExtension::spec_add);
    reveal(QuinticExtension::spec_mul);
    let (x, y) = (
        Z5 { c0: 0, c1: 1, c2: 0, c3: 0, c4: 0 },
        Z5 { c0: b, c1: c, c2: d, c3: e, c4: f },
    );
    let k = Z5 { c0: a, c1: 0, c2: 0, c3: 0, c4: 0 };
    let w = Z5 { c0: 0, c1: b, c2: c, c3: d, c4: e };
    crate::quintic::lemma_of_view(x);
    crate::quintic::lemma_of_view(y);
    crate::quintic::lemma_of_view(k);
    crate::quintic::lemma_of_view(w);
    crate::quintic_ring::lemma_reduce_twice(x);
    crate::quintic_ring::lemma_reduce_twice(y);
    crate::quintic_ring::lemma_reduce_twice(k);
    crate::quintic_ring::lemma_reduce_twice(w);
    crate::quintic_ring::lemma_reduce_mul(x.reduce(), x, y.reduce());
    crate::quintic_ring::lemma_reduce_mul(y.reduce(), y, x);
    crate::quintic_ring::lemma_z5_mul_comm(x, y);
    crate::quintic_ring::lemma_z5_mul_comm(x, y.reduce());
    crate::quintic_ring::lemma_z5_expand(x, y);
    assert(x * y == w);
    crate::quintic::lemma_of_equal(x.reduce() * y.reduce(), w);
    crate::quintic_ring::lemma_reduce_add(k.reduce(), k, w.reduce());
    crate::quintic_ring::lemma_reduce_add(w.reduce(), w, k);
    crate::quintic::lemma_of_equal(k.reduce() + w.reduce(), k + w);
}

/// An expression in variables, integers, sums, differences and products.
pub enum Expr {
    Var(int),
    Lit(int),
    Sum(Box<Expr>, Box<Expr>),
    Difference(Box<Expr>, Box<Expr>),
    Product(Box<Expr>, Box<Expr>),
}

/// A variable.
pub open spec fn v(i: int) -> Expr {
    Expr::Var(i)
}

/// An integer.
pub open spec fn lit(k: int) -> Expr {
    Expr::Lit(k)
}

impl Expr {
    pub open spec fn spec_add(self, rhs: Expr) -> Expr {
        Expr::Sum(Box::new(self), Box::new(rhs))
    }

    pub open spec fn spec_sub(self, rhs: Expr) -> Expr {
        Expr::Difference(Box::new(self), Box::new(rhs))
    }

    pub open spec fn spec_mul(self, rhs: Expr) -> Expr {
        Expr::Product(Box::new(self), Box::new(rhs))
    }

    /// Whether all variables are among the first `n`.
    pub open spec fn within(self, n: int) -> bool
        decreases self,
    {
        match self {
            Expr::Var(i) => 0 <= i < n,
            Expr::Lit(_) => true,
            Expr::Sum(a, b) => a.within(n) && b.within(n),
            Expr::Difference(a, b) => a.within(n) && b.within(n),
            Expr::Product(a, b) => a.within(n) && b.within(n),
        }
    }

    /// The value for integers.
    pub open spec fn int_value(self, env: Seq<int>) -> int
        decreases self,
    {
        match self {
            Expr::Var(i) => env[i],
            Expr::Lit(k) => k,
            Expr::Sum(a, b) => a.int_value(env) + b.int_value(env),
            Expr::Difference(a, b) => a.int_value(env) - b.int_value(env),
            Expr::Product(a, b) => a.int_value(env) * b.int_value(env),
        }
    }

    /// The value for elements.
    pub open spec fn value(self, env: Seq<QuinticExtension>) -> QuinticExtension
        decreases self,
    {
        match self {
            Expr::Var(i) => env[i],
            Expr::Lit(k) => konst(k),
            Expr::Sum(a, b) => a.value(env) + b.value(env),
            Expr::Difference(a, b) => a.value(env) - b.value(env),
            Expr::Product(a, b) => a.value(env) * b.value(env),
        }
    }

    /// The polynomial that an expression in elements is.
    spec fn poly(self, env: Seq<QuinticExtension>) -> Seq<int>
        decreases self,
    {
        match self {
            Expr::Var(i) => coefficients(env[i]),
            Expr::Lit(k) => seq![k],
            Expr::Sum(a, b) => poly_sum(a.poly(env), b.poly(env)),
            Expr::Difference(a, b) => poly_sum(a.poly(env), poly_scale(-1, b.poly(env))),
            Expr::Product(a, b) => poly_product(a.poly(env), b.poly(env)),
        }
    }
}

/// The values of the elements' polynomials at an integer.
spec fn env_at(env: Seq<QuinticExtension>, t: int) -> Seq<int> {
    Seq::new(env.len(), |i: int| at_int(coefficients(env[i]), t))
}

/// The polynomial of an expression has the value of the expression, at `z` and at
/// every integer.
proof fn lemma_poly(e: Expr, env: Seq<QuinticExtension>)
    requires
        e.within(env.len() as int),
        forall|i: int| 0 <= i < env.len() ==> (#[trigger] env[i]).canonical(),
    ensures
        at_root(e.poly(env)) == e.value(env),
        forall|t: int| #[trigger] at_int(e.poly(env), t) == e.int_value(env_at(env, t)),
    decreases e,
{
    match e {
        Expr::Var(i) => {
            lemma_coefficients_value(env[i]);
            assert(e.poly(env) == coefficients(env[i]));
            assert(e.value(env) == env[i]);
            assert forall|t: int| #[trigger] at_int(e.poly(env), t) == e.int_value(env_at(env, t)) by {
                assert(env_at(env, t)[i] == at_int(coefficients(env[i]), t));
            }
        },
        Expr::Lit(k) => {
            let s = seq![k];
            assert(s.drop_first() =~= Seq::empty());
            lemma_units_canonical();
            crate::quintic::lemma_of_view(Z5 { c0: 0, c1: 1, c2: 0, c3: 0, c4: 0 });
            lemma_one_times(root());
            lemma_konst_view(k);
            lemma_one_times(konst(k));
            assert(at_root(s.drop_first()) == QuinticExtension::nought());
            assert(at_root(s) == konst(k));
            assert forall|t: int| #[trigger] at_int(s, t) == k by {
                assert(at_int(s.drop_first(), t) == 0);
                assert(t * 0 == 0);
            }
        },
        Expr::Sum(a, b) => {
            lemma_poly(*a, env);
            lemma_poly(*b, env);
            lemma_sum_value(a.poly(env), b.poly(env));
            assert forall|t: int| #[trigger] at_int(e.poly(env), t) == e.int_value(env_at(env, t)) by {
                assert(at_int(a.poly(env), t) == a.int_value(env_at(env, t)));
                assert(at_int(b.poly(env), t) == b.int_value(env_at(env, t)));
            }
        },
        Expr::Difference(a, b) => {
            lemma_poly(*a, env);
            lemma_poly(*b, env);
            let (x, y) = (a.poly(env), b.poly(env));
            let n = poly_scale(-1, y);
            lemma_scale_value(-1, y);
            lemma_sum_value(x, n);
            assert forall|t: int| #[trigger] at_int(e.poly(env), t) == e.int_value(env_at(env, t)) by {
                assert(at_int(x, t) == a.int_value(env_at(env, t)));
                assert(at_int(y, t) == b.int_value(env_at(env, t)));
                assert(at_int(n, t) == -1 * at_int(y, t));
            }
            // x + (-1) y == x - y
            lemma_sum_value(poly_sum(x, n), y);
            lemma_agree_sum(x, n, y);
            lemma_canonical_value(x);
            lemma_canonical_value(y);
            lemma_canonical_value(poly_sum(x, n));
            lemma_sub_add(at_root(poly_sum(x, n)), at_root(y));
        },
        Expr::Product(a, b) => {
            lemma_poly(*a, env);
            lemma_poly(*b, env);
            lemma_product_value(a.poly(env), b.poly(env));
            assert forall|t: int| #[trigger] at_int(e.poly(env), t) == e.int_value(env_at(env, t)) by {
                assert(at_int(a.poly(env), t) == a.int_value(env_at(env, t)));
                assert(at_int(b.poly(env), t) == b.int_value(env_at(env, t)));
            }
        },
    }
}

/// `(x - y) + y == x` for polynomials.
proof fn lemma_agree_sum(x: Seq<int>, n: Seq<int>, y: Seq<int>)
    requires
        n == poly_scale(-1, y),
    ensures
        at_root(poly_sum(poly_sum(x, n), y)) == at_root(x),
{
    lemma_scale_value(-1, y);
    lemma_sum_value(x, n);
    lemma_sum_value(poly_sum(x, n), y);
    assert forall|t: int| #[trigger] at_int(poly_sum(poly_sum(x, n), y), t) == at_int(x, t) by {
        assert(at_int(poly_sum(x, n), t) == at_int(x, t) + at_int(n, t));
        assert(at_int(n, t) == -1 * at_int(y, t));
    }
    lemma_agree(poly_sum(poly_sum(x, n), y), x);
}

/// Expressions that agree for all integers agree for all elements.
pub proof fn lemma_identity(a: Expr, b: Expr, env: Seq<QuinticExtension>)
    requires
        a.within(env.len() as int),
        b.within(env.len() as int),
        forall|i: int| 0 <= i < env.len() ==> (#[trigger] env[i]).canonical(),
        forall|e: Seq<int>| e.len() == env.len() ==> #[trigger] a.int_value(e) == b.int_value(e),
    ensures
        a.value(env) == b.value(env),
{
    lemma_poly(a, env);
    lemma_poly(b, env);
    assert forall|t: int| #[trigger] at_int(a.poly(env), t) == at_int(b.poly(env), t) by {
        assert(at_int(a.poly(env), t) == a.int_value(env_at(env, t)));
        assert(at_int(b.poly(env), t) == b.int_value(env_at(env, t)));
    }
    lemma_agree(a.poly(env), b.poly(env));
}

} // verus!
