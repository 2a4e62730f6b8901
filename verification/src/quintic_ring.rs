//! The ring of integer polynomials modulo `z^5 - 3`, and its reduction modulo
//! the Goldilocks prime.
use vstd::arithmetic::div_mod::lemma_mod_twice;
use vstd::arithmetic::mul::{
    lemma_mul_is_associative, lemma_mul_is_commutative, lemma_mul_is_distributive_add,
    lemma_mul_is_distributive_add_other_way,
};
use vstd::prelude::*;

use crate::arith::{lemma_cong_add, lemma_cong_mul};
use crate::primes::goldilocks;

verus! {

/// The polynomial `c0 + c1 z + c2 z^2 + c3 z^3 + c4 z^4`.
pub struct Z5 {
    pub c0: int,
    pub c1: int,
    pub c2: int,
    pub c3: int,
    pub c4: int,
}

/// The sum of the products of the coefficients.
pub open spec fn dot(a: Z5, r: Z5) -> int {
    a.c0 * r.c0 + a.c1 * r.c1 + a.c2 * r.c2 + a.c3 * r.c3 + a.c4 * r.c4
}

impl Z5 {
    pub open spec fn spec_add(self, b: Z5) -> Z5 {
        Z5 {
            c0: self.c0 + b.c0,
            c1: self.c1 + b.c1,
            c2: self.c2 + b.c2,
            c3: self.c3 + b.c3,
            c4: self.c4 + b.c4,
        }
    }

    pub open spec fn spec_sub(self, b: Z5) -> Z5 {
        Z5 {
            c0: self.c0 - b.c0,
            c1: self.c1 - b.c1,
            c2: self.c2 - b.c2,
            c3: self.c3 - b.c3,
            c4: self.c4 - b.c4,
        }
    }

    /// Every coefficient times `k`.
    pub open spec fn scale(self, k: int) -> Z5 {
        Z5 { c0: k * self.c0, c1: k * self.c1, c2: k * self.c2, c3: k * self.c3, c4: k * self.c4 }
    }

    /// The product with `z`, where `z^5 == 3`.
    pub open spec fn shift(self) -> Z5 {
        Z5 { c0: 3 * self.c4, c1: self.c0, c2: self.c1, c3: self.c2, c4: self.c3 }
    }

    /// The coefficients from which the product takes its coefficient of `z^i`.
    pub open spec fn row(self, i: int) -> Z5 {
        if i == 0 {
            Z5 { c0: self.c0, c1: 3 * self.c4, c2: 3 * self.c3, c3: 3 * self.c2, c4: 3 * self.c1 }
        } else if i == 1 {
            Z5 { c0: self.c1, c1: self.c0, c2: 3 * self.c4, c3: 3 * self.c3, c4: 3 * self.c2 }
        } else if i == 2 {
            Z5 { c0: self.c2, c1: self.c1, c2: self.c0, c3: 3 * self.c4, c4: 3 * self.c3 }
        } else if i == 3 {
            Z5 { c0: self.c3, c1: self.c2, c2: self.c1, c3: self.c0, c4: 3 * self.c4 }
        } else {
            Z5 { c0: self.c4, c1: self.c3, c2: self.c2, c3: self.c1, c4: self.c0 }
        }
    }

    pub open spec fn spec_mul(self, b: Z5) -> Z5 {
        Z5 {
            c0: dot(self, b.row(0)),
            c1: dot(self, b.row(1)),
            c2: dot(self, b.row(2)),
            c3: dot(self, b.row(3)),
            c4: dot(self, b.row(4)),
        }
    }

    /// The coefficients modulo the Goldilocks prime.
    pub open spec fn reduce(self) -> Z5 {
        Z5 {
            c0: self.c0 % goldilocks(),
            c1: self.c1 % goldilocks(),
            c2: self.c2 % goldilocks(),
            c3: self.c3 % goldilocks(),
            c4: self.c4 % goldilocks(),
        }
    }
}

pub(crate) proof fn lemma_dot_add(a: Z5, b: Z5, r: Z5)
    ensures
        dot(a + b, r) == dot(a, r) + dot(b, r),
{
    lemma_mul_is_distributive_add_other_way(r.c0, a.c0, b.c0);
    lemma_mul_is_distributive_add_other_way(r.c1, a.c1, b.c1);
    lemma_mul_is_distributive_add_other_way(r.c2, a.c2, b.c2);
    lemma_mul_is_distributive_add_other_way(r.c3, a.c3, b.c3);
    lemma_mul_is_distributive_add_other_way(r.c4, a.c4, b.c4);
}

pub(crate) proof fn lemma_dot_scale(k: int, a: Z5, r: Z5)
    ensures
        dot(a.scale(k), r) == k * dot(a, r),
{
    lemma_mul_is_associative(k, a.c0, r.c0);
    lemma_mul_is_associative(k, a.c1, r.c1);
    lemma_mul_is_associative(k, a.c2, r.c2);
    lemma_mul_is_associative(k, a.c3, r.c3);
    lemma_mul_is_associative(k, a.c4, r.c4);
    let (x0, x1, x2, x3, x4) = (
        a.c0 * r.c0,
        a.c1 * r.c1,
        a.c2 * r.c2,
        a.c3 * r.c3,
        a.c4 * r.c4,
    );
    lemma_mul_is_distributive_add(k, x0, x1);
    lemma_mul_is_distributive_add(k, x0 + x1, x2);
    lemma_mul_is_distributive_add(k, x0 + x1 + x2, x3);
    lemma_mul_is_distributive_add(k, x0 + x1 + x2 + x3, x4);
}

pub(crate) proof fn lemma_z5_mul_add(a: Z5, b: Z5, c: Z5)
    ensures
        (a + b) * c == a * c + b * c,
{
    lemma_dot_add(a, b, c.row(0));
    lemma_dot_add(a, b, c.row(1));
    lemma_dot_add(a, b, c.row(2));
    lemma_dot_add(a, b, c.row(3));
    lemma_dot_add(a, b, c.row(4));
}

pub(crate) proof fn lemma_z5_mul_scale(k: int, a: Z5, c: Z5)
    ensures
        a.scale(k) * c == (a * c).scale(k),
{
    lemma_dot_scale(k, a, c.row(0));
    lemma_dot_scale(k, a, c.row(1));
    lemma_dot_scale(k, a, c.row(2));
    lemma_dot_scale(k, a, c.row(3));
    lemma_dot_scale(k, a, c.row(4));
}

proof fn lemma_times_three(x: int, y: int)
    ensures
        x * (3 * y) == 3 * (x * y),
        (3 * x) * y == 3 * (x * y),
{
    lemma_mul_is_associative(3, x, y);
    lemma_mul_is_commutative(x, y);
    lemma_mul_is_commutative(x, 3 * y);
    lemma_mul_is_associative(3, y, x);
}

pub(crate) proof fn lemma_z5_mul_shift(b: Z5, c: Z5)
    ensures
        b.shift() * c == (b * c).shift(),
{
    lemma_times_three(b.c4, c.c0);
    lemma_times_three(b.c4, c.c1);
    lemma_times_three(b.c4, c.c2);
    lemma_times_three(b.c4, c.c3);
    lemma_times_three(b.c4, c.c4);
    lemma_times_three(b.c0, c.c1);
    lemma_times_three(b.c0, c.c2);
    lemma_times_three(b.c0, c.c3);
    lemma_times_three(b.c0, c.c4);
    lemma_times_three(b.c1, c.c2);
    lemma_times_three(b.c1, c.c3);
    lemma_times_three(b.c1, c.c4);
    lemma_times_three(b.c2, c.c3);
    lemma_times_three(b.c2, c.c4);
    lemma_times_three(b.c3, c.c4);
    lemma_times_three(b.c2, c.c2);
    lemma_times_three(b.c3, c.c1);
    lemma_times_three(b.c3, c.c2);
    lemma_times_three(b.c3, c.c3);
}

/// The product, one coefficient of `a` at a time.
pub(crate) proof fn lemma_z5_expand(a: Z5, b: Z5)
    ensures
        a * b == b.scale(a.c0) + b.shift().scale(a.c1) + b.shift().shift().scale(a.c2)
            + b.shift().shift().shift().scale(a.c3) + b.shift().shift().shift().shift().scale(a.c4),
{
}

pub(crate) proof fn lemma_z5_mul_comm(a: Z5, b: Z5)
    ensures
        a * b == b * a,
{
    lemma_mul_is_commutative(a.c0, b.c0);
    lemma_mul_is_commutative(a.c0, b.c1);
    lemma_mul_is_commutative(a.c0, b.c2);
    lemma_mul_is_commutative(a.c0, b.c3);
    lemma_mul_is_commutative(a.c0, b.c4);
    lemma_mul_is_commutative(a.c1, b.c0);
    lemma_mul_is_commutative(a.c1, b.c1);
    lemma_mul_is_commutative(a.c1, b.c2);
    lemma_mul_is_commutative(a.c1, b.c3);
    lemma_mul_is_commutative(a.c2, b.c0);
    lemma_mul_is_commutative(a.c2, b.c1);
    lemma_mul_is_commutative(a.c2, b.c2);
    lemma_mul_is_commutative(a.c3, b.c0);
    lemma_mul_is_commutative(a.c3, b.c1);
    lemma_mul_is_commutative(a.c4, b.c0);
    lemma_times_three(a.c1, b.c4);
    lemma_times_three(a.c2, b.c3);
    lemma_times_three(a.c3, b.c2);
    lemma_times_three(a.c4, b.c1);
    lemma_times_three(b.c1, a.c4);
    lemma_times_three(b.c2, a.c3);
    lemma_times_three(b.c3, a.c2);
    lemma_times_three(b.c4, a.c1);
    lemma_times_three(a.c2, b.c4);
    lemma_times_three(a.c3, b.c3);
    lemma_times_three(a.c4, b.c2);
    lemma_times_three(b.c2, a.c4);
    lemma_times_three(b.c3, a.c3);
    lemma_times_three(b.c4, a.c2);
    lemma_times_three(a.c3, b.c4);
    lemma_times_three(a.c4, b.c3);
    lemma_times_three(b.c3, a.c4);
    lemma_times_three(b.c4, a.c3);
    lemma_times_three(a.c4, b.c4);
    lemma_times_three(b.c4, a.c4);
    lemma_mul_is_commutative(a.c1, b.c4);
    lemma_mul_is_commutative(a.c2, b.c3);
    lemma_mul_is_commutative(a.c3, b.c2);
    lemma_mul_is_commutative(a.c4, b.c1);
    lemma_mul_is_commutative(a.c2, b.c4);
    lemma_mul_is_commutative(a.c3, b.c3);
    lemma_mul_is_commutative(a.c4, b.c2);
    lemma_mul_is_commutative(a.c3, b.c4);
    lemma_mul_is_commutative(a.c4, b.c3);
    lemma_mul_is_commutative(a.c4, b.c4);
}

pub(crate) proof fn lemma_z5_mul_assoc(a: Z5, b: Z5, c: Z5)
    ensures
        (a * b) * c == a * (b * c),
{
    let (b1, b2, b3, b4) = (
        b.shift(),
        b.shift().shift(),
        b.shift().shift().shift(),
        b.shift().shift().shift().shift(),
    );
    let (t0, t1, t2, t3, t4) = (
        b.scale(a.c0),
        b1.scale(a.c1),
        b2.scale(a.c2),
        b3.scale(a.c3),
        b4.scale(a.c4),
    );
    lemma_z5_expand(a, b);
    lemma_z5_mul_add(t0, t1, c);
    lemma_z5_mul_add(t0 + t1, t2, c);
    lemma_z5_mul_add(t0 + t1 + t2, t3, c);
    lemma_z5_mul_add(t0 + t1 + t2 + t3, t4, c);
    lemma_z5_mul_scale(a.c0, b, c);
    lemma_z5_mul_scale(a.c1, b1, c);
    lemma_z5_mul_scale(a.c2, b2, c);
    lemma_z5_mul_scale(a.c3, b3, c);
    lemma_z5_mul_scale(a.c4, b4, c);
    lemma_z5_mul_shift(b, c);
    lemma_z5_mul_shift(b1, c);
    lemma_z5_mul_shift(b2, c);
    lemma_z5_mul_shift(b3, c);
    lemma_z5_expand(a, b * c);
}

pub(crate) proof fn lemma_dot_comm(a: Z5, r: Z5)
    ensures
        dot(a, r) == dot(r, a),
{
    lemma_mul_is_commutative(a.c0, r.c0);
    lemma_mul_is_commutative(a.c1, r.c1);
    lemma_mul_is_commutative(a.c2, r.c2);
    lemma_mul_is_commutative(a.c3, r.c3);
    lemma_mul_is_commutative(a.c4, r.c4);
}

pub(crate) proof fn lemma_z5_units(a: Z5)
    ensures
        a * (Z5 { c0: 1, c1: 0, c2: 0, c3: 0, c4: 0 }) == a,
        a * (Z5 { c0: 0, c1: 0, c2: 0, c3: 0, c4: 0 }) == (Z5 { c0: 0, c1: 0, c2: 0, c3: 0, c4: 0 }),
{
    let u = Z5 { c0: 1, c1: 0, c2: 0, c3: 0, c4: 0 };
    let o = Z5 { c0: 0, c1: 0, c2: 0, c3: 0, c4: 0 };
    lemma_z5_mul_comm(a, u);
    lemma_z5_mul_comm(a, o);
    lemma_z5_expand(u, a);
    lemma_z5_expand(o, a);
}

/// Reducing a factor first does not change the reduced product.
pub(crate) proof fn lemma_dot_reduce(a: Z5, b: Z5, r: Z5)
    requires
        a.reduce() == b.reduce(),
    ensures
        dot(a, r) % goldilocks() == dot(b, r) % goldilocks(),
{
    let p = goldilocks();
    assert(a.reduce().c0 == b.reduce().c0);
    lemma_cong_mul(a.c0, b.c0, r.c0, p);
    lemma_cong_mul(a.c1, b.c1, r.c1, p);
    lemma_cong_mul(a.c2, b.c2, r.c2, p);
    lemma_cong_mul(a.c3, b.c3, r.c3, p);
    lemma_cong_mul(a.c4, b.c4, r.c4, p);
    lemma_cong_add(a.c0 * r.c0, b.c0 * r.c0, a.c1 * r.c1, b.c1 * r.c1, p);
    lemma_cong_add(
        a.c0 * r.c0 + a.c1 * r.c1,
        b.c0 * r.c0 + b.c1 * r.c1,
        a.c2 * r.c2,
        b.c2 * r.c2,
        p,
    );
    lemma_cong_add(
        a.c0 * r.c0 + a.c1 * r.c1 + a.c2 * r.c2,
        b.c0 * r.c0 + b.c1 * r.c1 + b.c2 * r.c2,
        a.c3 * r.c3,
        b.c3 * r.c3,
        p,
    );
    lemma_cong_add(
        a.c0 * r.c0 + a.c1 * r.c1 + a.c2 * r.c2 + a.c3 * r.c3,
        b.c0 * r.c0 + b.c1 * r.c1 + b.c2 * r.c2 + b.c3 * r.c3,
        a.c4 * r.c4,
        b.c4 * r.c4,
        p,
    );
}

pub(crate) proof fn lemma_reduce_mul(a: Z5, b: Z5, c: Z5)
    requires
        a.reduce() == b.reduce(),
    ensures
        (a * c).reduce() == (b * c).reduce(),
        (c * a).reduce() == (c * b).reduce(),
{
    lemma_dot_reduce(a, b, c.row(0));
    lemma_dot_reduce(a, b, c.row(1));
    lemma_dot_reduce(a, b, c.row(2));
    lemma_dot_reduce(a, b, c.row(3));
    lemma_dot_reduce(a, b, c.row(4));
    lemma_z5_mul_comm(a, c);
    lemma_z5_mul_comm(b, c);
}

pub(crate) proof fn lemma_reduce_add(a: Z5, b: Z5, c: Z5)
    requires
        a.reduce() == b.reduce(),
    ensures
        (a + c).reduce() == (b + c).reduce(),
        (c + a).reduce() == (c + b).reduce(),
        (a - c).reduce() == (b - c).reduce(),
        (c - a).reduce() == (c - b).reduce(),
{
    let p = goldilocks();
    assert(a.reduce().c0 == b.reduce().c0);
    lemma_cong_add(a.c0, b.c0, c.c0, c.c0, p);
    lemma_cong_add(a.c1, b.c1, c.c1, c.c1, p);
    lemma_cong_add(a.c2, b.c2, c.c2, c.c2, p);
    lemma_cong_add(a.c3, b.c3, c.c3, c.c3, p);
    lemma_cong_add(a.c4, b.c4, c.c4, c.c4, p);
    lemma_cong_add(c.c0, c.c0, a.c0, b.c0, p);
    lemma_cong_add(c.c1, c.c1, a.c1, b.c1, p);
    lemma_cong_add(c.c2, c.c2, a.c2, b.c2, p);
    lemma_cong_add(c.c3, c.c3, a.c3, b.c3, p);
    lemma_cong_add(c.c4, c.c4, a.c4, b.c4, p);
}

pub(crate) proof fn lemma_reduce_twice(a: Z5)
    ensures
        a.reduce().reduce() == a.reduce(),
{
    let p = goldilocks();
    lemma_mod_twice(a.c0, p);
    lemma_mod_twice(a.c1, p);
    lemma_mod_twice(a.c2, p);
    lemma_mod_twice(a.c3, p);
    lemma_mod_twice(a.c4, p);
}

} // verus!
