//! Multiples of the points of the curve and of the group.
use vstd::prelude::*;

use crate::associativity::lemma_curve_assoc;
use crate::curve_group::{belongs, curve_sum, lemma_curve_sum_belongs};
use crate::ecgfp5::{can_multiply, infinity, multiple, point_add, point_double, PointEw};
use crate::group_law::{lemma_group_sum, lemma_sum_assoc, lemma_sum_proper};
use crate::proper::proper;

verus! {

/// `k` times a point: the sum of `k` copies.
pub open spec fn times(p: PointEw, k: nat) -> PointEw
    decreases k,
{
    if k == 0 {
        infinity()
    } else {
        point_add(times(p, (k - 1) as nat), p)
    }
}

/// Multiples of a point of the group belong to the group.
pub proof fn lemma_times_proper(p: PointEw, k: nat)
    requires
        proper(p),
    ensures
        proper(times(p, k)),
    decreases k,
{
    if k > 0 {
        lemma_times_proper(p, (k - 1) as nat);
        lemma_sum_proper(times(p, (k - 1) as nat), p);
    }
}

/// Multiples add as their factors.
pub proof fn lemma_times_add(p: PointEw, a: nat, b: nat)
    requires
        proper(p),
    ensures
        point_add(times(p, a), times(p, b)) == times(p, a + b),
    decreases b,
{
    lemma_times_proper(p, a);
    if b == 0 {
    } else {
        let c = (b - 1) as nat;
        lemma_times_proper(p, c);
        lemma_times_add(p, a, c);
        lemma_sum_assoc(times(p, a), times(p, c), p);
    }
}

/// Multiples of multiples are multiples by the product.
pub proof fn lemma_times_times(p: PointEw, a: nat, b: nat)
    requires
        proper(p),
    ensures
        times(times(p, a), b) == times(p, a * b),
    decreases b,
{
    if b == 0 {
        assert(a * 0 == 0);
    } else {
        let c = (b - 1) as nat;
        lemma_times_times(p, a, c);
        lemma_times_add(p, a * c, a);
        assert(a * b == a * c + a) by (nonlinear_arith)
            requires
                b == c + 1,
        ;
    }
}

/// Doubling and adding gives the multiple, where no step doubles the point at
/// infinity.
pub proof fn lemma_multiple_is_times(p: PointEw, k: nat)
    requires
        proper(p),
        can_multiply(p, k),
    ensures
        multiple(p, k) == times(p, k),
        proper(multiple(p, k)),
    decreases k,
{
    lemma_times_proper(p, k);
    if p.at_inf {
        lemma_times_infinity(k);
    } else if k == 1 {
        assert(times(p, 0) == infinity());
    } else if k > 1 {
        let h = k / 2;
        lemma_multiple_is_times(p, h);
        let half = multiple(p, h);
        assert(!half.at_inf);
        assert(point_add(half, half) == point_double(half));
        lemma_times_add(p, h, h);
        if k % 2 == 0 {
            assert(h + h == k);
        } else {
            assert(times(p, 1) == p) by {
                assert(times(p, 0) == infinity());
            }
            lemma_times_add(p, h + h, 1);
            assert(h + h + 1 == k);
        }
    }
}

proof fn lemma_times_infinity(k: nat)
    ensures
        times(infinity(), k) == infinity(),
    decreases k,
{
    if k > 0 {
        lemma_times_infinity((k - 1) as nat);
    }
}

/// Where a multiple is at infinity, so are its multiples.
pub proof fn lemma_times_of_order(p: PointEw, n: nat, c: nat)
    requires
        proper(p),
        times(p, n) == infinity(),
    ensures
        times(p, n * c) == infinity(),
{
    lemma_times_times(p, n, c);
    lemma_times_infinity(c);
}

/// `k` times a point of the curve: the sum of `k` copies.
pub open spec fn curve_times(p: PointEw, k: nat) -> PointEw
    decreases k,
{
    if k == 0 {
        infinity()
    } else {
        curve_sum(curve_times(p, (k - 1) as nat), p)
    }
}

/// Multiples of a point of the curve belong to the curve.
pub proof fn lemma_curve_times_belongs(p: PointEw, k: nat)
    requires
        belongs(p),
    ensures
        belongs(curve_times(p, k)),
    decreases k,
{
    if k > 0 {
        lemma_curve_times_belongs(p, (k - 1) as nat);
        lemma_curve_sum_belongs(curve_times(p, (k - 1) as nat), p);
    }
}

/// Multiples on the curve add as their factors.
pub proof fn lemma_curve_times_add(p: PointEw, a: nat, b: nat)
    requires
        belongs(p),
    ensures
        curve_sum(curve_times(p, a), curve_times(p, b)) == curve_times(p, a + b),
    decreases b,
{
    lemma_curve_times_belongs(p, a);
    if b == 0 {
    } else {
        let c = (b - 1) as nat;
        lemma_curve_times_belongs(p, c);
        lemma_curve_times_add(p, a, c);
        lemma_curve_assoc(curve_times(p, a), curve_times(p, c), p);
    }
}

/// On the group, both multiples are the same.
pub proof fn lemma_group_times(p: PointEw, k: nat)
    requires
        proper(p),
    ensures
        curve_times(p, k) == times(p, k),
    decreases k,
{
    if k > 0 {
        let c = (k - 1) as nat;
        lemma_group_times(p, c);
        lemma_times_proper(p, c);
        lemma_group_sum(times(p, c), p);
    }
}

} // verus!
