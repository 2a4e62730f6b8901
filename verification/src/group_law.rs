//! The points of the group form a commutative group: on them no tangent is vertical.
use vstd::prelude::*;

use crate::associativity::lemma_curve_assoc;
use crate::chords::opposite;
use crate::curve_group::{
    belongs, curve_sum, lemma_curve_sum_cancel, lemma_curve_sum_comm, lemma_curve_sum_is,
    lemma_curve_sum_is_line, lemma_find_line, lemma_opposite_belongs,
};
use crate::ecgfp5::{infinity, point_add, PointEw};
use crate::proper::{lemma_line_sum_proper, lemma_proper_regular, proper};
use crate::quintic::QuinticExtension;

verus! {

/// On the group, the sum needs no vertical tangent.
pub proof fn lemma_group_sum(p: PointEw, q: PointEw)
    requires
        proper(p),
        proper(q),
    ensures
        belongs(p),
        belongs(q),
        crate::ecgfp5::can_add(p, q),
        curve_sum(p, q) == point_add(p, q),
{
    if !p.at_inf {
        lemma_proper_regular(p);
    }
    lemma_curve_sum_is(p, q);
}

/// The opposite of a point of the group belongs to the group.
pub proof fn lemma_opposite_proper(p: PointEw)
    requires
        proper(p),
    ensures
        proper(opposite(p)),
        opposite(opposite(p)) == p,
        point_add(p, opposite(p)) == infinity(),
{
    lemma_opposite_belongs(p);
    if !p.at_inf {
        let u = choose|u: QuinticExtension| #[trigger] crate::proper::roots(u, p);
        assert(crate::proper::roots(u, opposite(p)));
    }
    lemma_group_sum(p, opposite(p));
}

/// The sum of two points of the group belongs to the group.
pub proof fn lemma_sum_proper(p: PointEw, q: PointEw)
    requires
        proper(p),
        proper(q),
    ensures
        proper(point_add(p, q)),
        crate::ecgfp5::can_add(p, q),
{
    lemma_group_sum(p, q);
    if !p.at_inf && !q.at_inf {
        if q == opposite(p) {
            lemma_opposite_proper(p);
        } else {
            let l = lemma_find_line(p, q);
            lemma_curve_sum_is_line(p, q, l);
            lemma_line_sum_proper(p, q, l);
        }
    }
}

/// Addition is commutative.
pub proof fn lemma_sum_comm(p: PointEw, q: PointEw)
    requires
        proper(p),
        proper(q),
    ensures
        point_add(p, q) == point_add(q, p),
{
    lemma_group_sum(p, q);
    lemma_group_sum(q, p);
    lemma_curve_sum_comm(p, q);
}

/// What is added can be taken away again.
pub proof fn lemma_sum_cancel(p: PointEw, q: PointEw)
    requires
        proper(p),
        proper(q),
    ensures
        point_add(point_add(p, q), opposite(q)) == p,
{
    lemma_group_sum(p, q);
    lemma_sum_proper(p, q);
    lemma_opposite_proper(q);
    lemma_group_sum(point_add(p, q), opposite(q));
    lemma_curve_sum_cancel(p, q);
}

/// Addition is associative.
pub proof fn lemma_sum_assoc(p1: PointEw, p2: PointEw, p3: PointEw)
    requires
        proper(p1),
        proper(p2),
        proper(p3),
    ensures
        point_add(point_add(p1, p2), p3) == point_add(p1, point_add(p2, p3)),
{
    lemma_sum_proper(p1, p2);
    lemma_sum_proper(p2, p3);
    lemma_group_sum(p1, p2);
    lemma_group_sum(p2, p3);
    lemma_group_sum(point_add(p1, p2), p3);
    lemma_group_sum(p1, point_add(p2, p3));
    lemma_curve_assoc(p1, p2, p3);
}

} // verus!
