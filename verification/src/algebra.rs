//! Rules of calculation in the quintic extension.
use vstd::prelude::*;

use crate::conjugate::konst;
use crate::quintic::{
    lemma_distribute, lemma_mul_comm, lemma_of_equal, lemma_of_view, QuinticExtension,
};
use crate::quintic_field::{lemma_konst_scale, lemma_shape};
use crate::quintic_power::lemma_mul_canonical;
use crate::quintic_ring::{lemma_reduce_add, lemma_reduce_twice, Z5};

verus! {

/// Whether an element is the class of the polynomial `z`. Sums and differences
/// of elements are compared by comparing the polynomials.
#[verifier::opaque]
pub open spec fn is_class(x: QuinticExtension, z: Z5) -> bool {
    x == QuinticExtension::of(z)
}

pub(crate) proof fn lemma_class_self(x: QuinticExtension)
    requires
        x.canonical(),
    ensures
        is_class(x, x@),
{
    reveal(is_class);
    lemma_shape(x);
}

pub(crate) proof fn lemma_class_add(x: QuinticExtension, zx: Z5, y: QuinticExtension, zy: Z5)
    requires
        is_class(x, zx),
        is_class(y, zy),
    ensures
        is_class(x + y, zx + zy),
{
    reveal(is_class);
    reveal(QuinticExtension::spec_add);
    lemma_of_view(zx);
    lemma_of_view(zy);
    lemma_reduce_twice(zx);
    lemma_reduce_twice(zy);
    lemma_reduce_add(zx.reduce(), zx, zy.reduce());
    lemma_reduce_add(zy.reduce(), zy, zx);
    lemma_of_equal(x@ + y@, zx + zy);
}

pub(crate) proof fn lemma_class_sub(x: QuinticExtension, zx: Z5, y: QuinticExtension, zy: Z5)
    requires
        is_class(x, zx),
        is_class(y, zy),
    ensures
        is_class(x - y, zx - zy),
{
    reveal(is_class);
    reveal(QuinticExtension::spec_sub);
    lemma_of_view(zx);
    lemma_of_view(zy);
    lemma_reduce_twice(zx);
    lemma_reduce_twice(zy);
    lemma_reduce_add(zx.reduce(), zx, zy.reduce());
    lemma_reduce_add(zy.reduce(), zy, zx);
    lemma_of_equal(x@ - y@, zx - zy);
}

/// Elements of the same class are equal.
pub(crate) proof fn lemma_class_equal(x: QuinticExtension, zx: Z5, y: QuinticExtension, zy: Z5)
    requires
        is_class(x, zx),
        is_class(y, zy),
        zx == zy,
    ensures
        x == y,
{
    reveal(is_class);
}

/// A difference plus what was subtracted, and a sum minus what was added.
pub proof fn lemma_sub_add(a: QuinticExtension, b: QuinticExtension)
    requires
        a.canonical(),
        b.canonical(),
    ensures
        (a - b) + b == a,
        b + (a - b) == a,
        (a + b) - b == a,
        (a + b) - a == b,
        a - (a - b) == b,
{
    lemma_class_self(a);
    lemma_class_self(b);
    lemma_class_sub(a, a@, b, b@);
    lemma_class_add(a - b, a@ - b@, b, b@);
    lemma_class_add(b, b@, a - b, a@ - b@);
    lemma_class_add(a, a@, b, b@);
    lemma_class_sub(a + b, a@ + b@, b, b@);
    lemma_class_sub(a + b, a@ + b@, a, a@);
    lemma_class_sub(a, a@, a - b, a@ - b@);
    lemma_class_equal((a - b) + b, a@ - b@ + b@, a, a@);
    lemma_class_equal(b + (a - b), b@ + (a@ - b@), a, a@);
    lemma_class_equal((a + b) - b, a@ + b@ - b@, a, a@);
    lemma_class_equal((a + b) - a, a@ + b@ - a@, b, b@);
    lemma_class_equal(a - (a - b), a@ - (a@ - b@), b, b@);
}

/// Multiplication distributes over differences.
pub proof fn lemma_mul_sub(a: QuinticExtension, b: QuinticExtension, c: QuinticExtension)
    requires
        a.canonical(),
        b.canonical(),
    ensures
        (a - b) * c == a * c - b * c,
        c * (a - b) == c * a - c * b,
{
    let d = a - b;
    lemma_sub_add(a, b);
    lemma_distribute(d, b, c);
    lemma_mul_canonical(d, c);
    lemma_mul_canonical(b, c);
    lemma_sub_add(d * c, b * c);
    lemma_mul_comm(c, a - b);
    lemma_mul_comm(c, a);
    lemma_mul_comm(c, b);
}

/// `(a + b) * (c + d)`.
pub proof fn lemma_product_of_sums(
    a: QuinticExtension,
    b: QuinticExtension,
    c: QuinticExtension,
    d: QuinticExtension,
)
    ensures
        (a + b) * (c + d) == (a * c + a * d) + (b * c + b * d),
{
    lemma_distribute(a, b, c + d);
    lemma_distribute(c, d, a);
    lemma_distribute(c, d, b);
}

/// `(a - b) * (a + b) == a^2 - b^2`.
pub proof fn lemma_difference_of_squares(a: QuinticExtension, b: QuinticExtension)
    requires
        a.canonical(),
        b.canonical(),
    ensures
        (a - b) * (a + b) == a * a - b * b,
        (a + b) * (a - b) == a * a - b * b,
{
    lemma_mul_sub(a, b, a + b);
    lemma_distribute(a, b, a);
    lemma_distribute(a, b, b);
    lemma_mul_comm(a, b);
    lemma_mul_comm(a - b, a + b);
    let (x, y, z) = (a * a, a * b, b * b);
    lemma_mul_canonical(a, a);
    lemma_mul_canonical(a, b);
    lemma_mul_canonical(b, b);
    lemma_class_self(x);
    lemma_class_self(y);
    lemma_class_self(z);
    lemma_class_add(x, x@, y, y@);
    lemma_class_add(y, y@, z, z@);
    lemma_class_sub(x + y, x@ + y@, y + z, y@ + z@);
    lemma_class_sub(x, x@, z, z@);
    lemma_class_equal((x + y) - (y + z), x@ + y@ - (y@ + z@), x - z, x@ - z@);
}

/// `(a - b)^2 == (b - a)^2`.
pub proof fn lemma_square_of_difference(a: QuinticExtension, b: QuinticExtension)
    requires
        a.canonical(),
        b.canonical(),
    ensures
        (a - b) * (a - b) == (b - a) * (b - a),
{
    let (d, e) = (a - b, b - a);
    lemma_mul_sub(a, b, d);
    lemma_mul_sub(b, a, e);
    lemma_mul_sub(a, b, a);
    lemma_mul_sub(a, b, b);
    lemma_mul_sub(b, a, a);
    lemma_mul_sub(b, a, b);
    lemma_mul_comm(a, b);
    let (x, y, z) = (a * a, a * b, b * b);
    lemma_mul_canonical(a, a);
    lemma_mul_canonical(a, b);
    lemma_mul_canonical(b, b);
    lemma_class_self(x);
    lemma_class_self(y);
    lemma_class_self(z);
    lemma_class_sub(x, x@, y, y@);
    lemma_class_sub(y, y@, z, z@);
    lemma_class_sub(z, z@, y, y@);
    lemma_class_sub(y, y@, x, x@);
    lemma_class_sub(x - y, x@ - y@, y - z, y@ - z@);
    lemma_class_sub(z - y, z@ - y@, y - x, y@ - x@);
    lemma_class_equal(
        (x - y) - (y - z),
        x@ - y@ - (y@ - z@),
        (z - y) - (y - x),
        z@ - y@ - (y@ - x@),
    );
}

/// Multiplying by a small integer is repeated addition.
pub(crate) proof fn lemma_class_scale(k: int, x: QuinticExtension, zx: Z5)
    requires
        is_class(x, zx),
    ensures
        is_class(konst(k) * x, zx.scale(k)),
        is_class(x * konst(k), zx.scale(k)),
{
    reveal(is_class);
    lemma_konst_scale(k, x);
    lemma_mul_comm(konst(k), x);
    lemma_of_view(zx);
    let p = crate::primes::goldilocks();
    crate::arith::lemma_cong_mul(zx.c0 % p, zx.c0, k, p);
    crate::arith::lemma_cong_mul(zx.c1 % p, zx.c1, k, p);
    crate::arith::lemma_cong_mul(zx.c2 % p, zx.c2, k, p);
    crate::arith::lemma_cong_mul(zx.c3 % p, zx.c3, k, p);
    crate::arith::lemma_cong_mul(zx.c4 % p, zx.c4, k, p);
    lemma_reduce_twice(zx);
    assert(zx.reduce().reduce().c0 == zx.reduce().c0);
    lemma_of_equal(x@.scale(k), zx.scale(k));
}

} // verus!
