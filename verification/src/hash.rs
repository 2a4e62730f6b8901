//! Digests, and the sponge function that makes them.
//!
//! The library is generic over the sponge: a function from field elements and an
//! output length to that many field elements. Everything it states of digests
//! holds for every such function.
use vstd::prelude::*;

use crate::field::F;

verus! {

/// Number of field elements of a digest.
pub const HASH_SIZE: usize = 4;

/// A digest: four field elements.
#[derive(Clone, Copy, Debug, PartialEq, Eq, Structural, Hash)]
pub struct HashOutput(pub F, pub F, pub F, pub F);

impl HashOutput {
    /// The elements of the digest.
    pub open spec fn elements(self) -> Seq<F> {
        seq![self.0, self.1, self.2, self.3]
    }

    /// The digest with the given elements, in contracts.
    pub open spec fn of(s: Seq<F>) -> Self {
        HashOutput(s[0], s[1], s[2], s[3])
    }

    /// The digest with the given elements.
    pub fn from_elements(e: [F; 4]) -> (r: Self)
        ensures
            r.elements() == e@,
    {
        let r = HashOutput(e[0], e[1], e[2], e[3]);
        assert(r.elements() =~= e@);
        r
    }

    /// The elements of the digest.
    pub fn to_elements(&self) -> (e: [F; 4])
        ensures
            e@ == self.elements(),
    {
        let e = [self.0, self.1, self.2, self.3];
        assert(e@ =~= self.elements());
        e
    }

    /// The digest of zeros.
    pub fn zero() -> (r: Self)
        ensures
            r == HashOutput(F::of(0), F::of(0), F::of(0), F::of(0)),
    {
        let o = F::zero();
        HashOutput(o, o, o, o)
    }

    /// Appends the elements to a list.
    pub fn append_to(&self, v: &mut Vec<F>)
        ensures
            final(v)@ == old(v)@ + self.elements(),
    {
        v.push(self.0);
        v.push(self.1);
        v.push(self.2);
        v.push(self.3);
        assert(v@ =~= old(v)@ + self.elements());
    }
}

/// Whether `y` is what the function returns for `n` elements from `x`.
pub open spec fn absorbs<H: Fn(Vec<F>, usize) -> Vec<F>>(
    h: H,
    x: Seq<F>,
    n: nat,
    y: Seq<F>,
) -> bool {
    exists|xv: Vec<F>, m: usize, yv: Vec<F>|
        #![trigger h.ensures((xv, m), yv)]
        xv@ == x && m == n && yv@ == y && h.ensures((xv, m), yv)
}

/// Whether a function is a sponge: it accepts every input, returns as many
/// elements as it is asked for, and returns the same for the same input.
pub open spec fn is_sponge<H: Fn(Vec<F>, usize) -> Vec<F>>(h: H) -> bool {
    &&& forall|x: Vec<F>, n: usize| #[trigger] h.requires((x, n))
    &&& forall|x: Seq<F>, n: nat, y: Seq<F>| #[trigger] absorbs(h, x, n, y) ==> y.len() == n
    &&& forall|x: Seq<F>, n: nat, y: Seq<F>, z: Seq<F>|
        #[trigger] absorbs(h, x, n, y) && #[trigger] absorbs(h, x, n, z) ==> y == z
}

/// The `n` elements that the sponge returns for `x`.
pub open spec fn squeeze<H: Fn(Vec<F>, usize) -> Vec<F>>(h: H, x: Seq<F>, n: nat) -> Seq<F> {
    choose|y: Seq<F>| absorbs(h, x, n, y)
}

/// The digest of a list of elements.
pub open spec fn digest<H: Fn(Vec<F>, usize) -> Vec<F>>(h: H, x: Seq<F>) -> HashOutput {
    HashOutput::of(squeeze(h, x, 4))
}

/// The digest of two digests.
pub open spec fn digest_pair<H: Fn(Vec<F>, usize) -> Vec<F>>(
    h: H,
    l: HashOutput,
    r: HashOutput,
) -> HashOutput {
    digest(h, l.elements() + r.elements())
}

/// Calls the sponge.
pub fn hash_n_to_m<H: Fn(Vec<F>, usize) -> Vec<F>>(h: &H, x: Vec<F>, m: usize) -> (y: Vec<F>)
    requires
        is_sponge(*h),
    ensures
        y@ == squeeze(*h, x@, m as nat),
        y@.len() == m,
        absorbs(*h, x@, m as nat, y@),
{
    let ghost xs = x@;
    let ghost xv = x;
    let y = h(x, m);
    proof {
        assert(h.ensures((xv, m), y));
        assert(absorbs(*h, xs, m as nat, y@));
    }
    y
}

/// The digest of a list of elements.
pub fn hash_no_pad<H: Fn(Vec<F>, usize) -> Vec<F>>(h: &H, x: Vec<F>) -> (r: HashOutput)
    requires
        is_sponge(*h),
    ensures
        r == digest(*h, x@),
        absorbs(*h, x@, 4, r.elements()),
{
    let y = hash_n_to_m(h, x, 4);
    let r = HashOutput(y[0], y[1], y[2], y[3]);
    assert(r.elements() =~= y@);
    r
}

/// The digest of two digests.
pub fn two_to_one<H: Fn(Vec<F>, usize) -> Vec<F>>(h: &H, l: HashOutput, r: HashOutput) -> (d:
    HashOutput)
    requires
        is_sponge(*h),
    ensures
        d == digest_pair(*h, l, r),
{
    let mut x: Vec<F> = Vec::new();
    l.append_to(&mut x);
    r.append_to(&mut x);
    assert(x@ =~= l.elements() + r.elements());
    hash_no_pad(h, x)
}

} // verus!
