use vstd::prelude::*;

verus! {

use crate::scalar::{Scalar, BITS_ZERO};

/// The scalar denoted by the zero pattern.
pub open spec fn zero_of<S: Scalar>() -> S {
    S::from_bits_spec(BITS_ZERO)
}

/// Left fold of pairwise products: the running sum starts at zero and takes
/// the components in order, exactly as the executable loops do.
pub open spec fn dot_spec<S: Scalar>(a: Seq<S>, b: Seq<S>) -> S
    decreases a.len(),
{
    if a.len() == 0 {
        zero_of::<S>()
    } else {
        dot_spec(a.drop_last(), b.drop_last()).add_spec(a.last().mul_spec(b.last()))
    }
}

/// Every component scaled by `s`.
pub open spec fn scaled_spec<S: Scalar>(v: Seq<S>, s: S) -> Seq<S> {
    v.map_values(|x: S| x.mul_spec(s))
}

/// Componentwise sum of two equally long vectors.
pub open spec fn added_spec<S: Scalar>(a: Seq<S>, b: Seq<S>) -> Seq<S> {
    Seq::new(a.len(), |i: int| a[i].add_spec(b[i]))
}

/// Squared Euclidean norm: the dot product of `v` with itself.
pub fn norm2_sqr<S: Scalar>(v: &Vec<S>) -> (r: S)
    ensures
        r == dot_spec(v@, v@),
{
    let mut sum = S::from_bits(BITS_ZERO);
    let mut i: usize = 0;
    while i < v.len()
        invariant
            i <= v.len(),
            sum == dot_spec(v@.take(i as int), v@.take(i as int)),
        decreases v.len() - i,
    {
        proof {
            assert(v@.take(i + 1).drop_last() =~= v@.take(i as int));
            assert(v@.take(i + 1).last() == v@[i as int]);
        }
        sum = sum.add(v[i].mul(v[i]));
        i += 1;
    }
    proof {
        assert(v@.take(v@.len() as int) =~= v@);
    }
    sum
}

/// Euclidean norm: the square root of the squared norm.
pub fn norm2<S: Scalar>(v: &Vec<S>) -> (r: S)
    ensures
        r == dot_spec(v@, v@).sqrt_spec(),
{
    norm2_sqr(v).sqrt()
}

/// Dot product of two vectors; vectors of different lengths are incompatible
/// and give no result.
pub fn inner_product<S: Scalar>(a: &Vec<S>, b: &Vec<S>) -> (r: Option<S>)
    ensures
        a@.len() == b@.len() ==> r == Some(dot_spec(a@, b@)),
        a@.len() != b@.len() ==> r is None,
{
    if a.len() != b.len() {
        return None;
    }
    let mut sum = S::from_bits(BITS_ZERO);
    let mut i: usize = 0;
    while i < a.len()
        invariant
            i <= a.len(),
            a@.len() == b@.len(),
            sum == dot_spec(a@.take(i as int), b@.take(i as int)),
        decreases a.len() - i,
    {
        proof {
            assert(a@.take(i + 1).drop_last() =~= a@.take(i as int));
            assert(b@.take(i + 1).drop_last() =~= b@.take(i as int));
        }
        sum = sum.add(a[i].mul(b[i]));
        i += 1;
    }
    proof {
        assert(a@.take(a@.len() as int) =~= a@);
        assert(b@.take(b@.len() as int) =~= b@);
    }
    Some(sum)
}

/// The vector with every component scaled by `s`.
pub fn scaled<S: Scalar>(v: &Vec<S>, s: S) -> (r: Vec<S>)
    ensures
        r@ == scaled_spec(v@, s),
{
    let mut out: Vec<S> = Vec::new();
    let mut i: usize = 0;
    while i < v.len()
        invariant
            i <= v.len(),
            out@ == scaled_spec(v@.take(i as int), s),
        decreases v.len() - i,
    {
        out.push(v[i].mul(s));
        proof {
            assert(out@ =~= scaled_spec(v@.take(i + 1), s));
        }
        i += 1;
    }
    proof {
        assert(v@.take(v@.len() as int) =~= v@);
    }
    out
}

/// Componentwise sum; vectors of different lengths are incompatible and give
/// no result.
pub fn add<S: Scalar>(a: &Vec<S>, b: &Vec<S>) -> (r: Option<Vec<S>>)
    ensures
        a@.len() == b@.len() ==> r is Some && r.unwrap()@ == added_spec(a@, b@),
        a@.len() != b@.len() ==> r is None,
{
    if a.len() != b.len() {
        return None;
    }
    let mut out: Vec<S> = Vec::new();
    let mut i: usize = 0;
    while i < a.len()
        invariant
            i <= a.len(),
            a@.len() == b@.len(),
            out@ == added_spec(a@.take(i as int), b@.take(i as int)),
        decreases a.len() - i,
    {
        out.push(a[i].add(b[i]));
        proof {
            assert(out@ =~= added_spec(a@.take(i + 1), b@.take(i + 1)));
        }
        i += 1;
    }
    proof {
        assert(a@.take(a@.len() as int) =~= a@);
        assert(b@.take(b@.len() as int) =~= b@);
        assert(out@ =~= added_spec(a@, b@));
    }
    Some(out)
}

/// Adding vectors is symmetric whenever the scalar addition is: for equally
/// long vectors over a commutative scalar sum, the two orders of `add` give
/// the same vector.
pub proof fn lemma_add_commutes<S: Scalar>(a: Seq<S>, b: Seq<S>)
    requires
        a.len() == b.len(),
        forall|x: S, y: S| #[trigger] x.add_spec(y) == y.add_spec(x),
    ensures
        added_spec(a, b) == added_spec(b, a),
{
    assert(added_spec(a, b) =~= added_spec(b, a));
}

/// The commutativity law holds unconditionally of the saturating integer
/// arithmetic.
pub proof fn lemma_add_commutes_i64(a: Seq<i64>, b: Seq<i64>)
    requires
        a.len() == b.len(),
    ensures
        added_spec(a, b) == added_spec(b, a),
{
    lemma_add_commutes(a, b);
}

} // verus!
