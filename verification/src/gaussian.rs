//! Linear-Gaussian beliefs, and the vectors and matrices that go with them.
//!
//! A vector is an array of its entries, a matrix the array of its rows.
//! They are put together here entry by entry; nothing is computed.

use vstd::prelude::*;
use vstd::array::spec_array_fill_for_copy_type;
use vstd::array::spec_array_update;

use crate::scalar::Scalar;

verus! {

pub type Column2 = [Scalar; 2];

pub type Column4 = [Scalar; 4];

pub type Matrix2 = [[Scalar; 2]; 2];

pub type Matrix4 = [[Scalar; 4]; 4];

/// Four rows of two entries.
pub type Matrix4x2 = [[Scalar; 2]; 4];

/// Two rows of four entries.
pub type Matrix2x4 = [[Scalar; 4]; 2];

/// A belief over `N` real quantities: their expected values and the
/// covariance of the error, row by row.
#[derive(Clone, Copy, Debug)]
pub struct MultivariateNormalDistribution<const N: usize> {
    pub mean: [Scalar; N],
    pub covariance: [[Scalar; N]; N],
}

/// The array of `a` and `b`.
pub open spec fn pair<T: Copy>(a: T, b: T) -> [T; 2] {
    spec_array_update(spec_array_fill_for_copy_type(a), 1, b)
}

/// The array of `a`, `b`, `c` and `d`.
pub open spec fn quad<T: Copy>(a: T, b: T, c: T, d: T) -> [T; 4] {
    spec_array_update(
        spec_array_update(spec_array_update(spec_array_fill_for_copy_type(a), 1, b), 2, c),
        3,
        d,
    )
}

/// What [`pair`] holds.
pub proof fn lemma_pair<T: Copy>(a: T, b: T)
    ensures
        pair(a, b)@ == seq![a, b],
        pair(a, b)[0] == a,
        pair(a, b)[1] == b,
{
    broadcast use vstd::array::group_array_axioms;

    assert(pair(a, b)@ =~= seq![a, b]);
}

/// What [`quad`] holds.
pub proof fn lemma_quad<T: Copy>(a: T, b: T, c: T, d: T)
    ensures
        quad(a, b, c, d)@ == seq![a, b, c, d],
        quad(a, b, c, d)[0] == a,
        quad(a, b, c, d)[1] == b,
        quad(a, b, c, d)[2] == c,
        quad(a, b, c, d)[3] == d,
{
    broadcast use vstd::array::group_array_axioms;

    assert(quad(a, b, c, d)@ =~= seq![a, b, c, d]);
}

/// The array of `a` and `b`.
pub fn pair_of<T: Copy>(a: T, b: T) -> (array: [T; 2])
    ensures
        array == pair(a, b),
{
    let array = [a, b];
    proof {
        lemma_pair(a, b);
        assert(array@ =~= pair(a, b)@);
    }
    array
}

/// The array of `a`, `b`, `c` and `d`.
pub fn quad_of<T: Copy>(a: T, b: T, c: T, d: T) -> (array: [T; 4])
    ensures
        array == quad(a, b, c, d),
{
    let array = [a, b, c, d];
    proof {
        lemma_quad(a, b, c, d);
        assert(array@ =~= quad(a, b, c, d)@);
    }
    array
}

/// The matrix with `diagonal` on its diagonal and zero elsewhere.
pub open spec fn spec_diagonal2(diagonal: Column2) -> Matrix2 {
    pair(pair(diagonal[0], Scalar::zero()), pair(Scalar::zero(), diagonal[1]))
}

/// The matrix with `diagonal` on its diagonal and zero elsewhere.
pub open spec fn spec_diagonal4(diagonal: Column4) -> Matrix4 {
    let o = Scalar::zero();
    quad(
        quad(diagonal[0], o, o, o),
        quad(o, diagonal[1], o, o),
        quad(o, o, diagonal[2], o),
        quad(o, o, o, diagonal[3]),
    )
}

/// The matrix that leaves two entries as they are.
pub open spec fn spec_identity2() -> Matrix2 {
    spec_diagonal2(pair(Scalar::one(), Scalar::one()))
}

/// The matrix that leaves four entries as they are.
pub open spec fn spec_identity4() -> Matrix4 {
    spec_diagonal4(quad(Scalar::one(), Scalar::one(), Scalar::one(), Scalar::one()))
}

/// The matrix that puts two entries into the first two of four and zero
/// into the others.
pub open spec fn spec_identity4x2() -> Matrix4x2 {
    let i = Scalar::one();
    let o = Scalar::zero();
    quad(pair(i, o), pair(o, i), pair(o, o), pair(o, o))
}

/// The matrix that picks the first two of four entries.
pub open spec fn spec_identity2x4() -> Matrix2x4 {
    let i = Scalar::one();
    let o = Scalar::zero();
    pair(quad(i, o, o, o), quad(o, i, o, o))
}

#[verifier::when_used_as_spec(spec_diagonal2)]
pub fn diagonal2(diagonal: Column2) -> (matrix: Matrix2)
    ensures
        matrix == spec_diagonal2(diagonal),
{
    let o = Scalar::zero();
    pair_of(pair_of(diagonal[0], o), pair_of(o, diagonal[1]))
}

#[verifier::when_used_as_spec(spec_diagonal4)]
pub fn diagonal4(diagonal: Column4) -> (matrix: Matrix4)
    ensures
        matrix == spec_diagonal4(diagonal),
{
    let o = Scalar::zero();
    quad_of(
        quad_of(diagonal[0], o, o, o),
        quad_of(o, diagonal[1], o, o),
        quad_of(o, o, diagonal[2], o),
        quad_of(o, o, o, diagonal[3]),
    )
}

#[verifier::when_used_as_spec(spec_identity2)]
pub fn identity2() -> (matrix: Matrix2)
    ensures
        matrix == spec_identity2(),
{
    let i = Scalar::one();
    let ones = pair_of(i, i);
    proof {
        lemma_pair(i, i);
    }
    diagonal2(ones)
}

#[verifier::when_used_as_spec(spec_identity4)]
pub fn identity4() -> (matrix: Matrix4)
    ensures
        matrix == spec_identity4(),
{
    let i = Scalar::one();
    let ones = quad_of(i, i, i, i);
    proof {
        lemma_quad(i, i, i, i);
    }
    diagonal4(ones)
}

#[verifier::when_used_as_spec(spec_identity4x2)]
pub fn identity4x2() -> (matrix: Matrix4x2)
    ensures
        matrix == spec_identity4x2(),
{
    let i = Scalar::one();
    let o = Scalar::zero();
    quad_of(pair_of(i, o), pair_of(o, i), pair_of(o, o), pair_of(o, o))
}

#[verifier::when_used_as_spec(spec_identity2x4)]
pub fn identity2x4() -> (matrix: Matrix2x4)
    ensures
        matrix == spec_identity2x4(),
{
    let i = Scalar::one();
    let o = Scalar::zero();
    pair_of(quad_of(i, o, o, o), quad_of(o, i, o, o))
}

} // verus!
