//! Points and vectors of the ground plane and of the image plane.

use vstd::prelude::*;

use crate::gaussian::{pair, pair_of, Column2, Matrix2};
use crate::scalar::Scalar;

verus! {

/// A position in a plane.
#[derive(Clone, Copy, Debug, PartialEq, Eq, Structural)]
pub struct Point2 {
    pub x: Scalar,
    pub y: Scalar,
}

/// A displacement or a velocity in a plane.
#[derive(Clone, Copy, Debug, PartialEq, Eq, Structural)]
pub struct Vector2 {
    pub x: Scalar,
    pub y: Scalar,
}

/// A rigid motion of the plane: a rotation, given as its matrix, followed
/// by a translation.
#[derive(Clone, Copy, Debug)]
pub struct Isometry2 {
    pub rotation: Matrix2,
    pub translation: Vector2,
}

impl Point2 {
    pub open spec fn spec_coords(&self) -> Column2 {
        pair(self.x, self.y)
    }

    pub fn new(x: Scalar, y: Scalar) -> (point: Point2)
        ensures
            point == (Point2 { x, y }),
    {
        Point2 { x, y }
    }

    /// The coordinates as a vector of two entries.
    #[verifier::when_used_as_spec(spec_coords)]
    pub fn coords(&self) -> (coords: Column2)
        ensures
            coords == self.spec_coords(),
    {
        pair_of(self.x, self.y)
    }
}

impl Vector2 {
    pub open spec fn spec_zeros() -> Vector2 {
        Vector2 { x: Scalar::zero(), y: Scalar::zero() }
    }

    pub open spec fn spec_coords(&self) -> Column2 {
        pair(self.x, self.y)
    }

    /// The components as a vector of two entries.
    #[verifier::when_used_as_spec(spec_coords)]
    pub fn coords(&self) -> (coords: Column2)
        ensures
            coords == self.spec_coords(),
    {
        pair_of(self.x, self.y)
    }

    pub fn new(x: Scalar, y: Scalar) -> (vector: Vector2)
        ensures
            vector == (Vector2 { x, y }),
    {
        Vector2 { x, y }
    }

    /// The vector of no motion.
    #[verifier::when_used_as_spec(spec_zeros)]
    pub fn zeros() -> (vector: Vector2)
        ensures
            vector == Vector2::spec_zeros(),
    {
        Vector2 { x: Scalar::zero(), y: Scalar::zero() }
    }
}

} // verus!
