//! What the tracker reports of a ball.

use vstd::prelude::*;

use crate::geometry::{Point2, Vector2};
use crate::hypothesis::moving::MovingHypothesis;
use crate::hypothesis::resting::RestingHypothesis;
use crate::scalar::Scalar;

verus! {

/// Where a ball is and how it moves, with the time in nanoseconds at which
/// it was last seen.
#[derive(Clone, Copy, Debug)]
pub struct BallPosition {
    pub position: Point2,
    pub velocity: Vector2,
    pub last_seen: u64,
}

/// The position of a candidate that is not trusted enough to be reported as
/// the ball, with its validity.
#[derive(Clone, Copy, Debug)]
pub struct HypotheticalBallPosition {
    pub position: Point2,
    pub validity: Scalar,
}

impl BallPosition {
    /// The ball as the rolling belief has it.
    pub fn from_moving(hypothesis: MovingHypothesis, last_seen: u64) -> (ball: BallPosition)
        ensures
            ball.position == hypothesis.position(),
            ball.velocity == hypothesis.velocity(),
            ball.last_seen == last_seen,
    {
        BallPosition {
            position: hypothesis.position(),
            velocity: hypothesis.velocity(),
            last_seen,
        }
    }

    /// The ball as the resting belief has it: at its position, without motion.
    pub fn from_resting(hypothesis: RestingHypothesis, last_seen: u64) -> (ball: BallPosition)
        ensures
            ball.position == hypothesis.position(),
            ball.velocity == Vector2::zeros(),
            ball.last_seen == last_seen,
    {
        BallPosition { position: hypothesis.position(), velocity: Vector2::zeros(), last_seen }
    }
}

} // verus!
