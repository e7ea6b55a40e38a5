//! New hypotheses.

use vstd::prelude::*;

use crate::gaussian::{Matrix2, Matrix4, MultivariateNormalDistribution};
use crate::geometry::Point2;
use crate::hypothesis::moving::MovingHypothesis;
use crate::hypothesis::resting::RestingHypothesis;
use crate::hypothesis::BallHypothesis;
use crate::BallFilter;

verus! {

impl BallHypothesis {
    /// The hypothesis that a measurement gives rise to when it supports no
    /// other: both beliefs at the measured position, the ball without
    /// motion, the covariances as configured, validity one.
    pub open spec fn spawned(
        detected_position: Point2,
        detection_time: u64,
        moving_covariance: Matrix4,
        resting_covariance: Matrix2,
    ) -> BallHypothesis {
        BallHypothesis::fresh(
            MovingHypothesis(
                MultivariateNormalDistribution {
                    mean: MovingHypothesis::at_rest(detected_position),
                    covariance: moving_covariance,
                },
            ),
            RestingHypothesis(
                MultivariateNormalDistribution {
                    mean: detected_position.coords(),
                    covariance: resting_covariance,
                },
            ),
            detection_time,
        )
    }
}

impl BallFilter {
    /// A new hypothesis for a ball measured at `detected_position`.
    pub fn spawn_hypothesis(
        detected_position: Point2,
        detection_time: u64,
        moving_covariance: Matrix4,
        resting_covariance: Matrix2,
    ) -> (hypothesis: BallHypothesis)
        ensures
            hypothesis == BallHypothesis::spawned(
                detected_position,
                detection_time,
                moving_covariance,
                resting_covariance,
            ),
    {
        BallHypothesis::new(
            MovingHypothesis::seeded(detected_position, moving_covariance),
            RestingHypothesis::seeded(detected_position, resting_covariance),
            detection_time,
        )
    }

    /// Starts to follow a ball measured at `measurement`: appends a new
    /// hypothesis and leaves the others as they are.
    pub fn spawn(
        &mut self,
        detection_time: u64,
        measurement: Point2,
        initial_moving_covariance: Matrix4,
        initial_resting_covariance: Matrix2,
    )
        ensures
            final(self)@ == old(self)@.push(
                BallHypothesis::spawned(
                    measurement,
                    detection_time,
                    initial_moving_covariance,
                    initial_resting_covariance,
                ),
            ),
    {
        self.hypotheses.push(
            BallFilter::spawn_hypothesis(
                measurement,
                detection_time,
                initial_moving_covariance,
                initial_resting_covariance,
            ),
        );
    }
}

} // verus!
