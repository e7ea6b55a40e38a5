//! The belief that the ball lies still.

use vstd::prelude::*;

use crate::gaussian::{
    identity2, lemma_pair, Column2, Matrix2, MultivariateNormalDistribution,
};
use crate::geometry::{Isometry2, Point2};
use crate::numerics::{
    accepts4, answers4, answers5, eval4, eval5, is_deterministic4, is_function5, value4, value5,
};

verus! {

/// Position of a ball that lies still on the ground, in the order x, y.
#[derive(Clone, Copy, Debug)]
pub struct RestingHypothesis(pub MultivariateNormalDistribution<2>);

impl RestingHypothesis {
    pub open spec fn spec_position(&self) -> Point2 {
        Point2 { x: self.0.mean[0], y: self.0.mean[1] }
    }

    /// The belief with its mean moved to `position` and its covariance kept.
    pub open spec fn moved_to(self, position: Point2) -> RestingHypothesis {
        RestingHypothesis(
            MultivariateNormalDistribution {
                mean: position.coords(),
                covariance: self.0.covariance,
            },
        )
    }

    /// The belief in the ground frame of the next cycle: the Kalman
    /// prediction with the rotation of the frame as the state transition
    /// and its translation as the control. The ball itself stays where it
    /// is.
    pub open spec fn predicted<
        K: Fn(MultivariateNormalDistribution<2>, Matrix2, Matrix2, Column2, Matrix2)
            -> MultivariateNormalDistribution<2>,
    >(self, last_to_current_odometry: Isometry2, process_noise: Matrix2, kalman_predict: K)
        -> RestingHypothesis {
        RestingHypothesis(
            value5(
                kalman_predict,
                self.0,
                last_to_current_odometry.rotation,
                identity2(),
                last_to_current_odometry.translation.coords(),
                process_noise,
            ),
        )
    }

    /// All that [`RestingHypothesis::predicted`] speaks of has been
    /// computed.
    pub open spec fn prediction_is_known<
        K: Fn(MultivariateNormalDistribution<2>, Matrix2, Matrix2, Column2, Matrix2)
            -> MultivariateNormalDistribution<2>,
    >(self, last_to_current_odometry: Isometry2, process_noise: Matrix2, kalman_predict: K)
        -> bool {
        answers5(
            kalman_predict,
            self.0,
            last_to_current_odometry.rotation,
            identity2(),
            last_to_current_odometry.translation.coords(),
            process_noise,
        )
    }

    /// The belief after a measured position.
    pub open spec fn updated<
        K: Fn(MultivariateNormalDistribution<2>, Matrix2, Column2, Matrix2)
            -> MultivariateNormalDistribution<2>,
    >(self, measurement: Point2, noise: Matrix2, kalman_update: K) -> RestingHypothesis {
        RestingHypothesis(value4(kalman_update, self.0, identity2(), measurement.coords(), noise))
    }

    /// The update with the measurement can be made: the update step accepts
    /// what it is handed.
    pub open spec fn update_is_admissible<
        K: Fn(MultivariateNormalDistribution<2>, Matrix2, Column2, Matrix2)
            -> MultivariateNormalDistribution<2>,
    >(self, measurement: Point2, noise: Matrix2, kalman_update: K) -> bool {
        accepts4(kalman_update, self.0, identity2(), measurement.coords(), noise)
    }

    /// All that [`RestingHypothesis::updated`] speaks of has been computed.
    pub open spec fn update_is_known<
        K: Fn(MultivariateNormalDistribution<2>, Matrix2, Column2, Matrix2)
            -> MultivariateNormalDistribution<2>,
    >(self, measurement: Point2, noise: Matrix2, kalman_update: K) -> bool {
        answers4(kalman_update, self.0, identity2(), measurement.coords(), noise)
    }

    /// The belief fused with `other`: the Kalman update that takes the
    /// position of `other` for a measurement and its covariance for the
    /// noise.
    pub open spec fn merged<
        K: Fn(MultivariateNormalDistribution<2>, Matrix2, Column2, Matrix2)
            -> MultivariateNormalDistribution<2>,
    >(self, other: RestingHypothesis, kalman_update: K) -> RestingHypothesis {
        RestingHypothesis(
            value4(kalman_update, self.0, identity2(), other.0.mean, other.0.covariance),
        )
    }

    /// The belief can be fused with `other`: the update step accepts what
    /// it is handed.
    pub open spec fn merge_is_admissible<
        K: Fn(MultivariateNormalDistribution<2>, Matrix2, Column2, Matrix2)
            -> MultivariateNormalDistribution<2>,
    >(self, other: RestingHypothesis, kalman_update: K) -> bool {
        accepts4(kalman_update, self.0, identity2(), other.0.mean, other.0.covariance)
    }

    /// All that [`RestingHypothesis::merged`] speaks of has been computed.
    pub open spec fn merge_is_known<
        K: Fn(MultivariateNormalDistribution<2>, Matrix2, Column2, Matrix2)
            -> MultivariateNormalDistribution<2>,
    >(self, other: RestingHypothesis, kalman_update: K) -> bool {
        answers4(kalman_update, self.0, identity2(), other.0.mean, other.0.covariance)
    }

    pub fn new(mean: Column2, covariance: Matrix2) -> (hypothesis: RestingHypothesis)
        ensures
            hypothesis.0.mean == mean,
            hypothesis.0.covariance == covariance,
    {
        RestingHypothesis(MultivariateNormalDistribution { mean, covariance })
    }

    /// A ball seen lying at `position`.
    pub fn seeded(position: Point2, covariance: Matrix2) -> (hypothesis: RestingHypothesis)
        ensures
            hypothesis.0.mean == position.coords(),
            hypothesis.0.covariance == covariance,
            hypothesis.position() == position,
    {
        proof {
            lemma_pair(position.x, position.y);
        }
        RestingHypothesis(MultivariateNormalDistribution { mean: position.coords(), covariance })
    }

    /// Where the ball is believed to lie.
    #[verifier::when_used_as_spec(spec_position)]
    pub fn position(&self) -> (position: Point2)
        ensures
            position == self.spec_position(),
    {
        Point2 { x: self.0.mean[0], y: self.0.mean[1] }
    }

    /// Overwrites the mean with `position`. This is no measurement: the
    /// covariance stays as it is.
    pub fn reset(&mut self, position: Point2)
        ensures
            *final(self) == old(self).moved_to(position),
            final(self).position() == position,
    {
        proof {
            lemma_pair(position.x, position.y);
        }
        self.0.mean = position.coords();
    }

    /// Carries the belief into the ground frame of the current cycle.
    /// `kalman_predict` gives the prediction step of a Kalman filter.
    pub fn predict<
        K: Fn(MultivariateNormalDistribution<2>, Matrix2, Matrix2, Column2, Matrix2)
            -> MultivariateNormalDistribution<2>,
    >(&mut self, last_to_current_odometry: Isometry2, process_noise: Matrix2, kalman_predict: &K)
        requires
            is_function5(*kalman_predict),
        ensures
            *final(self) == old(self).predicted(
                last_to_current_odometry,
                process_noise,
                *kalman_predict,
            ),
            old(self).prediction_is_known(last_to_current_odometry, process_noise, *kalman_predict),
    {
        self.0 = eval5(
            kalman_predict,
            self.0,
            last_to_current_odometry.rotation,
            identity2(),
            last_to_current_odometry.translation.coords(),
            process_noise,
        );
    }

    /// Corrects the belief with a measured position. `kalman_update` gives
    /// the update step of a Kalman filter. It has to accept what it is
    /// handed: the step cannot be made where the covariance of the residual
    /// has no inverse.
    pub fn update<
        K: Fn(MultivariateNormalDistribution<2>, Matrix2, Column2, Matrix2)
            -> MultivariateNormalDistribution<2>,
    >(&mut self, measurement: Point2, noise: Matrix2, kalman_update: &K)
        requires
            is_deterministic4(*kalman_update),
            old(self).update_is_admissible(measurement, noise, *kalman_update),
        ensures
            *final(self) == old(self).updated(measurement, noise, *kalman_update),
            old(self).update_is_known(measurement, noise, *kalman_update),
    {
        self.0 = eval4(kalman_update, self.0, identity2(), measurement.coords(), noise);
    }

    /// Fuses the belief with another one about the same ball.
    pub fn merge<
        K: Fn(MultivariateNormalDistribution<2>, Matrix2, Column2, Matrix2)
            -> MultivariateNormalDistribution<2>,
    >(&mut self, other: RestingHypothesis, kalman_update: &K)
        requires
            is_deterministic4(*kalman_update),
            old(self).merge_is_admissible(other, *kalman_update),
        ensures
            *final(self) == old(self).merged(other, *kalman_update),
            old(self).merge_is_known(other, *kalman_update),
    {
        self.0 = eval4(kalman_update, self.0, identity2(), other.0.mean, other.0.covariance);
    }
}

} // verus!
