//! The tuning of the tracker. Every value is configured from outside; the
//! tracker computes none of them.

use vstd::prelude::*;

use crate::gaussian::{
    diagonal2, diagonal4, lemma_pair, pair, pair_of, Column2, Column4, Matrix2, Matrix4,
};
use crate::scalar::Scalar;

verus! {

/// The part of the playing field in which a ball is kept: its half length
/// and its half width, each with the border strip added.
#[derive(Clone, Copy, Debug)]
pub struct FieldBounds {
    pub half_length: Scalar,
    pub half_width: Scalar,
}

/// The variances that the filter works with, each as the diagonal of its
/// covariance matrix.
#[derive(Clone, Copy, Debug)]
pub struct BallFilterNoise {
    /// What a time step adds to the rolling belief.
    pub process_noise_moving: Column4,
    /// What a time step adds to the resting belief.
    pub process_noise_resting: Column2,
    /// How far a measured position is off.
    pub measurement_noise: Column2,
    /// What is known of a ball that has just been seen for the first time.
    pub initial_covariance: Column4,
}

#[derive(Clone, Copy, Debug)]
pub struct BallFilterParameters {
    /// What is left of a velocity after one time step.
    pub velocity_decay_factor: Scalar,
    /// Below this speed a ball is judged to lie still.
    pub resting_ball_velocity_threshold: Scalar,
    /// A measurement closer than this to a hypothesis supports it.
    pub measurement_matching_distance: Scalar,
    /// Hypotheses closer than this to each other are the same ball.
    pub hypothesis_merge_distance: Scalar,
    /// Nanoseconds after which a hypothesis without support is dropped.
    pub hypothesis_timeout: u64,
    /// A hypothesis is dropped unless its validity is above this.
    pub validity_discard_threshold: Scalar,
    /// A hypothesis is reported as the ball only with a validity above this.
    pub validity_output_threshold: Scalar,
    /// Factor on the validity of a hypothesis that a camera should see.
    pub visible_validity_exponential_decay_factor: Scalar,
    /// Factor on the validity of a hypothesis that no camera can see.
    pub hidden_validity_exponential_decay_factor: Scalar,
    pub noise: BallFilterNoise,
}

impl BallFilterNoise {
    pub open spec fn spec_initial_moving_covariance(&self) -> Matrix4 {
        diagonal4(self.initial_covariance)
    }

    pub open spec fn spec_initial_resting_covariance(&self) -> Matrix2 {
        diagonal2(pair(self.initial_covariance[0], self.initial_covariance[1]))
    }

    /// The covariance of the rolling belief of a new hypothesis.
    #[verifier::when_used_as_spec(spec_initial_moving_covariance)]
    pub fn initial_moving_covariance(&self) -> (covariance: Matrix4)
        ensures
            covariance == self.spec_initial_moving_covariance(),
    {
        diagonal4(self.initial_covariance)
    }

    /// The covariance of the resting belief of a new hypothesis: that of
    /// the position in the rolling belief.
    #[verifier::when_used_as_spec(spec_initial_resting_covariance)]
    pub fn initial_resting_covariance(&self) -> (covariance: Matrix2)
        ensures
            covariance == self.spec_initial_resting_covariance(),
    {
        proof {
            lemma_pair(self.initial_covariance[0], self.initial_covariance[1]);
        }
        diagonal2(pair_of(self.initial_covariance[0], self.initial_covariance[1]))
    }
}

} // verus!
