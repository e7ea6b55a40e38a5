//! The belief that the ball rolls.

use vstd::prelude::*;

use crate::gaussian::{
    identity2, identity2x4, identity4, identity4x2, lemma_pair, lemma_quad, pair, quad, quad_of,
    Column2, Column4, Matrix2, Matrix2x4, Matrix4, Matrix4x2, MultivariateNormalDistribution,
};
use crate::geometry::{Isometry2, Point2, Vector2};
use crate::numerics::{
    accepts4, answers2, answers4, answers5, eval2, eval4, eval5, is_deterministic4, is_function2,
    is_function5, value2, value4, value5,
};
use crate::scalar::Scalar;

verus! {

/// Position and velocity of a rolling ball on the ground, in the order
/// x, y, velocity in x, velocity in y.
#[derive(Clone, Copy, Debug)]
pub struct MovingHypothesis(pub MultivariateNormalDistribution<4>);

impl MovingHypothesis {
    /// The mean of a ball that lies still at `position`.
    pub open spec fn at_rest(position: Point2) -> Column4 {
        quad(position.x, position.y, Scalar::zero(), Scalar::zero())
    }

    pub open spec fn spec_position(&self) -> Point2 {
        Point2 { x: self.0.mean[0], y: self.0.mean[1] }
    }

    pub open spec fn spec_velocity(&self) -> Vector2 {
        Vector2 { x: self.0.mean[2], y: self.0.mean[3] }
    }

    /// The transition over `dt` seconds of a ball that keeps its velocity
    /// but for a decay: the position gains the velocity times `dt`, the
    /// velocity is scaled by `velocity_decay`.
    pub open spec fn spec_constant_velocity_prediction(dt: Scalar, velocity_decay: Scalar) -> Matrix4 {
        let i = Scalar::one();
        let o = Scalar::zero();
        quad(
            quad(i, o, dt, o),
            quad(o, i, o, dt),
            quad(o, o, velocity_decay, o),
            quad(o, o, o, velocity_decay),
        )
    }

    /// The rotation of the plane applied to the position and to the
    /// velocity alike.
    pub open spec fn spec_state_rotation(rotation: Matrix2) -> Matrix4 {
        let o = Scalar::zero();
        quad(
            quad(rotation[0][0], rotation[0][1], o, o),
            quad(rotation[1][0], rotation[1][1], o, o),
            quad(o, o, rotation[0][0], rotation[0][1]),
            quad(o, o, rotation[1][0], rotation[1][1]),
        )
    }

    /// The belief one time step later, in the ground frame of that time:
    /// the Kalman prediction with the product of the transition and the
    /// rotation of the frame as the state transition, and with the
    /// translation of the frame as a control that acts on the position.
    pub open spec fn predicted<
        M: Fn(Matrix4, Matrix4) -> Matrix4,
        K: Fn(MultivariateNormalDistribution<4>, Matrix4, Matrix4x2, Column2, Matrix4)
            -> MultivariateNormalDistribution<4>,
    >(
        self,
        delta_time: Scalar,
        last_to_current_odometry: Isometry2,
        velocity_decay: Scalar,
        process_noise: Matrix4,
        multiply: M,
        kalman_predict: K,
    ) -> MovingHypothesis {
        MovingHypothesis(
            value5(
                kalman_predict,
                self.0,
                value2(
                    multiply,
                    MovingHypothesis::constant_velocity_prediction(delta_time, velocity_decay),
                    MovingHypothesis::state_rotation(last_to_current_odometry.rotation),
                ),
                identity4x2(),
                last_to_current_odometry.translation.coords(),
                process_noise,
            ),
        )
    }

    /// All that [`MovingHypothesis::predicted`] speaks of has been computed.
    pub open spec fn prediction_is_known<
        M: Fn(Matrix4, Matrix4) -> Matrix4,
        K: Fn(MultivariateNormalDistribution<4>, Matrix4, Matrix4x2, Column2, Matrix4)
            -> MultivariateNormalDistribution<4>,
    >(
        self,
        delta_time: Scalar,
        last_to_current_odometry: Isometry2,
        velocity_decay: Scalar,
        process_noise: Matrix4,
        multiply: M,
        kalman_predict: K,
    ) -> bool {
        &&& answers2(
            multiply,
            MovingHypothesis::constant_velocity_prediction(delta_time, velocity_decay),
            MovingHypothesis::state_rotation(last_to_current_odometry.rotation),
        )
        &&& answers5(
            kalman_predict,
            self.0,
            value2(
                multiply,
                MovingHypothesis::constant_velocity_prediction(delta_time, velocity_decay),
                MovingHypothesis::state_rotation(last_to_current_odometry.rotation),
            ),
            identity4x2(),
            last_to_current_odometry.translation.coords(),
            process_noise,
        )
    }

    /// The belief after a measured position: the Kalman update with an
    /// observation that picks the position.
    pub open spec fn updated<
        K: Fn(MultivariateNormalDistribution<4>, Matrix2x4, Column2, Matrix2)
            -> MultivariateNormalDistribution<4>,
    >(self, measurement: Point2, noise: Matrix2, kalman_update: K) -> MovingHypothesis {
        MovingHypothesis(value4(kalman_update, self.0, identity2x4(), measurement.coords(), noise))
    }

    /// The update with the measurement can be made: the update step accepts
    /// what it is handed.
    pub open spec fn update_is_admissible<
        K: Fn(MultivariateNormalDistribution<4>, Matrix2x4, Column2, Matrix2)
            -> MultivariateNormalDistribution<4>,
    >(self, measurement: Point2, noise: Matrix2, kalman_update: K) -> bool {
        accepts4(kalman_update, self.0, identity2x4(), measurement.coords(), noise)
    }

    /// All that [`MovingHypothesis::updated`] speaks of has been computed.
    pub open spec fn update_is_known<
        K: Fn(MultivariateNormalDistribution<4>, Matrix2x4, Column2, Matrix2)
            -> MultivariateNormalDistribution<4>,
    >(self, measurement: Point2, noise: Matrix2, kalman_update: K) -> bool {
        answers4(kalman_update, self.0, identity2x4(), measurement.coords(), noise)
    }

    /// The belief fused with `other`: the Kalman update that takes the whole
    /// state of `other` for a measurement and its covariance for the noise.
    pub open spec fn merged<
        K: Fn(MultivariateNormalDistribution<4>, Matrix4, Column4, Matrix4)
            -> MultivariateNormalDistribution<4>,
    >(self, other: MovingHypothesis, kalman_update: K) -> MovingHypothesis {
        MovingHypothesis(
            value4(kalman_update, self.0, identity4(), other.0.mean, other.0.covariance),
        )
    }

    /// The belief can be fused with `other`: the update step accepts what
    /// it is handed.
    pub open spec fn merge_is_admissible<
        K: Fn(MultivariateNormalDistribution<4>, Matrix4, Column4, Matrix4)
            -> MultivariateNormalDistribution<4>,
    >(self, other: MovingHypothesis, kalman_update: K) -> bool {
        accepts4(kalman_update, self.0, identity4(), other.0.mean, other.0.covariance)
    }

    /// All that [`MovingHypothesis::merged`] speaks of has been computed.
    pub open spec fn merge_is_known<
        K: Fn(MultivariateNormalDistribution<4>, Matrix4, Column4, Matrix4)
            -> MultivariateNormalDistribution<4>,
    >(self, other: MovingHypothesis, kalman_update: K) -> bool {
        answers4(kalman_update, self.0, identity4(), other.0.mean, other.0.covariance)
    }

    pub fn new(mean: Column4, covariance: Matrix4) -> (hypothesis: MovingHypothesis)
        ensures
            hypothesis.0.mean == mean,
            hypothesis.0.covariance == covariance,
    {
        MovingHypothesis(MultivariateNormalDistribution { mean, covariance })
    }

    /// A ball seen at `position` of which no motion is known yet.
    pub fn seeded(position: Point2, covariance: Matrix4) -> (hypothesis: MovingHypothesis)
        ensures
            hypothesis.0.mean == MovingHypothesis::at_rest(position),
            hypothesis.0.covariance == covariance,
            hypothesis.position() == position,
            hypothesis.velocity() == Vector2::zeros(),
    {
        let zero = Scalar::zero();
        proof {
            lemma_quad(position.x, position.y, zero, zero);
        }
        MovingHypothesis(
            MultivariateNormalDistribution {
                mean: quad_of(position.x, position.y, zero, zero),
                covariance,
            },
        )
    }

    /// Where the ball is believed to be.
    #[verifier::when_used_as_spec(spec_position)]
    pub fn position(&self) -> (position: Point2)
        ensures
            position == self.spec_position(),
    {
        Point2 { x: self.0.mean[0], y: self.0.mean[1] }
    }

    /// How fast, and where to, the ball is believed to roll.
    #[verifier::when_used_as_spec(spec_velocity)]
    pub fn velocity(&self) -> (velocity: Vector2)
        ensures
            velocity == self.spec_velocity(),
    {
        Vector2 { x: self.0.mean[2], y: self.0.mean[3] }
    }

    #[verifier::when_used_as_spec(spec_constant_velocity_prediction)]
    pub fn constant_velocity_prediction(dt: Scalar, velocity_decay: Scalar) -> (transition: Matrix4)
        ensures
            transition == MovingHypothesis::spec_constant_velocity_prediction(dt, velocity_decay),
    {
        let i = Scalar::one();
        let o = Scalar::zero();
        quad_of(
            quad_of(i, o, dt, o),
            quad_of(o, i, o, dt),
            quad_of(o, o, velocity_decay, o),
            quad_of(o, o, o, velocity_decay),
        )
    }

    #[verifier::when_used_as_spec(spec_state_rotation)]
    pub fn state_rotation(rotation: Matrix2) -> (state_rotation: Matrix4)
        ensures
            state_rotation == MovingHypothesis::spec_state_rotation(rotation),
    {
        let o = Scalar::zero();
        quad_of(
            quad_of(rotation[0][0], rotation[0][1], o, o),
            quad_of(rotation[1][0], rotation[1][1], o, o),
            quad_of(o, o, rotation[0][0], rotation[0][1]),
            quad_of(o, o, rotation[1][0], rotation[1][1]),
        )
    }

    /// Carries the belief over `delta_time` seconds into the ground frame
    /// of the current cycle. `multiply` gives the product of two matrices,
    /// `kalman_predict` the prediction step of a Kalman filter from a
    /// belief, the state transition, the control model, the control and
    /// the process noise.
    pub fn predict<
        M: Fn(Matrix4, Matrix4) -> Matrix4,
        K: Fn(MultivariateNormalDistribution<4>, Matrix4, Matrix4x2, Column2, Matrix4)
            -> MultivariateNormalDistribution<4>,
    >(
        &mut self,
        delta_time: Scalar,
        last_to_current_odometry: Isometry2,
        velocity_decay: Scalar,
        process_noise: Matrix4,
        multiply: &M,
        kalman_predict: &K,
    )
        requires
            is_function2(*multiply),
            is_function5(*kalman_predict),
        ensures
            *final(self) == old(self).predicted(
                delta_time,
                last_to_current_odometry,
                velocity_decay,
                process_noise,
                *multiply,
                *kalman_predict,
            ),
            old(self).prediction_is_known(
                delta_time,
                last_to_current_odometry,
                velocity_decay,
                process_noise,
                *multiply,
                *kalman_predict,
            ),
    {
        let constant_velocity_prediction = MovingHypothesis::constant_velocity_prediction(
            delta_time,
            velocity_decay,
        );
        let state_rotation = MovingHypothesis::state_rotation(last_to_current_odometry.rotation);
        let state_prediction = eval2(multiply, constant_velocity_prediction, state_rotation);
        self.0 = eval5(
            kalman_predict,
            self.0,
            state_prediction,
            identity4x2(),
            last_to_current_odometry.translation.coords(),
            process_noise,
        );
    }

    /// Corrects the belief with a measured position. `kalman_update` gives
    /// the update step of a Kalman filter from a belief, the observation
    /// model, the measurement and its noise. It has to accept them: the
    /// step cannot be made where the covariance of the residual has no
    /// inverse.
    pub fn update<
        K: Fn(MultivariateNormalDistribution<4>, Matrix2x4, Column2, Matrix2)
            -> MultivariateNormalDistribution<4>,
    >(&mut self, measurement: Point2, noise: Matrix2, kalman_update: &K)
        requires
            is_deterministic4(*kalman_update),
            old(self).update_is_admissible(measurement, noise, *kalman_update),
        ensures
            *final(self) == old(self).updated(measurement, noise, *kalman_update),
            old(self).update_is_known(measurement, noise, *kalman_update),
    {
        self.0 = eval4(kalman_update, self.0, identity2x4(), measurement.coords(), noise);
    }

    /// Fuses the belief with another one about the same ball.
    pub fn merge<
        K: Fn(MultivariateNormalDistribution<4>, Matrix4, Column4, Matrix4)
            -> MultivariateNormalDistribution<4>,
    >(&mut self, other: MovingHypothesis, kalman_update: &K)
        requires
            is_deterministic4(*kalman_update),
            old(self).merge_is_admissible(other, *kalman_update),
        ensures
            *final(self) == old(self).merged(other, *kalman_update),
            old(self).merge_is_known(other, *kalman_update),
    {
        self.0 = eval4(kalman_update, self.0, identity4(), other.0.mean, other.0.covariance);
    }
}

/// A frame that does not turn leaves every state as it is.
pub proof fn lemma_state_rotation_of_identity()
    ensures
        MovingHypothesis::state_rotation(identity2()) == identity4(),
{
    let i = Scalar::one();
    let o = Scalar::zero();
    lemma_pair(i, i);
    lemma_pair(i, o);
    lemma_pair(o, i);
    lemma_pair(pair(i, o), pair(o, i));
    lemma_quad(i, i, i, i);
}

} // verus!
