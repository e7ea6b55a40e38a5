//! One candidate ball.
//!
//! A hypothesis keeps two beliefs about the same ball at all times, one that
//! it rolls and one that it lies still, and decides on every query which of
//! the two speaks for it.

pub mod moving;
pub mod resting;

use vstd::prelude::*;

use crate::filtered_ball::BallPosition;
use crate::gaussian::{
    identity2, identity4, identity4x2, pair, Column2, Column4, Matrix2, Matrix2x4, Matrix4,
    Matrix4x2, MultivariateNormalDistribution,
};
use crate::geometry::{Isometry2, Point2, Vector2};
use crate::hypothesis::moving::{lemma_state_rotation_of_identity, MovingHypothesis};
use crate::hypothesis::resting::RestingHypothesis;
use crate::numerics::{
    answers, answers2, eval, eval2, is_deterministic4, is_function, is_function2, is_function5,
    value, value2, value5,
};
use crate::scalar::Scalar;

verus! {

/// A candidate ball: both beliefs, the time in nanoseconds of the last
/// measurement that supported it, and how much it is trusted.
#[derive(Clone, Copy, Debug)]
pub struct BallHypothesis {
    pub moving: MovingHypothesis,
    pub resting: RestingHypothesis,
    pub last_update: u64,
    pub validity: Scalar,
}

impl BallHypothesis {
    /// The ball is judged to lie still: the speed of the rolling belief is
    /// below the threshold.
    pub open spec fn rests<N: Fn(Vector2) -> Scalar>(
        self,
        norm: N,
        velocity_threshold: Scalar,
    ) -> bool {
        value(norm, self.moving.velocity()).lt(velocity_threshold)
    }

    /// The speed of the rolling belief has been computed.
    pub open spec fn speed_is_known<N: Fn(Vector2) -> Scalar>(self, norm: N) -> bool {
        answers(norm, self.moving.velocity())
    }

    /// The ball that the hypothesis stands for, stamped with `last_seen`.
    pub open spec fn chosen<N: Fn(Vector2) -> Scalar>(
        self,
        norm: N,
        velocity_threshold: Scalar,
        last_seen: u64,
    ) -> BallPosition {
        if self.rests(norm, velocity_threshold) {
            BallPosition {
                position: self.resting.position(),
                velocity: Vector2::zeros(),
                last_seen,
            }
        } else {
            BallPosition {
                position: self.moving.position(),
                velocity: self.moving.velocity(),
                last_seen,
            }
        }
    }

    /// Where the hypothesis puts the ball.
    pub open spec fn selected_position<N: Fn(Vector2) -> Scalar>(
        self,
        norm: N,
        velocity_threshold: Scalar,
    ) -> Point2 {
        self.chosen(norm, velocity_threshold, self.last_update).position
    }

    /// The hypothesis one time step later: both beliefs predicted, and the
    /// resting belief moved onto the position of the rolling one where that
    /// one has slowed down below the threshold.
    pub open spec fn predicted<
        M: Fn(Matrix4, Matrix4) -> Matrix4,
        KM: Fn(MultivariateNormalDistribution<4>, Matrix4, Matrix4x2, Column2, Matrix4)
            -> MultivariateNormalDistribution<4>,
        KR: Fn(MultivariateNormalDistribution<2>, Matrix2, Matrix2, Column2, Matrix2)
            -> MultivariateNormalDistribution<2>,
        N: Fn(Vector2) -> Scalar,
    >(
        self,
        delta_time: Scalar,
        last_to_current_odometry: Isometry2,
        velocity_decay: Scalar,
        moving_process_noise: Matrix4,
        resting_process_noise: Matrix2,
        velocity_threshold: Scalar,
        multiply: M,
        predict_moving: KM,
        predict_resting: KR,
        norm: N,
    ) -> Self {
        let moving = self.moving.predicted(
            delta_time,
            last_to_current_odometry,
            velocity_decay,
            moving_process_noise,
            multiply,
            predict_moving,
        );
        let resting = self.resting.predicted(
            last_to_current_odometry,
            resting_process_noise,
            predict_resting,
        );
        BallHypothesis {
            moving,
            resting: if value(norm, moving.velocity()).lt(velocity_threshold) {
                resting.moved_to(moving.position())
            } else {
                resting
            },
            last_update: self.last_update,
            validity: self.validity,
        }
    }

    /// All that [`BallHypothesis::predicted`] speaks of has been computed.
    pub open spec fn prediction_is_known<
        M: Fn(Matrix4, Matrix4) -> Matrix4,
        KM: Fn(MultivariateNormalDistribution<4>, Matrix4, Matrix4x2, Column2, Matrix4)
            -> MultivariateNormalDistribution<4>,
        KR: Fn(MultivariateNormalDistribution<2>, Matrix2, Matrix2, Column2, Matrix2)
            -> MultivariateNormalDistribution<2>,
        N: Fn(Vector2) -> Scalar,
    >(
        self,
        delta_time: Scalar,
        last_to_current_odometry: Isometry2,
        velocity_decay: Scalar,
        moving_process_noise: Matrix4,
        resting_process_noise: Matrix2,
        multiply: M,
        predict_moving: KM,
        predict_resting: KR,
        norm: N,
    ) -> bool {
        &&& self.moving.prediction_is_known(
            delta_time,
            last_to_current_odometry,
            velocity_decay,
            moving_process_noise,
            multiply,
            predict_moving,
        )
        &&& self.resting.prediction_is_known(
            last_to_current_odometry,
            resting_process_noise,
            predict_resting,
        )
        &&& answers(
            norm,
            self.moving.predicted(
                delta_time,
                last_to_current_odometry,
                velocity_decay,
                moving_process_noise,
                multiply,
                predict_moving,
            ).velocity(),
        )
    }

    /// The hypothesis after a measurement taken at `detection_time`.
    pub open spec fn updated<
        UM: Fn(MultivariateNormalDistribution<4>, Matrix2x4, Column2, Matrix2)
            -> MultivariateNormalDistribution<4>,
        UR: Fn(MultivariateNormalDistribution<2>, Matrix2, Column2, Matrix2)
            -> MultivariateNormalDistribution<2>,
        S: Fn(Scalar, Scalar) -> Scalar,
    >(
        self,
        detection_time: u64,
        measurement: Point2,
        noise: Matrix2,
        update_moving: UM,
        update_resting: UR,
        sum: S,
    ) -> Self {
        BallHypothesis {
            moving: self.moving.updated(measurement, noise, update_moving),
            resting: self.resting.updated(measurement, noise, update_resting),
            last_update: detection_time,
            validity: value2(sum, self.validity, Scalar::one()),
        }
    }

    /// The update with the measurement can be made on both beliefs.
    pub open spec fn update_is_admissible<
        UM: Fn(MultivariateNormalDistribution<4>, Matrix2x4, Column2, Matrix2)
            -> MultivariateNormalDistribution<4>,
        UR: Fn(MultivariateNormalDistribution<2>, Matrix2, Column2, Matrix2)
            -> MultivariateNormalDistribution<2>,
    >(self, measurement: Point2, noise: Matrix2, update_moving: UM, update_resting: UR) -> bool {
        &&& self.moving.update_is_admissible(measurement, noise, update_moving)
        &&& self.resting.update_is_admissible(measurement, noise, update_resting)
    }

    /// All that [`BallHypothesis::updated`] speaks of has been computed.
    pub open spec fn update_is_known<
        UM: Fn(MultivariateNormalDistribution<4>, Matrix2x4, Column2, Matrix2)
            -> MultivariateNormalDistribution<4>,
        UR: Fn(MultivariateNormalDistribution<2>, Matrix2, Column2, Matrix2)
            -> MultivariateNormalDistribution<2>,
        S: Fn(Scalar, Scalar) -> Scalar,
    >(self, measurement: Point2, noise: Matrix2, update_moving: UM, update_resting: UR, sum: S)
        -> bool {
        &&& self.moving.update_is_known(measurement, noise, update_moving)
        &&& self.resting.update_is_known(measurement, noise, update_resting)
        &&& answers2(sum, self.validity, Scalar::one())
    }

    /// The hypothesis after it has absorbed `other`: each belief fused with
    /// its counterpart, validity and time as they were.
    pub open spec fn merged<
        FM: Fn(MultivariateNormalDistribution<4>, Matrix4, Column4, Matrix4)
            -> MultivariateNormalDistribution<4>,
        UR: Fn(MultivariateNormalDistribution<2>, Matrix2, Column2, Matrix2)
            -> MultivariateNormalDistribution<2>,
    >(self, other: BallHypothesis, fuse_moving: FM, update_resting: UR) -> Self {
        BallHypothesis {
            moving: self.moving.merged(other.moving, fuse_moving),
            resting: self.resting.merged(other.resting, update_resting),
            last_update: self.last_update,
            validity: self.validity,
        }
    }

    /// Both beliefs can be fused with those of `other`.
    pub open spec fn merge_is_admissible<
        FM: Fn(MultivariateNormalDistribution<4>, Matrix4, Column4, Matrix4)
            -> MultivariateNormalDistribution<4>,
        UR: Fn(MultivariateNormalDistribution<2>, Matrix2, Column2, Matrix2)
            -> MultivariateNormalDistribution<2>,
    >(self, other: BallHypothesis, fuse_moving: FM, update_resting: UR) -> bool {
        &&& self.moving.merge_is_admissible(other.moving, fuse_moving)
        &&& self.resting.merge_is_admissible(other.resting, update_resting)
    }

    /// All that [`BallHypothesis::merged`] speaks of has been computed.
    pub open spec fn merge_is_known<
        FM: Fn(MultivariateNormalDistribution<4>, Matrix4, Column4, Matrix4)
            -> MultivariateNormalDistribution<4>,
        UR: Fn(MultivariateNormalDistribution<2>, Matrix2, Column2, Matrix2)
            -> MultivariateNormalDistribution<2>,
    >(self, other: BallHypothesis, fuse_moving: FM, update_resting: UR) -> bool {
        &&& self.moving.merge_is_known(other.moving, fuse_moving)
        &&& self.resting.merge_is_known(other.resting, update_resting)
    }

    /// The hypothesis with its validity scaled by `factor`.
    pub open spec fn decayed<P: Fn(Scalar, Scalar) -> Scalar>(
        self,
        factor: Scalar,
        product: P,
    ) -> Self {
        BallHypothesis {
            moving: self.moving,
            resting: self.resting,
            last_update: self.last_update,
            validity: value2(product, self.validity, factor),
        }
    }

    /// A hypothesis that has just been supported by one measurement.
    pub open spec fn fresh(
        moving: MovingHypothesis,
        resting: RestingHypothesis,
        last_update: u64,
    ) -> Self {
        BallHypothesis { moving, resting, last_update, validity: Scalar::one() }
    }

    /// A new hypothesis with validity one.
    pub fn new(
        moving_hypothesis: MovingHypothesis,
        resting_hypothesis: RestingHypothesis,
        last_update: u64,
    ) -> (hypothesis: BallHypothesis)
        ensures
            hypothesis == BallHypothesis::fresh(moving_hypothesis, resting_hypothesis, last_update),
    {
        BallHypothesis {
            moving: moving_hypothesis,
            resting: resting_hypothesis,
            last_update,
            validity: Scalar::one(),
        }
    }

    /// Whether the ball is judged to lie still. `norm` gives the length of a
    /// vector.
    pub fn is_resting<N: Fn(Vector2) -> Scalar>(
        &self,
        norm: &N,
        velocity_threshold: Scalar,
    ) -> (resting: bool)
        requires
            is_function(*norm),
        ensures
            resting == self.rests(*norm, velocity_threshold),
            self.speed_is_known(*norm),
    {
        let speed = eval(norm, self.moving.velocity());
        speed.lt(velocity_threshold)
    }

    /// The ball that the hypothesis stands for, stamped with the time `now`:
    /// the resting belief without motion where the ball is judged to lie
    /// still, the rolling belief otherwise.
    pub fn choose_ball<N: Fn(Vector2) -> Scalar>(
        &self,
        norm: &N,
        velocity_threshold: Scalar,
        now: u64,
    ) -> (ball: BallPosition)
        requires
            is_function(*norm),
        ensures
            ball == self.chosen(*norm, velocity_threshold, now),
            self.speed_is_known(*norm),
    {
        if self.is_resting(norm, velocity_threshold) {
            BallPosition::from_resting(self.resting, now)
        } else {
            BallPosition::from_moving(self.moving, now)
        }
    }

    /// The ball that the hypothesis stands for, stamped with the time of the
    /// last measurement that supported it.
    pub fn selected_ball_position<N: Fn(Vector2) -> Scalar>(
        &self,
        norm: &N,
        velocity_threshold: Scalar,
    ) -> (ball: BallPosition)
        requires
            is_function(*norm),
        ensures
            ball == self.chosen(*norm, velocity_threshold, self.last_update),
            ball.position == self.selected_position(*norm, velocity_threshold),
            self.speed_is_known(*norm),
    {
        self.choose_ball(norm, velocity_threshold, self.last_update)
    }

    /// Advances both beliefs by one time step. Where the rolling belief has
    /// slowed down below the threshold, the resting belief is moved onto its
    /// position.
    pub fn predict<
        M: Fn(Matrix4, Matrix4) -> Matrix4,
        KM: Fn(MultivariateNormalDistribution<4>, Matrix4, Matrix4x2, Column2, Matrix4)
            -> MultivariateNormalDistribution<4>,
        KR: Fn(MultivariateNormalDistribution<2>, Matrix2, Matrix2, Column2, Matrix2)
            -> MultivariateNormalDistribution<2>,
        N: Fn(Vector2) -> Scalar,
    >(
        &mut self,
        delta_time: Scalar,
        last_to_current_odometry: Isometry2,
        velocity_decay: Scalar,
        moving_process_noise: Matrix4,
        resting_process_noise: Matrix2,
        velocity_threshold: Scalar,
        multiply: &M,
        predict_moving: &KM,
        predict_resting: &KR,
        norm: &N,
    )
        requires
            is_function2(*multiply),
            is_function5(*predict_moving),
            is_function5(*predict_resting),
            is_function(*norm),
        ensures
            *final(self) == old(self).predicted(
                delta_time,
                last_to_current_odometry,
                velocity_decay,
                moving_process_noise,
                resting_process_noise,
                velocity_threshold,
                *multiply,
                *predict_moving,
                *predict_resting,
                *norm,
            ),
            old(self).prediction_is_known(
                delta_time,
                last_to_current_odometry,
                velocity_decay,
                moving_process_noise,
                resting_process_noise,
                *multiply,
                *predict_moving,
                *predict_resting,
                *norm,
            ),
            final(self).validity == old(self).validity,
            final(self).last_update == old(self).last_update,
    {
        self.moving.predict(
            delta_time,
            last_to_current_odometry,
            velocity_decay,
            moving_process_noise,
            multiply,
            predict_moving,
        );
        self.resting.predict(last_to_current_odometry, resting_process_noise, predict_resting);
        if eval(norm, self.moving.velocity()).lt(velocity_threshold) {
            self.resting.reset(self.moving.position());
        }
    }

    /// Corrects both beliefs with one measurement, remembers its time and
    /// raises the validity by one. Nothing else ever raises it.
    pub fn update<
        UM: Fn(MultivariateNormalDistribution<4>, Matrix2x4, Column2, Matrix2)
            -> MultivariateNormalDistribution<4>,
        UR: Fn(MultivariateNormalDistribution<2>, Matrix2, Column2, Matrix2)
            -> MultivariateNormalDistribution<2>,
        S: Fn(Scalar, Scalar) -> Scalar,
    >(
        &mut self,
        detection_time: u64,
        measurement: Point2,
        noise: Matrix2,
        update_moving: &UM,
        update_resting: &UR,
        sum: &S,
    )
        requires
            old(self).last_update <= detection_time,
            is_deterministic4(*update_moving),
            is_deterministic4(*update_resting),
            is_function2(*sum),
            old(self).update_is_admissible(measurement, noise, *update_moving, *update_resting),
        ensures
            *final(self) == old(self).updated(
                detection_time,
                measurement,
                noise,
                *update_moving,
                *update_resting,
                *sum,
            ),
            old(self).update_is_known(measurement, noise, *update_moving, *update_resting, *sum),
    {
        self.last_update = detection_time;
        self.moving.update(measurement, noise, update_moving);
        self.resting.update(measurement, noise, update_resting);
        self.validity = eval2(sum, self.validity, Scalar::one());
    }

    /// Scales the validity by `factor`.
    pub fn decay<P: Fn(Scalar, Scalar) -> Scalar>(&mut self, factor: Scalar, product: &P)
        requires
            is_function2(*product),
        ensures
            *final(self) == old(self).decayed(factor, *product),
            answers2(*product, old(self).validity, factor),
    {
        self.validity = eval2(product, self.validity, factor);
    }

    /// Absorbs `other`, which is judged to be the same ball: each belief is
    /// fused with its counterpart. Validity and time stay those of `self`.
    pub fn merge<
        FM: Fn(MultivariateNormalDistribution<4>, Matrix4, Column4, Matrix4)
            -> MultivariateNormalDistribution<4>,
        UR: Fn(MultivariateNormalDistribution<2>, Matrix2, Column2, Matrix2)
            -> MultivariateNormalDistribution<2>,
    >(&mut self, other: BallHypothesis, fuse_moving: &FM, update_resting: &UR)
        requires
            is_deterministic4(*fuse_moving),
            is_deterministic4(*update_resting),
            old(self).merge_is_admissible(other, *fuse_moving, *update_resting),
        ensures
            *final(self) == old(self).merged(other, *fuse_moving, *update_resting),
            old(self).merge_is_known(other, *fuse_moving, *update_resting),
    {
        self.moving.merge(other.moving, fuse_moving);
        self.resting.merge(other.resting, update_resting);
    }
}

/// A prediction in a frame that neither turns nor moves. Validity and time
/// stay as they are. The rolling belief becomes what the prediction step
/// gives for the transition times the identity and a control of zero. The
/// resting belief becomes what the prediction step gives for the identity
/// as the transition and a control of zero, unless the ball has slowed down
/// below the threshold.
pub proof fn lemma_prediction_in_a_frame_at_rest<
    M: Fn(Matrix4, Matrix4) -> Matrix4,
    KM: Fn(MultivariateNormalDistribution<4>, Matrix4, Matrix4x2, Column2, Matrix4)
        -> MultivariateNormalDistribution<4>,
    KR: Fn(MultivariateNormalDistribution<2>, Matrix2, Matrix2, Column2, Matrix2)
        -> MultivariateNormalDistribution<2>,
    N: Fn(Vector2) -> Scalar,
>(
    hypothesis: BallHypothesis,
    delta_time: Scalar,
    velocity_decay: Scalar,
    moving_process_noise: Matrix4,
    resting_process_noise: Matrix2,
    velocity_threshold: Scalar,
    multiply: M,
    predict_moving: KM,
    predict_resting: KR,
    norm: N,
)
    ensures
        ({
            let at_rest = Isometry2 { rotation: identity2(), translation: Vector2::zeros() };
            let after = hypothesis.predicted(
                delta_time,
                at_rest,
                velocity_decay,
                moving_process_noise,
                resting_process_noise,
                velocity_threshold,
                multiply,
                predict_moving,
                predict_resting,
                norm,
            );
            &&& after.validity == hypothesis.validity
            &&& after.last_update == hypothesis.last_update
            &&& after.moving.0 == value5(
                predict_moving,
                hypothesis.moving.0,
                value2(
                    multiply,
                    MovingHypothesis::constant_velocity_prediction(delta_time, velocity_decay),
                    identity4(),
                ),
                identity4x2(),
                pair(Scalar::zero(), Scalar::zero()),
                moving_process_noise,
            )
            &&& !value(norm, after.moving.velocity()).lt(velocity_threshold) ==> after.resting.0
                == value5(
                predict_resting,
                hypothesis.resting.0,
                identity2(),
                identity2(),
                pair(Scalar::zero(), Scalar::zero()),
                resting_process_noise,
            )
        }),
{
    lemma_state_rotation_of_identity();
}

/// The choice between the two beliefs: below the velocity threshold the
/// hypothesis puts the ball where the resting belief has it and gives it no
/// velocity; at the threshold and above it, it puts the ball where the
/// rolling belief has it, with the velocity of that belief.
pub proof fn lemma_selection_threshold<N: Fn(Vector2) -> Scalar>(
    hypothesis: BallHypothesis,
    norm: N,
    velocity_threshold: Scalar,
    last_seen: u64,
)
    ensures
        value(norm, hypothesis.moving.velocity()).lt(velocity_threshold) ==> {
            &&& hypothesis.chosen(norm, velocity_threshold, last_seen).position
                == hypothesis.resting.position()
            &&& hypothesis.chosen(norm, velocity_threshold, last_seen).velocity == Vector2::zeros()
        },
        velocity_threshold.le(value(norm, hypothesis.moving.velocity())) ==> {
            &&& hypothesis.chosen(norm, velocity_threshold, last_seen).position
                == hypothesis.moving.position()
            &&& hypothesis.chosen(norm, velocity_threshold, last_seen).velocity
                == hypothesis.moving.velocity()
        },
{
}

} // verus!
