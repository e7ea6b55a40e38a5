//! The prediction step.

use vstd::prelude::*;

use crate::gaussian::{
    diagonal2, diagonal4, Column2, Matrix2, Matrix4, Matrix4x2, MultivariateNormalDistribution,
};
use crate::geometry::{Isometry2, Vector2};
use crate::hypothesis::BallHypothesis;
use crate::numerics::{is_function, is_function2, is_function5};
use crate::parameters::BallFilterParameters;
use crate::scalar::Scalar;
use crate::BallFilter;

verus! {

impl BallHypothesis {
    /// The hypothesis after the prediction step of the tracker, which takes
    /// the decay of the velocity, the process noise and the velocity
    /// threshold from the parameters.
    pub open spec fn advanced<
        M: Fn(Matrix4, Matrix4) -> Matrix4,
        KM: Fn(MultivariateNormalDistribution<4>, Matrix4, Matrix4x2, Column2, Matrix4)
        -> MultivariateNormalDistribution<4>,
        KR: Fn(MultivariateNormalDistribution<2>, Matrix2, Matrix2, Column2, Matrix2)
        -> MultivariateNormalDistribution<2>,
        N: Fn(Vector2) -> Scalar,
    >(
        self,
        delta_time: Scalar,
        last_to_current_odometry: Isometry2,
        parameters: BallFilterParameters,
        multiply: M,
        predict_moving: KM,
        predict_resting: KR,
        norm: N,
    ) -> BallHypothesis {
        self.predicted(
            delta_time,
            last_to_current_odometry,
            parameters.velocity_decay_factor,
            diagonal4(parameters.noise.process_noise_moving),
            diagonal2(parameters.noise.process_noise_resting),
            parameters.resting_ball_velocity_threshold,
            multiply,
            predict_moving,
            predict_resting,
            norm,
        )
    }

    /// All that [`BallHypothesis::advanced`] speaks of has been computed.
    pub open spec fn advance_is_known<
        M: Fn(Matrix4, Matrix4) -> Matrix4,
        KM: Fn(MultivariateNormalDistribution<4>, Matrix4, Matrix4x2, Column2, Matrix4)
        -> MultivariateNormalDistribution<4>,
        KR: Fn(MultivariateNormalDistribution<2>, Matrix2, Matrix2, Column2, Matrix2)
        -> MultivariateNormalDistribution<2>,
        N: Fn(Vector2) -> Scalar,
    >(
        self,
        delta_time: Scalar,
        last_to_current_odometry: Isometry2,
        parameters: BallFilterParameters,
        multiply: M,
        predict_moving: KM,
        predict_resting: KR,
        norm: N,
    ) -> bool {
        self.prediction_is_known(
            delta_time,
            last_to_current_odometry,
            parameters.velocity_decay_factor,
            diagonal4(parameters.noise.process_noise_moving),
            diagonal2(parameters.noise.process_noise_resting),
            multiply,
            predict_moving,
            predict_resting,
            norm,
        )
    }
}

impl BallFilter {
    /// Advances every hypothesis over `delta_time` seconds into the ground
    /// frame of the current cycle, each as [`BallHypothesis::predict`]
    /// does. `last_to_current_odometry` takes the ground frame of the last
    /// cycle to that of the current one.
    pub fn predict<
        M: Fn(Matrix4, Matrix4) -> Matrix4,
        KM: Fn(MultivariateNormalDistribution<4>, Matrix4, Matrix4x2, Column2, Matrix4)
            -> MultivariateNormalDistribution<4>,
        KR: Fn(MultivariateNormalDistribution<2>, Matrix2, Matrix2, Column2, Matrix2)
            -> MultivariateNormalDistribution<2>,
        N: Fn(Vector2) -> Scalar,
    >(
        &mut self,
        delta_time: Scalar,
        last_to_current_odometry: Isometry2,
        parameters: &BallFilterParameters,
        multiply: &M,
        predict_moving: &KM,
        predict_resting: &KR,
        norm: &N,
    )
        requires
            is_function2(*multiply),
            is_function5(*predict_moving),
            is_function5(*predict_resting),
            is_function(*norm),
        ensures
            final(self)@ == old(self)@.map_values(
                |h: BallHypothesis|
                    h.advanced(
                        delta_time,
                        last_to_current_odometry,
                        *parameters,
                        *multiply,
                        *predict_moving,
                        *predict_resting,
                        *norm,
                    ),
            ),
            forall|i: int|
                0 <= i < old(self)@.len() ==> (#[trigger] old(self)@[i]).advance_is_known(
                    delta_time,
                    last_to_current_odometry,
                    *parameters,
                    *multiply,
                    *predict_moving,
                    *predict_resting,
                    *norm,
                ),
    {
        let ghost step = |h: BallHypothesis|
            h.advanced(
                delta_time,
                last_to_current_odometry,
                *parameters,
                *multiply,
                *predict_moving,
                *predict_resting,
                *norm,
            );
        let moving_process_noise = diagonal4(parameters.noise.process_noise_moving);
        let resting_process_noise = diagonal2(parameters.noise.process_noise_resting);
        let mut i: usize = 0;
        while i < self.hypotheses.len()
            invariant
                i <= self.hypotheses.len(),
                self@.len() == old(self)@.len(),
                is_function2(*multiply),
                is_function5(*predict_moving),
                is_function5(*predict_resting),
                is_function(*norm),
                moving_process_noise == diagonal4(parameters.noise.process_noise_moving),
                resting_process_noise == diagonal2(parameters.noise.process_noise_resting),
                step == |h: BallHypothesis|
                    h.advanced(
                        delta_time,
                        last_to_current_odometry,
                        *parameters,
                        *multiply,
                        *predict_moving,
                        *predict_resting,
                        *norm,
                    ),
                forall|j: int| 0 <= j < i ==> self@[j] == step(#[trigger] old(self)@[j]),
                forall|j: int|
                    0 <= j < i ==> (#[trigger] old(self)@[j]).advance_is_known(
                        delta_time,
                        last_to_current_odometry,
                        *parameters,
                        *multiply,
                        *predict_moving,
                        *predict_resting,
                        *norm,
                    ),
                forall|j: int| i <= j < self@.len() ==> self@[j] == #[trigger] old(self)@[j],
            decreases self.hypotheses.len() - i,
        {
            let mut hypothesis = self.hypotheses[i];
            hypothesis.predict(
                delta_time,
                last_to_current_odometry,
                parameters.velocity_decay_factor,
                moving_process_noise,
                resting_process_noise,
                parameters.resting_ball_velocity_threshold,
                multiply,
                predict_moving,
                predict_resting,
                norm,
            );
            self.hypotheses[i] = hypothesis;
            i = i + 1;
        }
        assert(self@ =~= old(self)@.map_values(step));
    }
}

} // verus!
