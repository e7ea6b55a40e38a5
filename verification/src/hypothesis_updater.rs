//! Association of measurements with hypotheses, and the update step.

use vstd::prelude::*;

use crate::gaussian::{
    diagonal2, lemma_pair, lemma_quad, Column2, Matrix2, Matrix2x4, MultivariateNormalDistribution,
};
use crate::geometry::{Point2, Vector2};
use crate::hypothesis::BallHypothesis;
use crate::hypothesis_merger::is_no_later_than;
use crate::numerics::{answers2, eval2, is_function2, is_deterministic4, value2};
use crate::parameters::BallFilterParameters;
use crate::scalar::Scalar;
use crate::BallFilter;

verus! {

/// The places in the tracker of the hypotheses that a measurement supports,
/// in rising order.
#[derive(Debug)]
pub struct MatchingHypotheses(pub Vec<usize>);

impl MatchingHypotheses {
    pub fn is_empty(&self) -> (empty: bool)
        ensures
            empty == (self.0@.len() == 0),
    {
        self.0.len() == 0
    }

    /// The places rise strictly and all lie below `len`.
    pub open spec fn is_selection_of(self, len: nat) -> bool {
        &&& forall|k: int| 0 <= k < self.0@.len() ==> (#[trigger] self.0@[k]) < len
        &&& forall|k: int, l: int| 0 <= k < l < self.0@.len() ==> self.0@[k] < self.0@[l]
    }
}

impl BallHypothesis {
    /// The measurement supports the hypothesis: it lies less than the
    /// matching distance from where the rolling belief or the resting
    /// belief puts the ball.
    pub open spec fn is_matched_by<D: Fn(Point2, Point2) -> Scalar>(
        self,
        measurement: Point2,
        matching_distance: Scalar,
        distance: D,
    ) -> bool {
        value2(distance, self.moving.position(), measurement).lt(matching_distance) || value2(
            distance,
            self.resting.position(),
            measurement,
        ).lt(matching_distance)
    }

    /// All that [`BallHypothesis::is_matched_by`] speaks of has been
    /// computed: the distance to the rolling belief always, that to the
    /// resting belief where the rolling belief is too far away.
    pub open spec fn match_is_known<D: Fn(Point2, Point2) -> Scalar>(
        self,
        measurement: Point2,
        matching_distance: Scalar,
        distance: D,
    ) -> bool {
        &&& answers2(distance, self.moving.position(), measurement)
        &&& !value2(distance, self.moving.position(), measurement).lt(matching_distance)
            ==> answers2(distance, self.resting.position(), measurement)
    }

    /// Whether the measurement supports the hypothesis.
    pub fn matches<D: Fn(Point2, Point2) -> Scalar>(
        &self,
        measurement: Point2,
        matching_distance: Scalar,
        distance: &D,
    ) -> (matched: bool)
        requires
            is_function2(*distance),
        ensures
            matched == self.is_matched_by(measurement, matching_distance, *distance),
            self.match_is_known(measurement, matching_distance, *distance),
    {
        eval2(distance, self.moving.position(), measurement).lt(matching_distance) || eval2(
            distance,
            self.resting.position(),
            measurement,
        ).lt(matching_distance)
    }
}

/// Some hypothesis is supported by the measurement.
pub open spec fn has_match<D: Fn(Point2, Point2) -> Scalar>(
    hypotheses: Seq<BallHypothesis>,
    measurement: Point2,
    matching_distance: Scalar,
    distance: D,
) -> bool {
    exists|i: int|
        0 <= i < hypotheses.len() && (#[trigger] hypotheses[i]).is_matched_by(
            measurement,
            matching_distance,
            distance,
        )
}

/// The noise of every measurement: the configured variances as a matrix.
pub open spec fn measurement_noise(parameters: BallFilterParameters) -> Matrix2 {
    diagonal2(parameters.noise.measurement_noise)
}

/// Every hypothesis that the measurement supports can be updated with it.
pub open spec fn association_is_admissible<
    D: Fn(Point2, Point2) -> Scalar,
    UM: Fn(MultivariateNormalDistribution<4>, Matrix2x4, Column2, Matrix2)
        -> MultivariateNormalDistribution<4>,
    UR: Fn(MultivariateNormalDistribution<2>, Matrix2, Column2, Matrix2)
        -> MultivariateNormalDistribution<2>,
>(
    hypotheses: Seq<BallHypothesis>,
    detected_position: Point2,
    parameters: BallFilterParameters,
    distance: D,
    update_moving: UM,
    update_resting: UR,
) -> bool {
    forall|i: int|
        0 <= i < hypotheses.len() && (#[trigger] hypotheses[i]).is_matched_by(
            detected_position,
            parameters.measurement_matching_distance,
            distance,
        ) ==> hypotheses[i].update_is_admissible(
            detected_position,
            measurement_noise(parameters),
            update_moving,
            update_resting,
        )
}

/// All that [`associated`] speaks of has been computed.
pub open spec fn association_is_known<
    D: Fn(Point2, Point2) -> Scalar,
    UM: Fn(MultivariateNormalDistribution<4>, Matrix2x4, Column2, Matrix2)
        -> MultivariateNormalDistribution<4>,
    UR: Fn(MultivariateNormalDistribution<2>, Matrix2, Column2, Matrix2)
        -> MultivariateNormalDistribution<2>,
    S: Fn(Scalar, Scalar) -> Scalar,
>(
    hypotheses: Seq<BallHypothesis>,
    detected_position: Point2,
    parameters: BallFilterParameters,
    distance: D,
    update_moving: UM,
    update_resting: UR,
    sum: S,
) -> bool {
    forall|i: int|
        0 <= i < hypotheses.len() ==> {
            &&& (#[trigger] hypotheses[i]).match_is_known(
                detected_position,
                parameters.measurement_matching_distance,
                distance,
            )
            &&& hypotheses[i].is_matched_by(
                detected_position,
                parameters.measurement_matching_distance,
                distance,
            ) ==> hypotheses[i].update_is_known(
                detected_position,
                measurement_noise(parameters),
                update_moving,
                update_resting,
                sum,
            )
        }
}

/// The hypotheses after one measurement: where it supports none, there is
/// one new hypothesis for it at the end; otherwise every hypothesis that it
/// supports is updated with it, and there is no new one.
pub open spec fn associated<
    D: Fn(Point2, Point2) -> Scalar,
    UM: Fn(MultivariateNormalDistribution<4>, Matrix2x4, Column2, Matrix2)
        -> MultivariateNormalDistribution<4>,
    UR: Fn(MultivariateNormalDistribution<2>, Matrix2, Column2, Matrix2)
        -> MultivariateNormalDistribution<2>,
    S: Fn(Scalar, Scalar) -> Scalar,
>(
    hypotheses: Seq<BallHypothesis>,
    detected_position: Point2,
    detection_time: u64,
    parameters: BallFilterParameters,
    distance: D,
    update_moving: UM,
    update_resting: UR,
    sum: S,
) -> Seq<BallHypothesis> {
    if has_match(hypotheses, detected_position, parameters.measurement_matching_distance, distance) {
        hypotheses.map_values(
            |h: BallHypothesis|
                if h.is_matched_by(
                    detected_position,
                    parameters.measurement_matching_distance,
                    distance,
                ) {
                    h.updated(
                        detection_time,
                        detected_position,
                        measurement_noise(parameters),
                        update_moving,
                        update_resting,
                        sum,
                    )
                } else {
                    h
                },
        )
    } else {
        hypotheses.push(
            BallHypothesis::spawned(
                detected_position,
                detection_time,
                parameters.noise.initial_moving_covariance(),
                parameters.noise.initial_resting_covariance(),
            ),
        )
    }
}

impl BallFilter {
    /// The hypotheses that the measurement supports.
    pub fn find_matching_hypotheses<D: Fn(Point2, Point2) -> Scalar>(
        &self,
        measurement: Point2,
        matching_distance: Scalar,
        distance: &D,
    ) -> (matching: MatchingHypotheses)
        requires
            is_function2(*distance),
        ensures
            matching.is_selection_of(self@.len()),
            forall|i: int|
                0 <= i < self@.len() ==> (matching.0@.contains(i as usize) <==> (
                #[trigger] self@[i]).is_matched_by(measurement, matching_distance, *distance)),
            matching.0@.len() == 0 <==> !has_match(self@, measurement, matching_distance, *distance),
            forall|i: int|
                0 <= i < self@.len() ==> (#[trigger] self@[i]).match_is_known(
                    measurement,
                    matching_distance,
                    *distance,
                ),
    {
        let mut matching: Vec<usize> = Vec::new();
        let mut i: usize = 0;
        while i < self.hypotheses.len()
            invariant
                i <= self.hypotheses.len(),
                is_function2(*distance),
                forall|k: int| 0 <= k < matching@.len() ==> (#[trigger] matching@[k]) < i,
                forall|k: int, l: int| 0 <= k < l < matching@.len() ==> matching@[k] < matching@[l],
                forall|j: int|
                    0 <= j < i ==> (matching@.contains(j as usize) <==> (
                    #[trigger] self@[j]).is_matched_by(measurement, matching_distance, *distance)),
                forall|j: int|
                    0 <= j < i ==> (#[trigger] self@[j]).match_is_known(
                        measurement,
                        matching_distance,
                        *distance,
                    ),
            decreases self.hypotheses.len() - i,
        {
            if self.hypotheses[i].matches(measurement, matching_distance, distance) {
                let ghost before = matching@;
                matching.push(i);
                assert(matching@[before.len() as int] == i);
                assert forall|j: int| 0 <= j < i + 1 implies (matching@.contains(j as usize) <==> (
                #[trigger] self@[j]).is_matched_by(measurement, matching_distance, *distance)) by {
                    if j < i {
                        if before.contains(j as usize) {
                            let k = choose|k: int| 0 <= k < before.len() && before[k] == j as usize;
                            assert(matching@[k] == j as usize);
                        }
                        if matching@.contains(j as usize) {
                            let k = choose|k: int|
                                0 <= k < matching@.len() && matching@[k] == j as usize;
                            assert(before[k] == j as usize);
                        }
                    }
                }
            }
            i = i + 1;
        }
        proof {
            if matching@.len() > 0 {
                let first = matching@[0];
                assert(matching@.contains(first));
                assert(self@[first as int].is_matched_by(measurement, matching_distance, *distance));
            }
            if has_match(self@, measurement, matching_distance, *distance) {
                let i = choose|i: int|
                    0 <= i < self@.len() && (#[trigger] self@[i]).is_matched_by(
                        measurement,
                        matching_distance,
                        *distance,
                    );
                assert(matching@.contains(i as usize));
            }
        }
        MatchingHypotheses(matching)
    }

    /// Updates each of the hypotheses at the places in `matching` with the
    /// measurement, as [`BallHypothesis::update`] does, and leaves the
    /// others as they are. The update has to be possible for each of them.
    pub fn update<
        UM: Fn(MultivariateNormalDistribution<4>, Matrix2x4, Column2, Matrix2)
        -> MultivariateNormalDistribution<4>,
        UR: Fn(MultivariateNormalDistribution<2>, Matrix2, Column2, Matrix2)
        -> MultivariateNormalDistribution<2>,
        S: Fn(Scalar, Scalar) -> Scalar,
    >(
        &mut self,
        matching: &MatchingHypotheses,
        detection_time: u64,
        measurement: Point2,
        noise: Matrix2,
        update_moving: &UM,
        update_resting: &UR,
        sum: &S,
    )
        requires
            matching.is_selection_of(old(self)@.len()),
            forall|k: int|
                0 <= k < matching.0@.len() ==> old(self)@[(#[trigger] matching.0@[k]) as int].last_update
                    <= detection_time,
            forall|k: int|
                0 <= k < matching.0@.len() ==> old(self)@[(
                #[trigger] matching.0@[k]) as int].update_is_admissible(
                    measurement,
                    noise,
                    *update_moving,
                    *update_resting,
                ),
            is_deterministic4(*update_moving),
            is_deterministic4(*update_resting),
            is_function2(*sum),
        ensures
            final(self)@.len() == old(self)@.len(),
            forall|i: int|
                0 <= i < old(self)@.len() ==> #[trigger] final(self)@[i] == if matching.0@.contains(
                    i as usize,
                ) {
                    old(self)@[i].updated(
                        detection_time,
                        measurement,
                        noise,
                        *update_moving,
                        *update_resting,
                        *sum,
                    )
                } else {
                    old(self)@[i]
                },
            forall|i: int|
                0 <= i < old(self)@.len() && matching.0@.contains(i as usize) ==> (
                #[trigger] old(self)@[i]).update_is_known(
                    measurement,
                    noise,
                    *update_moving,
                    *update_resting,
                    *sum,
                ),
    {
        let len: usize = self.hypotheses.len();
        let mut k: usize = 0;
        while k < matching.0.len()
            invariant
                k <= matching.0.len(),
                self@.len() == old(self)@.len(),
                self@.len() == len,
                matching.is_selection_of(old(self)@.len()),
                forall|k: int|
                    0 <= k < matching.0@.len() ==> old(self)@[(
                    #[trigger] matching.0@[k]) as int].last_update <= detection_time,
                forall|k: int|
                    0 <= k < matching.0@.len() ==> old(self)@[(
                    #[trigger] matching.0@[k]) as int].update_is_admissible(
                        measurement,
                        noise,
                        *update_moving,
                        *update_resting,
                    ),
                is_deterministic4(*update_moving),
                is_deterministic4(*update_resting),
                is_function2(*sum),
                forall|i: int|
                    0 <= i < self@.len() ==> #[trigger] self@[i] == if matching.0@.take(
                        k as int,
                    ).contains(i as usize) {
                        old(self)@[i].updated(
                            detection_time,
                            measurement,
                            noise,
                            *update_moving,
                            *update_resting,
                            *sum,
                        )
                    } else {
                        old(self)@[i]
                    },
                forall|i: int|
                    0 <= i < self@.len() && matching.0@.take(k as int).contains(i as usize) ==> (
                    #[trigger] old(self)@[i]).update_is_known(
                        measurement,
                        noise,
                        *update_moving,
                        *update_resting,
                        *sum,
                    ),
            decreases matching.0.len() - k,
        {
            let place: usize = matching.0[k];
            let ghost done = matching.0@.take(k as int);
            let ghost before = self@;
            proof {
                if done.contains(place) {
                    let l = choose|l: int| 0 <= l < done.len() && done[l] == place;
                    assert(matching.0@[l] < matching.0@[k as int]);
                }
                assert(before[place as int] == old(self)@[place as int]);
            }
            let mut hypothesis = self.hypotheses[place];
            hypothesis.update(
                detection_time,
                measurement,
                noise,
                update_moving,
                update_resting,
                sum,
            );
            self.hypotheses[place] = hypothesis;
            k = k + 1;
            proof {
                let next = matching.0@.take(k as int);
                assert(next == done.push(place));
                assert forall|i: int| 0 <= i < self@.len() implies #[trigger] self@[i] == if next.contains(
                    i as usize,
                ) {
                    old(self)@[i].updated(
                        detection_time,
                        measurement,
                        noise,
                        *update_moving,
                        *update_resting,
                        *sum,
                    )
                } else {
                    old(self)@[i]
                } by {
                    if i == place {
                        assert(next[k as int - 1] == place);
                    } else {
                        assert(self@[i] == before[i]);
                        if done.contains(i as usize) {
                            let l = choose|l: int| 0 <= l < done.len() && done[l] == i as usize;
                            assert(next[l] == i as usize);
                        }
                        if next.contains(i as usize) {
                            let l = choose|l: int| 0 <= l < next.len() && next[l] == i as usize;
                            assert((i as usize) as int == i);
                            assert(next[done.len() as int] == place);
                            assert(l < done.len());
                            assert(done[l] == i as usize);
                        }
                    }
                }
            }
        }
        proof {
            assert(matching.0@.take(matching.0@.len() as int) == matching.0@);
        }
    }

    /// Associates one measurement with the hypotheses: every hypothesis
    /// that it supports is updated with it, with the configured noise;
    /// where it supports none, a new hypothesis is appended for it. The
    /// update has to be possible for every hypothesis that it supports.
    pub fn update_hypotheses_with_measurement<
        D: Fn(Point2, Point2) -> Scalar,
            UM: Fn(MultivariateNormalDistribution<4>, Matrix2x4, Column2, Matrix2)
        -> MultivariateNormalDistribution<4>,
        UR: Fn(MultivariateNormalDistribution<2>, Matrix2, Column2, Matrix2)
        -> MultivariateNormalDistribution<2>,
        S: Fn(Scalar, Scalar) -> Scalar,
    >(
        &mut self,
        detected_position: Point2,
        detection_time: u64,
        parameters: &BallFilterParameters,
        distance: &D,
        update_moving: &UM,
        update_resting: &UR,
        sum: &S,
    )
        requires
            is_no_later_than(old(self)@, detection_time),
            is_function2(*distance),
            is_deterministic4(*update_moving),
            is_deterministic4(*update_resting),
            is_function2(*sum),
            association_is_admissible(
                old(self)@,
                detected_position,
                *parameters,
                *distance,
                *update_moving,
                *update_resting,
            ),
        ensures
            final(self)@ == associated(
                old(self)@,
                detected_position,
                detection_time,
                *parameters,
                *distance,
                *update_moving,
                *update_resting,
                *sum,
            ),
            association_is_known(
                old(self)@,
                detected_position,
                *parameters,
                *distance,
                *update_moving,
                *update_resting,
                *sum,
            ),
    {
        let matching = self.find_matching_hypotheses(
            detected_position,
            parameters.measurement_matching_distance,
            distance,
        );
        if matching.is_empty() {
            self.spawn(
                detection_time,
                detected_position,
                parameters.noise.initial_moving_covariance(),
                parameters.noise.initial_resting_covariance(),
            );
        } else {
            let noise = diagonal2(parameters.noise.measurement_noise);
            self.update(
                &matching,
                detection_time,
                detected_position,
                noise,
                update_moving,
                update_resting,
                sum,
            );
            assert(self@ =~= associated(
                old(self)@,
                detected_position,
                detection_time,
                *parameters,
                *distance,
                *update_moving,
                *update_resting,
                *sum,
            ));
        }
    }
}

/// A measurement that meets no hypothesis at all leaves exactly one: it
/// puts the ball at the measured position whatever the velocity threshold
/// is, gives it no velocity, and has validity one.
pub proof fn lemma_first_measurement_spawns<
    N: Fn(Vector2) -> Scalar,
    D: Fn(Point2, Point2) -> Scalar,
    UM: Fn(MultivariateNormalDistribution<4>, Matrix2x4, Column2, Matrix2)
        -> MultivariateNormalDistribution<4>,
    UR: Fn(MultivariateNormalDistribution<2>, Matrix2, Column2, Matrix2)
        -> MultivariateNormalDistribution<2>,
    S: Fn(Scalar, Scalar) -> Scalar,
>(
    detected_position: Point2,
    detection_time: u64,
    parameters: BallFilterParameters,
    norm: N,
    velocity_threshold: Scalar,
    distance: D,
    update_moving: UM,
    update_resting: UR,
    sum: S,
)
    ensures
        ({
            let after = associated(
                Seq::<BallHypothesis>::empty(),
                detected_position,
                detection_time,
                parameters,
                distance,
                update_moving,
                update_resting,
                sum,
            );
            let ball = after[0].chosen(norm, velocity_threshold, detection_time);
            &&& after.len() == 1
            &&& ball.position == detected_position
            &&& ball.velocity == Vector2::zeros()
            &&& after[0].validity == Scalar::one()
            &&& after[0].last_update == detection_time
        }),
{
    lemma_quad(detected_position.x, detected_position.y, Scalar::zero(), Scalar::zero());
    lemma_pair(detected_position.x, detected_position.y);
}

/// A measurement changes the number of hypotheses only by starting one: it
/// starts one exactly where it supports none, and never takes one away.
pub proof fn lemma_association_spawns_iff_unmatched<
    D: Fn(Point2, Point2) -> Scalar,
    UM: Fn(MultivariateNormalDistribution<4>, Matrix2x4, Column2, Matrix2)
        -> MultivariateNormalDistribution<4>,
    UR: Fn(MultivariateNormalDistribution<2>, Matrix2, Column2, Matrix2)
        -> MultivariateNormalDistribution<2>,
    S: Fn(Scalar, Scalar) -> Scalar,
>(
    hypotheses: Seq<BallHypothesis>,
    detected_position: Point2,
    detection_time: u64,
    parameters: BallFilterParameters,
    distance: D,
    update_moving: UM,
    update_resting: UR,
    sum: S,
)
    ensures
        associated(
            hypotheses,
            detected_position,
            detection_time,
            parameters,
            distance,
            update_moving,
            update_resting,
            sum,
        ).len() == if has_match(
            hypotheses,
            detected_position,
            parameters.measurement_matching_distance,
            distance,
        ) {
            hypotheses.len()
        } else {
            hypotheses.len() + 1
        },
{
}

} // verus!
