//! One control cycle.
//!
//! [`BallFilter::run_cycle`] takes the hypotheses through every batch of
//! measurements that arrived since the last cycle, oldest first, each with
//! [`BallFilter::advance_all_hypotheses`], and ends with
//! [`BallFilter::cycle`], which prunes, merges and reports. A cycle without
//! measurements still makes one pass, at the time at which it began.

use vstd::prelude::*;

use crate::filtered_ball::{BallPosition, HypotheticalBallPosition};
use crate::gaussian::{
    Column2, Column4, Matrix2, Matrix2x4, Matrix4, Matrix4x2, MultivariateNormalDistribution,
};
use crate::geometry::{Isometry2, Point2, Vector2};
use crate::hypothesis::BallHypothesis;
use crate::hypothesis_merger::{
    dropped, is_no_later_than, pruned, pruning_is_admissible, pruning_is_known, RemovedHypotheses,
};
use crate::hypothesis_updater::{associated, association_is_admissible, association_is_known};
use crate::numerics::{
    answers, eval, is_deterministic4, is_function, is_function2, is_function5, value,
};
use crate::parameters::{BallFilterParameters, FieldBounds};
use crate::scalar::Scalar;
use crate::{is_sound, BallFilter};

verus! {

/// Why a cycle gave up.
#[derive(Clone, Copy, Debug, PartialEq, Eq, Structural)]
pub enum CycleError {
    /// The arithmetic has left a validity that is no number.
    ValidityIsNotANumber,
}

/// What a cycle reports.
#[derive(Debug)]
pub struct MainOutputs {
    /// The ball, where a hypothesis is trusted enough to be reported.
    pub ball_position: Option<BallPosition>,
    /// Where the hypotheses that were dropped in this cycle had the ball.
    pub removed_ball_positions: Vec<Point2>,
    /// The candidates that are not trusted enough to be reported.
    pub hypothetical_ball_positions: Vec<HypotheticalBallPosition>,
}

/// The balls of the first `n` of `frames`, in order. A frame in which the
/// detection did not run holds `None` and adds nothing.
pub open spec fn balls_of(frames: Seq<Option<Vec<Point2>>>, n: int) -> Seq<Point2>
    decreases n,
{
    if n <= 0 {
        Seq::empty()
    } else {
        balls_of(frames, n - 1) + match frames[n - 1] {
            Some(balls) => balls@,
            None => Seq::empty(),
        }
    }
}

/// The measurements of one point in time: first what the top camera saw,
/// then what the bottom camera saw.
pub open spec fn batch_of(
    top: Seq<Option<Vec<Point2>>>,
    bottom: Seq<Option<Vec<Point2>>>,
) -> Seq<Point2> {
    balls_of(top, top.len() as int) + balls_of(bottom, bottom.len() as int)
}

fn collect_balls(frames: &Vec<Option<Vec<Point2>>>, balls: &mut Vec<Point2>)
    ensures
        final(balls)@ == old(balls)@ + balls_of(frames@, frames@.len() as int),
{
    let mut i: usize = 0;
    while i < frames.len()
        invariant
            i <= frames.len(),
            balls@ == old(balls)@ + balls_of(frames@, i as int),
        decreases frames.len() - i,
    {
        match &frames[i] {
            Some(frame) => {
                let ghost before = balls@;
                let mut j: usize = 0;
                while j < frame.len()
                    invariant
                        j <= frame.len(),
                        balls@ == before + frame@.take(j as int),
                    decreases frame.len() - j,
                {
                    balls.push(frame[j]);
                    assert(frame@.take(j as int + 1) == frame@.take(j as int).push(frame@[j as int]));
                    j = j + 1;
                }
                assert(frame@.take(frame@.len() as int) == frame@);
                assert(balls@ == old(balls)@ + balls_of(frames@, i as int + 1));
            },
            None => {
                assert(balls@ == old(balls)@ + balls_of(frames@, i as int + 1));
            },
        }
        i = i + 1;
    }
}

/// Puts together, for each point in time at which the cameras delivered,
/// what both of them saw. The two lists run in parallel, oldest first; the
/// top camera gives the time. Where one list is longer, its rest is left
/// out.
pub fn persistent_balls_in_control_cycle(
    balls_top: &Vec<(u64, Vec<Option<Vec<Point2>>>)>,
    balls_bottom: &Vec<Vec<Option<Vec<Point2>>>>,
) -> (batches: Vec<(u64, Vec<Point2>)>)
    ensures
        batches@.len() == if balls_top@.len() <= balls_bottom@.len() {
            balls_top@.len()
        } else {
            balls_bottom@.len()
        },
        forall|i: int|
            0 <= i < batches@.len() ==> (#[trigger] batches@[i]).0 == balls_top@[i].0
                && batches@[i].1@ == batch_of(balls_top@[i].1@, balls_bottom@[i]@),
{
    let mut batches: Vec<(u64, Vec<Point2>)> = Vec::new();
    let mut i: usize = 0;
    while i < balls_top.len() && i < balls_bottom.len()
        invariant
            i <= balls_top.len(),
            i <= balls_bottom.len(),
            batches@.len() == i,
            forall|k: int|
                0 <= k < i ==> (#[trigger] batches@[k]).0 == balls_top@[k].0 && batches@[k].1@
                    == batch_of(balls_top@[k].1@, balls_bottom@[k]@),
        decreases balls_top.len() - i,
    {
        let mut balls: Vec<Point2> = Vec::new();
        collect_balls(&balls_top[i].1, &mut balls);
        collect_balls(&balls_bottom[i], &mut balls);
        batches.push((balls_top[i].0, balls));
        i = i + 1;
    }
    batches
}

/// The hypotheses after every one of the first `n` of `balls` has been
/// associated with them, one after the other.
pub open spec fn measured<
    D: Fn(Point2, Point2) -> Scalar,
    UM: Fn(MultivariateNormalDistribution<4>, Matrix2x4, Column2, Matrix2)
        -> MultivariateNormalDistribution<4>,
    UR: Fn(MultivariateNormalDistribution<2>, Matrix2, Column2, Matrix2)
        -> MultivariateNormalDistribution<2>,
    S: Fn(Scalar, Scalar) -> Scalar,
>(
    hypotheses: Seq<BallHypothesis>,
    balls: Seq<Point2>,
    n: int,
    detection_time: u64,
    parameters: BallFilterParameters,
    distance: D,
    update_moving: UM,
    update_resting: UR,
    sum: S,
) -> Seq<BallHypothesis>
    decreases n,
{
    if n <= 0 {
        hypotheses
    } else {
        associated(
            measured(
                hypotheses,
                balls,
                n - 1,
                detection_time,
                parameters,
                distance,
                update_moving,
                update_resting,
                sum,
            ),
            balls[n - 1],
            detection_time,
            parameters,
            distance,
            update_moving,
            update_resting,
            sum,
        )
    }
}

/// All that [`measured`] speaks of has been computed.
pub open spec fn measurement_is_known<
    D: Fn(Point2, Point2) -> Scalar,
    UM: Fn(MultivariateNormalDistribution<4>, Matrix2x4, Column2, Matrix2)
        -> MultivariateNormalDistribution<4>,
    UR: Fn(MultivariateNormalDistribution<2>, Matrix2, Column2, Matrix2)
        -> MultivariateNormalDistribution<2>,
    S: Fn(Scalar, Scalar) -> Scalar,
>(
    hypotheses: Seq<BallHypothesis>,
    balls: Seq<Point2>,
    n: int,
    detection_time: u64,
    parameters: BallFilterParameters,
    distance: D,
    update_moving: UM,
    update_resting: UR,
    sum: S,
) -> bool
    decreases n,
{
    if n <= 0 {
        true
    } else {
        &&& measurement_is_known(
            hypotheses,
            balls,
            n - 1,
            detection_time,
            parameters,
            distance,
            update_moving,
            update_resting,
            sum,
        )
        &&& association_is_known(
            measured(
                hypotheses,
                balls,
                n - 1,
                detection_time,
                parameters,
                distance,
                update_moving,
                update_resting,
                sum,
            ),
            balls[n - 1],
            parameters,
            distance,
            update_moving,
            update_resting,
            sum,
        )
    }
}

/// Every update that [`measured`] makes for the first `n` of `balls` can be
/// made.
pub open spec fn measurement_is_admissible<
    D: Fn(Point2, Point2) -> Scalar,
    UM: Fn(MultivariateNormalDistribution<4>, Matrix2x4, Column2, Matrix2)
        -> MultivariateNormalDistribution<4>,
    UR: Fn(MultivariateNormalDistribution<2>, Matrix2, Column2, Matrix2)
        -> MultivariateNormalDistribution<2>,
    S: Fn(Scalar, Scalar) -> Scalar,
>(
    hypotheses: Seq<BallHypothesis>,
    balls: Seq<Point2>,
    n: int,
    detection_time: u64,
    parameters: BallFilterParameters,
    distance: D,
    update_moving: UM,
    update_resting: UR,
    sum: S,
) -> bool
    decreases n,
{
    if n <= 0 {
        true
    } else {
        &&& measurement_is_admissible(
            hypotheses,
            balls,
            n - 1,
            detection_time,
            parameters,
            distance,
            update_moving,
            update_resting,
            sum,
        )
        &&& association_is_admissible(
            measured(
                hypotheses,
                balls,
                n - 1,
                detection_time,
                parameters,
                distance,
                update_moving,
                update_resting,
                sum,
            ),
            balls[n - 1],
            parameters,
            distance,
            update_moving,
            update_resting,
        )
    }
}

/// The hypotheses after the prediction and the decay of the batch of the
/// time `time`.
pub open spec fn carried_over<
    M: Fn(Matrix4, Matrix4) -> Matrix4,
    KM: Fn(MultivariateNormalDistribution<4>, Matrix4, Matrix4x2, Column2, Matrix4)
        -> MultivariateNormalDistribution<4>,
    KR: Fn(MultivariateNormalDistribution<2>, Matrix2, Matrix2, Column2, Matrix2)
        -> MultivariateNormalDistribution<2>,
    N: Fn(Vector2) -> Scalar,
    PB: Fn(u64, Point2) -> Option<Point2>,
    PT: Fn(u64, Point2) -> Option<Point2>,
    L: Fn(u64, Point2) -> bool,
    P: Fn(Scalar, Scalar) -> Scalar,
>(
    hypotheses: Seq<BallHypothesis>,
    time: u64,
    delta_time: Scalar,
    last_to_current_odometry: Isometry2,
    parameters: BallFilterParameters,
    multiply: M,
    predict_moving: KM,
    predict_resting: KR,
    norm: N,
    project_bottom: PB,
    project_top: PT,
    is_above_limbs: L,
    product: P,
) -> Seq<BallHypothesis>
{
    hypotheses.map_values(
        |h: BallHypothesis|
            h.advanced(
                delta_time,
                last_to_current_odometry,
                parameters,
                multiply,
                predict_moving,
                predict_resting,
                norm,
            ).decayed_by_view(
                time,
                project_bottom,
                project_top,
                is_above_limbs,
                parameters,
                norm,
                product,
            ),
    )
}

/// All that [`carried_over`] speaks of has been computed.
pub open spec fn carrying_over_is_known<
    M: Fn(Matrix4, Matrix4) -> Matrix4,
    KM: Fn(MultivariateNormalDistribution<4>, Matrix4, Matrix4x2, Column2, Matrix4)
        -> MultivariateNormalDistribution<4>,
    KR: Fn(MultivariateNormalDistribution<2>, Matrix2, Matrix2, Column2, Matrix2)
        -> MultivariateNormalDistribution<2>,
    N: Fn(Vector2) -> Scalar,
    PB: Fn(u64, Point2) -> Option<Point2>,
    PT: Fn(u64, Point2) -> Option<Point2>,
    L: Fn(u64, Point2) -> bool,
    P: Fn(Scalar, Scalar) -> Scalar,
>(
    hypotheses: Seq<BallHypothesis>,
    time: u64,
    delta_time: Scalar,
    last_to_current_odometry: Isometry2,
    parameters: BallFilterParameters,
    multiply: M,
    predict_moving: KM,
    predict_resting: KR,
    norm: N,
    project_bottom: PB,
    project_top: PT,
    is_above_limbs: L,
    product: P,
) -> bool
{
    forall|i: int|
        0 <= i < hypotheses.len() ==> {
            &&& (#[trigger] hypotheses[i]).advance_is_known(
                delta_time,
                last_to_current_odometry,
                parameters,
                multiply,
                predict_moving,
                predict_resting,
                norm,
            )
            &&& hypotheses[i].advanced(
                delta_time,
                last_to_current_odometry,
                parameters,
                multiply,
                predict_moving,
                predict_resting,
                norm,
            ).decay_is_known(
                time,
                project_bottom,
                project_top,
                is_above_limbs,
                parameters,
                norm,
                product,
            )
        }
}

/// The hypotheses after the batch of the time `time`: carried over, and
/// every one of `balls` associated with them in turn.
pub open spec fn batch_applied<
    M: Fn(Matrix4, Matrix4) -> Matrix4,
    KM: Fn(MultivariateNormalDistribution<4>, Matrix4, Matrix4x2, Column2, Matrix4)
        -> MultivariateNormalDistribution<4>,
    KR: Fn(MultivariateNormalDistribution<2>, Matrix2, Matrix2, Column2, Matrix2)
        -> MultivariateNormalDistribution<2>,
    N: Fn(Vector2) -> Scalar,
    PB: Fn(u64, Point2) -> Option<Point2>,
    PT: Fn(u64, Point2) -> Option<Point2>,
    L: Fn(u64, Point2) -> bool,
    P: Fn(Scalar, Scalar) -> Scalar,
    D: Fn(Point2, Point2) -> Scalar,
    UM: Fn(MultivariateNormalDistribution<4>, Matrix2x4, Column2, Matrix2)
        -> MultivariateNormalDistribution<4>,
    UR: Fn(MultivariateNormalDistribution<2>, Matrix2, Column2, Matrix2)
        -> MultivariateNormalDistribution<2>,
    S: Fn(Scalar, Scalar) -> Scalar,
>(
    hypotheses: Seq<BallHypothesis>,
    time: u64,
    balls: Seq<Point2>,
    delta_time: Scalar,
    last_to_current_odometry: Isometry2,
    parameters: BallFilterParameters,
    multiply: M,
    predict_moving: KM,
    predict_resting: KR,
    norm: N,
    project_bottom: PB,
    project_top: PT,
    is_above_limbs: L,
    product: P,
    distance: D,
    update_moving: UM,
    update_resting: UR,
    sum: S,
) -> Seq<BallHypothesis>
{
    measured(
        carried_over(
            hypotheses,
            time,
            delta_time,
            last_to_current_odometry,
            parameters,
            multiply,
            predict_moving,
            predict_resting,
            norm,
            project_bottom,
            project_top,
            is_above_limbs,
            product,
        ),
        balls,
        balls.len() as int,
        time,
        parameters,
        distance,
        update_moving,
        update_resting,
        sum,
    )
}

/// All that [`batch_applied`] speaks of has been computed.
pub open spec fn batch_is_known<
    M: Fn(Matrix4, Matrix4) -> Matrix4,
    KM: Fn(MultivariateNormalDistribution<4>, Matrix4, Matrix4x2, Column2, Matrix4)
        -> MultivariateNormalDistribution<4>,
    KR: Fn(MultivariateNormalDistribution<2>, Matrix2, Matrix2, Column2, Matrix2)
        -> MultivariateNormalDistribution<2>,
    N: Fn(Vector2) -> Scalar,
    PB: Fn(u64, Point2) -> Option<Point2>,
    PT: Fn(u64, Point2) -> Option<Point2>,
    L: Fn(u64, Point2) -> bool,
    P: Fn(Scalar, Scalar) -> Scalar,
    D: Fn(Point2, Point2) -> Scalar,
    UM: Fn(MultivariateNormalDistribution<4>, Matrix2x4, Column2, Matrix2)
        -> MultivariateNormalDistribution<4>,
    UR: Fn(MultivariateNormalDistribution<2>, Matrix2, Column2, Matrix2)
        -> MultivariateNormalDistribution<2>,
    S: Fn(Scalar, Scalar) -> Scalar,
>(
    hypotheses: Seq<BallHypothesis>,
    time: u64,
    balls: Seq<Point2>,
    delta_time: Scalar,
    last_to_current_odometry: Isometry2,
    parameters: BallFilterParameters,
    multiply: M,
    predict_moving: KM,
    predict_resting: KR,
    norm: N,
    project_bottom: PB,
    project_top: PT,
    is_above_limbs: L,
    product: P,
    distance: D,
    update_moving: UM,
    update_resting: UR,
    sum: S,
) -> bool
{
    &&& carrying_over_is_known(
        hypotheses,
        time,
        delta_time,
        last_to_current_odometry,
        parameters,
        multiply,
        predict_moving,
        predict_resting,
        norm,
        project_bottom,
        project_top,
        is_above_limbs,
        product,
    )
    &&& measurement_is_known(
        carried_over(
            hypotheses,
            time,
            delta_time,
            last_to_current_odometry,
            parameters,
            multiply,
            predict_moving,
            predict_resting,
            norm,
            project_bottom,
            project_top,
            is_above_limbs,
            product,
        ),
        balls,
        balls.len() as int,
        time,
        parameters,
        distance,
        update_moving,
        update_resting,
        sum,
    )
}

/// Every update that [`batch_applied`] makes can be made.
pub open spec fn batch_is_admissible<
    M: Fn(Matrix4, Matrix4) -> Matrix4,
    KM: Fn(MultivariateNormalDistribution<4>, Matrix4, Matrix4x2, Column2, Matrix4)
        -> MultivariateNormalDistribution<4>,
    KR: Fn(MultivariateNormalDistribution<2>, Matrix2, Matrix2, Column2, Matrix2)
        -> MultivariateNormalDistribution<2>,
    N: Fn(Vector2) -> Scalar,
    PB: Fn(u64, Point2) -> Option<Point2>,
    PT: Fn(u64, Point2) -> Option<Point2>,
    L: Fn(u64, Point2) -> bool,
    P: Fn(Scalar, Scalar) -> Scalar,
    D: Fn(Point2, Point2) -> Scalar,
    UM: Fn(MultivariateNormalDistribution<4>, Matrix2x4, Column2, Matrix2)
        -> MultivariateNormalDistribution<4>,
    UR: Fn(MultivariateNormalDistribution<2>, Matrix2, Column2, Matrix2)
        -> MultivariateNormalDistribution<2>,
    S: Fn(Scalar, Scalar) -> Scalar,
>(
    hypotheses: Seq<BallHypothesis>,
    time: u64,
    balls: Seq<Point2>,
    delta_time: Scalar,
    last_to_current_odometry: Isometry2,
    parameters: BallFilterParameters,
    multiply: M,
    predict_moving: KM,
    predict_resting: KR,
    norm: N,
    project_bottom: PB,
    project_top: PT,
    is_above_limbs: L,
    product: P,
    distance: D,
    update_moving: UM,
    update_resting: UR,
    sum: S,
) -> bool
{
    measurement_is_admissible(
        carried_over(
            hypotheses,
            time,
            delta_time,
            last_to_current_odometry,
            parameters,
            multiply,
            predict_moving,
            predict_resting,
            norm,
            project_bottom,
            project_top,
            is_above_limbs,
            product,
        ),
        balls,
        balls.len() as int,
        time,
        parameters,
        distance,
        update_moving,
        update_resting,
        sum,
    )
}

/// The hypotheses after the first `n` of `batches`, oldest first. The
/// motion of the robot up to a batch is what `odometry_at` gives for its
/// time.
pub open spec fn advanced_through<
    O: Fn(u64) -> Isometry2,
    M: Fn(Matrix4, Matrix4) -> Matrix4,
    KM: Fn(MultivariateNormalDistribution<4>, Matrix4, Matrix4x2, Column2, Matrix4)
        -> MultivariateNormalDistribution<4>,
    KR: Fn(MultivariateNormalDistribution<2>, Matrix2, Matrix2, Column2, Matrix2)
        -> MultivariateNormalDistribution<2>,
    N: Fn(Vector2) -> Scalar,
    PB: Fn(u64, Point2) -> Option<Point2>,
    PT: Fn(u64, Point2) -> Option<Point2>,
    L: Fn(u64, Point2) -> bool,
    P: Fn(Scalar, Scalar) -> Scalar,
    D: Fn(Point2, Point2) -> Scalar,
    UM: Fn(MultivariateNormalDistribution<4>, Matrix2x4, Column2, Matrix2)
        -> MultivariateNormalDistribution<4>,
    UR: Fn(MultivariateNormalDistribution<2>, Matrix2, Column2, Matrix2)
        -> MultivariateNormalDistribution<2>,
    S: Fn(Scalar, Scalar) -> Scalar,
>(
    hypotheses: Seq<BallHypothesis>,
    batches: Seq<(u64, Vec<Point2>)>,
    n: int,
    delta_time: Scalar,
    parameters: BallFilterParameters,
    odometry_at: O,
    multiply: M,
    predict_moving: KM,
    predict_resting: KR,
    norm: N,
    project_bottom: PB,
    project_top: PT,
    is_above_limbs: L,
    product: P,
    distance: D,
    update_moving: UM,
    update_resting: UR,
    sum: S,
) -> Seq<BallHypothesis>
    decreases n,
{
    if n <= 0 {
        hypotheses
    } else {
        batch_applied(
            advanced_through(
                hypotheses,
                batches,
                n - 1,
                delta_time,
                parameters,
                odometry_at,
                multiply,
                predict_moving,
                predict_resting,
                norm,
                project_bottom,
                project_top,
                is_above_limbs,
                product,
                distance,
                update_moving,
                update_resting,
                sum,
            ),
            batches[n - 1].0,
            batches[n - 1].1@,
            delta_time,
            value(odometry_at, batches[n - 1].0),
            parameters,
            multiply,
            predict_moving,
            predict_resting,
            norm,
            project_bottom,
            project_top,
            is_above_limbs,
            product,
            distance,
            update_moving,
            update_resting,
            sum,
        )
    }
}

/// All that [`advanced_through`] speaks of has been computed.
pub open spec fn advancing_is_known<
    O: Fn(u64) -> Isometry2,
    M: Fn(Matrix4, Matrix4) -> Matrix4,
    KM: Fn(MultivariateNormalDistribution<4>, Matrix4, Matrix4x2, Column2, Matrix4)
        -> MultivariateNormalDistribution<4>,
    KR: Fn(MultivariateNormalDistribution<2>, Matrix2, Matrix2, Column2, Matrix2)
        -> MultivariateNormalDistribution<2>,
    N: Fn(Vector2) -> Scalar,
    PB: Fn(u64, Point2) -> Option<Point2>,
    PT: Fn(u64, Point2) -> Option<Point2>,
    L: Fn(u64, Point2) -> bool,
    P: Fn(Scalar, Scalar) -> Scalar,
    D: Fn(Point2, Point2) -> Scalar,
    UM: Fn(MultivariateNormalDistribution<4>, Matrix2x4, Column2, Matrix2)
        -> MultivariateNormalDistribution<4>,
    UR: Fn(MultivariateNormalDistribution<2>, Matrix2, Column2, Matrix2)
        -> MultivariateNormalDistribution<2>,
    S: Fn(Scalar, Scalar) -> Scalar,
>(
    hypotheses: Seq<BallHypothesis>,
    batches: Seq<(u64, Vec<Point2>)>,
    n: int,
    delta_time: Scalar,
    parameters: BallFilterParameters,
    odometry_at: O,
    multiply: M,
    predict_moving: KM,
    predict_resting: KR,
    norm: N,
    project_bottom: PB,
    project_top: PT,
    is_above_limbs: L,
    product: P,
    distance: D,
    update_moving: UM,
    update_resting: UR,
    sum: S,
) -> bool
    decreases n,
{
    if n <= 0 {
        true
    } else {
        &&& advancing_is_known(
            hypotheses,
            batches,
            n - 1,
            delta_time,
            parameters,
            odometry_at,
            multiply,
            predict_moving,
            predict_resting,
            norm,
            project_bottom,
            project_top,
            is_above_limbs,
            product,
            distance,
            update_moving,
            update_resting,
            sum,
        )
        &&& answers(odometry_at, batches[n - 1].0)
        &&& batch_is_known(
            advanced_through(
                hypotheses,
                batches,
                n - 1,
                delta_time,
                parameters,
                odometry_at,
                multiply,
                predict_moving,
                predict_resting,
                norm,
                project_bottom,
                project_top,
                is_above_limbs,
                product,
                distance,
                update_moving,
                update_resting,
                sum,
            ),
            batches[n - 1].0,
            batches[n - 1].1@,
            delta_time,
            value(odometry_at, batches[n - 1].0),
            parameters,
            multiply,
            predict_moving,
            predict_resting,
            norm,
            project_bottom,
            project_top,
            is_above_limbs,
            product,
            distance,
            update_moving,
            update_resting,
            sum,
        )
    }
}

/// Every update that [`advanced_through`] makes can be made.
pub open spec fn advancing_is_admissible<
    O: Fn(u64) -> Isometry2,
    M: Fn(Matrix4, Matrix4) -> Matrix4,
    KM: Fn(MultivariateNormalDistribution<4>, Matrix4, Matrix4x2, Column2, Matrix4)
        -> MultivariateNormalDistribution<4>,
    KR: Fn(MultivariateNormalDistribution<2>, Matrix2, Matrix2, Column2, Matrix2)
        -> MultivariateNormalDistribution<2>,
    N: Fn(Vector2) -> Scalar,
    PB: Fn(u64, Point2) -> Option<Point2>,
    PT: Fn(u64, Point2) -> Option<Point2>,
    L: Fn(u64, Point2) -> bool,
    P: Fn(Scalar, Scalar) -> Scalar,
    D: Fn(Point2, Point2) -> Scalar,
    UM: Fn(MultivariateNormalDistribution<4>, Matrix2x4, Column2, Matrix2)
        -> MultivariateNormalDistribution<4>,
    UR: Fn(MultivariateNormalDistribution<2>, Matrix2, Column2, Matrix2)
        -> MultivariateNormalDistribution<2>,
    S: Fn(Scalar, Scalar) -> Scalar,
>(
    hypotheses: Seq<BallHypothesis>,
    batches: Seq<(u64, Vec<Point2>)>,
    n: int,
    delta_time: Scalar,
    parameters: BallFilterParameters,
    odometry_at: O,
    multiply: M,
    predict_moving: KM,
    predict_resting: KR,
    norm: N,
    project_bottom: PB,
    project_top: PT,
    is_above_limbs: L,
    product: P,
    distance: D,
    update_moving: UM,
    update_resting: UR,
    sum: S,
) -> bool
    decreases n,
{
    if n <= 0 {
        true
    } else {
        &&& advancing_is_admissible(
            hypotheses,
            batches,
            n - 1,
            delta_time,
            parameters,
            odometry_at,
            multiply,
            predict_moving,
            predict_resting,
            norm,
            project_bottom,
            project_top,
            is_above_limbs,
            product,
            distance,
            update_moving,
            update_resting,
            sum,
        )
        &&& batch_is_admissible(
            advanced_through(
                hypotheses,
                batches,
                n - 1,
                delta_time,
                parameters,
                odometry_at,
                multiply,
                predict_moving,
                predict_resting,
                norm,
                project_bottom,
                project_top,
                is_above_limbs,
                product,
                distance,
                update_moving,
                update_resting,
                sum,
            ),
            batches[n - 1].0,
            batches[n - 1].1@,
            delta_time,
            value(odometry_at, batches[n - 1].0),
            parameters,
            multiply,
            predict_moving,
            predict_resting,
            norm,
            project_bottom,
            project_top,
            is_above_limbs,
            product,
            distance,
            update_moving,
            update_resting,
            sum,
        )
    }
}

/// The hypotheses after all passes of a cycle that began at the time `now`:
/// one pass for each of `batches`, or, where there is none, one pass at the
/// time `now` without a measurement.
pub open spec fn after_passes<
    O: Fn(u64) -> Isometry2,
    M: Fn(Matrix4, Matrix4) -> Matrix4,
    KM: Fn(MultivariateNormalDistribution<4>, Matrix4, Matrix4x2, Column2, Matrix4)
        -> MultivariateNormalDistribution<4>,
    KR: Fn(MultivariateNormalDistribution<2>, Matrix2, Matrix2, Column2, Matrix2)
        -> MultivariateNormalDistribution<2>,
    N: Fn(Vector2) -> Scalar,
    PB: Fn(u64, Point2) -> Option<Point2>,
    PT: Fn(u64, Point2) -> Option<Point2>,
    L: Fn(u64, Point2) -> bool,
    P: Fn(Scalar, Scalar) -> Scalar,
    D: Fn(Point2, Point2) -> Scalar,
    UM: Fn(MultivariateNormalDistribution<4>, Matrix2x4, Column2, Matrix2)
        -> MultivariateNormalDistribution<4>,
    UR: Fn(MultivariateNormalDistribution<2>, Matrix2, Column2, Matrix2)
        -> MultivariateNormalDistribution<2>,
    S: Fn(Scalar, Scalar) -> Scalar,
>(
    hypotheses: Seq<BallHypothesis>,
    batches: Seq<(u64, Vec<Point2>)>,
    now: u64,
    delta_time: Scalar,
    parameters: BallFilterParameters,
    odometry_at: O,
    multiply: M,
    predict_moving: KM,
    predict_resting: KR,
    norm: N,
    project_bottom: PB,
    project_top: PT,
    is_above_limbs: L,
    product: P,
    distance: D,
    update_moving: UM,
    update_resting: UR,
    sum: S,
) -> Seq<BallHypothesis>
{
    if batches.len() == 0 {
        batch_applied(
            hypotheses,
            now,
            Seq::empty(),
            delta_time,
            value(odometry_at, now),
            parameters,
            multiply,
            predict_moving,
            predict_resting,
            norm,
            project_bottom,
            project_top,
            is_above_limbs,
            product,
            distance,
            update_moving,
            update_resting,
            sum,
        )
    } else {
        advanced_through(
            hypotheses,
            batches,
            batches.len() as int,
            delta_time,
            parameters,
            odometry_at,
            multiply,
            predict_moving,
            predict_resting,
            norm,
            project_bottom,
            project_top,
            is_above_limbs,
            product,
            distance,
            update_moving,
            update_resting,
            sum,
        )
    }
}

/// All that [`after_passes`] speaks of has been computed.
pub open spec fn passes_are_known<
    O: Fn(u64) -> Isometry2,
    M: Fn(Matrix4, Matrix4) -> Matrix4,
    KM: Fn(MultivariateNormalDistribution<4>, Matrix4, Matrix4x2, Column2, Matrix4)
        -> MultivariateNormalDistribution<4>,
    KR: Fn(MultivariateNormalDistribution<2>, Matrix2, Matrix2, Column2, Matrix2)
        -> MultivariateNormalDistribution<2>,
    N: Fn(Vector2) -> Scalar,
    PB: Fn(u64, Point2) -> Option<Point2>,
    PT: Fn(u64, Point2) -> Option<Point2>,
    L: Fn(u64, Point2) -> bool,
    P: Fn(Scalar, Scalar) -> Scalar,
    D: Fn(Point2, Point2) -> Scalar,
    UM: Fn(MultivariateNormalDistribution<4>, Matrix2x4, Column2, Matrix2)
        -> MultivariateNormalDistribution<4>,
    UR: Fn(MultivariateNormalDistribution<2>, Matrix2, Column2, Matrix2)
        -> MultivariateNormalDistribution<2>,
    S: Fn(Scalar, Scalar) -> Scalar,
>(
    hypotheses: Seq<BallHypothesis>,
    batches: Seq<(u64, Vec<Point2>)>,
    now: u64,
    delta_time: Scalar,
    parameters: BallFilterParameters,
    odometry_at: O,
    multiply: M,
    predict_moving: KM,
    predict_resting: KR,
    norm: N,
    project_bottom: PB,
    project_top: PT,
    is_above_limbs: L,
    product: P,
    distance: D,
    update_moving: UM,
    update_resting: UR,
    sum: S,
) -> bool
{
    if batches.len() == 0 {
        &&& answers(odometry_at, now)
        &&& batch_is_known(
            hypotheses,
            now,
            Seq::empty(),
            delta_time,
            value(odometry_at, now),
            parameters,
            multiply,
            predict_moving,
            predict_resting,
            norm,
            project_bottom,
            project_top,
            is_above_limbs,
            product,
            distance,
            update_moving,
            update_resting,
            sum,
        )
    } else {
        advancing_is_known(
            hypotheses,
            batches,
            batches.len() as int,
            delta_time,
            parameters,
            odometry_at,
            multiply,
            predict_moving,
            predict_resting,
            norm,
            project_bottom,
            project_top,
            is_above_limbs,
            product,
            distance,
            update_moving,
            update_resting,
            sum,
        )
    }
}

/// Every update that [`after_passes`] makes can be made.
pub open spec fn passes_are_admissible<
    O: Fn(u64) -> Isometry2,
    M: Fn(Matrix4, Matrix4) -> Matrix4,
    KM: Fn(MultivariateNormalDistribution<4>, Matrix4, Matrix4x2, Column2, Matrix4)
        -> MultivariateNormalDistribution<4>,
    KR: Fn(MultivariateNormalDistribution<2>, Matrix2, Matrix2, Column2, Matrix2)
        -> MultivariateNormalDistribution<2>,
    N: Fn(Vector2) -> Scalar,
    PB: Fn(u64, Point2) -> Option<Point2>,
    PT: Fn(u64, Point2) -> Option<Point2>,
    L: Fn(u64, Point2) -> bool,
    P: Fn(Scalar, Scalar) -> Scalar,
    D: Fn(Point2, Point2) -> Scalar,
    UM: Fn(MultivariateNormalDistribution<4>, Matrix2x4, Column2, Matrix2)
        -> MultivariateNormalDistribution<4>,
    UR: Fn(MultivariateNormalDistribution<2>, Matrix2, Column2, Matrix2)
        -> MultivariateNormalDistribution<2>,
    S: Fn(Scalar, Scalar) -> Scalar,
>(
    hypotheses: Seq<BallHypothesis>,
    batches: Seq<(u64, Vec<Point2>)>,
    now: u64,
    delta_time: Scalar,
    parameters: BallFilterParameters,
    odometry_at: O,
    multiply: M,
    predict_moving: KM,
    predict_resting: KR,
    norm: N,
    project_bottom: PB,
    project_top: PT,
    is_above_limbs: L,
    product: P,
    distance: D,
    update_moving: UM,
    update_resting: UR,
    sum: S,
) -> bool
{
    if batches.len() == 0 {
        true
    } else {
        advancing_is_admissible(
            hypotheses,
            batches,
            batches.len() as int,
            delta_time,
            parameters,
            odometry_at,
            multiply,
            predict_moving,
            predict_resting,
            norm,
            project_bottom,
            project_top,
            is_above_limbs,
            product,
            distance,
            update_moving,
            update_resting,
            sum,
        )
    }
}

/// The batches are in the order of their times, and none is later than
/// `now`.
pub open spec fn are_in_order(batches: Seq<(u64, Vec<Point2>)>, now: u64) -> bool {
    &&& forall|i: int, j: int|
        0 <= i <= j < batches.len() ==> (#[trigger] batches[i]).0 <= (#[trigger] batches[j]).0
    &&& forall|i: int| 0 <= i < batches.len() ==> (#[trigger] batches[i]).0 <= now
}

/// The time of the first pass of a cycle.
pub open spec fn first_pass(batches: Seq<(u64, Vec<Point2>)>, now: u64) -> u64 {
    if batches.len() == 0 {
        now
    } else {
        batches[0].0
    }
}

/// Where every update for the first `n` balls can be made, so can those
/// for the ball at `k`.
pub proof fn lemma_association_is_admissible<
    D: Fn(Point2, Point2) -> Scalar,
    UM: Fn(MultivariateNormalDistribution<4>, Matrix2x4, Column2, Matrix2)
        -> MultivariateNormalDistribution<4>,
    UR: Fn(MultivariateNormalDistribution<2>, Matrix2, Column2, Matrix2)
        -> MultivariateNormalDistribution<2>,
    S: Fn(Scalar, Scalar) -> Scalar,
>(
    hypotheses: Seq<BallHypothesis>,
    balls: Seq<Point2>,
    n: int,
    k: int,
    detection_time: u64,
    parameters: BallFilterParameters,
    distance: D,
    update_moving: UM,
    update_resting: UR,
    sum: S,
)
    requires
        0 <= k < n,
        measurement_is_admissible(
            hypotheses,
            balls,
            n,
            detection_time,
            parameters,
            distance,
            update_moving,
            update_resting,
            sum,
        ),
    ensures
        association_is_admissible(
            measured(
                hypotheses,
                balls,
                k,
                detection_time,
                parameters,
                distance,
                update_moving,
                update_resting,
                sum,
            ),
            balls[k],
            parameters,
            distance,
            update_moving,
            update_resting,
        ),
    decreases n,
{
    if k < n - 1 {
        lemma_association_is_admissible(
            hypotheses,
            balls,
            n - 1,
            k,
            detection_time,
            parameters,
            distance,
            update_moving,
            update_resting,
            sum,
        );
    }
}

/// Where every update of the first `n` batches can be made, so can those of
/// the batch at `k`.
pub proof fn lemma_batch_is_admissible<
    O: Fn(u64) -> Isometry2,
    M: Fn(Matrix4, Matrix4) -> Matrix4,
    KM: Fn(MultivariateNormalDistribution<4>, Matrix4, Matrix4x2, Column2, Matrix4)
        -> MultivariateNormalDistribution<4>,
    KR: Fn(MultivariateNormalDistribution<2>, Matrix2, Matrix2, Column2, Matrix2)
        -> MultivariateNormalDistribution<2>,
    N: Fn(Vector2) -> Scalar,
    PB: Fn(u64, Point2) -> Option<Point2>,
    PT: Fn(u64, Point2) -> Option<Point2>,
    L: Fn(u64, Point2) -> bool,
    P: Fn(Scalar, Scalar) -> Scalar,
    D: Fn(Point2, Point2) -> Scalar,
    UM: Fn(MultivariateNormalDistribution<4>, Matrix2x4, Column2, Matrix2)
        -> MultivariateNormalDistribution<4>,
    UR: Fn(MultivariateNormalDistribution<2>, Matrix2, Column2, Matrix2)
        -> MultivariateNormalDistribution<2>,
    S: Fn(Scalar, Scalar) -> Scalar,
>(
    hypotheses: Seq<BallHypothesis>,
    batches: Seq<(u64, Vec<Point2>)>,
    n: int,
    k: int,
    delta_time: Scalar,
    parameters: BallFilterParameters,
    odometry_at: O,
    multiply: M,
    predict_moving: KM,
    predict_resting: KR,
    norm: N,
    project_bottom: PB,
    project_top: PT,
    is_above_limbs: L,
    product: P,
    distance: D,
    update_moving: UM,
    update_resting: UR,
    sum: S,
)
    requires
        0 <= k < n,
        advancing_is_admissible(
            hypotheses,
            batches,
            n,
            delta_time,
            parameters,
            odometry_at,
            multiply,
            predict_moving,
            predict_resting,
            norm,
            project_bottom,
            project_top,
            is_above_limbs,
            product,
            distance,
            update_moving,
            update_resting,
            sum,
        ),
    ensures
        batch_is_admissible(
            advanced_through(
                hypotheses,
                batches,
                k,
                delta_time,
                parameters,
                odometry_at,
                multiply,
                predict_moving,
                predict_resting,
                norm,
                project_bottom,
                project_top,
                is_above_limbs,
                product,
                distance,
                update_moving,
                update_resting,
                sum,
            ),
            batches[k].0,
            batches[k].1@,
            delta_time,
            value(odometry_at, batches[k].0),
            parameters,
            multiply,
            predict_moving,
            predict_resting,
            norm,
            project_bottom,
            project_top,
            is_above_limbs,
            product,
            distance,
            update_moving,
            update_resting,
            sum,
        ),
    decreases n,
{
    if k < n - 1 {
        lemma_batch_is_admissible(
            hypotheses,
            batches,
            n - 1,
            k,
            delta_time,
            parameters,
            odometry_at,
            multiply,
            predict_moving,
            predict_resting,
            norm,
            project_bottom,
            project_top,
            is_above_limbs,
            product,
            distance,
            update_moving,
            update_resting,
            sum,
        );
    }
}

/// All that the report of a cycle speaks of has been computed: the speed of
/// the best hypothesis and of every candidate that is not trusted.
pub open spec fn report_is_known<N: Fn(Vector2) -> Scalar>(
    filter: BallFilter,
    parameters: BallFilterParameters,
    norm: N,
) -> bool {
    &&& match filter.best_above(parameters.validity_output_threshold) {
        Some(i) => filter@[i].speed_is_known(norm),
        None => true,
    }
    &&& forall|i: int|
        0 <= i < filter@.len() && (#[trigger] filter@[i]).validity.lt(
            parameters.validity_output_threshold,
        ) ==> filter@[i].speed_is_known(norm)
}

/// The ball that is reported: that of the hypothesis of the highest
/// validity above the output threshold, if there is one.
pub open spec fn reported_ball<N: Fn(Vector2) -> Scalar>(
    filter: BallFilter,
    parameters: BallFilterParameters,
    norm: N,
) -> Option<BallPosition> {
    match filter.best_above(parameters.validity_output_threshold) {
        Some(i) => Some(
            filter@[i].chosen(
                norm,
                parameters.resting_ball_velocity_threshold,
                filter@[i].last_update,
            ),
        ),
        None => None,
    }
}

/// Where the hypotheses that were dropped had the ball, in their order.
pub open spec fn removed_positions<N: Fn(Vector2) -> Scalar>(
    removed: Seq<BallHypothesis>,
    parameters: BallFilterParameters,
    norm: N,
) -> Seq<Point2> {
    removed.map_values(
        |h: BallHypothesis| h.selected_position(norm, parameters.resting_ball_velocity_threshold),
    )
}

/// The candidates whose validity is below the output threshold.
pub open spec fn hypothetical_positions<N: Fn(Vector2) -> Scalar>(
    hypotheses: Seq<BallHypothesis>,
    parameters: BallFilterParameters,
    norm: N,
) -> Seq<HypotheticalBallPosition> {
    hypotheses.filter(
        |h: BallHypothesis| h.validity.lt(parameters.validity_output_threshold),
    ).map_values(|h: BallHypothesis| h.as_hypothetical(norm, parameters))
}

impl BallHypothesis {
    /// The hypothesis as a candidate for diagnostics.
    pub open spec fn as_hypothetical<N: Fn(Vector2) -> Scalar>(
        self,
        norm: N,
        parameters: BallFilterParameters,
    ) -> HypotheticalBallPosition {
        HypotheticalBallPosition {
            position: self.selected_position(norm, parameters.resting_ball_velocity_threshold),
            validity: self.validity,
        }
    }
}

impl BallFilter {
    /// Takes the hypotheses through the measurements of one point in time:
    /// predicts them over `delta_time` seconds, lets them decay, and
    /// associates each of `balls` with them in turn, so that a ball that
    /// supports no hypothesis starts one which the balls after it can
    /// support. Every update that this takes has to be possible.
    pub fn advance_all_hypotheses<
        M: Fn(Matrix4, Matrix4) -> Matrix4,
        KM: Fn(MultivariateNormalDistribution<4>, Matrix4, Matrix4x2, Column2, Matrix4)
            -> MultivariateNormalDistribution<4>,
        KR: Fn(MultivariateNormalDistribution<2>, Matrix2, Matrix2, Column2, Matrix2)
            -> MultivariateNormalDistribution<2>,
        N: Fn(Vector2) -> Scalar,
        PB: Fn(u64, Point2) -> Option<Point2>,
        PT: Fn(u64, Point2) -> Option<Point2>,
        L: Fn(u64, Point2) -> bool,
        P: Fn(Scalar, Scalar) -> Scalar,
        D: Fn(Point2, Point2) -> Scalar,
        UM: Fn(MultivariateNormalDistribution<4>, Matrix2x4, Column2, Matrix2)
            -> MultivariateNormalDistribution<4>,
        UR: Fn(MultivariateNormalDistribution<2>, Matrix2, Column2, Matrix2)
            -> MultivariateNormalDistribution<2>,
        S: Fn(Scalar, Scalar) -> Scalar,
    >(
        &mut self,
        detection_time: u64,
        balls: &Vec<Point2>,
        delta_time: Scalar,
        last_to_current_odometry: Isometry2,
        parameters: &BallFilterParameters,
        multiply: &M,
        predict_moving: &KM,
        predict_resting: &KR,
        norm: &N,
        project_bottom: &PB,
        project_top: &PT,
        is_above_limbs: &L,
        product: &P,
        distance: &D,
        update_moving: &UM,
        update_resting: &UR,
        sum: &S,
    )
        requires
            is_no_later_than(old(self)@, detection_time),
            is_function2(*multiply),
            is_function5(*predict_moving),
            is_function5(*predict_resting),
            is_function(*norm),
            is_function2(*project_bottom),
            is_function2(*project_top),
            is_function2(*is_above_limbs),
            is_function2(*product),
            is_function2(*distance),
            is_deterministic4(*update_moving),
            is_deterministic4(*update_resting),
            is_function2(*sum),
            batch_is_admissible(
                old(self)@,
                detection_time,
                balls@,
                delta_time,
                last_to_current_odometry,
                *parameters,
                *multiply,
                *predict_moving,
                *predict_resting,
                *norm,
                *project_bottom,
                *project_top,
                *is_above_limbs,
                *product,
                *distance,
                *update_moving,
                *update_resting,
                *sum,
            ),
        ensures
            final(self)@ == batch_applied(
                old(self)@,
                detection_time,
                balls@,
                delta_time,
                last_to_current_odometry,
                *parameters,
                *multiply,
                *predict_moving,
                *predict_resting,
                *norm,
                *project_bottom,
                *project_top,
                *is_above_limbs,
                *product,
                *distance,
                *update_moving,
                *update_resting,
                *sum,
            ),
            is_no_later_than(final(self)@, detection_time),
            batch_is_known(
                old(self)@,
                detection_time,
                balls@,
                delta_time,
                last_to_current_odometry,
                *parameters,
                *multiply,
                *predict_moving,
                *predict_resting,
                *norm,
                *project_bottom,
                *project_top,
                *is_above_limbs,
                *product,
                *distance,
                *update_moving,
                *update_resting,
                *sum,
            ),
    {
        self.predict(
            delta_time,
            last_to_current_odometry,
            parameters,
            multiply,
            predict_moving,
            predict_resting,
            norm,
        );
        let ghost predicted = self@;
        self.decay_hypotheses(
            detection_time,
            project_bottom,
            project_top,
            is_above_limbs,
            parameters,
            norm,
            product,
        );
        let ghost start = self@;
        assert forall|i: int| 0 <= i < old(self)@.len() implies (#[trigger] old(self)@[i]).advanced(
            delta_time,
            last_to_current_odometry,
            *parameters,
            *multiply,
            *predict_moving,
            *predict_resting,
            *norm,
        ).decay_is_known(
            detection_time,
            *project_bottom,
            *project_top,
            *is_above_limbs,
            *parameters,
            *norm,
            *product,
        ) by {
            assert(predicted[i].decay_is_known(
                detection_time,
                *project_bottom,
                *project_top,
                *is_above_limbs,
                *parameters,
                *norm,
                *product,
            ));
        }
        assert(start =~= carried_over(
            old(self)@,
            detection_time,
            delta_time,
            last_to_current_odometry,
            *parameters,
            *multiply,
            *predict_moving,
            *predict_resting,
            *norm,
            *project_bottom,
            *project_top,
            *is_above_limbs,
            *product,
        ));
        let mut i: usize = 0;
        while i < balls.len()
            invariant
                i <= balls.len(),
                is_no_later_than(self@, detection_time),
                is_function2(*distance),
                is_deterministic4(*update_moving),
                is_deterministic4(*update_resting),
                is_function2(*sum),
                measurement_is_admissible(
                    start,
                    balls@,
                    balls@.len() as int,
                    detection_time,
                    *parameters,
                    *distance,
                    *update_moving,
                    *update_resting,
                    *sum,
                ),
                self@ == measured(
                    start,
                    balls@,
                    i as int,
                    detection_time,
                    *parameters,
                    *distance,
                    *update_moving,
                    *update_resting,
                    *sum,
                ),
                measurement_is_known(
                    start,
                    balls@,
                    i as int,
                    detection_time,
                    *parameters,
                    *distance,
                    *update_moving,
                    *update_resting,
                    *sum,
                ),
            decreases balls.len() - i,
        {
            proof {
                lemma_association_is_admissible(
                    start,
                    balls@,
                    balls@.len() as int,
                    i as int,
                    detection_time,
                    *parameters,
                    *distance,
                    *update_moving,
                    *update_resting,
                    *sum,
                );
            }
            self.update_hypotheses_with_measurement(
                balls[i],
                detection_time,
                parameters,
                distance,
                update_moving,
                update_resting,
                sum,
            );
            i = i + 1;
        }
    }

    /// Where the hypotheses that were dropped had the ball.
    pub fn removed_ball_positions<N: Fn(Vector2) -> Scalar>(
        removed: &RemovedHypotheses,
        parameters: &BallFilterParameters,
        norm: &N,
    ) -> (positions: Vec<Point2>)
        requires
            is_function(*norm),
        ensures
            positions@ == removed_positions(removed.0@, *parameters, *norm),
            forall|i: int|
                0 <= i < removed.0@.len() ==> (#[trigger] removed.0@[i]).speed_is_known(*norm),
    {
        let ghost place = |h: BallHypothesis|
            h.selected_position(*norm, parameters.resting_ball_velocity_threshold);
        let mut positions: Vec<Point2> = Vec::new();
        let mut i: usize = 0;
        while i < removed.0.len()
            invariant
                i <= removed.0.len(),
                is_function(*norm),
                place == |h: BallHypothesis|
                    h.selected_position(*norm, parameters.resting_ball_velocity_threshold),
                positions@ == removed.0@.take(i as int).map_values(place),
                forall|j: int| 0 <= j < i ==> (#[trigger] removed.0@[j]).speed_is_known(*norm),
            decreases removed.0.len() - i,
        {
            positions.push(
                removed.0[i].selected_ball_position(
                    norm,
                    parameters.resting_ball_velocity_threshold,
                ).position,
            );
            assert(positions@ =~= removed.0@.take(i as int + 1).map_values(place));
            i = i + 1;
        }
        proof {
            assert(removed.0@.take(removed.0@.len() as int) == removed.0@);
        }
        positions
    }

    /// The candidates that are followed but not trusted enough to be
    /// reported as the ball.
    pub fn hypothetical_ball_positions<N: Fn(Vector2) -> Scalar>(
        &self,
        parameters: &BallFilterParameters,
        norm: &N,
    ) -> (positions: Vec<HypotheticalBallPosition>)
        requires
            is_function(*norm),
        ensures
            positions@ == hypothetical_positions(self@, *parameters, *norm),
            forall|i: int|
                0 <= i < self@.len() && (#[trigger] self@[i]).validity.lt(
                    parameters.validity_output_threshold,
                ) ==> self@[i].speed_is_known(*norm),
    {
        let ghost doubted = |h: BallHypothesis| h.validity.lt(parameters.validity_output_threshold);
        let ghost place = |h: BallHypothesis| h.as_hypothetical(*norm, *parameters);
        let mut positions: Vec<HypotheticalBallPosition> = Vec::new();
        let mut i: usize = 0;
        while i < self.hypotheses.len()
            invariant
                i <= self.hypotheses.len(),
                is_function(*norm),
                doubted == |h: BallHypothesis| h.validity.lt(parameters.validity_output_threshold),
                place == |h: BallHypothesis| h.as_hypothetical(*norm, *parameters),
                positions@ == self@.take(i as int).filter(doubted).map_values(place),
                forall|j: int|
                    0 <= j < i && (#[trigger] self@[j]).validity.lt(
                        parameters.validity_output_threshold,
                    ) ==> self@[j].speed_is_known(*norm),
            decreases self.hypotheses.len() - i,
        {
            let hypothesis = self.hypotheses[i];
            proof {
                assert(self@.take(i as int + 1).drop_last() == self@.take(i as int));
                reveal(Seq::filter);
            }
            if hypothesis.validity.lt(parameters.validity_output_threshold) {
                positions.push(
                    HypotheticalBallPosition {
                        position: hypothesis.selected_ball_position(
                            norm,
                            parameters.resting_ball_velocity_threshold,
                        ).position,
                        validity: hypothesis.validity,
                    },
                );
                assert(positions@ =~= self@.take(i as int + 1).filter(doubted).map_values(place));
            }
            i = i + 1;
        }
        proof {
            assert(self@.take(self@.len() as int) == self@);
        }
        positions
    }

    /// Ends a cycle at the time `now`: prunes and merges the hypotheses,
    /// and reports the ball of the best hypothesis that is left, where
    /// every hypothesis that was dropped had the ball, and the candidates
    /// that are not trusted yet. A hypothesis that has timed out is dropped
    /// and reported whatever its validity.
    pub fn cycle<
        N: Fn(Vector2) -> Scalar,
        D: Fn(Point2, Point2) -> Scalar,
        FM: Fn(MultivariateNormalDistribution<4>, Matrix4, Column4, Matrix4)
            -> MultivariateNormalDistribution<4>,
        FR: Fn(MultivariateNormalDistribution<2>, Matrix2, Column2, Matrix2)
            -> MultivariateNormalDistribution<2>,
    >(
        &mut self,
        now: u64,
        parameters: &BallFilterParameters,
        field: &FieldBounds,
        norm: &N,
        distance: &D,
        fuse_moving: &FM,
        fuse_resting: &FR,
    ) -> (outputs: MainOutputs)
        requires
            is_no_later_than(old(self)@, now),
            is_sound(old(self)@),
            is_function(*norm),
            is_function2(*distance),
            is_deterministic4(*fuse_moving),
            is_deterministic4(*fuse_resting),
            pruning_is_admissible(
                old(self)@,
                now,
                *parameters,
                *field,
                *norm,
                *distance,
                *fuse_moving,
                *fuse_resting,
            ),
        ensures
            final(self)@ == pruned(
                old(self)@,
                now,
                *parameters,
                *field,
                *norm,
                *distance,
                *fuse_moving,
                *fuse_resting,
            ),
            outputs.ball_position == reported_ball(*final(self), *parameters, *norm),
            outputs.removed_ball_positions@ == removed_positions(
                dropped(old(self)@, now, *parameters, *field, *norm),
                *parameters,
                *norm,
            ),
            outputs.hypothetical_ball_positions@ == hypothetical_positions(
                final(self)@,
                *parameters,
                *norm,
            ),
            pruning_is_known(
                old(self)@,
                now,
                *parameters,
                *field,
                *norm,
                *distance,
                *fuse_moving,
                *fuse_resting,
            ),
            report_is_known(*final(self), *parameters, *norm),
            forall|i: int|
                0 <= i < old(self)@.len() && now - (#[trigger] old(self)@[i]).last_update
                    >= parameters.hypothesis_timeout ==> outputs.removed_ball_positions@.contains(
                    old(self)@[i].selected_position(
                        *norm,
                        parameters.resting_ball_velocity_threshold,
                    ),
                ),
            forall|k: int|
                0 <= k < final(self)@.len() ==> now - (#[trigger] final(self)@[k]).last_update
                    < parameters.hypothesis_timeout
                    && parameters.validity_discard_threshold.lt(final(self)@[k].validity),
            is_sound(final(self)@),
            is_no_later_than(final(self)@, now),
    {
        let removed = self.remove_hypotheses(
            now,
            parameters,
            field,
            norm,
            distance,
            fuse_moving,
            fuse_resting,
        );
        let ball_position = match self.find_best_hypothesis(parameters.validity_output_threshold) {
            Some(hypothesis) => Some(
                hypothesis.selected_ball_position(norm, parameters.resting_ball_velocity_threshold),
            ),
            None => None,
        };
        let removed_ball_positions = BallFilter::removed_ball_positions(&removed, parameters, norm);
        proof {
            assert forall|i: int|
                0 <= i < old(self)@.len() && now - (#[trigger] old(self)@[i]).last_update
                    >= parameters.hypothesis_timeout implies removed_ball_positions@.contains(
                old(self)@[i].selected_position(*norm, parameters.resting_ball_velocity_threshold),
            ) by {
                let j = choose|j: int| 0 <= j < removed.0@.len() && removed.0@[j] == old(self)@[i];
                assert(removed_ball_positions@[j] == old(self)@[i].selected_position(
                    *norm,
                    parameters.resting_ball_velocity_threshold,
                ));
            }
        }
        MainOutputs {
            ball_position,
            removed_ball_positions,
            hypothetical_ball_positions: self.hypothetical_ball_positions(parameters, norm),
        }
    }

    /// Runs one cycle that began at the time `now`. The hypotheses are taken
    /// through each of `batches`, oldest first, as
    /// [`BallFilter::advance_all_hypotheses`] does, with the motion of the
    /// robot and the view of the cameras of the time of the batch; where
    /// there is no batch, they are taken through one pass at the time `now`
    /// without a measurement. Then they are pruned and merged, and the
    /// cycle reports, as [`BallFilter::cycle`] does.
    ///
    /// The cycle gives up after the passes where they have left a validity
    /// that is no number, and leaves the hypotheses as the passes left
    /// them.
    ///
    /// `delta_time` is the time in seconds that a pass advances the
    /// hypotheses by. `odometry_at` gives the motion of the robot that
    /// takes the ground frame before a time to the ground frame at it. The
    /// update step for the resting belief also fuses resting beliefs.
    pub fn run_cycle<
        O: Fn(u64) -> Isometry2,
        M: Fn(Matrix4, Matrix4) -> Matrix4,
        KM: Fn(MultivariateNormalDistribution<4>, Matrix4, Matrix4x2, Column2, Matrix4)
            -> MultivariateNormalDistribution<4>,
        KR: Fn(MultivariateNormalDistribution<2>, Matrix2, Matrix2, Column2, Matrix2)
            -> MultivariateNormalDistribution<2>,
        N: Fn(Vector2) -> Scalar,
        PB: Fn(u64, Point2) -> Option<Point2>,
        PT: Fn(u64, Point2) -> Option<Point2>,
        L: Fn(u64, Point2) -> bool,
        P: Fn(Scalar, Scalar) -> Scalar,
        D: Fn(Point2, Point2) -> Scalar,
        UM: Fn(MultivariateNormalDistribution<4>, Matrix2x4, Column2, Matrix2)
            -> MultivariateNormalDistribution<4>,
        UR: Fn(MultivariateNormalDistribution<2>, Matrix2, Column2, Matrix2)
            -> MultivariateNormalDistribution<2>,
        S: Fn(Scalar, Scalar) -> Scalar,
        FM: Fn(MultivariateNormalDistribution<4>, Matrix4, Column4, Matrix4)
            -> MultivariateNormalDistribution<4>,
    >(
        &mut self,
        now: u64,
        batches: &Vec<(u64, Vec<Point2>)>,
        delta_time: Scalar,
        parameters: &BallFilterParameters,
        field: &FieldBounds,
        odometry_at: &O,
        multiply: &M,
        predict_moving: &KM,
        predict_resting: &KR,
        norm: &N,
        project_bottom: &PB,
        project_top: &PT,
        is_above_limbs: &L,
        product: &P,
        distance: &D,
        update_moving: &UM,
        update_resting: &UR,
        sum: &S,
        fuse_moving: &FM,
    ) -> (outputs: Result<MainOutputs, CycleError>)
        requires
            are_in_order(batches@, now),
            is_no_later_than(old(self)@, first_pass(batches@, now)),
            is_function(*odometry_at),
            is_function2(*multiply),
            is_function5(*predict_moving),
            is_function5(*predict_resting),
            is_function(*norm),
            is_function2(*project_bottom),
            is_function2(*project_top),
            is_function2(*is_above_limbs),
            is_function2(*product),
            is_function2(*distance),
            is_deterministic4(*update_moving),
            is_deterministic4(*update_resting),
            is_function2(*sum),
            is_deterministic4(*fuse_moving),
            passes_are_admissible(
                old(self)@,
                batches@,
                now,
                delta_time,
                *parameters,
                *odometry_at,
                *multiply,
                *predict_moving,
                *predict_resting,
                *norm,
                *project_bottom,
                *project_top,
                *is_above_limbs,
                *product,
                *distance,
                *update_moving,
                *update_resting,
                *sum,
            ),
            is_sound(
                after_passes(
                    old(self)@,
                    batches@,
                    now,
                    delta_time,
                    *parameters,
                    *odometry_at,
                    *multiply,
                    *predict_moving,
                    *predict_resting,
                    *norm,
                    *project_bottom,
                    *project_top,
                    *is_above_limbs,
                    *product,
                    *distance,
                    *update_moving,
                    *update_resting,
                    *sum,
                ),
            ) ==> pruning_is_admissible(
                after_passes(
                    old(self)@,
                    batches@,
                    now,
                    delta_time,
                    *parameters,
                    *odometry_at,
                    *multiply,
                    *predict_moving,
                    *predict_resting,
                    *norm,
                    *project_bottom,
                    *project_top,
                    *is_above_limbs,
                    *product,
                    *distance,
                    *update_moving,
                    *update_resting,
                    *sum,
                ),
                now,
                *parameters,
                *field,
                *norm,
                *distance,
                *fuse_moving,
                *update_resting,
            ),
        ensures
            passes_are_known(
                old(self)@,
                batches@,
                now,
                delta_time,
                *parameters,
                *odometry_at,
                *multiply,
                *predict_moving,
                *predict_resting,
                *norm,
                *project_bottom,
                *project_top,
                *is_above_limbs,
                *product,
                *distance,
                *update_moving,
                *update_resting,
                *sum,
            ),
            match outputs {
                Ok(report) => {
                    &&& is_sound(
                        after_passes(
                            old(self)@,
                            batches@,
                            now,
                            delta_time,
                            *parameters,
                            *odometry_at,
                            *multiply,
                            *predict_moving,
                            *predict_resting,
                            *norm,
                            *project_bottom,
                            *project_top,
                            *is_above_limbs,
                            *product,
                            *distance,
                            *update_moving,
                            *update_resting,
                            *sum,
                        ),
                    )
                    &&& final(self)@ == pruned(
                            after_passes(
                                old(self)@,
                                batches@,
                                now,
                                delta_time,
                                *parameters,
                                *odometry_at,
                                *multiply,
                                *predict_moving,
                                *predict_resting,
                                *norm,
                                *project_bottom,
                                *project_top,
                                *is_above_limbs,
                                *product,
                                *distance,
                                *update_moving,
                                *update_resting,
                                *sum,
                            ),
                            now,
                            *parameters,
                            *field,
                            *norm,
                            *distance,
                            *fuse_moving,
                            *update_resting,
                        )
                    &&& report.ball_position == reported_ball(*final(self), *parameters, *norm)
                    &&& report.removed_ball_positions@ == removed_positions(
                        dropped(
                            after_passes(
                                old(self)@,
                                batches@,
                                now,
                                delta_time,
                                *parameters,
                                *odometry_at,
                                *multiply,
                                *predict_moving,
                                *predict_resting,
                                *norm,
                                *project_bottom,
                                *project_top,
                                *is_above_limbs,
                                *product,
                                *distance,
                                *update_moving,
                                *update_resting,
                                *sum,
                            ),
                            now,
                            *parameters,
                            *field,
                            *norm,
                        ),
                        *parameters,
                        *norm,
                    )
                    &&& report.hypothetical_ball_positions@ == hypothetical_positions(
                        final(self)@,
                        *parameters,
                        *norm,
                    )
                    &&& pruning_is_known(
                        after_passes(
                                old(self)@,
                                batches@,
                                now,
                                delta_time,
                                *parameters,
                                *odometry_at,
                                *multiply,
                                *predict_moving,
                                *predict_resting,
                                *norm,
                                *project_bottom,
                                *project_top,
                                *is_above_limbs,
                                *product,
                                *distance,
                                *update_moving,
                                *update_resting,
                                *sum,
                            ),
                        now,
                        *parameters,
                        *field,
                        *norm,
                        *distance,
                        *fuse_moving,
                        *update_resting,
                    )
                    &&& report_is_known(*final(self), *parameters, *norm)
                    &&& is_no_later_than(final(self)@, now)
                },
                Err(error) => {
                    &&& !is_sound(
                        after_passes(
                            old(self)@,
                            batches@,
                            now,
                            delta_time,
                            *parameters,
                            *odometry_at,
                            *multiply,
                            *predict_moving,
                            *predict_resting,
                            *norm,
                            *project_bottom,
                            *project_top,
                            *is_above_limbs,
                            *product,
                            *distance,
                            *update_moving,
                            *update_resting,
                            *sum,
                        ),
                    )
                    &&& final(self)@ == after_passes(
                        old(self)@,
                        batches@,
                        now,
                        delta_time,
                        *parameters,
                        *odometry_at,
                        *multiply,
                        *predict_moving,
                        *predict_resting,
                        *norm,
                        *project_bottom,
                        *project_top,
                        *is_above_limbs,
                        *product,
                        *distance,
                        *update_moving,
                        *update_resting,
                        *sum,
                    )
                },
            },
    {
        let ghost start = self@;
        if batches.len() == 0 {
            let odometry = eval(odometry_at, now);
            let none: Vec<Point2> = Vec::new();
            assert(none@ =~= Seq::<Point2>::empty());
            assert(batch_is_admissible(
                start,
                now,
                none@,
                delta_time,
                odometry,
                *parameters,
                *multiply,
                *predict_moving,
                *predict_resting,
                *norm,
                *project_bottom,
                *project_top,
                *is_above_limbs,
                *product,
                *distance,
                *update_moving,
                *update_resting,
                *sum,
            ));
            self.advance_all_hypotheses(
                now,
                &none,
                delta_time,
                odometry,
                parameters,
                multiply,
                predict_moving,
                predict_resting,
                norm,
                project_bottom,
                project_top,
                is_above_limbs,
                product,
                distance,
                update_moving,
                update_resting,
                sum,
            );
        } else {
            let mut i: usize = 0;
            while i < batches.len()
                invariant
                    i <= batches.len(),
                    are_in_order(batches@, now),
                    is_function(*odometry_at),
                    is_function2(*multiply),
                    is_function5(*predict_moving),
                    is_function5(*predict_resting),
                    is_function(*norm),
                    is_function2(*project_bottom),
                    is_function2(*project_top),
                    is_function2(*is_above_limbs),
                    is_function2(*product),
                    is_function2(*distance),
                    is_deterministic4(*update_moving),
                    is_deterministic4(*update_resting),
                    is_function2(*sum),
                    advancing_is_admissible(
                        start,
                        batches@,
                        batches@.len() as int,
                        delta_time,
                        *parameters,
                        *odometry_at,
                        *multiply,
                        *predict_moving,
                        *predict_resting,
                        *norm,
                        *project_bottom,
                        *project_top,
                        *is_above_limbs,
                        *product,
                        *distance,
                        *update_moving,
                        *update_resting,
                        *sum,
                    ),
                    self@ == advanced_through(
                        start,
                        batches@,
                        i as int,
                        delta_time,
                        *parameters,
                        *odometry_at,
                        *multiply,
                        *predict_moving,
                        *predict_resting,
                        *norm,
                        *project_bottom,
                        *project_top,
                        *is_above_limbs,
                        *product,
                        *distance,
                        *update_moving,
                        *update_resting,
                        *sum,
                    ),
                    advancing_is_known(
                        start,
                        batches@,
                        i as int,
                        delta_time,
                        *parameters,
                        *odometry_at,
                        *multiply,
                        *predict_moving,
                        *predict_resting,
                        *norm,
                        *project_bottom,
                        *project_top,
                        *is_above_limbs,
                        *product,
                        *distance,
                        *update_moving,
                        *update_resting,
                        *sum,
                    ),
                    i < batches.len() ==> is_no_later_than(self@, batches@[i as int].0),
                    is_no_later_than(self@, now),
                decreases batches.len() - i,
            {
                let time: u64 = batches[i].0;
                let odometry = eval(odometry_at, time);
                proof {
                    lemma_batch_is_admissible(
                        start,
                        batches@,
                        batches@.len() as int,
                        i as int,
                        delta_time,
                        *parameters,
                        *odometry_at,
                        *multiply,
                        *predict_moving,
                        *predict_resting,
                        *norm,
                        *project_bottom,
                        *project_top,
                        *is_above_limbs,
                        *product,
                        *distance,
                        *update_moving,
                        *update_resting,
                        *sum,
                    );
                }
                self.advance_all_hypotheses(
                    time,
                    &batches[i].1,
                    delta_time,
                    odometry,
                    parameters,
                    multiply,
                    predict_moving,
                    predict_resting,
                    norm,
                    project_bottom,
                    project_top,
                    is_above_limbs,
                    product,
                    distance,
                    update_moving,
                    update_resting,
                    sum,
                );
                i = i + 1;
            }
        }
        if !self.is_sound() {
            return Err(CycleError::ValidityIsNotANumber);
        }
        Ok(self.cycle(now, parameters, field, norm, distance, fuse_moving, update_resting))
    }
}

} // verus!
