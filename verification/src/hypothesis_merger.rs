//! Pruning and merging.
//!
//! At the end of a cycle the hypotheses are split into those that are kept
//! and those that are dropped. Among those kept, hypotheses that have come
//! to lie close together are taken for the same ball and folded into one.

use vstd::prelude::*;

use crate::gaussian::{Column2, Column4, Matrix2, Matrix4, MultivariateNormalDistribution};
use crate::geometry::{Point2, Vector2};
use crate::hypothesis::BallHypothesis;
use crate::numerics::{answers2, eval2, is_function, is_function2, is_deterministic4, value2};
use crate::parameters::{BallFilterParameters, FieldBounds};
use crate::scalar::{lemma_abs_is_within, Scalar};
use crate::{is_sound, BallFilter};

verus! {

/// The hypotheses that were dropped, for the caller to report.
#[derive(Debug)]
pub struct RemovedHypotheses(pub Vec<BallHypothesis>);

/// The hypotheses that passed the pruning and wait to be merged.
#[derive(Debug)]
pub struct ValidHypotheses(pub Vec<BallHypothesis>);

impl RemovedHypotheses {
    pub fn inner(self) -> (hypotheses: Vec<BallHypothesis>)
        ensures
            hypotheses == self.0,
    {
        self.0
    }
}

impl FieldBounds {
    /// The position lies strictly inside the bounds on both axes.
    pub open spec fn spec_contains(&self, position: Point2) -> bool {
        position.x.abs().lt(self.half_length) && position.y.abs().lt(self.half_width)
    }

    /// Whether the position lies strictly inside the bounds on both axes.
    #[verifier::when_used_as_spec(spec_contains)]
    pub fn contains(&self, position: Point2) -> (inside: bool)
        ensures
            inside == self.spec_contains(position),
    {
        position.x.abs().lt(self.half_length) && position.y.abs().lt(self.half_width)
    }
}

impl BallHypothesis {
    /// The hypothesis is kept at the time `now`: it was supported less than
    /// the timeout ago, its validity is above the discard threshold, and it
    /// puts the ball inside the field.
    pub open spec fn is_retained<N: Fn(Vector2) -> Scalar>(
        self,
        now: u64,
        parameters: BallFilterParameters,
        field: FieldBounds,
        norm: N,
    ) -> bool {
        &&& now - self.last_update < parameters.hypothesis_timeout
        &&& parameters.validity_discard_threshold.lt(self.validity)
        &&& field.contains(
            self.selected_position(norm, parameters.resting_ball_velocity_threshold),
        )
    }

    /// The two hypotheses put the ball less than the merge distance apart.
    pub open spec fn is_close_to<N: Fn(Vector2) -> Scalar, D: Fn(Point2, Point2) -> Scalar>(
        self,
        other: BallHypothesis,
        parameters: BallFilterParameters,
        norm: N,
        distance: D,
    ) -> bool {
        value2(
            distance,
            self.selected_position(norm, parameters.resting_ball_velocity_threshold),
            other.selected_position(norm, parameters.resting_ball_velocity_threshold),
        ).lt(parameters.hypothesis_merge_distance)
    }

    /// All that [`BallHypothesis::is_close_to`] speaks of has been computed.
    pub open spec fn closeness_is_known<N: Fn(Vector2) -> Scalar, D: Fn(Point2, Point2) -> Scalar>(
        self,
        other: BallHypothesis,
        parameters: BallFilterParameters,
        norm: N,
        distance: D,
    ) -> bool {
        &&& self.speed_is_known(norm)
        &&& other.speed_is_known(norm)
        &&& answers2(
            distance,
            self.selected_position(norm, parameters.resting_ball_velocity_threshold),
            other.selected_position(norm, parameters.resting_ball_velocity_threshold),
        )
    }
}

/// The index of the first hypothesis at or after `from` in `kept` that is
/// close to `candidate`; the length of `kept` where there is none.
pub open spec fn first_close<N: Fn(Vector2) -> Scalar, D: Fn(Point2, Point2) -> Scalar>(
    kept: Seq<BallHypothesis>,
    candidate: BallHypothesis,
    from: int,
    parameters: BallFilterParameters,
    norm: N,
    distance: D,
) -> int
    decreases kept.len() - from,
{
    if from < 0 || from >= kept.len() {
        kept.len() as int
    } else if kept[from].is_close_to(candidate, parameters, norm, distance) {
        from
    } else {
        first_close(kept, candidate, from + 1, parameters, norm, distance)
    }
}

/// `kept` after `candidate` has been dealt with: folded into the first
/// hypothesis that it is close to, or appended where it is close to none.
pub open spec fn absorbed<
    N: Fn(Vector2) -> Scalar,
    D: Fn(Point2, Point2) -> Scalar,
    FM: Fn(MultivariateNormalDistribution<4>, Matrix4, Column4, Matrix4)
    -> MultivariateNormalDistribution<4>,
    FR: Fn(MultivariateNormalDistribution<2>, Matrix2, Column2, Matrix2)
    -> MultivariateNormalDistribution<2>,
>(
    kept: Seq<BallHypothesis>,
    candidate: BallHypothesis,
    parameters: BallFilterParameters,
    norm: N,
    distance: D,
    fuse_moving: FM,
    fuse_resting: FR,
) -> Seq<BallHypothesis> {
    let target = first_close(kept, candidate, 0, parameters, norm, distance);
    if target < kept.len() {
        kept.update(target, kept[target].merged(candidate, fuse_moving, fuse_resting))
    } else {
        kept.push(candidate)
    }
}

/// The first `n` of `valid` with all that are the same ball folded together,
/// taken in order.
pub open spec fn deduplicated<
    N: Fn(Vector2) -> Scalar,
    D: Fn(Point2, Point2) -> Scalar,
    FM: Fn(MultivariateNormalDistribution<4>, Matrix4, Column4, Matrix4)
    -> MultivariateNormalDistribution<4>,
    FR: Fn(MultivariateNormalDistribution<2>, Matrix2, Column2, Matrix2)
    -> MultivariateNormalDistribution<2>,
>(
    valid: Seq<BallHypothesis>,
    n: int,
    parameters: BallFilterParameters,
    norm: N,
    distance: D,
    fuse_moving: FM,
    fuse_resting: FR,
) -> Seq<BallHypothesis>
    decreases n,
{
    if n <= 0 {
        Seq::empty()
    } else {
        absorbed(
            deduplicated(valid, n - 1, parameters, norm, distance, fuse_moving, fuse_resting),
            valid[n - 1],
            parameters,
            norm,
            distance,
            fuse_moving,
            fuse_resting,
        )
    }
}

/// Those of `hypotheses` that are kept at the time `now`, in order.
pub open spec fn retained<N: Fn(Vector2) -> Scalar>(
    hypotheses: Seq<BallHypothesis>,
    now: u64,
    parameters: BallFilterParameters,
    field: FieldBounds,
    norm: N,
) -> Seq<BallHypothesis> {
    hypotheses.filter(|h: BallHypothesis| h.is_retained(now, parameters, field, norm))
}

/// Those of `hypotheses` that are dropped at the time `now`, in order.
pub open spec fn dropped<N: Fn(Vector2) -> Scalar>(
    hypotheses: Seq<BallHypothesis>,
    now: u64,
    parameters: BallFilterParameters,
    field: FieldBounds,
    norm: N,
) -> Seq<BallHypothesis> {
    hypotheses.filter(|h: BallHypothesis| !h.is_retained(now, parameters, field, norm))
}

/// What is left of `hypotheses` after pruning and merging at the time `now`.
pub open spec fn pruned<
    N: Fn(Vector2) -> Scalar,
    D: Fn(Point2, Point2) -> Scalar,
    FM: Fn(MultivariateNormalDistribution<4>, Matrix4, Column4, Matrix4)
    -> MultivariateNormalDistribution<4>,
    FR: Fn(MultivariateNormalDistribution<2>, Matrix2, Column2, Matrix2)
    -> MultivariateNormalDistribution<2>,
>(
    hypotheses: Seq<BallHypothesis>,
    now: u64,
    parameters: BallFilterParameters,
    field: FieldBounds,
    norm: N,
    distance: D,
    fuse_moving: FM,
    fuse_resting: FR,
) -> Seq<BallHypothesis> {
    let valid = retained(hypotheses, now, parameters, field, norm);
    deduplicated(valid, valid.len() as int, parameters, norm, distance, fuse_moving, fuse_resting)
}

/// None of `hypotheses` was supported later than `now`.
pub open spec fn is_no_later_than(hypotheses: Seq<BallHypothesis>, now: u64) -> bool {
    forall|i: int| 0 <= i < hypotheses.len() ==> (#[trigger] hypotheses[i]).last_update <= now
}

/// The speed of every one of `hypotheses` has been computed.
pub open spec fn speeds_are_known<N: Fn(Vector2) -> Scalar>(
    hypotheses: Seq<BallHypothesis>,
    norm: N,
) -> bool {
    forall|i: int| 0 <= i < hypotheses.len() ==> (#[trigger] hypotheses[i]).speed_is_known(norm)
}

/// The candidate can be dealt with: where it is folded into a hypothesis,
/// the two can be fused.
pub open spec fn absorption_is_admissible<
    N: Fn(Vector2) -> Scalar,
    D: Fn(Point2, Point2) -> Scalar,
    FM: Fn(MultivariateNormalDistribution<4>, Matrix4, Column4, Matrix4)
        -> MultivariateNormalDistribution<4>,
    FR: Fn(MultivariateNormalDistribution<2>, Matrix2, Column2, Matrix2)
        -> MultivariateNormalDistribution<2>,
>(
    kept: Seq<BallHypothesis>,
    candidate: BallHypothesis,
    parameters: BallFilterParameters,
    norm: N,
    distance: D,
    fuse_moving: FM,
    fuse_resting: FR,
) -> bool {
    let target = first_close(kept, candidate, 0, parameters, norm, distance);
    target < kept.len() ==> kept[target].merge_is_admissible(candidate, fuse_moving, fuse_resting)
}

/// Every fusion that [`deduplicated`] makes of the first `n` of `valid` can
/// be made.
pub open spec fn deduplication_is_admissible<
    N: Fn(Vector2) -> Scalar,
    D: Fn(Point2, Point2) -> Scalar,
    FM: Fn(MultivariateNormalDistribution<4>, Matrix4, Column4, Matrix4)
        -> MultivariateNormalDistribution<4>,
    FR: Fn(MultivariateNormalDistribution<2>, Matrix2, Column2, Matrix2)
        -> MultivariateNormalDistribution<2>,
>(
    valid: Seq<BallHypothesis>,
    n: int,
    parameters: BallFilterParameters,
    norm: N,
    distance: D,
    fuse_moving: FM,
    fuse_resting: FR,
) -> bool
    decreases n,
{
    if n <= 0 {
        true
    } else {
        &&& deduplication_is_admissible(
            valid,
            n - 1,
            parameters,
            norm,
            distance,
            fuse_moving,
            fuse_resting,
        )
        &&& absorption_is_admissible(
            deduplicated(valid, n - 1, parameters, norm, distance, fuse_moving, fuse_resting),
            valid[n - 1],
            parameters,
            norm,
            distance,
            fuse_moving,
            fuse_resting,
        )
    }
}

/// Every fusion that [`pruned`] makes can be made.
pub open spec fn pruning_is_admissible<
    N: Fn(Vector2) -> Scalar,
    D: Fn(Point2, Point2) -> Scalar,
    FM: Fn(MultivariateNormalDistribution<4>, Matrix4, Column4, Matrix4)
        -> MultivariateNormalDistribution<4>,
    FR: Fn(MultivariateNormalDistribution<2>, Matrix2, Column2, Matrix2)
        -> MultivariateNormalDistribution<2>,
>(
    hypotheses: Seq<BallHypothesis>,
    now: u64,
    parameters: BallFilterParameters,
    field: FieldBounds,
    norm: N,
    distance: D,
    fuse_moving: FM,
    fuse_resting: FR,
) -> bool {
    let valid = retained(hypotheses, now, parameters, field, norm);
    deduplication_is_admissible(
        valid,
        valid.len() as int,
        parameters,
        norm,
        distance,
        fuse_moving,
        fuse_resting,
    )
}

/// All that [`absorbed`] speaks of has been computed: the candidate has
/// been compared with every hypothesis up to the one it is folded into, and
/// has been fused with that one.
pub open spec fn absorption_is_known<
    N: Fn(Vector2) -> Scalar,
    D: Fn(Point2, Point2) -> Scalar,
    FM: Fn(MultivariateNormalDistribution<4>, Matrix4, Column4, Matrix4)
    -> MultivariateNormalDistribution<4>,
    FR: Fn(MultivariateNormalDistribution<2>, Matrix2, Column2, Matrix2)
    -> MultivariateNormalDistribution<2>,
>(
    kept: Seq<BallHypothesis>,
    candidate: BallHypothesis,
    parameters: BallFilterParameters,
    norm: N,
    distance: D,
    fuse_moving: FM,
    fuse_resting: FR,
) -> bool {
    let target = first_close(kept, candidate, 0, parameters, norm, distance);
    &&& candidate.speed_is_known(norm)
    &&& forall|j: int|
        0 <= j < kept.len() && j <= target ==> (#[trigger] kept[j]).closeness_is_known(
            candidate,
            parameters,
            norm,
            distance,
        )
    &&& target < kept.len() ==> kept[target].merge_is_known(candidate, fuse_moving, fuse_resting)
}

/// All that [`deduplicated`] speaks of has been computed.
pub open spec fn deduplication_is_known<
    N: Fn(Vector2) -> Scalar,
    D: Fn(Point2, Point2) -> Scalar,
    FM: Fn(MultivariateNormalDistribution<4>, Matrix4, Column4, Matrix4)
    -> MultivariateNormalDistribution<4>,
    FR: Fn(MultivariateNormalDistribution<2>, Matrix2, Column2, Matrix2)
    -> MultivariateNormalDistribution<2>,
>(
    valid: Seq<BallHypothesis>,
    n: int,
    parameters: BallFilterParameters,
    norm: N,
    distance: D,
    fuse_moving: FM,
    fuse_resting: FR,
) -> bool
    decreases n,
{
    if n <= 0 {
        true
    } else {
        &&& deduplication_is_known(
            valid,
            n - 1,
            parameters,
            norm,
            distance,
            fuse_moving,
            fuse_resting,
        )
        &&& absorption_is_known(
            deduplicated(valid, n - 1, parameters, norm, distance, fuse_moving, fuse_resting),
            valid[n - 1],
            parameters,
            norm,
            distance,
            fuse_moving,
            fuse_resting,
        )
    }
}

/// All that [`pruned`] speaks of has been computed.
pub open spec fn pruning_is_known<
    N: Fn(Vector2) -> Scalar,
    D: Fn(Point2, Point2) -> Scalar,
    FM: Fn(MultivariateNormalDistribution<4>, Matrix4, Column4, Matrix4)
    -> MultivariateNormalDistribution<4>,
    FR: Fn(MultivariateNormalDistribution<2>, Matrix2, Column2, Matrix2)
    -> MultivariateNormalDistribution<2>,
>(
    hypotheses: Seq<BallHypothesis>,
    now: u64,
    parameters: BallFilterParameters,
    field: FieldBounds,
    norm: N,
    distance: D,
    fuse_moving: FM,
    fuse_resting: FR,
) -> bool {
    let valid = retained(hypotheses, now, parameters, field, norm);
    &&& speeds_are_known(hypotheses, norm)
    &&& deduplication_is_known(
        valid,
        valid.len() as int,
        parameters,
        norm,
        distance,
        fuse_moving,
        fuse_resting,
    )
}

impl BallFilter {
    /// Takes all hypotheses out of the tracker and splits them, each part in
    /// the order it had, into those that are kept at the time `now` and
    /// those that are dropped.
    pub fn partition<N: Fn(Vector2) -> Scalar>(
        &mut self,
        now: u64,
        parameters: &BallFilterParameters,
        field: &FieldBounds,
        norm: &N,
    ) -> (parts: (ValidHypotheses, RemovedHypotheses))
        requires
            is_no_later_than(old(self)@, now),
            is_sound(old(self)@),
            is_function(*norm),
        ensures
            final(self)@ == Seq::<BallHypothesis>::empty(),
            is_sound(parts.0.0@),
            speeds_are_known(old(self)@, *norm),
            parts.0.0@ == retained(old(self)@, now, *parameters, *field, *norm),
            parts.1.0@ == dropped(old(self)@, now, *parameters, *field, *norm),
    {
        let ghost keep = |h: BallHypothesis| h.is_retained(now, *parameters, *field, *norm);
        let ghost drop = |h: BallHypothesis| !h.is_retained(now, *parameters, *field, *norm);
        let mut valid: Vec<BallHypothesis> = Vec::new();
        let mut removed: Vec<BallHypothesis> = Vec::new();
        let mut i: usize = 0;
        while i < self.hypotheses.len()
            invariant
                i <= self.hypotheses.len(),
                self@ == old(self)@,
                is_no_later_than(self@, now),
                is_function(*norm),
                keep == |h: BallHypothesis| h.is_retained(now, *parameters, *field, *norm),
                drop == |h: BallHypothesis| !h.is_retained(now, *parameters, *field, *norm),
                valid@ == self@.take(i as int).filter(keep),
                removed@ == self@.take(i as int).filter(drop),
                is_sound(valid@),
                speeds_are_known(self@.take(i as int), *norm),
            decreases self.hypotheses.len() - i,
        {
            let hypothesis = self.hypotheses[i];
            let position = hypothesis.selected_ball_position(
                norm,
                parameters.resting_ball_velocity_threshold,
            ).position;
            let is_inside_field = field.contains(position);
            let age: u64 = now - hypothesis.last_update;
            let keeps = age < parameters.hypothesis_timeout
                && parameters.validity_discard_threshold.lt(hypothesis.validity)
                && is_inside_field;
            proof {
                assert(self@.take(i as int + 1).drop_last() == self@.take(i as int));
                reveal(Seq::filter);
            }
            if keeps {
                valid.push(hypothesis);
            } else {
                removed.push(hypothesis);
            }
            i = i + 1;
        }
        proof {
            assert(self@.take(self@.len() as int) == self@);
        }
        self.hypotheses = Vec::new();
        (ValidHypotheses(valid), RemovedHypotheses(removed))
    }

    /// Makes `valid_hypotheses` the hypotheses of the tracker, folding
    /// together those that are the same ball. Every fusion that this takes
    /// has to be possible. They are taken in order: each
    /// is folded into the first hypothesis already kept that it is close to,
    /// in the state that hypothesis has by then, and is kept as a hypothesis
    /// of its own where there is none.
    pub fn merge<
        N: Fn(Vector2) -> Scalar,
        D: Fn(Point2, Point2) -> Scalar,
        FM: Fn(MultivariateNormalDistribution<4>, Matrix4, Column4, Matrix4)
    -> MultivariateNormalDistribution<4>,
        FR: Fn(MultivariateNormalDistribution<2>, Matrix2, Column2, Matrix2)
    -> MultivariateNormalDistribution<2>,
    >(
        &mut self,
        valid_hypotheses: ValidHypotheses,
        parameters: &BallFilterParameters,
        norm: &N,
        distance: &D,
        fuse_moving: &FM,
        fuse_resting: &FR,
    )
        requires
            is_function(*norm),
            is_function2(*distance),
            is_deterministic4(*fuse_moving),
            is_deterministic4(*fuse_resting),
            deduplication_is_admissible(
                valid_hypotheses.0@,
                valid_hypotheses.0@.len() as int,
                *parameters,
                *norm,
                *distance,
                *fuse_moving,
                *fuse_resting,
            ),
        ensures
            final(self)@ == deduplicated(
                valid_hypotheses.0@,
                valid_hypotheses.0@.len() as int,
                *parameters,
                *norm,
                *distance,
                *fuse_moving,
                *fuse_resting,
            ),
            is_sound(valid_hypotheses.0@) ==> is_sound(final(self)@),
            deduplication_is_known(
                valid_hypotheses.0@,
                valid_hypotheses.0@.len() as int,
                *parameters,
                *norm,
                *distance,
                *fuse_moving,
                *fuse_resting,
            ),
    {
        let valid = valid_hypotheses.0;
        let velocity_threshold = parameters.resting_ball_velocity_threshold;
        let mut kept: Vec<BallHypothesis> = Vec::new();
        let mut i: usize = 0;
        while i < valid.len()
            invariant
                i <= valid.len(),
                is_function(*norm),
                is_function2(*distance),
                is_deterministic4(*fuse_moving),
                is_deterministic4(*fuse_resting),
                deduplication_is_admissible(
                    valid@,
                    valid@.len() as int,
                    *parameters,
                    *norm,
                    *distance,
                    *fuse_moving,
                    *fuse_resting,
                ),
                velocity_threshold == parameters.resting_ball_velocity_threshold,
                kept@ == deduplicated(
                    valid@,
                    i as int,
                    *parameters,
                    *norm,
                    *distance,
                    *fuse_moving,
                    *fuse_resting,
                ),
                is_sound(valid@) ==> is_sound(kept@),
                deduplication_is_known(
                    valid@,
                    i as int,
                    *parameters,
                    *norm,
                    *distance,
                    *fuse_moving,
                    *fuse_resting,
                ),
            decreases valid.len() - i,
        {
            let candidate = valid[i];
            let position = candidate.selected_ball_position(norm, velocity_threshold).position;
            let mut target: usize = 0;
            while target < kept.len() && !eval2(
                distance,
                kept[target].selected_ball_position(norm, velocity_threshold).position,
                position,
            ).lt(parameters.hypothesis_merge_distance)
                invariant
                    target <= kept.len(),
                    is_function(*norm),
                    is_function2(*distance),
                    velocity_threshold == parameters.resting_ball_velocity_threshold,
                    position == candidate.selected_position(*norm, velocity_threshold),
                    candidate.speed_is_known(*norm),
                    forall|j: int|
                        0 <= j < target ==> (#[trigger] kept@[j]).closeness_is_known(
                            candidate,
                            *parameters,
                            *norm,
                            *distance,
                        ),
                    first_close(kept@, candidate, 0, *parameters, *norm, *distance) == first_close(
                        kept@,
                        candidate,
                        target as int,
                        *parameters,
                        *norm,
                        *distance,
                    ),
                decreases kept.len() - target,
            {
                target = target + 1;
            }
            proof {
                lemma_fusion_is_admissible(
                    valid@,
                    valid@.len() as int,
                    i as int,
                    *parameters,
                    *norm,
                    *distance,
                    *fuse_moving,
                    *fuse_resting,
                );
            }
            if target < kept.len() {
                let mut existing = kept[target];
                existing.merge(candidate, fuse_moving, fuse_resting);
                kept[target] = existing;
            } else {
                kept.push(candidate);
            }
            i = i + 1;
        }
        self.hypotheses = kept;
    }

    /// Prunes and merges: drops every hypothesis that has timed out at the
    /// time `now`, has lost its validity or has left the field, folds those
    /// of the others together that are the same ball, and returns the ones
    /// that were dropped. A hypothesis that has timed out is among them
    /// whatever its validity, and none that is left has.
    pub fn remove_hypotheses<
        N: Fn(Vector2) -> Scalar,
        D: Fn(Point2, Point2) -> Scalar,
        FM: Fn(MultivariateNormalDistribution<4>, Matrix4, Column4, Matrix4)
    -> MultivariateNormalDistribution<4>,
        FR: Fn(MultivariateNormalDistribution<2>, Matrix2, Column2, Matrix2)
    -> MultivariateNormalDistribution<2>,
    >(
        &mut self,
        now: u64,
        parameters: &BallFilterParameters,
        field: &FieldBounds,
        norm: &N,
        distance: &D,
        fuse_moving: &FM,
        fuse_resting: &FR,
    ) -> (removed: RemovedHypotheses)
        requires
            is_no_later_than(old(self)@, now),
            is_sound(old(self)@),
            is_function(*norm),
            is_function2(*distance),
            is_deterministic4(*fuse_moving),
            is_deterministic4(*fuse_resting),
            pruning_is_admissible(
                old(self)@,
                now,
                *parameters,
                *field,
                *norm,
                *distance,
                *fuse_moving,
                *fuse_resting,
            ),
        ensures
            removed.0@ == dropped(old(self)@, now, *parameters, *field, *norm),
            final(self)@ == pruned(
                old(self)@,
                now,
                *parameters,
                *field,
                *norm,
                *distance,
                *fuse_moving,
                *fuse_resting,
            ),
            forall|i: int|
                0 <= i < old(self)@.len() && now - (#[trigger] old(self)@[i]).last_update
                    >= parameters.hypothesis_timeout ==> removed.0@.contains(old(self)@[i]),
            forall|k: int|
                0 <= k < final(self)@.len() ==> now - (#[trigger] final(self)@[k]).last_update
                    < parameters.hypothesis_timeout
                    && parameters.validity_discard_threshold.lt(final(self)@[k].validity),
            is_sound(final(self)@),
            is_no_later_than(final(self)@, now),
            pruning_is_known(
                old(self)@,
                now,
                *parameters,
                *field,
                *norm,
                *distance,
                *fuse_moving,
                *fuse_resting,
            ),
    {
        let (valid, removed) = self.partition(now, parameters, field, norm);
        self.merge(valid, parameters, norm, distance, fuse_moving, fuse_resting);
        proof {
            lemma_prune_on_timeout(
                old(self)@,
                now,
                *parameters,
                *field,
                *norm,
                *distance,
                *fuse_moving,
                *fuse_resting,
            );
            lemma_pruning_keeps_times(
                old(self)@,
                now,
                now,
                *parameters,
                *field,
                *norm,
                *distance,
                *fuse_moving,
                *fuse_resting,
            );
        }
        removed
    }
}

/// Where every fusion of the first `n` hypotheses can be made, so can the
/// one that deals with the hypothesis at `k`.
pub proof fn lemma_fusion_is_admissible<
    N: Fn(Vector2) -> Scalar,
    D: Fn(Point2, Point2) -> Scalar,
    FM: Fn(MultivariateNormalDistribution<4>, Matrix4, Column4, Matrix4)
        -> MultivariateNormalDistribution<4>,
    FR: Fn(MultivariateNormalDistribution<2>, Matrix2, Column2, Matrix2)
        -> MultivariateNormalDistribution<2>,
>(
    valid: Seq<BallHypothesis>,
    n: int,
    k: int,
    parameters: BallFilterParameters,
    norm: N,
    distance: D,
    fuse_moving: FM,
    fuse_resting: FR,
)
    requires
        0 <= k < n,
        deduplication_is_admissible(valid, n, parameters, norm, distance, fuse_moving, fuse_resting),
    ensures
        absorption_is_admissible(
            deduplicated(valid, k, parameters, norm, distance, fuse_moving, fuse_resting),
            valid[k],
            parameters,
            norm,
            distance,
            fuse_moving,
            fuse_resting,
        ),
    decreases n,
{
    if k < n - 1 {
        lemma_fusion_is_admissible(
            valid,
            n - 1,
            k,
            parameters,
            norm,
            distance,
            fuse_moving,
            fuse_resting,
        );
    }
}

/// The field reaches as far to one side as to the other: a position lies
/// inside bounds that are not negative exactly when each of its coordinates
/// lies between the bound of its axis and the negative of that bound.
pub proof fn lemma_field_is_symmetric(field: FieldBounds, position: Point2)
    requires
        Scalar::zero().le(field.half_length),
        Scalar::zero().le(field.half_width),
    ensures
        field.contains(position) <==> {
            &&& !position.x.is_nan()
            &&& !position.y.is_nan()
            &&& -field.half_length.rank() < position.x.rank() < field.half_length.rank()
            &&& -field.half_width.rank() < position.y.rank() < field.half_width.rank()
        },
{
    lemma_abs_is_within(position.x, field.half_length);
    lemma_abs_is_within(position.y, field.half_width);
}

/// What [`first_close`] finds is the first hypothesis at or after `from`
/// that is close to the candidate.
pub proof fn lemma_first_close_is_first<N: Fn(Vector2) -> Scalar, D: Fn(Point2, Point2) -> Scalar>(
    kept: Seq<BallHypothesis>,
    candidate: BallHypothesis,
    from: int,
    parameters: BallFilterParameters,
    norm: N,
    distance: D,
)
    requires
        0 <= from <= kept.len(),
    ensures
        from <= first_close(kept, candidate, from, parameters, norm, distance) <= kept.len(),
        first_close(kept, candidate, from, parameters, norm, distance) < kept.len() ==> kept[first_close(
            kept,
            candidate,
            from,
            parameters,
            norm,
            distance,
        )].is_close_to(candidate, parameters, norm, distance),
        forall|i: int|
            from <= i < first_close(kept, candidate, from, parameters, norm, distance) ==> !(
            #[trigger] kept[i]).is_close_to(candidate, parameters, norm, distance),
    decreases kept.len() - from,
{
    if from < kept.len() && !kept[from].is_close_to(candidate, parameters, norm, distance) {
        lemma_first_close_is_first(kept, candidate, from + 1, parameters, norm, distance);
    }
}

/// Merging invents no support: each hypothesis that is left after merging
/// has the validity and the time of the last measurement of one of those
/// that went in, and there are no more of them than went in.
pub proof fn lemma_deduplicated_keeps_support<
    N: Fn(Vector2) -> Scalar,
    D: Fn(Point2, Point2) -> Scalar,
    FM: Fn(MultivariateNormalDistribution<4>, Matrix4, Column4, Matrix4)
    -> MultivariateNormalDistribution<4>,
    FR: Fn(MultivariateNormalDistribution<2>, Matrix2, Column2, Matrix2)
    -> MultivariateNormalDistribution<2>,
>(
    valid: Seq<BallHypothesis>,
    n: int,
    parameters: BallFilterParameters,
    norm: N,
    distance: D,
    fuse_moving: FM,
    fuse_resting: FR,
)
    requires
        0 <= n <= valid.len(),
    ensures
        deduplicated(valid, n, parameters, norm, distance, fuse_moving, fuse_resting).len() <= n,
        n > 0 ==> deduplicated(valid, n, parameters, norm, distance, fuse_moving, fuse_resting).len()
            > 0,
        forall|k: int|
            0 <= k < deduplicated(
                valid,
                n,
                parameters,
                norm,
                distance,
                fuse_moving,
                fuse_resting,
            ).len() ==> exists|j: int|
                0 <= j < n && (#[trigger] valid[j]).last_update == (#[trigger] deduplicated(
                    valid,
                    n,
                    parameters,
                    norm,
                    distance,
                    fuse_moving,
                    fuse_resting,
                )[k]).last_update && valid[j].validity == deduplicated(
                    valid,
                    n,
                    parameters,
                    norm,
                    distance,
                    fuse_moving,
                    fuse_resting,
                )[k].validity,
    decreases n,
{
    if n > 0 {
        lemma_deduplicated_keeps_support(
            valid,
            n - 1,
            parameters,
            norm,
            distance,
            fuse_moving,
            fuse_resting,
        );
        let kept = deduplicated(valid, n - 1, parameters, norm, distance, fuse_moving, fuse_resting);
        let after = deduplicated(valid, n, parameters, norm, distance, fuse_moving, fuse_resting);
        let target = first_close(kept, valid[n - 1], 0, parameters, norm, distance);
        lemma_first_close_is_first(kept, valid[n - 1], 0, parameters, norm, distance);
        assert forall|k: int| 0 <= k < after.len() implies exists|j: int|
            0 <= j < n && (#[trigger] valid[j]).last_update == (#[trigger] after[k]).last_update
                && valid[j].validity == after[k].validity by {
            if k < kept.len() {
                let j = choose|j: int|
                    0 <= j < n - 1 && (#[trigger] valid[j]).last_update == kept[k].last_update
                        && valid[j].validity == kept[k].validity;
                assert(valid[j].last_update == after[k].last_update);
            } else {
                assert(valid[n - 1].last_update == after[k].last_update);
            }
        }
    }
}

/// Pruning on timeout: a hypothesis whose last measurement lies the timeout
/// or longer before `now` is among those dropped, whatever its validity,
/// and every hypothesis that is left after pruning and merging was
/// supported less than the timeout ago and has a validity above the discard
/// threshold.
pub proof fn lemma_prune_on_timeout<
    N: Fn(Vector2) -> Scalar,
    D: Fn(Point2, Point2) -> Scalar,
    FM: Fn(MultivariateNormalDistribution<4>, Matrix4, Column4, Matrix4)
    -> MultivariateNormalDistribution<4>,
    FR: Fn(MultivariateNormalDistribution<2>, Matrix2, Column2, Matrix2)
    -> MultivariateNormalDistribution<2>,
>(
    hypotheses: Seq<BallHypothesis>,
    now: u64,
    parameters: BallFilterParameters,
    field: FieldBounds,
    norm: N,
    distance: D,
    fuse_moving: FM,
    fuse_resting: FR,
)
    requires
        is_no_later_than(hypotheses, now),
    ensures
        forall|i: int|
            0 <= i < hypotheses.len() && now - (#[trigger] hypotheses[i]).last_update
                >= parameters.hypothesis_timeout ==> dropped(
                hypotheses,
                now,
                parameters,
                field,
                norm,
            ).contains(hypotheses[i]),
        forall|k: int|
            0 <= k < pruned(
                hypotheses,
                now,
                parameters,
                field,
                norm,
                distance,
                fuse_moving,
                fuse_resting,
            ).len() ==> {
                let left = #[trigger] pruned(
                    hypotheses,
                    now,
                    parameters,
                    field,
                    norm,
                    distance,
                    fuse_moving,
                    fuse_resting,
                )[k];
                &&& now - left.last_update < parameters.hypothesis_timeout
                &&& parameters.validity_discard_threshold.lt(left.validity)
            },
{
    let keep = |h: BallHypothesis| h.is_retained(now, parameters, field, norm);
    let drop = |h: BallHypothesis| !h.is_retained(now, parameters, field, norm);
    let valid = retained(hypotheses, now, parameters, field, norm);
    let left = pruned(hypotheses, now, parameters, field, norm, distance, fuse_moving, fuse_resting);
    assert forall|i: int|
        0 <= i < hypotheses.len() && now - (#[trigger] hypotheses[i]).last_update
            >= parameters.hypothesis_timeout implies dropped(
        hypotheses,
        now,
        parameters,
        field,
        norm,
    ).contains(hypotheses[i]) by {
        assert(drop(hypotheses[i]));
        hypotheses.lemma_filter_contains(drop, i);
    }
    lemma_deduplicated_keeps_support(
        valid,
        valid.len() as int,
        parameters,
        norm,
        distance,
        fuse_moving,
        fuse_resting,
    );
    assert forall|k: int| 0 <= k < left.len() implies now - (#[trigger] left[k]).last_update
        < parameters.hypothesis_timeout && parameters.validity_discard_threshold.lt(
        left[k].validity,
    ) by {
        let j = choose|j: int|
            0 <= j < valid.len() && (#[trigger] valid[j]).last_update == left[k].last_update
                && valid[j].validity == left[k].validity;
        hypotheses.lemma_filter_pred(keep, j);
        assert(keep(valid[j]));
    }
}

/// Pruning and merging date nothing forward: where no hypothesis was
/// supported later than `bound`, neither was any that is left, nor any that
/// is dropped.
pub proof fn lemma_pruning_keeps_times<
    N: Fn(Vector2) -> Scalar,
    D: Fn(Point2, Point2) -> Scalar,
    FM: Fn(MultivariateNormalDistribution<4>, Matrix4, Column4, Matrix4)
    -> MultivariateNormalDistribution<4>,
    FR: Fn(MultivariateNormalDistribution<2>, Matrix2, Column2, Matrix2)
    -> MultivariateNormalDistribution<2>,
>(
    hypotheses: Seq<BallHypothesis>,
    bound: u64,
    now: u64,
    parameters: BallFilterParameters,
    field: FieldBounds,
    norm: N,
    distance: D,
    fuse_moving: FM,
    fuse_resting: FR,
)
    requires
        is_no_later_than(hypotheses, bound),
    ensures
        is_no_later_than(dropped(hypotheses, now, parameters, field, norm), bound),
        is_no_later_than(
            pruned(hypotheses, now, parameters, field, norm, distance, fuse_moving, fuse_resting),
            bound,
        ),
{
    let keep = |h: BallHypothesis| h.is_retained(now, parameters, field, norm);
    let drop = |h: BallHypothesis| !h.is_retained(now, parameters, field, norm);
    let valid = retained(hypotheses, now, parameters, field, norm);
    let lost = dropped(hypotheses, now, parameters, field, norm);
    let left = pruned(hypotheses, now, parameters, field, norm, distance, fuse_moving, fuse_resting);
    assert forall|i: int| 0 <= i < lost.len() implies (#[trigger] lost[i]).last_update <= bound by {
        assert(lost.contains(lost[i]));
        hypotheses.lemma_filter_contains_rev(drop, lost[i]);
    }
    lemma_deduplicated_keeps_support(
        valid,
        valid.len() as int,
        parameters,
        norm,
        distance,
        fuse_moving,
        fuse_resting,
    );
    assert forall|k: int| 0 <= k < left.len() implies (#[trigger] left[k]).last_update <= bound by {
        let j = choose|j: int|
            0 <= j < valid.len() && (#[trigger] valid[j]).last_update == left[k].last_update
                && valid[j].validity == left[k].validity;
        assert(valid.contains(valid[j]));
        hypotheses.lemma_filter_contains_rev(keep, valid[j]);
    }
}

/// Merging on proximity: of two hypotheses that are kept, one is left, the
/// first with the second folded into it, where they put the ball less than
/// the merge distance apart; both are left unchanged where they do not.
/// What has been computed for it is the distance between the two and, where
/// they are merged, what the first becomes.
pub proof fn lemma_pair_merges_iff_close<
    N: Fn(Vector2) -> Scalar,
    D: Fn(Point2, Point2) -> Scalar,
    FM: Fn(MultivariateNormalDistribution<4>, Matrix4, Column4, Matrix4)
    -> MultivariateNormalDistribution<4>,
    FR: Fn(MultivariateNormalDistribution<2>, Matrix2, Column2, Matrix2)
    -> MultivariateNormalDistribution<2>,
>(
    first: BallHypothesis,
    second: BallHypothesis,
    parameters: BallFilterParameters,
    norm: N,
    distance: D,
    fuse_moving: FM,
    fuse_resting: FR,
)
    ensures
        deduplicated(seq![first, second], 2, parameters, norm, distance, fuse_moving, fuse_resting)
            == if first.is_close_to(second, parameters, norm, distance) {
            seq![first.merged(second, fuse_moving, fuse_resting)]
        } else {
            seq![first, second]
        },
        deduplication_is_known(
            seq![first, second],
            2,
            parameters,
            norm,
            distance,
            fuse_moving,
            fuse_resting,
        ) <==> {
            &&& first.closeness_is_known(second, parameters, norm, distance)
            &&& first.is_close_to(second, parameters, norm, distance) ==> first.merge_is_known(
                second,
                fuse_moving,
                fuse_resting,
            )
        },
{
    let valid = seq![first, second];
    let none = deduplicated(valid, 0, parameters, norm, distance, fuse_moving, fuse_resting);
    let one = deduplicated(valid, 1, parameters, norm, distance, fuse_moving, fuse_resting);
    let two = deduplicated(valid, 2, parameters, norm, distance, fuse_moving, fuse_resting);
    assert(none =~= Seq::<BallHypothesis>::empty()) by {
        reveal_with_fuel(deduplicated, 1);
    }
    assert(first_close(none, first, 0, parameters, norm, distance) == 0);
    assert(one =~= seq![first]) by {
        reveal_with_fuel(deduplicated, 2);
    }
    assert(first_close(one, second, 1, parameters, norm, distance) == 1);
    assert(two == absorbed(one, second, parameters, norm, distance, fuse_moving, fuse_resting)) by {
        reveal_with_fuel(deduplicated, 3);
    }
    assert(deduplication_is_known(valid, 2, parameters, norm, distance, fuse_moving, fuse_resting)
        == (absorption_is_known(none, first, parameters, norm, distance, fuse_moving, fuse_resting)
        && absorption_is_known(one, second, parameters, norm, distance, fuse_moving, fuse_resting)))
        by {
        reveal_with_fuel(deduplication_is_known, 3);
    }
    assert(one[0] == first);
    if first.is_close_to(second, parameters, norm, distance) {
        assert(first_close(one, second, 0, parameters, norm, distance) == 0);
        assert(two =~= seq![first.merged(second, fuse_moving, fuse_resting)]);
    } else {
        assert(first_close(one, second, 0, parameters, norm, distance) == 1) by {
            reveal_with_fuel(first_close, 2);
        }
        assert(two =~= seq![first, second]);
    }
}

/// Where none of the first `n` hypotheses is close to one before it, they
/// are all left as they are.
pub proof fn lemma_distinct_balls_are_kept<
    N: Fn(Vector2) -> Scalar,
    D: Fn(Point2, Point2) -> Scalar,
    FM: Fn(MultivariateNormalDistribution<4>, Matrix4, Column4, Matrix4)
    -> MultivariateNormalDistribution<4>,
    FR: Fn(MultivariateNormalDistribution<2>, Matrix2, Column2, Matrix2)
    -> MultivariateNormalDistribution<2>,
>(
    valid: Seq<BallHypothesis>,
    n: int,
    parameters: BallFilterParameters,
    norm: N,
    distance: D,
    fuse_moving: FM,
    fuse_resting: FR,
)
    requires
        0 <= n <= valid.len(),
        forall|i: int, j: int|
            0 <= i < j < n ==> !(#[trigger] valid[i]).is_close_to(
                #[trigger] valid[j],
                parameters,
                norm,
                distance,
            ),
    ensures
        deduplicated(valid, n, parameters, norm, distance, fuse_moving, fuse_resting) == valid.take(
            n,
        ),
    decreases n,
{
    if n > 0 {
        lemma_distinct_balls_are_kept(
            valid,
            n - 1,
            parameters,
            norm,
            distance,
            fuse_moving,
            fuse_resting,
        );
        let kept = valid.take(n - 1);
        lemma_first_close_is_first(kept, valid[n - 1], 0, parameters, norm, distance);
        let target = first_close(kept, valid[n - 1], 0, parameters, norm, distance);
        if target < kept.len() {
            assert(kept[target] == valid[target]);
        }
        assert(kept.push(valid[n - 1]) =~= valid.take(n));
    } else {
        assert(valid.take(0) =~= Seq::<BallHypothesis>::empty());
    }
}

} // verus!
