//! A multi-hypothesis tracker for a ball seen from a walking robot.
//!
//! The tracker owns a collection of [`BallHypothesis`] values and drives it
//! through one cycle at a time with [`BallFilter::run_cycle`]: predict,
//! decay, associate and update, spawn, prune and merge, and the choice of
//! the best hypothesis. Each of these steps is a method of its own as well.
//!
//! Real numbers are stored and compared here as [`scalar::Scalar`] values,
//! and vectors and matrices are put together from them. Arithmetic on them
//! is passed in by the caller, see [`numerics`]: the length of a vector, the
//! distance of two points, sums and products, and the two steps of a Kalman
//! filter.
//!
//! Times are nanoseconds on a clock that the caller chooses. No hypothesis
//! may have been supported later than the time that an operation is given:
//! a caller that cannot know asks [`BallFilter::is_no_later_than`] first.
//! Nothing is decided by a validity that is no number: a cycle ends with an
//! error where one has come up, and a caller of the single steps asks
//! [`BallFilter::is_sound`] before it prunes or picks the best hypothesis.

pub mod cycle;
pub mod filtered_ball;
pub mod gaussian;
pub mod geometry;
pub mod hypothesis;
pub mod hypothesis_decayer;
pub mod hypothesis_merger;
pub mod hypothesis_predicter;
pub mod hypothesis_spawner;
pub mod hypothesis_updater;
pub mod initial_look_around;
pub mod interpolator_continue_conditions;
pub mod line_data;
pub mod motion_interpolator_staged;
pub mod numerics;
pub mod object_detection;
pub mod parameters;
pub mod scalar;

use vstd::prelude::*;

pub use crate::filtered_ball::BallPosition;
pub use crate::hypothesis::BallHypothesis;
use crate::hypothesis_merger::is_no_later_than;
pub use crate::hypothesis_merger::{RemovedHypotheses, ValidHypotheses};
pub use crate::hypothesis_updater::MatchingHypotheses;
use crate::scalar::{lemma_order_is_total, lemma_order_is_transitive, Scalar};

verus! {

/// What a tracker is created from: nothing.
#[derive(Clone, Copy, Debug, Default)]
pub struct CreationContext {}

/// The tracker: the hypotheses that are currently followed, in the order in
/// which they came to be.
#[derive(Debug)]
pub struct BallFilter {
    pub hypotheses: Vec<BallHypothesis>,
}

impl View for BallFilter {
    type V = Seq<BallHypothesis>;

    open spec fn view(&self) -> Seq<BallHypothesis> {
        self.hypotheses@
    }
}

/// Every validity is a number. A validity that is none shows that the
/// arithmetic has gone wrong somewhere, and nothing may be decided by it.
pub open spec fn is_sound(hypotheses: Seq<BallHypothesis>) -> bool {
    forall|i: int| 0 <= i < hypotheses.len() ==> !(#[trigger] hypotheses[i]).validity.is_nan()
}

/// The index of the hypothesis that wins among the first `n` of `hypotheses`,
/// where only those with `qualifies` take part and `at_most(a, b)` says that
/// validity `b` is no worse than validity `a`. Of several that are equally
/// good the last one wins. `None` where none takes part.
pub open spec fn best_index(
    hypotheses: Seq<BallHypothesis>,
    n: int,
    qualifies: spec_fn(Scalar) -> bool,
    at_most: spec_fn(Scalar, Scalar) -> bool,
) -> Option<int>
    decreases n,
{
    if n <= 0 {
        None
    } else {
        let before = best_index(hypotheses, n - 1, qualifies, at_most);
        let last = hypotheses[n - 1].validity;
        if qualifies(last) && (before.is_none() || at_most(
            hypotheses[before.unwrap()].validity,
            last,
        )) {
            Some(n - 1)
        } else {
            before
        }
    }
}

impl Default for BallFilter {
    /// A tracker that follows nothing yet.
    fn default() -> (filter: BallFilter)
        ensures
            filter@ == Seq::<BallHypothesis>::empty(),
    {
        BallFilter { hypotheses: Vec::new() }
    }
}

impl BallFilter {
    /// Which hypothesis [`BallFilter::best_hypothesis`] returns.
    pub open spec fn best(self, validity_threshold: Scalar) -> Option<int> {
        best_index(
            self@,
            self@.len() as int,
            |validity: Scalar| validity_threshold.lt(validity),
            |a: Scalar, b: Scalar| a.le(b),
        )
    }

    /// Which hypothesis [`BallFilter::find_best_hypothesis`] returns.
    pub open spec fn best_above(self, minimum_validity: Scalar) -> Option<int> {
        best_index(
            self@,
            self@.len() as int,
            |validity: Scalar| minimum_validity.lt(validity),
            |a: Scalar, b: Scalar| a.total_rank() <= b.total_rank(),
        )
    }

    /// A tracker that follows nothing yet.
    pub fn new(_context: CreationContext) -> (filter: BallFilter)
        ensures
            filter@ == Seq::<BallHypothesis>::empty(),
    {
        BallFilter { hypotheses: Vec::new() }
    }

    /// Whether every validity is a number.
    pub fn is_sound(&self) -> (sound: bool)
        ensures
            sound == is_sound(self@),
    {
        let mut i: usize = 0;
        while i < self.hypotheses.len()
            invariant
                i <= self.hypotheses.len(),
                forall|j: int| 0 <= j < i ==> !(#[trigger] self@[j]).validity.is_nan(),
            decreases self.hypotheses.len() - i,
        {
            if self.hypotheses[i].validity.not_a_number() {
                return false;
            }
            i = i + 1;
        }
        true
    }

    /// Whether no hypothesis was supported later than `now`.
    pub fn is_no_later_than(&self, now: u64) -> (in_order: bool)
        ensures
            in_order == is_no_later_than(self@, now),
    {
        let mut i: usize = 0;
        while i < self.hypotheses.len()
            invariant
                i <= self.hypotheses.len(),
                forall|j: int| 0 <= j < i ==> (#[trigger] self@[j]).last_update <= now,
            decreases self.hypotheses.len() - i,
        {
            if self.hypotheses[i].last_update > now {
                return false;
            }
            i = i + 1;
        }
        true
    }

    /// All hypotheses.
    pub fn hypotheses(&self) -> (hypotheses: &Vec<BallHypothesis>)
        ensures
            hypotheses@ == self@,
    {
        &self.hypotheses
    }

    /// The hypothesis of the highest validity among those whose validity is
    /// above `validity_threshold`; the last of them where several are
    /// level. `None` where no validity is above the threshold.
    pub fn best_hypothesis(&self, validity_threshold: Scalar) -> (best: Option<&BallHypothesis>)
        requires
            is_sound(self@),
        ensures
            best.is_none() <==> forall|j: int|
                0 <= j < self@.len() ==> !validity_threshold.lt((#[trigger] self@[j]).validity),
            best.is_some() ==> {
                &&& validity_threshold.lt(best.unwrap().validity)
                &&& forall|j: int|
                    0 <= j < self@.len() && validity_threshold.lt((#[trigger] self@[j]).validity)
                        ==> self@[j].validity.le(best.unwrap().validity)
            },
            best.is_some() == self.best(validity_threshold).is_some(),
            best.is_some() ==> *best.unwrap() == self@[self.best(validity_threshold).unwrap()],
    {
        proof {
            lemma_best_is_highest(*self, validity_threshold);
        }
        let ghost qualifies = |validity: Scalar| validity_threshold.lt(validity);
        let ghost at_most = |a: Scalar, b: Scalar| a.le(b);
        let mut best: Option<usize> = None;
        let mut i: usize = 0;
        while i < self.hypotheses.len()
            invariant
                i <= self.hypotheses.len(),
                best.is_some() == best_index(self@, i as int, qualifies, at_most).is_some(),
                best.is_some() ==> best.unwrap() == best_index(
                    self@,
                    i as int,
                    qualifies,
                    at_most,
                ).unwrap() && best.unwrap() < i,
                qualifies == |validity: Scalar| validity_threshold.lt(validity),
                at_most == |a: Scalar, b: Scalar| a.le(b),
            decreases self.hypotheses.len() - i,
        {
            let validity = self.hypotheses[i].validity;
            if validity_threshold.lt(validity) {
                let wins = match best {
                    None => true,
                    Some(b) => self.hypotheses[b].validity.le(validity),
                };
                if wins {
                    best = Some(i);
                }
            }
            i = i + 1;
        }
        match best {
            None => None,
            Some(b) => Some(&self.hypotheses[b]),
        }
    }

    /// The hypothesis of the highest validity among those whose validity is
    /// above `minimum_validity`, where validities are ordered as their
    /// encodings are, so that negative zero comes below positive zero; the
    /// last of them where several have the same. `None` where no validity
    /// is above the minimum.
    pub fn find_best_hypothesis(&self, minimum_validity: Scalar) -> (best: Option<&BallHypothesis>)
        requires
            is_sound(self@),
        ensures
            best.is_none() <==> forall|j: int|
                0 <= j < self@.len() ==> !minimum_validity.lt((#[trigger] self@[j]).validity),
            best.is_some() ==> {
                &&& minimum_validity.lt(best.unwrap().validity)
                &&& forall|j: int|
                    0 <= j < self@.len() && minimum_validity.lt((#[trigger] self@[j]).validity)
                        ==> self@[j].validity.le(best.unwrap().validity)
            },
            best.is_some() == self.best_above(minimum_validity).is_some(),
            best.is_some() ==> *best.unwrap() == self@[self.best_above(minimum_validity).unwrap()],
    {
        proof {
            lemma_best_above_is_highest(*self, minimum_validity);
        }
        let ghost qualifies = |validity: Scalar| minimum_validity.lt(validity);
        let ghost at_most = |a: Scalar, b: Scalar| a.total_rank() <= b.total_rank();
        let mut best: Option<usize> = None;
        let mut i: usize = 0;
        while i < self.hypotheses.len()
            invariant
                i <= self.hypotheses.len(),
                best.is_some() == best_index(self@, i as int, qualifies, at_most).is_some(),
                best.is_some() ==> best.unwrap() == best_index(
                    self@,
                    i as int,
                    qualifies,
                    at_most,
                ).unwrap() && best.unwrap() < i,
                qualifies == |validity: Scalar| minimum_validity.lt(validity),
                at_most == |a: Scalar, b: Scalar| a.total_rank() <= b.total_rank(),
            decreases self.hypotheses.len() - i,
        {
            let validity = self.hypotheses[i].validity;
            if minimum_validity.lt(validity) {
                let wins = match best {
                    None => true,
                    Some(b) => self.hypotheses[b].validity.total_le(validity),
                };
                if wins {
                    best = Some(i);
                }
            }
            i = i + 1;
        }
        match best {
            None => None,
            Some(b) => Some(&self.hypotheses[b]),
        }
    }
}

/// What [`best_index`] finds, where `at_most` orders the validities that
/// take part: nothing exactly where no hypothesis takes part, and otherwise
/// a hypothesis that takes part, that none other beats, and that beats
/// every one after it.
pub proof fn lemma_best_index_is_last_maximum(
    hypotheses: Seq<BallHypothesis>,
    n: int,
    qualifies: spec_fn(Scalar) -> bool,
    at_most: spec_fn(Scalar, Scalar) -> bool,
)
    requires
        0 <= n <= hypotheses.len(),
        forall|a: Scalar, b: Scalar|
            qualifies(a) && qualifies(b) ==> #[trigger] at_most(a, b) || at_most(b, a),
        forall|a: Scalar, b: Scalar, c: Scalar|
            qualifies(a) && qualifies(b) && qualifies(c) && #[trigger] at_most(a, b)
                && #[trigger] at_most(b, c) ==> at_most(a, c),
    ensures
        match best_index(hypotheses, n, qualifies, at_most) {
            None => forall|j: int| 0 <= j < n ==> !qualifies((#[trigger] hypotheses[j]).validity),
            Some(i) => {
                &&& 0 <= i < n
                &&& qualifies(hypotheses[i].validity)
                &&& forall|j: int|
                    0 <= j < n && qualifies((#[trigger] hypotheses[j]).validity) ==> at_most(
                        hypotheses[j].validity,
                        hypotheses[i].validity,
                    )
                &&& forall|j: int|
                    i < j < n && qualifies((#[trigger] hypotheses[j]).validity) ==> !at_most(
                        hypotheses[i].validity,
                        hypotheses[j].validity,
                    )
            },
        },
    decreases n,
{
    if n > 0 {
        lemma_best_index_is_last_maximum(hypotheses, n - 1, qualifies, at_most);
        let before = best_index(hypotheses, n - 1, qualifies, at_most);
        let last = hypotheses[n - 1].validity;
        if qualifies(last) {
            assert(at_most(last, last));
            if before.is_some() {
                let b = before.unwrap();
                assert(at_most(hypotheses[b].validity, last) || at_most(last, hypotheses[b].validity));
                if at_most(hypotheses[b].validity, last) {
                    assert forall|j: int|
                        0 <= j < n && qualifies((#[trigger] hypotheses[j]).validity) implies at_most(
                        hypotheses[j].validity,
                        last,
                    ) by {
                        if j < n - 1 {
                            assert(at_most(hypotheses[j].validity, hypotheses[b].validity));
                        }
                    }
                }
            }
        }
    }
}

/// The choice of the best hypothesis: [`BallFilter::best_hypothesis`] finds
/// none exactly where no validity is above the threshold. Otherwise the
/// validity of the one it finds is above the threshold, no validity is
/// higher, and every validity after it that is above the threshold is
/// lower.
pub proof fn lemma_best_is_highest(filter: BallFilter, validity_threshold: Scalar)
    ensures
        match filter.best(validity_threshold) {
            None => forall|j: int|
                0 <= j < filter@.len() ==> !validity_threshold.lt((#[trigger] filter@[j]).validity),
            Some(i) => {
                &&& 0 <= i < filter@.len()
                &&& validity_threshold.lt(filter@[i].validity)
                &&& forall|j: int|
                    0 <= j < filter@.len() && validity_threshold.lt(
                        (#[trigger] filter@[j]).validity,
                    ) ==> filter@[j].validity.le(filter@[i].validity)
                &&& forall|j: int|
                    i < j < filter@.len() && validity_threshold.lt(
                        (#[trigger] filter@[j]).validity,
                    ) ==> filter@[j].validity.lt(filter@[i].validity)
            },
        },
{
    let qualifies = |validity: Scalar| validity_threshold.lt(validity);
    let at_most = |a: Scalar, b: Scalar| a.le(b);
    assert forall|a: Scalar, b: Scalar| qualifies(a) && qualifies(b) implies #[trigger] at_most(a, b)
        || at_most(b, a) by {
        lemma_order_is_total(a, b);
    }
    assert forall|a: Scalar, b: Scalar, c: Scalar|
        qualifies(a) && qualifies(b) && qualifies(c) && #[trigger] at_most(a, b)
            && #[trigger] at_most(b, c) implies at_most(a, c) by {
        lemma_order_is_transitive(a, b, c);
    }
    lemma_best_index_is_last_maximum(filter@, filter@.len() as int, qualifies, at_most);
}

/// The same for [`BallFilter::find_best_hypothesis`], which orders
/// validities as their encodings are ordered.
pub proof fn lemma_best_above_is_highest(filter: BallFilter, minimum_validity: Scalar)
    ensures
        match filter.best_above(minimum_validity) {
            None => forall|j: int|
                0 <= j < filter@.len() ==> !minimum_validity.lt((#[trigger] filter@[j]).validity),
            Some(i) => {
                &&& 0 <= i < filter@.len()
                &&& minimum_validity.lt(filter@[i].validity)
                &&& forall|j: int|
                    0 <= j < filter@.len() && minimum_validity.lt(
                        (#[trigger] filter@[j]).validity,
                    ) ==> filter@[j].validity.le(filter@[i].validity)
                &&& forall|j: int|
                    i < j < filter@.len() && minimum_validity.lt(
                        (#[trigger] filter@[j]).validity,
                    ) ==> filter@[j].validity.total_rank() < filter@[i].validity.total_rank()
            },
        },
{
    lemma_best_index_is_last_maximum(
        filter@,
        filter@.len() as int,
        |validity: Scalar| minimum_validity.lt(validity),
        |a: Scalar, b: Scalar| a.total_rank() <= b.total_rank(),
    );
}

} // verus!
