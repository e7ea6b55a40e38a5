//! The decay step.
//!
//! Every cycle each hypothesis loses validity. One that a camera should
//! currently see, and that was not confirmed all the same, is scaled by one
//! factor; one that no camera can see by another.

use vstd::prelude::*;

use crate::geometry::{Point2, Vector2};
use crate::hypothesis::BallHypothesis;
use crate::numerics::{answers2, eval2, is_function, is_function2, value2};
use crate::parameters::BallFilterParameters;
use crate::scalar::Scalar;
use crate::BallFilter;

verus! {

/// The encoding of the width of an image in pixels, 640.
pub const IMAGE_WIDTH_BITS: u32 = 0x4420_0000;

/// The encoding of the height of an image in pixels, 480.
pub const IMAGE_HEIGHT_BITS: u32 = 0x43f0_0000;

/// The pixel lies inside an image: from zero up to, but not at, its width
/// and its height.
pub open spec fn spec_is_inside_image(pixel: Point2) -> bool {
    &&& Scalar::zero().le(pixel.x)
    &&& pixel.x.lt(Scalar { bits: IMAGE_WIDTH_BITS })
    &&& Scalar::zero().le(pixel.y)
    &&& pixel.y.lt(Scalar { bits: IMAGE_HEIGHT_BITS })
}

/// Whether the pixel lies inside an image.
#[verifier::when_used_as_spec(spec_is_inside_image)]
pub fn is_inside_image(pixel: Point2) -> (inside: bool)
    ensures
        inside == spec_is_inside_image(pixel),
{
    Scalar::zero().le(pixel.x) && pixel.x.lt(Scalar::from_bits(IMAGE_WIDTH_BITS))
        && Scalar::zero().le(pixel.y) && pixel.y.lt(Scalar::from_bits(IMAGE_HEIGHT_BITS))
}

/// A camera sees what is projected to `position_in_image`: the projection
/// exists, lies inside the image and is not covered by a limb.
pub open spec fn visible_to_camera<L: Fn(u64, Point2) -> bool>(
    position_in_image: Option<Point2>,
    time: u64,
    is_above_limbs: L,
) -> bool {
    match position_in_image {
        Some(pixel) => is_inside_image(pixel) && value2(is_above_limbs, time, pixel),
        None => false,
    }
}

/// Where the projection lies inside the image, it has been computed whether
/// a limb covers it.
pub open spec fn limbs_are_known<L: Fn(u64, Point2) -> bool>(
    position_in_image: Option<Point2>,
    time: u64,
    is_above_limbs: L,
) -> bool {
    match position_in_image {
        Some(pixel) => is_inside_image(pixel) ==> answers2(is_above_limbs, time, pixel),
        None => true,
    }
}

/// Whether a camera sees at the time `time` what is projected to
/// `position_in_image`, which is `None` where the projection failed.
pub fn is_visible_to_camera<L: Fn(u64, Point2) -> bool>(
    position_in_image: Option<Point2>,
    time: u64,
    is_above_limbs: &L,
) -> (visible: bool)
    requires
        is_function2(*is_above_limbs),
    ensures
        visible == visible_to_camera(position_in_image, time, *is_above_limbs),
        limbs_are_known(position_in_image, time, *is_above_limbs),
{
    match position_in_image {
        Some(pixel) => is_inside_image(pixel) && eval2(is_above_limbs, time, pixel),
        None => false,
    }
}

impl BallFilterParameters {
    /// The factor by which a hypothesis decays.
    pub open spec fn spec_decay_factor(&self, ball_in_view: bool) -> Scalar {
        if ball_in_view {
            self.visible_validity_exponential_decay_factor
        } else {
            self.hidden_validity_exponential_decay_factor
        }
    }

    /// The factor by which a hypothesis decays, by whether a camera should
    /// see it.
    #[verifier::when_used_as_spec(spec_decay_factor)]
    pub fn decay_factor(&self, ball_in_view: bool) -> (factor: Scalar)
        ensures
            factor == self.spec_decay_factor(ball_in_view),
    {
        if ball_in_view {
            self.visible_validity_exponential_decay_factor
        } else {
            self.hidden_validity_exponential_decay_factor
        }
    }
}

impl BallHypothesis {
    /// At least one of the two cameras should see the ball where the
    /// hypothesis puts it. Limbs can cover it in the bottom camera only.
    pub open spec fn is_in_view<
        PB: Fn(u64, Point2) -> Option<Point2>,
        PT: Fn(u64, Point2) -> Option<Point2>,
        L: Fn(u64, Point2) -> bool,
        N: Fn(Vector2) -> Scalar,
    >(
        self,
        time: u64,
        project_bottom: PB,
        project_top: PT,
        is_above_limbs: L,
        norm: N,
        velocity_threshold: Scalar,
    ) -> bool {
        let position = self.selected_position(norm, velocity_threshold);
        visible_to_camera(
            value2(project_bottom, time, position),
            time,
            is_above_limbs,
        ) || match value2(
            project_top,
            time,
            position,
        ) {
            Some(pixel) => is_inside_image(pixel),
            None => false,
        }
    }

    /// All that [`BallHypothesis::is_in_view`] speaks of has been computed:
    /// the bottom camera is always asked, the top camera where the bottom
    /// camera does not see the ball.
    pub open spec fn view_is_known<
        PB: Fn(u64, Point2) -> Option<Point2>,
        PT: Fn(u64, Point2) -> Option<Point2>,
        L: Fn(u64, Point2) -> bool,
        N: Fn(Vector2) -> Scalar,
    >(
        self,
        time: u64,
        project_bottom: PB,
        project_top: PT,
        is_above_limbs: L,
        norm: N,
        velocity_threshold: Scalar,
    ) -> bool {
        let position = self.selected_position(norm, velocity_threshold);
        &&& self.speed_is_known(norm)
        &&& answers2(project_bottom, time, position)
        &&& limbs_are_known(value2(project_bottom, time, position), time, is_above_limbs)
        &&& !visible_to_camera(
            value2(project_bottom, time, position),
            time,
            is_above_limbs,
        ) ==> answers2(
            project_top,
            time,
            position,
        )
    }

    /// All that [`BallHypothesis::decayed_by_view`] speaks of has been
    /// computed.
    pub open spec fn decay_is_known<
        PB: Fn(u64, Point2) -> Option<Point2>,
        PT: Fn(u64, Point2) -> Option<Point2>,
        L: Fn(u64, Point2) -> bool,
        N: Fn(Vector2) -> Scalar,
        P: Fn(Scalar, Scalar) -> Scalar,
    >(
        self,
        time: u64,
        project_bottom: PB,
        project_top: PT,
        is_above_limbs: L,
        parameters: BallFilterParameters,
        norm: N,
        product: P,
    ) -> bool {
        &&& self.view_is_known(
            time,
            project_bottom,
            project_top,
            is_above_limbs,
            norm,
            parameters.resting_ball_velocity_threshold,
        )
        &&& answers2(
            product,
            self.validity,
            parameters.decay_factor(
                self.is_in_view(
                    time,
                    project_bottom,
                    project_top,
                    is_above_limbs,
                    norm,
                    parameters.resting_ball_velocity_threshold,
                ),
            ),
        )
    }

    /// The hypothesis after the decay step.
    pub open spec fn decayed_by_view<
        PB: Fn(u64, Point2) -> Option<Point2>,
        PT: Fn(u64, Point2) -> Option<Point2>,
        L: Fn(u64, Point2) -> bool,
        N: Fn(Vector2) -> Scalar,
        P: Fn(Scalar, Scalar) -> Scalar,
    >(
        self,
        time: u64,
        project_bottom: PB,
        project_top: PT,
        is_above_limbs: L,
        parameters: BallFilterParameters,
        norm: N,
        product: P,
    ) -> BallHypothesis {
        self.decayed(
            parameters.decay_factor(
                self.is_in_view(
                    time,
                    project_bottom,
                    project_top,
                    is_above_limbs,
                    norm,
                    parameters.resting_ball_velocity_threshold,
                ),
            ),
            product,
        )
    }
}

impl BallFilter {
    /// Lets every hypothesis decay: its validity is scaled by the factor for
    /// visible hypotheses where at least one camera should see the ball at
    /// the position the hypothesis gives, and by the factor for hidden ones
    /// otherwise.
    ///
    /// `project_bottom` and `project_top` take a position on the ground to
    /// the image that a camera had at the time `time`, and give `None`
    /// where that fails or where nothing is known of the camera at that
    /// time. `is_above_limbs` says of a pixel of the bottom image of that
    /// time that no limb of the robot covers it.
    pub fn decay_hypotheses<
        PB: Fn(u64, Point2) -> Option<Point2>,
        PT: Fn(u64, Point2) -> Option<Point2>,
        L: Fn(u64, Point2) -> bool,
        N: Fn(Vector2) -> Scalar,
        P: Fn(Scalar, Scalar) -> Scalar,
    >(
        &mut self,
        time: u64,
        project_bottom: &PB,
        project_top: &PT,
        is_above_limbs: &L,
        parameters: &BallFilterParameters,
        norm: &N,
        product: &P,
    )
        requires
            is_function2(*project_bottom),
            is_function2(*project_top),
            is_function2(*is_above_limbs),
            is_function(*norm),
            is_function2(*product),
        ensures
            final(self)@ == old(self)@.map_values(
                |h: BallHypothesis|
                    h.decayed_by_view(
                        time,
                        *project_bottom,
                        *project_top,
                        *is_above_limbs,
                        *parameters,
                        *norm,
                        *product,
                    ),
            ),
            forall|i: int|
                0 <= i < old(self)@.len() ==> (#[trigger] old(self)@[i]).decay_is_known(
                    time,
                    *project_bottom,
                    *project_top,
                    *is_above_limbs,
                    *parameters,
                    *norm,
                    *product,
                ),
    {
        let ghost step = |h: BallHypothesis|
            h.decayed_by_view(
                time,
                *project_bottom,
                *project_top,
                *is_above_limbs,
                *parameters,
                *norm,
                *product,
            );
        let mut i: usize = 0;
        while i < self.hypotheses.len()
            invariant
                i <= self.hypotheses.len(),
                self@.len() == old(self)@.len(),
                is_function2(*project_bottom),
                is_function2(*project_top),
                is_function2(*is_above_limbs),
                is_function(*norm),
                is_function2(*product),
                step == |h: BallHypothesis|
                    h.decayed_by_view(
                        time,
                        *project_bottom,
                        *project_top,
                        *is_above_limbs,
                        *parameters,
                        *norm,
                        *product,
                    ),
                forall|j: int| 0 <= j < i ==> self@[j] == step(#[trigger] old(self)@[j]),
                forall|j: int|
                    0 <= j < i ==> (#[trigger] old(self)@[j]).decay_is_known(
                        time,
                        *project_bottom,
                        *project_top,
                        *is_above_limbs,
                        *parameters,
                        *norm,
                        *product,
                    ),
                forall|j: int| i <= j < self@.len() ==> self@[j] == #[trigger] old(self)@[j],
            decreases self.hypotheses.len() - i,
        {
            let mut hypothesis = self.hypotheses[i];
            let position = hypothesis.selected_ball_position(
                norm,
                parameters.resting_ball_velocity_threshold,
            ).position;
            let ball_in_view = is_visible_to_camera(
                eval2(project_bottom, time, position),
                time,
                is_above_limbs,
            ) || match eval2(project_top, time, position) {
                    Some(pixel) => is_inside_image(pixel),
                    None => false,
                };
            hypothesis.decay(parameters.decay_factor(ball_in_view), product);
            self.hypotheses[i] = hypothesis;
            i = i + 1;
        }
        assert(self@ =~= old(self)@.map_values(step));
    }
}

} // verus!
