use ball_filter::cycle::{persistent_balls_in_control_cycle, CycleError, MainOutputs};
use ball_filter::gaussian;
use ball_filter::gaussian::{Matrix2, Matrix4, MultivariateNormalDistribution};
use ball_filter::geometry::{Isometry2, Point2, Vector2};
use ball_filter::hypothesis::moving::MovingHypothesis;
use ball_filter::hypothesis::resting::RestingHypothesis;
use ball_filter::parameters::{BallFilterNoise, BallFilterParameters, FieldBounds};
use ball_filter::scalar::Scalar;
use ball_filter::{
    BallFilter, BallHypothesis, BallPosition, CreationContext, MatchingHypotheses,
    RemovedHypotheses, ValidHypotheses,
};
use nalgebra::{SMatrix, SVector};

const SECOND: u64 = 1_000_000_000;

fn s(x: f32) -> Scalar {
    Scalar::from_bits(x.to_bits())
}

fn f(x: Scalar) -> f32 {
    f32::from_bits(x.to_bits())
}

fn point(x: f32, y: f32) -> Point2 {
    Point2::new(s(x), s(y))
}

fn xy(p: Point2) -> (f32, f32) {
    (f(p.x), f(p.y))
}

fn norm(v: Vector2) -> Scalar {
    s(SVector::<f32, 2>::new(f(v.x), f(v.y)).norm())
}

fn distance(a: Point2, b: Point2) -> Scalar {
    s((SVector::<f32, 2>::new(f(a.x), f(a.y)) - SVector::<f32, 2>::new(f(b.x), f(b.y))).norm())
}

fn product(a: Scalar, b: Scalar) -> Scalar {
    s(f(a) * f(b))
}

fn sum(a: Scalar, b: Scalar) -> Scalar {
    s(f(a) + f(b))
}

fn diagonal4(d: f32) -> Matrix4 {
    gaussian::diagonal4([s(d); 4])
}

fn diagonal2(d: f32) -> Matrix2 {
    gaussian::diagonal2([s(d); 2])
}

fn matrix<const R: usize, const C: usize>(rows: &[[Scalar; C]; R]) -> SMatrix<f32, R, C> {
    SMatrix::from_fn(|i, j| f(rows[i][j]))
}

fn rows<const R: usize, const C: usize>(matrix: &SMatrix<f32, R, C>) -> [[Scalar; C]; R] {
    let mut rows = [[s(0.0); C]; R];
    for i in 0..R {
        for j in 0..C {
            rows[i][j] = s(matrix[(i, j)]);
        }
    }
    rows
}

fn column<const N: usize>(entries: &[Scalar; N]) -> SVector<f32, N> {
    SVector::from_fn(|i, _| f(entries[i]))
}

fn entries<const N: usize>(column: &SVector<f32, N>) -> [Scalar; N] {
    let mut entries = [s(0.0); N];
    for i in 0..N {
        entries[i] = s(column[i]);
    }
    entries
}

fn multiply(a: Matrix4, b: Matrix4) -> Matrix4 {
    rows(&(matrix(&a) * matrix(&b)))
}

fn kalman_predict<const N: usize, const U: usize>(
    belief: MultivariateNormalDistribution<N>,
    state_prediction: [[Scalar; N]; N],
    control_input_model: [[Scalar; U]; N],
    control: [Scalar; U],
    process_noise: [[Scalar; N]; N],
) -> MultivariateNormalDistribution<N> {
    let transition = matrix(&state_prediction);
    let mean = transition * column(&belief.mean) + matrix(&control_input_model) * column(&control);
    let covariance =
        transition * matrix(&belief.covariance) * transition.transpose() + matrix(&process_noise);
    MultivariateNormalDistribution { mean: entries(&mean), covariance: rows(&covariance) }
}

fn kalman_update<const N: usize, const M: usize>(
    belief: MultivariateNormalDistribution<N>,
    measurement_prediction: [[Scalar; N]; M],
    measurement: [Scalar; M],
    measurement_noise: [[Scalar; M]; M],
) -> MultivariateNormalDistribution<N> {
    let observation = matrix(&measurement_prediction);
    let mean = column(&belief.mean);
    let covariance = matrix(&belief.covariance);
    let residual = column(&measurement) - observation * mean;
    let innovation = observation * covariance * observation.transpose() + matrix(&measurement_noise);
    let gain = covariance * observation.transpose() * innovation.try_inverse().unwrap();
    let mean = mean + gain * residual;
    let covariance = (SMatrix::<f32, N, N>::identity() - gain * observation) * covariance;
    MultivariateNormalDistribution { mean: entries(&mean), covariance: rows(&covariance) }
}

fn standing_still() -> Isometry2 {
    Isometry2 { rotation: gaussian::identity2(), translation: Vector2::zeros() }
}

fn trace<const N: usize>(belief: &MultivariateNormalDistribution<N>) -> f32 {
    matrix(&belief.covariance).trace()
}

fn no_projection(_: u64, _: Point2) -> Option<Point2> {
    None
}

fn centre_of_image(_: u64, _: Point2) -> Option<Point2> {
    Some(point(320.0, 240.0))
}

fn above_limbs(_: u64, _: Point2) -> bool {
    true
}

fn below_limbs(_: u64, _: Point2) -> bool {
    false
}

fn parameters() -> BallFilterParameters {
    BallFilterParameters {
        velocity_decay_factor: s(1.0),
        resting_ball_velocity_threshold: s(0.1),
        measurement_matching_distance: s(1.0),
        hypothesis_merge_distance: s(0.5),
        hypothesis_timeout: 2 * SECOND,
        validity_discard_threshold: s(0.25),
        validity_output_threshold: s(2.0),
        visible_validity_exponential_decay_factor: s(0.5),
        hidden_validity_exponential_decay_factor: s(0.75),
        noise: BallFilterNoise {
            process_noise_moving: [s(0.0); 4],
            process_noise_resting: [s(0.0); 2],
            measurement_noise: [s(1.0); 2],
            initial_covariance: [s(1.0); 4],
        },
    }
}

fn field() -> FieldBounds {
    FieldBounds { half_length: s(5.2), half_width: s(3.7) }
}

/// A hypothesis whose two beliefs sit at different places, so that the
/// tests can tell which one speaks.
fn hypothesis(moving: (f32, f32), velocity: (f32, f32), resting: (f32, f32)) -> BallHypothesis {
    BallHypothesis::new(
        MovingHypothesis::new(
            [s(moving.0), s(moving.1), s(velocity.0), s(velocity.1)],
            diagonal4(1.0),
        ),
        RestingHypothesis::new([s(resting.0), s(resting.1)], diagonal2(1.0)),
        0,
    )
}

fn still_at(x: f32, y: f32, last_update: u64, validity: f32) -> BallHypothesis {
    let mut h = hypothesis((x, y), (0.0, 0.0), (x, y));
    h.last_update = last_update;
    h.validity = s(validity);
    h
}

fn filter_of(hypotheses: Vec<BallHypothesis>) -> BallFilter {
    BallFilter { hypotheses }
}

fn validities(filter: &BallFilter) -> Vec<f32> {
    filter.hypotheses().iter().map(|h| f(h.validity)).collect()
}

fn close(a: f32, b: f32) -> bool {
    (a - b).abs() <= 1.0e-5
}

// --- the sub-models and the hypothesis ---------------------------------

#[test]
fn sub_models_give_back_what_they_hold() {
    let moving = MovingHypothesis::new([s(1.0), s(2.0), s(3.0), s(4.0)], diagonal4(0.5));
    assert_eq!(xy(moving.position()), (1.0, 2.0));
    assert_eq!((f(moving.velocity().x), f(moving.velocity().y)), (3.0, 4.0));
    assert_eq!(f(moving.0.covariance[2][2]), 0.5);
    let resting = RestingHypothesis::new([s(-1.0), s(-2.0)], diagonal2(0.25));
    assert_eq!(xy(resting.position()), (-1.0, -2.0));
    assert_eq!(f(resting.0.covariance[1][1]), 0.25);
}

#[test]
fn seeded_sub_models_sit_at_the_measurement_without_motion() {
    let moving = MovingHypothesis::seeded(point(1.5, -2.5), diagonal4(2.0));
    assert_eq!(moving.0.mean, [s(1.5), s(-2.5), s(0.0), s(0.0)]);
    assert_eq!(moving.0.covariance, diagonal4(2.0));
    let resting = RestingHypothesis::seeded(point(1.5, -2.5), diagonal2(3.0));
    assert_eq!(resting.0.mean, [s(1.5), s(-2.5)]);
    assert_eq!(resting.0.covariance, diagonal2(3.0));
}

#[test]
fn reset_overwrites_the_mean_and_keeps_the_covariance() {
    let mut resting = RestingHypothesis::new([s(1.0), s(2.0)], [[s(0.3), s(0.1)], [s(0.1), s(0.4)]]);
    resting.reset(point(7.0, -8.0));
    assert_eq!(xy(resting.position()), (7.0, -8.0));
    assert_eq!(resting.0.covariance, [[s(0.3), s(0.1)], [s(0.1), s(0.4)]]);
}

#[test]
fn ball_positions_are_taken_from_the_sub_models() {
    let moving = MovingHypothesis::new([s(1.0), s(2.0), s(3.0), s(4.0)], diagonal4(1.0));
    let ball = BallPosition::from_moving(moving, 17);
    assert_eq!(xy(ball.position), (1.0, 2.0));
    assert_eq!((f(ball.velocity.x), f(ball.velocity.y)), (3.0, 4.0));
    assert_eq!(ball.last_seen, 17);
    let resting = RestingHypothesis::new([s(5.0), s(6.0)], diagonal2(1.0));
    let ball = BallPosition::from_resting(resting, 18);
    assert_eq!(xy(ball.position), (5.0, 6.0));
    assert_eq!(ball.velocity, Vector2::zeros());
    assert_eq!(ball.last_seen, 18);
}

#[test]
fn a_new_hypothesis_has_validity_one() {
    let h = BallHypothesis::new(
        MovingHypothesis::seeded(point(1.0, 2.0), diagonal4(1.0)),
        RestingHypothesis::seeded(point(1.0, 2.0), diagonal2(1.0)),
        42,
    );
    assert_eq!(f(h.validity), 1.0);
    assert_eq!(h.last_update, 42);
    assert_eq!(xy(h.moving.position()), (1.0, 2.0));
    assert_eq!(xy(h.resting.position()), (1.0, 2.0));
}

#[test]
fn selection_threshold() {
    let threshold = 0.1f32;
    let epsilon = 1.0e-3f32;
    let slow = hypothesis((1.0, 1.0), (threshold - epsilon, 0.0), (2.0, 2.0));
    let ball = slow.selected_ball_position(&norm, s(threshold));
    assert_eq!(xy(ball.position), (2.0, 2.0));
    assert_eq!(ball.velocity, Vector2::zeros());
    assert!(slow.is_resting(&norm, s(threshold)));

    let fast = hypothesis((1.0, 1.0), (threshold + epsilon, 0.0), (2.0, 2.0));
    let ball = fast.selected_ball_position(&norm, s(threshold));
    assert_eq!(xy(ball.position), (1.0, 1.0));
    assert_eq!((f(ball.velocity.x), f(ball.velocity.y)), (threshold + epsilon, 0.0));
    assert!(!fast.is_resting(&norm, s(threshold)));
}

#[test]
fn a_speed_at_the_threshold_counts_as_rolling() {
    let h = hypothesis((1.0, 1.0), (0.3, 0.4), (2.0, 2.0));
    let exactly = |_: Vector2| s(0.5);
    assert!(!h.is_resting(&exactly, s(0.5)));
    assert_eq!(xy(h.selected_ball_position(&exactly, s(0.5)).position), (1.0, 1.0));
    let unknown = |_: Vector2| s(f32::NAN);
    assert!(!h.is_resting(&unknown, s(0.5)));
}

#[test]
fn the_selected_ball_carries_the_time_of_the_last_update() {
    let mut h = hypothesis((1.0, 1.0), (1.0, 0.0), (2.0, 2.0));
    h.last_update = 77;
    assert_eq!(h.selected_ball_position(&norm, s(0.1)).last_seen, 77);
    assert_eq!(h.choose_ball(&norm, s(0.1), 99).last_seen, 99);
    assert_eq!(xy(h.choose_ball(&norm, s(0.1), 99).position), (1.0, 1.0));
    assert_eq!(xy(h.choose_ball(&norm, s(5.0), 99).position), (2.0, 2.0));
}

#[test]
fn prediction_only_decay() {
    let dt = 0.1f32;
    let decay = 0.9f32;
    let mut h = hypothesis((1.0, 2.0), (0.5, -0.25), (1.0, 2.0));
    let (mut x, mut y, mut vx, mut vy) = (1.0f32, 2.0f32, 0.5f32, -0.25f32);
    for _ in 0..3 {
        h.predict(
            s(dt),
            standing_still(),
            s(decay),
            diagonal4(0.0),
            diagonal2(0.0),
            s(0.1),
            &multiply,
            &kalman_predict::<4, 2>,
            &kalman_predict::<2, 2>,
            &norm,
        );
        x += vx * dt;
        y += vy * dt;
        vx *= decay;
        vy *= decay;
        assert_eq!((f(h.moving.0.mean[0]), f(h.moving.0.mean[1])), (x, y));
        assert_eq!((f(h.moving.0.mean[2]), f(h.moving.0.mean[3])), (vx, vy));
        assert_eq!(xy(h.resting.position()), (1.0, 2.0));
    }
    assert!(close(f(h.moving.0.mean[0]), 1.0 + 0.05 + 0.045 + 0.0405));
    assert!(close(f(h.moving.0.mean[2]), 0.5 * 0.729));
    assert_eq!(f(h.validity), 1.0);
    assert_eq!(h.last_update, 0);
}

#[test]
fn prediction_moves_the_resting_belief_onto_a_slow_ball() {
    let mut h = hypothesis((1.0, 2.0), (0.05, 0.0), (4.0, 4.0));
    h.predict(
        s(1.0),
        standing_still(),
        s(1.0),
        diagonal4(0.0),
        diagonal2(0.5),
        s(0.1),
        &multiply,
        &kalman_predict::<4, 2>,
        &kalman_predict::<2, 2>,
        &norm,
    );
    assert!(close(f(h.moving.0.mean[0]), 1.05));
    assert_eq!(h.resting.position(), h.moving.position());
    assert!(close(f(h.resting.0.covariance[0][0]), 1.5));

    let mut h = hypothesis((1.0, 2.0), (0.5, 0.0), (4.0, 4.0));
    h.predict(
        s(1.0),
        standing_still(),
        s(1.0),
        diagonal4(0.0),
        diagonal2(0.5),
        s(0.1),
        &multiply,
        &kalman_predict::<4, 2>,
        &kalman_predict::<2, 2>,
        &norm,
    );
    assert_eq!(xy(h.resting.position()), (4.0, 4.0));
}

#[test]
fn the_slowed_down_speed_decides_on_the_reset() {
    let mut h = hypothesis((0.0, 0.0), (0.105, 0.0), (4.0, 4.0));
    h.predict(
        s(1.0),
        standing_still(),
        s(0.9),
        diagonal4(0.0),
        diagonal2(0.0),
        s(0.1),
        &multiply,
        &kalman_predict::<4, 2>,
        &kalman_predict::<2, 2>,
        &norm,
    );
    assert!(f(h.moving.0.mean[2]) < 0.1);
    assert_eq!(h.resting.position(), h.moving.position());
}

#[test]
fn update_corrects_both_beliefs_and_rewards() {
    let mut h = hypothesis((0.0, 0.0), (0.0, 0.0), (0.0, 0.0));
    h.update(
        5 * SECOND, point(1.0, 2.0),
        diagonal2(1.0),
        &kalman_update::<4, 2>,
        &kalman_update::<2, 2>,
        &sum,
    );
    assert_eq!(h.last_update, 5 * SECOND);
    assert_eq!(f(h.validity), 2.0);
    assert!(close(f(h.moving.0.mean[0]), 0.5) && close(f(h.moving.0.mean[1]), 1.0));
    assert!(close(f(h.resting.0.mean[0]), 0.5) && close(f(h.resting.0.mean[1]), 1.0));
    assert!(close(f(h.moving.0.covariance[0][0]), 0.5));
    assert!(close(f(h.moving.0.covariance[2][2]), 1.0));
    assert!(close(f(h.resting.0.covariance[1][1]), 0.5));
}

#[test]
fn update_convergence() {
    let mut h = BallFilter::spawn_hypothesis(point(0.0, 0.0), 0, diagonal4(1.0), diagonal2(1.0));
    let target = point(3.0, 4.0);
    let mut moving_trace = trace(&h.moving.0);
    let mut resting_trace = trace(&h.resting.0);
    let mut error = f(distance(h.resting.position(), target));
    for step in 1..=50u64 {
        h.update(
            step, target,
            diagonal2(0.1),
            &kalman_update::<4, 2>,
            &kalman_update::<2, 2>,
            &sum,
        );
        let next_moving_trace = trace(&h.moving.0);
        let next_resting_trace = trace(&h.resting.0);
        let next_error = f(distance(h.resting.position(), target));
        assert!(next_moving_trace < moving_trace);
        assert!(next_resting_trace < resting_trace);
        assert!(next_error < error);
        moving_trace = next_moving_trace;
        resting_trace = next_resting_trace;
        error = next_error;
    }
    assert!(f(distance(h.moving.position(), target)) < 0.05);
    assert!(f(distance(h.resting.position(), target)) < 0.05);
    assert_eq!(f(h.validity), 51.0);
    assert_eq!(h.last_update, 50);
}

#[test]
fn decay_scales_the_validity() {
    let mut h = still_at(0.0, 0.0, 3, 4.0);
    h.decay(s(0.25), &product);
    assert_eq!(f(h.validity), 1.0);
    assert_eq!(h.last_update, 3);
    h.decay(s(0.0), &product);
    assert_eq!(f(h.validity), 0.0);
}

#[test]
fn merge_keeps_validity_and_time_of_the_absorbing_hypothesis() {
    let mut a = still_at(0.0, 0.0, 10, 3.0);
    let b = still_at(1.0, 0.0, 20, 7.0);
    a.merge(b, &kalman_update::<4, 4>, &kalman_update::<2, 2>);
    assert_eq!(f(a.validity), 3.0);
    assert_eq!(a.last_update, 10);
    assert!(close(f(a.moving.0.mean[0]), 0.5));
    assert!(close(f(a.resting.0.mean[0]), 0.5));
    assert!(close(f(a.moving.0.covariance[0][0]), 0.5));
    assert!(close(f(a.resting.0.covariance[0][0]), 0.5));
}

#[test]
fn merge_associativity() {
    let a = BallHypothesis::new(
        MovingHypothesis::new([s(0.0), s(0.0), s(0.1), s(0.0)], diagonal4(0.5)),
        RestingHypothesis::new([s(0.0), s(0.1)], diagonal2(0.5)),
        0,
    );
    let b = BallHypothesis::new(
        MovingHypothesis::new([s(0.3), s(-0.2), s(0.0), s(0.2)], diagonal4(0.25)),
        RestingHypothesis::new([s(0.3), s(-0.2)], diagonal2(0.25)),
        0,
    );
    let c = BallHypothesis::new(
        MovingHypothesis::new([s(-0.1), s(0.4), s(0.3), s(0.1)], diagonal4(2.0)),
        RestingHypothesis::new([s(-0.1), s(0.4)], diagonal2(2.0)),
        0,
    );
    let mut b_absorbs_a = b;
    b_absorbs_a.merge(a, &kalman_update::<4, 4>, &kalman_update::<2, 2>);
    let mut one = c;
    one.merge(b_absorbs_a, &kalman_update::<4, 4>, &kalman_update::<2, 2>);

    let mut other = c;
    other.merge(a, &kalman_update::<4, 4>, &kalman_update::<2, 2>);
    other.merge(b, &kalman_update::<4, 4>, &kalman_update::<2, 2>);

    let mut third = a;
    third.merge(c, &kalman_update::<4, 4>, &kalman_update::<2, 2>);
    third.merge(b, &kalman_update::<4, 4>, &kalman_update::<2, 2>);

    for candidate in [other, third] {
        for i in 0..4 {
            assert!((f(one.moving.0.mean[i]) - f(candidate.moving.0.mean[i])).abs() < 1.0e-4);
            for j in 0..4 {
                assert!(
                    (f(one.moving.0.covariance[i][j]) - f(candidate.moving.0.covariance[i][j])).abs()
                        < 1.0e-4
                );
            }
        }
        for i in 0..2 {
            assert!((f(one.resting.0.mean[i]) - f(candidate.resting.0.mean[i])).abs() < 1.0e-4);
            for j in 0..2 {
                assert!(
                    (f(one.resting.0.covariance[i][j]) - f(candidate.resting.0.covariance[i][j]))
                        .abs() < 1.0e-4
                );
            }
        }
    }
}

#[test]
fn matrices_are_put_together_entry_by_entry() {
    let i = s(1.0);
    let o = s(0.0);
    assert_eq!(gaussian::identity2(), [[i, o], [o, i]]);
    assert_eq!(gaussian::identity4(), [[i, o, o, o], [o, i, o, o], [o, o, i, o], [o, o, o, i]]);
    assert_eq!(gaussian::identity4x2(), [[i, o], [o, i], [o, o], [o, o]]);
    assert_eq!(gaussian::identity2x4(), [[i, o, o, o], [o, i, o, o]]);
    assert_eq!(gaussian::diagonal2([s(2.0), s(3.0)]), [[s(2.0), o], [o, s(3.0)]]);
    assert_eq!(
        gaussian::diagonal4([s(2.0), s(3.0), s(4.0), s(5.0)]),
        [[s(2.0), o, o, o], [o, s(3.0), o, o], [o, o, s(4.0), o], [o, o, o, s(5.0)]]
    );
    assert_eq!(gaussian::pair_of(7u8, 8u8), [7, 8]);
    assert_eq!(gaussian::quad_of(1u8, 2u8, 3u8, 4u8), [1, 2, 3, 4]);
    assert_eq!(point(1.5, 2.5).coords(), [s(1.5), s(2.5)]);
    assert_eq!(Vector2::new(s(-1.0), s(4.0)).coords(), [s(-1.0), s(4.0)]);
}

#[test]
fn the_transition_keeps_the_velocity_but_for_the_decay() {
    let i = s(1.0);
    let o = s(0.0);
    let dt = s(0.012);
    let decay = s(0.98);
    assert_eq!(
        MovingHypothesis::constant_velocity_prediction(dt, decay),
        [[i, o, dt, o], [o, i, o, dt], [o, o, decay, o], [o, o, o, decay]]
    );
}

#[test]
fn the_frame_rotates_position_and_velocity_alike() {
    let o = s(0.0);
    let (a, b, c, d) = (s(0.6), s(-0.8), s(0.8), s(0.6));
    assert_eq!(
        MovingHypothesis::state_rotation([[a, b], [c, d]]),
        [[a, b, o, o], [c, d, o, o], [o, o, a, b], [o, o, c, d]]
    );
    assert_eq!(MovingHypothesis::state_rotation(gaussian::identity2()), gaussian::identity4());
}

#[test]
fn new_hypotheses_start_from_the_configured_variances() {
    let mut noise = parameters().noise;
    noise.initial_covariance = [s(1.0), s(2.0), s(3.0), s(4.0)];
    assert_eq!(
        noise.initial_moving_covariance(),
        gaussian::diagonal4([s(1.0), s(2.0), s(3.0), s(4.0)])
    );
    assert_eq!(noise.initial_resting_covariance(), gaussian::diagonal2([s(1.0), s(2.0)]));
}

#[test]
fn the_rolling_belief_is_carried_into_the_new_frame() {
    let quarter_turn = Isometry2 {
        rotation: [[s(0.0), s(-1.0)], [s(1.0), s(0.0)]],
        translation: Vector2::new(s(10.0), s(20.0)),
    };
    let mut moving = MovingHypothesis::new([s(1.0), s(0.0), s(2.0), s(0.0)], diagonal4(1.0));
    moving.predict(
        s(0.5),
        quarter_turn,
        s(0.5),
        diagonal4(0.25),
        &multiply,
        &kalman_predict::<4, 2>,
    );
    assert_eq!(xy(moving.position()), (10.0, 22.0));
    assert_eq!((f(moving.velocity().x), f(moving.velocity().y)), (0.0, 1.0));
    assert!(close(f(moving.0.covariance[0][0]), 1.0 + 0.25 + 0.25));
    assert!(close(f(moving.0.covariance[2][2]), 0.25 + 0.25));
    assert!(close(f(moving.0.covariance[0][2]), 0.25));

    let mut resting = RestingHypothesis::new([s(1.0), s(0.0)], diagonal2(1.0));
    resting.predict(quarter_turn, diagonal2(0.25), &kalman_predict::<2, 2>);
    assert_eq!(xy(resting.position()), (10.0, 21.0));
    assert!(close(f(resting.0.covariance[0][0]), 1.25));
    assert!(close(f(resting.0.covariance[0][1]), 0.0));
}

#[test]
fn a_measurement_corrects_the_position_of_a_belief() {
    let mut moving = MovingHypothesis::new([s(0.0), s(0.0), s(1.0), s(1.0)], diagonal4(1.0));
    moving.update(point(2.0, 4.0), diagonal2(3.0), &kalman_update::<4, 2>);
    assert!(close(f(moving.0.mean[0]), 0.5) && close(f(moving.0.mean[1]), 1.0));
    assert_eq!((f(moving.0.mean[2]), f(moving.0.mean[3])), (1.0, 1.0));
    assert!(close(f(moving.0.covariance[0][0]), 0.75));
    assert!(close(f(moving.0.covariance[3][3]), 1.0));

    let mut resting = RestingHypothesis::new([s(0.0), s(0.0)], diagonal2(1.0));
    resting.update(point(2.0, 4.0), diagonal2(3.0), &kalman_update::<2, 2>);
    assert!(close(f(resting.0.mean[0]), 0.5) && close(f(resting.0.mean[1]), 1.0));
    assert!(close(f(resting.0.covariance[1][1]), 0.75));
}

#[test]
fn merging_beliefs_weighs_them_by_their_covariances() {
    let mut moving = MovingHypothesis::new([s(0.0), s(0.0), s(0.0), s(0.0)], diagonal4(1.0));
    let other = MovingHypothesis::new([s(4.0), s(8.0), s(-4.0), s(2.0)], diagonal4(3.0));
    moving.merge(other, &kalman_update::<4, 4>);
    assert!(close(f(moving.0.mean[0]), 1.0) && close(f(moving.0.mean[1]), 2.0));
    assert!(close(f(moving.0.mean[2]), -1.0) && close(f(moving.0.mean[3]), 0.5));
    assert!(close(f(moving.0.covariance[0][0]), 0.75));

    let mut resting = RestingHypothesis::new([s(0.0), s(0.0)], diagonal2(3.0));
    let other = RestingHypothesis::new([s(4.0), s(8.0)], diagonal2(1.0));
    resting.merge(other, &kalman_update::<2, 2>);
    assert!(close(f(resting.0.mean[0]), 3.0) && close(f(resting.0.mean[1]), 6.0));
    assert!(close(f(resting.0.covariance[0][0]), 0.75));
}

#[test]
fn every_measurement_has_the_configured_noise() {
    let mut p = parameters();
    p.noise.measurement_noise = [s(3.0), s(1.0)];
    let mut filter = filter_of(vec![still_at(0.0, 0.0, 0, 1.0)]);
    filter.update_hypotheses_with_measurement(
        point(0.4, 0.4),
        SECOND,
        &p,
        &distance,
        &kalman_update::<4, 2>,
        &kalman_update::<2, 2>,
        &sum,
    );
    let h = filter.hypotheses()[0];
    assert!(close(f(h.resting.0.mean[0]), 0.1) && close(f(h.resting.0.mean[1]), 0.2));
    assert!(close(f(h.moving.0.mean[0]), 0.1) && close(f(h.moving.0.mean[1]), 0.2));
    assert!(close(f(h.resting.0.covariance[0][0]), 0.75));
    assert!(close(f(h.resting.0.covariance[1][1]), 0.5));

    let mut far = filter_of(vec![still_at(0.0, 0.0, 0, 1.0)]);
    far.hypotheses[0].resting = RestingHypothesis::new([s(40.0), s(40.0)], diagonal2(1.0));
    far.update_hypotheses_with_measurement(
        point(40.4, 40.4),
        SECOND,
        &p,
        &distance,
        &kalman_update::<4, 2>,
        &kalman_update::<2, 2>,
        &sum,
    );
    assert!(close(f(far.hypotheses()[0].resting.0.mean[0]), 40.1));
    assert!(close(f(far.hypotheses()[0].resting.0.covariance[0][0]), 0.75));
}

// --- the tracker ---------------------------------------------------------

#[test]
fn a_new_tracker_follows_nothing() {
    let filter = BallFilter::new(CreationContext {});
    assert!(filter.hypotheses().is_empty());
    assert!(filter.best_hypothesis(s(0.0)).is_none());
    assert!(filter.find_best_hypothesis(s(0.0)).is_none());
}

#[test]
fn spawn_on_unmatched() {
    let mut filter = BallFilter::new(CreationContext {});
    filter.update_hypotheses_with_measurement(
        point(1.0, 2.0),
        3 * SECOND,
        &parameters(),
        &distance,
        &kalman_update::<4, 2>,
        &kalman_update::<2, 2>,
        &sum,
    );
    assert_eq!(filter.hypotheses().len(), 1);
    let h = filter.hypotheses()[0];
    for threshold in [0.0, 0.1, 10.0] {
        let ball = h.selected_ball_position(&norm, s(threshold));
        assert_eq!(xy(ball.position), (1.0, 2.0));
        assert_eq!(ball.velocity, Vector2::zeros());
    }
    assert_eq!(f(h.validity), 1.0);
    assert_eq!(h.last_update, 3 * SECOND);
    assert_eq!(h.moving.0.covariance, diagonal4(1.0));
    assert_eq!(h.resting.0.covariance, diagonal2(1.0));
}

#[test]
fn spawn_appends_and_leaves_the_others() {
    let first = still_at(0.0, 0.0, 1, 3.0);
    let mut filter = filter_of(vec![first]);
    filter.spawn(9, point(-1.0, 4.0), diagonal4(2.0), diagonal2(3.0));
    assert_eq!(filter.hypotheses().len(), 2);
    assert_eq!(f(filter.hypotheses()[0].validity), 3.0);
    assert_eq!(xy(filter.hypotheses()[0].moving.position()), (0.0, 0.0));
    let spawned = filter.hypotheses()[1];
    assert_eq!(spawned.moving.0.mean, [s(-1.0), s(4.0), s(0.0), s(0.0)]);
    assert_eq!(spawned.resting.0.mean, [s(-1.0), s(4.0)]);
    assert_eq!(spawned.moving.0.covariance, diagonal4(2.0));
    assert_eq!(spawned.resting.0.covariance, diagonal2(3.0));
    assert_eq!(f(spawned.validity), 1.0);
    assert_eq!(spawned.last_update, 9);
}

#[test]
fn a_measurement_updates_every_hypothesis_in_reach_and_spawns_none() {
    let mut filter = filter_of(vec![
        still_at(0.0, 0.0, 0, 1.0),
        still_at(5.0, 5.0, 0, 1.0),
        still_at(0.5, 0.0, 0, 1.0),
    ]);
    filter.update_hypotheses_with_measurement(
        point(0.25, 0.0),
        SECOND,
        &parameters(),
        &distance,
        &kalman_update::<4, 2>,
        &kalman_update::<2, 2>,
        &sum,
    );
    assert_eq!(filter.hypotheses().len(), 3);
    assert_eq!(validities(&filter), vec![2.0, 1.0, 2.0]);
    assert_eq!(filter.hypotheses()[0].last_update, SECOND);
    assert_eq!(filter.hypotheses()[1].last_update, 0);
    assert_eq!(filter.hypotheses()[2].last_update, SECOND);
    assert!(close(f(filter.hypotheses()[0].moving.0.mean[0]), 0.125));
    assert!(close(f(filter.hypotheses()[2].moving.0.mean[0]), 0.375));
    assert_eq!(xy(filter.hypotheses()[1].moving.position()), (5.0, 5.0));
}

#[test]
fn either_belief_can_be_matched() {
    let by_resting = hypothesis((9.0, 9.0), (0.0, 0.0), (0.0, 0.0));
    let by_moving = hypothesis((0.0, 0.0), (0.0, 0.0), (9.0, 9.0));
    let by_neither = hypothesis((9.0, 9.0), (0.0, 0.0), (9.0, 9.0));
    assert!(by_resting.matches(point(0.1, 0.0), s(1.0), &distance));
    assert!(by_moving.matches(point(0.1, 0.0), s(1.0), &distance));
    assert!(!by_neither.matches(point(0.1, 0.0), s(1.0), &distance));
    let filter = filter_of(vec![by_neither, by_resting, by_neither, by_moving]);
    let matching = filter.find_matching_hypotheses(point(0.1, 0.0), s(1.0), &distance);
    assert_eq!(matching.0, vec![1, 3]);
    assert!(!matching.is_empty());
}

#[test]
fn the_matching_distance_is_exclusive() {
    let h = still_at(0.0, 0.0, 0, 1.0);
    assert!(!h.matches(point(1.0, 0.0), s(1.0), &distance));
    assert!(h.matches(point(0.999, 0.0), s(1.0), &distance));
    let filter = filter_of(vec![h]);
    assert!(filter.find_matching_hypotheses(point(1.0, 0.0), s(1.0), &distance).is_empty());
}

#[test]
fn update_touches_only_the_places_it_is_given() {
    let mut filter = filter_of(vec![
        still_at(0.0, 0.0, 0, 1.0),
        still_at(0.0, 0.0, 0, 1.0),
        still_at(0.0, 0.0, 0, 1.0),
    ]);
    filter.update(
        &MatchingHypotheses(vec![0, 2]),
        7,
        point(1.0, 0.0),
        diagonal2(1.0),
        &kalman_update::<4, 2>,
        &kalman_update::<2, 2>,
        &sum,
    );
    assert_eq!(validities(&filter), vec![2.0, 1.0, 2.0]);
    assert_eq!(filter.hypotheses()[1].last_update, 0);
    assert_eq!(xy(filter.hypotheses()[1].moving.position()), (0.0, 0.0));
    assert!(close(f(filter.hypotheses()[2].resting.0.mean[0]), 0.5));
}

#[test]
fn predict_advances_every_hypothesis() {
    let mut filter = filter_of(vec![
        hypothesis((0.0, 0.0), (1.0, 0.0), (0.0, 0.0)),
        hypothesis((1.0, 1.0), (0.0, 2.0), (1.0, 1.0)),
        hypothesis((2.0, 2.0), (0.01, 0.0), (7.0, 7.0)),
    ]);
    filter.predict(
        s(0.5),
        standing_still(),
        &parameters(),
        &multiply,
        &kalman_predict::<4, 2>,
        &kalman_predict::<2, 2>,
        &norm,
    );
    assert_eq!(xy(filter.hypotheses()[0].moving.position()), (0.5, 0.0));
    assert_eq!(xy(filter.hypotheses()[0].resting.position()), (0.0, 0.0));
    assert_eq!(xy(filter.hypotheses()[1].moving.position()), (1.0, 2.0));
    assert_eq!(xy(filter.hypotheses()[2].moving.position()), (2.005, 2.0));
    assert_eq!(xy(filter.hypotheses()[2].resting.position()), (2.005, 2.0));
}

#[test]
fn a_hypothesis_in_view_decays_by_the_visible_factor() {
    let mut filter = filter_of(vec![still_at(1.0, 0.0, 0, 4.0)]);
    filter.decay_hypotheses(
        0,
        &centre_of_image,
        &no_projection,
        &above_limbs,
        &parameters(),
        &norm,
        &product,
    );
    assert_eq!(validities(&filter), vec![2.0]);
    filter.decay_hypotheses(
        0,
        &no_projection,
        &centre_of_image,
        &below_limbs,
        &parameters(),
        &norm,
        &product,
    );
    assert_eq!(validities(&filter), vec![1.0]);
}

#[test]
fn a_hidden_hypothesis_decays_by_the_hidden_factor() {
    let mut filter = filter_of(vec![still_at(1.0, 0.0, 0, 4.0), still_at(2.0, 0.0, 0, 8.0)]);
    filter.decay_hypotheses(
        0,
        &no_projection,
        &no_projection,
        &above_limbs,
        &parameters(),
        &norm,
        &product,
    );
    assert_eq!(validities(&filter), vec![3.0, 6.0]);
    filter.decay_hypotheses(
        0,
        &centre_of_image,
        &no_projection,
        &below_limbs,
        &parameters(),
        &norm,
        &product,
    );
    assert_eq!(validities(&filter), vec![2.25, 4.5]);
    let outside = |_: u64, _: Point2| Some(point(640.0, 10.0));
    filter.decay_hypotheses(0, &outside, &outside, &above_limbs, &parameters(), &norm, &product);
    assert_eq!(validities(&filter), vec![1.6875, 3.375]);
}

#[test]
fn visibility_is_tested_where_the_hypothesis_puts_the_ball() {
    let sees_origin = |_: u64, p: Point2| {
        if xy(p) == (0.0, 0.0) {
            Some(point(10.0, 10.0))
        } else {
            None
        }
    };
    let mut filter = filter_of(vec![
        hypothesis((0.0, 0.0), (1.0, 0.0), (3.0, 3.0)),
        hypothesis((3.0, 3.0), (0.0, 0.0), (0.0, 0.0)),
        hypothesis((0.0, 0.0), (0.0, 0.0), (3.0, 3.0)),
    ]);
    for h in filter.hypotheses.iter_mut() {
        h.validity = s(4.0);
    }
    filter.decay_hypotheses(
        0,
        &sees_origin,
        &no_projection,
        &above_limbs,
        &parameters(),
        &norm,
        &product,
    );
    assert_eq!(validities(&filter), vec![2.0, 2.0, 3.0]);
    assert_eq!(f(parameters().decay_factor(true)), 0.5);
    assert_eq!(f(parameters().decay_factor(false)), 0.75);
}

#[test]
fn prune_on_timeout() {
    let now = 10 * SECOND;
    let stale = still_at(1.0, 1.0, now - 2 * SECOND, 100.0);
    let fresh = still_at(-1.0, -1.0, now - 2 * SECOND + 1, 100.0);
    let mut filter = filter_of(vec![stale, fresh]);
    let removed = filter
        .remove_hypotheses(
            now,
            &parameters(),
            &field(),
            &norm,
            &distance,
            &kalman_update::<4, 4>,
            &kalman_update::<2, 2>,
        )
        .inner();
    assert_eq!(removed.len(), 1);
    assert_eq!(removed[0].last_update, now - 2 * SECOND);
    assert_eq!(f(removed[0].validity), 100.0);
    assert_eq!(filter.hypotheses().len(), 1);
    assert_eq!(filter.hypotheses()[0].last_update, now - 2 * SECOND + 1);
}

#[test]
fn prune_on_lost_validity() {
    let mut filter = filter_of(vec![
        still_at(0.0, 0.0, 0, 0.25),
        still_at(2.0, 0.0, 0, 0.26),
        still_at(4.0, 0.0, 0, 0.0),
    ]);
    let (valid, removed) = filter.partition(SECOND, &parameters(), &field(), &norm);
    assert!(filter.hypotheses().is_empty());
    assert_eq!(valid.0.len(), 1);
    assert_eq!(f(valid.0[0].validity), 0.26);
    let removed = removed.inner();
    assert_eq!(removed.len(), 2);
    assert_eq!(f(removed[0].validity), 0.25);
    assert_eq!(f(removed[1].validity), 0.0);
}

#[test]
fn prune_outside_the_field() {
    let mut filter = filter_of(vec![
        still_at(5.1, 0.0, 0, 1.0),
        still_at(5.2, 0.0, 0, 1.0),
        still_at(-5.3, 0.0, 0, 1.0),
        still_at(0.0, -3.6, 0, 1.0),
        still_at(0.0, 3.7, 0, 1.0),
        hypothesis((9.0, 9.0), (0.0, 0.0), (1.0, 1.0)),
        hypothesis((9.0, 9.0), (1.0, 0.0), (1.0, 1.0)),
    ]);
    let (valid, removed) = filter.partition(SECOND, &parameters(), &field(), &norm);
    let kept: Vec<(f32, f32)> =
        valid.0.iter().map(|h| xy(h.selected_ball_position(&norm, s(0.1)).position)).collect();
    assert_eq!(kept, vec![(5.1, 0.0), (0.0, -3.6), (1.0, 1.0)]);
    let lost: Vec<(f32, f32)> = removed
        .inner()
        .iter()
        .map(|h| xy(h.selected_ball_position(&norm, s(0.1)).position))
        .collect();
    assert_eq!(lost, vec![(5.2, 0.0), (-5.3, 0.0), (0.0, 3.7), (9.0, 9.0)]);
}

#[test]
fn merge_on_proximity() {
    let pair = || vec![still_at(0.0, 0.0, 0, 2.0), still_at(0.4, 0.0, 0, 3.0)];

    let mut near = parameters();
    near.hypothesis_merge_distance = s(0.5);
    let mut filter = filter_of(pair());
    let removed = filter.remove_hypotheses(
        SECOND,
        &near,
        &field(),
        &norm,
        &distance,
        &kalman_update::<4, 4>,
        &kalman_update::<2, 2>,
    );
    assert!(removed.inner().is_empty());
    assert_eq!(filter.hypotheses().len(), 1);
    assert_eq!(f(filter.hypotheses()[0].validity), 2.0);
    assert!(close(f(filter.hypotheses()[0].resting.0.mean[0]), 0.2));
    assert!(close(f(filter.hypotheses()[0].moving.0.mean[0]), 0.2));

    let mut far = parameters();
    far.hypothesis_merge_distance = s(0.3);
    let mut filter = filter_of(pair());
    filter.remove_hypotheses(SECOND, &far, &field(), &norm, &distance, &kalman_update::<4, 4>, &kalman_update::<2, 2>);
    assert_eq!(filter.hypotheses().len(), 2);
    assert_eq!(xy(filter.hypotheses()[0].resting.position()), (0.0, 0.0));
    assert_eq!(xy(filter.hypotheses()[1].resting.position()), (0.4, 0.0));
    assert_eq!(validities(&filter), vec![2.0, 3.0]);
}

#[test]
fn merging_folds_into_the_first_hypothesis_in_reach() {
    let mut filter = BallFilter::new(CreationContext {});
    let valid = ValidHypotheses(vec![
        still_at(0.0, 0.0, 1, 1.0),
        still_at(0.6, 0.0, 2, 2.0),
        still_at(0.3, 0.0, 3, 3.0),
        still_at(3.0, 0.0, 4, 4.0),
    ]);
    filter.merge(valid, &parameters(), &norm, &distance, &kalman_update::<4, 4>, &kalman_update::<2, 2>);
    assert_eq!(validities(&filter), vec![1.0, 2.0, 4.0]);
    assert!(close(f(filter.hypotheses()[0].resting.0.mean[0]), 0.15));
    assert_eq!(xy(filter.hypotheses()[1].resting.position()), (0.6, 0.0));
    assert_eq!(filter.hypotheses()[0].last_update, 1);
}

#[test]
fn merging_compares_with_the_state_after_earlier_merges() {
    let mut filter = BallFilter::new(CreationContext {});
    let valid = ValidHypotheses(vec![
        still_at(0.0, 0.0, 0, 1.0),
        still_at(0.4, 0.0, 0, 1.0),
        still_at(0.6, 0.0, 0, 1.0),
    ]);
    filter.merge(valid, &parameters(), &norm, &distance, &kalman_update::<4, 4>, &kalman_update::<2, 2>);
    assert_eq!(filter.hypotheses().len(), 1);
    assert!(close(f(filter.hypotheses()[0].resting.0.mean[0]), 0.2 + 0.4 / 3.0));

    let mut filter = BallFilter::new(CreationContext {});
    let valid = ValidHypotheses(vec![
        still_at(0.0, 0.0, 0, 1.0),
        still_at(0.6, 0.0, 0, 1.0),
        still_at(0.4, 0.0, 0, 1.0),
    ]);
    filter.merge(valid, &parameters(), &norm, &distance, &kalman_update::<4, 4>, &kalman_update::<2, 2>);
    assert_eq!(filter.hypotheses().len(), 2);
    assert!(close(f(filter.hypotheses()[0].resting.0.mean[0]), 0.2));
    assert_eq!(xy(filter.hypotheses()[1].resting.position()), (0.6, 0.0));
}

#[test]
fn the_merge_distance_is_exclusive() {
    let mut exact = parameters();
    exact.hypothesis_merge_distance = s(0.5);
    let mut filter = BallFilter::new(CreationContext {});
    let valid = ValidHypotheses(vec![still_at(0.0, 0.0, 0, 1.0), still_at(0.5, 0.0, 0, 1.0)]);
    filter.merge(valid, &exact, &norm, &distance, &kalman_update::<4, 4>, &kalman_update::<2, 2>);
    assert_eq!(filter.hypotheses().len(), 2);
}

#[test]
fn pruning_an_empty_tracker_leaves_it_empty() {
    let mut filter = BallFilter::new(CreationContext {});
    let removed = filter.remove_hypotheses(
        SECOND,
        &parameters(),
        &field(),
        &norm,
        &distance,
        &kalman_update::<4, 4>,
        &kalman_update::<2, 2>,
    );
    assert!(removed.inner().is_empty());
    assert!(filter.hypotheses().is_empty());
}

#[test]
fn the_best_hypothesis_has_the_highest_validity() {
    let filter = filter_of(vec![
        still_at(0.0, 0.0, 0, 1.5),
        still_at(1.0, 0.0, 0, 4.0),
        still_at(2.0, 0.0, 0, 3.0),
    ]);
    let best = filter.best_hypothesis(s(2.0)).unwrap();
    assert_eq!(f(best.validity), 4.0);
    assert_eq!(xy(best.resting.position()), (1.0, 0.0));
    assert_eq!(f(filter.find_best_hypothesis(s(2.0)).unwrap().validity), 4.0);
    assert!(filter.best_hypothesis(s(4.5)).is_none());
    assert!(filter.find_best_hypothesis(s(4.0)).is_none());
    assert!(filter.best_hypothesis(s(4.0)).is_none());
    assert_eq!(f(filter.best_hypothesis(s(3.5)).unwrap().validity), 4.0);
    assert!(filter.best_hypothesis(s(f32::NAN)).is_none());
}

#[test]
fn a_validity_that_is_no_number_is_found() {
    let mut filter = filter_of(vec![still_at(0.0, 0.0, 0, 1.0), still_at(1.0, 0.0, 0, 0.0)]);
    assert!(filter.is_sound());
    filter.hypotheses[1].validity = s(f32::NAN);
    assert!(!filter.is_sound());
    filter.hypotheses[1].validity = s(f32::INFINITY);
    assert!(filter.is_sound());
    assert!(BallFilter::new(CreationContext {}).is_sound());
}

#[test]
fn a_hypothesis_from_the_future_is_found() {
    let filter = filter_of(vec![still_at(0.0, 0.0, 5, 1.0), still_at(1.0, 0.0, 9, 1.0)]);
    assert!(filter.is_no_later_than(9));
    assert!(filter.is_no_later_than(10));
    assert!(!filter.is_no_later_than(8));
    assert!(BallFilter::new(CreationContext {}).is_no_later_than(0));
}

#[test]
fn of_level_hypotheses_the_last_is_best() {
    let filter = filter_of(vec![
        still_at(0.0, 0.0, 0, 3.0),
        still_at(1.0, 0.0, 0, 3.0),
        still_at(2.0, 0.0, 0, 1.0),
    ]);
    assert_eq!(xy(filter.best_hypothesis(s(0.0)).unwrap().resting.position()), (1.0, 0.0));
    assert_eq!(xy(filter.find_best_hypothesis(s(0.0)).unwrap().resting.position()), (1.0, 0.0));
}

#[test]
fn batches_hold_top_then_bottom() {
    let top = vec![
        (10, vec![Some(vec![point(1.0, 0.0), point(2.0, 0.0)]), None]),
        (20, vec![None]),
        (30, vec![Some(vec![point(7.0, 0.0)])]),
    ];
    let bottom = vec![
        vec![None, Some(vec![point(3.0, 0.0)])],
        vec![Some(vec![]), Some(vec![point(4.0, 0.0)]), Some(vec![point(5.0, 0.0)])],
    ];
    let batches = persistent_balls_in_control_cycle(&top, &bottom);
    assert_eq!(batches.len(), 2);
    assert_eq!(batches[0].0, 10);
    assert_eq!(batches[0].1, vec![point(1.0, 0.0), point(2.0, 0.0), point(3.0, 0.0)]);
    assert_eq!(batches[1].0, 20);
    assert_eq!(batches[1].1, vec![point(4.0, 0.0), point(5.0, 0.0)]);
    assert!(persistent_balls_in_control_cycle(&Vec::new(), &bottom).is_empty());
}

#[test]
fn one_batch_predicts_decays_and_associates() {
    let mut filter = filter_of(vec![hypothesis((0.0, 0.0), (1.0, 0.0), (0.0, 0.0))]);
    filter.hypotheses[0].validity = s(4.0);
    filter.advance_all_hypotheses(
        SECOND,
        &vec![point(1.0, 0.0), point(4.0, 4.0), point(4.5, 4.0)],
        s(1.0),
        standing_still(),
        &parameters(),
        &multiply,
        &kalman_predict::<4, 2>,
        &kalman_predict::<2, 2>,
        &norm,
        &no_projection,
        &no_projection,
        &above_limbs,
        &product,
        &distance,
        &kalman_update::<4, 2>,
        &kalman_update::<2, 2>,
        &sum,
    );
    assert_eq!(filter.hypotheses().len(), 2);
    let followed = filter.hypotheses()[0];
    assert_eq!(f(followed.validity), 4.0);
    assert_eq!(followed.last_update, SECOND);
    assert!(close(f(followed.moving.0.mean[0]), 1.0));
    let spawned = filter.hypotheses()[1];
    assert_eq!(f(spawned.validity), 2.0);
    assert_eq!(spawned.last_update, SECOND);
    assert!(close(f(spawned.resting.0.mean[0]), 4.25));
}

#[test]
fn a_batch_without_balls_only_predicts_and_decays() {
    let mut p = parameters();
    p.velocity_decay_factor = s(0.5);
    let mut filter = filter_of(vec![hypothesis((0.0, 0.0), (1.0, 0.0), (0.0, 0.0))]);
    filter.advance_all_hypotheses(
        SECOND,
        &Vec::new(),
        s(1.0),
        standing_still(),
        &p,
        &multiply,
        &kalman_predict::<4, 2>,
        &kalman_predict::<2, 2>,
        &norm,
        &centre_of_image,
        &no_projection,
        &above_limbs,
        &product,
        &distance,
        &kalman_update::<4, 2>,
        &kalman_update::<2, 2>,
        &sum,
    );
    assert_eq!(filter.hypotheses().len(), 1);
    let h = filter.hypotheses()[0];
    assert_eq!(f(h.validity), 0.5);
    assert_eq!(h.last_update, 0);
    assert_eq!(h.moving.0.mean, [s(1.0), s(0.0), s(0.5), s(0.0)]);
}

#[test]
fn a_cycle_reports_the_best_the_lost_and_the_doubted() {
    let now = 10 * SECOND;
    let mut filter = filter_of(vec![
        still_at(0.0, 0.0, now, 5.0),
        still_at(2.0, 0.0, now, 1.0),
        still_at(9.0, 0.0, now, 3.0),
        still_at(-2.0, 0.0, now - 3 * SECOND, 2.0),
        still_at(-3.0, 0.0, now - 3 * SECOND, 1.9),
        hypothesis((3.0, 1.0), (1.0, 0.0), (0.0, 3.0)),
    ]);
    filter.hypotheses[5].last_update = now - 1;
    filter.hypotheses[5].validity = s(2.0);
    let MainOutputs { ball_position, removed_ball_positions, hypothetical_ball_positions } = filter
        .cycle(now, &parameters(), &field(), &norm, &distance, &kalman_update::<4, 4>, &kalman_update::<2, 2>);
    let ball = ball_position.unwrap();
    assert_eq!(xy(ball.position), (0.0, 0.0));
    assert_eq!(ball.velocity, Vector2::zeros());
    assert_eq!(ball.last_seen, now);
    assert_eq!(
        removed_ball_positions,
        vec![point(9.0, 0.0), point(-2.0, 0.0), point(-3.0, 0.0)]
    );
    assert_eq!(hypothetical_ball_positions.len(), 1);
    assert_eq!(xy(hypothetical_ball_positions[0].position), (2.0, 0.0));
    assert_eq!(f(hypothetical_ball_positions[0].validity), 1.0);
    assert_eq!(validities(&filter), vec![5.0, 1.0, 2.0]);
}

#[test]
fn a_cycle_reports_a_rolling_ball_with_its_velocity() {
    let now = 4 * SECOND;
    let mut rolling = hypothesis((3.0, 1.0), (1.0, -0.5), (0.0, 3.0));
    rolling.last_update = now - 5;
    rolling.validity = s(2.5);
    let mut filter = filter_of(vec![rolling]);
    let outputs =
        filter.cycle(now, &parameters(), &field(), &norm, &distance, &kalman_update::<4, 4>, &kalman_update::<2, 2>);
    let ball = outputs.ball_position.unwrap();
    assert_eq!(xy(ball.position), (3.0, 1.0));
    assert_eq!((f(ball.velocity.x), f(ball.velocity.y)), (1.0, -0.5));
    assert_eq!(ball.last_seen, now - 5);
    assert!(outputs.removed_ball_positions.is_empty());
    assert!(outputs.hypothetical_ball_positions.is_empty());
}

#[test]
fn a_cycle_without_a_trusted_hypothesis_reports_no_ball() {
    let mut filter = filter_of(vec![still_at(0.0, 0.0, 0, 2.0), still_at(2.0, 2.0, 0, 0.1)]);
    let outputs = filter.cycle(
        SECOND,
        &parameters(),
        &field(),
        &norm,
        &distance,
        &kalman_update::<4, 4>,
        &kalman_update::<2, 2>,
    );
    assert!(outputs.ball_position.is_none());
    assert_eq!(outputs.removed_ball_positions, vec![point(2.0, 2.0)]);
    assert!(outputs.hypothetical_ball_positions.is_empty());
    assert_eq!(validities(&filter), vec![2.0]);

    let mut empty = BallFilter::new(CreationContext {});
    let outputs = empty.cycle(
        SECOND,
        &parameters(),
        &field(),
        &norm,
        &distance,
        &kalman_update::<4, 4>,
        &kalman_update::<2, 2>,
    );
    assert!(outputs.ball_position.is_none());
    assert!(empty.hypotheses().is_empty());
}

#[test]
fn removed_hypotheses_hand_out_what_they_hold() {
    let removed = RemovedHypotheses(vec![still_at(1.0, 2.0, 3, 4.0)]);
    let inner = removed.inner();
    assert_eq!(inner.len(), 1);
    assert_eq!(inner[0].last_update, 3);
    let positions = BallFilter::removed_ball_positions(
        &RemovedHypotheses(vec![still_at(1.0, 2.0, 3, 4.0), still_at(5.0, 6.0, 3, 1.0)]),
        &parameters(),
        &norm,
    );
    assert_eq!(positions, vec![point(1.0, 2.0), point(5.0, 6.0)]);
}

#[test]
fn full_cycles_follow_a_ball_and_forget_it() {
    let mut p = parameters();
    p.validity_output_threshold = s(1.9);
    p.velocity_decay_factor = s(0.98);
    p.noise.process_noise_moving = [s(0.001); 4];
    p.noise.process_noise_resting = [s(0.001); 2];
    p.noise.measurement_noise = [s(0.05); 2];
    let mut filter = BallFilter::new(CreationContext {});
    let step = SECOND / 10;
    let mut now = 0;
    for k in 1..=5u64 {
        now = k * step;
        filter.advance_all_hypotheses(
            now,
            &vec![point(1.0, 2.0)],
            s(0.1),
            standing_still(),
            &p,
            &multiply,
            &kalman_predict::<4, 2>,
            &kalman_predict::<2, 2>,
            &norm,
            &centre_of_image,
            &no_projection,
            &above_limbs,
            &product,
            &distance,
            &kalman_update::<4, 2>,
            &kalman_update::<2, 2>,
            &sum,
        );
        let outputs = filter.cycle(
            now,
            &p,
            &field(),
            &norm,
            &distance,
            &kalman_update::<4, 4>,
            &kalman_update::<2, 2>,
        );
        assert_eq!(filter.hypotheses().len(), 1);
        assert!(outputs.removed_ball_positions.is_empty());
        assert_eq!(outputs.ball_position.is_some(), k >= 5);
    }
    let validity = f(filter.hypotheses()[0].validity);
    assert!(close(validity, 1.0 + 0.5 * (1.0 + 0.5 * (1.0 + 0.5 * (1.0 + 0.5)))));
    let ball = filter.hypotheses()[0].selected_ball_position(&norm, s(0.1));
    assert!(f(distance(ball.position, point(1.0, 2.0))) < 1.0e-3);

    let mut lost = Vec::new();
    for k in 1..=30u64 {
        filter.advance_all_hypotheses(
            now,
            &Vec::new(),
            s(0.1),
            standing_still(),
            &p,
            &multiply,
            &kalman_predict::<4, 2>,
            &kalman_predict::<2, 2>,
            &norm,
            &centre_of_image,
            &no_projection,
            &above_limbs,
            &product,
            &distance,
            &kalman_update::<4, 2>,
            &kalman_update::<2, 2>,
            &sum,
        );
        let outputs = filter.cycle(
            now + k * step,
            &p,
            &field(),
            &norm,
            &distance,
            &kalman_update::<4, 4>,
            &kalman_update::<2, 2>,
        );
        lost.extend(outputs.removed_ball_positions);
    }
    assert!(filter.hypotheses().is_empty());
    assert_eq!(lost.len(), 1);
    assert!(f(distance(lost[0], point(1.0, 2.0))) < 1.0e-3);
}

fn moved_by_the_time(time: u64) -> Isometry2 {
    Isometry2 {
        rotation: gaussian::identity2(),
        translation: Vector2::new(s(time as f32), s(0.0)),
    }
}

fn no_motion(_: u64) -> Isometry2 {
    standing_still()
}

fn run(
    filter: &mut BallFilter,
    now: u64,
    batches: &Vec<(u64, Vec<Point2>)>,
    delta_time: f32,
    p: &BallFilterParameters,
    odometry_at: &dyn Fn(u64) -> Isometry2,
    sum_of: &dyn Fn(Scalar, Scalar) -> Scalar,
) -> Result<MainOutputs, CycleError> {
    filter.run_cycle(
        now,
        batches,
        s(delta_time),
        p,
        &field(),
        &odometry_at,
        &multiply,
        &kalman_predict::<4, 2>,
        &kalman_predict::<2, 2>,
        &norm,
        &no_projection,
        &no_projection,
        &above_limbs,
        &product,
        &distance,
        &kalman_update::<4, 2>,
        &kalman_update::<2, 2>,
        &sum_of,
        &kalman_update::<4, 4>,
    )
}

#[test]
fn a_whole_cycle_takes_every_batch_in_turn() {
    let mut filter = BallFilter::new(CreationContext {});
    let batches = vec![
        (SECOND, vec![point(1.0, 2.0), point(-3.0, 0.0)]),
        (SECOND + SECOND / 2, vec![point(1.0, 2.0)]),
        (2 * SECOND, vec![]),
    ];
    let outputs =
        run(&mut filter, 2 * SECOND, &batches, 0.5, &parameters(), &no_motion, &sum).unwrap();
    assert_eq!(filter.hypotheses().len(), 2);
    assert_eq!(validities(&filter), vec![(1.0 * 0.75 + 1.0) * 0.75, 0.75 * 0.75]);
    assert_eq!(filter.hypotheses()[0].last_update, SECOND + SECOND / 2);
    assert_eq!(filter.hypotheses()[1].last_update, SECOND);
    assert!(outputs.ball_position.is_none());
    assert!(outputs.removed_ball_positions.is_empty());
    assert_eq!(outputs.hypothetical_ball_positions.len(), 2);
    assert_eq!(xy(outputs.hypothetical_ball_positions[1].position), (-3.0, 0.0));
    assert_eq!(f(outputs.hypothetical_ball_positions[1].validity), 0.5625);
}

#[test]
fn each_batch_is_taken_with_the_motion_of_its_time() {
    let mut filter = filter_of(vec![still_at(0.0, 0.0, 0, 8.0)]);
    let batches = vec![(1, vec![]), (2, vec![])];
    let outputs =
        run(&mut filter, 4, &batches, 0.5, &parameters(), &moved_by_the_time, &sum).unwrap();
    assert_eq!(xy(filter.hypotheses()[0].moving.position()), (3.0, 0.0));
    assert_eq!(xy(filter.hypotheses()[0].resting.position()), (3.0, 0.0));
    assert_eq!(validities(&filter), vec![4.5]);
    assert_eq!(xy(outputs.ball_position.unwrap().position), (3.0, 0.0));
}

#[test]
fn a_cycle_without_a_batch_still_makes_one_pass() {
    let mut filter = filter_of(vec![hypothesis((0.0, 0.0), (1.0, 0.0), (0.0, 0.0))]);
    filter.hypotheses[0].validity = s(4.0);
    let outputs =
        run(&mut filter, 2, &Vec::new(), 0.5, &parameters(), &moved_by_the_time, &sum).unwrap();
    let h = filter.hypotheses()[0];
    assert_eq!(xy(h.moving.position()), (2.5, 0.0));
    assert_eq!(xy(h.resting.position()), (2.0, 0.0));
    assert_eq!(f(h.validity), 3.0);
    assert_eq!(h.last_update, 0);
    assert!(outputs.removed_ball_positions.is_empty());
    let ball = outputs.ball_position.unwrap();
    assert_eq!(xy(ball.position), (2.5, 0.0));
    assert_eq!((f(ball.velocity.x), f(ball.velocity.y)), (1.0, 0.0));
}

#[test]
fn a_cycle_gives_up_on_a_validity_that_is_no_number() {
    let broken = |_: Scalar, _: Scalar| s(f32::NAN);
    let mut filter = filter_of(vec![still_at(0.0, 0.0, 0, 1.0), still_at(3.0, 3.0, 0, 1.0)]);
    let batches = vec![(SECOND, vec![point(0.1, 0.0)])];
    let outcome = run(&mut filter, SECOND, &batches, 0.5, &parameters(), &no_motion, &broken);
    assert_eq!(outcome.unwrap_err(), CycleError::ValidityIsNotANumber);
    assert_eq!(filter.hypotheses().len(), 2);
    assert!(f(filter.hypotheses()[0].validity).is_nan());
    assert_eq!(f(filter.hypotheses()[1].validity), 0.75);
    assert_eq!(filter.hypotheses()[0].last_update, SECOND);
}

#[test]
fn a_timed_out_hypothesis_is_reported_whatever_its_validity() {
    let now = 10 * SECOND;
    let mut p = parameters();
    p.hidden_validity_exponential_decay_factor = s(1.0);
    for validity in [0.3, 1.0, 2.0, 100.0] {
        let mut filter = filter_of(vec![still_at(1.0, -1.0, now - 2 * SECOND, validity)]);
        let batches = vec![(now, vec![point(4.0, 3.0)])];
        let outputs = run(&mut filter, now, &batches, 0.5, &p, &no_motion, &sum).unwrap();
        assert_eq!(outputs.removed_ball_positions, vec![point(1.0, -1.0)]);
        assert_eq!(filter.hypotheses().len(), 1);
        assert_eq!(xy(filter.hypotheses()[0].resting.position()), (4.0, 3.0));
    }
}

#[test]
fn a_validity_at_the_threshold_is_not_enough() {
    let mut p = parameters();
    p.validity_output_threshold = s(1.0);
    let mut filter = BallFilter::new(CreationContext {});
    let batches = vec![(SECOND, vec![point(1.0, 2.0)])];
    let outputs = run(&mut filter, SECOND, &batches, 0.5, &p, &no_motion, &sum).unwrap();
    assert_eq!(validities(&filter), vec![1.0]);
    assert!(outputs.ball_position.is_none());
    assert!(outputs.hypothetical_ball_positions.is_empty());
    assert!(filter.best_hypothesis(s(1.0)).is_none());
    assert!(filter.find_best_hypothesis(s(1.0)).is_none());
    assert_eq!(f(filter.best_hypothesis(s(0.99)).unwrap().validity), 1.0);
}
