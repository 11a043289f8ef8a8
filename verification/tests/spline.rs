use motionfile::timed_spline::{InterpolationMode, InterpolatorError, Keyframe, TimedSpline};

const SECOND: u64 = 1_000_000_000;

fn make_spline(start: i64, keyframes: Vec<Keyframe>) -> TimedSpline {
    TimedSpline::try_new_with_start(start, keyframes, InterpolationMode::Linear).unwrap()
}

#[test]
fn single_keyframe_linear_values() {
    let spline = make_spline(0, vec![Keyframe { positions: 10_000, duration_ns: SECOND }]);
    assert_eq!(spline.start_position(), 0);
    assert_eq!(spline.end_position(), 10_000);
    assert_eq!(spline.total_duration(), SECOND);
    assert_eq!(spline.value_at(0), 0);
    assert_eq!(spline.value_at(SECOND / 4), 2_500);
    assert_eq!(spline.value_at(SECOND / 2), 5_000);
    assert_eq!(spline.value_at(3 * SECOND / 4), 7_500);
    assert_eq!(spline.value_at(SECOND), 10_000);
    // Past the total duration the position holds at the end.
    assert_eq!(spline.value_at(5 * SECOND), 10_000);
}

#[test]
fn interpolation_rounds_toward_the_interval_start() {
    // A third of the way from 0 to 10: 10 * 1 / 3 truncates to 3.
    let spline = make_spline(0, vec![Keyframe { positions: 10, duration_ns: 3 }]);
    assert_eq!(spline.value_at(1), 3);
    assert_eq!(spline.value_at(2), 6);
    // Descending: a third of the way from 10 to 0 is 10 - 3 = 7.
    let spline = make_spline(10, vec![Keyframe { positions: 0, duration_ns: 3 }]);
    assert_eq!(spline.value_at(1), 7);
    assert_eq!(spline.value_at(2), 4);
    assert_eq!(spline.value_at(3), 0);
}

#[test]
fn negative_positions_interpolate_exactly() {
    let spline = make_spline(-1_000, vec![Keyframe { positions: 1_000, duration_ns: 100 }]);
    assert_eq!(spline.value_at(0), -1_000);
    assert_eq!(spline.value_at(50), 0);
    assert_eq!(spline.value_at(75), 500);
    assert_eq!(spline.value_at(100), 1_000);
}

#[test]
fn extreme_positions_do_not_overflow() {
    let spline = make_spline(
        i64::MIN,
        vec![Keyframe { positions: i64::MAX, duration_ns: u64::MAX }],
    );
    assert_eq!(spline.value_at(0), i64::MIN);
    assert_eq!(spline.value_at(u64::MAX), i64::MAX);
    assert_eq!(spline.value_at(u64::MAX / 2), -1);
}

#[test]
fn multiple_keyframes_interpolate_piecewise() {
    let spline = make_spline(
        0,
        vec![
            Keyframe { positions: 1_000, duration_ns: SECOND },
            Keyframe { positions: 500, duration_ns: SECOND },
        ],
    );
    assert_eq!(spline.total_duration(), 2 * SECOND);
    assert_eq!(spline.end_position(), 500);
    assert_eq!(spline.value_at(SECOND / 2), 500);
    assert_eq!(spline.value_at(SECOND), 1_000);
    // Halfway down the second interval: from 1000 toward 500.
    assert_eq!(spline.value_at(SECOND + SECOND / 2), 750);
    assert_eq!(spline.value_at(2 * SECOND), 500);
}

#[test]
fn set_initial_positions_moves_only_the_start() {
    let mut spline = make_spline(0, vec![Keyframe { positions: 10_000, duration_ns: SECOND }]);
    spline.set_initial_positions(4_000);
    assert_eq!(spline.start_position(), 4_000);
    assert_eq!(spline.end_position(), 10_000);
    assert_eq!(spline.total_duration(), SECOND);
    assert_eq!(spline.value_at(SECOND / 2), 7_000);
}

#[test]
fn empty_keyframes_are_rejected() {
    let result = TimedSpline::try_new_with_start(0, vec![], InterpolationMode::Linear);
    assert_eq!(result.unwrap_err(), InterpolatorError::EmptyKeyframes);
}

#[test]
fn zero_duration_is_rejected() {
    let result = TimedSpline::try_new_with_start(
        0,
        vec![
            Keyframe { positions: 5, duration_ns: 10 },
            Keyframe { positions: 6, duration_ns: 0 },
        ],
        InterpolationMode::Linear,
    );
    assert_eq!(result.unwrap_err(), InterpolatorError::ZeroDuration);
}

#[test]
fn duration_overflow_is_rejected() {
    let result = TimedSpline::try_new_with_start(
        0,
        vec![
            Keyframe { positions: 5, duration_ns: u64::MAX },
            Keyframe { positions: 6, duration_ns: 1 },
        ],
        InterpolationMode::Linear,
    );
    assert_eq!(result.unwrap_err(), InterpolatorError::DurationOverflow);
}

#[test]
fn zero_duration_takes_precedence_over_overflow() {
    let result = TimedSpline::try_new_with_start(
        0,
        vec![
            Keyframe { positions: 5, duration_ns: u64::MAX },
            Keyframe { positions: 6, duration_ns: u64::MAX },
            Keyframe { positions: 7, duration_ns: 0 },
        ],
        InterpolationMode::Linear,
    );
    assert_eq!(result.unwrap_err(), InterpolatorError::ZeroDuration);
}
