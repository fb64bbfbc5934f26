//! Governing-keyframe lookup and curve construction.

use crossfade::curve::{
    sample_governing_keyframe, CurveError, GoverningKeyframe, RotationCurve, VectorCurve,
};
use crossfade::values::{Quat, Vec3};

#[test]
fn query_before_first_keyframe_is_before() {
    let times = vec![10u64, 50, 90];
    assert_eq!(sample_governing_keyframe(&times, 0), GoverningKeyframe::Before);
    assert_eq!(sample_governing_keyframe(&times, 9), GoverningKeyframe::Before);
}

#[test]
fn query_past_last_keyframe_is_after() {
    let times = vec![10u64, 50, 90];
    assert_eq!(sample_governing_keyframe(&times, 91), GoverningKeyframe::After);
    assert_eq!(sample_governing_keyframe(&times, u64::MAX), GoverningKeyframe::After);
}

#[test]
fn exact_timestamps_govern_their_own_index() {
    let times = vec![10u64, 50, 90];
    assert_eq!(sample_governing_keyframe(&times, 10), GoverningKeyframe::At(0));
    assert_eq!(sample_governing_keyframe(&times, 50), GoverningKeyframe::At(1));
    assert_eq!(sample_governing_keyframe(&times, 90), GoverningKeyframe::At(2));
}

#[test]
fn query_between_keyframes_takes_latest_preceding() {
    let times = vec![10u64, 50, 90];
    assert_eq!(sample_governing_keyframe(&times, 11), GoverningKeyframe::At(0));
    assert_eq!(sample_governing_keyframe(&times, 49), GoverningKeyframe::At(0));
    assert_eq!(sample_governing_keyframe(&times, 89), GoverningKeyframe::At(1));
}

#[test]
fn single_keyframe_curve_governs_only_its_instant() {
    let times = vec![5u64];
    assert_eq!(sample_governing_keyframe(&times, 4), GoverningKeyframe::Before);
    assert_eq!(sample_governing_keyframe(&times, 5), GoverningKeyframe::At(0));
    assert_eq!(sample_governing_keyframe(&times, 6), GoverningKeyframe::After);
}

#[test]
fn empty_curve_is_rejected() {
    let r = VectorCurve::new(vec![], vec![]);
    assert_eq!(r.err(), Some(CurveError::Empty));
}

#[test]
fn mismatched_lengths_are_rejected() {
    let r = VectorCurve::new(vec![1u64, 2], vec![Vec3::new(0, 0, 0)]);
    assert_eq!(r.err(), Some(CurveError::LengthMismatch));
}

#[test]
fn unsorted_timestamps_are_rejected() {
    let r = VectorCurve::new(
        vec![1u64, 1],
        vec![Vec3::new(0, 0, 0), Vec3::new(1, 1, 1)],
    );
    assert_eq!(r.err(), Some(CurveError::TimesNotIncreasing));
}

#[test]
fn oversized_values_are_rejected() {
    let big = 2_000_000_000_000_000i64;
    let r = VectorCurve::new(vec![1u64], vec![Vec3 { x: big, y: 0, z: 0 }]);
    assert_eq!(r.err(), Some(CurveError::ValueOutOfBounds));
    let r = RotationCurve::new(vec![1u64], vec![Quat { x: 0, y: 0, z: 0, w: big }]);
    assert_eq!(r.err(), Some(CurveError::ValueOutOfBounds));
}

#[test]
fn well_formed_curves_are_accepted() {
    let r = RotationCurve::new(
        vec![0u64, 100],
        vec![Quat::new(0, 0, 0, 1000), Quat::new(1000, 0, 0, 0)],
    );
    assert!(r.is_ok());
}
