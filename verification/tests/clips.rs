//! Clip construction, lookup and the clip store.

use crossfade::clip::{path_eq, AnimationClip, BonePath, ClipStore, CurveSet};
use crossfade::curve::VectorCurve;
use crossfade::values::Vec3;

fn path(parts: &[&str]) -> BonePath {
    let mut v: Vec<String> = Vec::new();
    for p in parts {
        v.push((*p).to_string());
    }
    BonePath::new(v).unwrap()
}

fn translation_only(times: Vec<u64>, values: Vec<Vec3>) -> CurveSet {
    CurveSet {
        rotation: None,
        translation: Some(VectorCurve::new(times, values).unwrap()),
        scale: None,
    }
}

#[test]
fn empty_path_is_rejected() {
    assert!(BonePath::new(Vec::new()).is_err());
}

#[test]
fn path_equality_goes_by_names() {
    let a = path(&["Armature", "Hips"]);
    let b = path(&["Armature", "Hips"]);
    let c = path(&["Armature", "Spine"]);
    let d = path(&["Armature"]);
    assert!(path_eq(&a, &b));
    assert!(!path_eq(&a, &c));
    assert!(!path_eq(&a, &d));
}

#[test]
fn lookup_finds_the_inserted_curves() {
    let mut clip = AnimationClip::new();
    clip.insert_curves(
        path(&["Armature", "Hips"]),
        translation_only(vec![0u64], vec![Vec3::new(1, 2, 3)]),
    );
    clip.insert_curves(
        path(&["Armature", "Head"]),
        translation_only(vec![0u64], vec![Vec3::new(4, 5, 6)]),
    );
    let found = clip.get_curves(&path(&["Armature", "Head"])).unwrap();
    let curve = found.translation.as_ref().unwrap();
    assert_eq!(curve.values[0], Vec3::new(4, 5, 6));
    assert!(clip.get_curves(&path(&["Armature", "Tail"])).is_none());
}

#[test]
fn inserting_twice_replaces_the_mapping() {
    let mut clip = AnimationClip::new();
    clip.insert_curves(
        path(&["Armature", "Hips"]),
        translation_only(vec![0u64], vec![Vec3::new(1, 2, 3)]),
    );
    clip.insert_curves(
        path(&["Armature", "Hips"]),
        translation_only(vec![0u64], vec![Vec3::new(9, 9, 9)]),
    );
    assert_eq!(clip.entries.len(), 1);
    let found = clip.get_curves(&path(&["Armature", "Hips"])).unwrap();
    let curve = found.translation.as_ref().unwrap();
    assert_eq!(curve.values[0], Vec3::new(9, 9, 9));
}

#[test]
fn store_hands_out_clips_by_reference() {
    let mut store = ClipStore::new();
    let a = store.add_clip(AnimationClip::new());
    let b = store.add_clip(AnimationClip::new());
    assert_eq!(a, 0);
    assert_eq!(b, 1);
    assert!(store.get_clip(a).is_some());
    assert!(store.get_clip(b).is_some());
    assert!(store.get_clip(2).is_none());
}
