//! End-to-end blend ticks: crossfade progress, completion, misses.

use crossfade::blend::RotationWrite;
use crossfade::clip::{AnimationClip, BonePath, ClipStore, CurveSet};
use crossfade::curve::{RotationCurve, VectorCurve};
use crossfade::driver::Playback;
use crossfade::state::{CrossFadePlayer, CrossfadeError};
use crossfade::values::{Quat, Vec3};

fn path(parts: &[&str]) -> BonePath {
    let mut v: Vec<String> = Vec::new();
    for p in parts {
        v.push((*p).to_string());
    }
    BonePath::new(v).unwrap()
}

fn vcurve(times: Vec<u64>, values: Vec<Vec3>) -> VectorCurve {
    VectorCurve::new(times, values).unwrap()
}

fn rcurve(times: Vec<u64>, values: Vec<Quat>) -> RotationCurve {
    RotationCurve::new(times, values).unwrap()
}

/// A scene with root Armature -> { Hips, LegL }, a source clip animating
/// Hips (rotation + translation), a bone with an unresolvable path
/// (Ghost), and LegL (translation only); a destination clip animating
/// only Hips.  Returns (store, tree, root, source id, destination id).
fn fixture() -> (ClipStore, crossfade::scene::SceneTree, usize, usize, usize) {
    let mut tree = crossfade::scene::SceneTree::new();
    let hips = tree.push_node("Hips".to_string(), vec![]).unwrap();
    let leg = tree.push_node("LegL".to_string(), vec![]).unwrap();
    let root = tree.push_node("Armature".to_string(), vec![hips, leg]).unwrap();

    let mut walk = AnimationClip::new();
    walk.insert_curves(
        path(&["Armature", "Hips"]),
        CurveSet {
            rotation: Some(rcurve(
                vec![0u64, 100],
                vec![Quat::new(0, 0, 0, 1000), Quat::new(0, 707, 0, 707)],
            )),
            translation: Some(vcurve(
                vec![0u64, 100],
                vec![Vec3::new(0, 0, 0), Vec3::new(10, 10, 10)],
            )),
            scale: None,
        },
    );
    walk.insert_curves(
        path(&["Armature", "Ghost"]),
        CurveSet {
            rotation: None,
            translation: Some(vcurve(vec![0u64], vec![Vec3::new(7, 7, 7)])),
            scale: None,
        },
    );
    walk.insert_curves(
        path(&["Armature", "LegL"]),
        CurveSet {
            rotation: None,
            translation: Some(vcurve(vec![0u64, 100], vec![Vec3::new(1, 2, 3), Vec3::new(5, 5, 5)])),
            scale: None,
        },
    );

    let mut idle = AnimationClip::new();
    idle.insert_curves(
        path(&["Armature", "Hips"]),
        CurveSet {
            rotation: Some(rcurve(vec![0u64], vec![Quat::new(1000, 0, 0, 0)])),
            translation: Some(vcurve(vec![0u64], vec![Vec3::new(20, 20, 20)])),
            scale: None,
        },
    );

    let mut store = ClipStore::new();
    let walk_id = store.add_clip(walk);
    let idle_id = store.add_clip(idle);
    (store, tree, root, walk_id, idle_id)
}

#[test]
fn idle_tick_is_a_no_op() {
    let (store, tree, root, _, _) = fixture();
    let mut player = CrossFadePlayer::default();
    let mut playback = Playback::default();
    playback.elapsed = 100;
    let out = player.tick(&mut playback, &store, &tree, root, 16);
    assert!(out.writes.is_empty());
    assert!(out.misses.is_empty());
    assert!(!out.completed);
    assert!(player.is_idle());
    assert!(!playback.paused);
    assert_eq!(playback.elapsed, 100);
}

#[test]
fn unknown_clip_references_are_a_no_op() {
    let (store, tree, root, _, _) = fixture();
    let mut player = CrossFadePlayer::default();
    player.crossfade(7, 8, 10).unwrap();
    let mut playback = Playback::default();
    let out = player.tick(&mut playback, &store, &tree, root, 16);
    assert!(out.writes.is_empty());
    assert!(!out.completed);
    assert_eq!(player.elapsed(), 0);
}

#[test]
fn zero_duration_request_is_rejected() {
    let mut player = CrossFadePlayer::default();
    let r = player.crossfade(0, 1, 0);
    assert_eq!(r.unwrap_err(), CrossfadeError::ZeroDuration);
    assert!(player.is_idle());
}

#[test]
fn mid_transition_blends_toward_destination_start() {
    let (store, tree, root, walk_id, idle_id) = fixture();
    let mut player = CrossFadePlayer::default();
    player.crossfade(walk_id, idle_id, 10).unwrap();
    let mut playback = Playback::default();
    playback.elapsed = 100;  // the frozen source clock samples the last keyframe

    let out = player.tick(&mut playback, &store, &tree, root, 5);
    assert!(!out.completed);
    assert!(playback.paused);

    // Hips resolves: translation is halfway from (10,10,10) to (20,20,20);
    // rotation is an explicit half slerp request between the keyframes.
    assert_eq!(out.writes.len(), 2);
    let hips = &out.writes[0];
    assert_eq!(hips.translation, Some(Vec3::new(15, 15, 15)));
    assert_eq!(
        hips.rotation,
        Some(RotationWrite::Slerp {
            from: Quat::new(0, 707, 0, 707),
            to: Quat::new(1000, 0, 0, 0),
            num: 5,
            den: 10,
        })
    );
    assert_eq!(hips.scale, None);
}

#[test]
fn source_only_channel_holds_its_sampled_value() {
    let (store, tree, root, walk_id, idle_id) = fixture();
    let mut player = CrossFadePlayer::default();
    player.crossfade(walk_id, idle_id, 10).unwrap();
    let mut playback = Playback::default();
    playback.elapsed = 100;

    let out = player.tick(&mut playback, &store, &tree, root, 3);
    // LegL exists only in the source clip: its translation is the frozen
    // source keyframe, unchanged by the fade factor.
    let leg = &out.writes[1];
    assert_eq!(leg.translation, Some(Vec3::new(5, 5, 5)));
    assert_eq!(leg.rotation, None);

    // Still held at a later factor.
    let out = player.tick(&mut playback, &store, &tree, root, 3);
    let leg = &out.writes[1];
    assert_eq!(leg.translation, Some(Vec3::new(5, 5, 5)));
}

#[test]
fn unresolvable_path_is_reported_and_skipped() {
    let (store, tree, root, walk_id, idle_id) = fixture();
    let mut player = CrossFadePlayer::default();
    player.crossfade(walk_id, idle_id, 10).unwrap();
    let mut playback = Playback::default();
    playback.elapsed = 100;

    let out = player.tick(&mut playback, &store, &tree, root, 5);
    // The Ghost entry (index 1 in the source clip) cannot be resolved:
    // its segment 1 matches no child.  Both other bones still blend.
    assert_eq!(out.misses.len(), 1);
    assert_eq!(out.misses[0].path_index, 1);
    assert_eq!(out.misses[0].segment, 1);
    assert_eq!(out.writes.len(), 2);
    assert_eq!(out.writes[0].translation, Some(Vec3::new(15, 15, 15)));
    assert_eq!(out.writes[1].translation, Some(Vec3::new(5, 5, 5)));
}

#[test]
fn fade_factor_is_monotonic_across_ticks() {
    let (store, tree, root, walk_id, idle_id) = fixture();
    let mut player = CrossFadePlayer::default();
    player.crossfade(walk_id, idle_id, 9).unwrap();
    let mut playback = Playback::default();
    playback.elapsed = 100;

    let mut last_num: u64 = 0;
    for _ in 0..2 {
        let out = player.tick(&mut playback, &store, &tree, root, 3);
        assert!(!out.completed);
        match out.writes[0].rotation {
            Some(RotationWrite::Slerp { num, den, .. }) => {
                assert_eq!(den, 9);
                assert!(num >= last_num);
                last_num = num;
            }
            other => panic!("expected a slerp request, got {:?}", other),
        }
    }
    assert_eq!(last_num, 6);
}

#[test]
fn completion_lands_exactly_on_destination_and_goes_idle() {
    let (store, tree, root, walk_id, idle_id) = fixture();
    let mut player = CrossFadePlayer::default();
    player.crossfade(walk_id, idle_id, 10).unwrap();
    let mut playback = Playback::default();
    playback.elapsed = 100;

    let out = player.tick(&mut playback, &store, &tree, root, 6);
    assert!(!out.completed);
    let out = player.tick(&mut playback, &store, &tree, root, 6);
    assert!(out.completed);

    // The final blend writes the destination clip's first keyframes
    // exactly, per channel.
    let hips = &out.writes[0];
    assert_eq!(hips.translation, Some(Vec3::new(20, 20, 20)));
    assert_eq!(hips.rotation, Some(RotationWrite::Exact(Quat::new(1000, 0, 0, 0))));

    // The state machine is idle again and playback now loops the
    // destination clip from its start.
    assert!(player.is_idle());
    assert_eq!(playback.clip, Some(idle_id));
    assert_eq!(playback.elapsed, 0);
    assert!(playback.repeat);
    assert!(!playback.paused);
}

#[test]
fn overlong_tick_completes_in_one_step() {
    let (store, tree, root, walk_id, idle_id) = fixture();
    let mut player = CrossFadePlayer::default();
    player.crossfade(walk_id, idle_id, 10).unwrap();
    let mut playback = Playback::default();
    playback.elapsed = 100;

    let out = player.tick(&mut playback, &store, &tree, root, 1000);
    assert!(out.completed);
    assert_eq!(out.writes[0].translation, Some(Vec3::new(20, 20, 20)));
    assert!(player.is_idle());
}

#[test]
fn new_request_discards_progress() {
    let (store, tree, root, walk_id, idle_id) = fixture();
    let mut player = CrossFadePlayer::default();
    player.crossfade(walk_id, idle_id, 10).unwrap();
    let mut playback = Playback::default();
    playback.elapsed = 100;

    let out = player.tick(&mut playback, &store, &tree, root, 8);
    assert!(!out.completed);
    assert_eq!(player.elapsed(), 8);

    // A second request overwrites the one in progress: elapsed restarts
    // at zero, so the next tick's fade factor reflects only its own delta.
    player.crossfade(walk_id, idle_id, 10).unwrap();
    assert_eq!(player.elapsed(), 0);
    let out = player.tick(&mut playback, &store, &tree, root, 4);
    assert!(!out.completed);
    match out.writes[0].rotation {
        Some(RotationWrite::Slerp { num, den, .. }) => {
            assert_eq!(num, 4);
            assert_eq!(den, 10);
        }
        other => panic!("expected a slerp request, got {:?}", other),
    }
}

#[test]
fn source_curve_window_skips_channels() {
    let (store, tree, root, walk_id, idle_id) = fixture();
    let mut player = CrossFadePlayer::default();
    player.crossfade(walk_id, idle_id, 10).unwrap();
    let mut playback = Playback::default();
    // The playback clock never started: every source curve beginning at 0
    // governs with its first keyframe; but a clock past the last keyframe
    // skips the channel entirely.
    playback.elapsed = 101;
    let out = player.tick(&mut playback, &store, &tree, root, 5);
    let hips = &out.writes[0];
    assert_eq!(hips.translation, None);
    assert_eq!(hips.rotation, None);
}
