//! Bone path resolution in the scene hierarchy.

use crossfade::clip::BonePath;
use crossfade::scene::{resolve, SceneError, SceneTree};

fn path(parts: &[&str]) -> BonePath {
    let mut v: Vec<String> = Vec::new();
    for p in parts {
        v.push((*p).to_string());
    }
    BonePath::new(v).unwrap()
}

/// Armature -> Hips -> { Spine -> Head, LegL }
fn skeleton() -> (SceneTree, usize) {
    let mut tree = SceneTree::new();
    let head = tree.push_node("Head".to_string(), vec![]).unwrap();
    let spine = tree.push_node("Spine".to_string(), vec![head]).unwrap();
    let leg = tree.push_node("LegL".to_string(), vec![]).unwrap();
    let hips = tree.push_node("Hips".to_string(), vec![spine, leg]).unwrap();
    let root = tree.push_node("Armature".to_string(), vec![hips]).unwrap();
    (tree, root)
}

#[test]
fn first_segment_is_skipped() {
    let (tree, root) = skeleton();
    // The path names the root itself; resolution stays at the root.
    let r = resolve(&tree, root, &path(&["Armature"]));
    assert_eq!(r.unwrap(), root);
}

#[test]
fn deep_path_resolves_to_the_named_bone() {
    let (tree, root) = skeleton();
    let r = resolve(&tree, root, &path(&["Armature", "Hips", "Spine", "Head"]));
    assert_eq!(r.unwrap(), 0);
    let r = resolve(&tree, root, &path(&["Armature", "Hips", "LegL"]));
    assert_eq!(r.unwrap(), 2);
}

#[test]
fn missing_segment_reports_its_index() {
    let (tree, root) = skeleton();
    let r = resolve(&tree, root, &path(&["Armature", "Hips", "Tail"]));
    assert_eq!(r.unwrap_err().segment, 2);
    let r = resolve(&tree, root, &path(&["Armature", "Nothing", "Head"]));
    assert_eq!(r.unwrap_err().segment, 1);
}

#[test]
fn duplicate_child_names_pick_the_first() {
    let mut tree = SceneTree::new();
    let twin_a = tree.push_node("Twin".to_string(), vec![]).unwrap();
    let twin_b = tree.push_node("Twin".to_string(), vec![]).unwrap();
    let root = tree.push_node("Root".to_string(), vec![twin_a, twin_b]).unwrap();
    let r = resolve(&tree, root, &path(&["Root", "Twin"]));
    assert_eq!(r.unwrap(), twin_a);
    assert_ne!(twin_a, twin_b);
}

#[test]
fn out_of_range_child_is_rejected() {
    let mut tree = SceneTree::new();
    let r = tree.push_node("Root".to_string(), vec![5]);
    assert_eq!(r.unwrap_err(), SceneError::ChildOutOfRange);
}
