use facial_anim::catalog::AnimationNodeInfo;
use facial_anim::resolver::{apply_bindings, resolve_bindings, MorphBinding};
use facial_anim::session::AnimationFrame;

fn node(name: &str, channels: &[&str]) -> AnimationNodeInfo {
    AnimationNodeInfo {
        name: name.to_string(),
        channel_count: channels.len() as u32,
        channel_names: channels.iter().map(|c| c.to_string()).collect(),
    }
}

fn slots(names: &[&str]) -> Vec<String> {
    names.iter().map(|s| s.to_string()).collect()
}

#[test]
fn resolves_and_writes_bound_slots() {
    let nodes = vec![node("blendBoard", &["jawOpen", "browUp"])];
    let b = resolve_bindings(&nodes, &slots(&["jawOpen_pose", "browUp_pose", "unknown_pose"]));
    assert_eq!(b, vec![Some((0, 0)), Some((0, 1)), None]);
    let frame = AnimationFrame { nodes: vec![Some(vec![0.5f32.to_bits(), 0.2f32.to_bits()])] };
    let mut weights = vec![0.0f32.to_bits(), 0.0f32.to_bits(), 0.75f32.to_bits()];
    apply_bindings(&b, &frame, &mut weights);
    let w: Vec<f32> = weights.iter().map(|x| f32::from_bits(*x)).collect();
    assert_eq!(w, vec![0.5, 0.2, 0.75]);
}

#[test]
fn first_rig_node_is_used() {
    let nodes = vec![
        node("eyes", &["jawOpen"]),
        node("blendBoard", &["a", "jawOpen"]),
        node("blendBoard", &["jawOpen"]),
    ];
    let b = resolve_bindings(&nodes, &slots(&["jawOpen_pose", "jawOpen", "a_pose"]));
    assert_eq!(b, vec![Some((1, 1)), None, Some((1, 0))]);
}

#[test]
fn no_rig_node_binds_nothing() {
    let nodes = vec![node("face", &["jawOpen"])];
    let b = resolve_bindings(&nodes, &slots(&["jawOpen_pose"]));
    assert_eq!(b, vec![None]);
}

#[test]
fn missing_weights_leave_slots_unchanged() {
    let b = vec![Some((0, 3)), Some((1, 0)), Some((5, 0)), None];
    let frame = AnimationFrame { nodes: vec![Some(vec![1, 2]), None] };
    let mut weights = vec![10, 20, 30, 40, 50];
    apply_bindings(&b, &frame, &mut weights);
    assert_eq!(weights, vec![10, 20, 30, 40, 50]);
    let b = vec![None, Some((0, 1))];
    apply_bindings(&b, &frame, &mut weights);
    assert_eq!(weights, vec![10, 2, 30, 40, 50]);
}

#[test]
fn bindings_resolve_once_and_are_kept() {
    let mut cache = MorphBinding::new();
    assert!(!cache.is_resolved());
    let frame = AnimationFrame { nodes: vec![Some(vec![5, 6])] };
    let mut weights = vec![1, 2];
    cache.apply(&frame, &mut weights);
    assert_eq!(weights, vec![1, 2]);
    let nodes = vec![node("blendBoard", &["jawOpen", "browUp"])];
    cache.resolve_once(&nodes, &slots(&["browUp_pose", "nose_pose"]));
    assert!(cache.is_resolved());
    assert_eq!(cache.unresolved_slots(), vec![1]);
    let other = vec![node("blendBoard", &["nose"])];
    cache.resolve_once(&other, &slots(&["browUp_pose", "nose_pose"]));
    cache.apply(&frame, &mut weights);
    assert_eq!(weights, vec![6, 2]);
}
