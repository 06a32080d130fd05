use facial_anim::catalog::AnimationNodeInfo;
use facial_anim::error::{Error, SG_Error};
use facial_anim::format::{SG_InputTraits, SG_OutputTraits, SG_SampleRate, SG_SampleType};
use facial_anim::session::Player;

fn node(name: &str, channels: &[&str]) -> AnimationNodeInfo {
    AnimationNodeInfo {
        name: name.to_string(),
        channel_count: channels.len() as u32,
        channel_names: channels.iter().map(|c| c.to_string()).collect(),
    }
}

fn player(sample_type: SG_SampleType, nodes: Vec<AnimationNodeInfo>) -> Player {
    Player::new(
        SG_InputTraits { sample_type, sample_rate: SG_SampleRate::SG_RATE_16KHZ },
        SG_OutputTraits { anim_node_count: nodes.len() as u32 },
        nodes,
    )
}

#[test]
fn two_half_frames_feed_one_frame() {
    let mut p = player(SG_SampleType::SG_SAMPLE_PCM16, vec![node("blendBoard", &["jawOpen"])]);
    let first: Vec<i16> = (0..80).collect();
    let second: Vec<i16> = (80..160).collect();
    assert_eq!(p.add_input_pcm16(&first).unwrap(), None);
    let frame = p.add_input_pcm16(&second).unwrap().expect("one frame to feed");
    assert_eq!(frame.len(), 160);
    assert_eq!(frame, (0..160).collect::<Vec<i16>>());
    assert_eq!(p.add_input_pcm16(&[]).unwrap(), None);
}

#[test]
fn session_refuses_other_sample_types() {
    let mut p = player(SG_SampleType::SG_SAMPLE_FLOAT32, vec![]);
    let e = Error(SG_Error::SG_ERROR_INVALID_INPUT_TRAITS);
    assert_eq!(p.add_input_pcm8(&[1]), Err(e));
    assert_eq!(p.add_input_pcm16(&[1]), Err(e));
    assert_eq!(p.add_input_pcm32(&[1]), Err(e));
    assert_eq!(p.add_input_float64(&[1]), Err(e));
    assert_eq!(p.add_input_float32(&[0]).unwrap(), None);
    assert_eq!(p.sample_rate(), SG_SampleRate::SG_RATE_16KHZ);
}

#[test]
fn only_nodes_with_channels_are_queried() {
    let p = player(
        SG_SampleType::SG_SAMPLE_PCM16,
        vec![node("a", &[]), node("b", &["x", "y"]), node("c", &[]), node("d", &["z"])],
    );
    assert_eq!(p.nodes_to_query(), vec![1, 3]);
}

#[test]
fn frame_assembly_per_node() {
    let p = player(
        SG_SampleType::SG_SAMPLE_PCM16,
        vec![node("a", &[]), node("b", &["x", "y"]), node("c", &["z"])],
    );
    let frame = p.frame_from_outputs(vec![
        None,
        Some(vec![0.5f32.to_bits(), 0.25f32.to_bits()]),
        None,
    ]);
    assert_eq!(frame.nodes.len(), 3);
    assert_eq!(frame.nodes[0], None);
    assert_eq!(frame.nodes[1], Some(vec![0.5f32.to_bits(), 0.25f32.to_bits()]));
    assert_eq!(frame.nodes[2], Some(vec![]));
}

#[test]
fn names_in_catalog_order() {
    let p = player(SG_SampleType::SG_SAMPLE_PCM16, vec![node("b", &["x", "y"]), node("a", &[])]);
    assert_eq!(
        p.processed_names(),
        vec![
            ("b".to_string(), vec!["x".to_string(), "y".to_string()]),
            ("a".to_string(), vec![])
        ]
    );
    assert_eq!(p.animation_info().len(), 2);
}
