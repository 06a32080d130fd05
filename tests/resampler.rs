use facial_anim::resampler::{fill_silence, handoff, needed_source_samples, resample};

#[test]
fn needed_samples_follow_rate_ratio() {
    assert_eq!(needed_source_samples(100, 48000, 44100), 108);
    assert_eq!(needed_source_samples(441, 48000, 44100), 480);
    assert_eq!(needed_source_samples(0, 48000, 44100), 0);
}

#[test]
fn nearest_neighbour_duplicates_channels() {
    let r = resample(&vec![1, 2, 3], 6, 2);
    assert_eq!(r, vec![1, 1, 1, 1, 2, 2, 2, 2, 3, 3, 3, 3]);
    let r = resample(&vec![1, 2, 3, 4], 2, 1);
    assert_eq!(r, vec![1, 3]);
    assert_eq!(resample(&vec![], 3, 2), vec![0; 6]);
}

#[test]
fn underrun_gives_silence_not_a_stall() {
    let (producer, playback) = handoff(48000, 44100);
    let one = 0.5f32.to_bits();
    producer.push_samples(&vec![one; 50]);
    let out = playback.render(100, 2);
    assert_eq!(out.len(), 200);
    assert!(out.iter().any(|x| *x == 0));
    assert!(out.iter().any(|x| *x == one));
}

#[test]
fn handoff_keeps_sample_order() {
    let (producer, playback) = handoff(44100, 44100);
    producer.push_samples(&[1, 2, 3, 4]);
    assert_eq!(
        playback.steal_source(6),
        vec![Some(1), Some(2), Some(3), Some(4), None, None]
    );
}

#[test]
fn missing_samples_become_silence() {
    let filled = fill_silence(&vec![Some(7), None, Some(9), None]);
    assert_eq!(filled, vec![7, 0, 9, 0]);
    assert_eq!(fill_silence(&vec![]), Vec::<u32>::new());
}

#[test]
fn empty_handoff_renders_all_silence() {
    let (_producer, playback) = handoff(48000, 44100);
    assert_eq!(playback.render(100, 2), vec![0u32; 200]);
}
