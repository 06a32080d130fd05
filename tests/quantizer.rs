use facial_anim::error::{Error, SG_Error};
use facial_anim::format::{SG_SampleRate, SG_SampleType};
use facial_anim::quantizer::{add_data, AudioBuffer, AudioQueue};

fn pending_i16(q: &AudioQueue) -> Vec<i16> {
    match &q.buffer {
        AudioBuffer::PCM16(v) => v.clone(),
        _ => panic!("queue changed its sample type"),
    }
}

#[test]
fn capacity_is_ten_milliseconds() {
    let q = AudioQueue::new(SG_SampleRate::SG_RATE_16KHZ, SG_SampleType::SG_SAMPLE_PCM16);
    assert_eq!(q.buffer_capacity(), 160);
    let q = AudioQueue::new(SG_SampleRate::SG_RATE_48KHZ, SG_SampleType::SG_SAMPLE_PCM8);
    assert_eq!(q.buffer_capacity(), 480);
    let q = AudioQueue::new(SG_SampleRate::SG_RATE_8KHZ, SG_SampleType::SG_SAMPLE_FLOAT32);
    assert_eq!(q.buffer_capacity(), 80);
}

#[test]
fn exact_capacity_over_split_pushes_gives_one_frame() {
    let mut q = AudioQueue::new(SG_SampleRate::SG_RATE_8KHZ, SG_SampleType::SG_SAMPLE_PCM16);
    let all: Vec<i16> = (0..80).collect();
    assert_eq!(q.add_pcm16(&all[0..30]).unwrap(), None);
    assert_eq!(q.add_pcm16(&all[30..31]).unwrap(), None);
    assert_eq!(q.add_pcm16(&all[31..31]).unwrap(), None);
    let frame = q.add_pcm16(&all[31..80]).unwrap().expect("a frame");
    assert_eq!(frame, all);
    assert!(pending_i16(&q).is_empty());
}

#[test]
fn short_push_keeps_samples_in_order() {
    let mut q = AudioQueue::new(SG_SampleRate::SG_RATE_8KHZ, SG_SampleType::SG_SAMPLE_PCM16);
    assert_eq!(q.add_pcm16(&[5, -3, 7]).unwrap(), None);
    assert_eq!(q.add_pcm16(&[9]).unwrap(), None);
    assert_eq!(pending_i16(&q), vec![5, -3, 7, 9]);
}

#[test]
fn wrong_sample_type_is_refused_and_buffer_kept() {
    let mut q = AudioQueue::new(SG_SampleRate::SG_RATE_8KHZ, SG_SampleType::SG_SAMPLE_PCM16);
    q.add_pcm16(&[1, 2, 3]).unwrap();
    let e = Error(SG_Error::SG_ERROR_INVALID_INPUT_TRAITS);
    assert_eq!(q.add_pcm8(&[1, 2]), Err(e));
    assert_eq!(q.add_pcm32(&[1, 2]), Err(e));
    assert_eq!(q.add_float32(&[0x3f80_0000]), Err(e));
    assert_eq!(q.add_float64(&[0x3ff0_0000_0000_0000]), Err(e));
    assert_eq!(pending_i16(&q), vec![1, 2, 3]);
}

#[test]
fn at_most_one_frame_per_push() {
    let mut q = AudioQueue::new(SG_SampleRate::SG_RATE_8KHZ, SG_SampleType::SG_SAMPLE_PCM32);
    let big: Vec<i32> = (0..250).collect();
    let frame = q.add_pcm32(&big).unwrap().expect("a frame");
    assert_eq!(frame, (0..80).collect::<Vec<i32>>());
    match &q.buffer {
        AudioBuffer::PCM32(v) => assert_eq!(v.len(), 170),
        _ => panic!("queue changed its sample type"),
    }
    let frame = q.add_pcm32(&[]).unwrap().expect("a second frame");
    assert_eq!(frame, (80..160).collect::<Vec<i32>>());
}

#[test]
fn float_samples_travel_as_bits() {
    let mut q = AudioQueue::new(SG_SampleRate::SG_RATE_8KHZ, SG_SampleType::SG_SAMPLE_FLOAT32);
    let samples: Vec<u32> = (0..80).map(|i| (i as f32 * 0.01).to_bits()).collect();
    let frame = q.add_float32(&samples).unwrap().expect("a frame");
    assert_eq!(f32::from_bits(frame[10]), 10.0f32 * 0.01);
    let mut q = AudioQueue::new(SG_SampleRate::SG_RATE_8KHZ, SG_SampleType::SG_SAMPLE_FLOAT64);
    assert_eq!(q.add_float64(&[0.25f64.to_bits()]).unwrap(), None);
}

#[test]
fn add_data_splits_at_capacity() {
    let mut v = vec![1u8, 2];
    assert_eq!(add_data(&mut v, &[3, 4, 5], 4), Some(vec![1, 2, 3, 4]));
    assert_eq!(v, vec![5]);
    assert_eq!(add_data(&mut v, &[6], 4), None);
    assert_eq!(v, vec![5, 6]);
}

#[test]
fn backlog_reported_after_oversized_push() {
    let mut q = AudioQueue::new(SG_SampleRate::SG_RATE_8KHZ, SG_SampleType::SG_SAMPLE_PCM8);
    let big: Vec<i8> = vec![1; 200];
    q.add_pcm8(&big).unwrap();
    assert!(q.has_backlog());
    q.add_pcm8(&[]).unwrap();
    assert!(!q.has_backlog());
}
