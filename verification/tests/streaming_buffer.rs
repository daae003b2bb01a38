use bubble_meet::audio::decoder::Channels;
use bubble_meet::audio::streaming_buffer::StreamingAudioBuffer;

fn filled(values: &[i32]) -> StreamingAudioBuffer<i32> {
    let mut b = StreamingAudioBuffer::new(16000, 1000, Channels::Mono);
    b.add_samples(values);
    b
}

#[test]
fn capacity_is_twice_the_samples_of_the_duration() {
    let mono: StreamingAudioBuffer<f32> = StreamingAudioBuffer::new(16000, 15000, Channels::Mono);
    assert_eq!(mono.capacity(), 480000);
    let stereo: StreamingAudioBuffer<f32> = StreamingAudioBuffer::new(48000, 120, Channels::Stereo);
    assert_eq!(stereo.capacity(), 23040);
    assert_eq!(stereo.rate(), 48000);
    let rounded: StreamingAudioBuffer<f32> = StreamingAudioBuffer::new(44100, 10, Channels::Mono);
    assert_eq!(rounded.capacity(), 441 * 2);
}

#[test]
fn new_buffer_is_empty() {
    let b: StreamingAudioBuffer<i32> = StreamingAudioBuffer::new(16000, 1000, Channels::Mono);
    assert!(!b.has_audio());
    assert_eq!(b.len(), 0);
    assert_eq!(b.duration(), 0);
}

#[test]
fn consume_on_empty_buffer_gives_nothing() {
    let mut b: StreamingAudioBuffer<i32> = StreamingAudioBuffer::new(16000, 1000, Channels::Mono);
    assert_eq!(b.consume_speech_segment(None), None);
    assert_eq!(b.consume_speech_segment(Some(3)), None);
}

#[test]
fn consume_keeps_the_newest_samples() {
    let mut b = filled(&[1, 2, 3, 4, 5]);
    assert_eq!(b.consume_speech_segment(Some(2)), Some(vec![1, 2, 3]));
    assert_eq!(b.get_last_samples(1000), vec![4, 5]);
}

#[test]
fn consume_takes_all_when_fewer_than_kept() {
    let mut b = filled(&[1, 2, 3]);
    assert_eq!(b.consume_speech_segment(Some(3)), Some(vec![1, 2, 3]));
    assert!(!b.has_audio());
    let mut c = filled(&[1, 2]);
    assert_eq!(c.consume_speech_segment(Some(10)), Some(vec![1, 2]));
}

#[test]
fn consume_without_keep_takes_everything() {
    let mut b = filled(&[7, 8, 9]);
    assert_eq!(b.consume_speech_segment(None), Some(vec![7, 8, 9]));
    assert_eq!(b.len(), 0);
}

#[test]
fn segment_and_rest_make_up_the_buffer() {
    let values: Vec<i32> = (0..100).collect();
    let mut b = filled(&values);
    let segment = b.consume_speech_segment(Some(30)).unwrap();
    let mut rejoined = segment.clone();
    rejoined.extend(b.get_last_samples(1000));
    assert_eq!(segment.len(), 70);
    assert_eq!(rejoined, values);
}

#[test]
fn duration_in_whole_milliseconds() {
    let values = vec![0i32; 24];
    let b = filled(&values);
    assert_eq!(b.duration(), 1);
    let c = filled(&vec![0i32; 16000]);
    assert_eq!(c.duration(), 1000);
    let d = filled(&vec![0i32; 15]);
    assert_eq!(d.duration(), 0);
}

#[test]
fn last_samples_of_a_duration() {
    let values: Vec<i32> = (0..40).collect();
    let b = filled(&values);
    assert_eq!(b.get_last_samples(1), (24..40).collect::<Vec<i32>>());
    assert_eq!(b.get_last_samples(0), Vec::<i32>::new());
    assert_eq!(b.get_last_samples(5), values);
}

#[test]
fn added_samples_follow_earlier_ones() {
    let mut b = filled(&[1, 2]);
    b.add_samples(&[3, 4]);
    assert_eq!(b.len(), 4);
    assert_eq!(b.consume_speech_segment(None), Some(vec![1, 2, 3, 4]));
}

#[test]
fn float_samples_are_buffered_unchanged() {
    let mut b: StreamingAudioBuffer<f32> = StreamingAudioBuffer::new(16000, 1000, Channels::Mono);
    b.add_samples(&[0.25, -0.5, 1.0]);
    assert_eq!(b.consume_speech_segment(Some(1)), Some(vec![0.25, -0.5]));
}
