use bubble_meet::interceptor::TranscriberInterceptor;

fn with_samples(now: u64, count: usize) -> TranscriberInterceptor<i32> {
    let mut t = TranscriberInterceptor::new(now);
    let samples: Vec<i32> = (0..count as i32).collect();
    t.add_samples(&samples);
    t
}

#[test]
fn fresh_state() {
    let t: TranscriberInterceptor<f32> = TranscriberInterceptor::new(42);
    assert_eq!(t.last_vad_check(), 42);
    assert_eq!(t.last_speech(), None);
    assert_eq!(t.buffered_samples(), 0);
    assert_eq!(TranscriberInterceptor::<f32>::INPUT_SAMPLE_RATE, 48000);
    assert_eq!(TranscriberInterceptor::<f32>::BUFFER_SAMPLE_RATE, 16000);
}

#[test]
fn no_transcription_without_speech() {
    let t = with_samples(0, 320000);
    assert_eq!(t.buffered_duration(), 20000);
    assert!(!t.should_transcribe(1_000_000));
}

#[test]
fn vad_not_due_within_interval() {
    let mut t = with_samples(1000, 16000);
    assert_eq!(t.voice_activity_input(1499), None);
    assert_eq!(t.last_vad_check(), 1000);
}

#[test]
fn vad_gets_the_newest_half_second() {
    let mut t = with_samples(1000, 16000);
    let input = t.voice_activity_input(1500).unwrap();
    assert_eq!(input.len(), 8000);
    assert_eq!(input[0], 8000);
    assert_eq!(*input.last().unwrap(), 15999);
    assert_eq!(t.last_vad_check(), 1500);
    assert_eq!(t.voice_activity_input(1600), None);
}

#[test]
fn vad_on_empty_buffer_still_moves_the_check_time() {
    let mut t: TranscriberInterceptor<i32> = TranscriberInterceptor::new(0);
    assert_eq!(t.voice_activity_input(700), None);
    assert_eq!(t.last_vad_check(), 700);
}

#[test]
fn clock_going_back_counts_as_no_time() {
    let mut t: TranscriberInterceptor<i32> = with_samples(5000, 10);
    assert_eq!(t.voice_activity_input(100), None);
    assert_eq!(t.last_vad_check(), 5000);
}

#[test]
fn speech_marks_the_time_and_silence_does_not() {
    let mut t: TranscriberInterceptor<i32> = TranscriberInterceptor::new(0);
    t.record_voice_activity(false, 10);
    assert_eq!(t.last_speech(), None);
    t.record_voice_activity(true, 20);
    assert_eq!(t.last_speech(), Some(20));
    t.record_voice_activity(false, 30);
    assert_eq!(t.last_speech(), Some(20));
}

#[test]
fn transcription_due_after_a_pause() {
    let mut t = with_samples(0, 100);
    t.record_voice_activity(true, 1000);
    assert!(!t.should_transcribe(1499));
    assert!(t.should_transcribe(1500));
}

#[test]
fn pause_segment_keeps_recent_samples_and_clears_speech() {
    let mut t = with_samples(0, 5000);
    t.record_voice_activity(true, 1000);
    let segment = t.take_segment(1600).unwrap();
    assert_eq!(segment.len(), 3000);
    assert_eq!(segment[0], 0);
    assert_eq!(t.buffered_samples(), 2000);
    assert_eq!(t.last_speech(), None);
    assert!(!t.should_transcribe(100_000));
    assert_eq!(t.take_segment(100_000), None);
}

#[test]
fn pause_segment_with_few_samples_takes_all() {
    let mut t = with_samples(0, 1500);
    t.record_voice_activity(true, 0);
    assert_eq!(t.take_segment(600).unwrap().len(), 1500);
    assert_eq!(t.buffered_samples(), 0);
}

#[test]
fn full_buffer_forces_a_segment_and_keeps_speech_mark() {
    let mut t = with_samples(0, 160000);
    t.record_voice_activity(true, 1000);
    assert!(t.should_transcribe(1001));
    let segment = t.take_segment(1001).unwrap();
    assert_eq!(segment.len(), 160000);
    assert_eq!(t.buffered_samples(), 0);
    assert_eq!(t.last_speech(), Some(1000));
}

#[test]
fn no_segment_when_not_due() {
    let mut t = with_samples(0, 100);
    t.record_voice_activity(true, 1000);
    assert_eq!(t.take_segment(1200), None);
    assert_eq!(t.buffered_samples(), 100);
    assert_eq!(t.last_speech(), Some(1000));
}

#[test]
fn due_but_empty_buffer_cuts_nothing() {
    let mut t: TranscriberInterceptor<i32> = TranscriberInterceptor::new(0);
    t.record_voice_activity(true, 0);
    assert!(t.should_transcribe(1000));
    assert_eq!(t.take_segment(1000), None);
    assert_eq!(t.last_speech(), Some(0));
}

#[test]
fn room_left_in_buffer() {
    let t = with_samples(0, 479_990);
    assert!(t.has_room_for(10));
    assert!(!t.has_room_for(11));
}
