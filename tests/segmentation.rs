use whisper_transcribe_rs::segment::Segment;
use whisper_transcribe_rs::segmenter::{
    segment_stream, ClassifiedChunk, Segmenter, SegmenterConfig, SpeechTag, SAMPLE_SIZE,
    TARGET_SAMPLE_RATE,
};

fn chunk(value: i16, len: usize, timestamp_millis: i64) -> Segment {
    Segment { timestamp_millis, samples: vec![value; len] }
}

fn classified(value: i16, len: usize, timestamp_millis: i64, speech: bool) -> ClassifiedChunk {
    ClassifiedChunk { segment: chunk(value, len, timestamp_millis), speech }
}

#[test]
fn speech_tag_convert() {
    assert_eq!(SpeechTag::convert(true), SpeechTag::HasSpeech);
    assert_eq!(SpeechTag::convert(false), SpeechTag::NoSpeech);
}

#[test]
fn standard_config_values() {
    let c = SegmenterConfig::standard();
    assert_eq!(c.min_speech_samples, 48000);
    assert_eq!(c.max_speech_samples, 960000);
    assert_eq!(c.preroll_samples, 16000);
    assert_eq!(TARGET_SAMPLE_RATE, 16000);
    assert_eq!(SAMPLE_SIZE, 1024);
}

#[test]
fn config_from_seconds_multiplies_by_rate() {
    let c = SegmenterConfig::from_seconds(8000, 2, 5);
    assert_eq!(c.min_speech_samples, 16000);
    assert_eq!(c.max_speech_samples, 40000);
    assert_eq!(c.preroll_samples, 8000);
}

#[test]
fn preroll_stays_within_one_second_of_silence() {
    let mut engine = Segmenter::new(SegmenterConfig::standard());
    for i in 0..40 {
        let out = engine.process_segment(chunk(i as i16, SAMPLE_SIZE, i * 64), false);
        assert!(out.is_none());
        assert!(engine.preroll_len() <= 16000);
        let expected = std::cmp::min((i as usize + 1) * SAMPLE_SIZE, 16000);
        assert_eq!(engine.preroll_len(), expected);
        assert_eq!(engine.buffered_len(), 0);
    }
    assert_eq!(engine.tag(), SpeechTag::NoSpeech);
    assert!(engine.finish().is_none());
}

#[test]
fn silence_then_speech_then_silence_flushes_preroll_and_speech() {
    // Five seconds of silence, five of speech, then silence; chunks of one second.
    let second = 16000usize;
    let mut engine = Segmenter::new(SegmenterConfig::standard());
    for i in 1..=5 {
        assert!(engine.process_segment(chunk(i, second, i as i64 * 1000), false).is_none());
    }
    assert_eq!(engine.preroll_len(), second);
    // Chunk 6: onset; the pre-roll (chunk 5) and chunk 6 are accumulated.
    assert!(engine.process_segment(chunk(6, second, 6000), true).is_none());
    assert_eq!(engine.tag(), SpeechTag::HasSpeech);
    assert_eq!(engine.buffered_len(), 2 * second);
    assert_eq!(engine.preroll_len(), 0);
    for i in 7..=9 {
        assert!(engine.process_segment(chunk(i, second, i as i64 * 1000), true).is_none());
    }
    // Chunk 10: low probability, accumulated duration already over the minimum.
    let out = engine.process_segment(chunk(10, second, 10000), false).expect("a flush");
    assert_eq!(out.start_timestamp_millis, Some(6000));
    assert_eq!(out.samples.len(), 6 * second);
    for (k, v) in [5i16, 6, 7, 8, 9, 10].iter().enumerate() {
        assert!(out.samples[k * second..(k + 1) * second].iter().all(|s| s == v));
    }
    assert_eq!(engine.tag(), SpeechTag::NoSpeech);
    assert_eq!(engine.buffered_len(), 0);
    assert_eq!(engine.preroll_len(), 0);
    assert!(engine.finish().is_none());
}

#[test]
fn short_dropout_inside_speech_does_not_cut() {
    let mut engine = Segmenter::new(SegmenterConfig::standard());
    assert!(engine.process_segment(chunk(1, SAMPLE_SIZE, 0), true).is_none());
    // Far below three seconds: a no-speech verdict is overridden.
    for i in 1..10 {
        assert!(engine.process_segment(chunk(2, SAMPLE_SIZE, i * 64), false).is_none());
        assert_eq!(engine.tag(), SpeechTag::HasSpeech);
    }
    assert_eq!(engine.buffered_len(), 10 * SAMPLE_SIZE);
}

#[test]
fn run_beyond_maximum_is_cut_despite_speech() {
    // 10 samples per second: minimum 1 s, maximum 2 s.
    let cfg = SegmenterConfig::from_seconds(10, 1, 2);
    let mut engine = Segmenter::new(cfg);
    assert!(engine.process_segment(chunk(1, 10, 0), true).is_none());
    assert!(engine.process_segment(chunk(2, 10, 1000), true).is_none());
    assert!(engine.process_segment(chunk(3, 5, 2000), true).is_none());
    assert_eq!(engine.buffered_len(), 25);
    let out = engine.process_segment(chunk(4, 5, 2500), true).expect("forced cut");
    assert_eq!(out.start_timestamp_millis, Some(0));
    assert_eq!(out.samples.len(), 30);
    assert_eq!(out.samples[29], 4);
    assert_eq!(engine.tag(), SpeechTag::NoSpeech);
}

#[test]
fn run_at_exactly_maximum_is_not_cut() {
    let cfg = SegmenterConfig::from_seconds(10, 1, 2);
    let mut engine = Segmenter::new(cfg);
    assert!(engine.process_segment(chunk(1, 20, 0), true).is_none());
    assert!(engine.process_segment(chunk(2, 1, 2000), true).is_none());
    assert_eq!(engine.tag(), SpeechTag::HasSpeech);
}

#[test]
fn one_flush_per_run_plus_trailing() {
    let cfg = SegmenterConfig::from_seconds(10, 1, 100);
    // Runs: speech 0..2 then cut at 3, speech 5..6 then cut at 7, speech 9 open at the end.
    let pattern = [true, true, false, false, false, true, true, false, false, true];
    let chunks: Vec<ClassifiedChunk> = pattern
        .iter()
        .enumerate()
        .map(|(i, &sp)| classified(i as i16, 10, i as i64 * 1000, sp))
        .collect();
    let out = segment_stream(cfg, chunks);
    assert_eq!(out.len(), 3);
    assert_eq!(out[0].start_timestamp_millis, Some(0));
    assert_eq!(out[0].samples.len(), 30);
    // The pre-roll keeps one second (10 samples): chunk 4 precedes the run at 5.
    assert_eq!(out[1].start_timestamp_millis, Some(5000));
    assert_eq!(out[1].samples.len(), 10 + 10 + 10 + 10);
    assert_eq!(out[1].samples[0], 4);
    assert_eq!(out[2].start_timestamp_millis, Some(9000));
    assert_eq!(out[2].samples.len(), 10 + 10);
}

#[test]
fn all_silence_yields_nothing() {
    let chunks: Vec<ClassifiedChunk> =
        (0..20).map(|i| classified(0, SAMPLE_SIZE, i * 64, false)).collect();
    assert!(segment_stream(SegmenterConfig::standard(), chunks).is_empty());
}

#[test]
fn empty_stream_yields_nothing() {
    assert!(segment_stream(SegmenterConfig::standard(), Vec::new()).is_empty());
}

#[test]
fn stream_ending_in_speech_flushes_once_at_the_end() {
    let chunks = vec![
        classified(1, 100, 10, false),
        classified(2, 100, 20, true),
        classified(3, 100, 30, true),
    ];
    let out = segment_stream(SegmenterConfig::standard(), chunks);
    assert_eq!(out.len(), 1);
    assert_eq!(out[0].start_timestamp_millis, Some(20));
    assert_eq!(out[0].samples, [vec![1i16; 100], vec![2; 100], vec![3; 100]].concat());
}
