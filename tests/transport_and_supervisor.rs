use whisper_transcribe_rs::segment::Segment;
use whisper_transcribe_rs::supervisor::{
    after_pass, chunk_timestamp, source_kind, DecodePass, OfferOutcome, PassFollowUp,
    SourceKind, RESTART_COOLDOWN_MILLIS,
};
use whisper_transcribe_rs::transport::Transport;

fn seg(ts: i64) -> Option<Segment> {
    Some(Segment { timestamp_millis: ts, samples: vec![ts as i16] })
}

#[test]
fn transport_delivers_in_push_order() {
    let mut t = Transport::new(8);
    for ts in 1..=5 {
        assert!(t.try_push(seg(ts)).is_ok());
    }
    assert!(t.try_push(None).is_ok());
    let mut seen = Vec::new();
    while let Some(item) = t.pop() {
        match item {
            Some(s) => seen.push(s.timestamp_millis),
            None => break,
        }
    }
    assert_eq!(seen, vec![1, 2, 3, 4, 5]);
    assert!(t.is_empty());
    assert!(t.pop().is_none());
}

#[test]
fn transport_interleaved_push_pop_keeps_order() {
    let mut t = Transport::new(2);
    assert!(t.try_push(seg(1)).is_ok());
    assert!(t.try_push(seg(2)).is_ok());
    assert_eq!(t.pop().unwrap().unwrap().timestamp_millis, 1);
    assert!(t.try_push(seg(3)).is_ok());
    assert_eq!(t.pop().unwrap().unwrap().timestamp_millis, 2);
    assert_eq!(t.pop().unwrap().unwrap().timestamp_millis, 3);
}

#[test]
fn full_transport_hands_item_back() {
    let mut t = Transport::new(1);
    assert!(t.try_push(seg(1)).is_ok());
    assert!(t.is_full());
    let back = t.try_push(seg(2)).unwrap_err().unwrap();
    assert_eq!(back.timestamp_millis, 2);
    assert_eq!(t.len(), 1);
    assert_eq!(t.capacity_of(), 1);
}

#[test]
fn live_source_with_full_transport_is_fatal() {
    let mut t = Transport::new(1);
    let mut pass = DecodePass::new(SourceKind::Live, 0, 16000);
    assert_eq!(pass.offer_chunk(&mut t, &[1, 0, 2, 0]), OfferOutcome::Enqueued);
    assert_eq!(pass.offer_chunk(&mut t, &[3, 0, 4, 0]), OfferOutcome::Fatal);
    assert_eq!(t.len(), 1);
    assert_eq!(pass.samples_emitted, 2);
    let first = t.pop().unwrap().unwrap();
    assert_eq!(first.samples, vec![1, 2]);
}

#[test]
fn finite_source_with_full_transport_waits() {
    let mut t = Transport::new(1);
    let mut pass = DecodePass::new(SourceKind::Finite, 0, 16000);
    assert_eq!(pass.offer_chunk(&mut t, &[1, 0]), OfferOutcome::Enqueued);
    assert_eq!(pass.offer_chunk(&mut t, &[2, 0]), OfferOutcome::MustWait);
    assert_eq!(t.len(), 1);
    t.pop();
    assert_eq!(pass.offer_chunk(&mut t, &[2, 0]), OfferOutcome::Enqueued);
    assert_eq!(t.pop().unwrap().unwrap().samples, vec![2]);
}

#[test]
fn chunks_are_stamped_with_their_first_sample_time() {
    let mut t = Transport::new(10);
    let mut pass = DecodePass::new(SourceKind::Finite, 1_000_000, 16000);
    let bytes = vec![0u8; 2 * 16000];
    for _ in 0..3 {
        assert_eq!(pass.offer_chunk(&mut t, &bytes), OfferOutcome::Enqueued);
    }
    let stamps: Vec<i64> = (0..3).map(|_| t.pop().unwrap().unwrap().timestamp_millis).collect();
    assert_eq!(stamps, vec![1_000_000, 1_001_000, 1_002_000]);
    assert_eq!(pass.samples_emitted, 48000);
}

#[test]
fn chunk_timestamp_rounds_to_nearest_millisecond() {
    assert_eq!(chunk_timestamp(100, 0, 16000), 100);
    assert_eq!(chunk_timestamp(100, 1024, 16000), 164);
    // 8 samples = 0.5 ms, rounded up; 7 samples = 0.4375 ms, rounded down.
    assert_eq!(chunk_timestamp(100, 8, 16000), 101);
    assert_eq!(chunk_timestamp(100, 7, 16000), 100);
    assert_eq!(chunk_timestamp(i64::MAX - 1, 16000, 16000), i64::MAX);
}

#[test]
fn probe_duration_decides_source_kind() {
    assert_eq!(source_kind(&Some("12.5".to_string())), SourceKind::Finite);
    assert_eq!(source_kind(&None), SourceKind::Live);
}

#[test]
fn pass_follow_up() {
    assert_eq!(after_pass(SourceKind::Finite, true), PassFollowUp::SendEndOfStream);
    assert_eq!(after_pass(SourceKind::Finite, false), PassFollowUp::Fail);
    assert_eq!(after_pass(SourceKind::Live, true), PassFollowUp::RestartAfter(500));
    assert_eq!(after_pass(SourceKind::Live, false), PassFollowUp::RestartAfter(RESTART_COOLDOWN_MILLIS));
}
