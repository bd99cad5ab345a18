use whisper_transcribe_rs::ingest::{HeaderText, IngestError, Rechunker, SessionRegistry};
use whisper_transcribe_rs::transport::Transport;

fn text(s: &str) -> HeaderText {
    HeaderText::Text(s.to_string())
}

fn registry(active: &str) -> SessionRegistry {
    let mut r = SessionRegistry::new();
    r.set_session_id(active.to_string());
    r
}

#[test]
fn session_mismatch_is_rejected_and_enqueues_nothing() {
    let reg = registry("A");
    let mut transport = Transport::new(16);
    let r = reg.open_ingest(&text("1700000000000"), &text("B"), 1024);
    match r {
        Err(e) => {
            assert_eq!(e, IngestError::SessionMismatch);
            assert_eq!(e.status_code(), 400);
        }
        Ok(mut rc) => {
            for s in rc.feed(&[0u8; 4096]) {
                let _ = transport.try_push(Some(s));
            }
        }
    }
    assert!(transport.is_empty());
}

#[test]
fn matching_session_is_accepted_with_its_timestamp() {
    let reg = registry("A");
    assert_eq!(reg.check_request(&text("1700000000123"), &text("A")), Ok(1700000000123));
    assert_eq!(reg.check_request(&text("+42"), &text("A")), Ok(42));
    assert_eq!(reg.check_request(&text("-9223372036854775808"), &text("A")), Ok(i64::MIN));
}

#[test]
fn header_errors_in_order() {
    let reg = registry("A");
    assert_eq!(reg.check_request(&HeaderText::Missing, &text("A")), Err(IngestError::MissingTimestamp));
    assert_eq!(reg.check_request(&HeaderText::Unreadable, &text("A")), Err(IngestError::InvalidTimestamp));
    assert_eq!(reg.check_request(&text("12a"), &text("A")), Err(IngestError::InvalidTimestamp));
    assert_eq!(reg.check_request(&text(" 12"), &text("A")), Err(IngestError::InvalidTimestamp));
    assert_eq!(reg.check_request(&text(""), &text("A")), Err(IngestError::InvalidTimestamp));
    assert_eq!(reg.check_request(&text("9223372036854775808"), &text("A")), Err(IngestError::InvalidTimestamp));
    assert_eq!(reg.check_request(&text("5"), &HeaderText::Missing), Err(IngestError::MissingSessionId));
    assert_eq!(reg.check_request(&text("5"), &HeaderText::Unreadable), Err(IngestError::InvalidSessionId));
    let unset = SessionRegistry::new();
    assert_eq!(unset.check_request(&text("5"), &text("A")), Err(IngestError::SessionNotSet));
    // A bad timestamp is reported before a missing session.
    assert_eq!(unset.check_request(&text("x"), &HeaderText::Missing), Err(IngestError::InvalidTimestamp));
}

#[test]
fn status_codes() {
    assert_eq!(IngestError::MissingTimestamp.status_code(), 400);
    assert_eq!(IngestError::SessionNotSet.status_code(), 400);
    assert_eq!(IngestError::BodyReadFailed.status_code(), 500);
    assert_eq!(IngestError::MissingTimestamp.message(), "missing timestamp");
}

#[test]
fn new_session_replaces_old() {
    let mut reg = registry("A");
    reg.set_session_id("B".to_string());
    assert_eq!(reg.check_request(&text("1"), &text("A")), Err(IngestError::SessionMismatch));
    assert_eq!(reg.check_request(&text("1"), &text("B")), Ok(1));
}

#[test]
fn body_is_rechunked_and_trailing_part_kept() {
    // Two samples (four bytes) per chunk.
    let mut rc = Rechunker::new(2, 77);
    let segs = rc.feed(&[1, 0, 2, 0, 3, 0]);
    assert_eq!(segs.len(), 1);
    assert_eq!(segs[0].samples, vec![1, 2]);
    assert_eq!(segs[0].timestamp_millis, 77);
    let segs = rc.feed(&[0xff, 0xff, 0x00]);
    assert_eq!(segs.len(), 1);
    assert_eq!(segs[0].samples, vec![3, -1]);
    let segs = rc.feed(&[0x80, 5, 0, 6, 0, 7]);
    assert_eq!(segs.len(), 1);
    assert_eq!(segs[0].samples, vec![-32768, 5]);
    let last = rc.finish().expect("partial chunk");
    assert_eq!(last.samples, vec![6]);
    assert_eq!(last.timestamp_millis, 77);
}

#[test]
fn empty_remainder_gives_no_trailing_segment() {
    let mut rc = Rechunker::new(1, 0);
    assert_eq!(rc.feed(&[1, 0, 2, 0]).len(), 2);
    assert!(rc.finish().is_none());
}

#[test]
fn large_feed_gives_many_chunks() {
    let reg = registry("s");
    let mut rc = reg.open_ingest(&text("10"), &text("s"), 1024).ok().unwrap();
    let segs = rc.feed(&vec![0u8; 2048 * 3 + 10]);
    assert_eq!(segs.len(), 3);
    assert!(segs.iter().all(|s| s.samples.len() == 1024 && s.timestamp_millis == 10));
    assert_eq!(rc.finish().unwrap().samples.len(), 5);
}
