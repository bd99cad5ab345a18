//! The HTTP ingestion producer: one active session at a time, request headers checked
//! against it, and the pushed PCM body re-chunked into segments.
use crate::pcm::{decode_le, decode_range};
use crate::segment::Segment;
use vstd::prelude::*;

verus! {

pub open spec fn is_ascii_digit(c: char) -> bool {
    '0' <= c && c <= '9'
}

/// The value of a string of decimal digits.
pub open spec fn digits_value(s: Seq<char>) -> int
    decreases s.len(),
{
    if s.len() == 0 {
        0
    } else {
        10 * digits_value(s.drop_last()) + (s.last() as int - '0' as int)
    }
}

/// A decimal `i64`: an optional `+` or `-`, then one or more ASCII digits, with a value in
/// range; anything else (blanks included) is no number.
pub open spec fn decimal_i64(s: Seq<char>) -> Option<i64> {
    let signed = s.len() > 0 && (s[0] == '-' || s[0] == '+');
    let body = if signed {
        s.drop_first()
    } else {
        s
    };
    let v = if s.len() > 0 && s[0] == '-' {
        -digits_value(body)
    } else {
        digits_value(body)
    };
    if body.len() > 0 && (forall|i: int| 0 <= i < body.len() ==> is_ascii_digit(#[trigger] body[i]))
        && i64::MIN <= v <= i64::MAX {
        Some(v as i64)
    } else {
        None
    }
}

/// Relies on i64's `FromStr` (`str::parse::<i64>`): an optional sign followed by digits,
/// an error on any other character, on an empty digit string and on overflow.
#[verifier::external_body]
fn parse_i64(s: &str) -> (r: Option<i64>)
    ensures
        r == decimal_i64(s@),
{
    s.parse::<i64>().ok()
}

/// A request header as the HTTP layer found it.
pub enum HeaderText {
    Missing,
    /// Present, but not visible ASCII text.
    Unreadable,
    Text(String),
}

#[derive(PartialEq, Eq, Structural, Clone, Copy, Debug)]
pub enum IngestError {
    MissingTimestamp,
    InvalidTimestamp,
    SessionNotSet,
    MissingSessionId,
    InvalidSessionId,
    SessionMismatch,
    BodyReadFailed,
}

pub open spec fn message_of(e: IngestError) -> Seq<char> {
    match e {
        IngestError::MissingTimestamp => "missing timestamp"@,
        IngestError::InvalidTimestamp => "error parsing timestamp"@,
        IngestError::SessionNotSet => "session id is not set yet"@,
        IngestError::MissingSessionId => "missing session id"@,
        IngestError::InvalidSessionId => "error parsing session id"@,
        IngestError::SessionMismatch => "session id mismatch, set a new session id if you intent to start a new session and close previous sessions"@,
        IngestError::BodyReadFailed => "error reading stream"@,
    }
}

impl IngestError {
    /// Client errors answer 400; a failure to read the body answers 500.
    pub fn status_code(&self) -> (c: u16)
        ensures
            c == (if *self == IngestError::BodyReadFailed {
                500u16
            } else {
                400u16
            }),
    {
        match self {
            IngestError::BodyReadFailed => 500,
            _ => 400,
        }
    }

    /// The text of the response body.
    pub fn message(&self) -> (m: String)
        ensures
            m@ == message_of(*self),
    {
        match self {
            IngestError::MissingTimestamp => "missing timestamp".to_owned(),
            IngestError::InvalidTimestamp => "error parsing timestamp".to_owned(),
            IngestError::SessionNotSet => "session id is not set yet".to_owned(),
            IngestError::MissingSessionId => "missing session id".to_owned(),
            IngestError::InvalidSessionId => "error parsing session id".to_owned(),
            IngestError::SessionMismatch => "session id mismatch, set a new session id if you intent to start a new session and close previous sessions".to_owned(),
            IngestError::BodyReadFailed => "error reading stream".to_owned(),
        }
    }
}

/// The verdict on a request's headers: its capture timestamp, or the first error found, in
/// the order timestamp, active session, session header, session match.
pub open spec fn header_verdict(active: Option<String>, ts: HeaderText, sid: HeaderText) -> Result<
    i64,
    IngestError,
> {
    match ts {
        HeaderText::Missing => Err(IngestError::MissingTimestamp),
        HeaderText::Unreadable => Err(IngestError::InvalidTimestamp),
        HeaderText::Text(t) => match decimal_i64(t@) {
            None => Err(IngestError::InvalidTimestamp),
            Some(v) => match active {
                None => Err(IngestError::SessionNotSet),
                Some(a) => match sid {
                    HeaderText::Missing => Err(IngestError::MissingSessionId),
                    HeaderText::Unreadable => Err(IngestError::InvalidSessionId),
                    HeaderText::Text(s) => if s@ == a@ {
                        Ok(v)
                    } else {
                        Err(IngestError::SessionMismatch)
                    },
                },
            },
        },
    }
}

/// The single active session id, set by the session control call.
pub struct SessionRegistry {
    pub active: Option<String>,
}

impl SessionRegistry {
    pub fn new() -> (r: SessionRegistry)
        ensures
            r.active is None,
    {
        SessionRegistry { active: None }
    }

    pub fn set_session_id(&mut self, id: String)
        ensures
            final(self).active == Some(id),
    {
        self.active = Some(id);
    }

    /// Checks a request's timestamp and session headers against the active session.
    pub fn check_request(&self, timestamp: &HeaderText, session_id: &HeaderText) -> (r: Result<
        i64,
        IngestError,
    >)
        ensures
            r == header_verdict(self.active, *timestamp, *session_id),
    {
        let ts = match timestamp {
            HeaderText::Missing => {
                return Err(IngestError::MissingTimestamp);
            },
            HeaderText::Unreadable => {
                return Err(IngestError::InvalidTimestamp);
            },
            HeaderText::Text(t) => match parse_i64(t.as_str()) {
                Some(v) => v,
                None => {
                    return Err(IngestError::InvalidTimestamp);
                },
            },
        };
        let current = match &self.active {
            Some(a) => a,
            None => {
                return Err(IngestError::SessionNotSet);
            },
        };
        match session_id {
            HeaderText::Missing => Err(IngestError::MissingSessionId),
            HeaderText::Unreadable => Err(IngestError::InvalidSessionId),
            HeaderText::Text(s) => {
                if s.eq(current) {
                    Ok(ts)
                } else {
                    Err(IngestError::SessionMismatch)
                }
            },
        }
    }

    /// Admits a request: on success, a re-chunker for its body stamped with its timestamp;
    /// on a rejected request, no re-chunker, so nothing of its body can reach the transport.
    pub fn open_ingest(
        &self,
        timestamp: &HeaderText,
        session_id: &HeaderText,
        chunk_samples: usize,
    ) -> (r: Result<Rechunker, IngestError>)
        requires
            0 < chunk_samples <= usize::MAX / 2,
        ensures
            header_verdict(self.active, *timestamp, *session_id) matches Err(e) ==> r == Err::<
                Rechunker,
                IngestError,
            >(e),
            header_verdict(self.active, *timestamp, *session_id) matches Ok(ts) ==> (r matches Ok(
                rc,
            ) && rc.wf() && rc@.len() == 0 && rc.chunk_bytes() == 2 * chunk_samples
                && rc.timestamp_millis() == ts),
    {
        match self.check_request(timestamp, session_id) {
            Ok(ts) => Ok(Rechunker::new(chunk_samples, ts)),
            Err(e) => Err(e),
        }
    }
}

/// Re-chunks a request body into segments of a fixed number of bytes, all stamped with the
/// request's capture timestamp.
pub struct Rechunker {
    pending: Vec<u8>,
    chunk_bytes: usize,
    timestamp_millis: i64,
}

impl View for Rechunker {
    type V = Seq<u8>;

    closed spec fn view(&self) -> Seq<u8> {
        self.pending@
    }
}

impl Rechunker {
    pub closed spec fn chunk_bytes(&self) -> nat {
        self.chunk_bytes as nat
    }

    pub closed spec fn timestamp_millis(&self) -> i64 {
        self.timestamp_millis
    }

    pub open spec fn wf(&self) -> bool {
        &&& self.chunk_bytes() > 0
        &&& self@.len() < self.chunk_bytes()
    }

    pub fn new(chunk_samples: usize, timestamp_millis: i64) -> (r: Rechunker)
        requires
            0 < chunk_samples <= usize::MAX / 2,
        ensures
            r.wf(),
            r@.len() == 0,
            r.chunk_bytes() == 2 * chunk_samples,
            r.timestamp_millis() == timestamp_millis,
    {
        Rechunker { pending: Vec::new(), chunk_bytes: chunk_samples * 2, timestamp_millis }
    }

    /// Takes the next piece of the body; returns a segment for each complete chunk that the
    /// bytes so far contain, and keeps the remainder for later.
    pub fn feed(&mut self, data: &[u8]) -> (segs: Vec<Segment>)
        requires
            old(self).wf(),
            old(self)@.len() + data@.len() <= usize::MAX,
        ensures
            final(self).wf(),
            final(self).chunk_bytes() == old(self).chunk_bytes(),
            final(self).timestamp_millis() == old(self).timestamp_millis(),
            ({
                let all = old(self)@ + data@;
                let cb = old(self).chunk_bytes();
                let n = segs@.len() as int;
                &&& n * cb <= all.len() < (n + 1) * cb
                &&& final(self)@ == all.subrange(n * cb, all.len() as int)
                &&& forall|i: int|
                    0 <= i < n ==> (#[trigger] segs@[i]).timestamp_millis
                        == old(self).timestamp_millis() && segs@[i].samples@ == decode_le(
                        all.subrange(i * cb, (i + 1) * cb),
                    )
            }),
    {
        let ghost all = self.pending@ + data@;
        let mut i: usize = 0;
        while i < data.len()
            invariant
                all == old(self).pending@ + data@,
                i <= data@.len(),
                self.pending@ == all.subrange(0, old(self).pending@.len() + i),
                self.chunk_bytes == old(self).chunk_bytes,
                self.timestamp_millis == old(self).timestamp_millis,
            decreases data@.len() - i,
        {
            self.pending.push(data[i]);
            i = i + 1;
            assert(self.pending@ =~= all.subrange(0, old(self).pending@.len() + i));
        }
        assert(self.pending@ =~= all);
        let cb = self.chunk_bytes;
        let mut segs: Vec<Segment> = Vec::new();
        let mut start: usize = 0;
        assert(0 * cb == 0) by (nonlinear_arith);
        while self.pending.len() - start >= cb
            invariant
                self.pending@ == all,
                cb == old(self).chunk_bytes,
                cb > 0,
                self.timestamp_millis == old(self).timestamp_millis,
                start <= all.len(),
                start == segs@.len() * cb,
                forall|k: int|
                    0 <= k < segs@.len() ==> (#[trigger] segs@[k]).timestamp_millis
                        == self.timestamp_millis && segs@[k].samples@ == decode_le(
                        all.subrange(k * cb, (k + 1) * cb),
                    ),
            decreases all.len() - start,
        {
            let samples = decode_range(self.pending.as_slice(), start, start + cb);
            proof {
                assert((segs@.len() + 1) * cb == segs@.len() * cb + cb) by (nonlinear_arith);
            }
            segs.push(Segment { timestamp_millis: self.timestamp_millis, samples });
            start = start + cb;
        }
        proof {
            assert((segs@.len() + 1) * cb == segs@.len() * cb + cb) by (nonlinear_arith);
        }
        let rest = self.pending.split_off(start);
        self.pending = rest;
        segs
    }

    /// Ends the body: a partial trailing chunk is still a segment.
    pub fn finish(self) -> (seg: Option<Segment>)
        requires
            self.wf(),
        ensures
            self@.len() == 0 ==> seg is None,
            self@.len() > 0 ==> (seg matches Some(s) && s.timestamp_millis
                == self.timestamp_millis() && s.samples@ == decode_le(self@)),
    {
        if self.pending.len() == 0 {
            None
        } else {
            let n = self.pending.len();
            let samples = decode_range(self.pending.as_slice(), 0, n);
            proof {
                assert(self.pending@.subrange(0, n as int) =~= self.pending@);
            }
            Some(Segment { timestamp_millis: self.timestamp_millis, samples })
        }
    }
}

} // verus!
