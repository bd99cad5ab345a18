//! Decisions of the stream supervisor: finite or live source, timestamps of decoded chunks,
//! the backpressure policy at enqueue, and what follows the end of a decoder pass.
use crate::pcm::{convert_to_i16_vec, decode_le};
use crate::segment::Segment;
use crate::transport::Transport;
use vstd::prelude::*;

verus! {

/// Pause before a live source's decoder is started again, in milliseconds.
pub const RESTART_COOLDOWN_MILLIS: u64 = 500;

#[derive(PartialEq, Eq, Structural, Clone, Copy, Debug)]
pub enum SourceKind {
    /// A known duration: one decoder pass, then the end-of-stream sentinel.
    Finite,
    /// No known duration: decoded for ever, restarted after each pass.
    Live,
}

/// A source is finite exactly when the duration probe reported a duration.
pub fn source_kind(probed_duration: &Option<String>) -> (k: SourceKind)
    ensures
        k == (if probed_duration.is_some() {
            SourceKind::Finite
        } else {
            SourceKind::Live
        }),
{
    match probed_duration {
        Some(_) => SourceKind::Finite,
        None => SourceKind::Live,
    }
}

/// Epoch milliseconds of a chunk's first sample: the pass start plus the time the samples
/// already emitted take at `rate`, rounded to the nearest millisecond (halves up), and capped
/// at the largest `i64`.
pub open spec fn chunk_start_millis(start: i64, emitted: u64, rate: u32) -> i64 {
    let t = start + (2000 * emitted + rate) / (2 * rate as int);
    if t > i64::MAX {
        i64::MAX
    } else {
        t as i64
    }
}

pub fn chunk_timestamp(start_millis: i64, samples_emitted: u64, sample_rate: u32) -> (t: i64)
    requires
        sample_rate > 0,
    ensures
        t == chunk_start_millis(start_millis, samples_emitted, sample_rate),
{
    let e = samples_emitted as u128;
    let r = sample_rate as u128;
    assert(e * 2000 <= 2000 * 0xffff_ffff_ffff_ffffu128) by (nonlinear_arith)
        requires
            e <= 0xffff_ffff_ffff_ffffu128,
    ;
    let offset: u128 = (e * 2000 + r) / (2 * r);
    assert(offset <= e * 2000 + r) by (nonlinear_arith)
        requires
            offset == (e * 2000 + r) / (2 * r),
            r > 0,
    ;
    let t: i128 = start_millis as i128 + offset as i128;
    if t > i64::MAX as i128 {
        i64::MAX
    } else {
        t as i64
    }
}

/// What became of a decoded chunk offered to the transport.
#[derive(PartialEq, Eq, Structural, Clone, Copy, Debug)]
pub enum OfferOutcome {
    /// The chunk is queued.
    Enqueued,
    /// Finite source, full queue: nothing changed; offer the same bytes again once there is room.
    MustWait,
    /// Live source, full queue: the consumer has fallen behind real time; the pipeline must abort.
    Fatal,
}

/// One run of the decoder over a source.
pub struct DecodePass {
    pub kind: SourceKind,
    pub start_millis: i64,
    pub sample_rate: u32,
    pub samples_emitted: u64,
}

pub open spec fn saturating_add(a: u64, b: nat) -> u64 {
    if a + b > u64::MAX {
        u64::MAX
    } else {
        (a + b) as u64
    }
}

impl DecodePass {
    pub fn new(kind: SourceKind, start_millis: i64, sample_rate: u32) -> (p: DecodePass)
        requires
            sample_rate > 0,
        ensures
            p.kind == kind,
            p.start_millis == start_millis,
            p.sample_rate == sample_rate,
            p.samples_emitted == 0,
    {
        DecodePass { kind, start_millis, sample_rate, samples_emitted: 0 }
    }

    /// Offers the next raw chunk (little-endian 16-bit samples) to the transport. A full
    /// transport is fatal for a live source and a wait for a finite one; otherwise the chunk
    /// is queued as a segment stamped with the time of its first sample.
    pub fn offer_chunk(&mut self, transport: &mut Transport, bytes: &[u8]) -> (r: OfferOutcome)
        requires
            old(self).sample_rate > 0,
            old(transport).wf(),
        ensures
            final(transport).wf(),
            final(transport).capacity() == old(transport).capacity(),
            final(self).kind == old(self).kind,
            final(self).start_millis == old(self).start_millis,
            final(self).sample_rate == old(self).sample_rate,
            old(transport)@.len() == old(transport).capacity() ==> {
                &&& r == (if old(self).kind == SourceKind::Live {
                    OfferOutcome::Fatal
                } else {
                    OfferOutcome::MustWait
                })
                &&& final(transport)@ == old(transport)@
                &&& final(self).samples_emitted == old(self).samples_emitted
            },
            old(transport)@.len() < old(transport).capacity() ==> {
                &&& r == OfferOutcome::Enqueued
                &&& final(transport)@.len() == old(transport)@.len() + 1
                &&& final(transport)@.drop_last() == old(transport)@
                &&& final(transport)@.last() matches Some(seg) && seg.timestamp_millis
                    == chunk_start_millis(
                    old(self).start_millis,
                    old(self).samples_emitted,
                    old(self).sample_rate,
                ) && seg.samples@ == decode_le(bytes@)
                &&& final(self).samples_emitted == saturating_add(
                    old(self).samples_emitted,
                    decode_le(bytes@).len(),
                )
            },
    {
        if transport.is_full() {
            return match self.kind {
                SourceKind::Live => OfferOutcome::Fatal,
                SourceKind::Finite => OfferOutcome::MustWait,
            };
        }
        let samples = convert_to_i16_vec(bytes);
        let timestamp_millis = chunk_timestamp(
            self.start_millis,
            self.samples_emitted,
            self.sample_rate,
        );
        let n = samples.len() as u64;
        self.samples_emitted = self.samples_emitted.saturating_add(n);
        let ghost before = transport@;
        let _ = transport.try_push(Some(Segment { timestamp_millis, samples }));
        assert(transport@.drop_last() =~= before);
        OfferOutcome::Enqueued
    }
}

/// What the supervisor does once a decoder pass has ended.
#[derive(PartialEq, Eq, Structural, Clone, Copy, Debug)]
pub enum PassFollowUp {
    /// Finite source, pass completed: push the end-of-stream sentinel and stop.
    SendEndOfStream,
    /// Finite source, pass failed: stop and report the error.
    Fail,
    /// Live source: wait this many milliseconds and start a new pass.
    RestartAfter(u64),
}

/// A live source is restarted after a cooldown whatever ended the pass; a finite source ends
/// with the sentinel after a completed pass and with the error after a failed one.
pub fn after_pass(kind: SourceKind, completed: bool) -> (f: PassFollowUp)
    ensures
        f == (match kind {
            SourceKind::Live => PassFollowUp::RestartAfter(RESTART_COOLDOWN_MILLIS),
            SourceKind::Finite => if completed {
                PassFollowUp::SendEndOfStream
            } else {
                PassFollowUp::Fail
            },
        }),
{
    match kind {
        SourceKind::Live => PassFollowUp::RestartAfter(RESTART_COOLDOWN_MILLIS),
        SourceKind::Finite => {
            if completed {
                PassFollowUp::SendEndOfStream
            } else {
                PassFollowUp::Fail
            }
        },
    }
}

} // verus!
