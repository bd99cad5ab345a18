//! The segmentation engine: a two-state machine that turns classified chunks into
//! speech segments, with pre-roll retention and minimum / maximum duration overrides.
use crate::preroll::{keep_last, PreRoll};
use crate::segment::Segment;
use vstd::prelude::*;

verus! {

/// The audio rate every producer delivers, in samples per second.
pub const TARGET_SAMPLE_RATE: u32 = 16000;

/// The nominal number of samples in one chunk.
pub const SAMPLE_SIZE: usize = 1024;

/// Default shortest speech segment, in seconds.
pub const MIN_SPEECH_DURATION_SECONDS: u32 = 3;

/// Default longest speech segment, in seconds.
pub const MAX_SPEECH_DURATION_SECONDS: u32 = 60;

#[derive(PartialEq, Eq, Structural, Clone, Copy, Debug)]
pub enum SpeechTag {
    NoSpeech,
    HasSpeech,
}

pub open spec fn tag_of(has_speech: bool) -> SpeechTag {
    if has_speech {
        SpeechTag::HasSpeech
    } else {
        SpeechTag::NoSpeech
    }
}

impl SpeechTag {
    pub fn convert(has_speech: bool) -> (t: SpeechTag)
        ensures
            t == tag_of(has_speech),
    {
        match has_speech {
            true => SpeechTag::HasSpeech,
            _ => SpeechTag::NoSpeech,
        }
    }
}

/// Duration limits and pre-roll size, all counted in samples.
#[derive(PartialEq, Eq, Structural, Clone, Copy, Debug)]
pub struct SegmenterConfig {
    /// A speech run shorter than this is never cut.
    pub min_speech_samples: u64,
    /// A speech run longer than this is cut at the next chunk.
    pub max_speech_samples: u64,
    /// The pre-roll keeps at most this many samples (one second).
    pub preroll_samples: usize,
}

proof fn lemma_seconds_to_samples(lo: u32, hi: u32, rate: u32)
    requires
        lo <= hi,
    ensures
        lo as int * rate as int <= hi as int * rate as int,
        hi as int * rate as int <= u64::MAX,
{
    assert(lo as int * rate as int <= hi as int * rate as int) by (nonlinear_arith)
        requires
            lo <= hi,
    ;
    assert(hi as int * rate as int <= u32::MAX as int * u32::MAX as int) by (nonlinear_arith)
        requires
            hi <= u32::MAX,
            rate <= u32::MAX,
    ;
}

impl SegmenterConfig {
    pub open spec fn wf(&self) -> bool {
        &&& self.preroll_samples > 0
        &&& self.min_speech_samples <= self.max_speech_samples
    }

    /// Limits given in whole seconds at `sample_rate`; the pre-roll holds one second.
    pub fn from_seconds(sample_rate: u32, min_speech_seconds: u32, max_speech_seconds: u32) -> (c:
        SegmenterConfig)
        requires
            sample_rate > 0,
            min_speech_seconds <= max_speech_seconds,
        ensures
            c.wf(),
            c.min_speech_samples == min_speech_seconds as int * sample_rate as int,
            c.max_speech_samples == max_speech_seconds as int * sample_rate as int,
            c.preroll_samples == sample_rate,
    {
        proof {
            lemma_seconds_to_samples(min_speech_seconds, max_speech_seconds, sample_rate);
        }
        let min = min_speech_seconds as u64 * sample_rate as u64;
        let max = max_speech_seconds as u64 * sample_rate as u64;
        SegmenterConfig {
            min_speech_samples: min,
            max_speech_samples: max,
            preroll_samples: sample_rate as usize,
        }
    }

    /// 16 kHz audio, speech runs of three to sixty seconds.
    pub fn standard() -> (c: SegmenterConfig)
        ensures
            c.wf(),
            c.min_speech_samples == 48000,
            c.max_speech_samples == 960000,
            c.preroll_samples == 16000,
    {
        SegmenterConfig::from_seconds(
            TARGET_SAMPLE_RATE,
            MIN_SPEECH_DURATION_SECONDS,
            MAX_SPEECH_DURATION_SECONDS,
        )
    }
}

/// The engine's state as mathematics: the tag of the previous chunk, the timestamp at which
/// the current speech run began, the accumulation buffer and the pre-roll buffer.
pub struct EngineState {
    pub tag: SpeechTag,
    pub begin: Option<i64>,
    pub buf: Seq<i16>,
    pub preroll: Seq<i16>,
}

/// One chunk as the engine sees it: its timestamp, its samples and the classifier's verdict.
pub struct ChunkEvent {
    pub timestamp_millis: i64,
    pub samples: Seq<i16>,
    pub speech: bool,
}

/// A completed speech segment: start timestamp and samples.
pub type FlushView = (Option<i64>, Seq<i16>);

pub open spec fn initial_state() -> EngineState {
    EngineState {
        tag: SpeechTag::NoSpeech,
        begin: None,
        buf: Seq::empty(),
        preroll: Seq::empty(),
    }
}

/// The verdict after the duration overrides: inside a speech run, a buffer beyond the maximum
/// forces no-speech, and one below the minimum forces speech.
pub open spec fn effective_speech(cfg: SegmenterConfig, st: EngineState, speech: bool) -> bool {
    match st.tag {
        SpeechTag::NoSpeech => speech,
        SpeechTag::HasSpeech => {
            if st.buf.len() > cfg.max_speech_samples {
                false
            } else if st.buf.len() < cfg.min_speech_samples {
                true
            } else {
                speech
            }
        },
    }
}

/// The state after one chunk.
pub open spec fn next_state(cfg: SegmenterConfig, st: EngineState, ev: ChunkEvent) -> EngineState {
    let eff = effective_speech(cfg, st, ev.speech);
    match st.tag {
        SpeechTag::NoSpeech => {
            if eff {
                EngineState {
                    tag: SpeechTag::HasSpeech,
                    begin: Some(ev.timestamp_millis),
                    buf: st.buf + st.preroll + ev.samples,
                    preroll: Seq::empty(),
                }
            } else {
                EngineState {
                    tag: SpeechTag::NoSpeech,
                    begin: st.begin,
                    buf: st.buf,
                    preroll: keep_last(st.preroll + ev.samples, cfg.preroll_samples as nat),
                }
            }
        },
        SpeechTag::HasSpeech => {
            if eff {
                EngineState { tag: SpeechTag::HasSpeech, buf: st.buf + ev.samples, ..st }
            } else {
                EngineState {
                    tag: SpeechTag::NoSpeech,
                    begin: None,
                    buf: Seq::empty(),
                    preroll: Seq::empty(),
                }
            }
        },
    }
}

/// The segment handed to the sink on one chunk, if any: a speech run ends when the
/// verdict after overrides is no-speech; the ending chunk is kept in the segment.
pub open spec fn step_flush(cfg: SegmenterConfig, st: EngineState, ev: ChunkEvent) -> Option<
    FlushView,
> {
    if st.tag == SpeechTag::HasSpeech && !effective_speech(cfg, st, ev.speech) {
        Some((st.begin, st.buf + ev.samples))
    } else {
        None
    }
}

/// The segment handed to the sink when the stream ends: the accumulation buffer, if non-empty.
pub open spec fn final_flush(st: EngineState) -> Option<FlushView> {
    if st.buf.len() > 0 {
        Some((st.begin, st.buf))
    } else {
        None
    }
}

pub open spec fn opt_seq(o: Option<FlushView>) -> Seq<FlushView> {
    match o {
        Some(f) => seq![f],
        None => Seq::empty(),
    }
}

/// The state after a sequence of chunks, from the initial state.
pub open spec fn state_after(cfg: SegmenterConfig, evs: Seq<ChunkEvent>) -> EngineState
    decreases evs.len(),
{
    if evs.len() == 0 {
        initial_state()
    } else {
        next_state(cfg, state_after(cfg, evs.drop_last()), evs.last())
    }
}

/// The segments handed to the sink while a sequence of chunks is processed.
pub open spec fn flushes_during(cfg: SegmenterConfig, evs: Seq<ChunkEvent>) -> Seq<FlushView>
    decreases evs.len(),
{
    if evs.len() == 0 {
        Seq::empty()
    } else {
        flushes_during(cfg, evs.drop_last()) + opt_seq(
            step_flush(cfg, state_after(cfg, evs.drop_last()), evs.last()),
        )
    }
}

/// Every segment of a whole session: those during the stream, then the trailing one.
pub open spec fn session_flushes(cfg: SegmenterConfig, evs: Seq<ChunkEvent>) -> Seq<FlushView> {
    flushes_during(cfg, evs) + opt_seq(final_flush(state_after(cfg, evs)))
}


/// A completed speech segment handed to the sink.
pub struct SpeechSegment {
    /// Timestamp of the chunk on which the speech run began.
    pub start_timestamp_millis: Option<i64>,
    pub samples: Vec<i16>,
}

impl View for SpeechSegment {
    type V = FlushView;

    open spec fn view(&self) -> FlushView {
        (self.start_timestamp_millis, self.samples@)
    }
}

pub open spec fn flush_view(o: Option<SpeechSegment>) -> Option<FlushView> {
    match o {
        Some(s) => Some(s@),
        None => None,
    }
}

pub open spec fn event_of(segment: Segment, speech: bool) -> ChunkEvent {
    ChunkEvent { timestamp_millis: segment.timestamp_millis, samples: segment.samples@, speech }
}

/// The segmentation engine of one session.
pub struct Segmenter {
    config: SegmenterConfig,
    prev_tag: SpeechTag,
    has_speech_begin_timestamp: Option<i64>,
    buf: Vec<i16>,
    prev_samples: PreRoll,
}

impl View for Segmenter {
    type V = EngineState;

    closed spec fn view(&self) -> EngineState {
        EngineState {
            tag: self.prev_tag,
            begin: self.has_speech_begin_timestamp,
            buf: self.buf@,
            preroll: self.prev_samples@,
        }
    }
}

impl Segmenter {
    pub closed spec fn config(&self) -> SegmenterConfig {
        self.config
    }

    pub closed spec fn wf(&self) -> bool {
        &&& self.config.wf()
        &&& self.prev_samples.wf()
        &&& self.prev_samples.capacity() == self.config.preroll_samples
        &&& self.prev_tag == SpeechTag::NoSpeech ==> self.buf@.len() == 0
    }

    pub fn new(config: SegmenterConfig) -> (s: Segmenter)
        requires
            config.wf(),
        ensures
            s.wf(),
            s.config() == config,
            s@ == initial_state(),
    {
        Segmenter {
            config,
            prev_tag: SpeechTag::NoSpeech,
            has_speech_begin_timestamp: None,
            buf: Vec::new(),
            prev_samples: PreRoll::new(config.preroll_samples),
        }
    }

    /// The tag of the previous chunk.
    pub fn tag(&self) -> (t: SpeechTag)
        ensures
            t == self@.tag,
    {
        self.prev_tag
    }

    /// Number of samples in the accumulation buffer.
    pub fn buffered_len(&self) -> (n: usize)
        ensures
            n == self@.buf.len(),
    {
        self.buf.len()
    }

    /// Number of samples in the pre-roll buffer.
    pub fn preroll_len(&self) -> (n: usize)
        requires
            self.wf(),
        ensures
            n == self@.preroll.len(),
            n <= self.config().preroll_samples,
    {
        self.prev_samples.len()
    }

    /// Processes one chunk with the classifier's verdict on it; returns the speech segment
    /// that this chunk completes, if any.
    pub fn process_segment(&mut self, segment: Segment, classified_speech: bool) -> (out: Option<
        SpeechSegment,
    >)
        requires
            old(self).wf(),
        ensures
            final(self).wf(),
            final(self).config() == old(self).config(),
            final(self)@ == next_state(old(self).config(), old(self)@, event_of(segment, classified_speech)),
            flush_view(out) == step_flush(old(self).config(), old(self)@, event_of(segment, classified_speech)),
            final(self)@.preroll.len() <= old(self).config().preroll_samples,
    {
        let ghost st = self@;
        let ghost ev = event_of(segment, classified_speech);
        let Segment { timestamp_millis, mut samples } = segment;
        let mut has_speech = classified_speech;
        let mut out: Option<SpeechSegment> = None;
        assert(self.prev_samples@.len() <= self.config.preroll_samples);
        match self.prev_tag {
            SpeechTag::NoSpeech => {
                if has_speech {
                    self.has_speech_begin_timestamp = Some(timestamp_millis);
                    if self.prev_samples.len() > 0 {
                        let mut pre = self.prev_samples.take_all();
                        self.buf.append(&mut pre);
                    }
                    assert(self.prev_samples@.len() == 0);
                    self.buf.append(&mut samples);
                    assert(self.buf@ =~= st.buf + st.preroll + ev.samples);
                } else {
                    self.prev_samples.push_chunk(&samples);
                }
            },
            SpeechTag::HasSpeech => {
                let len = self.buf.len() as u64;
                if len > self.config.max_speech_samples {
                    has_speech = false;
                } else if len < self.config.min_speech_samples {
                    has_speech = true;
                }
                self.buf.append(&mut samples);
                if !has_speech {
                    let mut done: Vec<i16> = Vec::new();
                    std::mem::swap(&mut done, &mut self.buf);
                    out = Some(
                        SpeechSegment {
                            start_timestamp_millis: self.has_speech_begin_timestamp,
                            samples: done,
                        },
                    );
                    self.has_speech_begin_timestamp = None;
                    self.prev_samples.clear();
                }
            },
        }
        self.prev_tag = SpeechTag::convert(has_speech);
        let ghost nx = next_state(self.config, st, ev);
        assert(has_speech == effective_speech(self.config, st, ev.speech));
        assert(self@.tag == nx.tag);
        assert(self@.begin == nx.begin);
        assert(self@.buf =~= nx.buf);
        assert(self@.preroll =~= nx.preroll);
        out
    }

    /// Ends the session: the accumulation buffer, if non-empty, is the last segment.
    pub fn finish(self) -> (out: Option<SpeechSegment>)
        requires
            self.wf(),
        ensures
            flush_view(out) == final_flush(self@),
    {
        if self.buf.len() > 0 {
            Some(
                SpeechSegment {
                    start_timestamp_millis: self.has_speech_begin_timestamp,
                    samples: self.buf,
                },
            )
        } else {
            None
        }
    }
}

/// A chunk together with the classifier's verdict on it.
pub struct ClassifiedChunk {
    pub segment: Segment,
    pub speech: bool,
}

pub open spec fn events_of(cs: Seq<ClassifiedChunk>) -> Seq<ChunkEvent> {
    cs.map_values(|c: ClassifiedChunk| event_of(c.segment, c.speech))
}

pub open spec fn views_of(ss: Seq<SpeechSegment>) -> Seq<FlushView> {
    ss.map_values(|s: SpeechSegment| s@)
}

proof fn lemma_events_prefix(cs: Seq<ClassifiedChunk>, i: int)
    requires
        0 <= i < cs.len(),
    ensures
        events_of(cs.take(i + 1)).drop_last() == events_of(cs.take(i)),
        events_of(cs.take(i + 1)).last() == event_of(cs[i].segment, cs[i].speech),
        events_of(cs.take(i + 1)).len() == i + 1,
{
    assert(events_of(cs.take(i + 1)).drop_last() =~= events_of(cs.take(i)));
}

/// Runs a whole finite session: every chunk in order, then the end of the stream.
pub fn segment_stream(config: SegmenterConfig, chunks: Vec<ClassifiedChunk>) -> (r: Vec<
    SpeechSegment,
>)
    requires
        config.wf(),
    ensures
        views_of(r@) == session_flushes(config, events_of(chunks@)),
{
    let ghost cs = chunks@;
    let mut engine = Segmenter::new(config);
    let mut out: Vec<SpeechSegment> = Vec::new();
    for c in it: chunks.into_iter()
        invariant
            it.seq() == cs,
            engine.wf(),
            engine.config() == config,
            engine@ == state_after(config, events_of(cs.take(it.index() as int))),
            views_of(out@) == flushes_during(config, events_of(cs.take(it.index() as int))),
    {
        let ghost i = it.index() as int;
        proof {
            lemma_events_prefix(cs, i);
        }
        let ClassifiedChunk { segment, speech } = c;
        let done = engine.process_segment(segment, speech);
        let ghost before = out@;
        match done {
            Some(seg) => {
                out.push(seg);
            },
            None => {},
        }
        assert(views_of(out@) =~= views_of(before) + opt_seq(flush_view(done)));
    }
    assert(cs.take(cs.len() as int) =~= cs);
    let ghost before = out@;
    match engine.finish() {
        Some(seg) => {
            out.push(seg);
        },
        None => {},
    }
    assert(views_of(out@) =~= session_flushes(config, events_of(cs)));
    out
}

/// The tag after each chunk of `evs`, from the initial state.
pub open spec fn tag_trace(cfg: SegmenterConfig, evs: Seq<ChunkEvent>) -> Seq<SpeechTag> {
    Seq::new(evs.len(), |i: int| state_after(cfg, evs.take(i + 1)).tag)
}

/// The number of has-speech runs in `tags` that a no-speech tag ends
/// (the tag before the first is no-speech).
pub open spec fn count_falls(tags: Seq<SpeechTag>) -> nat
    decreases tags.len(),
{
    if tags.len() == 0 {
        0
    } else {
        let prev = if tags.len() == 1 {
            SpeechTag::NoSpeech
        } else {
            tags[tags.len() - 2]
        };
        count_falls(tags.drop_last()) + if prev == SpeechTag::HasSpeech && tags.last()
            == SpeechTag::NoSpeech {
            1nat
        } else {
            0nat
        }
    }
}

proof fn lemma_keep_last_len(s: Seq<i16>, n: nat)
    ensures
        keep_last(s, n).len() <= n,
        s.len() <= n ==> keep_last(s, n) == s,
{
}

proof fn lemma_next_tag(cfg: SegmenterConfig, st: EngineState, ev: ChunkEvent)
    ensures
        next_state(cfg, st, ev).tag == tag_of(effective_speech(cfg, st, ev.speech)),
        step_flush(cfg, st, ev) is Some <==> (st.tag == SpeechTag::HasSpeech && next_state(
            cfg,
            st,
            ev,
        ).tag == SpeechTag::NoSpeech),
{
}

/// Reachable states keep the pre-roll within its capacity, and hold an empty accumulation
/// buffer whenever the tag is no-speech.
proof fn lemma_reachable(cfg: SegmenterConfig, evs: Seq<ChunkEvent>)
    ensures
        state_after(cfg, evs).preroll.len() <= cfg.preroll_samples,
        state_after(cfg, evs).tag == SpeechTag::NoSpeech ==> state_after(cfg, evs).buf.len() == 0,
    decreases evs.len(),
{
    if evs.len() > 0 {
        lemma_reachable(cfg, evs.drop_last());
        let st = state_after(cfg, evs.drop_last());
        lemma_keep_last_len(st.preroll + evs.last().samples, cfg.preroll_samples as nat);
    }
}

/// Whatever chunks arrive, the pre-roll buffer never holds more than its capacity of samples
/// (one second of audio) after any of them.
pub proof fn lemma_preroll_never_exceeds_capacity(cfg: SegmenterConfig, evs: Seq<ChunkEvent>)
    ensures
        forall|n: int|
            0 <= n <= evs.len() ==> #[trigger] state_after(cfg, evs.take(n)).preroll.len()
                <= cfg.preroll_samples,
{
    assert forall|n: int| 0 <= n <= evs.len() implies #[trigger] state_after(
        cfg,
        evs.take(n),
    ).preroll.len() <= cfg.preroll_samples by {
        lemma_reachable(cfg, evs.take(n));
    }
}

proof fn lemma_trace_prefix(cfg: SegmenterConfig, evs: Seq<ChunkEvent>)
    requires
        evs.len() > 0,
    ensures
        tag_trace(cfg, evs).drop_last() == tag_trace(cfg, evs.drop_last()),
        tag_trace(cfg, evs).last() == state_after(cfg, evs).tag,
{
    let pre = evs.drop_last();
    assert forall|i: int| 0 <= i < pre.len() implies #[trigger] tag_trace(cfg, evs)[i]
        == tag_trace(cfg, pre)[i] by {
        assert(evs.take(i + 1) =~= pre.take(i + 1));
    }
    assert(tag_trace(cfg, evs).drop_last() =~= tag_trace(cfg, pre));
    assert(evs.take(evs.len() as int) =~= evs);
}

proof fn lemma_falls_during(cfg: SegmenterConfig, evs: Seq<ChunkEvent>)
    ensures
        flushes_during(cfg, evs).len() == count_falls(tag_trace(cfg, evs)),
    decreases evs.len(),
{
    if evs.len() > 0 {
        let pre = evs.drop_last();
        lemma_falls_during(cfg, pre);
        lemma_trace_prefix(cfg, evs);
        lemma_next_tag(cfg, state_after(cfg, pre), evs.last());
        if pre.len() > 0 {
            lemma_trace_prefix(cfg, pre);
        }
        let tags = tag_trace(cfg, evs);
        if tags.len() >= 2 {
            assert(tags[tags.len() - 2] == tags.drop_last().last());
        }
    }
}

/// Over any finite input, the sink is called once for each has-speech run (after the duration
/// overrides) that a no-speech verdict ends, plus once at the end exactly when the stream
/// ends inside a speech run with a non-empty accumulation buffer.
pub proof fn lemma_one_flush_per_speech_run(cfg: SegmenterConfig, evs: Seq<ChunkEvent>)
    ensures
        session_flushes(cfg, evs).len() == count_falls(tag_trace(cfg, evs)) + if state_after(
            cfg,
            evs,
        ).tag == SpeechTag::HasSpeech && state_after(cfg, evs).buf.len() > 0 {
            1nat
        } else {
            0nat
        },
{
    lemma_falls_during(cfg, evs);
    lemma_reachable(cfg, evs);
}

/// Inside a speech run whose accumulated samples are still fewer than the minimum, a chunk
/// never ends the run, whatever the classifier said: it is appended and the run goes on.
pub proof fn lemma_min_duration_keeps_accumulating(
    cfg: SegmenterConfig,
    st: EngineState,
    ev: ChunkEvent,
)
    requires
        cfg.wf(),
        st.tag == SpeechTag::HasSpeech,
        st.buf.len() < cfg.min_speech_samples,
    ensures
        step_flush(cfg, st, ev) is None,
        next_state(cfg, st, ev).tag == SpeechTag::HasSpeech,
        next_state(cfg, st, ev).buf == st.buf + ev.samples,
        next_state(cfg, st, ev).begin == st.begin,
{
}

/// Inside a speech run whose accumulated samples exceed the maximum, the next chunk ends the
/// run even if the classifier still reports speech: the segment holds the buffer and that chunk.
pub proof fn lemma_max_duration_forces_flush(cfg: SegmenterConfig, st: EngineState, ev: ChunkEvent)
    requires
        st.tag == SpeechTag::HasSpeech,
        st.buf.len() > cfg.max_speech_samples,
    ensures
        step_flush(cfg, st, ev) == Some((st.begin, st.buf + ev.samples)),
        next_state(cfg, st, ev).tag == SpeechTag::NoSpeech,
        next_state(cfg, st, ev).buf.len() == 0,
        next_state(cfg, st, ev).preroll.len() == 0,
{
}

} // verus!
