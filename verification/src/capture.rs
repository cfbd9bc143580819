//! Capture routing: the decisions of the capture worker.
//!
//! The worker feeds audio frames, VAD probabilities, hotkey events and the
//! outcome of each WAV write into a `CaptureCore`, which answers with what to
//! do next. The routing metadata of an utterance (destination tab, vocabulary
//! and language) is snapshotted exactly once, at the rising edge or the
//! push-to-talk press that opens it, and every utterance published carries
//! that snapshot: nothing re-reads the active tab mid-utterance.
use vstd::prelude::*;
use crate::text::str_eq;
use crate::utterance::{
    builder_on_event, builder_push, finalized_view, push_fits, BuilderModel, FinalizedUtterance,
    UtteranceBuilder, UtteranceConfig, UtteranceSpec,
};
use crate::vad::{vad_next, SpeechProb, VadEvent, HysteresisModel, VadState, VadStateMachine, CHUNK_SAMPLES};

verus! {

/// `AlwaysOn`: VAD edges bound utterances. `Ptt`: the hotkey does.
#[derive(Debug, Clone, Copy, PartialEq, Eq, Structural)]
pub enum CaptureMode {
    AlwaysOn,
    Ptt,
}

/// Setting spelling of each mode.
pub open spec fn mode_name(m: CaptureMode) -> Seq<char> {
    match m {
        CaptureMode::AlwaysOn => "always_on"@,
        CaptureMode::Ptt => "ptt"@,
    }
}

impl Default for CaptureMode {
    fn default() -> (r: Self)
        ensures
            r == CaptureMode::AlwaysOn,
    {
        CaptureMode::AlwaysOn
    }
}

impl CaptureMode {
    pub fn parse(s: &str) -> (r: Option<Self>)
        ensures
            r == (if s@ == "always_on"@ {
                Some(CaptureMode::AlwaysOn)
            } else if s@ == "ptt"@ {
                Some(CaptureMode::Ptt)
            } else {
                None
            }),
    {
        if str_eq(s, "always_on") {
            Some(CaptureMode::AlwaysOn)
        } else if str_eq(s, "ptt") {
            Some(CaptureMode::Ptt)
        } else {
            None
        }
    }

    /// The other mode (the tray menu's toggle).
    pub fn toggled(self) -> (r: Self)
        ensures
            r != self,
    {
        match self {
            CaptureMode::AlwaysOn => CaptureMode::Ptt,
            CaptureMode::Ptt => CaptureMode::AlwaysOn,
        }
    }

    pub fn as_str(self) -> (r: &'static str)
        ensures
            r@ == mode_name(self),
    {
        match self {
            CaptureMode::AlwaysOn => "always_on",
            CaptureMode::Ptt => "ptt",
        }
    }
}

/// Parsing a mode's own spelling gives the mode back, and the two spellings
/// differ.
pub proof fn lemma_mode_parse_round_trip(m: CaptureMode)
    ensures
        (if mode_name(m) == "always_on"@ {
            Some(CaptureMode::AlwaysOn)
        } else if mode_name(m) == "ptt"@ {
            Some(CaptureMode::Ptt)
        } else {
            None
        }) == Some(m),
{
    reveal_strlit("always_on");
    reveal_strlit("ptt");
    assert("always_on"@.len() != "ptt"@.len());
}

/// Capture status shown to the user.
#[derive(Debug, Clone, PartialEq, Eq)]
pub enum CaptureStatus {
    Idle,
    Capturing { device_name: Option<String> },
    Error { message: String },
}

/// Whether capture is running (any status but `Idle`).
pub fn is_capturing(status: &CaptureStatus) -> (r: bool)
    ensures
        r == !(status is Idle),
{
    match status {
        CaptureStatus::Idle => false,
        _ => true,
    }
}

/// Routing snapshot taken when an utterance opens.
#[derive(Debug, Clone)]
pub struct UtteranceMeta {
    pub start_tab_id: i64,
    pub vocab_terms: Vec<String>,
    pub language: String,
}

/// A finished utterance together with its routing snapshot.
#[derive(Debug, Clone)]
pub struct UtteranceFinalized<T> {
    pub samples: Vec<T>,
    pub start_tab_id: i64,
    pub vocab_snapshot: Vec<String>,
    pub language: String,
    pub started_at_ms: u64,
    pub ended_at_ms: u64,
}

/// Abstract routing snapshot: tab, vocabulary, language.
pub type MetaSpec = (i64, Seq<Seq<char>>, Seq<char>);

pub open spec fn meta_view(m: UtteranceMeta) -> MetaSpec {
    (m.start_tab_id, m.vocab_terms@.map_values(|t: String| t@), m.language@)
}

pub open spec fn opt_meta_view(m: Option<UtteranceMeta>) -> Option<MetaSpec> {
    match m {
        Some(x) => Some(meta_view(x)),
        None => None,
    }
}

/// The routing snapshot a published utterance carries.
pub open spec fn published_meta<T>(u: UtteranceFinalized<T>) -> MetaSpec {
    (u.start_tab_id, u.vocab_snapshot@.map_values(|t: String| t@), u.language@)
}

/// What to do with a closed utterance once its WAV write is done.
pub enum AfterWrite {
    /// Nothing: the utterance is not routed anywhere.
    Discard,
    /// Publish with the open snapshot, if any (a falling edge).
    PublishOpen,
    /// Publish with the open snapshot, if any, then force the VAD idle
    /// (the maximum duration was reached without an edge).
    PublishOpenAtCap,
    /// Publish with this snapshot (a push-to-talk release).
    PublishWith(UtteranceMeta),
}

/// Abstract `AfterWrite`.
pub enum AfterKind {
    Discard,
    PublishOpen,
    PublishOpenAtCap,
    PublishWith(MetaSpec),
}

/// Next thing the worker has to do.
pub enum CaptureStep<T> {
    /// Nothing further for this input.
    Done,
    /// A rising edge: take a routing snapshot and hand it to
    /// `on_rising_snapshot`.
    NeedSnapshot,
    /// Write this utterance's WAV, then hand it back with the outcome to
    /// `after_write`.
    Write(FinalizedUtterance<T>),
}

/// Abstract `CaptureStep`.
pub enum StepSpec<T> {
    Done,
    NeedSnapshot,
    Write(UtteranceSpec<T>),
}

pub open spec fn step_view<T>(r: CaptureStep<T>) -> StepSpec<T> {
    match r {
        CaptureStep::Done => StepSpec::Done,
        CaptureStep::NeedSnapshot => StepSpec::NeedSnapshot,
        CaptureStep::Write(u) => StepSpec::Write(finalized_view(u)),
    }
}

/// A published utterance: what was written and the snapshot it carries.
pub type PublishedSpec<T> = (UtteranceSpec<T>, MetaSpec);

pub open spec fn published_view<T>(r: Option<UtteranceFinalized<T>>) -> Option<PublishedSpec<T>> {
    match r {
        Some(p) => Some(((p.samples@, p.started_at_ms, p.ended_at_ms), published_meta(p))),
        None => None,
    }
}

/// Abstract state of the capture core.
pub struct CoreModel<T> {
    pub vad: HysteresisModel,
    pub builder: BuilderModel<T>,
    /// Audio received and not yet cut into chunks.
    pub buffered: Seq<T>,
    /// Routing snapshot of the utterance in progress.
    pub meta: Option<MetaSpec>,
    /// A rising edge's chunk and timestamp, waiting for a snapshot.
    pub pending: Option<(Seq<T>, u64)>,
    /// What to do once the outstanding WAV write is done.
    pub awaiting: Option<AfterKind>,
}

/// The VAD forced back to Idle with cleared counters.
pub open spec fn idle_vad(v: HysteresisModel) -> HysteresisModel {
    HysteresisModel { state: VadState::Idle, above_count: 0, below_count: 0, ..v }
}

/// The VAD forced into Speaking with cleared counters.
pub open spec fn speaking_vad(v: HysteresisModel) -> HysteresisModel {
    HysteresisModel { state: VadState::Speaking, above_count: 0, below_count: 0, ..v }
}

/// One chunk: in always-on mode a rising edge waits for a snapshot and a
/// falling edge closes the utterance with the chunk; otherwise the chunk
/// feeds the builder, which may close the utterance at its cap.
pub open spec fn chunk_step<T>(
    m: CoreModel<T>,
    chunk: Seq<T>,
    prob: SpeechProb,
    ts: u64,
    mode: CaptureMode,
) -> (CoreModel<T>, StepSpec<T>) {
    let (v2, ev) = vad_next(m.vad, prob, ts);
    let mv = CoreModel { vad: v2, ..m };
    let pushed = builder_push(m.builder, chunk);
    let closed = builder_on_event(pushed.0, VadEvent::FallingEdge { timestamp_ms: ts });
    if mode == CaptureMode::AlwaysOn && ev == Some(VadEvent::RisingEdge { timestamp_ms: ts }) {
        (CoreModel { pending: Some((chunk, ts)), ..mv }, StepSpec::NeedSnapshot)
    } else if mode == CaptureMode::AlwaysOn && ev == Some(
        VadEvent::FallingEdge { timestamp_ms: ts },
    ) {
        match pushed.1 {
            Some(u) => (
                CoreModel { builder: closed.0, awaiting: Some(AfterKind::Discard), ..mv },
                StepSpec::Write(u),
            ),
            None => match closed.1 {
                Some(u) => (
                    CoreModel { builder: closed.0, awaiting: Some(AfterKind::PublishOpen), ..mv },
                    StepSpec::Write(u),
                ),
                None => (CoreModel { builder: closed.0, ..mv }, StepSpec::Done),
            },
        }
    } else {
        match pushed.1 {
            Some(u) => (
                CoreModel {
                    builder: pushed.0,
                    awaiting: Some(
                        if mode == CaptureMode::Ptt {
                            AfterKind::Discard
                        } else {
                            AfterKind::PublishOpenAtCap
                        },
                    ),
                    ..mv
                },
                StepSpec::Write(u),
            ),
            None => (CoreModel { builder: pushed.0, ..mv }, StepSpec::Done),
        }
    }
}

/// The snapshot for a pending rising edge: none drops the chunk and forces
/// the VAD idle; a snapshot becomes the routing of the utterance that the
/// edge opens with the chunk.
pub open spec fn snapshot_step<T>(m: CoreModel<T>, snapshot: Option<MetaSpec>) -> (
    CoreModel<T>,
    StepSpec<T>,
) {
    match m.pending {
        None => (m, StepSpec::Done),
        Some((chunk, t)) => match snapshot {
            None => (CoreModel { pending: None, vad: idle_vad(m.vad), ..m }, StepSpec::Done),
            Some(s) => {
                let pushed = builder_push(m.builder, chunk);
                let opened = builder_on_event(pushed.0, VadEvent::RisingEdge { timestamp_ms: t });
                let m2 = CoreModel { pending: None, meta: Some(s), builder: opened.0, ..m };
                match pushed.1 {
                    Some(u) => (
                        CoreModel { awaiting: Some(AfterKind::Discard), ..m2 },
                        StepSpec::Write(u),
                    ),
                    None => (m2, StepSpec::Done),
                }
            },
        },
    }
}

/// A push-to-talk press with its snapshot: none ignores the press; a
/// snapshot opens an utterance with it and holds the VAD in Speaking.
pub open spec fn press_step<T>(m: CoreModel<T>, snapshot: Option<MetaSpec>, ts: u64) -> CoreModel<T> {
    match snapshot {
        None => m,
        Some(s) => CoreModel {
            meta: Some(s),
            vad: speaking_vad(m.vad),
            builder: builder_on_event(m.builder, VadEvent::RisingEdge { timestamp_ms: ts }).0,
            ..m
        },
    }
}

/// A push-to-talk release closes the open utterance, to be published with
/// the press's snapshot.
pub open spec fn release_step<T>(m: CoreModel<T>, mode: CaptureMode, ts: u64) -> (
    CoreModel<T>,
    StepSpec<T>,
) {
    if mode != CaptureMode::Ptt || m.meta is None {
        (m, StepSpec::Done)
    } else {
        let closed = builder_on_event(m.builder, VadEvent::FallingEdge { timestamp_ms: ts });
        let m2 = CoreModel { meta: None, vad: idle_vad(m.vad), builder: closed.0, ..m };
        match closed.1 {
            Some(u) => (
                CoreModel { awaiting: Some(AfterKind::PublishWith(m.meta->0)), ..m2 },
                StepSpec::Write(u),
            ),
            None => (m2, StepSpec::Done),
        }
    }
}

/// The outcome of the outstanding WAV write of `u`: a written utterance is
/// published with its snapshot; one that failed to write changes nothing.
pub open spec fn write_step<T>(m: CoreModel<T>, u: UtteranceSpec<T>, written: bool) -> (
    CoreModel<T>,
    Option<PublishedSpec<T>>,
) {
    let m0 = CoreModel { awaiting: None, ..m };
    match m.awaiting {
        Some(AfterKind::PublishWith(s)) => (
            m0,
            if written {
                Some((u, s))
            } else {
                None
            },
        ),
        Some(AfterKind::PublishOpen) => if written {
            match m.meta {
                Some(s) => (CoreModel { meta: None, ..m0 }, Some((u, s))),
                None => (m0, None),
            }
        } else {
            (m0, None)
        },
        Some(AfterKind::PublishOpenAtCap) => if written {
            let m1 = CoreModel { vad: idle_vad(m.vad), ..m0 };
            match m.meta {
                Some(s) => (CoreModel { meta: None, ..m1 }, Some((u, s))),
                None => (m1, None),
            }
        } else {
            (m0, None)
        },
        _ => (m0, None),
    }
}

/// Capture stops: the VAD goes idle, buffered audio and the open snapshot
/// are dropped.
pub open spec fn stop_step<T>(m: CoreModel<T>) -> CoreModel<T> {
    CoreModel { vad: idle_vad(m.vad), buffered: Seq::empty(), meta: None, ..m }
}

/// A rising edge waiting for its snapshot: the chunk and its timestamp.
struct PendingRising<T> {
    chunk: Vec<T>,
    timestamp_ms: u64,
}

/// The decisions of the capture worker.
pub struct CaptureCore<T> {
    vad: VadStateMachine,
    builder: UtteranceBuilder<T>,
    accumulator: Vec<T>,
    current_meta: Option<UtteranceMeta>,
    pending_rising: Option<PendingRising<T>>,
    awaiting: Option<AfterWrite>,
}

impl<T: Copy> CaptureCore<T> {
    pub closed spec fn wf(&self) -> bool {
        &&& self.vad.wf()
        &&& self.builder.wf()
        &&& self.pending_rising matches Some(p) ==> push_fits(self.builder.model(), p.chunk@.len())
    }

    /// Abstract state of the core.
    pub closed spec fn model(&self) -> CoreModel<T> {
        CoreModel {
            vad: self.vad.model(),
            builder: self.builder.model(),
            buffered: self.accumulator@,
            meta: opt_meta_view(self.current_meta),
            pending: match self.pending_rising {
                Some(p) => Some((p.chunk@, p.timestamp_ms)),
                None => None,
            },
            awaiting: match self.awaiting {
                Some(AfterWrite::Discard) => Some(AfterKind::Discard),
                Some(AfterWrite::PublishOpen) => Some(AfterKind::PublishOpen),
                Some(AfterWrite::PublishOpenAtCap) => Some(AfterKind::PublishOpenAtCap),
                Some(AfterWrite::PublishWith(m)) => Some(AfterKind::PublishWith(meta_view(m))),
                None => None,
            },
        }
    }

    /// Routing snapshot of the utterance in progress.
    pub open spec fn meta(&self) -> Option<MetaSpec> {
        self.model().meta
    }

    pub open spec fn vad_model(&self) -> HysteresisModel {
        self.model().vad
    }

    pub open spec fn builder_model(&self) -> BuilderModel<T> {
        self.model().builder
    }

    /// Audio received and not yet cut into chunks.
    pub open spec fn buffered(&self) -> Seq<T> {
        self.model().buffered
    }

    /// The chunk of the rising edge waiting for its snapshot, with the
    /// edge's timestamp.
    pub open spec fn pending(&self) -> Option<(Seq<T>, u64)> {
        self.model().pending
    }

    /// A rising edge is waiting for its snapshot.
    pub open spec fn awaits_snapshot(&self) -> bool {
        self.model().pending is Some
    }

    /// A WAV write is outstanding.
    pub open spec fn awaits_write(&self) -> bool {
        self.model().awaiting is Some
    }

    /// Ready for a new input.
    pub open spec fn ready(&self) -> bool {
        &&& self.wf()
        &&& !self.awaits_snapshot()
        &&& !self.awaits_write()
    }

    /// Chunks that can be pushed without overflowing the end timestamp.
    pub open spec fn chunk_fits(&self, n: nat) -> bool {
        push_fits(self.builder_model(), n)
    }

    pub fn new(cfg: UtteranceConfig) -> (r: Self)
        requires
            (cfg.sample_rate as nat) * (cfg.pre_roll_ms as nat) <= usize::MAX,
            (cfg.sample_rate as nat) * (cfg.max_utterance_ms as nat) <= usize::MAX,
        ensures
            r.ready(),
            r.meta() is None,
            r.buffered() == Seq::<T>::empty(),
            r.vad_model().state == VadState::Idle,
            r.builder_model().current is None,
    {
        CaptureCore {
            vad: VadStateMachine::new(32),
            builder: UtteranceBuilder::new(cfg),
            accumulator: Vec::new(),
            current_meta: None,
            pending_rising: None,
            awaiting: None,
        }
    }

    /// Whether a chunk of `n` samples can be pushed (the synthesised end
    /// timestamp of a capped utterance fits in `u64`).
    pub fn chunk_fits_exec(&self, n: usize) -> (r: bool)
        requires
            self.wf(),
        ensures
            r == self.chunk_fits(n as nat),
    {
        self.builder.push_would_fit(n)
    }

    /// Append an audio frame (already mono at 16 kHz) to the chunk buffer.
    pub fn push_audio(&mut self, frame: &[T])
        ensures
            final(self).wf() == old(self).wf(),
            final(self).model() == (CoreModel {
                buffered: old(self).model().buffered + frame@,
                ..old(self).model()
            }),
    {
        let ghost start = self.accumulator@;
        let mut i: usize = 0;
        while i < frame.len()
            invariant
                i <= frame@.len(),
                self.accumulator@ == start + frame@.take(i as int),
                self.vad == old(self).vad,
                self.builder == old(self).builder,
                self.current_meta == old(self).current_meta,
                self.pending_rising == old(self).pending_rising,
                self.awaiting == old(self).awaiting,
            decreases frame@.len() - i,
        {
            self.accumulator.push(frame[i]);
            assert(self.accumulator@ =~= start + frame@.take(i + 1));
            i = i + 1;
        }
        assert(frame@.take(frame@.len() as int) =~= frame@);
    }

    /// Cut the next full chunk off the front of the buffer, if there is one.
    pub fn next_chunk(&mut self) -> (r: Option<Vec<T>>)
        ensures
            final(self).wf() == old(self).wf(),
            old(self).buffered().len() >= CHUNK_SAMPLES ==> r is Some && r->0@ == old(
                self,
            ).buffered().take(CHUNK_SAMPLES as int) && final(self).model() == (CoreModel {
                buffered: old(self).buffered().skip(CHUNK_SAMPLES as int),
                ..old(self).model()
            }),
            old(self).buffered().len() < CHUNK_SAMPLES ==> r is None && final(self).model() == old(
                self,
            ).model(),
    {
        if self.accumulator.len() < CHUNK_SAMPLES {
            return None;
        }
        let ghost all = self.accumulator@;
        let mut chunk: Vec<T> = Vec::new();
        let mut rest: Vec<T> = Vec::new();
        let mut i: usize = 0;
        while i < self.accumulator.len()
            invariant
                all == self.accumulator@,
                CHUNK_SAMPLES <= all.len(),
                i <= all.len(),
                i <= CHUNK_SAMPLES ==> chunk@ == all.take(i as int) && rest@ == Seq::<T>::empty(),
                i > CHUNK_SAMPLES ==> chunk@ == all.take(CHUNK_SAMPLES as int) && rest@
                    == all.subrange(CHUNK_SAMPLES as int, i as int),
            decreases all.len() - i,
        {
            if i < CHUNK_SAMPLES {
                chunk.push(self.accumulator[i]);
                assert(chunk@ =~= all.take(i + 1));
            } else {
                rest.push(self.accumulator[i]);
                assert(rest@ =~= all.subrange(CHUNK_SAMPLES as int, i + 1));
            }
            i = i + 1;
        }
        assert(rest@ =~= all.skip(CHUNK_SAMPLES as int));
        self.accumulator = rest;
        Some(chunk)
    }

    /// One VAD-sized chunk with its probability and timestamp, as
    /// `chunk_step` says.
    pub fn on_chunk(&mut self, chunk: Vec<T>, prob: SpeechProb, ts_ms: u64, mode: CaptureMode) -> (r:
        CaptureStep<T>)
        requires
            old(self).ready(),
            old(self).chunk_fits(chunk@.len()),
        ensures
            final(self).wf(),
            (final(self).model(), step_view(r)) == chunk_step(
                old(self).model(),
                chunk@,
                prob,
                ts_ms,
                mode,
            ),
    {
        let event = self.vad.observe(prob, ts_ms);
        match mode {
            CaptureMode::Ptt => {
                match self.builder.push_frame(chunk.as_slice()) {
                    Some(u) => {
                        self.awaiting = Some(AfterWrite::Discard);
                        CaptureStep::Write(u)
                    },
                    None => CaptureStep::Done,
                }
            },
            CaptureMode::AlwaysOn => {
                match event {
                    Some(VadEvent::RisingEdge { timestamp_ms }) => {
                        self.pending_rising = Some(PendingRising { chunk, timestamp_ms });
                        CaptureStep::NeedSnapshot
                    },
                    Some(VadEvent::FallingEdge { timestamp_ms }) => {
                        match self.builder.push_frame(chunk.as_slice()) {
                            Some(u) => {
                                // the cap closed the utterance on this very
                                // chunk; the falling edge finds nothing left
                                let _ = self.builder.on_vad_event(
                                    VadEvent::FallingEdge { timestamp_ms },
                                );
                                self.awaiting = Some(AfterWrite::Discard);
                                CaptureStep::Write(u)
                            },
                            None => {
                                match self.builder.on_vad_event(
                                    VadEvent::FallingEdge { timestamp_ms },
                                ) {
                                    Some(u) => {
                                        self.awaiting = Some(AfterWrite::PublishOpen);
                                        CaptureStep::Write(u)
                                    },
                                    None => CaptureStep::Done,
                                }
                            },
                        }
                    },
                    None => {
                        match self.builder.push_frame(chunk.as_slice()) {
                            Some(u) => {
                                self.awaiting = Some(AfterWrite::PublishOpenAtCap);
                                CaptureStep::Write(u)
                            },
                            None => CaptureStep::Done,
                        }
                    },
                }
            },
        }
    }

    /// The routing snapshot for a pending rising edge (`None` when no tab
    /// is active), as `snapshot_step` says.
    pub fn on_rising_snapshot(&mut self, snapshot: Option<UtteranceMeta>) -> (r: CaptureStep<T>)
        requires
            old(self).wf(),
            old(self).awaits_snapshot(),
            !old(self).awaits_write(),
        ensures
            final(self).wf(),
            (final(self).model(), step_view(r)) == snapshot_step(
                old(self).model(),
                opt_meta_view(snapshot),
            ),
    {
        let pending = self.pending_rising.take();
        match pending {
            None => CaptureStep::Done,
            Some(p) => {
                match snapshot {
                    None => {
                        self.vad.force_idle();
                        CaptureStep::Done
                    },
                    Some(meta) => {
                        self.current_meta = Some(meta);
                        let closed = self.builder.push_frame(p.chunk.as_slice());
                        let _ = self.builder.on_vad_event(
                            VadEvent::RisingEdge { timestamp_ms: p.timestamp_ms },
                        );
                        match closed {
                            Some(u) => {
                                self.awaiting = Some(AfterWrite::Discard);
                                CaptureStep::Write(u)
                            },
                            None => CaptureStep::Done,
                        }
                    },
                }
            },
        }
    }
    /// Whether a push-to-talk press opens an utterance: only in push-to-talk
    /// mode and when none is open (a repeated press is auto-repeat).
    pub fn ptt_press_wanted(&self, mode: CaptureMode) -> (r: bool)
        ensures
            r == (mode == CaptureMode::Ptt && self.meta() is None),
    {
        mode == CaptureMode::Ptt && self.current_meta.is_none()
    }

    /// A push-to-talk press with its routing snapshot (`None` when no tab is
    /// active), as `press_step` says.
    pub fn on_ptt_press(&mut self, snapshot: Option<UtteranceMeta>, ts_ms: u64)
        requires
            old(self).ready(),
            old(self).meta() is None,
        ensures
            final(self).wf(),
            final(self).model() == press_step(old(self).model(), opt_meta_view(snapshot), ts_ms),
    {
        match snapshot {
            None => {},
            Some(meta) => {
                self.current_meta = Some(meta);
                self.vad.force_speaking();
                let _ = self.builder.on_vad_event(VadEvent::RisingEdge { timestamp_ms: ts_ms });
            },
        }
    }

    /// A push-to-talk release, as `release_step` says.
    pub fn on_ptt_release(&mut self, mode: CaptureMode, ts_ms: u64) -> (r: CaptureStep<T>)
        requires
            old(self).ready(),
        ensures
            final(self).wf(),
            (final(self).model(), step_view(r)) == release_step(old(self).model(), mode, ts_ms),
    {
        if mode != CaptureMode::Ptt {
            return CaptureStep::Done;
        }
        match self.current_meta.take() {
            None => CaptureStep::Done,
            Some(meta) => {
                let closed = self.builder.on_vad_event(VadEvent::FallingEdge { timestamp_ms: ts_ms });
                self.vad.force_idle();
                match closed {
                    Some(u) => {
                        self.awaiting = Some(AfterWrite::PublishWith(meta));
                        CaptureStep::Write(u)
                    },
                    None => CaptureStep::Done,
                }
            },
        }
    }

    /// The outcome of the outstanding WAV write of `u`, as `write_step`
    /// says: a written utterance is published with the routing snapshot
    /// taken when it opened; one that failed to write is dropped.
    pub fn after_write(&mut self, u: FinalizedUtterance<T>, written: bool) -> (r: Option<
        UtteranceFinalized<T>,
    >)
        requires
            old(self).wf(),
            old(self).awaits_write(),
            !old(self).awaits_snapshot(),
        ensures
            final(self).wf(),
            (final(self).model(), published_view(r)) == write_step(
                old(self).model(),
                finalized_view(u),
                written,
            ),
            (written && old(self).model().awaiting matches Some(AfterKind::PublishOpenAtCap))
                ==> final(self).vad_model() == idle_vad(old(self).vad_model()),
    {
        let after = self.awaiting.take();
        match after {
            None => None,
            Some(AfterWrite::Discard) => None,
            Some(AfterWrite::PublishWith(meta)) => {
                if written {
                    Some(publish(u, meta))
                } else {
                    None
                }
            },
            Some(AfterWrite::PublishOpen) => {
                if written {
                    match self.current_meta.take() {
                        Some(meta) => Some(publish(u, meta)),
                        None => None,
                    }
                } else {
                    None
                }
            },
            Some(AfterWrite::PublishOpenAtCap) => {
                if written {
                    let r = match self.current_meta.take() {
                        Some(meta) => Some(publish(u, meta)),
                        None => None,
                    };
                    self.vad.force_idle();
                    r
                } else {
                    None
                }
            },
        }
    }

    /// Capture stopped, as `stop_step` says.
    pub fn on_stop(&mut self)
        requires
            old(self).ready(),
        ensures
            final(self).wf(),
            final(self).model() == stop_step(old(self).model()),
            final(self).vad_model() == idle_vad(old(self).vad_model()),
    {
        self.vad.force_idle();
        self.accumulator.clear();
        self.current_meta = None;
    }
}

fn publish<T>(u: FinalizedUtterance<T>, meta: UtteranceMeta) -> (r: UtteranceFinalized<T>)
    ensures
        r.samples@ == u.samples@,
        r.started_at_ms == u.started_at_ms,
        r.ended_at_ms == u.ended_at_ms,
        published_meta(r) == meta_view(meta),
{
    UtteranceFinalized {
        samples: u.samples,
        start_tab_id: meta.start_tab_id,
        vocab_snapshot: meta.vocab_terms,
        language: meta.language,
        started_at_ms: u.started_at_ms,
        ended_at_ms: u.ended_at_ms,
    }
}

} // verus!
