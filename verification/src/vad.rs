//! Voice-activity hysteresis state machine.
//!
//! The VAD model reports a speech probability per 32 ms chunk. Probabilities
//! reach the machine as `SpeechProb`: a probability `p` is carried as
//! `floor(p * 2^25)`, which keeps every comparison against the two
//! thresholds exact (both thresholds are multiples of `2^-25`), or as
//! `Unordered` for a value that compares with nothing (a NaN).
use vstd::prelude::*;
use crate::text::{append_chars, chars_of, concat_str, string_of};
use crate::utterance::{decimal, push_decimal};

verus! {

/// Number of samples per VAD prediction at 16 kHz (about 32 ms).
pub const CHUNK_SAMPLES: usize = 512;

/// Fixed-point scale of `SpeechProb::Scaled`: one unit is `2^-25`.
pub const PROB_SCALE: u64 = 33554432;

/// Rising threshold 0.5, in units of `2^-25`.
pub const RISING_THRESHOLD: u64 = 16777216;

/// Falling threshold 0.35 (as the nearest `f32`), in units of `2^-25`.
pub const FALLING_THRESHOLD: u64 = 11744051;

#[derive(Debug, Clone, Copy, PartialEq, Eq, Structural)]
pub enum VadState {
    Idle,
    Speaking,
}

#[derive(Debug, Clone, Copy, PartialEq, Eq, Structural)]
pub enum VadEvent {
    RisingEdge { timestamp_ms: u64 },
    FallingEdge { timestamp_ms: u64 },
}

/// A speech probability as seen by the state machine.
#[derive(Debug, Clone, Copy, PartialEq, Eq, Structural)]
pub enum SpeechProb {
    /// `floor(p * 2^25)` for an ordered probability `p` (negative values as 0).
    Scaled(u64),
    /// A value that is neither below nor above any threshold.
    Unordered,
}

/// Errors of the VAD model wrapper.
#[derive(Debug, Clone, PartialEq, Eq)]
pub enum VadModelError {
    Build(String),
    ChunkSize { expected: usize, got: usize },
}

pub open spec fn vad_model_error_message(e: VadModelError) -> Seq<char> {
    match e {
        VadModelError::Build(m) => "failed to load Silero VAD model: "@ + m@,
        VadModelError::ChunkSize { expected, got } => "wrong chunk size: expected "@ + decimal(
            expected as nat,
        ) + ", got "@ + decimal(got as nat),
    }
}

impl VadModelError {
    /// The error's message.
    pub fn message(&self) -> (r: String)
        ensures
            r@ == vad_model_error_message(*self),
    {
        match self {
            VadModelError::Build(m) => concat_str("failed to load Silero VAD model: ", m.as_str()),
            VadModelError::ChunkSize { expected, got } => {
                let mut out = chars_of("wrong chunk size: expected ");
                push_decimal(&mut out, *expected as u64);
                let mid = chars_of(", got ");
                append_chars(&mut out, mid.as_slice());
                push_decimal(&mut out, *got as u64);
                string_of(out.as_slice())
            },
        }
    }
}

/// The model takes exactly `CHUNK_SAMPLES` samples per prediction.
pub fn check_chunk_size(got: usize) -> (r: Result<(), VadModelError>)
    ensures
        got == CHUNK_SAMPLES ==> r is Ok,
        got != CHUNK_SAMPLES ==> r == Err::<(), VadModelError>(
            VadModelError::ChunkSize { expected: CHUNK_SAMPLES, got },
        ),
{
    if got != CHUNK_SAMPLES {
        Err(VadModelError::ChunkSize { expected: CHUNK_SAMPLES, got })
    } else {
        Ok(())
    }
}

/// `prob` does not compare below `threshold` (the rising test).
pub open spec fn not_below(prob: SpeechProb, threshold: u64) -> bool {
    match prob {
        SpeechProb::Scaled(q) => q >= threshold,
        SpeechProb::Unordered => true,
    }
}

/// `prob` does not compare above `threshold` (the falling test).
pub open spec fn not_above(prob: SpeechProb, threshold: u64) -> bool {
    match prob {
        SpeechProb::Scaled(q) => q <= threshold,
        SpeechProb::Unordered => true,
    }
}

/// Abstract state of the machine.
pub struct HysteresisModel {
    pub state: VadState,
    pub rising_threshold: u64,
    pub falling_threshold: u64,
    pub rising_required: nat,
    pub falling_required: nat,
    pub above_count: nat,
    pub below_count: nat,
}

/// One observation: the next abstract state and the emitted event.
pub open spec fn vad_next(m: HysteresisModel, prob: SpeechProb, ts: u64) -> (HysteresisModel, Option<VadEvent>) {
    match m.state {
        VadState::Idle => {
            if not_below(prob, m.rising_threshold) {
                if m.above_count + 1 >= m.rising_required {
                    (
                        HysteresisModel { state: VadState::Speaking, above_count: 0, below_count: 0, ..m },
                        Some(VadEvent::RisingEdge { timestamp_ms: ts }),
                    )
                } else {
                    (HysteresisModel { above_count: m.above_count + 1, ..m }, None)
                }
            } else {
                (HysteresisModel { above_count: 0, ..m }, None)
            }
        },
        VadState::Speaking => {
            if not_above(prob, m.falling_threshold) {
                if m.below_count + 1 >= m.falling_required {
                    (
                        HysteresisModel { state: VadState::Idle, above_count: 0, below_count: 0, ..m },
                        Some(VadEvent::FallingEdge { timestamp_ms: ts }),
                    )
                } else {
                    (HysteresisModel { below_count: m.below_count + 1, ..m }, None)
                }
            } else {
                (HysteresisModel { below_count: 0, ..m }, None)
            }
        },
    }
}

/// Feed `k` observations of the same probability, all at timestamp `ts`;
/// returns the final state and the number of events emitted.
pub open spec fn vad_feed(m: HysteresisModel, prob: SpeechProb, ts: u64, k: nat) -> (HysteresisModel, nat)
    decreases k,
{
    if k == 0 {
        (m, 0)
    } else {
        let (m1, e) = vad_next(m, prob, ts);
        let (m2, n) = vad_feed(m1, prob, ts, (k - 1) as nat);
        (m2, n + if e is Some { 1nat } else { 0nat })
    }
}

/// The chunk count needed to sustain a threshold for `ms` milliseconds.
pub open spec fn required_chunks(ms: int, chunk_ms: u32) -> nat {
    let c = if chunk_ms == 0 { 1 } else { chunk_ms as int };
    (ms / c) as nat
}

/// VAD hysteresis state machine: rising threshold 0.5 sustained 120 ms,
/// falling threshold 0.35 sustained 700 ms.
pub struct VadStateMachine {
    state: VadState,
    rising_threshold: u64,
    falling_threshold: u64,
    rising_required_chunks: u32,
    falling_required_chunks: u32,
    above_count: u32,
    below_count: u32,
}

impl VadStateMachine {
    pub closed spec fn model(&self) -> HysteresisModel {
        HysteresisModel {
            state: self.state,
            rising_threshold: self.rising_threshold,
            falling_threshold: self.falling_threshold,
            rising_required: self.rising_required_chunks as nat,
            falling_required: self.falling_required_chunks as nat,
            above_count: self.above_count as nat,
            below_count: self.below_count as nat,
        }
    }

    /// Counters stay below what is required, so they never overflow.
    pub closed spec fn wf(&self) -> bool {
        &&& self.rising_required_chunks <= 120
        &&& self.falling_required_chunks <= 700
        &&& self.state == VadState::Idle ==> self.below_count == 0 && (self.above_count == 0
            || self.above_count < self.rising_required_chunks)
        &&& self.state == VadState::Speaking ==> self.above_count == 0 && (self.below_count == 0
            || self.below_count < self.falling_required_chunks)
    }

    pub fn new(chunk_ms: u32) -> (r: Self)
        ensures
            r.wf(),
            r.model() == (HysteresisModel {
                state: VadState::Idle,
                rising_threshold: RISING_THRESHOLD,
                falling_threshold: FALLING_THRESHOLD,
                rising_required: required_chunks(120, chunk_ms),
                falling_required: required_chunks(700, chunk_ms),
                above_count: 0,
                below_count: 0,
            }),
    {
        let chunk_ms: u32 = if chunk_ms < 1 { 1 } else { chunk_ms };
        VadStateMachine {
            state: VadState::Idle,
            rising_threshold: RISING_THRESHOLD,
            falling_threshold: FALLING_THRESHOLD,
            rising_required_chunks: 120 / chunk_ms,
            falling_required_chunks: 700 / chunk_ms,
            above_count: 0,
            below_count: 0,
        }
    }

    pub fn state(&self) -> (r: VadState)
        ensures
            r == self.model().state,
    {
        self.state
    }

    /// Feed one probability and its timestamp; returns the event if the state
    /// changed.
    pub fn observe(&mut self, prob: SpeechProb, timestamp_ms: u64) -> (r: Option<VadEvent>)
        requires
            old(self).wf(),
        ensures
            final(self).wf(),
            (final(self).model(), r) == vad_next(old(self).model(), prob, timestamp_ms),
    {
        match self.state {
            VadState::Idle => {
                let at_or_above = match prob {
                    SpeechProb::Scaled(q) => q >= self.rising_threshold,
                    SpeechProb::Unordered => true,
                };
                if at_or_above {
                    self.above_count = self.above_count + 1;
                    if self.above_count >= self.rising_required_chunks {
                        self.state = VadState::Speaking;
                        self.above_count = 0;
                        self.below_count = 0;
                        return Some(VadEvent::RisingEdge { timestamp_ms });
                    }
                } else {
                    self.above_count = 0;
                }
            },
            VadState::Speaking => {
                let at_or_below = match prob {
                    SpeechProb::Scaled(q) => q <= self.falling_threshold,
                    SpeechProb::Unordered => true,
                };
                if at_or_below {
                    self.below_count = self.below_count + 1;
                    if self.below_count >= self.falling_required_chunks {
                        self.state = VadState::Idle;
                        self.above_count = 0;
                        self.below_count = 0;
                        return Some(VadEvent::FallingEdge { timestamp_ms });
                    }
                } else {
                    self.below_count = 0;
                }
            },
        }
        None
    }

    /// Force the machine back to Idle and clear the counters, with no event.
    pub fn force_idle(&mut self)
        requires
            old(self).wf(),
        ensures
            final(self).wf(),
            final(self).model() == (HysteresisModel {
                state: VadState::Idle,
                above_count: 0,
                below_count: 0,
                ..old(self).model()
            }),
    {
        self.state = VadState::Idle;
        self.above_count = 0;
        self.below_count = 0;
    }

    /// Force the machine into Speaking and clear the counters, with no event
    /// (push-to-talk press: a VAD falling edge then has its full delay).
    pub fn force_speaking(&mut self)
        requires
            old(self).wf(),
        ensures
            final(self).wf(),
            final(self).model() == (HysteresisModel {
                state: VadState::Speaking,
                above_count: 0,
                below_count: 0,
                ..old(self).model()
            }),
    {
        self.state = VadState::Speaking;
        self.above_count = 0;
        self.below_count = 0;
    }
}

/// An event is emitted exactly when the state changes: a rising edge only
/// from Idle to Speaking, a falling edge only from Speaking to Idle, each
/// carrying the observation's timestamp. Thresholds and required counts
/// never change.
pub proof fn lemma_event_iff_transition(m: HysteresisModel, prob: SpeechProb, ts: u64)
    ensures
        ({
            let (m2, e) = vad_next(m, prob, ts);
            &&& (e is Some <==> m2.state != m.state)
            &&& (e == Some(VadEvent::RisingEdge { timestamp_ms: ts }) <==> (m.state
                == VadState::Idle && m2.state == VadState::Speaking))
            &&& (e == Some(VadEvent::FallingEdge { timestamp_ms: ts }) <==> (m.state
                == VadState::Speaking && m2.state == VadState::Idle))
            &&& m2.rising_threshold == m.rising_threshold
            &&& m2.falling_threshold == m.falling_threshold
            &&& m2.rising_required == m.rising_required
            &&& m2.falling_required == m.falling_required
        }),
{
}

/// Hysteresis on the way up: from Idle with no pending count, `k` chunks at
/// or above the rising threshold emit nothing and stay Idle while
/// `k < rising_required`; the `rising_required`-th chunk (at least the
/// first) emits exactly one event and enters Speaking.
pub proof fn lemma_rising_needs_sustained_speech(m: HysteresisModel, prob: SpeechProb, ts: u64, k: nat)
    requires
        m.state == VadState::Idle,
        m.above_count == 0,
        not_below(prob, m.rising_threshold),
    ensures
        k < m.rising_required ==> vad_feed(m, prob, ts, k).0.state == VadState::Idle
            && vad_feed(m, prob, ts, k).1 == 0 && vad_feed(m, prob, ts, k).0.above_count == k,
        (k == m.rising_required && k > 0) || (k == 1 && m.rising_required == 0) ==> vad_feed(
            m,
            prob,
            ts,
            k,
        ).0.state == VadState::Speaking && vad_feed(m, prob, ts, k).1 == 1,
{
    lemma_feed_prefix_rising(m, prob, ts, k);
}

proof fn lemma_feed_prefix_rising(m: HysteresisModel, prob: SpeechProb, ts: u64, k: nat)
    requires
        m.state == VadState::Idle,
        m.above_count == 0,
        not_below(prob, m.rising_threshold),
    ensures
        k < m.rising_required ==> vad_feed(m, prob, ts, k).0 == (HysteresisModel { above_count: k, ..m })
            && vad_feed(m, prob, ts, k).1 == 0,
        (k == m.rising_required && k > 0) || (k == 1 && m.rising_required == 0) ==> vad_feed(
            m,
            prob,
            ts,
            k,
        ).0.state == VadState::Speaking && vad_feed(m, prob, ts, k).1 == 1,
    decreases k,
{
    if k > 0 {
        lemma_feed_prefix_rising(m, prob, ts, (k - 1) as nat);
        lemma_feed_split(m, prob, ts, (k - 1) as nat);
    }
}

/// Feeding `k + 1` chunks is feeding `k`, then one more.
proof fn lemma_feed_split(m: HysteresisModel, prob: SpeechProb, ts: u64, k: nat)
    ensures
        vad_feed(m, prob, ts, k + 1).0 == vad_next(vad_feed(m, prob, ts, k).0, prob, ts).0,
        vad_feed(m, prob, ts, k + 1).1 == vad_feed(m, prob, ts, k).1 + if vad_next(
            vad_feed(m, prob, ts, k).0,
            prob,
            ts,
        ).1 is Some {
            1nat
        } else {
            0nat
        },
    decreases k,
{
    let m1 = vad_next(m, prob, ts).0;
    if k > 0 {
        lemma_feed_split(m1, prob, ts, (k - 1) as nat);
    } else {
        assert(vad_feed(m1, prob, ts, 0) == (m1, 0nat));
    }
}

/// Hysteresis on the way down: in Speaking with no pending count, `k`
/// chunks at or below the falling threshold emit nothing and stay Speaking
/// while `k < falling_required`; the `falling_required`-th chunk (at least
/// the first) emits exactly one event and returns to Idle.
pub proof fn lemma_falling_needs_sustained_silence(
    m: HysteresisModel,
    prob: SpeechProb,
    ts: u64,
    k: nat,
)
    requires
        m.state == VadState::Speaking,
        m.below_count == 0,
        not_above(prob, m.falling_threshold),
    ensures
        k < m.falling_required ==> vad_feed(m, prob, ts, k).0 == (HysteresisModel {
            below_count: k,
            ..m
        }) && vad_feed(m, prob, ts, k).1 == 0,
        (k == m.falling_required && k > 0) || (k == 1 && m.falling_required == 0) ==> vad_feed(
            m,
            prob,
            ts,
            k,
        ).0.state == VadState::Idle && vad_feed(m, prob, ts, k).1 == 1,
    decreases k,
{
    if k > 0 {
        lemma_falling_needs_sustained_silence(m, prob, ts, (k - 1) as nat);
        lemma_feed_split(m, prob, ts, (k - 1) as nat);
    }
}

/// A chunk of speech during Speaking restarts the silence streak, and a chunk
/// of silence during Idle restarts the speech streak.
pub proof fn lemma_streaks_reset(m: HysteresisModel, prob: SpeechProb, ts: u64)
    ensures
        m.state == VadState::Speaking && !not_above(prob, m.falling_threshold) ==> vad_next(
            m,
            prob,
            ts,
        ).0 == (HysteresisModel { below_count: 0, ..m }) && vad_next(m, prob, ts).1 is None,
        m.state == VadState::Idle && !not_below(prob, m.rising_threshold) ==> vad_next(
            m,
            prob,
            ts,
        ).0 == (HysteresisModel { above_count: 0, ..m }) && vad_next(m, prob, ts).1 is None,
{
}

} // verus!
