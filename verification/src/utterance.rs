//! Utterance assembly: a pre-roll ring of recent samples and a builder that
//! turns a stream of audio frames and VAD edges into finished utterances.
//!
//! Both are generic over the sample type: they move samples around and never
//! look at their values. Writing the WAV file is left to the caller.
use vstd::prelude::*;
use std::collections::VecDeque;
use crate::vad::VadEvent;
use crate::text::{append_chars, chars_of, string_of};

verus! {

/// The last `n` elements of `s` (all of `s` when it is shorter).
pub open spec fn last_n<T>(s: Seq<T>, n: nat) -> Seq<T> {
    if s.len() <= n {
        s
    } else {
        s.subrange(s.len() - n, s.len() as int)
    }
}

/// What a pre-roll of capacity `cap` holds after `samples` are pushed onto
/// contents `s`: nothing is ever kept at capacity 0, otherwise the newest
/// `cap` samples.
pub open spec fn preroll_after_push<T>(s: Seq<T>, cap: nat, samples: Seq<T>) -> Seq<T> {
    if cap == 0 {
        s
    } else {
        last_n(s + samples, cap)
    }
}

proof fn lemma_last_n_push<T>(s: Seq<T>, n: nat, x: T)
    requires
        n > 0,
    ensures
        last_n(last_n(s, n).push(x), n) == last_n(s.push(x), n),
{
    assert(last_n(last_n(s, n).push(x), n) =~= last_n(s.push(x), n));
}

/// FIFO ring of recent samples. Pushing appends; at capacity the oldest
/// sample is evicted. `drain` returns and clears the contents.
pub struct PreRoll<T> {
    deque: VecDeque<T>,
    capacity: usize,
}

impl<T: Copy> PreRoll<T> {
    pub closed spec fn view(&self) -> Seq<T> {
        self.deque@
    }

    pub closed spec fn capacity(&self) -> nat {
        self.capacity as nat
    }

    pub closed spec fn wf(&self) -> bool {
        self.deque@.len() <= self.capacity
    }

    pub fn new(capacity_samples: usize) -> (r: Self)
        ensures
            r.wf(),
            r.view() == Seq::<T>::empty(),
            r.capacity() == capacity_samples,
    {
        PreRoll { deque: VecDeque::with_capacity(capacity_samples), capacity: capacity_samples }
    }

    /// Push samples; the oldest are evicted when over capacity.
    pub fn push(&mut self, samples: &[T])
        requires
            old(self).wf(),
        ensures
            final(self).wf(),
            final(self).capacity() == old(self).capacity(),
            final(self).view() == preroll_after_push(
                old(self).view(),
                old(self).capacity(),
                samples@,
            ),
    {
        if self.capacity == 0 {
            return ;
        }
        let ghost start = self.deque@;
        let mut i: usize = 0;
        assert(start + samples@.take(0) =~= start);
        while i < samples.len()
            invariant
                self.capacity == old(self).capacity,
                start == old(self).deque@,
                self.capacity > 0,
                i <= samples@.len(),
                self.deque@.len() <= self.capacity,
                self.deque@ == last_n(start + samples@.take(i as int), self.capacity as nat),
            decreases samples@.len() - i,
        {
            let s = samples[i];
            if self.deque.len() == self.capacity {
                let _ = self.deque.pop_front();
            }
            self.deque.push_back(s);
            proof {
                let before = start + samples@.take(i as int);
                lemma_last_n_push(before, self.capacity as nat, s);
                assert(before.push(s) =~= start + samples@.take(i + 1));
                assert(self.deque@ =~= last_n(
                    last_n(before, self.capacity as nat).push(s),
                    self.capacity as nat,
                ));
            }
            i = i + 1;
        }
        assert(samples@.take(samples@.len() as int) =~= samples@);
    }

    /// Return the current contents, oldest first, and clear the ring.
    pub fn drain(&mut self) -> (r: Vec<T>)
        requires
            old(self).wf(),
        ensures
            final(self).wf(),
            final(self).capacity() == old(self).capacity(),
            r@ == old(self).view(),
            final(self).view() == Seq::<T>::empty(),
    {
        let ghost start = self.deque@;
        let mut out: Vec<T> = Vec::new();
        while self.deque.len() > 0
            invariant
                self.capacity == old(self).capacity,
                start == out@ + self.deque@,
                self.deque@.len() <= self.capacity,
            decreases self.deque@.len(),
        {
            let ghost before = self.deque@;
            match self.deque.pop_front() {
                Some(x) => {
                    out.push(x);
                    assert(start =~= out@ + self.deque@) by {
                        assert(before =~= seq![x] + self.deque@);
                    }
                },
                None => {},
            }
        }
        assert(out@ =~= start);
        out
    }

    pub fn len(&self) -> (r: usize)
        ensures
            r == self.view().len(),
    {
        self.deque.len()
    }

    pub fn is_empty(&self) -> (r: bool)
        ensures
            r == (self.view().len() == 0),
    {
        self.deque.len() == 0
    }
}

/// Configuration of the utterance builder.
#[derive(Debug, Clone, Copy, PartialEq, Eq, Structural)]
pub struct UtteranceConfig {
    pub sample_rate: u32,
    pub pre_roll_ms: u32,
    pub max_utterance_ms: u32,
}

impl Default for UtteranceConfig {
    fn default() -> (r: Self)
        ensures
            r == (UtteranceConfig { sample_rate: 16000, pre_roll_ms: 500, max_utterance_ms: 30000 }),
    {
        UtteranceConfig { sample_rate: 16000, pre_roll_ms: 500, max_utterance_ms: 30000 }
    }
}

/// Number of samples in `ms` milliseconds at `rate` samples per second.
pub open spec fn samples_for(rate: u32, ms: u32) -> nat {
    ((rate as nat) * (ms as nat) / 1000) as nat
}

/// A finished utterance: every sample recorded between its edges, with the
/// rising-edge and closing timestamps.
#[derive(Debug, Clone)]
pub struct FinalizedUtterance<T> {
    pub samples: Vec<T>,
    pub started_at_ms: u64,
    pub ended_at_ms: u64,
}

/// Abstract finished utterance: samples, start, end.
pub type UtteranceSpec<T> = (Seq<T>, u64, u64);

pub open spec fn finalized_view<T>(u: FinalizedUtterance<T>) -> UtteranceSpec<T> {
    (u.samples@, u.started_at_ms, u.ended_at_ms)
}

pub open spec fn opt_finalized_view<T>(u: Option<FinalizedUtterance<T>>) -> Option<
    UtteranceSpec<T>,
> {
    match u {
        Some(x) => Some(finalized_view(x)),
        None => None,
    }
}

/// Abstract state of the builder.
pub struct BuilderModel<T> {
    pub cfg: UtteranceConfig,
    pub pre_roll: Seq<T>,
    pub pre_roll_capacity: nat,
    /// The utterance being recorded: its rising-edge timestamp and samples.
    pub current: Option<(u64, Seq<T>)>,
    pub max_samples: nat,
}

/// Close the current utterance at `ended`: nothing when there is none or it
/// holds no sample.
pub open spec fn builder_finalize<T>(m: BuilderModel<T>, ended: u64) -> (
    BuilderModel<T>,
    Option<UtteranceSpec<T>>,
) {
    match m.current {
        None => (m, None),
        Some((started, s)) => (
            BuilderModel { current: None, ..m },
            if s.len() == 0 {
                None
            } else {
                Some((s, started, ended))
            },
        ),
    }
}

/// The end timestamp synthesised from a sample count at the cap.
pub open spec fn synthesized_end(started: u64, n: nat, rate: u32) -> int {
    started + ((n * 1000) as int) / (rate as int)
}

/// Samples go to the current utterance (closing it at the cap) or, between
/// utterances, to the pre-roll.
pub open spec fn builder_push<T>(m: BuilderModel<T>, samples: Seq<T>) -> (
    BuilderModel<T>,
    Option<UtteranceSpec<T>>,
) {
    match m.current {
        Some((started, s)) => {
            let s2 = s + samples;
            let m2 = BuilderModel { current: Some((started, s2)), ..m };
            if s2.len() >= m.max_samples {
                builder_finalize(m2, synthesized_end(started, s2.len(), m.cfg.sample_rate) as u64)
            } else {
                (m2, None)
            }
        },
        None => (
            BuilderModel {
                pre_roll: preroll_after_push(m.pre_roll, m.pre_roll_capacity, samples),
                ..m
            },
            None,
        ),
    }
}

/// A rising edge starts a new utterance seeded with the pre-roll (dropping
/// any utterance in progress); a falling edge closes the current one.
pub open spec fn builder_on_event<T>(m: BuilderModel<T>, event: VadEvent) -> (
    BuilderModel<T>,
    Option<UtteranceSpec<T>>,
) {
    match event {
        VadEvent::RisingEdge { timestamp_ms } => (
            BuilderModel {
                pre_roll: Seq::empty(),
                current: Some((timestamp_ms, m.pre_roll)),
                ..m
            },
            None,
        ),
        VadEvent::FallingEdge { timestamp_ms } => builder_finalize(m, timestamp_ms),
    }
}

/// A push at the cap needs a positive sample rate and an end timestamp that
/// fits in `u64`.
pub open spec fn push_fits<T>(m: BuilderModel<T>, n_new: nat) -> bool {
    m.current is Some ==> {
        &&& m.cfg.sample_rate > 0
        &&& (current_samples(m).len() + n_new) * 1000 <= u64::MAX
        &&& synthesized_end(current_start(m), current_samples(m).len() + n_new, m.cfg.sample_rate)
            <= u64::MAX
    }
}

/// Rising-edge timestamp of the utterance in progress.
pub open spec fn current_start<T>(m: BuilderModel<T>) -> u64 {
    (m.current->0).0
}

/// Samples of the utterance in progress.
pub open spec fn current_samples<T>(m: BuilderModel<T>) -> Seq<T> {
    (m.current->0).1
}

struct Current<T> {
    started_at_ms: u64,
    samples: Vec<T>,
}

/// Builds utterances from audio frames and VAD events. The caller drives it
/// with `push_frame` and `on_vad_event`; a returned utterance is ready to be
/// written out.
pub struct UtteranceBuilder<T> {
    cfg: UtteranceConfig,
    pre_roll: PreRoll<T>,
    current: Option<Current<T>>,
    max_samples: usize,
}

impl<T: Copy> UtteranceBuilder<T> {
    pub closed spec fn model(&self) -> BuilderModel<T> {
        BuilderModel {
            cfg: self.cfg,
            pre_roll: self.pre_roll.view(),
            pre_roll_capacity: self.pre_roll.capacity(),
            current: match self.current {
                Some(c) => Some((c.started_at_ms, c.samples@)),
                None => None,
            },
            max_samples: self.max_samples as nat,
        }
    }

    pub closed spec fn wf(&self) -> bool {
        self.pre_roll.wf()
    }

    pub fn new(cfg: UtteranceConfig) -> (r: Self)
        requires
            (cfg.sample_rate as nat) * (cfg.pre_roll_ms as nat) <= usize::MAX,
            (cfg.sample_rate as nat) * (cfg.max_utterance_ms as nat) <= usize::MAX,
        ensures
            r.wf(),
            r.model() == (BuilderModel::<T> {
                cfg,
                pre_roll: Seq::empty(),
                pre_roll_capacity: samples_for(cfg.sample_rate, cfg.pre_roll_ms),
                current: None,
                max_samples: samples_for(cfg.sample_rate, cfg.max_utterance_ms),
            }),
    {
        let rate = cfg.sample_rate as usize;
        let pre_roll_samples = (rate * cfg.pre_roll_ms as usize) / 1000;
        let max_samples = (rate * cfg.max_utterance_ms as usize) / 1000;
        UtteranceBuilder { cfg, pre_roll: PreRoll::new(pre_roll_samples), current: None, max_samples }
    }

    /// Whether pushing `n` samples keeps the end timestamp of a capped
    /// utterance within `u64`.
    pub fn push_would_fit(&self, n: usize) -> (r: bool)
        ensures
            r == push_fits(self.model(), n as nat),
    {
        match &self.current {
            None => true,
            Some(c) => {
                if self.cfg.sample_rate == 0 {
                    return false;
                }
                let total = c.samples.len() as u128 + n as u128;
                if total * 1000 > u64::MAX as u128 {
                    return false;
                }
                let end = c.started_at_ms as u128 + (total * 1000) / (self.cfg.sample_rate as u128);
                end <= u64::MAX as u128
            },
        }
    }

    /// Whether an utterance is being recorded.
    pub fn is_recording(&self) -> (r: bool)
        ensures
            r == (self.model().current is Some),
    {
        self.current.is_some()
    }

    /// Append samples: to the utterance being recorded (closing it once it
    /// reaches the maximum duration, with an end timestamp synthesised from
    /// the sample count), or else to the pre-roll.
    pub fn push_frame(&mut self, samples: &[T]) -> (r: Option<FinalizedUtterance<T>>)
        requires
            old(self).wf(),
            push_fits(old(self).model(), samples@.len()),
        ensures
            final(self).wf(),
            (final(self).model(), opt_finalized_view(r)) == builder_push(
                old(self).model(),
                samples@,
            ),
    {
        match self.current.take() {
            Some(mut current) => {
                let ghost old_samples = current.samples@;
                assert(old(self).model().current == Some((current.started_at_ms, old_samples)));
                assert(current_start(old(self).model()) == current.started_at_ms);
                assert(current_samples(old(self).model()) == old_samples);
                let mut i: usize = 0;
                while i < samples.len()
                    invariant
                        self.cfg == old(self).cfg,
                        self.max_samples == old(self).max_samples,
                        self.pre_roll == old(self).pre_roll,
                        self.current is None,
                        current.started_at_ms == current_start(old(self).model()),
                        i <= samples@.len(),
                        current.samples@ == old_samples + samples@.take(i as int),
                    decreases samples@.len() - i,
                {
                    current.samples.push(samples[i]);
                    assert(current.samples@ =~= old_samples + samples@.take(i + 1));
                    i = i + 1;
                }
                assert(samples@.take(samples@.len() as int) =~= samples@);
                if current.samples.len() >= self.max_samples {
                    let n = current.samples.len() as u64;
                    assert(n == old_samples.len() + samples@.len());
                    let ended = current.started_at_ms + (n * 1000) / (self.cfg.sample_rate as u64);
                    self.current = Some(current);
                    self.finalize(ended)
                } else {
                    self.current = Some(current);
                    None
                }
            },
            None => {
                self.pre_roll.push(samples);
                None
            },
        }
    }

    /// Handle a VAD edge; a falling edge returns the closed utterance.
    pub fn on_vad_event(&mut self, event: VadEvent) -> (r: Option<FinalizedUtterance<T>>)
        requires
            old(self).wf(),
        ensures
            final(self).wf(),
            (final(self).model(), opt_finalized_view(r)) == builder_on_event(
                old(self).model(),
                event,
            ),
    {
        match event {
            VadEvent::RisingEdge { timestamp_ms } => {
                let samples = self.pre_roll.drain();
                self.current = Some(Current { started_at_ms: timestamp_ms, samples });
                None
            },
            VadEvent::FallingEdge { timestamp_ms } => self.finalize(timestamp_ms),
        }
    }

    fn finalize(&mut self, ended_at_ms: u64) -> (r: Option<FinalizedUtterance<T>>)
        requires
            old(self).wf(),
        ensures
            final(self).wf(),
            (final(self).model(), opt_finalized_view(r)) == builder_finalize(
                old(self).model(),
                ended_at_ms,
            ),
    {
        match self.current.take() {
            None => None,
            Some(current) => {
                if current.samples.len() == 0 {
                    None
                } else {
                    Some(
                        FinalizedUtterance {
                            samples: current.samples,
                            started_at_ms: current.started_at_ms,
                            ended_at_ms,
                        },
                    )
                }
            },
        }
    }
}

/// Between two edges nothing is lost or reordered: a rising edge at `t0`,
/// one frame that stays under the cap, then a falling edge at `t1` yields the
/// pre-roll followed by the frame, stamped `(t0, t1)`, and leaves the builder
/// idle with an empty pre-roll.
pub proof fn lemma_utterance_is_preroll_then_frame<T>(
    m: BuilderModel<T>,
    t0: u64,
    frame: Seq<T>,
    t1: u64,
)
    requires
        m.pre_roll.len() + frame.len() < m.max_samples,
        m.pre_roll.len() + frame.len() > 0,
    ensures
        ({
            let (m1, r1) = builder_on_event(m, VadEvent::RisingEdge { timestamp_ms: t0 });
            let (m2, r2) = builder_push(m1, frame);
            let (m3, r3) = builder_on_event(m2, VadEvent::FallingEdge { timestamp_ms: t1 });
            &&& r1 is None
            &&& r2 is None
            &&& r3 == Some((m.pre_roll + frame, t0, t1))
            &&& m3.current is None
            &&& m3.pre_roll == Seq::<T>::empty()
        }),
{
}

/// A falling edge with no utterance in progress is a no-op.
pub proof fn lemma_falling_without_rising_is_noop<T>(m: BuilderModel<T>, t: u64)
    requires
        m.current is None,
    ensures
        builder_on_event(m, VadEvent::FallingEdge { timestamp_ms: t }) == (m, None::<
            UtteranceSpec<T>,
        >),
{
}

/// At the cap the utterance closes on the frame that reaches it, holding
/// every sample, with the end stamped `start + samples * 1000 / rate`.
pub proof fn lemma_cap_closes_utterance<T>(m: BuilderModel<T>, frame: Seq<T>)
    requires
        m.current matches Some((started, s)) && s.len() + frame.len() >= m.max_samples
            && s.len() + frame.len() > 0,
    ensures
        ({
            let (started, s) = m.current->0;
            let (m2, r) = builder_push(m, frame);
            &&& m2.current is None
            &&& r == Some(
                (
                    s + frame,
                    started,
                    synthesized_end(started, s.len() + frame.len(), m.cfg.sample_rate) as u64,
                ),
            )
        }),
{
}

/// While idle the pre-roll keeps exactly the newest `capacity` samples.
pub proof fn lemma_preroll_keeps_newest<T>(s: Seq<T>, cap: nat, samples: Seq<T>)
    requires
        cap > 0,
        s.len() <= cap,
    ensures
        preroll_after_push(s, cap, samples).len() == if s.len() + samples.len() <= cap {
            s.len() + samples.len()
        } else {
            cap
        },
        forall|i: int|
            0 <= i < preroll_after_push(s, cap, samples).len() ==> #[trigger] preroll_after_push(
                s,
                cap,
                samples,
            )[i] == (s + samples)[(s + samples).len() - preroll_after_push(
                s,
                cap,
                samples,
            ).len() + i],
{
}

/// Decimal digits of `n`, most significant first, no leading zero.
pub open spec fn decimal(n: nat) -> Seq<char>
    decreases n,
{
    if n < 10 {
        seq![digit_char(n)]
    } else {
        decimal(n / 10).push(digit_char(n % 10))
    }
}

pub open spec fn digit_char(d: nat) -> char {
    (('0' as nat) + d) as char
}

pub(crate) fn push_decimal(out: &mut Vec<char>, n: u64)
    ensures
        final(out)@ == old(out)@ + decimal(n as nat),
    decreases n,
{
    if n >= 10 {
        push_decimal(out, n / 10);
    }
    let d = (n % 10) as u32;
    let c = ((48u32 + d) as u8) as char;
    assert(c == digit_char((n % 10) as nat));
    out.push(c);
    assert(out@ =~= old(out)@ + decimal(n as nat));
}

/// File name of an utterance's WAV: its rising-edge timestamp in decimal,
/// then `.wav`.
pub fn wav_file_name(started_at_ms: u64) -> (r: String)
    ensures
        r@ == decimal(started_at_ms as nat) + ".wav"@,
{
    let mut out: Vec<char> = Vec::new();
    push_decimal(&mut out, started_at_ms);
    let ext = chars_of(".wav");
    append_chars(&mut out, ext.as_slice());
    string_of(out.as_slice())
}

} // verus!
