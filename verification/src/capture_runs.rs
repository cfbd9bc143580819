//! Laws of the capture core over whole runs of chunks: where published
//! utterances are routed in always-on mode, and what one push-to-talk
//! press and release publish.
use vstd::prelude::*;
use crate::capture::{
    chunk_step, idle_vad, press_step, release_step, snapshot_step, stop_step, write_step,
    CaptureMode, CoreModel, MetaSpec, PublishedSpec, StepSpec,
};
use crate::utterance::{current_samples, synthesized_end};
use crate::vad::{not_below, vad_next, HysteresisModel, SpeechProb, VadState};

verus! {

/// One chunk fed to the core, with what the world answers along the way:
/// the routing snapshot the worker would take if a rising edge asks for one,
/// and whether a WAV that the chunk closes gets written.
pub struct ChunkInput<T> {
    pub chunk: Seq<T>,
    pub prob: SpeechProb,
    pub ts: u64,
    pub snapshot: Option<MetaSpec>,
    pub written: bool,
}

/// A chunk and the worker's follow-up: the snapshot when asked for, then the
/// write of any utterance handed out. Gives what was published, if anything.
pub open spec fn chunk_round<T>(m: CoreModel<T>, inp: ChunkInput<T>, mode: CaptureMode) -> (
    CoreModel<T>,
    Option<PublishedSpec<T>>,
) {
    let (m1, st) = chunk_step(m, inp.chunk, inp.prob, inp.ts, mode);
    let (m2, st2) = match st {
        StepSpec::NeedSnapshot => snapshot_step(m1, inp.snapshot),
        _ => (m1, st),
    };
    match st2 {
        StepSpec::Write(u) => write_step(m2, u, inp.written),
        _ => (m2, None),
    }
}

/// The round's chunk raises a rising edge that asks for a snapshot.
pub open spec fn asks_snapshot<T>(m: CoreModel<T>, inp: ChunkInput<T>, mode: CaptureMode) -> bool {
    chunk_step(m, inp.chunk, inp.prob, inp.ts, mode).1 is NeedSnapshot
}

/// A run of rounds: the final state and everything published, in order.
pub open spec fn run<T>(m: CoreModel<T>, ins: Seq<ChunkInput<T>>, mode: CaptureMode) -> (
    CoreModel<T>,
    Seq<PublishedSpec<T>>,
)
    decreases ins.len(),
{
    if ins.len() == 0 {
        (m, Seq::empty())
    } else {
        let (mp, ps) = run(m, ins.drop_last(), mode);
        let (m2, p) = chunk_round(mp, ins.last(), mode);
        (
            m2,
            match p {
                Some(x) => ps.push(x),
                None => ps,
            },
        )
    }
}

/// The snapshot taken at the latest rising edge of the run that was given
/// one (the core's own snapshot before the run when there is none).
pub open spec fn last_snapshot<T>(m: CoreModel<T>, ins: Seq<ChunkInput<T>>, mode: CaptureMode) -> Option<
    MetaSpec,
>
    decreases ins.len(),
{
    if ins.len() == 0 {
        m.meta
    } else {
        let mp = run(m, ins.drop_last(), mode).0;
        if asks_snapshot(mp, ins.last(), mode) && ins.last().snapshot is Some {
            ins.last().snapshot
        } else {
            last_snapshot(m, ins.drop_last(), mode)
        }
    }
}

/// Between rounds nothing is pending and the routing snapshot, if any, is
/// the one taken at the latest rising edge given one.
pub open spec fn routed_by<T>(m: CoreModel<T>, last: Option<MetaSpec>) -> bool {
    &&& m.pending is None
    &&& m.awaiting is None
    &&& (m.meta is None || m.meta == last)
}

proof fn lemma_always_on_round<T>(m: CoreModel<T>, last: Option<MetaSpec>, inp: ChunkInput<T>)
    requires
        routed_by(m, last),
    ensures
        ({
            let last2 = if asks_snapshot(m, inp, CaptureMode::AlwaysOn) && inp.snapshot is Some {
                inp.snapshot
            } else {
                last
            };
            let (m2, p) = chunk_round(m, inp, CaptureMode::AlwaysOn);
            &&& routed_by(m2, last2)
            &&& p matches Some((u, s)) ==> last2 == Some(s)
            &&& (asks_snapshot(m, inp, CaptureMode::AlwaysOn) && inp.snapshot is None) ==> p is None
                && m2.vad.state == VadState::Idle && m2.meta == m.meta
        }),
{
}

proof fn lemma_always_on_prefix<T>(m: CoreModel<T>, ins: Seq<ChunkInput<T>>)
    requires
        m.pending is None,
        m.awaiting is None,
    ensures
        routed_by(run(m, ins, CaptureMode::AlwaysOn).0, last_snapshot(m, ins, CaptureMode::AlwaysOn)),
    decreases ins.len(),
{
    if ins.len() > 0 {
        lemma_always_on_prefix(m, ins.drop_last());
        lemma_always_on_round(
            run(m, ins.drop_last(), CaptureMode::AlwaysOn).0,
            last_snapshot(m, ins.drop_last(), CaptureMode::AlwaysOn),
            ins.last(),
        );
    }
}

/// Always-on routing: however a run went before, an utterance published by
/// the next chunk carries the snapshot taken at the latest rising edge that
/// was given one, whatever snapshots the worker would have taken since. A
/// rising edge given no snapshot (no active tab) publishes nothing, leaves
/// the routing as it was and sends the VAD back to idle.
pub proof fn lemma_always_on_routing<T>(
    m: CoreModel<T>,
    ins: Seq<ChunkInput<T>>,
    next: ChunkInput<T>,
)
    requires
        m.pending is None,
        m.awaiting is None,
    ensures
        ({
            let mr = run(m, ins, CaptureMode::AlwaysOn).0;
            let (m2, p) = chunk_round(mr, next, CaptureMode::AlwaysOn);
            &&& p matches Some((u, s)) ==> last_snapshot(
                m,
                ins.push(next),
                CaptureMode::AlwaysOn,
            ) == Some(s)
            &&& (asks_snapshot(mr, next, CaptureMode::AlwaysOn) && next.snapshot is None) ==> p is None
                && m2.vad.state == VadState::Idle && m2.meta == mr.meta
            &&& m2.pending is None
            &&& m2.awaiting is None
        }),
{
    lemma_always_on_prefix(m, ins);
    lemma_always_on_round(
        run(m, ins, CaptureMode::AlwaysOn).0,
        last_snapshot(m, ins, CaptureMode::AlwaysOn),
        next,
    );
    assert(ins.push(next).drop_last() =~= ins);
}

proof fn lemma_ptt_chunks<T>(m: CoreModel<T>, s: MetaSpec, ins: Seq<ChunkInput<T>>)
    requires
        m.pending is None,
        m.awaiting is None,
        m.meta == Some(s),
    ensures
        ({
            let (m2, pubs) = run(m, ins, CaptureMode::Ptt);
            &&& m2.pending is None
            &&& m2.awaiting is None
            &&& m2.meta == Some(s)
            &&& pubs.len() == 0
        }),
    decreases ins.len(),
{
    if ins.len() > 0 {
        lemma_ptt_chunks(m, s, ins.drop_last());
    }
}

/// Push-to-talk: a press given snapshot `s`, any chunks, then the release
/// publish at most one utterance, and it carries `s`; nothing in between
/// changes the routing or publishes, and a second press is not wanted while
/// the utterance is open (its snapshot is set).
pub proof fn lemma_ptt_press_release<T>(
    m: CoreModel<T>,
    s: MetaSpec,
    t0: u64,
    ins: Seq<ChunkInput<T>>,
    t1: u64,
    written: bool,
)
    requires
        m.pending is None,
        m.awaiting is None,
        m.meta is None,
    ensures
        ({
            let m1 = press_step(m, Some(s), t0);
            let (m2, pubs) = run(m1, ins, CaptureMode::Ptt);
            let (m3, st) = release_step(m2, CaptureMode::Ptt, t1);
            let (m4, p) = match st {
                StepSpec::Write(u) => write_step(m3, u, written),
                _ => (m3, None),
            };
            &&& pubs.len() == 0
            &&& m2.meta == Some(s)
            &&& p matches Some((u, s2)) ==> s2 == s
            &&& m4.meta is None
            &&& m4.pending is None
            &&& m4.awaiting is None
        }),
{
    lemma_ptt_chunks(press_step(m, Some(s), t0), s, ins);
}

/// Stray push-to-talk events do nothing: a press without a snapshot (no
/// active tab), and a release with no utterance open.
pub proof fn lemma_ptt_stray_events<T>(m: CoreModel<T>, mode: CaptureMode, t: u64)
    ensures
        press_step(m, None, t) == m,
        m.meta is None ==> release_step(m, mode, t) == (m, StepSpec::<T>::Done),
{
}

/// Number of loud chunks in a row that take an idle VAD with no count to a
/// rising edge.
pub open spec fn chunks_to_rise(v: HysteresisModel) -> nat {
    if v.rising_required == 0 {
        1
    } else {
        v.rising_required
    }
}

/// Total number of samples in the chunks of a run.
pub open spec fn total_len<T>(ins: Seq<ChunkInput<T>>) -> nat
    decreases ins.len(),
{
    if ins.len() == 0 {
        0
    } else {
        total_len(ins.drop_last()) + ins.last().chunk.len()
    }
}

/// Every chunk of the run is at or above the rising threshold.
pub open spec fn all_loud<T>(ins: Seq<ChunkInput<T>>, threshold: u64) -> bool {
    forall|i: int| 0 <= i < ins.len() ==> not_below(#[trigger] ins[i].prob, threshold)
}

proof fn lemma_loud_prefix<T>(x: CoreModel<T>, ins: Seq<ChunkInput<T>>)
    requires
        x.pending is None,
        x.awaiting is None,
        x.vad.state == VadState::Idle,
        x.vad.above_count == 0,
        ins.len() < chunks_to_rise(x.vad),
        all_loud(ins, x.vad.rising_threshold),
        x.builder.current is Some ==> current_samples(x.builder).len() + total_len(ins)
            < x.builder.max_samples,
    ensures
        ({
            let (y, pubs) = run(x, ins, CaptureMode::AlwaysOn);
            &&& pubs.len() == 0
            &&& y.pending is None
            &&& y.awaiting is None
            &&& y.vad == HysteresisModel { above_count: ins.len(), ..x.vad }
            &&& y.builder.max_samples == x.builder.max_samples
            &&& (y.builder.current is Some <==> x.builder.current is Some)
            &&& x.builder.current is Some ==> current_samples(y.builder).len() == current_samples(
                x.builder,
            ).len() + total_len(ins)
        }),
    decreases ins.len(),
{
    if ins.len() > 0 {
        let d = ins.drop_last();
        assert(all_loud(d, x.vad.rising_threshold)) by {
            assert forall|i: int| 0 <= i < d.len() implies not_below(
                #[trigger] d[i].prob,
                x.vad.rising_threshold,
            ) by {
                assert(d[i] == ins[i]);
            }
        }
        lemma_loud_prefix(x, d);
        assert(not_below(ins[ins.len() - 1].prob, x.vad.rising_threshold));
    }
}

proof fn lemma_loud_run_rises<T>(x: CoreModel<T>, ins: Seq<ChunkInput<T>>)
    requires
        x.pending is None,
        x.awaiting is None,
        x.vad.state == VadState::Idle,
        x.vad.above_count == 0,
        ins.len() == chunks_to_rise(x.vad),
        all_loud(ins, x.vad.rising_threshold),
        x.builder.current is Some ==> current_samples(x.builder).len() + total_len(ins)
            < x.builder.max_samples,
    ensures
        ({
            let (y, pubs) = run(x, ins.drop_last(), CaptureMode::AlwaysOn);
            &&& pubs.len() == 0
            &&& asks_snapshot(y, ins.last(), CaptureMode::AlwaysOn)
        }),
{
    let d = ins.drop_last();
    assert(all_loud(d, x.vad.rising_threshold)) by {
        assert forall|i: int| 0 <= i < d.len() implies not_below(
            #[trigger] d[i].prob,
            x.vad.rising_threshold,
        ) by {
            assert(d[i] == ins[i]);
        }
    }
    assert(total_len(d) <= total_len(ins));
    lemma_loud_prefix(x, d);
    assert(not_below(ins[ins.len() - 1].prob, x.vad.rising_threshold));
}

/// Always-on, after a stop: the VAD is idle with cleared counters, so when
/// capture starts again, speech raises a rising edge that asks for a routing
/// snapshot. Fed `chunks_to_rise` loud chunks (none of which fills a
/// stale utterance to its cap), the core publishes nothing on the first ones
/// and asks for a snapshot on the last.
pub proof fn lemma_speech_after_stop_rises<T>(m: CoreModel<T>, ins: Seq<ChunkInput<T>>)
    requires
        m.pending is None,
        m.awaiting is None,
        ins.len() == chunks_to_rise(m.vad),
        all_loud(ins, m.vad.rising_threshold),
        m.builder.current is Some ==> current_samples(m.builder).len() + total_len(ins)
            < m.builder.max_samples,
    ensures
        stop_step(m).vad == idle_vad(m.vad),
        ({
            let (y, pubs) = run(stop_step(m), ins.drop_last(), CaptureMode::AlwaysOn);
            &&& pubs.len() == 0
            &&& asks_snapshot(y, ins.last(), CaptureMode::AlwaysOn)
        }),
{
    lemma_loud_run_rises(stop_step(m), ins);
}

/// Always-on cap: an utterance that reaches the maximum length on a chunk
/// with no VAD edge is closed with that chunk and, once written, published
/// with the snapshot taken at its rising edge; the VAD goes back to idle with
/// cleared counters. Continuous speech then opens a new utterance: after
/// `chunks_to_rise` more loud chunks nothing has been published and the last
/// one raises a rising edge asking for a snapshot.
pub proof fn lemma_cap_rearms_vad<T>(
    m: CoreModel<T>,
    t: u64,
    s: Seq<T>,
    snap: MetaSpec,
    inp: ChunkInput<T>,
    ins: Seq<ChunkInput<T>>,
)
    requires
        m.pending is None,
        m.awaiting is None,
        m.builder.current == Some((t, s)),
        m.meta == Some(snap),
        s.len() + inp.chunk.len() >= m.builder.max_samples,
        s.len() + inp.chunk.len() > 0,
        vad_next(m.vad, inp.prob, inp.ts).1 is None,
        inp.written,
        ins.len() == chunks_to_rise(m.vad),
        all_loud(ins, m.vad.rising_threshold),
    ensures
        ({
            let (m2, p) = chunk_round(m, inp, CaptureMode::AlwaysOn);
            let all = s + inp.chunk;
            &&& p == Some(
                (
                    (all, t, synthesized_end(t, all.len(), m.builder.cfg.sample_rate) as u64),
                    snap,
                ),
            )
            &&& m2.vad == idle_vad(vad_next(m.vad, inp.prob, inp.ts).0)
            &&& m2.meta is None
            &&& m2.builder.current is None
            &&& m2.pending is None
            &&& m2.awaiting is None
            &&& ({
                let (y, pubs) = run(m2, ins.drop_last(), CaptureMode::AlwaysOn);
                &&& pubs.len() == 0
                &&& asks_snapshot(y, ins.last(), CaptureMode::AlwaysOn)
            })
        }),
{
    let m2 = chunk_round(m, inp, CaptureMode::AlwaysOn).0;
    lemma_loud_run_rises(m2, ins);
}

} // verus!
