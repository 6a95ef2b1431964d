//! The mathematical model of the latch-protected commit protocol.
//!
//! Every hardware effect the driver issues — opening or closing the latch,
//! a register write, toggling the shutdown line — is one [`HwEvent`], and the
//! driver keeps the whole history as a ghost trace.  [`replay`] folds a trace
//! into the [`DacModel`]: the register contents, the analog value the
//! sample-and-hold stage holds, and whether the latch is closed.  The
//! driver's contracts state exactly which events each operation appends, so
//! ordering claims (the output is zeroed before shutdown is asserted) and
//! counting claims (on and off halves of a pulse stay balanced) are proved
//! over the trace.

use vstd::prelude::*;

verus! {

/// Which of the two DAC channels carries the live setpoint; the other is
/// always driven to zero.
#[derive(Clone, Copy, Debug, PartialEq, Eq, Structural)]
pub enum Channel {
    A,
    B,
}

/// The compile-time channel mapping: configuration, not runtime state.
pub const DAC_CHANNEL: Channel = Channel::A;

/// The pair of register values that commits setpoint `value` under the fixed
/// channel mapping.
pub open spec fn spec_channel_pair(value: u16) -> (u16, u16) {
    if DAC_CHANNEL is A {
        (value, 0u16)
    } else {
        (0u16, value)
    }
}

/// The executable side of [`spec_channel_pair`].
pub fn channel_pair(value: u16) -> (pair: (u16, u16))
    ensures
        pair == spec_channel_pair(value),
{
    match DAC_CHANNEL {
        Channel::A => (value, 0u16),
        Channel::B => (0u16, value),
    }
}

/// One hardware effect at the latched DAC port.
#[derive(Clone, Copy, Debug, PartialEq, Eq, Structural)]
pub enum HwEvent {
    /// The latch line opens the sample-and-hold stage: the analog output
    /// tracks the register contents.
    Unlatch,
    /// A successful bus transaction wrote both channel registers.
    Write(u16, u16),
    /// The latch line closes the sample-and-hold stage, freezing the analog output.
    Latch,
    /// The shutdown line forces the output stage off.
    ShutdownAssert,
    /// The shutdown line permits the output stage to conduct.
    ShutdownDeassert,
}

/// The state of the latched DAC after some prefix of the trace: register
/// contents, the value the sample-and-hold stage presents, and whether the
/// latch is closed.
pub struct DacModel {
    pub latched: bool,
    pub reg: (u16, u16),
    pub out: (u16, u16),
}

/// The model the driver assumes at construction; `Lm::new` immediately
/// latches and commits zero, so nothing downstream depends on it.
pub open spec fn initial_model() -> DacModel {
    DacModel { latched: true, reg: (0u16, 0u16), out: (0u16, 0u16) }
}

/// How one hardware effect changes the DAC: an open latch makes the output
/// track the registers, a closed latch freezes it; the shutdown line does not
/// touch the registers.
pub open spec fn model_step(m: DacModel, e: HwEvent) -> DacModel {
    match e {
        HwEvent::Unlatch => DacModel { latched: false, reg: m.reg, out: m.reg },
        HwEvent::Write(a, b) => if m.latched {
            DacModel { latched: m.latched, reg: (a, b), out: m.out }
        } else {
            DacModel { latched: m.latched, reg: (a, b), out: (a, b) }
        },
        HwEvent::Latch => DacModel { latched: true, reg: m.reg, out: m.out },
        _ => m,
    }
}

/// Folds a whole trace into the DAC state it leaves behind.
pub open spec fn replay(t: Seq<HwEvent>) -> DacModel
    decreases t.len(),
{
    if t.len() == 0 {
        initial_model()
    } else {
        model_step(replay(t.drop_last()), t.last())
    }
}

/// The register pairs a trace wrote, in order: what the transport's own
/// write history must equal.
pub open spec fn writes_of(t: Seq<HwEvent>) -> Seq<(u16, u16)>
    decreases t.len(),
{
    if t.len() == 0 {
        Seq::<(u16, u16)>::empty()
    } else {
        match t.last() {
            HwEvent::Write(a, b) => writes_of(t.drop_last()).push((a, b)),
            _ => writes_of(t.drop_last()),
        }
    }
}

/// How often a trace wrote exactly the pair `w`.
pub open spec fn count_writes(t: Seq<HwEvent>, w: (u16, u16)) -> nat
    decreases t.len(),
{
    if t.len() == 0 {
        0
    } else {
        count_writes(t.drop_last(), w) + if t.last() == HwEvent::Write(w.0, w.1) {
            1nat
        } else {
            0nat
        }
    }
}

/// The three events of one latch-protected commit of setpoint `value`:
/// open the latch, write both registers, close the latch.
pub open spec fn commit_events(value: u16) -> Seq<HwEvent> {
    seq![
        HwEvent::Unlatch,
        HwEvent::Write(spec_channel_pair(value).0, spec_channel_pair(value).1),
        HwEvent::Latch,
    ]
}

/// The two events of a commit whose bus transaction failed: the latch is
/// still re-closed, so the output freezes at the value it already held.
pub open spec fn failed_commit_events() -> Seq<HwEvent> {
    seq![HwEvent::Unlatch, HwEvent::Latch]
}

pub proof fn lemma_replay_push(t: Seq<HwEvent>, e: HwEvent)
    ensures
        replay(t.push(e)) == model_step(replay(t), e),
{
    assert(t.push(e).drop_last() =~= t);
    assert(t.push(e).last() == e);
}

pub proof fn lemma_writes_of_push(t: Seq<HwEvent>, e: HwEvent)
    ensures
        writes_of(t.push(e)) == (match e {
            HwEvent::Write(a, b) => writes_of(t).push((a, b)),
            _ => writes_of(t),
        }),
{
    assert(t.push(e).drop_last() =~= t);
    assert(t.push(e).last() == e);
}

pub proof fn lemma_count_writes_push(t: Seq<HwEvent>, e: HwEvent, w: (u16, u16))
    ensures
        count_writes(t.push(e), w) == count_writes(t, w) + if e == HwEvent::Write(w.0, w.1) {
            1nat
        } else {
            0nat
        },
{
    assert(t.push(e).drop_last() =~= t);
    assert(t.push(e).last() == e);
}

/// A successful commit leaves the latch closed and both the registers and
/// the held output at exactly the committed pair, whatever came before.
pub proof fn lemma_replay_append_commit(t: Seq<HwEvent>, value: u16)
    ensures
        replay(t + commit_events(value)) == (DacModel {
            latched: true,
            reg: spec_channel_pair(value),
            out: spec_channel_pair(value),
        }),
{
    let p = spec_channel_pair(value);
    let t1 = t.push(HwEvent::Unlatch);
    let t2 = t1.push(HwEvent::Write(p.0, p.1));
    let t3 = t2.push(HwEvent::Latch);
    assert(t + commit_events(value) =~= t3);
    lemma_replay_push(t, HwEvent::Unlatch);
    lemma_replay_push(t1, HwEvent::Write(p.0, p.1));
    lemma_replay_push(t2, HwEvent::Latch);
}

/// A failed commit still re-closes the latch; the output freezes at the
/// register contents, so nothing partial is ever presented.
pub proof fn lemma_replay_append_failed(t: Seq<HwEvent>)
    ensures
        replay(t + failed_commit_events()) == (DacModel {
            latched: true,
            reg: replay(t).reg,
            out: replay(t).reg,
        }),
{
    let t1 = t.push(HwEvent::Unlatch);
    let t2 = t1.push(HwEvent::Latch);
    assert(t + failed_commit_events() =~= t2);
    lemma_replay_push(t, HwEvent::Unlatch);
    lemma_replay_push(t1, HwEvent::Latch);
}

pub proof fn lemma_writes_of_append_commit(t: Seq<HwEvent>, value: u16)
    ensures
        writes_of(t + commit_events(value)) == writes_of(t).push(spec_channel_pair(value)),
{
    let p = spec_channel_pair(value);
    let t1 = t.push(HwEvent::Unlatch);
    let t2 = t1.push(HwEvent::Write(p.0, p.1));
    let t3 = t2.push(HwEvent::Latch);
    assert(t + commit_events(value) =~= t3);
    lemma_writes_of_push(t, HwEvent::Unlatch);
    lemma_writes_of_push(t1, HwEvent::Write(p.0, p.1));
    lemma_writes_of_push(t2, HwEvent::Latch);
}

pub proof fn lemma_writes_of_append_failed(t: Seq<HwEvent>)
    ensures
        writes_of(t + failed_commit_events()) == writes_of(t),
{
    let t1 = t.push(HwEvent::Unlatch);
    let t2 = t1.push(HwEvent::Latch);
    assert(t + failed_commit_events() =~= t2);
    lemma_writes_of_push(t, HwEvent::Unlatch);
    lemma_writes_of_push(t1, HwEvent::Latch);
}

/// Write counting distributes over concatenation.
pub proof fn lemma_count_writes_add(a: Seq<HwEvent>, b: Seq<HwEvent>, w: (u16, u16))
    ensures
        count_writes(a + b, w) == count_writes(a, w) + count_writes(b, w),
    decreases b.len(),
{
    if b.len() == 0 {
        assert(a + b =~= a);
    } else {
        lemma_count_writes_add(a, b.drop_last(), w);
        assert((a + b).drop_last() =~= a + b.drop_last());
        assert((a + b).last() == b.last());
    }
}

/// Dropping a prefix commutes with appending a suffix.
pub proof fn lemma_skip_append(t: Seq<HwEvent>, s: Seq<HwEvent>, k: int)
    requires
        0 <= k <= t.len(),
    ensures
        (t + s).skip(k) == t.skip(k) + s,
{
    assert((t + s).skip(k) =~= t.skip(k) + s);
}

/// A commit of `value` contains exactly one write: the pair for `value`.
pub proof fn lemma_count_writes_commit(value: u16, w: (u16, u16))
    ensures
        count_writes(commit_events(value), w) == if w == spec_channel_pair(value) {
            1nat
        } else {
            0nat
        },
{
    let p = spec_channel_pair(value);
    let e = Seq::<HwEvent>::empty();
    let t1 = e.push(HwEvent::Unlatch);
    let t2 = t1.push(HwEvent::Write(p.0, p.1));
    let t3 = t2.push(HwEvent::Latch);
    assert(commit_events(value) =~= t3);
    lemma_count_writes_push(e, HwEvent::Unlatch, w);
    lemma_count_writes_push(t1, HwEvent::Write(p.0, p.1), w);
    lemma_count_writes_push(t2, HwEvent::Latch, w);
    assert(HwEvent::Write(p.0, p.1) == HwEvent::Write(w.0, w.1) <==> w == p);
}

/// Appending one event past a kept prefix shifts the count by that event.
pub proof fn lemma_count_writes_skip_push(t: Seq<HwEvent>, e: HwEvent, k: int, w: (u16, u16))
    requires
        0 <= k <= t.len(),
    ensures
        count_writes(t.push(e).skip(k), w) == count_writes(t.skip(k), w) + if e == HwEvent::Write(
            w.0,
            w.1,
        ) {
            1nat
        } else {
            0nat
        },
{
    assert(t.push(e).skip(k) =~= t.skip(k).push(e));
    lemma_count_writes_push(t.skip(k), e, w);
}

/// A failed commit contains no write at all.
pub proof fn lemma_count_writes_failed(w: (u16, u16))
    ensures
        count_writes(failed_commit_events(), w) == 0,
{
    let e = Seq::<HwEvent>::empty();
    let t1 = e.push(HwEvent::Unlatch);
    let t2 = t1.push(HwEvent::Latch);
    assert(failed_commit_events() =~= t2);
    lemma_count_writes_push(e, HwEvent::Unlatch, w);
    lemma_count_writes_push(t1, HwEvent::Latch, w);
}

} // verus!
