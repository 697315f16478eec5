//! Multi-click classification with a timing window.
use vstd::prelude::*;

verus! {

/// How many quick presses in a row the current press completes.
#[derive(Clone, Copy, Debug, PartialEq, Eq)]
pub enum ClickKind {
    Single,
    Double,
    Triple,
}

/// The kind of the last press and the time it happened, in milliseconds.
#[derive(Clone, Copy, Debug, PartialEq, Eq)]
pub struct ClickRecord {
    pub kind: ClickKind,
    pub time_ms: u64,
}

/// The kind that follows `k` when a press comes within the timing window.
pub open spec fn advance_kind(k: ClickKind) -> ClickKind {
    match k {
        ClickKind::Single => ClickKind::Double,
        ClickKind::Double => ClickKind::Triple,
        ClickKind::Triple => ClickKind::Single,
    }
}

/// Time since `then`, zero when the clock reads earlier than `then`.
pub open spec fn elapsed(then: u64, now: u64) -> nat {
    if now >= then { (now - then) as nat } else { 0 }
}

/// The record stored after a press at `now`, given the previous record.
pub open spec fn next_record(prev: Option<ClickRecord>, now: u64, timing_ms: u64) -> ClickRecord {
    let kind = match prev {
        Some(r) => if elapsed(r.time_ms, now) < timing_ms { advance_kind(r.kind) } else { ClickKind::Single },
        None => ClickKind::Single,
    };
    ClickRecord { kind, time_ms: now }
}

/// Classifies a press at `now` and returns the record that replaces `prev`.
pub fn classify_press(prev: Option<ClickRecord>, now: u64, timing_ms: u64) -> (r: ClickRecord)
    ensures
        r == next_record(prev, now, timing_ms),
{
    let kind = match prev {
        Some(rec) => {
            let el: u64 = if now >= rec.time_ms { now - rec.time_ms } else { 0 };
            if el < timing_ms {
                match rec.kind {
                    ClickKind::Single => ClickKind::Double,
                    ClickKind::Double => ClickKind::Triple,
                    ClickKind::Triple => ClickKind::Single,
                }
            } else {
                ClickKind::Single
            }
        },
        None => ClickKind::Single,
    };
    ClickRecord { kind, time_ms: now }
}

/// The record left after presses at the given times, one after another.
pub open spec fn replay(prev: Option<ClickRecord>, times: Seq<u64>, timing_ms: u64) -> Option<ClickRecord>
    decreases times.len(),
{
    if times.len() == 0 {
        prev
    } else {
        Some(next_record(replay(prev, times.drop_last(), timing_ms), times.last(), timing_ms))
    }
}

/// The kind of the press at position `i` of an unbroken run of quick presses.
pub open spec fn kind_in_run(i: nat) -> ClickKind {
    if i % 3 == 0 {
        ClickKind::Single
    } else if i % 3 == 1 {
        ClickKind::Double
    } else {
        ClickKind::Triple
    }
}

/// Every press in `times` comes within the timing window of the one before.
pub open spec fn all_quick(times: Seq<u64>, timing_ms: u64) -> bool {
    forall|i: int| 0 < i < times.len() ==> #[trigger] elapsed(times[i - 1], times[i]) < timing_ms
}

/// Presses that each come within the timing window of the previous one are
/// classified Single, Double, Triple, Single, ... in turn, starting from no
/// record.
pub proof fn lemma_quick_presses_cycle(times: Seq<u64>, timing_ms: u64)
    requires
        times.len() > 0,
        all_quick(times, timing_ms),
    ensures
        replay(None, times, timing_ms) == Some(ClickRecord {
            kind: kind_in_run((times.len() - 1) as nat),
            time_ms: times.last(),
        }),
    decreases times.len(),
{
    if times.len() > 1 {
        let front = times.drop_last();
        assert forall|i: int| 0 < i < front.len() implies #[trigger] elapsed(front[i - 1], front[i]) < timing_ms by {
            assert(elapsed(times[i - 1], times[i]) < timing_ms);
        }
        lemma_quick_presses_cycle(front, timing_ms);
        let n = (times.len() - 1) as int;
        assert(elapsed(times[n - 1], times[n]) < timing_ms);
        assert(front.last() == times[n - 1]);
        assert(kind_in_run(n as nat) == advance_kind(kind_in_run((n - 1) as nat)));
    } else {
        assert(times.drop_last().len() == 0);
        assert(replay(None, times.drop_last(), timing_ms) == None::<ClickRecord>);
    }
}

/// A press that comes at or after the end of the timing window is a Single
/// press, whatever kind the previous press had.
pub proof fn lemma_slow_press_resets(prev: ClickRecord, now: u64, timing_ms: u64)
    requires
        elapsed(prev.time_ms, now) >= timing_ms,
    ensures
        next_record(Some(prev), now, timing_ms).kind == ClickKind::Single,
{
}

} // verus!
