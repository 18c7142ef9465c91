//! The timer state machine.

use vstd::prelude::*;

use core::time::Duration;

use crate::clock::{millis_between, now_utc, signed_millis_since, Timestamp};

verus! {

/// What `Duration::from_millis` returns for `millis`: a span of that many milliseconds.
pub uninterp spec fn duration_of_millis(millis: u64) -> Duration;

/// Relies on std's `Duration::from_millis`, which makes a span of `millis`
/// milliseconds and never panics.
pub assume_specification[ core::time::Duration::from_millis ](millis: u64) -> (r: Duration)
    ensures
        r == duration_of_millis(millis),
;

/// A timer.
#[derive(Copy, Clone, Debug, PartialEq, Eq, Structural, PartialOrd, Ord, Hash)]
pub enum Timer {
    /// The timer has not been started yet.
    NotStarted,
    /// The timer has been started.
    Started {
        /// The time when the timer was last marked.
        last_marked: Timestamp,
    },
}

impl Timer {
    /// Every instant the timer holds is well formed.
    pub open spec fn wf(self) -> bool {
        match self {
            Timer::NotStarted => true,
            Timer::Started { last_marked } => last_marked.wf(),
        }
    }

    /// The milliseconds that a mark at `now` reports: zero on the first mark, and
    /// afterwards the time since the last mark, with a clock that went back counted
    /// as zero.
    pub open spec fn elapsed_millis(self, now: Timestamp) -> int {
        match self {
            Timer::NotStarted => 0,
            Timer::Started { last_marked } => {
                let d = millis_between(now, last_marked);
                if d > 0 {
                    d
                } else {
                    0
                }
            },
        }
    }

    /// The results of marking the timer at each instant of `nows` in turn.
    pub open spec fn marks(self, nows: Seq<Timestamp>) -> Seq<int>
        decreases nows.len(),
    {
        if nows.len() == 0 {
            Seq::empty()
        } else {
            seq![self.elapsed_millis(nows[0])] + (Timer::Started { last_marked: nows[0] }).marks(
                nows.drop_first(),
            )
        }
    }

    /// Creates a new timer.
    pub fn new() -> (r: Self)
        ensures
            r == Timer::NotStarted,
    {
        Timer::NotStarted
    }

    /// Whether every instant the timer holds is well formed.
    pub fn is_valid(&self) -> (r: bool)
        ensures
            r == self.wf(),
    {
        match self {
            Timer::NotStarted => true,
            Timer::Started { last_marked } => last_marked.is_valid(),
        }
    }

    /// Marks the instant `now`, returning the number of milliseconds since the last
    /// mark, or zero on the first mark or where `now` comes before the last mark.
    pub fn mark_millis_at(&mut self, now: Timestamp) -> (r: u64)
        requires
            old(self).wf(),
            now.wf(),
        ensures
            r == old(self).elapsed_millis(now),
            *final(self) == (Timer::Started { last_marked: now }),
    {
        let elapsed: u64 = match *self {
            Timer::NotStarted => 0,
            Timer::Started { last_marked } => {
                let delta = signed_millis_since(&now, &last_marked);
                if delta > 0 {
                    delta as u64
                } else {
                    0
                }
            },
        };
        *self = Timer::Started { last_marked: now };
        elapsed
    }

    /// Marks the current instant, returning the number of milliseconds since the last
    /// mark.
    ///
    /// The very first mark returns zero, so any time between creating the timer and
    /// its first mark has no effect on the times returned. A clock that went back
    /// since the last mark counts as zero.
    pub fn mark_millis(&mut self) -> (r: u64)
        requires
            old(self).wf(),
        ensures
            final(self).wf(),
            *final(self) is Started,
            r == old(self).elapsed_millis((*final(self))->last_marked),
    {
        let now = now_utc();
        self.mark_millis_at(now)
    }

    /// Marks the instant `now`, returning the time since the last mark as a
    /// `Duration` of whole milliseconds.
    pub fn mark_at(&mut self, now: Timestamp) -> (r: Duration)
        requires
            old(self).wf(),
            now.wf(),
        ensures
            r == duration_of_millis(old(self).elapsed_millis(now) as u64),
            *final(self) == (Timer::Started { last_marked: now }),
    {
        Duration::from_millis(self.mark_millis_at(now))
    }

    /// Marks the current instant, returning the time since the last mark as a
    /// `Duration` of whole milliseconds.
    ///
    /// The very first mark returns a zero-length span.
    pub fn mark(&mut self) -> (r: Duration)
        requires
            old(self).wf(),
        ensures
            final(self).wf(),
            *final(self) is Started,
            r == duration_of_millis(old(self).elapsed_millis((*final(self))->last_marked) as u64),
    {
        Duration::from_millis(self.mark_millis())
    }
}

} // verus!

verus! {

/// Marking a timer at successive instants: the first result comes from the timer as
/// it was, and each later one from the instant of the mark before it.
proof fn lemma_marks_index(t: Timer, nows: Seq<Timestamp>)
    ensures
        t.marks(nows).len() == nows.len(),
        nows.len() > 0 ==> t.marks(nows)[0] == t.elapsed_millis(nows[0]),
        forall|i: int|
            0 < i < nows.len() ==> #[trigger] t.marks(nows)[i] == (Timer::Started {
                last_marked: nows[i - 1],
            }).elapsed_millis(nows[i]),
    decreases nows.len(),
{
    if nows.len() > 0 {
        let next = Timer::Started { last_marked: nows[0] };
        let rest = nows.drop_first();
        lemma_marks_index(next, rest);
        assert forall|i: int| 0 < i < nows.len() implies #[trigger] t.marks(nows)[i] == (
        Timer::Started { last_marked: nows[i - 1] }).elapsed_millis(nows[i]) by {
            assert(t.marks(nows)[i] == next.marks(rest)[i - 1]);
            if i > 1 {
                assert(rest[i - 2] == nows[i - 1]);
            }
        }
    }
}

/// The first mark of a new timer reads zero, whatever the clock says.
pub proof fn first_mark_reads_zero(now: Timestamp)
    ensures
        Timer::NotStarted.elapsed_millis(now) == 0,
        Timer::NotStarted.marks(seq![now]) == seq![0int],
{
    lemma_marks_index(Timer::NotStarted, seq![now]);
    assert(Timer::NotStarted.marks(seq![now]) =~= seq![0int]);
}

/// Every time a mark reports is zero or more, however the clock moves between marks.
pub proof fn marks_never_negative(t: Timer, nows: Seq<Timestamp>)
    ensures
        t.marks(nows).len() == nows.len(),
        forall|i: int| 0 <= i < nows.len() ==> #[trigger] t.marks(nows)[i] >= 0,
{
    lemma_marks_index(t, nows);
}

/// A new timer marked at instants `d1, d2, ..., dn` milliseconds apart (each zero or
/// more) reports `0, d1, d2, ..., dn`.
pub proof fn marks_report_deltas(nows: Seq<Timestamp>, deltas: Seq<int>)
    requires
        nows.len() == deltas.len() + 1,
        forall|i: int|
            0 <= i < deltas.len() ==> #[trigger] deltas[i] >= 0 && millis_between(
                nows[i + 1],
                nows[i],
            ) == deltas[i],
    ensures
        Timer::NotStarted.marks(nows) == seq![0int] + deltas,
{
    lemma_marks_index(Timer::NotStarted, nows);
    let expected = seq![0int] + deltas;
    assert forall|i: int| 0 < i < nows.len() implies Timer::NotStarted.marks(nows)[i]
        == expected[i] by {
        assert(deltas[i - 1] >= 0);
        assert(expected[i] == deltas[i - 1]);
    }
    assert(Timer::NotStarted.marks(nows) =~= expected);
}

/// New timers are alike and independent: each starts unmarked, and what one reports
/// depends on its own marks alone, never on those made on another.
pub proof fn new_timers_are_independent(
    a: Timer,
    b: Timer,
    a_nows: Seq<Timestamp>,
    b_nows: Seq<Timestamp>,
)
    requires
        a == Timer::NotStarted,
        b == Timer::NotStarted,
    ensures
        a.marks(a_nows) == Timer::NotStarted.marks(a_nows),
        b.marks(b_nows) == Timer::NotStarted.marks(b_nows),
        a_nows.len() > 0 ==> a.marks(a_nows)[0] == 0,
        b_nows.len() > 0 ==> b.marks(b_nows)[0] == 0,
{
    lemma_marks_index(a, a_nows);
    lemma_marks_index(b, b_nows);
}

} // verus!
