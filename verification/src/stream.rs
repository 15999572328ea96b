//! Following one task's events over the socket, as a state machine. The
//! connection fetches pages, writes the frames the machine selects and waits
//! for wake-ups; the machine decides what to write and when the stream ends.
//! Every event is written at most once and in increasing sequence order, a
//! resume point older than retained history is refused as stale, and the
//! stream ends only on a terminal task whose history has been written out.
use vstd::prelude::*;
use crate::runtime::SemanticErrorCode;
use crate::task::TaskState;

verus! {

/// One page of a task's events as the stream sees it.
pub struct StreamPage {
    /// The sequence numbers of the page's events, in the order they come.
    pub sequences: Vec<u64>,
    /// Whether history older than the page was pruned past the resume point.
    pub gap_before_page: bool,
    pub retained_from_sequence: u64,
    pub latest_sequence: u64,
    /// Whether more events follow this page.
    pub has_next: bool,
    pub terminal_state: Option<TaskState>,
}

#[derive(Clone, Copy, Debug, PartialEq, Eq, Structural)]
pub enum StreamPhase {
    /// A page was asked for.
    Fetching,
    /// Waiting for a wake-up or the idle timeout.
    Waiting,
    /// The last page after the idle timeout was asked for.
    FinalFetch,
    Done,
}

/// Why a stream ended without reaching a terminal task.
#[derive(Clone, Copy, Debug, PartialEq, Eq, Structural)]
pub enum StreamFailure {
    /// The resume point is older than retained history.
    Stale { requested_after: u64, retained_from: u64, latest: u64 },
    /// History was pruned past the stream while it was idle.
    PrunedWhileIdle,
    /// The idle timeout passed with the task still live.
    IdleTimeout,
    /// The wake-up channel went away.
    WakeupLost,
    /// Fetching a page failed with this code.
    Fetch(SemanticErrorCode),
}

pub open spec fn failure_code(f: StreamFailure) -> SemanticErrorCode {
    match f {
        StreamFailure::Stale { .. } => SemanticErrorCode::StaleResource,
        StreamFailure::PrunedWhileIdle => SemanticErrorCode::StaleResource,
        StreamFailure::IdleTimeout => SemanticErrorCode::Timeout,
        StreamFailure::WakeupLost => SemanticErrorCode::Unavailable,
        StreamFailure::Fetch(c) => c,
    }
}

impl StreamFailure {
    pub fn code(&self) -> (r: SemanticErrorCode)
        ensures
            r == failure_code(*self),
    {
        match self {
            StreamFailure::Stale { .. } => SemanticErrorCode::StaleResource,
            StreamFailure::PrunedWhileIdle => SemanticErrorCode::StaleResource,
            StreamFailure::IdleTimeout => SemanticErrorCode::Timeout,
            StreamFailure::WakeupLost => SemanticErrorCode::Unavailable,
            StreamFailure::Fetch(c) => *c,
        }
    }

    /// Whether the caller may simply follow again.
    pub fn retryable(&self) -> (r: bool)
        ensures
            r == (*self is IdleTimeout || *self is WakeupLost),
    {
        matches!(self, StreamFailure::IdleTimeout | StreamFailure::WakeupLost)
    }
}

/// What the connection does next.
#[derive(Clone, Copy, Debug, PartialEq, Eq, Structural)]
pub enum StreamNext {
    /// Fetch the page of events after `after`.
    Fetch,
    /// Wait for a wake-up of the task's subscription.
    Wait,
    /// Write the end frame with the task's terminal state.
    End(TaskState),
    /// Write an error frame.
    Fail(StreamFailure),
}

/// What happened while the connection waited.
#[derive(Clone, Copy, Debug, PartialEq, Eq, Structural)]
pub enum WaitOutcome {
    Woken,
    TimedOut,
    Disconnected,
}

/// The stream's state: the last sequence written and the phase.
#[derive(Clone, Copy, Debug, PartialEq, Eq, Structural)]
pub struct TaskEventStream {
    pub after: u64,
    pub phase: StreamPhase,
}

/// The resume point after the first `i` sequences were offered: the greater
/// of the starting point and every sequence offered so far.
pub open spec fn running_after(after: u64, s: Seq<u64>, i: int) -> u64
    decreases i,
{
    if i <= 0 {
        after
    } else {
        let a = running_after(after, s, i - 1);
        if s[i - 1] > a {
            s[i - 1]
        } else {
            a
        }
    }
}

/// Sequence `i` is written when it is newer than everything written so far.
pub open spec fn written(after: u64, s: Seq<u64>, i: int) -> bool {
    s[i] > running_after(after, s, i)
}

/// `idx` lists, in increasing order, exactly the positions of `s` that are
/// written.
pub open spec fn selects(after: u64, s: Seq<u64>, idx: Seq<usize>) -> bool {
    &&& forall|a: int, b: int| 0 <= a < b < idx.len() ==> #[trigger] idx[a] < #[trigger] idx[b]
    &&& forall|k: int| 0 <= k < idx.len() ==> #[trigger] idx[k] < s.len() && written(after, s, idx[k] as int)
    &&& forall|i: int| 0 <= i < s.len() && written(after, s, i) ==> exists|k: int| 0 <= k < idx.len() && #[trigger] idx[k] == i
}

/// The positions of the page's events that are newer than `after`, and the
/// resume point once they are written.
pub fn select_new_events(after: u64, sequences: &Vec<u64>) -> (r: (Vec<usize>, u64))
    ensures
        selects(after, sequences@, r.0@),
        r.1 == running_after(after, sequences@, sequences@.len() as int),
{
    let mut idx: Vec<usize> = Vec::new();
    let mut cur = after;
    let mut i: usize = 0;
    while i < sequences.len()
        invariant
            i <= sequences@.len(),
            cur == running_after(after, sequences@, i as int),
            forall|a: int, b: int| 0 <= a < b < idx@.len() ==> #[trigger] idx@[a] < #[trigger] idx@[b],
            forall|k: int| 0 <= k < idx@.len() ==> #[trigger] idx@[k] < i && written(after, sequences@, idx@[k] as int),
            forall|j: int| 0 <= j < i && written(after, sequences@, j) ==> exists|k: int| 0 <= k < idx@.len() && #[trigger] idx@[k] == j,
        decreases sequences@.len() - i,
    {
        let s = sequences[i];
        if s > cur {
            let ghost before = idx@;
            idx.push(i);
            assert(idx@[before.len() as int] == i);
            assert forall|j: int| 0 <= j < i + 1 && written(after, sequences@, j) implies exists|k: int| 0 <= k < idx@.len() && #[trigger] idx@[k] == j by {
                if j < i {
                    let k = choose|k: int| 0 <= k < before.len() && #[trigger] before[k] == j;
                    assert(idx@[k] == j);
                }
            }
            cur = s;
        }
        i = i + 1;
    }
    (idx, cur)
}

/// The resume point never moves backwards.
proof fn lemma_running_after_monotone(after: u64, s: Seq<u64>, i: int, j: int)
    requires
        0 <= i <= j <= s.len(),
    ensures
        running_after(after, s, i) <= running_after(after, s, j),
        running_after(after, s, i) >= after,
    decreases j,
{
    if j > i {
        lemma_running_after_monotone(after, s, i, j - 1);
    } else if i > 0 {
        lemma_running_after_monotone(after, s, i - 1, i - 1);
    }
}

/// Law: the events a page writes come in strictly increasing sequence order,
/// all newer than the resume point, and the new resume point is the last
/// one written: no event is written twice or out of order.
pub proof fn law_written_events_increase(after: u64, s: Seq<u64>, idx: Seq<usize>)
    requires
        selects(after, s, idx),
    ensures
        forall|a: int, b: int| 0 <= a < b < idx.len() ==> s[#[trigger] idx[a] as int] < s[#[trigger] idx[b] as int],
        forall|k: int| 0 <= k < idx.len() ==> s[#[trigger] idx[k] as int] > after,
        forall|k: int| 0 <= k < idx.len() ==> s[#[trigger] idx[k] as int] <= running_after(after, s, s.len() as int),
{
    assert forall|a: int, b: int| 0 <= a < b < idx.len() implies s[#[trigger] idx[a] as int] < s[#[trigger] idx[b] as int] by {
        let i = idx[a] as int;
        let j = idx[b] as int;
        assert(written(after, s, i) && written(after, s, j));
        lemma_running_after_monotone(after, s, i + 1, j);
        assert(running_after(after, s, i + 1) == s[i]);
    }
    assert forall|k: int| 0 <= k < idx.len() implies s[#[trigger] idx[k] as int] > after by {
        lemma_running_after_monotone(after, s, 0, idx[k] as int);
    }
    assert forall|k: int| 0 <= k < idx.len() implies s[#[trigger] idx[k] as int] <= running_after(after, s, s.len() as int) by {
        let i = idx[k] as int;
        lemma_running_after_monotone(after, s, i + 1, s.len() as int);
    }
}

/// What the machine decides once a page's new events have been selected.
pub open spec fn after_page(
    phase: StreamPhase,
    requested_after: u64,
    new_after: u64,
    gap: bool,
    retained_from: u64,
    latest: u64,
    has_next: bool,
    terminal: Option<TaskState>,
) -> (StreamPhase, StreamNext) {
    if gap {
        (
            StreamPhase::Done,
            StreamNext::Fail(
                if phase is FinalFetch {
                    StreamFailure::PrunedWhileIdle
                } else {
                    StreamFailure::Stale { requested_after, retained_from, latest }
                },
            ),
        )
    } else if has_next && !(phase is FinalFetch) {
        (StreamPhase::Fetching, StreamNext::Fetch)
    } else if terminal is Some && new_after >= latest {
        (StreamPhase::Done, StreamNext::End(terminal->0))
    } else if phase is FinalFetch {
        (StreamPhase::Done, StreamNext::Fail(StreamFailure::IdleTimeout))
    } else {
        (StreamPhase::Waiting, StreamNext::Wait)
    }
}

impl TaskEventStream {
    /// Starts following from `after_sequence` (from the beginning when absent):
    /// the first thing to do is to fetch a page.
    pub fn start(after_sequence: Option<u64>) -> (r: (TaskEventStream, StreamNext))
        ensures
            r.0.after == (match after_sequence {
                Some(a) => a,
                None => 0,
            }),
            r.0.phase is Fetching,
            r.1 is Fetch,
    {
        let after = match after_sequence {
            Some(a) => a,
            None => 0,
        };
        (TaskEventStream { after, phase: StreamPhase::Fetching }, StreamNext::Fetch)
    }

    /// Handles the page fetched in `Fetching` or `FinalFetch`: returns the
    /// positions of the events to write now and what to do next. A page that
    /// reports a gap writes nothing.
    pub fn on_page(&mut self, page: &Result<StreamPage, SemanticErrorCode>) -> (r: (Vec<usize>, StreamNext))
        requires
            old(self).phase is Fetching || old(self).phase is FinalFetch,
        ensures
            match page {
                Err(c) => r.0@.len() == 0 && r.1 == StreamNext::Fail(StreamFailure::Fetch(*c))
                    && final(self).phase is Done && final(self).after == old(self).after,
                Ok(p) => if p.gap_before_page {
                    r.0@.len() == 0 && final(self).after == old(self).after && (final(self).phase, r.1)
                        == after_page(
                        old(self).phase,
                        old(self).after,
                        old(self).after,
                        true,
                        p.retained_from_sequence,
                        p.latest_sequence,
                        p.has_next,
                        p.terminal_state,
                    )
                } else {
                    selects(old(self).after, p.sequences@, r.0@) && final(self).after == running_after(
                        old(self).after,
                        p.sequences@,
                        p.sequences@.len() as int,
                    ) && (final(self).phase, r.1) == after_page(
                        old(self).phase,
                        old(self).after,
                        final(self).after,
                        false,
                        p.retained_from_sequence,
                        p.latest_sequence,
                        p.has_next,
                        p.terminal_state,
                    )
                },
            },
    {
        match page {
            Err(c) => {
                self.phase = StreamPhase::Done;
                (Vec::new(), StreamNext::Fail(StreamFailure::Fetch(*c)))
            },
            Ok(p) => {
                let requested = self.after;
                if p.gap_before_page {
                    let failure = if self.phase == StreamPhase::FinalFetch {
                        StreamFailure::PrunedWhileIdle
                    } else {
                        StreamFailure::Stale {
                            requested_after: requested,
                            retained_from: p.retained_from_sequence,
                            latest: p.latest_sequence,
                        }
                    };
                    self.phase = StreamPhase::Done;
                    return (Vec::new(), StreamNext::Fail(failure));
                }
                let (idx, new_after) = select_new_events(requested, &p.sequences);
                self.after = new_after;
                let final_fetch = self.phase == StreamPhase::FinalFetch;
                let next = if p.has_next && !final_fetch {
                    self.phase = StreamPhase::Fetching;
                    StreamNext::Fetch
                } else {
                    match p.terminal_state {
                        Some(t) => if new_after >= p.latest_sequence {
                            self.phase = StreamPhase::Done;
                            StreamNext::End(t)
                        } else if final_fetch {
                            self.phase = StreamPhase::Done;
                            StreamNext::Fail(StreamFailure::IdleTimeout)
                        } else {
                            self.phase = StreamPhase::Waiting;
                            StreamNext::Wait
                        },
                        None => if final_fetch {
                            self.phase = StreamPhase::Done;
                            StreamNext::Fail(StreamFailure::IdleTimeout)
                        } else {
                            self.phase = StreamPhase::Waiting;
                            StreamNext::Wait
                        },
                    }
                };
                (idx, next)
            },
        }
    }

    /// Handles the end of a wait: a wake-up fetches again, the idle timeout
    /// fetches one last page, a lost wake-up channel ends the stream.
    pub fn on_wait(&mut self, outcome: WaitOutcome) -> (r: StreamNext)
        requires
            old(self).phase is Waiting,
        ensures
            final(self).after == old(self).after,
            match outcome {
                WaitOutcome::Woken => final(self).phase is Fetching && r is Fetch,
                WaitOutcome::TimedOut => final(self).phase is FinalFetch && r is Fetch,
                WaitOutcome::Disconnected => final(self).phase is Done && r == StreamNext::Fail(
                    StreamFailure::WakeupLost,
                ),
            },
    {
        match outcome {
            WaitOutcome::Woken => {
                self.phase = StreamPhase::Fetching;
                StreamNext::Fetch
            },
            WaitOutcome::TimedOut => {
                self.phase = StreamPhase::FinalFetch;
                StreamNext::Fetch
            },
            WaitOutcome::Disconnected => {
                self.phase = StreamPhase::Done;
                StreamNext::Fail(StreamFailure::WakeupLost)
            },
        }
    }
}

/// Law: a stream ends normally only with the task terminal and every event up
/// to the latest written; a gap is always answered as a stale resource.
pub proof fn law_stream_ends_only_when_caught_up(
    phase: StreamPhase,
    requested_after: u64,
    new_after: u64,
    gap: bool,
    retained_from: u64,
    latest: u64,
    has_next: bool,
    terminal: Option<TaskState>,
)
    ensures
        ({
            let (_, next) = after_page(phase, requested_after, new_after, gap, retained_from, latest, has_next, terminal);
            (next is End ==> !gap && terminal == Some(next->End_0) && new_after >= latest)
                && (gap ==> next is Fail && failure_code(next->Fail_0) == SemanticErrorCode::StaleResource)
        }),
{
}

} // verus!
