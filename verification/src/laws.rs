//! The properties the library guarantees, proved over the same spec
//! functions its contracts use: a run of hits is a fold of `dispatch`, and a
//! guard's verdict at the end of a run is `spec_exit`.

use vstd::prelude::*;

verus! {

use crate::guard::GuardView;
use crate::guard::fresh_record;
use crate::guard::guard_matches;
use crate::guard::spec_exit;
use crate::outcome::OutcomeView;
use crate::registry::RecordView;
use crate::registry::dispatch;
use crate::registry::record_hit;

/// Saturating addition: `k` more hits on a counter standing at `h`, capped
/// at `usize::MAX` (meaningful for `h, k >= 0`).
pub open spec fn sat_add(h: int, k: int) -> int {
    if h + k > usize::MAX {
        usize::MAX as int
    } else {
        h + k
    }
}

/// The stack of active checks after the hits in `marks` fire in order on the
/// calling thread.
pub open spec fn run_hits(s: Seq<RecordView>, marks: Seq<Seq<char>>) -> Seq<RecordView>
    decreases marks.len(),
{
    if marks.len() == 0 {
        s
    } else {
        run_hits(dispatch(s, marks[0]), marks.drop_first())
    }
}

/// How many of the hits in `marks` fire the mark `m`.
pub open spec fn count_matching(marks: Seq<Seq<char>>, m: Seq<char>) -> nat
    decreases marks.len(),
{
    if marks.len() == 0 {
        0nat
    } else {
        (if marks[0] == m {
            1nat
        } else {
            0nat
        }) + count_matching(marks.drop_first(), m)
    }
}

/// A run of hits never adds, removes or reorders records and never changes a
/// record's mark or policy; it raises each record's counter by the number of
/// hits firing that record's mark, saturating at `usize::MAX`.
pub proof fn lemma_run_hits_record(s: Seq<RecordView>, marks: Seq<Seq<char>>, i: int)
    requires
        0 <= i < s.len(),
    ensures
        run_hits(s, marks).len() == s.len(),
        run_hits(s, marks)[i].mark == s[i].mark,
        run_hits(s, marks)[i].expected == s[i].expected,
        run_hits(s, marks)[i].hits == sat_add(
            s[i].hits as int,
            count_matching(marks, s[i].mark) as int,
        ),
    decreases marks.len(),
{
    if marks.len() == 0 {
    } else {
        let s1 = dispatch(s, marks[0]);
        assert(s1[i] == record_hit(s[i], marks[0]));
        lemma_run_hits_record(s1, marks.drop_first(), i);
    }
}

/// A check entered with no expected count passes at exit exactly when its
/// mark was hit at least once on its own thread while it was active; with no
/// such hit it reports the mark as never hit.
pub proof fn lemma_check_passes_iff_hit(s0: Seq<RecordView>, mark: Seq<char>, marks: Seq<Seq<char>>)
    ensures
        ({
            let entered = s0.push(fresh_record(mark, Option::None));
            let g = GuardView { mark, expected_hits: Option::None, depth: s0.len() as int };
            spec_exit(run_hits(entered, marks), g, false) == (if count_matching(marks, mark) > 0 {
                OutcomeView::Pass
            } else {
                OutcomeView::MarkNeverHit { mark }
            })
        }),
{
    let entered = s0.push(fresh_record(mark, Option::None));
    let i = s0.len() as int;
    lemma_run_hits_record(entered, marks, i);
    let at_exit = run_hits(entered, marks);
    assert(at_exit.last() == at_exit[i]);
}

/// A check entered with an exact expected count `n` passes at exit exactly
/// when the number of same-thread hits of its mark while it was active is
/// exactly `n`; any other count is reported with both numbers. Stated for
/// runs whose matching hits fit the counter, which cannot saturate then.
pub proof fn lemma_check_count_exact(
    s0: Seq<RecordView>,
    mark: Seq<char>,
    marks: Seq<Seq<char>>,
    n: usize,
)
    requires
        count_matching(marks, mark) <= usize::MAX,
    ensures
        ({
            let entered = s0.push(fresh_record(mark, Option::Some(n)));
            let g = GuardView { mark, expected_hits: Option::Some(n), depth: s0.len() as int };
            spec_exit(run_hits(entered, marks), g, false) == (if count_matching(marks, mark)
                == n {
                OutcomeView::Pass
            } else {
                OutcomeView::MarkHitWrongCount {
                    mark,
                    observed: count_matching(marks, mark) as usize,
                    expected: n,
                }
            })
        }),
{
    let entered = s0.push(fresh_record(mark, Option::Some(n)));
    let i = s0.len() as int;
    lemma_run_hits_record(entered, marks, i);
    let at_exit = run_hits(entered, marks);
    assert(at_exit.last() == at_exit[i]);
}

/// Nesting: two active checks on the same mark — at any two depths of the
/// same thread's stack — each observe every hit of that mark. Starting from
/// equal counters they end with equal counters, raised by the full number of
/// matching hits.
pub proof fn lemma_nested_checks_both_observe(
    s: Seq<RecordView>,
    marks: Seq<Seq<char>>,
    i: int,
    j: int,
)
    requires
        0 <= i < s.len(),
        0 <= j < s.len(),
        s[i].mark == s[j].mark,
        s[i].hits == s[j].hits,
    ensures
        run_hits(s, marks)[i].hits == run_hits(s, marks)[j].hits,
        run_hits(s, marks)[i].hits == sat_add(
            s[i].hits as int,
            count_matching(marks, s[i].mark) as int,
        ),
{
    lemma_run_hits_record(s, marks, i);
    lemma_run_hits_record(s, marks, j);
}

/// One hit event in a process-wide run: the thread that produced it and the
/// mark it fired.
pub struct HitEvent {
    pub thread: int,
    pub mark: Seq<char>,
}

/// The registry of thread `t` after a process-wide run of events: each event
/// is dispatched to the registry of the thread that produced it, so only the
/// events of thread `t` touch this one.
pub open spec fn run_events(s: Seq<RecordView>, events: Seq<HitEvent>, t: int) -> Seq<RecordView>
    decreases events.len(),
{
    if events.len() == 0 {
        s
    } else {
        run_events(
            if events[0].thread == t {
                dispatch(s, events[0].mark)
            } else {
                s
            },
            events.drop_first(),
            t,
        )
    }
}

/// Thread isolation, first half: hits produced on other threads leave a
/// thread's registry exactly as it was, whatever the marks.
pub proof fn lemma_thread_isolation(s: Seq<RecordView>, events: Seq<HitEvent>, t: int)
    requires
        forall|k: int| 0 <= k < events.len() ==> events[k].thread != t,
    ensures
        run_events(s, events, t) == s,
    decreases events.len(),
{
    if events.len() == 0 {
    } else {
        assert forall|k: int| 0 <= k < events.drop_first().len() implies events.drop_first()[k].thread
            != t by {
            assert(events.drop_first()[k] == events[k + 1]);
        }
        lemma_thread_isolation(s, events.drop_first(), t);
    }
}

/// Thread isolation, second half: a check entered on thread `t` is never
/// satisfied by hits from other threads. If every event of the run was
/// produced elsewhere — even events firing the very same mark — the check
/// still reports its mark as never hit.
pub proof fn lemma_foreign_hits_unobserved(
    s0: Seq<RecordView>,
    mark: Seq<char>,
    events: Seq<HitEvent>,
    t: int,
)
    requires
        forall|k: int| 0 <= k < events.len() ==> events[k].thread != t,
    ensures
        ({
            let entered = s0.push(fresh_record(mark, Option::None));
            let g = GuardView { mark, expected_hits: Option::None, depth: s0.len() as int };
            spec_exit(run_events(entered, events, t), g, false) == (OutcomeView::MarkNeverHit {
                mark,
            })
        }),
{
    let entered = s0.push(fresh_record(mark, Option::None));
    lemma_thread_isolation(entered, events, t);
}

/// Suppression on unwind: when the scope exits through an unrelated failure,
/// a properly nested guard reports `Suppressed` — never a verdict of its own
/// that could mask or compound the original failure — whatever its counters
/// say; the bookkeeping still happens, as `Guard::exit` ensures.
pub proof fn lemma_unwind_suppresses(s: Seq<RecordView>, g: GuardView)
    requires
        guard_matches(s, g),
    ensures
        spec_exit(s, g, true) == OutcomeView::Suppressed,
{
}

} // verus!
