//! The check guard: entering a check registers a record on the calling
//! thread's registry; exiting deregisters it and judges the observed hits
//! against the expected policy.

use vstd::prelude::*;

verus! {

use crate::outcome::Outcome;
use crate::outcome::OutcomeView;
use crate::registry::RecordView;
use crate::registry::Registry;

/// Mathematical model of a live guard: the mark it checks, its expected
/// policy, and the depth at which its record sits on the stack.
pub struct GuardView {
    pub mark: Seq<char>,
    pub expected_hits: Option<usize>,
    pub depth: int,
}

/// The record a freshly entered check contributes to the stack.
pub open spec fn fresh_record(mark: Seq<char>, expected: Option<usize>) -> RecordView {
    RecordView { mark, hits: 0, expected }
}

/// Whether the record a guard finds at exit is its own: the stack still ends
/// at the guard's depth and the top record carries the guard's mark and
/// policy. Anything else means guards were destroyed out of LIFO order.
pub open spec fn guard_matches(s: Seq<RecordView>, g: GuardView) -> bool {
    &&& s.len() > 0
    &&& g.depth == s.len() - 1
    &&& s.last().mark == g.mark
    &&& s.last().expected == g.expected_hits
}

/// The stack after a guard's bookkeeping: the top record is gone. The
/// bookkeeping happens on every exit path, so later checks on the same
/// thread stay consistent.
pub open spec fn exit_stack(s: Seq<RecordView>) -> Seq<RecordView> {
    if s.len() > 0 {
        s.drop_last()
    } else {
        s
    }
}

/// The verdict on one finished record: with no expected count the check
/// passes exactly when the mark was hit at least once; with an expected
/// count it passes exactly when the observed count equals it.
pub open spec fn verdict(r: RecordView) -> OutcomeView {
    match r.expected {
        Option::None => if r.hits > 0 {
            OutcomeView::Pass
        } else {
            OutcomeView::MarkNeverHit { mark: r.mark }
        },
        Option::Some(n) => if r.hits == n {
            OutcomeView::Pass
        } else {
            OutcomeView::MarkHitWrongCount { mark: r.mark, observed: r.hits, expected: n }
        },
    }
}

/// What a guard reports when it exits over stack `s`: an order violation is
/// reported first and unconditionally, even during unwinding; an unwinding
/// exit otherwise suppresses the verdict; a plain exit reports the verdict.
pub open spec fn spec_exit(s: Seq<RecordView>, g: GuardView, unwinding: bool) -> OutcomeView {
    if !guard_matches(s, g) {
        OutcomeView::RegistryOrderViolation { mark: g.mark }
    } else if unwinding {
        OutcomeView::Suppressed
    } else {
        verdict(s.last())
    }
}

/// Whether two expected policies are the same.
fn expected_eq(a: Option<usize>, b: Option<usize>) -> (r: bool)
    ensures
        r == (a == b),
{
    match (a, b) {
        (Option::None, Option::None) => true,
        (Option::Some(x), Option::Some(y)) => x == y,
        _ => false,
    }
}

/// A scope-bound check on one mark. [`Guard::new`] is the only constructor,
/// so a guard is always live; [`Guard::exit`] consumes it, so it can report
/// only once. The caller brackets the checked scope with the two calls and
/// runs `exit` on every exit path.
pub struct Guard {
    mark: &'static str,
    expected_hits: Option<usize>,
    depth: usize,
}

impl View for Guard {
    type V = GuardView;

    closed spec fn view(&self) -> GuardView {
        GuardView {
            mark: self.mark@,
            expected_hits: self.expected_hits,
            depth: self.depth as int,
        }
    }
}

impl Guard {
    /// Enter a check: register a fresh record for `mark` on top of the
    /// calling thread's registry and raise the enablement gate. `expected_hits` of
    /// `None` asks for at least one hit by exit; `Some(n)` for exactly `n`.
    pub fn new(reg: &mut Registry, mark: &'static str, expected_hits: Option<usize>) -> (g: Guard)
        requires
            old(reg).wf(),
        ensures
            final(reg).wf(),
            final(reg)@ == old(reg)@.push(fresh_record(mark@, expected_hits)),
            final(reg).gate() == old(reg).gate() + 1,
            g@ == (GuardView { mark: mark@, expected_hits, depth: old(reg)@.len() as int }),
    {
        let depth = reg.record_count();
        let record = crate::registry::CheckRecord::new(mark, expected_hits);
        reg.push_record(record);
        Guard { mark, expected_hits, depth }
    }

    /// Exit the check: lower the enablement gate, pop the registry, and judge. The
    /// bookkeeping happens unconditionally; the verdict is the one
    /// [`spec_exit`] gives — an order violation whenever the popped record is
    /// not this guard's own, a suppressed verdict when `unwinding` says the
    /// scope is already failing for an unrelated reason, and otherwise pass
    /// or fail by the expected policy.
    pub fn exit(self, reg: &mut Registry, unwinding: bool) -> (o: Outcome)
        requires
            old(reg).wf(),
        ensures
            final(reg).wf(),
            final(reg)@ == exit_stack(old(reg)@),
            o@ == spec_exit(old(reg)@, self@, unwinding),
    {
        let popped = reg.pop_record();
        match popped {
            Option::None => Outcome::RegistryOrderViolation { mark: self.mark },
            Option::Some(rec) => {
                let own = self.depth == reg.record_count() && crate::registry::str_eq(
                    rec.mark(),
                    self.mark,
                ) && expected_eq(rec.expected(), self.expected_hits);
                if !own {
                    Outcome::RegistryOrderViolation { mark: self.mark }
                } else if unwinding {
                    Outcome::Suppressed
                } else {
                    match rec.expected() {
                        Option::None => {
                            if rec.hits() > 0 {
                                Outcome::Pass
                            } else {
                                Outcome::MarkNeverHit { mark: self.mark }
                            }
                        },
                        Option::Some(n) => {
                            if rec.hits() == n {
                                Outcome::Pass
                            } else {
                                Outcome::MarkHitWrongCount {
                                    mark: self.mark,
                                    observed: rec.hits(),
                                    expected: n,
                                }
                            }
                        },
                    }
                }
            },
        }
    }
}

} // verus!
