//! The activation registry: per-thread state that correlates hits with the
//! currently active checks, together with the enablement gate that lets the
//! hit dispatcher return at once when no check is active.

use vstd::prelude::*;

verus! {

use vstd::pervasive::VecAdditionalExecFns;

/// Mathematical model of one active check: the mark it watches, the hits it
/// has observed so far, and the expected policy (`None` for "at least one",
/// `Some(n)` for "exactly n").
pub struct RecordView {
    pub mark: Seq<char>,
    pub hits: usize,
    pub expected: Option<usize>,
}

/// Saturating increment: one more hit, capped at `usize::MAX` so a
/// pathological number of hits cannot wrap around to a false count.
pub open spec fn sat_inc(h: usize) -> usize {
    if h < usize::MAX {
        (h + 1) as usize
    } else {
        usize::MAX
    }
}

/// What a single hit of mark `m` does to one record: the counter of a record
/// watching `m` goes up by one (saturating); any other record is untouched.
pub open spec fn record_hit(r: RecordView, m: Seq<char>) -> RecordView {
    if r.mark == m {
        RecordView { mark: r.mark, hits: sat_inc(r.hits), expected: r.expected }
    } else {
        r
    }
}

/// What a single hit of mark `m` does to a whole stack of active checks:
/// every matching record is incremented, not just the innermost, so nested
/// checks on the same mark each observe the hit.
pub open spec fn dispatch(s: Seq<RecordView>, m: Seq<char>) -> Seq<RecordView> {
    s.map_values(|r: RecordView| record_hit(r, m))
}

/// Relies on `str`'s `PartialEq`: two string slices are equal exactly when
/// their character sequences are equal.
#[verifier::external_body]
pub(crate) fn str_eq(a: &str, b: &str) -> (r: bool)
    ensures
        r == (a@ == b@),
{
    a == b
}

/// The enablement gate: a count of the currently active checks, sitting on
/// the fast path of every `hit` call. Incremented on guard entry, decremented
/// on guard exit, queried by the dispatcher.
pub struct Gate {
    level: usize,
}

impl Gate {
    /// The number of checks the enablement gate believes are active.
    pub closed spec fn count(&self) -> int {
        self.level as int
    }

    /// A fresh gate: no check is active.
    pub fn new() -> (g: Gate)
        ensures
            g.count() == 0,
    {
        Gate { level: 0 }
    }

    /// One more check is active.
    pub fn increment(&mut self)
        requires
            old(self).count() < usize::MAX,
        ensures
            final(self).count() == old(self).count() + 1,
    {
        self.level = self.level + 1;
    }

    /// One check fewer is active. Saturates at zero: a spurious decrement
    /// cannot wrap the count around.
    pub fn decrement(&mut self)
        ensures
            final(self).count() == (if old(self).count() > 0 {
                old(self).count() - 1
            } else {
                0
            }),
    {
        if self.level > 0 {
            self.level = self.level - 1;
        }
    }

    /// Whether any check is active: the only question the hit dispatcher asks.
    pub fn is_active(&self) -> (b: bool)
        ensures
            b == (self.count() > 0),
    {
        self.level > 0
    }
}

/// One currently active check: the record a guard registers on entry and
/// takes back on exit.
#[derive(Clone, Copy)]
pub struct CheckRecord {
    mark: &'static str,
    hits: usize,
    expected: Option<usize>,
}

impl View for CheckRecord {
    type V = RecordView;

    closed spec fn view(&self) -> RecordView {
        RecordView { mark: self.mark@, hits: self.hits, expected: self.expected }
    }
}

impl CheckRecord {
    /// A fresh record: no hit observed yet.
    pub(crate) fn new(mark: &'static str, expected: Option<usize>) -> (r: CheckRecord)
        ensures
            r@ == (RecordView { mark: mark@, hits: 0, expected }),
    {
        CheckRecord { mark, hits: 0, expected }
    }

    /// The mark this record watches.
    pub(crate) fn mark(&self) -> (m: &'static str)
        ensures
            m@ == self@.mark,
    {
        self.mark
    }

    /// The hits observed so far.
    pub(crate) fn hits(&self) -> (h: usize)
        ensures
            h == self@.hits,
    {
        self.hits
    }

    /// The expected policy this record was entered with.
    pub(crate) fn expected(&self) -> (e: Option<usize>)
        ensures
            e == self@.expected,
    {
        self.expected
    }

    /// One hit of `key` arrives: the record after it, per `record_hit`.
    pub(crate) fn hit(&self, key: &str) -> (r: CheckRecord)
        ensures
            r@ == record_hit(self@, key@),
    {
        if str_eq(self.mark, key) {
            CheckRecord {
                mark: self.mark,
                hits: self.hits.saturating_add(1),
                expected: self.expected,
            }
        } else {
            *self
        }
    }
}

/// The per-thread activation registry: the stack of currently active checks
/// on one thread, most recently entered last, plus the enablement gate.
///
/// Each thread owns its own registry and hands it explicitly to `hit` and to
/// the guards it enters; a hit recorded against one registry is invisible to
/// every other, which is what keeps checks on different threads isolated.
pub struct Registry {
    gate: Gate,
    active: Vec<CheckRecord>,
}

impl View for Registry {
    type V = Seq<RecordView>;

    closed spec fn view(&self) -> Seq<RecordView> {
        self.active@.map_values(|r: CheckRecord| r@)
    }
}

impl Registry {
    /// The enablement gate's count of active checks.
    pub closed spec fn gate(&self) -> int {
        self.gate.count()
    }

    /// Well-formed: the enablement gate agrees with the stack. Holds of a fresh registry
    /// and is preserved by every operation.
    pub open spec fn wf(&self) -> bool {
        self.gate() == self@.len()
    }

    /// A fresh registry: no check is active. Each thread starts with one.
    pub fn new() -> (r: Registry)
        ensures
            r@ == Seq::<RecordView>::empty(),
            r.gate() == 0,
            r.wf(),
    {
        Registry { gate: Gate::new(), active: Vec::new() }
    }

    /// How many checks are currently active on this registry.
    pub fn record_count(&self) -> (n: usize)
        ensures
            n == self@.len(),
    {
        self.active.len()
    }

    /// Whether any check is active, as the enablement gate sees it.
    pub fn is_active(&self) -> (b: bool)
        ensures
            b == (self.gate() > 0),
    {
        self.gate.is_active()
    }

    /// Register a newly entered check: push its record on the stack and raise
    /// the enablement gate. Called only by guard entry.
    pub(crate) fn push_record(&mut self, rec: CheckRecord)
        requires
            old(self).wf(),
        ensures
            final(self).wf(),
            final(self)@ == old(self)@.push(rec@),
            final(self).gate() == old(self).gate() + 1,
    {
        self.active.push(rec);
        proof {
            assert(self@ =~= old(self)@.push(rec@));
        }
        let n = self.active.len();
        proof {
            assert(n == old(self)@.len() + 1);
        }
        self.gate.increment();
    }

    /// Deregister the most recently entered check: lower the enablement gate and pop the
    /// top record, if any. Called only by guard exit; the caller judges
    /// whether the popped record is its own.
    pub(crate) fn pop_record(&mut self) -> (r: Option<CheckRecord>)
        requires
            old(self).wf(),
        ensures
            final(self).wf(),
            old(self)@.len() == 0 ==> r is None && final(self)@ == old(self)@,
            old(self)@.len() > 0 ==> (r matches Some(rec) && rec@ == old(self)@.last()
                && final(self)@ == old(self)@.drop_last()
                && final(self).gate() == old(self).gate() - 1),
    {
        self.gate.decrement();
        let r = self.active.pop();
        proof {
            if old(self)@.len() > 0 {
                assert(self@ =~= old(self)@.drop_last());
            } else {
                assert(self@ =~= old(self)@);
            }
        }
        r
    }
}

/// Fire the mark `key` against the calling thread's registry. With no check
/// active this is a no-op behind a single gate query; otherwise every active
/// check watching `key` counts one more hit. Never fails: a mark no check is
/// watching is silently ignored.
pub fn hit(reg: &mut Registry, key: &'static str)
    requires
        old(reg).wf(),
    ensures
        final(reg).wf(),
        final(reg)@ == dispatch(old(reg)@, key@),
        final(reg).gate() == old(reg).gate(),
{
    if reg.gate.is_active() {
        let ghost s0 = reg@;
        let ghost gate0 = reg.gate();
        let n = reg.active.len();
        let mut i: usize = 0;
        while i < n
            invariant
                i <= n,
                n == reg.active@.len(),
                reg.gate() == gate0,
                reg@.len() == n,
                s0.len() == n,
                forall|j: int| 0 <= j < i ==> reg@[j] == record_hit(s0[j], key@),
                forall|j: int| i <= j < n ==> reg@[j] == s0[j],
            decreases n - i,
        {
            let ghost before = reg.active@;
            let updated = reg.active[i].hit(key);
            reg.active.set(i, updated);
            proof {
                assert(reg.active@ == before.update(i as int, updated));
                assert forall|j: int| 0 <= j < n implies reg@[j] == (if j == i {
                    record_hit(s0[j], key@)
                } else {
                    before.map_values(|r: CheckRecord| r@)[j]
                }) by {
                    assert(reg@[j] == reg.active@[j]@);
                    if j == i {
                        assert(reg.active@[j] == updated);
                        assert(before[j]@ == s0[j]);
                    } else {
                        assert(reg.active@[j] == before[j]);
                    }
                }
            }
            i = i + 1;
        }
        proof {
            assert(reg@ =~= dispatch(s0, key@));
        }
    } else {
        proof {
            assert(reg@ =~= dispatch(old(reg)@, key@));
        }
    }
}

} // verus!
