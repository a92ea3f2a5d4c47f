//! The result a check guard reports at scope exit, and the exact text of the
//! failure messages, down to the decimal rendering of the counts.

use vstd::prelude::*;

verus! {

use vstd::string::StringExecFns;

/// The decimal digit character for `d` (meaningful for `0 <= d <= 9`).
pub open spec fn digit_char(d: int) -> char {
    if d == 0 {
        '0'
    } else if d == 1 {
        '1'
    } else if d == 2 {
        '2'
    } else if d == 3 {
        '3'
    } else if d == 4 {
        '4'
    } else if d == 5 {
        '5'
    } else if d == 6 {
        '6'
    } else if d == 7 {
        '7'
    } else if d == 8 {
        '8'
    } else {
        '9'
    }
}

/// The decimal rendering of `n`, most significant digit first, without
/// leading zeroes (meaningful for `n >= 0`).
pub open spec fn dec_digits(n: int) -> Seq<char>
    decreases n,
{
    if n < 10 {
        seq![digit_char(n)]
    } else {
        dec_digits(n / 10).push(digit_char(n % 10))
    }
}

/// The single-character string literal for the digit `d`.
fn digit_literal(d: usize) -> (s: &'static str)
    requires
        d < 10,
    ensures
        s@ == seq![digit_char(d as int)],
{
    proof {
        reveal_strlit("0");
        reveal_strlit("1");
        reveal_strlit("2");
        reveal_strlit("3");
        reveal_strlit("4");
        reveal_strlit("5");
        reveal_strlit("6");
        reveal_strlit("7");
        reveal_strlit("8");
        reveal_strlit("9");
    }
    let s: &'static str = if d == 0 {
        "0"
    } else if d == 1 {
        "1"
    } else if d == 2 {
        "2"
    } else if d == 3 {
        "3"
    } else if d == 4 {
        "4"
    } else if d == 5 {
        "5"
    } else if d == 6 {
        "6"
    } else if d == 7 {
        "7"
    } else if d == 8 {
        "8"
    } else {
        "9"
    };
    proof {
        assert(s@ =~= seq![digit_char(d as int)]);
    }
    s
}

/// Append the decimal rendering of `n` to `out`.
pub fn push_decimal(out: &mut String, n: usize)
    ensures
        final(out)@ == old(out)@ + dec_digits(n as int),
    decreases n,
{
    if n >= 10 {
        push_decimal(out, n / 10);
        let s = digit_literal(n % 10);
        out.append(s);
        proof {
            assert(out@ =~= old(out)@ + dec_digits(n as int));
        }
    } else {
        let s = digit_literal(n);
        out.append(s);
        proof {
            assert(out@ =~= old(out)@ + dec_digits(n as int));
        }
    }
}

/// The message of a check whose mark was never hit.
pub open spec fn never_hit_message(mark: Seq<char>) -> Seq<char> {
    mark + " mark was not hit"@
}

/// The message of a check whose mark was hit the wrong number of times.
pub open spec fn wrong_count_message(mark: Seq<char>, observed: int, expected: int) -> Seq<char> {
    mark + " mark was hit "@ + dec_digits(observed) + " times, expected "@ + dec_digits(expected)
}

/// The message of a guard whose record was not on top of the stack at exit.
pub open spec fn order_violation_message(mark: Seq<char>) -> Seq<char> {
    mark + " check guard exited out of order"@
}

/// Mathematical model of an [`Outcome`]: the same variants over character
/// sequences.
pub enum OutcomeView {
    Pass,
    Suppressed,
    MarkNeverHit { mark: Seq<char> },
    MarkHitWrongCount { mark: Seq<char>, observed: usize, expected: usize },
    RegistryOrderViolation { mark: Seq<char> },
}

/// What a check guard found when its scope ended.
///
/// A failing check is reported as a value rather than raised here, so that
/// the caller's harness can surface it through whatever failure channel the
/// enclosing test uses.
pub enum Outcome {
    /// The observed hits satisfied the expected policy.
    Pass,
    /// The scope was already unwinding from an unrelated failure, so the
    /// check's own verdict was withheld to avoid masking that failure.
    Suppressed,
    /// A check entered with no expected count saw no hit at all.
    MarkNeverHit { mark: &'static str },
    /// A check entered with an exact expected count saw a different count.
    MarkHitWrongCount { mark: &'static str, observed: usize, expected: usize },
    /// The record on top of the stack at exit was not the guard's own:
    /// guards were dropped out of order, or a guard outlived its scope.
    /// Reported even during unwinding, since it corrupts later checks.
    RegistryOrderViolation { mark: &'static str },
}

impl View for Outcome {
    type V = OutcomeView;

    open spec fn view(&self) -> OutcomeView {
        match self {
            Outcome::Pass => OutcomeView::Pass,
            Outcome::Suppressed => OutcomeView::Suppressed,
            Outcome::MarkNeverHit { mark } => OutcomeView::MarkNeverHit { mark: mark@ },
            Outcome::MarkHitWrongCount { mark, observed, expected } => (
            OutcomeView::MarkHitWrongCount {
                mark: mark@,
                observed: *observed,
                expected: *expected,
            }),
            Outcome::RegistryOrderViolation { mark } => (OutcomeView::RegistryOrderViolation {
                mark: mark@,
            }),
        }
    }
}

impl Outcome {
    /// Whether the check passed.
    pub fn is_pass(&self) -> (b: bool)
        ensures
            b == (self@ is Pass),
    {
        matches!(self, Outcome::Pass)
    }

    /// The failure message a harness should report: `None` when there is
    /// nothing to report (a pass, or a verdict suppressed by unwinding).
    pub fn failure_message(&self) -> (m: Option<String>)
        ensures
            (match self@ {
                OutcomeView::Pass => m is None,
                OutcomeView::Suppressed => m is None,
                OutcomeView::MarkNeverHit { mark } => (m matches Some(t) && t@
                    == never_hit_message(mark)),
                OutcomeView::MarkHitWrongCount { mark, observed, expected } => (m matches Some(t)
                    && t@ == wrong_count_message(mark, observed as int, expected as int)),
                OutcomeView::RegistryOrderViolation { mark } => (m matches Some(t) && t@
                    == order_violation_message(mark)),
            }),
    {
        match self {
            Outcome::Pass => None,
            Outcome::Suppressed => None,
            Outcome::MarkNeverHit { mark } => {
                let mut s = (*mark).to_owned();
                s.append(" mark was not hit");
                Some(s)
            },
            Outcome::MarkHitWrongCount { mark, observed, expected } => {
                let mut s = (*mark).to_owned();
                s.append(" mark was hit ");
                push_decimal(&mut s, *observed);
                s.append(" times, expected ");
                push_decimal(&mut s, *expected);
                Some(s)
            },
            Outcome::RegistryOrderViolation { mark } => {
                let mut s = (*mark).to_owned();
                s.append(" check guard exited out of order");
                Some(s)
            },
        }
    }
}

} // verus!
