//! The reporter: aggregate the verdicts of a run into counts, an exact
//! coverage figure, and a process status.

use vstd::prelude::*;
use vstd::arithmetic::div_mod::lemma_multiply_divide_lt;
use crate::classify::{FailReason, TestResult};

verus! {

/// The verdict counts as a pass.
pub open spec fn is_pass(t: TestResult) -> bool {
    t.fail is None
}

/// The verdict counts as a failure with diagnostics: the parse finished but
/// did not match the declared expectation.
pub open spec fn is_errored(t: TestResult) -> bool {
    match t.fail {
        Some(reason) => reason is IncorrectlyPassed || reason is IncorrectlyErrored,
        None => false,
    }
}

/// The verdict counts as a crash: the parser raised a fault.
pub open spec fn is_panicked(t: TestResult) -> bool {
    match t.fail {
        Some(reason) => reason is ParserPanic,
        None => false,
    }
}

pub open spec fn count_passed(s: Seq<TestResult>) -> int
    decreases s.len(),
{
    if s.len() == 0 {
        0
    } else {
        count_passed(s.drop_last()) + if is_pass(s.last()) {
            1int
        } else {
            0int
        }
    }
}

pub open spec fn count_errored(s: Seq<TestResult>) -> int
    decreases s.len(),
{
    if s.len() == 0 {
        0
    } else {
        count_errored(s.drop_last()) + if is_errored(s.last()) {
            1int
        } else {
            0int
        }
    }
}

pub open spec fn count_panicked(s: Seq<TestResult>) -> int
    decreases s.len(),
{
    if s.len() == 0 {
        0
    } else {
        count_panicked(s.drop_last()) + if is_panicked(s.last()) {
            1int
        } else {
            0int
        }
    }
}

/// Coverage as a whole number of hundredths of a percent:
/// 100 × passed ∕ ran, carried to two decimals and rounded to the nearest
/// hundredth, halves up.
pub open spec fn spec_coverage_hundredths(passed: int, ran: int) -> int
    recommends
        ran > 0,
{
    (20000 * passed + ran) / (2 * ran)
}

/// The aggregate of one run: how many tests ran, how each verdict fell, and
/// the coverage percentage in hundredths.
pub struct Report {
    pub ran: usize,
    pub passed: usize,
    pub errored: usize,
    pub panicked: usize,
    pub coverage_hundredths: u64,
}

impl Report {
    /// The report is the faithful aggregate of the given verdicts.
    pub open spec fn spec_of(self, s: Seq<TestResult>) -> bool {
        &&& self.ran == s.len()
        &&& self.passed == count_passed(s)
        &&& self.errored == count_errored(s)
        &&& self.panicked == count_panicked(s)
        &&& self.coverage_hundredths == if s.len() == 0 {
            0int
        } else {
            spec_coverage_hundredths(count_passed(s), s.len() as int)
        }
    }

    /// The process status for this report, deliberately in the conventional
    /// sense: zero exactly when no test failed. (An inverted policy —
    /// signalling failure whenever any test passed — would defeat the
    /// harness's use in automation.)
    pub fn exit_code(&self) -> (r: i32)
        ensures
            r == 0 <==> (self.errored == 0 && self.panicked == 0),
            r == 0 || r == 1,
    {
        if self.errored == 0 && self.panicked == 0 {
            0
        } else {
            1
        }
    }
}

/// Aggregate the verdicts of one run: exact counts of passed, errored and
/// crashed tests — one per verdict, no loss, no duplication — and the
/// coverage figure in hundredths of a percent.
pub fn aggregate(results: &Vec<TestResult>) -> (rep: Report)
    ensures
        rep.spec_of(results@),
        rep.passed + rep.errored + rep.panicked == rep.ran,
        rep.coverage_hundredths <= 10000,
{
    let mut passed: usize = 0;
    let mut errored: usize = 0;
    let mut panicked: usize = 0;
    let mut i: usize = 0;
    while i < results.len()
        invariant
            i <= results@.len(),
            passed == count_passed(results@.take(i as int)),
            errored == count_errored(results@.take(i as int)),
            panicked == count_panicked(results@.take(i as int)),
            passed + errored + panicked == i,
        decreases results@.len() - i,
    {
        proof {
            assert(results@.take(i + 1).drop_last() =~= results@.take(i as int));
            assert(results@.take(i + 1).last() == results@[i as int]);
        }
        match &results[i].fail {
            None => {
                passed += 1;
            },
            Some(FailReason::IncorrectlyPassed) => {
                errored += 1;
            },
            Some(FailReason::IncorrectlyErrored(_)) => {
                errored += 1;
            },
            Some(FailReason::ParserPanic(_)) => {
                panicked += 1;
            },
        }
        i += 1;
    }
    proof {
        assert(results@.take(results@.len() as int) =~= results@);
    }
    let ran = results.len();
    let coverage_hundredths: u64 = if ran == 0 {
        0
    } else {
        let num: u128 = (passed as u128) * 20000 + (ran as u128);
        let den: u128 = 2 * (ran as u128);
        let q: u128 = num / den;
        proof {
            assert(den * 10001 == 20002 * (ran as int));
            assert(num < den * 10001);
            lemma_multiply_divide_lt(num as int, den as int, 10001);
        }
        q as u64
    };
    Report { ran, passed, errored, panicked, coverage_hundredths }
}

} // verus!
