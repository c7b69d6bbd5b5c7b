//! The classifier: reconcile a test's declared expectations with the parse
//! outcomes its execution plan produced, and build its verdict.

use vstd::prelude::*;
use crate::outcome::{spec_plan, spec_prepared, plan_for, prepare_code, ExecPlan, ExecRes};
use crate::record::{MetaData, TestFile};

verus! {

/// Why a test failed.
pub enum FailReason {
    /// The parser succeeded where the test declares it must fail at parse time.
    IncorrectlyPassed,
    /// The parser reported diagnostics where the test expects a clean parse;
    /// they are kept for display.
    IncorrectlyErrored(Vec<rslint_errors::Diagnostic>),
    /// The parser raised an unrecoverable fault; the payload is kept as text
    /// when it could be read as text.
    ParserPanic(Option<String>),
}

/// The verdict for one test: `fail` is `None` exactly when the test passed.
/// `code` is the text as the last parse saw it (strict-mode directive
/// included), kept for diagnostic display.
pub struct TestResult {
    pub fail: Option<FailReason>,
    pub path: String,
    pub code: String,
}

/// The classification decision table: one parse outcome against whether the
/// test expects a parse-time failure. A fault is a failure whatever the
/// expectation; otherwise the outcome passes exactly when it matches the
/// expectation.
pub open spec fn spec_classify(res: ExecRes, meta: MetaData) -> Option<FailReason> {
    match res {
        ExecRes::ParserPanic(payload) => Some(FailReason::ParserPanic(payload)),
        ExecRes::ParseCorrectly => if meta.spec_expects_parse_failure() {
            Some(FailReason::IncorrectlyPassed)
        } else {
            None
        },
        ExecRes::Errors(diagnostics) => if meta.spec_expects_parse_failure() {
            None
        } else {
            Some(FailReason::IncorrectlyErrored(diagnostics))
        },
    }
}

/// Classify one parse outcome against the test's expectations: `None` when
/// the outcome conforms, otherwise the failure category of the decision
/// table.
pub fn passed(res: ExecRes, meta: &MetaData) -> (r: Option<FailReason>)
    ensures
        r == spec_classify(res, *meta),
{
    let should_fail = meta.expects_parse_failure();
    match res {
        ExecRes::ParserPanic(payload) => Some(FailReason::ParserPanic(payload)),
        ExecRes::ParseCorrectly => if should_fail {
            Some(FailReason::IncorrectlyPassed)
        } else {
            None
        },
        ExecRes::Errors(diagnostics) => if should_fail {
            None
        } else {
            Some(FailReason::IncorrectlyErrored(diagnostics))
        },
    }
}

/// The left-biased merge of the default dual run: the verdict passes only if
/// both runs pass, and the earliest failing run's category is reported, the
/// non-strict run (`l`) taking precedence over the strict run (`r`).
pub open spec fn spec_merge_fail(l: Option<FailReason>, r: Option<FailReason>) -> Option<
    FailReason,
> {
    if l is Some {
        l
    } else {
        r
    }
}

/// Merge the two classifications of a default dual run into one verdict.
/// `l` is the non-strict run's outcome, `r` the strict run's; `code` is the
/// strict-prepared text carried for display.
pub fn merge_tests(
    code: String,
    l: ExecRes,
    r: ExecRes,
    meta: &MetaData,
    path: String,
) -> (t: TestResult)
    ensures
        t.fail == spec_merge_fail(spec_classify(l, *meta), spec_classify(r, *meta)),
        t.path@ == path@,
        t.code@ == code@,
{
    let fail = match passed(l, meta) {
        Some(reason) => Some(reason),
        None => passed(r, meta),
    };
    TestResult { fail, path, code }
}

/// How many parse outcomes a record's plan calls for: two for the default
/// dual run, one otherwise.
pub open spec fn spec_wants_second(meta: MetaData) -> bool {
    spec_plan(meta) is Dual
}

/// The verdict's failure field as a function of the record's expectations
/// and the outcomes of its planned parses: a single run is classified
/// directly; the dual run is the left-biased merge of both classifications.
pub open spec fn spec_verdict_fail(
    meta: MetaData,
    first: ExecRes,
    second: Option<ExecRes>,
) -> Option<FailReason> {
    match spec_plan(meta) {
        ExecPlan::Single { .. } => spec_classify(first, meta),
        ExecPlan::Dual => match second {
            Some(sec) => spec_merge_fail(spec_classify(first, meta), spec_classify(sec, meta)),
            None => spec_classify(first, meta),
        },
    }
}

/// The code text a verdict carries: the text as the last planned parse saw
/// it. A single strict run and the dual run (whose second parse is strict)
/// carry the directive-prefixed text; the other single runs carry the text
/// unchanged.
pub open spec fn spec_verdict_code(code: Seq<char>, meta: MetaData) -> Seq<char> {
    match spec_plan(meta) {
        ExecPlan::Single { strict, .. } => spec_prepared(code, strict),
        ExecPlan::Dual => spec_prepared(code, true),
    }
}

/// Produce one test's verdict from the outcomes of its planned parses.
///
/// The caller runs the parses the record's plan calls for and hands the
/// outcomes in: `first` is the only run of a single-parse plan (on the
/// prepared code), or the non-strict run of the default dual plan (on the
/// code unchanged); `second` is the strict run of the dual plan (on the
/// directive-prefixed code), and is present exactly when the plan is dual.
pub fn run_test_file(file: TestFile, first: ExecRes, second: Option<ExecRes>) -> (t: TestResult)
    requires
        spec_wants_second(file.meta) <==> second is Some,
    ensures
        t.fail == spec_verdict_fail(file.meta, first, second),
        t.code@ == spec_verdict_code(file.code@, file.meta),
        t.path@ == file.path@,
{
    let TestFile { code, meta, path } = file;
    match plan_for(&meta) {
        ExecPlan::Single { strict, module: _ } => {
            let code = prepare_code(&code, strict);
            let fail = passed(first, &meta);
            TestResult { fail, path, code }
        },
        ExecPlan::Dual => {
            let code = prepare_code(&code, true);
            let sec = second.unwrap();
            merge_tests(code, first, sec, &meta, path)
        },
    }
}

/// Produce the verdicts of a whole submitted collection, one per record in
/// submission order: no record lost, none duplicated, and each verdict the
/// same pure function of its own record and outcomes whatever its place in
/// the collection. A worker pool delivering the same records computes the
/// same verdicts, only possibly in another order.
pub fn run_batch(jobs: Vec<(TestFile, ExecRes, Option<ExecRes>)>) -> (results: Vec<TestResult>)
    requires
        forall|i: int|
            0 <= i < jobs@.len() ==> (spec_wants_second(#[trigger] jobs@[i].0.meta) <==> jobs@[i].2
                is Some),
    ensures
        results@.len() == jobs@.len(),
        forall|i: int|
            0 <= i < jobs@.len() ==> {
                &&& (#[trigger] results@[i]).fail == spec_verdict_fail(
                    jobs@[i].0.meta,
                    jobs@[i].1,
                    jobs@[i].2,
                )
                &&& results@[i].code@ == spec_verdict_code(jobs@[i].0.code@, jobs@[i].0.meta)
                &&& results@[i].path@ == jobs@[i].0.path@
            },
{
    let ghost jobs0 = jobs@;
    let mut jobs = jobs;
    let mut results: Vec<TestResult> = Vec::new();
    while jobs.len() > 0
        invariant
            results@.len() + jobs@.len() == jobs0.len(),
            jobs@ =~= jobs0.skip(results@.len() as int),
            forall|i: int|
                0 <= i < jobs0.len() ==> (spec_wants_second(#[trigger] jobs0[i].0.meta)
                    <==> jobs0[i].2 is Some),
            forall|i: int|
                0 <= i < results@.len() ==> {
                    &&& (#[trigger] results@[i]).fail == spec_verdict_fail(
                        jobs0[i].0.meta,
                        jobs0[i].1,
                        jobs0[i].2,
                    )
                    &&& results@[i].code@ == spec_verdict_code(jobs0[i].0.code@, jobs0[i].0.meta)
                    &&& results@[i].path@ == jobs0[i].0.path@
                },
        decreases jobs@.len(),
    {
        proof {
            assert(jobs@[0] == jobs0[results@.len() as int]);
        }
        let (file, first, second) = jobs.remove(0);
        let verdict = run_test_file(file, first, second);
        results.push(verdict);
    }
    results
}

} // verus!
