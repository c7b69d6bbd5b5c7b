//! The scheduler property: fanning the same records out over worker pools
//! of different sizes yields the same verdict set — one verdict per record,
//! no loss, no duplication, content independent of scheduling order.

use coverage_harness::classify::{run_test_file, FailReason};
use coverage_harness::outcome::ExecRes;
use coverage_harness::record::{MetaData, Negative, Phase, TestFile, TestFlag};
use rayon::iter::{IntoParallelIterator, ParallelIterator};
use rayon::ThreadPoolBuilder;
use rslint_errors::Diagnostic;

fn record(
    name: &str,
    flags: Vec<TestFlag>,
    negative: Option<Negative>,
    first: ExecRes,
    second: Option<ExecRes>,
) -> (TestFile, ExecRes, Option<ExecRes>) {
    let file = TestFile {
        code: String::from("var x = 1;"),
        meta: MetaData { flags, negative },
        path: String::from(name),
    };
    (file, first, second)
}

fn jobs() -> Vec<(TestFile, ExecRes, Option<ExecRes>)> {
    let diag = || Diagnostic::error(0usize, "SyntaxError", "unexpected token");
    vec![
        record(
            "a.js",
            vec![],
            None,
            ExecRes::ParseCorrectly,
            Some(ExecRes::ParseCorrectly),
        ),
        record(
            "b.js",
            vec![],
            None,
            ExecRes::ParseCorrectly,
            Some(ExecRes::Errors(vec![diag()])),
        ),
        record(
            "c.js",
            vec![TestFlag::OnlyStrict],
            Some(Negative { phase: Phase::Parse }),
            ExecRes::Errors(vec![diag()]),
            None,
        ),
        record(
            "d.js",
            vec![TestFlag::NoStrict],
            None,
            ExecRes::ParserPanic(Some(String::from("boom"))),
            None,
        ),
        record(
            "e.js",
            vec![TestFlag::Module],
            None,
            ExecRes::ParseCorrectly,
            None,
        ),
        record(
            "f.js",
            vec![],
            Some(Negative { phase: Phase::Parse }),
            ExecRes::ParseCorrectly,
            Some(ExecRes::ParseCorrectly),
        ),
    ]
}

fn kind(fail: &Option<FailReason>) -> &'static str {
    match fail {
        None => "pass",
        Some(FailReason::IncorrectlyPassed) => "incorrectly passed",
        Some(FailReason::IncorrectlyErrored(_)) => "incorrectly errored",
        Some(FailReason::ParserPanic(_)) => "panicked",
    }
}

fn verdicts_with_pool(threads: usize) -> Vec<(String, &'static str)> {
    let pool = ThreadPoolBuilder::new().num_threads(threads).build().unwrap();
    let mut verdicts: Vec<(String, &'static str)> = pool.install(|| {
        jobs()
            .into_par_iter()
            .map(|(file, first, second)| {
                let t = run_test_file(file, first, second);
                (t.path.clone(), kind(&t.fail))
            })
            .collect()
    });
    verdicts.sort();
    verdicts
}

#[test]
fn verdict_set_identical_across_pool_sizes() {
    let baseline = verdicts_with_pool(1);
    assert_eq!(baseline.len(), jobs().len());
    assert_eq!(verdicts_with_pool(2), baseline);
    assert_eq!(verdicts_with_pool(8), baseline);
}

#[test]
fn verdict_contents_match_expectations_under_any_pool() {
    let verdicts = verdicts_with_pool(8);
    assert_eq!(
        verdicts,
        vec![
            (String::from("a.js"), "pass"),
            (String::from("b.js"), "incorrectly errored"),
            (String::from("c.js"), "pass"),
            (String::from("d.js"), "panicked"),
            (String::from("e.js"), "pass"),
            (String::from("f.js"), "incorrectly passed"),
        ]
    );
}
