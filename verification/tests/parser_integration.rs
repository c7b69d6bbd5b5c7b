//! The classification flow against the real parser: parse outcomes are
//! produced by rslint_parser and handed to the library exactly as the
//! harness binary hands them over.

use coverage_harness::classify::{run_test_file, FailReason};
use coverage_harness::outcome::{outcome_of_parse, prepare_code, ExecRes};
use coverage_harness::record::{MetaData, Negative, Phase, TestFile, TestFlag};
use rslint_parser::{parse_module, parse_text};

fn script_outcome(code: &str) -> ExecRes {
    outcome_of_parse(parse_text(code, 0).ok().map(drop))
}

fn module_outcome(code: &str) -> ExecRes {
    outcome_of_parse(parse_module(code, 0).ok().map(drop))
}

fn file_with(flags: Vec<TestFlag>, negative: Option<Negative>, code: &str) -> TestFile {
    TestFile {
        code: String::from(code),
        meta: MetaData { flags, negative },
        path: String::from("test/sample.js"),
    }
}

#[test]
fn real_clean_parse_passes_dual_run() {
    let code = "var x = 1;";
    let first = script_outcome(code);
    let second = script_outcome(&prepare_code(&String::from(code), true));
    let t = run_test_file(file_with(vec![], None, code), first, Some(second));
    assert!(t.fail.is_none());
}

#[test]
fn real_strict_only_violation_attributed_to_strict_run() {
    let code = "with (a) {}";
    let first = script_outcome(code);
    assert!(matches!(first, ExecRes::ParseCorrectly));
    let second = script_outcome(&prepare_code(&String::from(code), true));
    assert!(matches!(second, ExecRes::Errors(_)));
    let t = run_test_file(file_with(vec![], None, code), first, Some(second));
    assert!(matches!(t.fail, Some(FailReason::IncorrectlyErrored(_))));
}

#[test]
fn real_syntax_error_with_parse_negative_passes() {
    let code = "var ;";
    let first = script_outcome(code);
    assert!(matches!(first, ExecRes::Errors(_)));
    let t = run_test_file(
        file_with(vec![TestFlag::Raw], Some(Negative { phase: Phase::Parse }), code),
        first,
        None,
    );
    assert!(t.fail.is_none());
}

#[test]
fn real_module_grammar_accepts_import() {
    let code = "import \"a\";";
    let first = module_outcome(code);
    assert!(matches!(first, ExecRes::ParseCorrectly));
    let t = run_test_file(file_with(vec![TestFlag::Module], None, code), first, None);
    assert!(t.fail.is_none());
}
