//! Execution outcomes and the per-test execution policy: which parses a
//! record's flags call for, and how the source text is prepared for a
//! strict-mode parse.

use vstd::prelude::*;
use crate::record::{MetaData, TestFlag};

verus! {

/// Relies on rslint_errors::Diagnostic, the structured diagnostic the parser
/// reports; the harness carries these values through to the report without
/// reading them.
#[verifier::external_type_specification]
#[verifier::external_body]
pub struct ExDiagnostic(rslint_errors::Diagnostic);

/// The outcome of one parser invocation, as the fault-isolating adapter
/// around the parser hands it back: a clean parse, a non-empty list of
/// diagnostics, or a caught parser fault with its payload rendered as text
/// when the payload was text.
pub enum ExecRes {
    Errors(Vec<rslint_errors::Diagnostic>),
    ParseCorrectly,
    ParserPanic(Option<String>),
}

/// The execution strategy a record's flags select: a single parse under the
/// given modes, or the default pair of runs (non-strict first, then strict,
/// both under script grammar) whose classifications are merged.
#[derive(Clone, Copy, PartialEq, Eq, Structural, Debug)]
pub enum ExecPlan {
    Single { strict: bool, module: bool },
    Dual,
}

/// The strategy the flags select, checked in priority order: OnlyStrict,
/// then NoStrict or Raw, then Module, then the default dual run.
pub open spec fn spec_plan(meta: MetaData) -> ExecPlan {
    if meta.spec_has_flag(TestFlag::OnlyStrict) {
        ExecPlan::Single { strict: true, module: false }
    } else if meta.spec_has_flag(TestFlag::NoStrict) || meta.spec_has_flag(TestFlag::Raw) {
        ExecPlan::Single { strict: false, module: false }
    } else if meta.spec_has_flag(TestFlag::Module) {
        ExecPlan::Single { strict: false, module: true }
    } else {
        ExecPlan::Dual
    }
}

pub fn plan_for(meta: &MetaData) -> (r: ExecPlan)
    ensures
        r == spec_plan(*meta),
{
    if meta.has_flag(TestFlag::OnlyStrict) {
        ExecPlan::Single { strict: true, module: false }
    } else if meta.has_flag(TestFlag::NoStrict) || meta.has_flag(TestFlag::Raw) {
        ExecPlan::Single { strict: false, module: false }
    } else if meta.has_flag(TestFlag::Module) {
        ExecPlan::Single { strict: false, module: true }
    } else {
        ExecPlan::Dual
    }
}

/// The directive injected ahead of a test's code for a strict-mode parse.
pub open spec fn strict_prologue() -> Seq<char> {
    "\"use strict\";\n"@
}

/// What a test's code looks like once prepared for a parse: unchanged for a
/// non-strict parse, prefixed with the strict-mode directive otherwise.
pub open spec fn spec_prepared(code: Seq<char>, strict: bool) -> Seq<char> {
    if strict {
        strict_prologue() + code
    } else {
        code
    }
}

/// Normalize one parse that ran to completion: finishing with no
/// diagnostics is a correct parse, finishing with diagnostics keeps them.
/// (A parse that did not complete is the fault boundary's to report.)
pub fn outcome_of_parse(result: Result<(), Vec<rslint_errors::Diagnostic>>) -> (r: ExecRes)
    ensures
        r == match result {
            Ok(_) => ExecRes::ParseCorrectly,
            Err(diagnostics) => ExecRes::Errors(diagnostics),
        },
{
    match result {
        Ok(_) => ExecRes::ParseCorrectly,
        Err(diagnostics) => ExecRes::Errors(diagnostics),
    }
}

/// Prepare a test's code for one parse: prepend the strict-mode directive
/// exactly when `strict` is set.
pub fn prepare_code(code: &String, strict: bool) -> (r: String)
    ensures
        r@ == spec_prepared(code@, strict),
{
    if strict {
        let mut s = String::from_str("\"use strict\";\n");
        s.append(code.as_str());
        s
    } else {
        code.clone()
    }
}

} // verus!
