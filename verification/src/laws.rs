//! The laws the classifier obeys, stated over the same spec functions its
//! contracts use.

use vstd::prelude::*;
use crate::classify::{spec_classify, spec_verdict_fail, FailReason, TestResult};
use crate::outcome::ExecRes;
use crate::record::{MetaData, TestFlag};
use crate::report::{count_errored, count_panicked, count_passed, is_errored, is_panicked, is_pass};

verus! {

/// For a record with no mode flags the dual-run verdict passes exactly when
/// both the non-strict and the strict run classify as a pass; if either
/// fails, the reported category is the failing run's, the non-strict run
/// (`l`) taking precedence over the strict run (`r`) when both fail.
pub proof fn lemma_dual_run_merge(meta: MetaData, l: ExecRes, r: ExecRes)
    requires
        !meta.spec_has_flag(TestFlag::OnlyStrict),
        !meta.spec_has_flag(TestFlag::NoStrict),
        !meta.spec_has_flag(TestFlag::Raw),
        !meta.spec_has_flag(TestFlag::Module),
    ensures
        spec_verdict_fail(meta, l, Some(r)) is None <==> (spec_classify(l, meta) is None
            && spec_classify(r, meta) is None),
        spec_classify(l, meta) is Some ==> spec_verdict_fail(meta, l, Some(r)) == spec_classify(
            l,
            meta,
        ),
        spec_classify(l, meta) is None ==> spec_verdict_fail(meta, l, Some(r)) == spec_classify(
            r,
            meta,
        ),
{
}

/// For a record with a parse-phase negative expectation, a clean successful
/// parse never passes: it classifies as IncorrectlyPassed.
pub proof fn lemma_negative_parse_never_passes(meta: MetaData)
    requires
        meta.spec_expects_parse_failure(),
    ensures
        spec_classify(ExecRes::ParseCorrectly, meta) == Some(FailReason::IncorrectlyPassed),
{
}

/// For a record without a parse-phase negative expectation, a non-empty
/// diagnostic result never passes: it classifies as IncorrectlyErrored,
/// carrying those diagnostics.
pub proof fn lemma_unexpected_diagnostics_never_pass(
    meta: MetaData,
    diagnostics: Vec<rslint_errors::Diagnostic>,
)
    requires
        !meta.spec_expects_parse_failure(),
        diagnostics@.len() > 0,
    ensures
        spec_classify(ExecRes::Errors(diagnostics), meta) == Some(
            FailReason::IncorrectlyErrored(diagnostics),
        ),
{
}

/// A parser fault classifies as a crash whatever the record expects, with
/// the fault's payload carried through.
pub proof fn lemma_fault_always_crashes(meta: MetaData, payload: Option<String>)
    ensures
        spec_classify(ExecRes::ParserPanic(payload), meta) == Some(
            FailReason::ParserPanic(payload),
        ),
{
}

proof fn lemma_count_remove(s: Seq<TestResult>, j: int)
    requires
        0 <= j < s.len(),
    ensures
        count_passed(s.remove(j)) == count_passed(s) - if is_pass(s[j]) {
            1int
        } else {
            0int
        },
        count_errored(s.remove(j)) == count_errored(s) - if is_errored(s[j]) {
            1int
        } else {
            0int
        },
        count_panicked(s.remove(j)) == count_panicked(s) - if is_panicked(s[j]) {
            1int
        } else {
            0int
        },
    decreases s.len(),
{
    if j == s.len() - 1 {
        assert(s.remove(j) =~= s.drop_last());
    } else {
        assert(s.remove(j).drop_last() =~= s.drop_last().remove(j));
        assert(s.remove(j).last() == s.last());
        lemma_count_remove(s.drop_last(), j);
    }
}

/// The aggregate counts depend only on which verdicts came back, not on the
/// order the workers delivered them in: two collections holding the same
/// verdicts the same number of times count alike.
pub proof fn lemma_counts_order_independent(s1: Seq<TestResult>, s2: Seq<TestResult>)
    requires
        s1.to_multiset() == s2.to_multiset(),
    ensures
        count_passed(s1) == count_passed(s2),
        count_errored(s1) == count_errored(s2),
        count_panicked(s1) == count_panicked(s2),
    decreases s1.len(),
{
    broadcast use vstd::seq_lib::group_to_multiset_ensures;

    if s1.len() == 0 {
        assert(s1.to_multiset().len() == s1.len());
        assert(s2.to_multiset().len() == s2.len());
        assert(s2.len() == 0);
    } else {
        let last = s1.last();
        assert(s1[s1.len() - 1] == last);
        assert(s1.contains(last));
        assert(s2.to_multiset().count(last) > 0);
        assert(s2.contains(last));
        let j = choose|j: int| 0 <= j < s2.len() && s2[j] == last;
        assert(s1.drop_last() =~= s1.remove(s1.len() - 1));
        assert(s1.drop_last().to_multiset() =~= s1.to_multiset().remove(last));
        assert(s2.remove(j).to_multiset() =~= s2.to_multiset().remove(last));
        lemma_counts_order_independent(s1.drop_last(), s2.remove(j));
        lemma_count_remove(s2, j);
    }
}

} // verus!
