//! The Test Record data model: one discovered test case together with the
//! expectations its metadata declares.

use vstd::prelude::*;

verus! {

/// An execution-mode hint declared in a test's metadata.
#[derive(Clone, Copy, PartialEq, Eq, Structural, Debug)]
pub enum TestFlag {
    OnlyStrict,
    NoStrict,
    Raw,
    Module,
}

/// The phase at which a negative test declares that it must fail.
/// Only parse-phase negatives matter to this harness: a test negative at a
/// later phase is still expected to parse cleanly.
#[derive(Clone, Copy, PartialEq, Eq, Structural, Debug)]
pub enum Phase {
    Parse,
    Early,
    Resolution,
    Runtime,
}

/// A declaration that the test is expected to fail, and at which phase.
#[derive(Clone, Copy, PartialEq, Eq, Structural, Debug)]
pub struct Negative {
    pub phase: Phase,
}

/// The expectations a test declares: its mode flags and an optional
/// negative-outcome declaration.
#[derive(Clone, Debug)]
pub struct MetaData {
    pub flags: Vec<TestFlag>,
    pub negative: Option<Negative>,
}

/// One test case: its source text, its declared expectations, and where it
/// was found (the path is carried for reporting only).
#[derive(Clone, Debug)]
pub struct TestFile {
    pub code: String,
    pub meta: MetaData,
    pub path: String,
}

impl MetaData {
    /// Whether the metadata carries the given mode flag.
    pub open spec fn spec_has_flag(self, f: TestFlag) -> bool {
        self.flags@.contains(f)
    }

    /// Whether the test is expected to fail at parse time: it declares a
    /// negative outcome whose phase is specifically the parse phase.
    pub open spec fn spec_expects_parse_failure(self) -> bool {
        match self.negative {
            Some(neg) => neg.phase == Phase::Parse,
            None => false,
        }
    }

    pub fn has_flag(&self, f: TestFlag) -> (r: bool)
        ensures
            r == self.spec_has_flag(f),
    {
        let mut i: usize = 0;
        while i < self.flags.len()
            invariant
                i <= self.flags.len(),
                forall|j: int| 0 <= j < i ==> self.flags@[j] != f,
            decreases self.flags.len() - i,
        {
            if self.flags[i] == f {
                return true;
            }
            i += 1;
        }
        false
    }

    pub fn expects_parse_failure(&self) -> (r: bool)
        ensures
            r == self.spec_expects_parse_failure(),
    {
        match &self.negative {
            Some(neg) => neg.phase == Phase::Parse,
            None => false,
        }
    }
}

} // verus!
