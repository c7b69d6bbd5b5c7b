//! Conformance-test harness core: classifies parser outcomes against each
//! test's declared expectations and aggregates the verdicts into a report.
//!
//! The surrounding binary discovers test files, invokes the parser inside a
//! fault boundary, and renders the report; this crate holds the logic that
//! decides which parses a test needs, what its verdict is, and what the
//! aggregate counts and coverage are.

pub mod classify;
pub mod laws;
pub mod outcome;
pub mod record;
pub mod report;
