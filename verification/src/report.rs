//! Failure classification: every failure the pipeline can meet is
//! placed in exactly one of three classes — silently skipped, reported
//! and survived, or fatal to the block-processing loop.
use vstd::prelude::*;

use crate::extract::DropReason;
use crate::transform::TransformError;

verus! {

/// Every failure the pipeline classifies.
#[derive(Debug, Clone, Copy, PartialEq, Eq, Structural)]
pub enum PipelineFailure {
    /// A log line that carries no sentinel prefix.
    NonEventLine,
    /// A sentinel-prefixed line whose remainder is not valid JSON.
    MalformedEventJson,
    /// Valid JSON that fits no known event shape.
    UnknownEventShape,
    /// A decoded event the transformer rejected.
    TransformFailed(TransformError),
    /// One REST request failed; other records are unaffected.
    RestRecordFailed,
    /// A statement inside a block's SQL transaction failed.
    SqlBlockFailed,
    /// The upstream block stream disconnected.
    StreamDisconnected,
}

/// The three classes a failure can fall into.
#[derive(Debug, Clone, Copy, PartialEq, Eq, Structural)]
pub enum Severity {
    /// Expected and silent: no diagnostic is produced.
    IgnorableSkip,
    /// Reported at error level; processing continues.
    DegradedContinue,
    /// Propagated upward; the block-processing loop terminates.
    Fatal,
}

/// The class of each failure: non-event lines are ignorable; parse,
/// shape, transform and single-request failures are degraded-continue;
/// a transaction failure or a stream disconnect is fatal.
pub open spec fn spec_severity(f: PipelineFailure) -> Severity {
    match f {
        PipelineFailure::NonEventLine => Severity::IgnorableSkip,
        PipelineFailure::MalformedEventJson => Severity::DegradedContinue,
        PipelineFailure::UnknownEventShape => Severity::DegradedContinue,
        PipelineFailure::TransformFailed(_) => Severity::DegradedContinue,
        PipelineFailure::RestRecordFailed => Severity::DegradedContinue,
        PipelineFailure::SqlBlockFailed => Severity::Fatal,
        PipelineFailure::StreamDisconnected => Severity::Fatal,
    }
}

/// Classifies one failure.
pub fn classify_failure(f: &PipelineFailure) -> (s: Severity)
    ensures
        s == spec_severity(*f),
{
    match f {
        PipelineFailure::NonEventLine => Severity::IgnorableSkip,
        PipelineFailure::MalformedEventJson => Severity::DegradedContinue,
        PipelineFailure::UnknownEventShape => Severity::DegradedContinue,
        PipelineFailure::TransformFailed(_) => Severity::DegradedContinue,
        PipelineFailure::RestRecordFailed => Severity::DegradedContinue,
        PipelineFailure::SqlBlockFailed => Severity::Fatal,
        PipelineFailure::StreamDisconnected => Severity::Fatal,
    }
}

/// The failure an extraction drop stands for.
pub fn drop_reason_failure(d: &DropReason) -> (f: PipelineFailure)
    ensures
        d is InvalidJson ==> f == PipelineFailure::MalformedEventJson,
        d is UnknownShape ==> f == PipelineFailure::UnknownEventShape,
{
    match d {
        DropReason::InvalidJson => PipelineFailure::MalformedEventJson,
        DropReason::UnknownShape => PipelineFailure::UnknownEventShape,
    }
}

/// A dropped event line is never fatal: the pipeline survives every
/// extraction or transformation failure and only a sink transaction or
/// stream failure terminates it.
pub proof fn lemma_data_failures_survivable(f: PipelineFailure)
    requires
        f != PipelineFailure::SqlBlockFailed,
        f != PipelineFailure::StreamDisconnected,
    ensures
        spec_severity(f) != Severity::Fatal,
{
}

} // verus!
