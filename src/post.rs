//! Deciding what the outcome of each outside tool means for the build.
use vstd::prelude::*;
use crate::error::PipelineError;

verus! {

/// What running an outside tool gave: it was not found, or it exited with a
/// status and error output.
pub enum ToolRun {
    NotFound,
    Exited { success: bool, stderr: String },
}

/// A tool's stage that did not fail: it passed, or it was skipped because the
/// tool is not installed, which is only a warning.
#[derive(Debug, PartialEq, Eq)]
pub enum ToolStatus {
    Passed,
    NotFound,
}

/// How much the optimiser saved: bytes, and per cent of the size before it,
/// rounded to the nearest whole number.
#[derive(Debug, PartialEq, Eq)]
pub struct SizeSaving {
    pub saved: u64,
    pub percent: u64,
}

/// The native build's outcome: its failure carries both output streams, and
/// success without a module is `ArtifactMissing`.
pub fn build_outcome(success: bool, stdout: String, stderr: String, artifact_exists: bool) -> (r:
    Result<(), PipelineError>)
    ensures
        !success ==> r == Err::<(), PipelineError>(PipelineError::BuildFailed { stdout, stderr }),
        success && !artifact_exists ==> r == Err::<(), PipelineError>(
            PipelineError::ArtifactMissing,
        ),
        success && artifact_exists ==> r is Ok,
{
    if !success {
        Err(PipelineError::BuildFailed { stdout, stderr })
    } else if !artifact_exists {
        Err(PipelineError::ArtifactMissing)
    } else {
        Ok(())
    }
}

/// The optimiser's outcome: a failure status is fatal, a missing optimiser is not.
pub fn optimizer_outcome(run: ToolRun) -> (r: Result<ToolStatus, PipelineError>)
    ensures
        match run {
            ToolRun::NotFound => r == Ok::<ToolStatus, PipelineError>(ToolStatus::NotFound),
            ToolRun::Exited { success, stderr } => if success {
                r == Ok::<ToolStatus, PipelineError>(ToolStatus::Passed)
            } else {
                r == Err::<ToolStatus, PipelineError>(
                    PipelineError::OptimizationFailed { stderr },
                )
            },
        },
{
    match run {
        ToolRun::NotFound => Ok(ToolStatus::NotFound),
        ToolRun::Exited { success, stderr } => if success {
            Ok(ToolStatus::Passed)
        } else {
            Err(PipelineError::OptimizationFailed { stderr })
        },
    }
}

/// The validator's outcome: a failure status means bulk-memory instructions
/// remain, which is fatal; a missing validator is not.
pub fn validator_outcome(run: ToolRun) -> (r: Result<ToolStatus, PipelineError>)
    ensures
        match run {
            ToolRun::NotFound => r == Ok::<ToolStatus, PipelineError>(ToolStatus::NotFound),
            ToolRun::Exited { success, stderr } => if success {
                r == Ok::<ToolStatus, PipelineError>(ToolStatus::Passed)
            } else {
                r == Err::<ToolStatus, PipelineError>(
                    PipelineError::VerificationFailed { stderr },
                )
            },
        },
{
    match run {
        ToolRun::NotFound => Ok(ToolStatus::NotFound),
        ToolRun::Exited { success, stderr } => if success {
            Ok(ToolStatus::Passed)
        } else {
            Err(PipelineError::VerificationFailed { stderr })
        },
    }
}

/// The saving from `raw` bytes down to `optimized` bytes; nothing is saved
/// where the module grew, and the percentage of an empty module is zero.
pub fn size_saving(raw: u64, optimized: u64) -> (r: SizeSaving)
    ensures
        r.saved == if optimized <= raw { raw - optimized } else { 0 },
        raw == 0 ==> r.percent == 0,
        raw > 0 ==> r.percent == (r.saved * 200 + raw) / (2 * raw as int),
        r.percent <= 100,
{
    let saved = raw.saturating_sub(optimized);
    if raw == 0 {
        return SizeSaving { saved, percent: 0 };
    }
    let numerator: u128 = (saved as u128) * 200 + (raw as u128);
    let denominator: u128 = 2 * (raw as u128);
    let percent = numerator / denominator;
    proof {
        assert(numerator <= denominator * 101 - raw) by (nonlinear_arith)
            requires
                saved <= raw,
                numerator == saved * 200 + raw,
                denominator == 2 * raw,
        ;
        assert(percent <= 100) by (nonlinear_arith)
            requires
                percent == numerator / denominator,
                numerator < denominator * 101,
                denominator > 0,
        ;
    }
    SizeSaving { saved, percent: percent as u64 }
}

} // verus!
