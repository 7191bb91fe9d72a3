//! Why a build stops.
use vstd::prelude::*;

verus! {

/// The step of the compilation adapter that failed.
#[derive(Debug, Clone, Copy, PartialEq, Eq)]
pub enum CompileStage {
    Compile,
    Serialize,
}

/// A fatal failure of the pipeline. A missing optimiser or validator is not
/// one of these: it only yields a warning.
#[derive(Debug, PartialEq, Eq)]
pub enum PipelineError {
    /// The source is not valid; carries the parser's diagnostic.
    ParseError(String),
    /// The source defines no public top-level function.
    NoExports,
    /// The bytecode compiler rejected the program, or its result could not be
    /// serialised.
    CompilationFailed { stage: CompileStage, message: String },
    /// A splice marker is missing from the glue template or appears twice.
    TemplateIntegrity,
    /// The native build exited with a failure status.
    BuildFailed { stdout: String, stderr: String },
    /// The build reported success but left no module at the expected path.
    ArtifactMissing,
    /// The size optimiser exited with a failure status.
    OptimizationFailed { stderr: String },
    /// A legacy-compatible module still holds bulk-memory instructions.
    VerificationFailed { stderr: String },
    /// Reading or writing a file failed.
    Io(String),
}

} // verus!
