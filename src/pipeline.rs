//! The build as a state machine. The library decides every step from the
//! current stage and what the last outside step gave; the caller performs the
//! actions (file writes, the build, the optimiser, the validator) and reports
//! back. Stages run in a fixed order (discover and compile, write the project,
//! build, optimise the built module, copy it to the output, validate the
//! output) and the first failure ends the build, so the output is written only
//! once the build and the optimiser have succeeded.
use vstd::prelude::*;
use crate::catalog::strings_view;
use crate::compile::{contract_inputs, monty_accepts, precompile_contract, script_name};
use crate::discovery::{exported_of, find_exported_functions, module_top_level};
use crate::dispatch::program_text;
use crate::error::{CompileStage, PipelineError};
use crate::glue::markers_found;
use crate::post::{build_outcome, optimizer_outcome, validator_outcome, ToolRun};
use crate::profile::{
    artifact_path, artifact_path_of, build_args, build_args_of, optimizer_args,
    optimizer_args_of, modern_feature_flags, validator_args, validator_args_of, verification_required, verifies,
    BuildProfile,
};
use crate::project::{files_view, project_files, project_files_of, ProjectFile, ProjectTemplate};

verus! {

/// What the build waits for.
#[derive(Debug, Clone, Copy, PartialEq, Eq)]
pub enum Stage {
    AwaitSource,
    AwaitProject,
    AwaitBuild,
    AwaitOptimizer,
    AwaitCopy,
    AwaitValidator,
    Finished,
    Failed,
}

/// What an outside step gave.
pub enum Event {
    /// The source file's text.
    SourceRead(String),
    /// The project's files were written.
    ProjectWritten,
    /// The native build exited; `artifact_exists` tells whether the module is
    /// at the expected path, and `size` is then its size.
    BuildExited {
        success: bool,
        stdout: String,
        stderr: String,
        artifact_exists: bool,
        size: u64,
    },
    /// The optimiser ran on the built module; `size` is the module's size after it.
    OptimizerRan { run: ToolRun, size: u64 },
    /// The module was copied to the output path.
    ArtifactCopied,
    /// The validator ran on the output.
    ValidatorRan { run: ToolRun },
    /// Reading, writing or starting something failed.
    IoFailed(String),
}

/// What the caller is to do next.
pub enum Action {
    /// Delete the project's source directory, then write these files and the
    /// compiled contract, creating directories as needed. `methods` are the
    /// entry points found.
    WriteProject { methods: Vec<String>, files: Vec<ProjectFile>, bytecode: Vec<u8> },
    /// Run the native build in the project root, with the toolchain override
    /// removed from the environment.
    RunBuild { args: Vec<String> },
    /// Copy the module at `from`, relative to the project root, to the output.
    CopyArtifact { from: String },
    /// Run the optimiser in the project root with these arguments.
    RunOptimizer { args: Vec<String> },
    /// Run the validator with these arguments.
    RunValidator { args: Vec<String> },
    /// The build is done; the output holds `size` bytes.
    Finish { size: u64 },
    /// The build failed.
    Fail(PipelineError),
}

/// A build in progress.
pub struct Pipeline {
    pub profile: BuildProfile,
    pub skip_optimize: bool,
    /// The output path, as handed to the validator.
    pub output: String,
    pub template: ProjectTemplate,
    pub stage: Stage,
    /// The module's size, once it is built.
    pub size: u64,
}

/// Whether `stage` takes `event`. Any stage that waits takes a failure of
/// the outside step; the two last stages take nothing.
pub open spec fn accepts(stage: Stage, event: Event) -> bool {
    match event {
        Event::IoFailed(_) => !(stage is Finished) && !(stage is Failed),
        Event::SourceRead(_) => stage is AwaitSource,
        Event::ProjectWritten => stage is AwaitProject,
        Event::BuildExited { .. } => stage is AwaitBuild,
        Event::ArtifactCopied { .. } => stage is AwaitCopy,
        Event::OptimizerRan { .. } => stage is AwaitOptimizer,
        Event::ValidatorRan { .. } => stage is AwaitValidator,
    }
}

/// `a` runs the optimiser with exactly `args`.
pub open spec fn runs_optimizer(a: Action, args: Seq<Seq<char>>) -> bool {
    match a {
        Action::RunOptimizer { args: given } => strings_view(given@) == args,
        _ => false,
    }
}

/// `a` runs the validator with exactly `args`.
pub open spec fn runs_validator(a: Action, args: Seq<Seq<char>>) -> bool {
    match a {
        Action::RunValidator { args: given } => strings_view(given@) == args,
        _ => false,
    }
}

/// `a` copies the built module to the output, and the build waits for that.
pub open spec fn copies_module(post: Pipeline, a: Action) -> bool {
    post.stage is AwaitCopy && match a {
        Action::CopyArtifact { from } => from@ == artifact_path_of(),
        _ => false,
    }
}

/// The step taken on the source text `source`.
pub open spec fn next_for_source(pre: Pipeline, source: Seq<char>, post: Pipeline, a: Action) -> bool {
    match module_top_level(source) {
        None => post.stage is Failed && a is Fail && a->Fail_0 is ParseError,
        Some(stmts) => {
            let names = exported_of(stmts);
            if names.len() == 0 {
                post.stage is Failed && a == Action::Fail(PipelineError::NoExports)
            } else if !monty_accepts(program_text(source, names), script_name(), contract_inputs()) {
                post.stage is Failed && a is Fail && a->Fail_0 is CompilationFailed
                    && a->Fail_0->stage == CompileStage::Compile
            } else {
                if markers_found(
                    pre.template.lib_rs@,
                ) != (1nat, 1nat) {
                    post.stage is Failed && a == Action::Fail(PipelineError::TemplateIntegrity)
                } else {
                    post.stage is AwaitProject && match a {
                        Action::WriteProject { methods, files, bytecode } => strings_view(methods@)
                            == names && files_view(files@) == project_files_of(
                            pre.profile,
                            pre.template,
                            names,
                        ),
                        _ => false,
                    }
                }
            }
        },
    }
}

/// One step of the build: from `pre`, on `event`, to `post`, doing `a`.
pub open spec fn step_post(pre: Pipeline, event: Event, post: Pipeline, a: Action) -> bool {
    &&& post.profile == pre.profile
    &&& post.skip_optimize == pre.skip_optimize
    &&& post.output == pre.output
    &&& post.template == pre.template
    &&& match event {
        Event::IoFailed(message) => post.size == pre.size && post.stage is Failed && a == Action::Fail(
            PipelineError::Io(message),
        ),
        Event::SourceRead(source) => post.size == pre.size && next_for_source(pre, source@, post, a),
        Event::ProjectWritten => post.size == pre.size && post.stage is AwaitBuild && match a {
            Action::RunBuild { args } => strings_view(args@) == build_args_of(pre.profile),
            _ => false,
        },
        Event::BuildExited { success, stdout, stderr, artifact_exists, size } => if !success {
            post.size == pre.size && post.stage is Failed && a == Action::Fail(
                PipelineError::BuildFailed { stdout, stderr },
            )
        } else if !artifact_exists {
            post.size == pre.size && post.stage is Failed && a == Action::Fail(
                PipelineError::ArtifactMissing,
            )
        } else {
            post.size == size && if pre.skip_optimize {
                copies_module(post, a)
            } else {
                post.stage is AwaitOptimizer && runs_optimizer(
                    a,
                    optimizer_args_of(pre.profile, artifact_path_of()),
                )
            }
        },
        Event::OptimizerRan { run, size } => match run {
            ToolRun::Exited { success, stderr } if !success => post.size == pre.size
                && post.stage is Failed && a == Action::Fail(
                PipelineError::OptimizationFailed { stderr },
            ),
            _ => post.size == size && copies_module(post, a),
        },
        Event::ArtifactCopied => post.size == pre.size && if verifies(pre.profile) {
            post.stage is AwaitValidator && runs_validator(a, validator_args_of(pre.output@))
        } else {
            post.stage is Finished && a == Action::Finish { size: pre.size }
        },
        Event::ValidatorRan { run } => post.size == pre.size && match run {
            ToolRun::Exited { success, stderr } if !success => post.stage is Failed && a
                == Action::Fail(PipelineError::VerificationFailed { stderr }),
            _ => post.stage is Finished && a == Action::Finish { size: pre.size },
        },
    }
}

/// A source without a public top-level function ends the build with
/// `NoExports` at once: nothing is compiled or written, and the failed build
/// takes no further event.
pub proof fn lemma_no_exports_halts(pre: Pipeline, source: String, post: Pipeline, a: Action)
    requires
        pre.stage is AwaitSource,
        step_post(pre, Event::SourceRead(source), post, a),
        module_top_level(source@) is Some,
        exported_of(module_top_level(source@)->0).len() == 0,
    ensures
        a == Action::Fail(PipelineError::NoExports),
        !(a is WriteProject),
        post.stage is Failed,
        forall|e: Event| !accepts(post.stage, e),
{
}

/// The profiles exclude each other: a legacy-compatible build runs the
/// optimiser without the four modern feature flags and finishes only from
/// the validator's stage; a default build always passes those flags and never
/// runs the validator.
pub proof fn lemma_profile_exclusivity(pre: Pipeline, event: Event, post: Pipeline, a: Action)
    requires
        accepts(pre.stage, event),
        step_post(pre, event, post, a),
    ensures
        pre.profile == BuildProfile::LegacyCompatible && a is RunOptimizer ==> runs_optimizer(
            a,
            seq!["-Oz"@, artifact_path_of(), "-o"@, artifact_path_of()],
        ),
        pre.profile == BuildProfile::LegacyCompatible && a is Finish ==> pre.stage is AwaitValidator,
        pre.profile == BuildProfile::Default && a is RunOptimizer ==> runs_optimizer(
            a,
            seq!["-Oz"@, artifact_path_of(), "-o"@, artifact_path_of()] + modern_feature_flags(),
        ),
        pre.profile == BuildProfile::Default ==> !(a is RunValidator),
{
}

/// With the optimiser skipped, no step runs it, and the size that a finished
/// build reports is the size of the module as the build left it.
pub proof fn lemma_skip_never_optimizes(pre: Pipeline, event: Event, post: Pipeline, a: Action)
    requires
        pre.skip_optimize,
        accepts(pre.stage, event),
        !(pre.stage is AwaitOptimizer),
        step_post(pre, event, post, a),
    ensures
        !(a is RunOptimizer),
        !(post.stage is AwaitOptimizer),
        a is Finish ==> a->Finish_size == post.size,
        post.size != pre.size ==> (match event {
            Event::BuildExited { size, .. } => post.size == size,
            _ => false,
        }),
{
}

/// The output is written only after the optimiser has succeeded (or is not
/// installed), or, with the optimiser skipped, right after the build; a
/// failing optimiser ends the build before anything is copied.
pub proof fn lemma_copy_follows_optimizer(pre: Pipeline, event: Event, post: Pipeline, a: Action)
    requires
        accepts(pre.stage, event),
        step_post(pre, event, post, a),
    ensures
        a is CopyArtifact ==> pre.stage is AwaitOptimizer || (pre.skip_optimize
            && pre.stage is AwaitBuild),
        a is CopyArtifact && !pre.skip_optimize ==> pre.stage is AwaitOptimizer,
        (match event {
            Event::OptimizerRan { run: ToolRun::Exited { success, .. }, .. } => !success,
            _ => false,
        }) ==> a is Fail && post.stage is Failed,
        a is RunValidator ==> pre.stage is AwaitCopy,
{
}

/// A legacy-compatible build whose validator reports a violation fails with
/// `VerificationFailed`, carrying the validator's output.
pub proof fn lemma_violation_fails(pre: Pipeline, stderr: String, post: Pipeline, a: Action)
    requires
        pre.stage is AwaitValidator,
        step_post(pre, Event::ValidatorRan { run: ToolRun::Exited { success: false, stderr } }, post, a),
    ensures
        a == Action::Fail(PipelineError::VerificationFailed { stderr }),
        post.stage is Failed,
{
}

/// Two builds with the same profile and template that read the same source
/// write the same project files; only the compiled contract is the
/// compiler's to decide.
pub proof fn lemma_builds_write_same_files(
    pre: Pipeline,
    source: String,
    first: Pipeline,
    a1: Action,
    second: Pipeline,
    a2: Action,
)
    requires
        pre.stage is AwaitSource,
        step_post(pre, Event::SourceRead(source), first, a1),
        step_post(pre, Event::SourceRead(source), second, a2),
        a1 is WriteProject,
        a2 is WriteProject,
    ensures
        files_view(a1->files@) == files_view(a2->files@),
        strings_view(a1->methods@) == strings_view(a2->methods@),
{
}

impl Pipeline {
    /// A build that waits for the source text.
    pub fn new(profile: BuildProfile, skip_optimize: bool, output: String, template: ProjectTemplate) -> (r: Pipeline)
        ensures
            r.profile == profile,
            r.skip_optimize == skip_optimize,
            r.output == output,
            r.template == template,
            r.stage is AwaitSource,
            r.size == 0,
    {
        Pipeline { profile, skip_optimize, output, template, stage: Stage::AwaitSource, size: 0 }
    }

    /// Whether the build takes `event` now.
    pub fn accepts_event(&self, event: &Event) -> (r: bool)
        ensures
            r == accepts(self.stage, *event),
    {
        match event {
            Event::IoFailed(_) => !matches!(self.stage, Stage::Finished) && !matches!(self.stage, Stage::Failed),
            Event::SourceRead(_) => matches!(self.stage, Stage::AwaitSource),
            Event::ProjectWritten => matches!(self.stage, Stage::AwaitProject),
            Event::BuildExited { .. } => matches!(self.stage, Stage::AwaitBuild),
            Event::ArtifactCopied { .. } => matches!(self.stage, Stage::AwaitCopy),
            Event::OptimizerRan { .. } => matches!(self.stage, Stage::AwaitOptimizer),
            Event::ValidatorRan { .. } => matches!(self.stage, Stage::AwaitValidator),
        }
    }

    fn fail(&mut self, error: PipelineError) -> (a: Action)
        ensures
            final(self).stage is Failed,
            final(self).profile == old(self).profile,
            final(self).skip_optimize == old(self).skip_optimize,
            final(self).output == old(self).output,
            final(self).template == old(self).template,
            final(self).size == old(self).size,
            a == Action::Fail(error),
    {
        self.stage = Stage::Failed;
        Action::Fail(error)
    }

    /// Asks for the built module, now final, to be copied to the output.
    fn copy_module(&mut self) -> (a: Action)
        ensures
            final(self).profile == old(self).profile,
            final(self).skip_optimize == old(self).skip_optimize,
            final(self).output == old(self).output,
            final(self).template == old(self).template,
            final(self).size == old(self).size,
            copies_module(*final(self), a),
    {
        self.stage = Stage::AwaitCopy;
        Action::CopyArtifact { from: artifact_path() }
    }

    /// Discovers the entry points, compiles the contract and lays out the
    /// project.
    fn on_source(&mut self, source: String) -> (a: Action)
        ensures
            final(self).profile == old(self).profile,
            final(self).skip_optimize == old(self).skip_optimize,
            final(self).output == old(self).output,
            final(self).template == old(self).template,
            final(self).size == old(self).size,
            next_for_source(*old(self), source@, *final(self), a),
    {
        let names = match find_exported_functions(source.as_str()) {
            Ok(names) => names,
            Err(e) => return self.fail(e),
        };
        let bytecode = match precompile_contract(source.as_str(), names.as_slice()) {
            Ok(bytes) => bytes,
            Err(e) => return self.fail(e),
        };
        let files = match project_files(self.profile, &self.template, names.as_slice()) {
            Ok(files) => files,
            Err(e) => return self.fail(e),
        };
        self.stage = Stage::AwaitProject;
        Action::WriteProject { methods: names, files, bytecode }
    }

    /// Takes the outcome of the last outside step and says what to do next.
    pub fn step(&mut self, event: Event) -> (a: Action)
        requires
            accepts(old(self).stage, event),
        ensures
            step_post(*old(self), event, *final(self), a),
    {
        match event {
            Event::IoFailed(message) => self.fail(PipelineError::Io(message)),
            Event::SourceRead(source) => self.on_source(source),
            Event::ProjectWritten => {
                self.stage = Stage::AwaitBuild;
                Action::RunBuild { args: build_args(self.profile) }
            },
            Event::BuildExited { success, stdout, stderr, artifact_exists, size } => {
                match build_outcome(success, stdout, stderr, artifact_exists) {
                    Err(e) => self.fail(e),
                    Ok(()) => {
                        self.size = size;
                        if self.skip_optimize {
                            self.copy_module()
                        } else {
                            self.stage = Stage::AwaitOptimizer;
                            let path = artifact_path();
                            Action::RunOptimizer { args: optimizer_args(self.profile, path.as_str()) }
                        }
                    },
                }
            },
            Event::OptimizerRan { run, size } => match optimizer_outcome(run) {
                Err(e) => self.fail(e),
                Ok(_) => {
                    self.size = size;
                    self.copy_module()
                },
            },
            Event::ArtifactCopied => {
                if verification_required(self.profile) {
                    self.stage = Stage::AwaitValidator;
                    Action::RunValidator { args: validator_args(self.output.as_str()) }
                } else {
                    self.stage = Stage::Finished;
                    Action::Finish { size: self.size }
                }
            },
            Event::ValidatorRan { run } => match validator_outcome(run) {
                Err(e) => self.fail(e),
                Ok(_) => {
                    self.stage = Stage::Finished;
                    Action::Finish { size: self.size }
                },
            },
        }
    }
}

} // verus!
