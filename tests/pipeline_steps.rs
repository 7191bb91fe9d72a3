use monty_near::error::PipelineError;
use monty_near::pipeline::{Action, Event, Pipeline, Stage};
use monty_near::post::{build_outcome, optimizer_outcome, size_saving, validator_outcome, SizeSaving, ToolRun, ToolStatus};
use monty_near::profile::{build_args, optimizer_args, validator_args, verification_required, BuildProfile};
use monty_near::project::{project_files, ProjectFile, ProjectTemplate};

const HELLO: &str = "def hello():\n    return \"Hello from Monty on NEAR!\"\n";

fn template() -> ProjectTemplate {
    ProjectTemplate {
        cargo_toml: "[package]\nname = \"monty_near_contract\"\n".to_string(),
        rust_toolchain: "[toolchain]\nchannel = \"stable\"\n".to_string(),
        cargo_config: "[build]\ntarget = \"wasm32-unknown-unknown\"\n".to_string(),
        lib_rs: "// @MONTY_BYTECODE_STATICS\n// @MONTY_EXPORTS\n".to_string(),
    }
}

fn strs(v: &[&str]) -> Vec<String> {
    v.iter().map(|s| s.to_string()).collect()
}

fn exited(success: bool, stderr: &str) -> ToolRun {
    ToolRun::Exited { success, stderr: stderr.to_string() }
}

const ARTIFACT: &str = "target/wasm32-unknown-unknown/release/monty_near_contract.wasm";

/// Runs a build from the source through a successful native build whose
/// module has `size` bytes.
fn up_to_build(profile: BuildProfile, skip: bool, size: u64) -> (Pipeline, Action) {
    let mut p = Pipeline::new(profile, skip, "/out/contract.wasm".to_string(), template());
    let a = p.step(Event::SourceRead(HELLO.to_string()));
    match a {
        Action::WriteProject { methods, .. } => assert_eq!(methods, strs(&["hello"])),
        _ => panic!("expected the project"),
    }
    let a = p.step(Event::ProjectWritten);
    assert!(matches!(a, Action::RunBuild { .. }));
    let a = p.step(Event::BuildExited {
        success: true,
        stdout: String::new(),
        stderr: String::new(),
        artifact_exists: true,
        size,
    });
    (p, a)
}

fn expect_copy(a: Action) {
    match a {
        Action::CopyArtifact { from } => assert_eq!(from, ARTIFACT),
        _ => panic!("expected a copy"),
    }
}

#[test]
fn build_args_per_profile() {
    assert_eq!(build_args(BuildProfile::Default), strs(&["build", "--release"]));
    assert_eq!(
        build_args(BuildProfile::LegacyCompatible),
        strs(&["build", "--release", "-Zbuild-std=std,panic_abort"])
    );
}

#[test]
fn optimizer_flags_only_for_default_profile() {
    assert_eq!(
        optimizer_args(BuildProfile::Default, "m.wasm"),
        strs(&[
            "-Oz",
            "m.wasm",
            "-o",
            "m.wasm",
            "--enable-bulk-memory",
            "--enable-nontrapping-float-to-int",
            "--enable-reference-types",
            "--enable-sign-ext",
        ])
    );
    assert_eq!(
        optimizer_args(BuildProfile::LegacyCompatible, "m.wasm"),
        strs(&["-Oz", "m.wasm", "-o", "m.wasm"])
    );
    assert_eq!(validator_args("m.wasm"), strs(&["validate", "--features=-bulk-memory", "m.wasm"]));
    assert!(verification_required(BuildProfile::LegacyCompatible));
    assert!(!verification_required(BuildProfile::Default));
}

#[test]
fn project_files_per_profile() {
    let names = strs(&["hello"]);
    let default_files = project_files(BuildProfile::Default, &template(), &names).unwrap();
    let paths: Vec<&str> = default_files.iter().map(|f: &ProjectFile| f.path.as_str()).collect();
    assert_eq!(paths, vec!["Cargo.toml", "rust-toolchain.toml", ".cargo/config.toml", "src/lib.rs"]);
    assert_eq!(default_files[1].contents, "[toolchain]\nchannel = \"stable\"\n");
    assert!(default_files[3].contents.contains("pub extern \"C\" fn hello()"));
    let legacy = project_files(BuildProfile::LegacyCompatible, &template(), &names).unwrap();
    assert_eq!(legacy[0].contents, default_files[0].contents);
    assert!(legacy[1].contents.contains("channel = \"nightly\""));
    assert!(legacy[1].contents.contains("rust-src"));
    assert!(legacy[2].contents.contains("target-cpu=mvp"));
    assert!(legacy[2].contents.contains("getrandom_backend"));
    let mut broken = template();
    broken.lib_rs = "nothing here".to_string();
    assert!(matches!(
        project_files(BuildProfile::Default, &broken, &names),
        Err(PipelineError::TemplateIntegrity)
    ));
}

#[test]
fn build_outcomes() {
    assert_eq!(
        build_outcome(false, "out".to_string(), "err".to_string(), true),
        Err(PipelineError::BuildFailed { stdout: "out".to_string(), stderr: "err".to_string() })
    );
    assert_eq!(
        build_outcome(true, String::new(), String::new(), false),
        Err(PipelineError::ArtifactMissing)
    );
    assert_eq!(build_outcome(true, String::new(), String::new(), true), Ok(()));
}

#[test]
fn tool_outcomes() {
    assert_eq!(optimizer_outcome(ToolRun::NotFound), Ok(ToolStatus::NotFound));
    assert_eq!(optimizer_outcome(exited(true, "")), Ok(ToolStatus::Passed));
    assert_eq!(
        optimizer_outcome(exited(false, "bad")),
        Err(PipelineError::OptimizationFailed { stderr: "bad".to_string() })
    );
    assert_eq!(validator_outcome(ToolRun::NotFound), Ok(ToolStatus::NotFound));
    assert_eq!(validator_outcome(exited(true, "")), Ok(ToolStatus::Passed));
    assert_eq!(
        validator_outcome(exited(false, "bulk")),
        Err(PipelineError::VerificationFailed { stderr: "bulk".to_string() })
    );
}

#[test]
fn size_savings() {
    assert_eq!(size_saving(1000, 250), SizeSaving { saved: 750, percent: 75 });
    assert_eq!(size_saving(3, 2), SizeSaving { saved: 1, percent: 33 });
    assert_eq!(size_saving(8, 7), SizeSaving { saved: 1, percent: 13 });
    assert_eq!(size_saving(100, 120), SizeSaving { saved: 0, percent: 0 });
    assert_eq!(size_saving(0, 0), SizeSaving { saved: 0, percent: 0 });
    assert_eq!(size_saving(u64::MAX, 0), SizeSaving { saved: u64::MAX, percent: 100 });
}

#[test]
fn default_build_optimizes_then_copies_and_skips_validation() {
    let (mut p, a) = up_to_build(BuildProfile::Default, false, 1000);
    match a {
        Action::RunOptimizer { args } => {
            assert_eq!(args.len(), 8);
            assert_eq!(args[1], ARTIFACT);
            assert!(args.contains(&"--enable-bulk-memory".to_string()));
        }
        _ => panic!("expected the optimiser"),
    }
    assert_eq!(p.stage, Stage::AwaitOptimizer);
    expect_copy(p.step(Event::OptimizerRan { run: exited(true, ""), size: 600 }));
    let a = p.step(Event::ArtifactCopied);
    assert!(matches!(a, Action::Finish { size: 600 }));
    assert_eq!(p.stage, Stage::Finished);
}

#[test]
fn legacy_build_validation_failure_is_fatal() {
    let (mut p, a) = up_to_build(BuildProfile::LegacyCompatible, false, 1000);
    match a {
        Action::RunOptimizer { args } => assert_eq!(args, strs(&["-Oz", ARTIFACT, "-o", ARTIFACT])),
        _ => panic!("expected the optimiser"),
    }
    expect_copy(p.step(Event::OptimizerRan { run: exited(true, ""), size: 700 }));
    let a = p.step(Event::ArtifactCopied);
    match a {
        Action::RunValidator { args } => {
            assert_eq!(args, strs(&["validate", "--features=-bulk-memory", "/out/contract.wasm"]))
        }
        _ => panic!("expected the validator"),
    }
    let a = p.step(Event::ValidatorRan { run: exited(false, "memory.copy found") });
    match a {
        Action::Fail(e) => assert_eq!(
            e,
            PipelineError::VerificationFailed { stderr: "memory.copy found".to_string() }
        ),
        _ => panic!("expected a failure"),
    }
    assert_eq!(p.stage, Stage::Failed);
}

#[test]
fn legacy_build_passes_validation() {
    let (mut p, a) = up_to_build(BuildProfile::LegacyCompatible, true, 900);
    expect_copy(a);
    assert!(matches!(p.step(Event::ArtifactCopied), Action::RunValidator { .. }));
    let a = p.step(Event::ValidatorRan { run: exited(true, "") });
    assert!(matches!(a, Action::Finish { size: 900 }));
}

#[test]
fn missing_tools_are_warnings_only() {
    let (mut p, _) = up_to_build(BuildProfile::LegacyCompatible, false, 900);
    expect_copy(p.step(Event::OptimizerRan { run: ToolRun::NotFound, size: 900 }));
    assert!(matches!(p.step(Event::ArtifactCopied), Action::RunValidator { .. }));
    let a = p.step(Event::ValidatorRan { run: ToolRun::NotFound });
    assert!(matches!(a, Action::Finish { size: 900 }));
}

#[test]
fn skipping_optimization_reports_raw_size() {
    let (mut p, a) = up_to_build(BuildProfile::Default, true, 1234);
    expect_copy(a);
    let a = p.step(Event::ArtifactCopied);
    assert!(matches!(a, Action::Finish { size: 1234 }));
    assert_eq!(p.stage, Stage::Finished);
    let (mut p, a) = up_to_build(BuildProfile::LegacyCompatible, true, 1234);
    expect_copy(a);
    assert!(matches!(p.step(Event::ArtifactCopied), Action::RunValidator { .. }));
}

#[test]
fn optimizer_failure_is_fatal_before_the_copy() {
    let (mut p, _) = up_to_build(BuildProfile::Default, false, 1000);
    let a = p.step(Event::OptimizerRan { run: exited(false, "parse error"), size: 1000 });
    assert!(matches!(a, Action::Fail(PipelineError::OptimizationFailed { .. })));
    assert_eq!(p.stage, Stage::Failed);
    assert!(!p.accepts_event(&Event::ArtifactCopied));
}

#[test]
fn no_exports_stops_before_compiling() {
    let mut p = Pipeline::new(BuildProfile::Default, false, "o.wasm".to_string(), template());
    let source = "def _private():\n    pass\n".to_string();
    let event = Event::SourceRead(source);
    assert!(p.accepts_event(&event));
    let a = p.step(event);
    assert!(matches!(a, Action::Fail(PipelineError::NoExports)));
    assert_eq!(p.stage, Stage::Failed);
    assert!(!p.accepts_event(&Event::ProjectWritten));
    assert!(!p.accepts_event(&Event::IoFailed("late".to_string())));
}

#[test]
fn failed_native_build_carries_both_streams() {
    let mut p = Pipeline::new(BuildProfile::Default, false, "o.wasm".to_string(), template());
    p.step(Event::SourceRead(HELLO.to_string()));
    p.step(Event::ProjectWritten);
    let a = p.step(Event::BuildExited {
        success: false,
        stdout: "so".to_string(),
        stderr: "se".to_string(),
        artifact_exists: false,
        size: 0,
    });
    match a {
        Action::Fail(e) => assert_eq!(
            e,
            PipelineError::BuildFailed { stdout: "so".to_string(), stderr: "se".to_string() }
        ),
        _ => panic!("expected a failure"),
    }
}

#[test]
fn repeated_generation_is_identical() {
    let mut first = Pipeline::new(BuildProfile::LegacyCompatible, false, "o.wasm".to_string(), template());
    let mut second = Pipeline::new(BuildProfile::LegacyCompatible, false, "o.wasm".to_string(), template());
    let a1 = first.step(Event::SourceRead(HELLO.to_string()));
    let a2 = second.step(Event::SourceRead(HELLO.to_string()));
    match (a1, a2) {
        (Action::WriteProject { files: f1, .. }, Action::WriteProject { files: f2, .. }) => {
            assert_eq!(f1.len(), f2.len());
            for (x, y) in f1.iter().zip(f2.iter()) {
                assert_eq!(x.path, y.path);
                assert_eq!(x.contents, y.contents);
            }
        }
        _ => panic!("expected project files"),
    }
}

#[test]
fn io_failure_stops_the_build() {
    let mut p = Pipeline::new(BuildProfile::Default, false, "o.wasm".to_string(), template());
    let a = p.step(Event::IoFailed("cannot read".to_string()));
    match a {
        Action::Fail(e) => assert_eq!(e, PipelineError::Io("cannot read".to_string())),
        _ => panic!("expected a failure"),
    }
}
