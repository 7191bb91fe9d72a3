//! The two build profiles and everything that differs between them: the
//! toolchain files, the build, optimiser and validator arguments, and whether
//! the finished module is verified.
use vstd::prelude::*;
use crate::catalog::strings_view;

verus! {

/// The runtime a build targets. `Default` is the runtime with bulk-memory
/// support; `LegacyCompatible` builds with a nightly toolchain for the MVP
/// instruction set, and its module is checked afterwards.
#[derive(Debug, Clone, Copy, PartialEq, Eq)]
pub enum BuildProfile {
    Default,
    LegacyCompatible,
}

/// The toolchain pin of a legacy-compatible build.
pub open spec fn legacy_toolchain() -> Seq<char> {
    "[toolchain]\nchannel = \"nightly\"\ntargets = [\"wasm32-unknown-unknown\"]\ncomponents = [\"rust-src\"]\n"@
}

/// The build configuration of a legacy-compatible build: the MVP target CPU
/// and a custom randomness backend.
pub open spec fn legacy_cargo_config() -> Seq<char> {
    "[build]\ntarget = \"wasm32-unknown-unknown\"\n\n[target.wasm32-unknown-unknown]\nrustflags = [\n    \"-C\", \"link-arg=-s\",\n    \"-C\", \"target-cpu=mvp\",\n    \"--cfg\", \"getrandom_backend=\\\"custom\\\"\",\n]\n"@
}

/// The arguments of the native build.
pub open spec fn build_args_of(profile: BuildProfile) -> Seq<Seq<char>> {
    match profile {
        BuildProfile::Default => seq!["build"@, "--release"@],
        BuildProfile::LegacyCompatible => seq![
            "build"@,
            "--release"@,
            "-Zbuild-std=std,panic_abort"@,
        ],
    }
}

/// The four feature flags that the optimiser needs for a default build.
pub open spec fn modern_feature_flags() -> Seq<Seq<char>> {
    seq![
        "--enable-bulk-memory"@,
        "--enable-nontrapping-float-to-int"@,
        "--enable-reference-types"@,
        "--enable-sign-ext"@,
    ]
}

/// The optimiser's arguments: the smallest size, in place on `path`.
pub open spec fn optimizer_args_of(profile: BuildProfile, path: Seq<char>) -> Seq<Seq<char>> {
    let base = seq!["-Oz"@, path, "-o"@, path];
    match profile {
        BuildProfile::Default => base + modern_feature_flags(),
        BuildProfile::LegacyCompatible => base,
    }
}

/// The validator's arguments: reject bulk-memory instructions in `path`.
pub open spec fn validator_args_of(path: Seq<char>) -> Seq<Seq<char>> {
    seq!["validate"@, "--features=-bulk-memory"@, path]
}

/// Whether a profile's module goes through the validator.
pub open spec fn verifies(profile: BuildProfile) -> bool {
    matches!(profile, BuildProfile::LegacyCompatible)
}

/// Where the build leaves the module, relative to the project root.
pub open spec fn artifact_path_of() -> Seq<char> {
    "target/wasm32-unknown-unknown/release/monty_near_contract.wasm"@
}

/// The toolchain pin to write: the template's for a default build.
pub fn toolchain_file(profile: BuildProfile, default_pin: &str) -> (r: String)
    ensures
        r@ == (match profile {
            BuildProfile::Default => default_pin@,
            BuildProfile::LegacyCompatible => legacy_toolchain(),
        }),
{
    match profile {
        BuildProfile::Default => default_pin.to_owned(),
        BuildProfile::LegacyCompatible => "[toolchain]\nchannel = \"nightly\"\ntargets = [\"wasm32-unknown-unknown\"]\ncomponents = [\"rust-src\"]\n".to_owned(),
    }
}

/// The build configuration to write: the template's for a default build.
pub fn cargo_config_file(profile: BuildProfile, default_config: &str) -> (r: String)
    ensures
        r@ == (match profile {
            BuildProfile::Default => default_config@,
            BuildProfile::LegacyCompatible => legacy_cargo_config(),
        }),
{
    match profile {
        BuildProfile::Default => default_config.to_owned(),
        BuildProfile::LegacyCompatible => "[build]\ntarget = \"wasm32-unknown-unknown\"\n\n[target.wasm32-unknown-unknown]\nrustflags = [\n    \"-C\", \"link-arg=-s\",\n    \"-C\", \"target-cpu=mvp\",\n    \"--cfg\", \"getrandom_backend=\\\"custom\\\"\",\n]\n".to_owned(),
    }
}

/// The arguments of the native build.
pub fn build_args(profile: BuildProfile) -> (r: Vec<String>)
    ensures
        strings_view(r@) == build_args_of(profile),
{
    let mut args: Vec<String> = Vec::new();
    args.push("build".to_owned());
    args.push("--release".to_owned());
    if matches!(profile, BuildProfile::LegacyCompatible) {
        args.push("-Zbuild-std=std,panic_abort".to_owned());
    }
    assert(strings_view(args@) =~= build_args_of(profile));
    args
}

/// The optimiser's arguments for the module at `path`.
pub fn optimizer_args(profile: BuildProfile, path: &str) -> (r: Vec<String>)
    ensures
        strings_view(r@) == optimizer_args_of(profile, path@),
{
    let mut args: Vec<String> = Vec::new();
    args.push("-Oz".to_owned());
    args.push(path.to_owned());
    args.push("-o".to_owned());
    args.push(path.to_owned());
    if matches!(profile, BuildProfile::Default) {
        args.push("--enable-bulk-memory".to_owned());
        args.push("--enable-nontrapping-float-to-int".to_owned());
        args.push("--enable-reference-types".to_owned());
        args.push("--enable-sign-ext".to_owned());
    }
    assert(strings_view(args@) =~= optimizer_args_of(profile, path@));
    args
}

/// The validator's arguments for the module at `path`.
pub fn validator_args(path: &str) -> (r: Vec<String>)
    ensures
        strings_view(r@) == validator_args_of(path@),
{
    let mut args: Vec<String> = Vec::new();
    args.push("validate".to_owned());
    args.push("--features=-bulk-memory".to_owned());
    args.push(path.to_owned());
    assert(strings_view(args@) =~= validator_args_of(path@));
    args
}

/// Whether the module of a build with this profile is validated.
pub fn verification_required(profile: BuildProfile) -> (r: bool)
    ensures
        r == verifies(profile),
{
    matches!(profile, BuildProfile::LegacyCompatible)
}

/// Where the build leaves the module, relative to the project root.
pub fn artifact_path() -> (r: String)
    ensures
        r@ == artifact_path_of(),
{
    "target/wasm32-unknown-unknown/release/monty_near_contract.wasm".to_owned()
}

} // verus!
