//! The files of the generated host project.
use vstd::prelude::*;
use crate::catalog::strings_view;
use crate::error::PipelineError;
use crate::glue::{generate_lib_rs, glue_source, markers_found};
use crate::profile::{
    cargo_config_file, legacy_cargo_config, legacy_toolchain, toolchain_file, BuildProfile,
};

verus! {

/// The fixed texts a project is made from: the manifest, the default
/// toolchain pin and build configuration, and the glue template.
pub struct ProjectTemplate {
    pub cargo_toml: String,
    pub rust_toolchain: String,
    pub cargo_config: String,
    pub lib_rs: String,
}

/// One text file of the project, at a path relative to its root.
pub struct ProjectFile {
    pub path: String,
    pub contents: String,
}

/// The paths and contents of a list of project files.
pub open spec fn files_view(files: Seq<ProjectFile>) -> Seq<(Seq<char>, Seq<char>)> {
    files.map_values(|f: ProjectFile| (f.path@, f.contents@))
}

/// The text files of the project for `names` under `profile`, in the order in
/// which they are written.
pub open spec fn project_files_of(
    profile: BuildProfile,
    template: ProjectTemplate,
    names: Seq<Seq<char>>,
) -> Seq<(Seq<char>, Seq<char>)> {
    seq![
        ("Cargo.toml"@, template.cargo_toml@),
        ("rust-toolchain.toml"@, match profile {
            BuildProfile::Default => template.rust_toolchain@,
            BuildProfile::LegacyCompatible => legacy_toolchain(),
        }),
        (".cargo/config.toml"@, match profile {
            BuildProfile::Default => template.cargo_config@,
            BuildProfile::LegacyCompatible => legacy_cargo_config(),
        }),
        ("src/lib.rs"@, glue_source(template.lib_rs@, names)),
    ]
}

/// Where the compiled contract is written, beside the glue source.
pub open spec fn bytecode_path_of() -> Seq<char> {
    "src/contract.bin"@
}

/// The project's text files. Fails with `TemplateIntegrity` unless the glue
/// template holds each marker exactly once.
pub fn project_files(profile: BuildProfile, template: &ProjectTemplate, method_names: &[String]) -> (r: Result<
    Vec<ProjectFile>,
    PipelineError,
>)
    ensures
        markers_found(template.lib_rs@) == (1nat, 1nat) ==> r is Ok && files_view(r->Ok_0@)
            == project_files_of(profile, *template, strings_view(method_names@)),
        markers_found(template.lib_rs@) != (1nat, 1nat) ==> r == Err::<
            Vec<ProjectFile>,
            PipelineError,
        >(PipelineError::TemplateIntegrity),
{
    let lib_rs = match generate_lib_rs(template.lib_rs.as_str(), method_names) {
        Ok(text) => text,
        Err(e) => return Err(e),
    };
    let mut files: Vec<ProjectFile> = Vec::new();
    files.push(
        ProjectFile { path: "Cargo.toml".to_owned(), contents: template.cargo_toml.clone() },
    );
    files.push(
        ProjectFile {
            path: "rust-toolchain.toml".to_owned(),
            contents: toolchain_file(profile, template.rust_toolchain.as_str()),
        },
    );
    files.push(
        ProjectFile {
            path: ".cargo/config.toml".to_owned(),
            contents: cargo_config_file(profile, template.cargo_config.as_str()),
        },
    );
    files.push(ProjectFile { path: "src/lib.rs".to_owned(), contents: lib_rs });
    assert(files_view(files@) =~= project_files_of(
        profile,
        *template,
        strings_view(method_names@),
    ));
    Ok(files)
}

/// Where the compiled contract is written, relative to the project root.
pub fn bytecode_path() -> (r: String)
    ensures
        r@ == bytecode_path_of(),
{
    "src/contract.bin".to_owned()
}

/// Generating the project twice from the same profile, template and methods
/// gives the same files, byte for byte.
pub proof fn lemma_generation_idempotent(
    profile: BuildProfile,
    template: ProjectTemplate,
    names: Seq<Seq<char>>,
    first: Seq<ProjectFile>,
    second: Seq<ProjectFile>,
)
    requires
        files_view(first) == project_files_of(profile, template, names),
        files_view(second) == project_files_of(profile, template, names),
    ensures
        files_view(first) == files_view(second),
{
}

} // verus!
