use monty_near::catalog::near_external_functions;
use monty_near::compile::precompile_contract;
use monty_near::dispatch::{contract_program, generate_dispatcher};
use monty_near::error::{CompileStage, PipelineError};
use monty_near::glue::{generate_exports, generate_lib_rs};

const TEMPLATE: &str = "use shared::run_method;\n\n// @MONTY_BYTECODE_STATICS\n\n// @MONTY_EXPORTS\n";

fn names(list: &[&str]) -> Vec<String> {
    list.iter().map(|s| s.to_string()).collect()
}

#[test]
fn dispatcher_for_three_methods() {
    let d = generate_dispatcher(&names(&["a", "b", "c"]));
    assert_eq!(
        d,
        "if _method == \"a\":\n    a()\nelif _method == \"b\":\n    b()\nelif _method == \"c\":\n    c()\n"
    );
    assert!(!d.contains("else"));
}

#[test]
fn dispatcher_for_one_and_none() {
    assert_eq!(generate_dispatcher(&names(&["hello"])), "if _method == \"hello\":\n    hello()\n");
    assert_eq!(generate_dispatcher(&[]), "");
}

#[test]
fn program_is_source_blank_line_dispatcher() {
    let p = contract_program("def f():\n    pass", &names(&["f"]));
    assert_eq!(p, "def f():\n    pass\n\nif _method == \"f\":\n    f()\n");
}

#[test]
fn export_block_for_one_method() {
    assert_eq!(
        generate_exports(&names(&["hello"])),
        "#[no_mangle]\npub extern \"C\" fn hello() {\n    run_method(CONTRACT_BYTECODE, \"hello\");\n}\n\n"
    );
}

#[test]
fn glue_for_hello_exposes_one_symbol() {
    let glue = generate_lib_rs(TEMPLATE, &names(&["hello"])).unwrap();
    let expected = "use shared::run_method;\n\nstatic CONTRACT_BYTECODE: &[u8] = include_bytes!(\"contract.bin\");\n\n\n#[no_mangle]\npub extern \"C\" fn hello() {\n    run_method(CONTRACT_BYTECODE, \"hello\");\n}\n\n\n";
    assert_eq!(glue, expected);
    assert_eq!(glue.matches("pub extern \"C\" fn ").count(), 1);
}

#[test]
fn glue_symbols_match_method_names() {
    let methods = names(&["greet", "echo", "counter"]);
    let glue = generate_lib_rs(TEMPLATE, &methods).unwrap();
    let symbols: Vec<String> = glue
        .split("pub extern \"C\" fn ")
        .skip(1)
        .map(|rest| rest.split('(').next().unwrap().to_string())
        .collect();
    assert_eq!(symbols, methods);
}

#[test]
fn glue_markers_replaced_in_either_order() {
    let template = "// @MONTY_EXPORTS\n// @MONTY_BYTECODE_STATICS\n";
    let glue = generate_lib_rs(template, &names(&["x"])).unwrap();
    assert!(glue.starts_with("#[no_mangle]\npub extern \"C\" fn x()"));
    assert!(glue.ends_with("include_bytes!(\"contract.bin\");\n\n"));
    assert!(!glue.contains("@MONTY"));
}

#[test]
fn missing_marker_is_a_template_defect() {
    let r = generate_lib_rs("// @MONTY_BYTECODE_STATICS\n", &names(&["x"]));
    assert_eq!(r, Err(PipelineError::TemplateIntegrity));
}

#[test]
fn duplicated_marker_is_a_template_defect() {
    let template = "// @MONTY_BYTECODE_STATICS\n// @MONTY_EXPORTS\n// @MONTY_EXPORTS\n";
    assert_eq!(generate_lib_rs(template, &names(&["x"])), Err(PipelineError::TemplateIntegrity));
}

#[test]
fn host_catalog_is_fixed_and_ordered() {
    let catalog = near_external_functions();
    assert_eq!(catalog.len(), 59);
    assert_eq!(catalog[0], "value_return");
    assert_eq!(catalog[13], "keccak256");
    assert_eq!(catalog[58], "bls12381_p2_decompress");
    assert_eq!(catalog, near_external_functions());
}

#[test]
fn contract_compiles_to_a_blob() {
    let source = "def hello():\n    return \"Hello from Monty on NEAR!\"\n";
    let blob = precompile_contract(source, &names(&["hello"])).unwrap();
    assert!(!blob.is_empty());
}

#[test]
fn rejected_program_fails_at_compile_stage() {
    let r = precompile_contract("x = (", &names(&["x"]));
    assert!(matches!(
        r,
        Err(PipelineError::CompilationFailed { stage: CompileStage::Compile, .. })
    ));
}

#[test]
fn dispatcher_has_two_lines_per_method() {
    let d = generate_dispatcher(&names(&["a", "bb", "ccc", "d"]));
    assert_eq!(d.lines().count(), 8);
    assert_eq!(d.lines().filter(|l| l.starts_with("if ")).count(), 1);
    assert_eq!(d.lines().filter(|l| l.starts_with("elif ")).count(), 3);
    assert!(!d.lines().any(|l| l.starts_with("else")));
}
