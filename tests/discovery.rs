use monty_near::discovery::{exported_names, find_exported_functions, name_is_private};
use monty_near::error::PipelineError;

#[test]
fn hello_source_exports_hello() {
    let source = "def hello():\n    return \"Hello from Monty on NEAR!\"\n";
    assert_eq!(find_exported_functions(source).unwrap(), vec!["hello".to_string()]);
}

#[test]
fn private_helper_is_not_exported() {
    let source = "def greet(name=\"World\"):\n    return f\"Hello, {name}!\"\n\ndef _helper():\n    pass\n";
    assert_eq!(find_exported_functions(source).unwrap(), vec!["greet".to_string()]);
}

#[test]
fn public_functions_come_in_source_order() {
    let source = "def zeta():\n    pass\n\nx = 1\n\ndef alpha():\n    pass\n\nasync def mid():\n    pass\n";
    assert_eq!(
        find_exported_functions(source).unwrap(),
        vec!["zeta".to_string(), "alpha".to_string(), "mid".to_string()]
    );
}

#[test]
fn nested_and_class_functions_are_not_entry_points() {
    let source = "class C:\n    def method(self):\n        pass\n\ndef outer():\n    def inner():\n        pass\n    return inner\n\nif True:\n    def hidden():\n        pass\n";
    assert_eq!(find_exported_functions(source).unwrap(), vec!["outer".to_string()]);
}

#[test]
fn only_private_functions_give_no_exports() {
    let source = "def _a():\n    pass\n\ndef _b():\n    pass\n";
    assert_eq!(find_exported_functions(source), Err(PipelineError::NoExports));
}

#[test]
fn empty_source_gives_no_exports() {
    assert_eq!(find_exported_functions(""), Err(PipelineError::NoExports));
}

#[test]
fn invalid_source_is_a_parse_error() {
    let r = find_exported_functions("def broken(:\n    pass\n");
    assert!(matches!(r, Err(PipelineError::ParseError(_))));
}

#[test]
fn exported_names_filters_statements() {
    let stmts = vec![
        Some("a".to_string()),
        None,
        Some("_b".to_string()),
        Some("c_".to_string()),
        Some("a".to_string()),
        None,
    ];
    assert_eq!(exported_names(&stmts), vec!["a".to_string(), "c_".to_string()]);
    assert_eq!(exported_names(&vec![]), Vec::<String>::new());
}

#[test]
fn privacy_marker_is_a_leading_underscore() {
    assert!(name_is_private("_x"));
    assert!(name_is_private("__init__"));
    assert!(!name_is_private("x_"));
    assert!(!name_is_private(""));
}

#[test]
fn function_defined_twice_is_exported_once() {
    let source = "def a():\n    pass\n\ndef b():\n    pass\n\ndef a():\n    return 1\n";
    assert_eq!(
        find_exported_functions(source).unwrap(),
        vec!["a".to_string(), "b".to_string()]
    );
}
