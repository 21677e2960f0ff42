use pytest_typechecker::analysis_error::AnalysisError;
use pytest_typechecker::ast::{Arg, FunctionDef, PyExpr, Stmt};
use pytest_typechecker::check::check_file;
use pytest_typechecker::check_and_parse_file;
use pytest_typechecker::files::python_file::PythonFile;

fn name_expr(id: &str) -> PyExpr {
    PyExpr::Name { id: id.to_string() }
}

fn subscript(base: &str, slice: PyExpr) -> PyExpr {
    PyExpr::Subscript {
        value: Box::new(name_expr(base)),
        slice: Box::new(slice),
    }
}

fn arg(name: &str, annotation: Option<PyExpr>) -> Arg {
    Arg {
        name: name.to_string(),
        annotation,
        annotation_start: 0,
    }
}

fn pytest_fixture_decorator() -> PyExpr {
    PyExpr::Call {
        func: Box::new(PyExpr::Attribute {
            value: Box::new(name_expr("pytest")),
            attr: "fixture".to_string(),
        }),
    }
}

fn fixture(name: &str, args: Vec<Arg>, returns: Option<PyExpr>) -> Stmt {
    Stmt::FunctionDef(FunctionDef {
        name: name.to_string(),
        args,
        returns,
        decorator_list: vec![pytest_fixture_decorator()],
    })
}

fn test_case(name: &str, args: Vec<Arg>) -> Stmt {
    Stmt::FunctionDef(FunctionDef {
        name: name.to_string(),
        args,
        returns: None,
        decorator_list: Vec::new(),
    })
}

fn analyze(stmts: Vec<Stmt>) -> Vec<AnalysisError> {
    let file = PythonFile {
        content: String::new(),
        filename: "module.py".to_string(),
    };
    let parsed = PythonFile::parse(file, Some(stmts));
    check_file(&parsed)
}

#[test]
fn matching_types_give_no_diagnostics() {
    let errors = analyze(vec![
        fixture("db", Vec::new(), Some(name_expr("int"))),
        test_case("test_x", vec![arg("db", Some(name_expr("int")))]),
    ]);
    assert_eq!(errors, Vec::new());
}

#[test]
fn mismatched_atom_gives_incorrect_argument_type() {
    let errors = analyze(vec![
        fixture("db", Vec::new(), Some(name_expr("int"))),
        test_case("test_x", vec![arg("db", Some(name_expr("str")))]),
    ]);
    assert_eq!(
        errors,
        vec![AnalysisError::IncorrectArgumentType {
            function_name: "test_x".to_string(),
            argument_name: "db".to_string(),
            expected_type: "int".to_string(),
            provided_type: "str".to_string(),
        }]
    );
}

#[test]
fn provider_without_return_annotation_is_reported_once() {
    let errors = analyze(vec![
        fixture("db", Vec::new(), None),
        test_case("test_x", vec![arg("db", Some(name_expr("int")))]),
    ]);
    assert_eq!(
        errors,
        vec![AnalysisError::FixtureMissingReturnType {
            fixture_name: "db".to_string(),
        }]
    );
}

#[test]
fn unannotated_provider_parameter_gives_missing_argument_type() {
    let errors = analyze(vec![
        fixture("db", Vec::new(), Some(name_expr("int"))),
        test_case("test_x", vec![arg("db", None)]),
    ]);
    assert_eq!(
        errors,
        vec![AnalysisError::MissingArgumentType {
            function_name: "test_x".to_string(),
            argument_name: "db".to_string(),
        }]
    );
}

#[test]
fn partially_applied_generic_differs_from_full_one() {
    let errors = analyze(vec![
        fixture(
            "rows",
            Vec::new(),
            Some(subscript("List", subscript("List", name_expr("int")))),
        ),
        test_case("test_y", vec![arg("rows", Some(subscript("List", name_expr("List"))))]),
    ]);
    assert_eq!(
        errors,
        vec![AnalysisError::IncorrectArgumentType {
            function_name: "test_y".to_string(),
            argument_name: "rows".to_string(),
            expected_type: "List[List[int]]".to_string(),
            provided_type: "List[List]".to_string(),
        }]
    );
}

#[test]
fn zero_parameters_and_no_decorators_give_no_diagnostics() {
    let errors = analyze(vec![
        test_case("test_empty", Vec::new()),
        Stmt::FunctionDef(FunctionDef {
            name: "helper".to_string(),
            args: Vec::new(),
            returns: None,
            decorator_list: Vec::new(),
        }),
    ]);
    assert_eq!(errors, Vec::new());
}

#[test]
fn module_without_function_definitions_gives_no_diagnostics() {
    assert_eq!(analyze(Vec::new()), Vec::new());
    assert_eq!(analyze(vec![Stmt::Other, Stmt::Other]), Vec::new());
}

#[test]
fn annotated_unknown_name_gives_fixture_does_not_exist() {
    let errors = analyze(vec![test_case("test_x", vec![arg("unknown", Some(name_expr("int")))])]);
    assert_eq!(
        errors,
        vec![AnalysisError::FixtureDoesNotExist {
            function_name: "test_x".to_string(),
            argument_name: "unknown".to_string(),
        }]
    );
}

#[test]
fn unannotated_unknown_name_is_silently_ignored() {
    let errors = analyze(vec![test_case("test_x", vec![arg("request", None)])]);
    assert_eq!(errors, Vec::new());
}

#[test]
fn providers_consume_other_providers() {
    let errors = analyze(vec![
        fixture("a", Vec::new(), Some(name_expr("int"))),
        fixture("b", vec![arg("a", Some(name_expr("str")))], Some(name_expr("int"))),
    ]);
    assert_eq!(
        errors,
        vec![AnalysisError::IncorrectArgumentType {
            function_name: "b".to_string(),
            argument_name: "a".to_string(),
            expected_type: "int".to_string(),
            provided_type: "str".to_string(),
        }]
    );
}

#[test]
fn unsupported_annotation_counts_as_missing() {
    // An unsupported shape resolves to no signature, which on a
    // provider-naming parameter reads as a missing annotation.
    let errors = analyze(vec![
        fixture("db", Vec::new(), Some(name_expr("int"))),
        test_case("test_x", vec![arg("db", Some(PyExpr::Other))]),
    ]);
    assert_eq!(
        errors,
        vec![AnalysisError::MissingArgumentType {
            function_name: "test_x".to_string(),
            argument_name: "db".to_string(),
        }]
    );
}

#[test]
fn last_provider_definition_wins() {
    let errors = analyze(vec![
        fixture("db", Vec::new(), Some(name_expr("str"))),
        fixture("db", Vec::new(), Some(name_expr("int"))),
        test_case("test_x", vec![arg("db", Some(name_expr("int")))]),
    ]);
    assert_eq!(errors, Vec::new());
}

#[test]
fn unparsable_module_keeps_its_sole_diagnostic() {
    let file = PythonFile {
        content: "def broken(".to_string(),
        filename: "module.py".to_string(),
    };
    let results = check_and_parse_file(vec![(file, None)]);
    assert_eq!(results.len(), 1);
    assert_eq!(results[0].errors, vec![AnalysisError::UnparsableFile]);
}

#[test]
fn pipeline_checks_parsed_modules() {
    let file = PythonFile {
        content: String::new(),
        filename: "module.py".to_string(),
    };
    let stmts = vec![
        fixture("db", Vec::new(), Some(name_expr("int"))),
        test_case("test_x", vec![arg("db", Some(name_expr("str")))]),
    ];
    let results = check_and_parse_file(vec![(file, Some(stmts))]);
    assert_eq!(results.len(), 1);
    assert_eq!(
        results[0].errors,
        vec![AnalysisError::IncorrectArgumentType {
            function_name: "test_x".to_string(),
            argument_name: "db".to_string(),
            expected_type: "int".to_string(),
            provided_type: "str".to_string(),
        }]
    );
}

#[test]
fn messages_carry_kind_tag_and_names() {
    let e = AnalysisError::MissingArgumentType {
        function_name: "test_x".to_string(),
        argument_name: "db".to_string(),
    };
    assert_eq!(
        e.message(),
        "[MISSING_ARGUMENT_TYPE] Function test_x has no type specified for argument db."
            .to_string()
    );
    let u = AnalysisError::UnparsableFile;
    assert_eq!(
        u.message(),
        "[UNPARSABLE_FILE] Impossible to parse file's AST.".to_string()
    );
}
