use pytest_typechecker::ast::{Arg, FunctionDef, PyExpr, Stmt};
use pytest_typechecker::functions::{
    get_fixtures_mapping, get_functions, get_return_annotation, get_test_cases, FunctionMap,
};
use pytest_typechecker::nodes::FunctionUtil;

fn name_expr(id: &str) -> PyExpr {
    PyExpr::Name { id: id.to_string() }
}

fn get_function_args(arg: &str, annotation: Option<PyExpr>) -> Arg {
    Arg {
        name: arg.to_string(),
        annotation,
        annotation_start: 0,
    }
}

fn get_function(
    name: &str,
    args: Vec<Arg>,
    returns: Option<PyExpr>,
    decorator_list: Vec<PyExpr>,
) -> Stmt {
    Stmt::FunctionDef(FunctionDef {
        name: name.to_string(),
        args,
        returns,
        decorator_list,
    })
}

fn get_test_case(name: &str, args: Vec<Arg>, returns: Option<PyExpr>) -> Stmt {
    get_function(name, args, returns, Vec::new())
}

fn pytest_fixture_decorator() -> PyExpr {
    PyExpr::Call {
        func: Box::new(PyExpr::Attribute {
            value: Box::new(name_expr("pytest")),
            attr: "fixture".to_string(),
        }),
    }
}

fn get_fixture(name: &str, args: Vec<Arg>, returns: Option<PyExpr>) -> Stmt {
    get_function(name, args, returns, vec![pytest_fixture_decorator()])
}

fn create_functions() -> Vec<Stmt> {
    vec![
        get_test_case(
            "test_case_1",
            vec![get_function_args("fixture1", Some(name_expr("int")))],
            None,
        ),
        get_fixture("fixture_1", Vec::new(), Some(name_expr("int"))),
    ]
}

fn as_function_def(s: &Stmt) -> FunctionDef {
    match s {
        Stmt::FunctionDef(f) => f.clone(),
        Stmt::Other => panic!("not a function definition"),
    }
}

#[test]
fn assert_get_functions_empty() {
    assert_eq!(get_functions(&Vec::new()), Vec::new())
}

#[test]
fn assert_get_functions() {
    let functions = create_functions();
    let expected: Vec<FunctionDef> = functions.iter().map(as_function_def).collect();

    assert_eq!(get_functions(&functions), expected)
}

#[test]
fn assert_get_fixtures_mapping() {
    let functions = get_functions(&create_functions());

    let mut expected = FunctionMap::new();
    expected.insert(functions[1].clone());

    assert_eq!(get_fixtures_mapping(&functions), expected);
}

#[test]
fn assert_get_test_cases() {
    let functions = get_functions(&create_functions());

    let mut expected = FunctionMap::new();
    expected.insert(functions[0].clone());

    assert_eq!(get_test_cases(&functions), expected);
}

#[test]
fn assert_get_return_annotation() {
    let functions = get_functions(&create_functions());
    let expected = vec![None, Some("int".to_string())];

    assert_eq!(
        functions
            .iter()
            .map(get_return_annotation)
            .collect::<Vec<Option<String>>>(),
        expected
    );
}

#[test]
fn assert_pytest_fixture() {
    let func = get_fixture("fixture", Vec::new(), None);

    assert!(as_function_def(&func).is_pytest_fixture());
}

#[test]
fn assert_not_pytest_fixture() {
    let func = get_function("fixture", Vec::new(), None, Vec::new());

    assert!(!as_function_def(&func).is_pytest_fixture());
}

#[test]
fn fixture_decorator_must_name_pytest() {
    let decorator = PyExpr::Call {
        func: Box::new(PyExpr::Attribute {
            value: Box::new(name_expr("mylib")),
            attr: "fixture".to_string(),
        }),
    };
    let func = get_function("fixture", Vec::new(), None, vec![decorator]);

    assert!(!as_function_def(&func).is_pytest_fixture());
}

#[test]
fn fixture_decorator_must_be_a_call() {
    let decorator = PyExpr::Attribute {
        value: Box::new(name_expr("pytest")),
        attr: "fixture".to_string(),
    };
    let func = get_function("fixture", Vec::new(), None, vec![decorator]);

    assert!(!as_function_def(&func).is_pytest_fixture());
}

#[test]
fn test_prefix_without_fixture_is_consumer() {
    let functions = get_functions(&vec![
        get_fixture("test_looks_like_consumer", Vec::new(), Some(name_expr("int"))),
        get_test_case("helper", Vec::new(), None),
    ]);
    let test_cases = get_test_cases(&functions);
    let fixtures = get_fixtures_mapping(&functions);

    // A fixture keeps its `test_`-named definition out of the consumer set,
    // and a name without the prefix never enters it.
    assert_eq!(test_cases, FunctionMap::new());
    let mut expected_fixtures = FunctionMap::new();
    expected_fixtures.insert(functions[0].clone());
    assert_eq!(fixtures, expected_fixtures);
}
