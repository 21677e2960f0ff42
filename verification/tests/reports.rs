use pytest_typechecker::ast::{Arg, FunctionDef, PyExpr};
use pytest_typechecker::function::{check_function_arg_types, get_line_number, ArgTypeState};
use pytest_typechecker::functions::FunctionMap;

fn name_expr(id: &str) -> PyExpr {
    PyExpr::Name { id: id.to_string() }
}

fn arg_at(name: &str, annotation: Option<PyExpr>, annotation_start: usize) -> Arg {
    Arg {
        name: name.to_string(),
        annotation,
        annotation_start,
    }
}

fn pytest_fixture_decorator() -> PyExpr {
    PyExpr::Call {
        func: Box::new(PyExpr::Attribute {
            value: Box::new(name_expr("pytest")),
            attr: "fixture".to_string(),
        }),
    }
}

fn fixture_def(name: &str, returns: Option<PyExpr>) -> FunctionDef {
    FunctionDef {
        name: name.to_string(),
        args: Vec::new(),
        returns,
        decorator_list: vec![pytest_fixture_decorator()],
    }
}

fn consumer_def(name: &str, args: Vec<Arg>) -> FunctionDef {
    FunctionDef {
        name: name.to_string(),
        args,
        returns: None,
        decorator_list: Vec::new(),
    }
}

#[test]
fn line_numbers_count_newlines_before_the_offset() {
    let content = "a\nbb\nccc".to_string();
    assert_eq!(get_line_number(&content, 0), 1);
    assert_eq!(get_line_number(&content, 1), 1);
    assert_eq!(get_line_number(&content, 2), 2);
    assert_eq!(get_line_number(&content, 5), 3);
    assert_eq!(get_line_number(&content, 8), 3);
}

#[test]
fn arg_states_cover_all_four_outcomes() {
    let mut fixtures = FunctionMap::new();
    fixtures.insert(fixture_def("db", Some(name_expr("int"))));
    fixtures.insert(fixture_def("bare", None));

    let content = "line one\nline two\nline three\n".to_string();
    let func = consumer_def(
        "test_x",
        vec![
            arg_at("db", Some(name_expr("int")), 0),
            arg_at("db", Some(name_expr("str")), 9),
            arg_at("db", None, 0),
            arg_at("bare", Some(name_expr("str")), 18),
            arg_at("unrelated", None, 0),
        ],
    );

    let checked = check_function_arg_types(&content, &func, &fixtures);
    assert_eq!(checked.name, "test_x".to_string());
    assert_eq!(
        checked.args,
        vec![
            ArgTypeState::CorrectType {
                name: "db".to_string(),
            },
            ArgTypeState::IncorrectType {
                name: "db".to_string(),
                expected: "int".to_string(),
                provided: "str".to_string(),
                line: 2,
            },
            ArgTypeState::MissingType {
                name: "db".to_string(),
            },
            ArgTypeState::Error {
                name: "bare".to_string(),
                msg: "Fixture bare is missing return type!".to_string(),
                line: 3,
            },
        ]
    );
}
