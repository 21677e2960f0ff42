use pytest_typechecker::ast::PyExpr;
use pytest_typechecker::signature::{render, resolve, sig_eq, TypeSignature};

fn name_expr(id: &str) -> PyExpr {
    PyExpr::Name { id: id.to_string() }
}

fn subscript(base: &str, slice: PyExpr) -> PyExpr {
    PyExpr::Subscript {
        value: Box::new(name_expr(base)),
        slice: Box::new(slice),
    }
}

fn atom(name: &str) -> TypeSignature {
    TypeSignature::Atom {
        name: name.to_string(),
    }
}

fn parameterized(base: &str, params: Vec<TypeSignature>) -> TypeSignature {
    TypeSignature::Parameterized {
        base: base.to_string(),
        params,
    }
}

#[test]
fn resolve_bare_name_is_atom() {
    assert_eq!(resolve(&name_expr("int")), Some(atom("int")));
}

#[test]
fn resolve_subscript_is_parameterized() {
    let expr = subscript("List", name_expr("int"));
    assert_eq!(resolve(&expr), Some(parameterized("List", vec![atom("int")])));
}

#[test]
fn resolve_tuple_slice_spreads_parameters() {
    let expr = subscript(
        "Dict",
        PyExpr::Tuple {
            elts: vec![name_expr("int"), name_expr("str")],
        },
    );
    assert_eq!(
        resolve(&expr),
        Some(parameterized("Dict", vec![atom("int"), atom("str")]))
    );
}

#[test]
fn resolve_unsupported_shapes_is_none() {
    assert_eq!(resolve(&PyExpr::Other), None);
    let attribute = PyExpr::Attribute {
        value: Box::new(name_expr("typing")),
        attr: "List".to_string(),
    };
    assert_eq!(resolve(&attribute), None);
    // A subscript whose base is not a bare name is unsupported too.
    let expr = PyExpr::Subscript {
        value: Box::new(attribute),
        slice: Box::new(name_expr("int")),
    };
    assert_eq!(resolve(&expr), None);
    // One unsupported tuple element spoils the whole tuple.
    let tuple = PyExpr::Tuple {
        elts: vec![name_expr("int"), PyExpr::Other],
    };
    assert_eq!(resolve(&tuple), None);
}

#[test]
fn render_nested_signature() {
    let expr = subscript("List", subscript("List", name_expr("int")));
    let sig = resolve(&expr).unwrap();
    assert_eq!(render(&sig), "List[List[int]]".to_string());
}

#[test]
fn render_parameter_list_with_separator() {
    let expr = subscript(
        "Dict",
        PyExpr::Tuple {
            elts: vec![name_expr("int"), name_expr("str")],
        },
    );
    let sig = resolve(&expr).unwrap();
    assert_eq!(render(&sig), "Dict[int, str]".to_string());
}

#[test]
fn render_bare_tuple_has_no_brackets() {
    let expr = PyExpr::Tuple {
        elts: vec![name_expr("int"), name_expr("str")],
    };
    let sig = resolve(&expr).unwrap();
    assert_eq!(render(&sig), "int, str".to_string());
}

#[test]
fn structural_equality_is_reflexive_and_symmetric() {
    let a = parameterized("Dict", vec![atom("int"), atom("str")]);
    let b = parameterized("Dict", vec![atom("int"), atom("str")]);
    assert!(sig_eq(&a, &a));
    assert!(sig_eq(&a, &b));
    assert!(sig_eq(&b, &a));
}

#[test]
fn structural_equality_is_order_sensitive() {
    let a = parameterized("Dict", vec![atom("int"), atom("str")]);
    let b = parameterized("Dict", vec![atom("str"), atom("int")]);
    assert!(!sig_eq(&a, &b));
}

#[test]
fn structural_equality_distinguishes_variants_and_lengths() {
    let a = parameterized("List", vec![atom("int")]);
    assert!(!sig_eq(&a, &atom("List")));
    let b = parameterized("List", vec![atom("int"), atom("int")]);
    assert!(!sig_eq(&a, &b));
    let t = TypeSignature::TupleOf {
        elements: vec![atom("int")],
    };
    assert!(!sig_eq(&a, &t));
}

#[test]
fn round_trip_through_source_shapes() {
    // A signature written back as source resolves to itself.
    let sig = parameterized("Dict", vec![atom("int"), parameterized("List", vec![atom("str")])]);
    let source = subscript(
        "Dict",
        PyExpr::Tuple {
            elts: vec![name_expr("int"), subscript("List", name_expr("str"))],
        },
    );
    assert_eq!(resolve(&source), Some(sig));
}
