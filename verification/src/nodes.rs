//! The provider ("fixture") predicate over decorator expressions and
//! function definitions.
//!
//! A decorator marks a provider exactly when it is a call expression whose
//! callee is an attribute access of the shape `pytest.fixture`: the attribute
//! name must be `fixture` and its base a bare identifier that textually
//! equals `pytest`.  Any other decorator shape (bare name, different
//! attribute, nested call) does not qualify.

use crate::ast::{expr_model, expr_model_list, lemma_expr_model_list, ExprModel, FunctionDef,
    FunctionDefModel, PyExpr};
use vstd::prelude::*;

verus! {

/// Whether one decorator expression has the exact shape `pytest.fixture(...)`.
pub open spec fn is_fixture_decorator(e: ExprModel) -> bool {
    match e {
        ExprModel::Call { func } => match *func {
            ExprModel::Attribute { value, attr } => {
                &&& attr == "fixture"@
                &&& (*value matches ExprModel::Name { id } && id == "pytest"@)
            },
            _ => false,
        },
        _ => false,
    }
}

/// Whether a function definition is a provider: at least one of its
/// decorators has the `pytest.fixture(...)` shape.
pub open spec fn is_provider(f: FunctionDefModel) -> bool {
    exists|i: int|
        0 <= i < f.decorator_list.len() && is_fixture_decorator(#[trigger] f.decorator_list[i])
}

/// Shapes that can say whether they mark (or are marked as) a provider.
pub trait FunctionUtil {
    /// What the test decides, stated over the model.
    spec fn pytest_fixture_spec(&self) -> bool;

    /// Decide the provider predicate.
    fn is_pytest_fixture(&self) -> (r: bool)
        ensures
            r == self.pytest_fixture_spec(),
    ;
}

impl FunctionUtil for PyExpr {
    open spec fn pytest_fixture_spec(&self) -> bool {
        is_fixture_decorator(self@)
    }

    fn is_pytest_fixture(&self) -> (r: bool) {
        match self {
            PyExpr::Call { func } => {
                proof {
                    assert(self@ == ExprModel::Call { func: Box::new(expr_model(**func)) });
                }
                match &**func {
                    PyExpr::Attribute { value, attr } => {
                        proof {
                            assert(expr_model(**func) == ExprModel::Attribute {
                                value: Box::new(expr_model(**value)),
                                attr: attr@,
                            });
                        }
                        let fixture_lit = String::from_str("fixture");
                        let is_fixture_attr = attr.eq(&fixture_lit);
                        let is_pytest_name = match &**value {
                            PyExpr::Name { id } => {
                                proof {
                                    assert(expr_model(**value) == ExprModel::Name { id: id@ });
                                }
                                let pytest_lit = String::from_str("pytest");
                                id.eq(&pytest_lit)
                            },
                            _ => {
                                proof {
                                    assert(!(expr_model(**value) is Name));
                                }
                                false
                            },
                        };
                        is_fixture_attr && is_pytest_name
                    },
                    _ => {
                        proof {
                            assert(!(expr_model(**func) is Attribute));
                        }
                        false
                    },
                }
            },
            _ => false,
        }
    }
}

impl FunctionUtil for FunctionDef {
    open spec fn pytest_fixture_spec(&self) -> bool {
        is_provider(self@)
    }

    fn is_pytest_fixture(&self) -> (r: bool) {
        proof {
            lemma_expr_model_list(self.decorator_list@);
        }
        for k in 0..self.decorator_list.len()
            invariant
                self@.decorator_list.len() == self.decorator_list@.len(),
                forall|i: int|
                    0 <= i < self.decorator_list@.len() ==> self@.decorator_list[i] == expr_model(
                        #[trigger] self.decorator_list@[i],
                    ),
                forall|i: int|
                    0 <= i < k ==> !is_fixture_decorator(
                        expr_model(#[trigger] self.decorator_list@[i]),
                    ),
        {
            if self.decorator_list[k].is_pytest_fixture() {
                proof {
                    assert(self@.decorator_list[k as int] == expr_model(
                        self.decorator_list@[k as int],
                    ));
                }
                return true;
            }
        }
        proof {
            assert forall|i: int|
                0 <= i < self@.decorator_list.len() implies !is_fixture_decorator(
                #[trigger] self@.decorator_list[i],
            ) by {
                assert(self@.decorator_list[i] == expr_model(self.decorator_list@[i]));
            }
        }
        false
    }
}

} // verus!
