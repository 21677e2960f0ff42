//! The free-standing provider test over a whole function definition.

use crate::ast::FunctionDef;
use crate::nodes::{is_provider, FunctionUtil};
use vstd::prelude::*;

verus! {

/// Whether a function definition is a provider: some decorator of it has the
/// exact shape `pytest.fixture(...)`.
pub fn is_fixture(func: &FunctionDef) -> (r: bool)
    ensures
        r == is_provider(func@),
{
    func.is_pytest_fixture()
}

} // verus!
