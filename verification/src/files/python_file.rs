//! One source file as read from disk, and its classification into a parsed
//! module once the surrounding program has run the syntax parser over it.

use crate::analysis_error::{err_models, AnalysisError, ErrorModel};
use crate::ast::{Stmt, StmtModel};
use crate::files::parsed_python_file::{ParsedPythonFile, ParsedPythonFileModel};
use crate::functions::{fixtures_mapping_model, functions_model, get_fixtures_mapping,
    get_functions, get_test_cases, test_cases_model, FunctionMap};
use vstd::prelude::*;

verus! {

/// A source file: its text and the path it was read from.
#[derive(Debug, PartialEq, Eq)]
pub struct PythonFile {
    pub content: String,
    pub filename: String,
}

/// The mathematical shape of a [`PythonFile`].
pub struct PythonFileModel {
    pub content: Seq<char>,
    pub filename: Seq<char>,
}

impl View for PythonFile {
    type V = PythonFileModel;

    open spec fn view(&self) -> PythonFileModel {
        PythonFileModel { content: self.content@, filename: self.filename@ }
    }
}

/// What classifying one module yields: with no syntax tree, the sole
/// `UnparsableFile` finding and empty registries; with one, the provider and
/// consumer registries its function definitions build, and no findings yet.
pub open spec fn parse_spec(
    fm: PythonFileModel,
    module: Option<Seq<StmtModel>>,
) -> ParsedPythonFileModel {
    match module {
        None => ParsedPythonFileModel {
            file: fm,
            errors: seq![ErrorModel::UnparsableFile],
            fixtures: Seq::empty(),
            test_cases: Seq::empty(),
        },
        Some(stmts) => {
            let functions = functions_model(stmts);
            ParsedPythonFileModel {
                file: fm,
                errors: Seq::empty(),
                fixtures: fixtures_mapping_model(functions),
                test_cases: test_cases_model(functions),
            }
        },
    }
}

impl PythonFile {
    /// Classify one module.  `module` holds the file's top-level statements
    /// as the surrounding program parsed them, or `None` when the parser
    /// could not produce a syntax tree.
    pub fn parse(file: PythonFile, module: Option<Vec<Stmt>>) -> (r: ParsedPythonFile)
        ensures
            r@ == parse_spec(
                file@,
                match module {
                    Some(stmts) => Some(stmts.deep_view()),
                    None => None,
                },
            ),
            r.fixtures.wf(),
            r.test_cases.wf(),
    {
        match module {
            None => {
                let r = ParsedPythonFile {
                    file,
                    errors: vec![AnalysisError::UnparsableFile],
                    fixtures: FunctionMap::new(),
                    test_cases: FunctionMap::new(),
                };
                proof {
                    assert(err_models(r.errors@) =~= seq![ErrorModel::UnparsableFile]);
                }
                r
            },
            Some(stmts) => {
                let functions = get_functions(&stmts);
                let fixtures = get_fixtures_mapping(&functions);
                let test_cases = get_test_cases(&functions);
                let r = ParsedPythonFile { file, errors: Vec::new(), fixtures, test_cases };
                proof {
                    assert(err_models(r.errors@) =~= Seq::<ErrorModel>::empty());
                }
                r
            },
        }
    }
}

} // verus!
