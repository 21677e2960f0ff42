//! One analyzed module: the source file it came from, the provider and
//! consumer registries its definitions build, and the findings about it.

use crate::analysis_error::{err_models, AnalysisError, ErrorModel};
use crate::ast::FunctionDefModel;
use crate::files::python_file::{PythonFile, PythonFileModel};
use crate::functions::FunctionMap;
use vstd::prelude::*;

verus! {

/// One module after classification: the file, the findings so far, and the
/// provider and consumer registries.
#[derive(Debug)]
pub struct ParsedPythonFile {
    pub file: PythonFile,
    pub errors: Vec<AnalysisError>,
    pub fixtures: FunctionMap,
    pub test_cases: FunctionMap,
}

/// The mathematical shape of a [`ParsedPythonFile`].
pub struct ParsedPythonFileModel {
    pub file: PythonFileModel,
    pub errors: Seq<ErrorModel>,
    pub fixtures: Seq<FunctionDefModel>,
    pub test_cases: Seq<FunctionDefModel>,
}

impl View for ParsedPythonFile {
    type V = ParsedPythonFileModel;

    open spec fn view(&self) -> ParsedPythonFileModel {
        ParsedPythonFileModel {
            file: self.file@,
            errors: err_models(self.errors@),
            fixtures: self.fixtures@,
            test_cases: self.test_cases@,
        }
    }
}

impl ParsedPythonFile {
    /// Both registries carry at most one entry per name.
    pub open spec fn wf(&self) -> bool {
        self.fixtures.wf() && self.test_cases.wf()
    }
}

} // verus!
