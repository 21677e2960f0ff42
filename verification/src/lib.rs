//! A static type-consistency checker for pytest-style test suites.
//!
//! Test suites built on dependency-providing fixtures pair each provider (a
//! function decorated with `pytest.fixture`) with consumers (functions whose
//! names start with `test_`) that receive the provider's value through a
//! same-named parameter.  This library checks, per module, that the type a
//! provider declares as its return annotation structurally equals the type
//! each consuming parameter annotates, and reports every disagreement as a
//! diagnostic value.
//!
//! The library works on its own model of the parsed source: the surrounding
//! program hands it each module's top-level statements as [`ast::Stmt`]
//! values (built from whatever syntax parser it uses, `None` when parsing
//! failed) and receives [`analysis_error::AnalysisError`] values back.  No
//! I/O happens here.

use vstd::prelude::*;

pub mod analysis_error;
pub mod ast;
pub mod check;
pub mod files;
pub mod fixture;
pub mod function;
pub mod functions;
pub mod nodes;
pub mod signature;

use crate::ast::{Stmt, StmtModel};
use crate::check::{check_file, file_check_model, lemma_consumer_pass_no_args};
use crate::files::parsed_python_file::{ParsedPythonFile, ParsedPythonFileModel};
use crate::functions::{fixtures_mapping_model, functions_model, lemma_no_decorators_no_providers,
    lemma_test_cases_from_functions, test_cases_model};
use crate::files::python_file::{parse_spec, PythonFile, PythonFileModel};

verus! {

/// The model of one module's parse outcome.
pub open spec fn module_model(m: Option<Vec<Stmt>>) -> Option<Seq<StmtModel>> {
    match m {
        Some(stmts) => Some(stmts.deep_view()),
        None => None,
    }
}

/// What analyzing one module leaves behind: an unparsable module keeps its
/// sole `UnparsableFile` finding and the checker is not invoked; a parsed
/// one carries the checker's full diagnostic set.
pub open spec fn checked_file_model(
    fm: PythonFileModel,
    module: Option<Seq<StmtModel>>,
) -> ParsedPythonFileModel {
    let parsed = parse_spec(fm, module);
    match module {
        None => parsed,
        Some(_) => ParsedPythonFileModel {
            errors: file_check_model(parsed.fixtures, parsed.test_cases),
            ..parsed
        },
    }
}

/// No annotation, no crash: a parsed module whose function definitions carry
/// no decorators and no parameters yields zero diagnostics.
pub proof fn lemma_no_annotations_no_diagnostics(fm: PythonFileModel, stmts: Seq<StmtModel>)
    requires
        forall|i: int|
            0 <= i < functions_model(stmts).len() ==> (#[trigger] functions_model(stmts)[
                i
            ]).decorator_list.len() == 0 && functions_model(stmts)[i].args.len() == 0,
    ensures
        checked_file_model(fm, Some(stmts)).errors == Seq::<
            crate::analysis_error::ErrorModel,
        >::empty(),
{
    let fns = functions_model(stmts);
    lemma_no_decorators_no_providers(fns);
    let tc = test_cases_model(fns);
    lemma_test_cases_from_functions(fns);
    assert forall|j: int| 0 <= j < tc.len() implies (#[trigger] tc[j]).args.len() == 0 by {
        let i0 = choose|i: int| 0 <= i < fns.len() && tc[j] == fns[i];
        assert(fns[i0].args.len() == 0);
    }
    lemma_consumer_pass_no_args(tc, fixtures_mapping_model(fns));
    assert(checked_file_model(fm, Some(stmts)).errors =~= Seq::<
        crate::analysis_error::ErrorModel,
    >::empty());
}

/// A module with zero function definitions produces zero diagnostics.
pub proof fn lemma_empty_module_no_diagnostics(fm: PythonFileModel, stmts: Seq<StmtModel>)
    requires
        functions_model(stmts).len() == 0,
    ensures
        checked_file_model(fm, Some(stmts)).errors == Seq::<
            crate::analysis_error::ErrorModel,
        >::empty(),
{
    let fns = functions_model(stmts);
    assert(fns =~= Seq::<crate::ast::FunctionDefModel>::empty());
    lemma_no_decorators_no_providers(fns);
    lemma_consumer_pass_no_args(test_cases_model(fns), fixtures_mapping_model(fns));
    assert(checked_file_model(fm, Some(stmts)).errors =~= Seq::<
        crate::analysis_error::ErrorModel,
    >::empty());
}

/// Analyze a batch of modules: each source file comes with the outcome of
/// parsing it, and leaves as a [`ParsedPythonFile`] carrying its full
/// diagnostic set.
pub fn check_and_parse_file(files: Vec<(PythonFile, Option<Vec<Stmt>>)>) -> (r: Vec<
    ParsedPythonFile,
>)
    ensures
        r@.len() == files@.len(),
        forall|i: int|
            0 <= i < files@.len() ==> (#[trigger] r@[i])@ == checked_file_model(
                files@[i].0@,
                module_model(files@[i].1),
            ),
{
    let mut files = files;
    let ghost all = files@;
    let mut out: Vec<ParsedPythonFile> = Vec::new();
    while files.len() > 0
        invariant
            out@.len() + files@.len() == all.len(),
            files@ == all.subrange(out@.len() as int, all.len() as int),
            forall|i: int|
                0 <= i < out@.len() ==> (#[trigger] out@[i])@ == checked_file_model(
                    all[i].0@,
                    module_model(all[i].1),
                ),
        decreases files@.len(),
    {
        let ghost done = out@.len() as int;
        proof {
            assert(files@[0] == all[done]);
        }
        let (file, module) = files.remove(0);
        let parsed_ok = module.is_some();
        let f = PythonFile::parse(file, module);
        if parsed_ok {
            let errors = check_file(&f);
            let checked = ParsedPythonFile {
                file: f.file,
                errors,
                fixtures: f.fixtures,
                test_cases: f.test_cases,
            };
            out.push(checked);
        } else {
            out.push(f);
        }
        proof {
            assert(files@ =~= all.subrange(done + 1, all.len() as int));
        }
    }
    out
}

} // verus!
