//! The consistency checker: compare every parameter that names a provider
//! against that provider's declared return type, and report disagreements.
//!
//! Policy for a parameter that names no known provider: when it carries a
//! resolvable annotation it is reported as `FixtureDoesNotExist`; without one
//! it is silently ignored (such parameters are supplied by the surrounding
//! framework, not by a user-defined provider).
//!
//! Providers are checked twice over: once for a resolvable return annotation,
//! and once with their own parameters treated like a consumer's (providers
//! may consume other providers).  Resolution is a static name lookup, so no
//! cycle detection is needed.

use crate::analysis_error::{err_models, AnalysisError, ErrorModel};
use crate::ast::{ArgModel, FunctionDef, FunctionDefModel};
use crate::files::parsed_python_file::ParsedPythonFile;
use crate::functions::{find_name, FunctionMap};
use crate::signature::{render, render_model, resolve_annotation, resolve_annotation_model,
    sig_eq};
use vstd::prelude::*;

verus! {

/// The finding for one parameter `a` of the function named `fname`, given
/// the provider registry:
/// - a name outside the registry: `FixtureDoesNotExist` when annotated with
///   a resolvable annotation, nothing otherwise;
/// - a registered name without a resolvable annotation:
///   `MissingArgumentType`;
/// - a registered name whose provider has no resolvable return type: nothing
///   (the provider's own finding covers it);
/// - both sides resolved: `IncorrectArgumentType` exactly when the two
///   signatures differ structurally.
pub open spec fn arg_finding(
    fname: Seq<char>,
    a: ArgModel,
    providers: Seq<FunctionDefModel>,
) -> Option<ErrorModel> {
    let ann = resolve_annotation_model(a.annotation);
    match find_name(providers, a.name) {
        None => match ann {
            Some(_) => Some(
                ErrorModel::FixtureDoesNotExist { function_name: fname, argument_name: a.name },
            ),
            None => None,
        },
        Some(p) => match ann {
            None => Some(
                ErrorModel::MissingArgumentType { function_name: fname, argument_name: a.name },
            ),
            Some(provided) => match resolve_annotation_model(p.returns) {
                None => None,
                Some(expected) => if expected != provided {
                    Some(
                        ErrorModel::IncorrectArgumentType {
                            function_name: fname,
                            argument_name: a.name,
                            expected_type: render_model(expected),
                            provided_type: render_model(provided),
                        },
                    )
                } else {
                    None
                },
            },
        },
    }
}

/// The findings for a parameter list, in parameter order.
pub open spec fn arg_findings(
    fname: Seq<char>,
    args: Seq<ArgModel>,
    providers: Seq<FunctionDefModel>,
) -> Seq<ErrorModel>
    decreases args.len(),
{
    if args.len() == 0 {
        Seq::empty()
    } else {
        arg_findings(fname, args.drop_last(), providers) + match arg_finding(
            fname,
            args.last(),
            providers,
        ) {
            Some(e) => seq![e],
            None => Seq::empty(),
        }
    }
}

/// Check every parameter of one function against the provider registry.
pub fn check_function_arguments(func: &FunctionDef, fixtures: &FunctionMap) -> (r: Vec<
    AnalysisError,
>)
    requires
        fixtures.wf(),
    ensures
        err_models(r@) == arg_findings(func@.name, func@.args, fixtures@),
{
    let ghost ams = func@.args;
    let mut errors: Vec<AnalysisError> = Vec::new();
    proof {
        assert(err_models(errors@) =~= arg_findings(func@.name, ams.subrange(0, 0), fixtures@));
    }
    for k in 0..func.args.len()
        invariant
            fixtures.wf(),
            ams == func@.args,
            ams.len() == func.args@.len(),
            forall|i: int| 0 <= i < ams.len() ==> ams[i] == (#[trigger] func.args@[i])@,
            err_models(errors@) == arg_findings(func@.name, ams.subrange(0, k as int), fixtures@),
    {
        let ghost prefix = ams.subrange(0, k as int);
        let arg = &func.args[k];
        let ann = resolve_annotation(&arg.annotation);
        let ghost finding = arg_finding(func@.name, ams[k as int], fixtures@);
        match fixtures.get(&arg.name) {
            None => {
                match ann {
                    Some(_) => {
                        let e = AnalysisError::FixtureDoesNotExist {
                            function_name: func.name.clone(),
                            argument_name: arg.name.clone(),
                        };
                        proof {
                            assert(finding == Some(e@));
                        }
                        errors.push(e);
                    },
                    None => {
                        proof {
                            assert(finding is None);
                        }
                    },
                }
            },
            Some(fixture) => {
                match ann {
                    None => {
                        let e = AnalysisError::MissingArgumentType {
                            function_name: func.name.clone(),
                            argument_name: arg.name.clone(),
                        };
                        proof {
                            assert(finding == Some(e@));
                        }
                        errors.push(e);
                    },
                    Some(provided_sig) => {
                        match resolve_annotation(&fixture.returns) {
                            None => {
                                proof {
                                    assert(finding is None);
                                }
                            },
                            Some(expected_sig) => {
                                if !sig_eq(&expected_sig, &provided_sig) {
                                    let e = AnalysisError::IncorrectArgumentType {
                                        function_name: func.name.clone(),
                                        argument_name: arg.name.clone(),
                                        expected_type: render(&expected_sig),
                                        provided_type: render(&provided_sig),
                                    };
                                    proof {
                                        assert(finding == Some(e@));
                                    }
                                    errors.push(e);
                                } else {
                                    proof {
                                        assert(finding is None);
                                    }
                                }
                            },
                        }
                    },
                }
            },
        }
        proof {
            assert(ams.subrange(0, k + 1 as int).drop_last() =~= prefix);
            assert(ams.subrange(0, k + 1 as int).last() == ams[k as int]);
            match finding {
                Some(e) => {
                    assert(err_models(errors@) =~= arg_findings(func@.name, prefix, fixtures@)
                        + seq![e]);
                },
                None => {
                    assert(err_models(errors@) =~= arg_findings(func@.name, prefix, fixtures@));
                    assert(arg_findings(func@.name, ams.subrange(0, k + 1 as int), fixtures@)
                        =~= arg_findings(func@.name, prefix, fixtures@));
                },
            }
        }
    }
    proof {
        assert(ams.subrange(0, ams.len() as int) =~= ams);
    }
    errors
}

/// The findings of the provider pass for one provider: a missing-return-type
/// finding when its return annotation does not resolve, then its own
/// parameters checked like a consumer's.
pub open spec fn provider_findings(
    p: FunctionDefModel,
    providers: Seq<FunctionDefModel>,
) -> Seq<ErrorModel> {
    (if resolve_annotation_model(p.returns) is None {
        seq![ErrorModel::FixtureMissingReturnType { fixture_name: p.name }]
    } else {
        Seq::empty()
    }) + arg_findings(p.name, p.args, providers)
}

/// The provider pass over the registry, in registry order.
pub open spec fn provider_pass(
    ps: Seq<FunctionDefModel>,
    providers: Seq<FunctionDefModel>,
) -> Seq<ErrorModel>
    decreases ps.len(),
{
    if ps.len() == 0 {
        Seq::empty()
    } else {
        provider_pass(ps.drop_last(), providers) + provider_findings(ps.last(), providers)
    }
}

/// The consumer pass over the consumer set, in registry order.
pub open spec fn consumer_pass(
    cs: Seq<FunctionDefModel>,
    providers: Seq<FunctionDefModel>,
) -> Seq<ErrorModel>
    decreases cs.len(),
{
    if cs.len() == 0 {
        Seq::empty()
    } else {
        consumer_pass(cs.drop_last(), providers) + arg_findings(
            cs.last().name,
            cs.last().args,
            providers,
        )
    }
}

/// Every finding for one module: the provider pass, then the consumer pass.
pub open spec fn file_check_model(
    fixtures: Seq<FunctionDefModel>,
    test_cases: Seq<FunctionDefModel>,
) -> Seq<ErrorModel> {
    provider_pass(fixtures, fixtures) + consumer_pass(test_cases, fixtures)
}

/// A function with no parameters contributes no argument findings.
pub proof fn lemma_no_args_no_findings(
    fname: Seq<char>,
    args: Seq<ArgModel>,
    providers: Seq<FunctionDefModel>,
)
    requires
        args.len() == 0,
    ensures
        arg_findings(fname, args, providers) == Seq::<ErrorModel>::empty(),
{
}

/// The consumer pass over parameter-less consumers yields nothing.
pub proof fn lemma_consumer_pass_no_args(
    cs: Seq<FunctionDefModel>,
    providers: Seq<FunctionDefModel>,
)
    requires
        forall|i: int| 0 <= i < cs.len() ==> (#[trigger] cs[i]).args.len() == 0,
    ensures
        consumer_pass(cs, providers) == Seq::<ErrorModel>::empty(),
    decreases cs.len(),
{
    if cs.len() > 0 {
        assert forall|i: int|
            0 <= i < cs.drop_last().len() implies (#[trigger] cs.drop_last()[i]).args.len()
            == 0 by {
            assert(cs.drop_last()[i] == cs[i]);
        }
        lemma_consumer_pass_no_args(cs.drop_last(), providers);
        assert(cs.last().args.len() == 0);
        assert(consumer_pass(cs, providers) =~= Seq::<ErrorModel>::empty());
    }
}

/// Produce every finding for one parsed module.
pub fn check_file(file: &ParsedPythonFile) -> (r: Vec<AnalysisError>)
    requires
        file.fixtures.wf(),
    ensures
        err_models(r@) == file_check_model(file.fixtures@, file.test_cases@),
{
    let mut errors: Vec<AnalysisError> = Vec::new();
    proof {
        assert(err_models(errors@) =~= provider_pass(
            file.fixtures@.subrange(0, 0),
            file.fixtures@,
        ));
    }
    let n = file.fixtures.len();
    for k in 0..n
        invariant
            n == file.fixtures@.len(),
            file.fixtures.wf(),
            err_models(errors@) == provider_pass(
                file.fixtures@.subrange(0, k as int),
                file.fixtures@,
            ),
    {
        let ghost prefix = file.fixtures@.subrange(0, k as int);
        let func = file.fixtures.entry_at(k);
        if resolve_annotation(&func.returns).is_none() {
            let e = AnalysisError::FixtureMissingReturnType { fixture_name: func.name.clone() };
            errors.push(e);
        }
        let mut arg_errors = check_function_arguments(func, &file.fixtures);
        let ghost mid = errors@;
        errors.append(&mut arg_errors);
        proof {
            assert(file.fixtures@.subrange(0, k + 1 as int).drop_last() =~= prefix);
            assert(file.fixtures@.subrange(0, k + 1 as int).last() == file.fixtures@[k as int]);
            assert(err_models(errors@) =~= provider_pass(prefix, file.fixtures@)
                + provider_findings(file.fixtures@[k as int], file.fixtures@));
        }
    }
    proof {
        assert(file.fixtures@.subrange(0, file.fixtures@.len() as int) =~= file.fixtures@);
        assert(err_models(errors@) =~= provider_pass(file.fixtures@, file.fixtures@)
            + consumer_pass(file.test_cases@.subrange(0, 0), file.fixtures@));
    }
    let m = file.test_cases.len();
    for k in 0..m
        invariant
            m == file.test_cases@.len(),
            file.fixtures.wf(),
            err_models(errors@) == provider_pass(file.fixtures@, file.fixtures@) + consumer_pass(
                file.test_cases@.subrange(0, k as int),
                file.fixtures@,
            ),
    {
        let ghost prefix = file.test_cases@.subrange(0, k as int);
        let func = file.test_cases.entry_at(k);
        let mut arg_errors = check_function_arguments(func, &file.fixtures);
        let ghost mid = errors@;
        let ghost ae = arg_errors@;
        errors.append(&mut arg_errors);
        proof {
            assert(errors@ == mid + ae);
            assert(err_models(mid + ae) =~= err_models(mid) + err_models(ae));
            assert(file.test_cases@.subrange(0, k + 1 as int).drop_last() =~= prefix);
            assert(file.test_cases@.subrange(0, k + 1 as int).last()
                == file.test_cases@[k as int]);
            assert(err_models(errors@) =~= provider_pass(file.fixtures@, file.fixtures@)
                + consumer_pass(file.test_cases@.subrange(0, k + 1 as int), file.fixtures@));
        }
    }
    proof {
        assert(file.test_cases@.subrange(0, file.test_cases@.len() as int) =~= file.test_cases@);
    }
    errors
}

} // verus!
