//! A per-function report of every parameter that names a provider, with the
//! source line of the offending annotation.
//!
//! Unlike the diagnostic list of [`crate::check`], this view keeps one state
//! per provider-naming parameter — correct ones included — and locates wrong
//! annotations by line, counting newline bytes in the module's source text
//! up to the annotation's byte offset.

use crate::ast::{ArgModel, FunctionDef};
use crate::functions::{annotation_model, find_name, FunctionMap};
use crate::signature::{render, resolve};
use vstd::prelude::*;
use vstd::slice::slice_subrange;
use vstd::utf8::encode_utf8;

verus! {

/// The number of occurrences of one byte in a byte sequence.
pub open spec fn count_byte(s: Seq<u8>, b: u8) -> nat
    decreases s.len(),
{
    if s.len() == 0 {
        0
    } else {
        count_byte(s.drop_last(), b) + (if s.last() == b {
            1nat
        } else {
            0nat
        })
    }
}

/// A byte occurs at most as often as the sequence is long.
pub proof fn lemma_count_byte_le_len(s: Seq<u8>, b: u8)
    ensures
        count_byte(s, b) <= s.len(),
    decreases s.len(),
{
    if s.len() > 0 {
        lemma_count_byte_le_len(s.drop_last(), b);
    }
}

/// Relies on `bytecount::count`: the number of occurrences of `needle` in
/// `haystack`.
#[verifier::external_body]
fn count_occurrences(haystack: &[u8], needle: u8) -> (r: usize)
    ensures
        r as nat == count_byte(haystack@, needle),
{
    bytecount::count(haystack, needle)
}

/// The one-based line on which the byte at offset `at` of a text stands:
/// one more than the newline bytes before it.
pub open spec fn line_number_model(bytes: Seq<u8>, at: int) -> nat {
    count_byte(bytes.subrange(0, at), 10u8) + 1
}

/// Locate a byte offset of the source text as a one-based line number.
pub fn get_line_number(value: &String, at: usize) -> (r: usize)
    requires
        at <= encode_utf8(value@).len(),
        at < usize::MAX,
    ensures
        r as nat == line_number_model(encode_utf8(value@), at as int),
{
    let bytes: &[u8] = value.as_str().as_bytes();
    let prefix = slice_subrange(bytes, 0, at);
    let newlines = count_occurrences(prefix, 10u8);
    proof {
        lemma_count_byte_le_len(prefix@, 10u8);
    }
    newlines + 1
}

/// The state of one provider-naming parameter.
#[derive(Debug, PartialEq, Eq)]
pub enum ArgTypeState {
    /// The parameter carries no annotation though its provider declares a
    /// return type.
    MissingType { name: String },
    /// The parameter's annotation renders differently from its provider's
    /// return annotation.
    IncorrectType { name: String, expected: String, provided: String, line: usize },
    /// The two annotations render identically.
    CorrectType { name: String },
    /// The provider declares no return type though the parameter is
    /// annotated.
    Error { name: String, msg: String, line: usize },
}

/// The mathematical shape of an [`ArgTypeState`].
pub enum ArgTypeStateModel {
    MissingType { name: Seq<char> },
    IncorrectType { name: Seq<char>, expected: Seq<char>, provided: Seq<char>, line: nat },
    CorrectType { name: Seq<char> },
    Error { name: Seq<char>, msg: Seq<char>, line: nat },
}

impl View for ArgTypeState {
    type V = ArgTypeStateModel;

    open spec fn view(&self) -> ArgTypeStateModel {
        match self {
            ArgTypeState::MissingType { name } => ArgTypeStateModel::MissingType { name: name@ },
            ArgTypeState::IncorrectType { name, expected, provided, line } => {
                ArgTypeStateModel::IncorrectType {
                    name: name@,
                    expected: expected@,
                    provided: provided@,
                    line: *line as nat,
                }
            },
            ArgTypeState::CorrectType { name } => ArgTypeStateModel::CorrectType { name: name@ },
            ArgTypeState::Error { name, msg, line } => ArgTypeStateModel::Error {
                name: name@,
                msg: msg@,
                line: *line as nat,
            },
        }
    }
}

/// One function's parameter states, by function name.
#[derive(Debug, PartialEq, Eq)]
pub struct CheckedFunction {
    pub name: String,
    pub args: Vec<ArgTypeState>,
}

/// The mathematical shape of a [`CheckedFunction`].
pub struct CheckedFunctionModel {
    pub name: Seq<char>,
    pub args: Seq<ArgTypeStateModel>,
}

impl View for CheckedFunction {
    type V = CheckedFunctionModel;

    open spec fn view(&self) -> CheckedFunctionModel {
        CheckedFunctionModel {
            name: self.name@,
            args: Seq::new(self.args@.len(), |i: int| self.args@[i]@),
        }
    }
}

/// What makes one parameter's state well defined: when it names a provider,
/// its annotation offset lies inside the source text, and both annotations —
/// where present on both sides — have supported shapes (the original
/// behaviour on an unsupported shape is a panic, so such inputs stay out).
pub open spec fn arg_state_defined(
    a: ArgModel,
    providers: Seq<crate::ast::FunctionDefModel>,
    content_bytes: Seq<u8>,
) -> bool {
    match find_name(providers, a.name) {
        None => true,
        Some(p) => {
            &&& (a.annotation is Some ==> a.annotation_start <= content_bytes.len()
                && a.annotation_start < usize::MAX)
            &&& match (p.returns, a.annotation) {
                (Some(fr), Some(av)) => annotation_model(fr) is Some && annotation_model(av)
                    is Some,
                _ => true,
            }
        },
    }
}

/// The state of one parameter: nothing when its name is no provider's;
/// otherwise one of the four states, by which sides carry an annotation and
/// whether the two renderings agree.
pub open spec fn arg_state_model(
    a: ArgModel,
    providers: Seq<crate::ast::FunctionDefModel>,
    content_bytes: Seq<u8>,
) -> Option<ArgTypeStateModel> {
    match find_name(providers, a.name) {
        None => None,
        Some(p) => match (p.returns, a.annotation) {
            (Some(fr), Some(av)) => {
                let expected = annotation_model(fr)->Some_0;
                let provided = annotation_model(av)->Some_0;
                if expected != provided {
                    Some(
                        ArgTypeStateModel::IncorrectType {
                            name: a.name,
                            expected: expected,
                            provided: provided,
                            line: line_number_model(content_bytes, a.annotation_start as int),
                        },
                    )
                } else {
                    Some(ArgTypeStateModel::CorrectType { name: a.name })
                }
            },
            (None, Some(av)) => Some(
                ArgTypeStateModel::Error {
                    name: a.name,
                    msg: "Fixture "@ + p.name + " is missing return type!"@,
                    line: line_number_model(content_bytes, a.annotation_start as int),
                },
            ),
            (Some(fr), None) => Some(ArgTypeStateModel::MissingType { name: a.name }),
            (None, None) => None,
        },
    }
}

/// The states of a parameter list, in order, absent ones dropped.
pub open spec fn arg_states_model(
    args: Seq<ArgModel>,
    providers: Seq<crate::ast::FunctionDefModel>,
    content_bytes: Seq<u8>,
) -> Seq<ArgTypeStateModel>
    decreases args.len(),
{
    if args.len() == 0 {
        Seq::empty()
    } else {
        arg_states_model(args.drop_last(), providers, content_bytes) + match arg_state_model(
            args.last(),
            providers,
            content_bytes,
        ) {
            Some(s) => seq![s],
            None => Seq::empty(),
        }
    }
}

/// Report the state of every provider-naming parameter of one function, with
/// source lines taken from the module's text.
pub fn check_function_arg_types(
    file_contents: &String,
    func: &FunctionDef,
    fixtures: &FunctionMap,
) -> (r: CheckedFunction)
    requires
        fixtures.wf(),
        forall|i: int|
            0 <= i < func@.args.len() ==> arg_state_defined(
                #[trigger] func@.args[i],
                fixtures@,
                encode_utf8(file_contents@),
            ),
    ensures
        r@.name == func@.name,
        r@.args == arg_states_model(func@.args, fixtures@, encode_utf8(file_contents@)),
{
    let ghost ams = func@.args;
    let ghost cbytes = encode_utf8(file_contents@);
    let mut states: Vec<ArgTypeState> = Vec::new();
    proof {
        assert(Seq::new(states@.len(), |i: int| states@[i]@) =~= arg_states_model(
            ams.subrange(0, 0),
            fixtures@,
            cbytes,
        ));
    }
    for k in 0..func.args.len()
        invariant
            fixtures.wf(),
            ams == func@.args,
            cbytes == encode_utf8(file_contents@),
            ams.len() == func.args@.len(),
            forall|i: int| 0 <= i < ams.len() ==> ams[i] == (#[trigger] func.args@[i])@,
            forall|i: int|
                0 <= i < ams.len() ==> arg_state_defined(#[trigger] ams[i], fixtures@, cbytes),
            Seq::new(states@.len(), |i: int| states@[i]@) == arg_states_model(
                ams.subrange(0, k as int),
                fixtures@,
                cbytes,
            ),
    {
        let ghost prefix = ams.subrange(0, k as int);
        let ghost mids = states@;
        let arg = &func.args[k];
        let ghost state = arg_state_model(ams[k as int], fixtures@, cbytes);
        match fixtures.get(&arg.name) {
            None => {
                proof {
                    assert(state is None);
                }
            },
            Some(fixture) => {
                match (&fixture.returns, &arg.annotation) {
                    (Some(fixture_return), Some(annotation_value)) => {
                        let expected = match resolve(fixture_return) {
                            Some(sig) => render(&sig),
                            None => {
                                proof {
                                    assert(false);
                                }
                                String::new()
                            },
                        };
                        let provided = match resolve(annotation_value) {
                            Some(sig) => render(&sig),
                            None => {
                                proof {
                                    assert(false);
                                }
                                String::new()
                            },
                        };
                        if !expected.eq(&provided) {
                            let line = get_line_number(file_contents, arg.annotation_start);
                            let s = ArgTypeState::IncorrectType {
                                name: arg.name.clone(),
                                expected,
                                provided,
                                line,
                            };
                            proof {
                                assert(state == Some(s@));
                            }
                            states.push(s);
                        } else {
                            let s = ArgTypeState::CorrectType { name: arg.name.clone() };
                            proof {
                                assert(state == Some(s@));
                            }
                            states.push(s);
                        }
                    },
                    (None, Some(annotation_value)) => {
                        let mut msg = String::from_str("Fixture ");
                        msg.append(fixture.name.as_str());
                        msg.append(" is missing return type!");
                        let line = get_line_number(file_contents, arg.annotation_start);
                        let s = ArgTypeState::Error { name: arg.name.clone(), msg, line };
                        proof {
                            assert(state == Some(s@));
                        }
                        states.push(s);
                    },
                    (Some(_), None) => {
                        let s = ArgTypeState::MissingType { name: arg.name.clone() };
                        proof {
                            assert(state == Some(s@));
                        }
                        states.push(s);
                    },
                    (None, None) => {
                        proof {
                            assert(state is None);
                        }
                    },
                }
            },
        }
        proof {
            assert(ams.subrange(0, k + 1 as int).drop_last() =~= prefix);
            assert(ams.subrange(0, k + 1 as int).last() == ams[k as int]);
            match state {
                Some(s) => {
                    assert(Seq::new(states@.len(), |i: int| states@[i]@) =~= arg_states_model(
                        prefix,
                        fixtures@,
                        cbytes,
                    ) + seq![s]);
                },
                None => {
                    assert(states@ == mids);
                    assert(arg_states_model(ams.subrange(0, k + 1 as int), fixtures@, cbytes)
                        =~= arg_states_model(prefix, fixtures@, cbytes));
                },
            }
        }
    }
    proof {
        assert(ams.subrange(0, ams.len() as int) =~= ams);
    }
    let r = CheckedFunction { name: func.name.clone(), args: states };
    r
}

} // verus!
