//! The diagnostic taxonomy: every finding the checker can emit about
//! analyzed code.  Diagnostics are immutable values, order-independent (a
//! consumer should compare them as a set), and the sole output of the core.

use vstd::prelude::*;

verus! {

/// One finding about analyzed code (never a failure of the checker itself).
#[derive(Debug, PartialEq, Eq, Hash)]
pub enum AnalysisError {
    /// A provider has no resolvable return-type signature.
    FixtureMissingReturnType { fixture_name: String },
    /// A parameter's resolved signature differs structurally from its
    /// provider's resolved return signature.
    IncorrectArgumentType {
        function_name: String,
        argument_name: String,
        expected_type: String,
        provided_type: String,
    },
    /// A parameter names a known provider but carries no resolvable
    /// annotation.
    MissingArgumentType { function_name: String, argument_name: String },
    /// An annotated parameter names no known provider.
    FixtureDoesNotExist { function_name: String, argument_name: String },
    /// The external parser could not produce a syntax tree for the module;
    /// this is the sole diagnostic for it.
    UnparsableFile,
}

/// The mathematical shape of an [`AnalysisError`].
pub enum ErrorModel {
    FixtureMissingReturnType { fixture_name: Seq<char> },
    IncorrectArgumentType {
        function_name: Seq<char>,
        argument_name: Seq<char>,
        expected_type: Seq<char>,
        provided_type: Seq<char>,
    },
    MissingArgumentType { function_name: Seq<char>, argument_name: Seq<char> },
    FixtureDoesNotExist { function_name: Seq<char>, argument_name: Seq<char> },
    UnparsableFile,
}

impl View for AnalysisError {
    type V = ErrorModel;

    open spec fn view(&self) -> ErrorModel {
        match self {
            AnalysisError::FixtureMissingReturnType { fixture_name } => {
                ErrorModel::FixtureMissingReturnType { fixture_name: fixture_name@ }
            },
            AnalysisError::IncorrectArgumentType {
                function_name,
                argument_name,
                expected_type,
                provided_type,
            } => {
                ErrorModel::IncorrectArgumentType {
                    function_name: function_name@,
                    argument_name: argument_name@,
                    expected_type: expected_type@,
                    provided_type: provided_type@,
                }
            },
            AnalysisError::MissingArgumentType { function_name, argument_name } => {
                ErrorModel::MissingArgumentType {
                    function_name: function_name@,
                    argument_name: argument_name@,
                }
            },
            AnalysisError::FixtureDoesNotExist { function_name, argument_name } => {
                ErrorModel::FixtureDoesNotExist {
                    function_name: function_name@,
                    argument_name: argument_name@,
                }
            },
            AnalysisError::UnparsableFile => ErrorModel::UnparsableFile,
        }
    }
}

impl DeepView for AnalysisError {
    type V = ErrorModel;

    open spec fn deep_view(&self) -> ErrorModel {
        self@
    }
}

/// The models of a sequence of diagnostics, element by element.
pub open spec fn err_models(v: Seq<AnalysisError>) -> Seq<ErrorModel> {
    Seq::new(v.len(), |i: int| v[i]@)
}

/// The human-readable line for one finding: a bracketed kind tag, then the
/// sentence naming what was found.
pub open spec fn message_model(e: ErrorModel) -> Seq<char> {
    match e {
        ErrorModel::FixtureDoesNotExist { function_name, argument_name } => {
            "[FIXTURE_DOES_NOT_EXIST] Fixture "@ + argument_name + " used in function "@
                + function_name + " does not exist."@
        },
        ErrorModel::FixtureMissingReturnType { fixture_name } => {
            "[FIXTURE_MISSING_RETURN_TYPE] Fixture "@ + fixture_name + " missing return type."@
        },
        ErrorModel::IncorrectArgumentType {
            function_name,
            argument_name,
            expected_type,
            provided_type,
        } => {
            "[INCORRECT_ARGUMENT_TYPE] Function's "@ + function_name + " argument "@
                + argument_name + " receives a fixture of type "@ + expected_type
                + ", but specified type is "@ + provided_type + "."@
        },
        ErrorModel::MissingArgumentType { function_name, argument_name } => {
            "[MISSING_ARGUMENT_TYPE] Function "@ + function_name
                + " has no type specified for argument "@ + argument_name + "."@
        },
        ErrorModel::UnparsableFile => "[UNPARSABLE_FILE] Impossible to parse file's AST."@,
    }
}

impl AnalysisError {
    /// Render this finding as its display line.
    pub fn message(&self) -> (r: String)
        ensures
            r@ == message_model(self@),
    {
        match self {
            AnalysisError::FixtureDoesNotExist { function_name, argument_name } => {
                let mut r = String::from_str("[FIXTURE_DOES_NOT_EXIST] Fixture ");
                r.append(argument_name.as_str());
                r.append(" used in function ");
                r.append(function_name.as_str());
                r.append(" does not exist.");
                r
            },
            AnalysisError::FixtureMissingReturnType { fixture_name } => {
                let mut r = String::from_str("[FIXTURE_MISSING_RETURN_TYPE] Fixture ");
                r.append(fixture_name.as_str());
                r.append(" missing return type.");
                r
            },
            AnalysisError::IncorrectArgumentType {
                function_name,
                argument_name,
                expected_type,
                provided_type,
            } => {
                let mut r = String::from_str("[INCORRECT_ARGUMENT_TYPE] Function's ");
                r.append(function_name.as_str());
                r.append(" argument ");
                r.append(argument_name.as_str());
                r.append(" receives a fixture of type ");
                r.append(expected_type.as_str());
                r.append(", but specified type is ");
                r.append(provided_type.as_str());
                r.append(".");
                r
            },
            AnalysisError::MissingArgumentType { function_name, argument_name } => {
                let mut r = String::from_str("[MISSING_ARGUMENT_TYPE] Function ");
                r.append(function_name.as_str());
                r.append(" has no type specified for argument ");
                r.append(argument_name.as_str());
                r.append(".");
                r
            },
            AnalysisError::UnparsableFile => {
                String::from_str("[UNPARSABLE_FILE] Impossible to parse file's AST.")
            },
        }
    }
}

} // verus!
