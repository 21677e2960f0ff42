//! The library's own model of the parsed source: the expression shapes the
//! checker reads (names, attribute accesses, calls, subscripts and tuples),
//! function definitions, and top-level statements.
//!
//! Values of these types are built by the surrounding program from whatever
//! syntax parser it uses; every shape that parser can produce beyond the ones
//! the checker distinguishes collapses to [`PyExpr::Other`] / [`Stmt::Other`].

use vstd::prelude::*;

verus! {

/// A source-level expression, restricted to the shapes the checker reads.
///
/// Annotations use `Name` (`int`), `Subscript` (`List[int]`) and `Tuple`
/// (`int, str` inside a subscript); decorators use `Call` of an `Attribute`
/// of a `Name` (`@pytest.fixture()`).  Everything else is `Other`.
#[derive(Debug, PartialEq, Eq)]
pub enum PyExpr {
    Name { id: String },
    Attribute { value: Box<PyExpr>, attr: String },
    Call { func: Box<PyExpr> },
    Subscript { value: Box<PyExpr>, slice: Box<PyExpr> },
    Tuple { elts: Vec<PyExpr> },
    Other,
}

/// The mathematical shape of a [`PyExpr`]: the same tree over `Seq<char>`.
pub enum ExprModel {
    Name { id: Seq<char> },
    Attribute { value: Box<ExprModel>, attr: Seq<char> },
    Call { func: Box<ExprModel> },
    Subscript { value: Box<ExprModel>, slice: Box<ExprModel> },
    Tuple { elts: Seq<ExprModel> },
    Other,
}

/// The model of one expression: the same tree, strings seen as `Seq<char>`.
pub open spec fn expr_model(e: PyExpr) -> ExprModel
    decreases e,
{
    match e {
        PyExpr::Name { id } => ExprModel::Name { id: id@ },
        PyExpr::Attribute { value, attr } => ExprModel::Attribute {
            value: Box::new(expr_model(*value)),
            attr: attr@,
        },
        PyExpr::Call { func } => ExprModel::Call { func: Box::new(expr_model(*func)) },
        PyExpr::Subscript { value, slice } => ExprModel::Subscript {
            value: Box::new(expr_model(*value)),
            slice: Box::new(expr_model(*slice)),
        },
        PyExpr::Tuple { elts } => ExprModel::Tuple { elts: expr_model_list(elts@) },
        PyExpr::Other => ExprModel::Other,
    }
}

/// The models of a sequence of expressions, element by element in order.
pub open spec fn expr_model_list(s: Seq<PyExpr>) -> Seq<ExprModel>
    decreases s,
{
    if s.len() == 0 {
        Seq::empty()
    } else {
        seq![expr_model(s[0])] + expr_model_list(s.drop_first())
    }
}

/// `expr_model_list` is pointwise `expr_model`.
pub proof fn lemma_expr_model_list(s: Seq<PyExpr>)
    ensures
        expr_model_list(s).len() == s.len(),
        forall|i: int| 0 <= i < s.len() ==> expr_model_list(s)[i] == expr_model(#[trigger] s[i]),
    decreases s.len(),
{
    if s.len() > 0 {
        lemma_expr_model_list(s.drop_first());
        assert forall|i: int| 0 <= i < s.len() implies expr_model_list(s)[i] == expr_model(
            #[trigger] s[i],
        ) by {
            if i > 0 {
                assert(s.drop_first()[i - 1] == s[i]);
            }
        }
    }
}

impl View for PyExpr {
    type V = ExprModel;

    open spec fn view(&self) -> ExprModel {
        expr_model(*self)
    }
}

/// Two expression sequences with pointwise-equal models have equal model
/// lists.
pub proof fn lemma_expr_model_list_pointwise(a: Seq<PyExpr>, b: Seq<PyExpr>)
    requires
        a.len() == b.len(),
        forall|i: int| 0 <= i < a.len() ==> (#[trigger] a[i])@ == b[i]@,
    ensures
        expr_model_list(a) == expr_model_list(b),
{
    lemma_expr_model_list(a);
    lemma_expr_model_list(b);
    assert forall|i: int|
        0 <= i < a.len() implies expr_model_list(a)[i] == expr_model_list(b)[i] by {
        assert(a[i]@ == b[i]@);
        assert(expr_model_list(a)[i] == expr_model(a[i]));
        assert(expr_model_list(b)[i] == expr_model(b[i]));
    }
    assert(expr_model_list(a) =~= expr_model_list(b));
}

impl DeepView for PyExpr {
    type V = ExprModel;

    open spec fn deep_view(&self) -> ExprModel {
        self@
    }
}

/// One formal parameter of a function definition: its name, its optional
/// type annotation, and the byte offset of that annotation in the module's
/// source text (zero when there is no annotation).
#[derive(Debug, PartialEq, Eq)]
pub struct Arg {
    pub name: String,
    pub annotation: Option<PyExpr>,
    pub annotation_start: usize,
}

/// The mathematical shape of an [`Arg`].
pub struct ArgModel {
    pub name: Seq<char>,
    pub annotation: Option<ExprModel>,
    pub annotation_start: nat,
}

impl View for Arg {
    type V = ArgModel;

    open spec fn view(&self) -> ArgModel {
        ArgModel {
            name: self.name@,
            annotation: match self.annotation {
                Some(e) => Some(expr_model(e)),
                None => None,
            },
            annotation_start: self.annotation_start as nat,
        }
    }
}

impl DeepView for Arg {
    type V = ArgModel;

    open spec fn deep_view(&self) -> ArgModel {
        self@
    }
}

impl Clone for Arg {
    fn clone(&self) -> (r: Self)
        ensures
            r@ == self@,
    {
        Arg {
            name: self.name.clone(),
            annotation: match &self.annotation {
                Some(e) => Some(e.clone()),
                None => None,
            },
            annotation_start: self.annotation_start,
        }
    }
}

/// A named callable unit extracted from a module: its name, its ordered
/// parameters, its optional return annotation, and its decorators.
#[derive(Debug, PartialEq, Eq)]
pub struct FunctionDef {
    pub name: String,
    pub args: Vec<Arg>,
    pub returns: Option<PyExpr>,
    pub decorator_list: Vec<PyExpr>,
}

/// The mathematical shape of a [`FunctionDef`].
pub struct FunctionDefModel {
    pub name: Seq<char>,
    pub args: Seq<ArgModel>,
    pub returns: Option<ExprModel>,
    pub decorator_list: Seq<ExprModel>,
}

impl View for FunctionDef {
    type V = FunctionDefModel;

    open spec fn view(&self) -> FunctionDefModel {
        FunctionDefModel {
            name: self.name@,
            args: Seq::new(self.args@.len(), |i: int| self.args@[i]@),
            returns: match self.returns {
                Some(e) => Some(expr_model(e)),
                None => None,
            },
            decorator_list: expr_model_list(self.decorator_list@),
        }
    }
}

impl DeepView for FunctionDef {
    type V = FunctionDefModel;

    open spec fn deep_view(&self) -> FunctionDefModel {
        self@
    }
}

impl Clone for FunctionDef {
    fn clone(&self) -> (r: Self)
        ensures
            r@ == self@,
    {
        let mut args2: Vec<Arg> = Vec::new();
        for k in 0..self.args.len()
            invariant
                args2@.len() == k,
                forall|i: int| 0 <= i < k ==> (#[trigger] args2@[i])@ == self.args@[i]@,
        {
            args2.push(self.args[k].clone());
        }
        let mut decs2: Vec<PyExpr> = Vec::new();
        for k in 0..self.decorator_list.len()
            invariant
                decs2@.len() == k,
                forall|i: int| 0 <= i < k ==> (#[trigger] decs2@[i])@ == self.decorator_list@[i]@,
        {
            decs2.push(self.decorator_list[k].clone());
        }
        let r = FunctionDef {
            name: self.name.clone(),
            args: args2,
            returns: match &self.returns {
                Some(e) => Some(e.clone()),
                None => None,
            },
            decorator_list: decs2,
        };
        proof {
            assert(Seq::new(r.args@.len(), |i: int| r.args@[i]@) =~= Seq::new(
                self.args@.len(),
                |i: int| self.args@[i]@,
            ));
            lemma_expr_model_list_pointwise(r.decorator_list@, self.decorator_list@);
        }
        r
    }
}

/// A top-level statement of a module: a function definition, or anything
/// else (which the checker ignores).
#[derive(Debug, PartialEq, Eq)]
pub enum Stmt {
    FunctionDef(FunctionDef),
    Other,
}

/// The mathematical shape of a [`Stmt`].
pub enum StmtModel {
    FunctionDef(FunctionDefModel),
    Other,
}

impl View for Stmt {
    type V = StmtModel;

    open spec fn view(&self) -> StmtModel {
        match self {
            Stmt::FunctionDef(f) => StmtModel::FunctionDef(f@),
            Stmt::Other => StmtModel::Other,
        }
    }
}

impl DeepView for Stmt {
    type V = StmtModel;

    open spec fn deep_view(&self) -> StmtModel {
        self@
    }
}

impl Clone for Stmt {
    fn clone(&self) -> (r: Self)
        ensures
            r@ == self@,
    {
        match self {
            Stmt::FunctionDef(f) => Stmt::FunctionDef(f.clone()),
            Stmt::Other => Stmt::Other,
        }
    }
}

impl Clone for PyExpr {
    fn clone(&self) -> (r: Self)
        ensures
            r@ == self@,
        decreases self,
    {
        match self {
            PyExpr::Name { id } => PyExpr::Name { id: id.clone() },
            PyExpr::Attribute { value, attr } => PyExpr::Attribute {
                value: Box::new((**value).clone()),
                attr: attr.clone(),
            },
            PyExpr::Call { func } => PyExpr::Call { func: Box::new((**func).clone()) },
            PyExpr::Subscript { value, slice } => PyExpr::Subscript {
                value: Box::new((**value).clone()),
                slice: Box::new((**slice).clone()),
            },
            PyExpr::Tuple { elts } => {
                let mut elts2: Vec<PyExpr> = Vec::new();
                for k in 0..elts.len()
                    invariant
                        *self is Tuple,
                        self->Tuple_elts == *elts,
                        elts2@.len() == k,
                        forall|i: int| 0 <= i < k ==> (#[trigger] elts2@[i])@ == elts@[i]@,
                {
                    proof {
                        assert(decreases_to!(*self => self->Tuple_elts));
                        assert(decreases_to!(*elts => elts@));
                        assert(decreases_to!(elts@ => elts@[k as int]));
                        assert(decreases_to!(*self => elts@[k as int]));
                    }
                    elts2.push(elts[k].clone());
                }
                proof {
                    lemma_expr_model_list_pointwise(elts2@, elts@);
                }
                PyExpr::Tuple { elts: elts2 }
            },
            PyExpr::Other => PyExpr::Other,
        }
    }
}

} // verus!
