//! Canonical, comparable type signatures and their resolution from raw
//! annotation expressions.
//!
//! A [`TypeSignature`] is the comparable form of a source-level type
//! annotation: a bare name (`int`), a subscripted generic (`List[int]`,
//! `Dict[int, str]`), or a bare tuple of type positions.  [`resolve`] reduces
//! a [`PyExpr`] to a signature, or to `None` when the expression has any
//! other shape ("unsupported"); unsupported annotations are excluded from
//! comparison, never treated as mismatches.

use crate::ast::{expr_model, expr_model_list, lemma_expr_model_list, ExprModel, PyExpr};
use vstd::prelude::*;

verus! {

/// The canonical, comparable representation of a type annotation.
#[derive(Debug, PartialEq, Eq)]
pub enum TypeSignature {
    /// A bare identifier: `int`, `str`, `MyClass`.
    Atom { name: String },
    /// A generic/subscripted type: `List[int]`, `Dict[int, str]`.
    Parameterized { base: String, params: Vec<TypeSignature> },
    /// A bare tuple-shaped annotation: several type positions without an
    /// enclosing generic name.
    TupleOf { elements: Vec<TypeSignature> },
}

/// The mathematical shape of a [`TypeSignature`].
pub enum SigModel {
    Atom { name: Seq<char> },
    Parameterized { base: Seq<char>, params: Seq<SigModel> },
    TupleOf { elements: Seq<SigModel> },
}

/// The model of one signature: the same tree over `Seq<char>`.
pub open spec fn sig_model(s: TypeSignature) -> SigModel
    decreases s,
{
    match s {
        TypeSignature::Atom { name } => SigModel::Atom { name: name@ },
        TypeSignature::Parameterized { base, params } => SigModel::Parameterized {
            base: base@,
            params: sig_model_list(params@),
        },
        TypeSignature::TupleOf { elements } => SigModel::TupleOf {
            elements: sig_model_list(elements@),
        },
    }
}

/// The models of a sequence of signatures, element by element in order.
pub open spec fn sig_model_list(s: Seq<TypeSignature>) -> Seq<SigModel>
    decreases s,
{
    if s.len() == 0 {
        Seq::empty()
    } else {
        seq![sig_model(s[0])] + sig_model_list(s.drop_first())
    }
}

/// `sig_model_list` is pointwise `sig_model`.
pub proof fn lemma_sig_model_list(s: Seq<TypeSignature>)
    ensures
        sig_model_list(s).len() == s.len(),
        forall|i: int| 0 <= i < s.len() ==> sig_model_list(s)[i] == sig_model(#[trigger] s[i]),
    decreases s.len(),
{
    if s.len() > 0 {
        lemma_sig_model_list(s.drop_first());
        assert forall|i: int| 0 <= i < s.len() implies sig_model_list(s)[i] == sig_model(
            #[trigger] s[i],
        ) by {
            if i > 0 {
                assert(s.drop_first()[i - 1] == s[i]);
            }
        }
    }
}

impl View for TypeSignature {
    type V = SigModel;

    open spec fn view(&self) -> SigModel {
        sig_model(*self)
    }
}

impl DeepView for TypeSignature {
    type V = SigModel;

    open spec fn deep_view(&self) -> SigModel {
        self@
    }
}

/// The model of an optional signature.
pub open spec fn sig_opt_model(r: Option<TypeSignature>) -> Option<SigModel> {
    match r {
        Some(s) => Some(sig_model(s)),
        None => None,
    }
}

/// What [`resolve`] returns, stated over models: a bare name is an atom; a
/// subscript whose base is a bare name wraps its slice's resolution (a tuple
/// slice spreads into the parameter list); a tuple resolves iff every element
/// does; every other shape is unsupported.
pub open spec fn resolve_model(e: ExprModel) -> Option<SigModel>
    decreases e,
{
    match e {
        ExprModel::Name { id } => Some(SigModel::Atom { name: id }),
        ExprModel::Subscript { value, slice } => match *value {
            ExprModel::Name { id } => match resolve_model(*slice) {
                Some(SigModel::TupleOf { elements }) => Some(
                    SigModel::Parameterized { base: id, params: elements },
                ),
                Some(s) => Some(SigModel::Parameterized { base: id, params: seq![s] }),
                None => None,
            },
            _ => None,
        },
        ExprModel::Tuple { elts } => match resolve_model_list(elts) {
            Some(xs) => Some(SigModel::TupleOf { elements: xs }),
            None => None,
        },
        _ => None,
    }
}

/// Resolution of a sequence of expressions: `Some` of the pointwise
/// resolutions iff every element resolves.
pub open spec fn resolve_model_list(elts: Seq<ExprModel>) -> Option<Seq<SigModel>>
    decreases elts,
{
    if elts.len() == 0 {
        Some(Seq::empty())
    } else {
        match (resolve_model(elts[0]), resolve_model_list(elts.drop_first())) {
            (Some(s), Some(rest)) => Some(seq![s] + rest),
            _ => None,
        }
    }
}

/// `resolve_model_list` succeeds exactly when every element resolves, and
/// then holds the pointwise resolutions.
pub proof fn lemma_resolve_model_list(elts: Seq<ExprModel>)
    ensures
        resolve_model_list(elts) is Some <==> (forall|i: int|
            0 <= i < elts.len() ==> resolve_model(#[trigger] elts[i]) is Some),
        resolve_model_list(elts) matches Some(xs) ==> xs.len() == elts.len() && (forall|i: int|
            0 <= i < elts.len() ==> xs[i] == resolve_model(#[trigger] elts[i])->Some_0),
    decreases elts.len(),
{
    if elts.len() > 0 {
        lemma_resolve_model_list(elts.drop_first());
        assert forall|i: int|
            0 <= i < elts.len() && resolve_model_list(elts) is Some implies resolve_model(
            #[trigger] elts[i],
        ) is Some by {
            if i > 0 {
                assert(elts.drop_first()[i - 1] == elts[i]);
            }
        }
        if forall|i: int| 0 <= i < elts.len() ==> resolve_model(#[trigger] elts[i]) is Some {
            assert forall|i: int|
                0 <= i < elts.drop_first().len() implies resolve_model(
                #[trigger] elts.drop_first()[i],
            ) is Some by {
                assert(elts.drop_first()[i] == elts[i + 1]);
            }
        }
        if resolve_model_list(elts) is Some {
            let xs = resolve_model_list(elts)->Some_0;
            assert forall|i: int| 0 <= i < elts.len() implies xs[i] == resolve_model(
                #[trigger] elts[i],
            )->Some_0 by {
                if i > 0 {
                    assert(elts.drop_first()[i - 1] == elts[i]);
                    assert(xs[i] == resolve_model_list(elts.drop_first())->Some_0[i - 1]);
                }
            }
        }
    }
}

/// Reduce a raw annotation expression to its canonical signature, or `None`
/// when its shape is unsupported.  Pure and total: "no signature" is a
/// normal outcome, not an error.
pub fn resolve(expr: &PyExpr) -> (r: Option<TypeSignature>)
    ensures
        sig_opt_model(r) == resolve_model(expr@),
    decreases expr,
{
    match expr {
        PyExpr::Name { id } => Some(TypeSignature::Atom { name: id.clone() }),
        PyExpr::Subscript { value, slice } => {
            proof {
                assert(expr@ == ExprModel::Subscript {
                    value: Box::new(expr_model(**value)),
                    slice: Box::new(expr_model(**slice)),
                });
            }
            match &**value {
                PyExpr::Name { id } => {
                    proof {
                        assert(expr_model(**value) == ExprModel::Name { id: id@ });
                    }
                    match resolve(slice) {
                        Some(TypeSignature::TupleOf { elements }) => Some(
                            TypeSignature::Parameterized { base: id.clone(), params: elements },
                        ),
                        Some(s) => {
                            let mut params: Vec<TypeSignature> = Vec::new();
                            params.push(s);
                            proof {
                                lemma_sig_model_list(params@);
                                assert(sig_model_list(params@) =~= seq![sig_model(params@[0])]);
                            }
                            Some(TypeSignature::Parameterized { base: id.clone(), params })
                        },
                        None => None,
                    }
                },
                _ => {
                    proof {
                        assert(!(expr_model(**value) is Name));
                    }
                    None
                },
            }
        },
        PyExpr::Tuple { elts } => {
            let mut out: Vec<TypeSignature> = Vec::new();
            let ghost ems = expr_model_list(elts@);
            proof {
                lemma_expr_model_list(elts@);
            }
            for k in 0..elts.len()
                invariant
                    *expr is Tuple,
                    expr->Tuple_elts == *elts,
                    ems == expr_model_list(elts@),
                    ems.len() == elts@.len(),
                    forall|i: int| 0 <= i < elts@.len() ==> ems[i] == expr_model(#[trigger] elts@[i]),
                    out@.len() == k,
                    forall|i: int|
                        0 <= i < k ==> resolve_model(#[trigger] ems[i]) == Some(
                            sig_model(out@[i]),
                        ),
            {
                proof {
                    assert(decreases_to!(*expr => expr->Tuple_elts));
                    assert(decreases_to!(*elts => elts@));
                    assert(decreases_to!(elts@ => elts@[k as int]));
                    assert(decreases_to!(*expr => elts@[k as int]));
                }
                match resolve(&elts[k]) {
                    Some(s) => out.push(s),
                    None => {
                        proof {
                            lemma_resolve_model_list(ems);
                            assert(resolve_model(ems[k as int]) is None);
                            assert(resolve_model_list(ems) is None);
                        }
                        return None;
                    },
                }
            }
            proof {
                lemma_resolve_model_list(ems);
                lemma_sig_model_list(out@);
                assert(resolve_model_list(ems) is Some);
                let xs = resolve_model_list(ems)->Some_0;
                assert forall|i: int| 0 <= i < out@.len() implies sig_model_list(out@)[i]
                    == xs[i] by {
                    assert(resolve_model(ems[i]) == Some(sig_model(out@[i])));
                }
                assert(sig_model_list(out@) =~= xs);
            }
            Some(TypeSignature::TupleOf { elements: out })
        },
        _ => None,
    }
}

/// Resolution of an optional annotation: absent input, absent output.
pub fn resolve_annotation(opt: &Option<PyExpr>) -> (r: Option<TypeSignature>)
    ensures
        sig_opt_model(r) == resolve_annotation_model(
            match opt {
                Some(e) => Some(e@),
                None => None,
            },
        ),
{
    match opt {
        Some(expr) => resolve(expr),
        None => None,
    }
}

/// What [`resolve_annotation`] returns, stated over models.
pub open spec fn resolve_annotation_model(opt: Option<ExprModel>) -> Option<SigModel> {
    match opt {
        Some(e) => resolve_model(e),
        None => None,
    }
}

/// The canonical display string of a signature: an atom is its name, a
/// parameterized type is `base[p1, p2, ...]`, a bare tuple is `p1, p2, ...`,
/// recursively.
pub open spec fn render_model(s: SigModel) -> Seq<char>
    decreases s,
{
    match s {
        SigModel::Atom { name } => name,
        SigModel::Parameterized { base, params } => base + "["@ + render_list_model(params)
            + "]"@,
        SigModel::TupleOf { elements } => render_list_model(elements),
    }
}

/// The display string of a signature list: the renderings joined by `", "`.
pub open spec fn render_list_model(ss: Seq<SigModel>) -> Seq<char>
    decreases ss,
{
    if ss.len() == 0 {
        Seq::empty()
    } else if ss.len() == 1 {
        render_model(ss[0])
    } else {
        render_model(ss[0]) + ", "@ + render_list_model(ss.drop_first())
    }
}

/// Appending one signature to a rendered list appends `", "` and its
/// rendering (no separator when the list was empty).
pub proof fn lemma_render_list_push(ss: Seq<SigModel>, x: SigModel)
    ensures
        render_list_model(ss.push(x)) == if ss.len() == 0 {
            render_model(x)
        } else {
            render_list_model(ss) + ", "@ + render_model(x)
        },
    decreases ss.len(),
{
    let p = ss.push(x);
    assert(p[0 as int] == if ss.len() == 0 {
        x
    } else {
        ss[0]
    });
    if ss.len() == 0 {
        assert(p.len() == 1);
    } else if ss.len() == 1 {
        assert(p.len() == 2);
        assert(p.drop_first() =~= ss.drop_first().push(x));
        assert(ss.drop_first().len() == 0);
        assert(render_list_model(p.drop_first()) == render_model(x));
        assert(render_list_model(ss) == render_model(ss[0]));
    } else {
        lemma_render_list_push(ss.drop_first(), x);
        assert(p.drop_first() =~= ss.drop_first().push(x));
        assert(render_list_model(p) == render_model(ss[0]) + ", "@ + (render_list_model(
            ss.drop_first(),
        ) + ", "@ + render_model(x)));
        assert(render_model(ss[0]) + ", "@ + (render_list_model(ss.drop_first()) + ", "@
            + render_model(x)) =~= (render_model(ss[0]) + ", "@ + render_list_model(
            ss.drop_first(),
        )) + ", "@ + render_model(x));
    }
}

/// Produce the canonical display string of a signature.
pub fn render(sig: &TypeSignature) -> (r: String)
    ensures
        r@ == render_model(sig@),
    decreases sig,
{
    match sig {
        TypeSignature::Atom { name } => name.clone(),
        TypeSignature::Parameterized { base, params } => {
            let mut r = base.clone();
            r.append("[");
            let inner = render_list(params);
            r.append(inner.as_str());
            r.append("]");
            r
        },
        TypeSignature::TupleOf { elements } => render_list(elements),
    }
}

/// Render a signature list, joined by `", "`.
pub fn render_list(sigs: &Vec<TypeSignature>) -> (r: String)
    ensures
        r@ == render_list_model(sig_model_list(sigs@)),
    decreases sigs,
{
    let mut r = String::new();
    let ghost ms = sig_model_list(sigs@);
    proof {
        lemma_sig_model_list(sigs@);
        assert(ms.subrange(0, 0) =~= Seq::empty());
    }
    for k in 0..sigs.len()
        invariant
            ms == sig_model_list(sigs@),
            ms.len() == sigs@.len(),
            forall|i: int| 0 <= i < sigs@.len() ==> ms[i] == sig_model(#[trigger] sigs@[i]),
            r@ == render_list_model(ms.subrange(0, k as int)),
    {
        proof {
            assert(decreases_to!(*sigs => sigs@));
            assert(decreases_to!(sigs@ => sigs@[k as int]));
        }
        if k > 0 {
            r.append(", ");
        }
        let piece = render(&sigs[k]);
        r.append(piece.as_str());
        proof {
            lemma_render_list_push(ms.subrange(0, k as int), ms[k as int]);
            assert(ms.subrange(0, k + 1 as int) =~= ms.subrange(0, k as int).push(
                ms[k as int],
            ));
        }
    }
    proof {
        assert(ms.subrange(0, ms.len() as int) =~= ms);
    }
    r
}

/// A signature every source annotation shape can denote unambiguously.  The
/// one ambiguous spot: a subscript slice that is a tuple always spreads into
/// the parameter list, so a parameterized type with exactly one parameter
/// cannot carry a bare tuple there.
pub open spec fn round_trippable(s: SigModel) -> bool
    decreases s,
{
    match s {
        SigModel::Atom { name } => true,
        SigModel::Parameterized { base, params } => {
            &&& (params.len() == 1 ==> !(params[0] is TupleOf))
            &&& round_trippable_list(params)
        },
        SigModel::TupleOf { elements } => round_trippable_list(elements),
    }
}

/// Every element of the list is round-trippable.
pub open spec fn round_trippable_list(ss: Seq<SigModel>) -> bool
    decreases ss,
{
    ss.len() == 0 || (round_trippable(ss[0]) && round_trippable_list(ss.drop_first()))
}

/// The annotation expression that renders a signature back into source form:
/// an atom becomes a bare name, a parameterized type a subscript (several
/// parameters through a tuple slice), a bare tuple a tuple expression.
pub open spec fn source_of(s: SigModel) -> ExprModel
    decreases s,
{
    match s {
        SigModel::Atom { name } => ExprModel::Name { id: name },
        SigModel::Parameterized { base, params } => ExprModel::Subscript {
            value: Box::new(ExprModel::Name { id: base }),
            slice: Box::new(
                if params.len() == 1 {
                    source_of(params[0])
                } else {
                    ExprModel::Tuple { elts: sources_of(params) }
                },
            ),
        },
        SigModel::TupleOf { elements } => ExprModel::Tuple { elts: sources_of(elements) },
    }
}

/// The source expressions of a signature list, element by element.
pub open spec fn sources_of(ss: Seq<SigModel>) -> Seq<ExprModel>
    decreases ss,
{
    if ss.len() == 0 {
        Seq::empty()
    } else {
        seq![source_of(ss[0])] + sources_of(ss.drop_first())
    }
}

/// Round-trip law: a signature built only from supported shapes resolves
/// back from its own source rendering.
pub proof fn lemma_resolve_round_trip(s: SigModel)
    requires
        round_trippable(s),
    ensures
        resolve_model(source_of(s)) == Some(s),
    decreases s,
{
    match s {
        SigModel::Atom { name } => {},
        SigModel::Parameterized { base, params } => {
            if params.len() == 1 {
                assert(round_trippable(params[0])) by {
                    assert(round_trippable_list(params));
                }
                lemma_resolve_round_trip(params[0]);
                assert(!(params[0] is TupleOf));
                assert(seq![params[0]] =~= params);
            } else {
                lemma_resolve_round_trip_list(params);
                assert(resolve_model(ExprModel::Tuple { elts: sources_of(params) }) == Some(
                    SigModel::TupleOf { elements: params },
                ));
            }
        },
        SigModel::TupleOf { elements } => {
            lemma_resolve_round_trip_list(elements);
        },
    }
}

/// Round-trip law for signature lists: the sources of a round-trippable list
/// resolve pointwise back to the list.
pub proof fn lemma_resolve_round_trip_list(ss: Seq<SigModel>)
    requires
        round_trippable_list(ss),
    ensures
        resolve_model_list(sources_of(ss)) == Some(ss),
    decreases ss,
{
    if ss.len() == 0 {
        assert(ss =~= Seq::<SigModel>::empty());
    } else {
        lemma_resolve_round_trip(ss[0]);
        lemma_resolve_round_trip_list(ss.drop_first());
        let es = sources_of(ss);
        assert(es[0] == source_of(ss[0]));
        assert(es.drop_first() =~= sources_of(ss.drop_first()));
        assert(seq![ss[0]] + ss.drop_first() =~= ss);
    }
}

/// Structural equality of two signatures, as a relation: the same variant,
/// the same base name, and all nested elements pairwise equal in order.  No
/// subtyping, coercion, or alias resolution is applied.
pub open spec fn sig_equal(a: SigModel, b: SigModel) -> bool
    decreases a,
{
    match (a, b) {
        (SigModel::Atom { name: n1 }, SigModel::Atom { name: n2 }) => n1 == n2,
        (
            SigModel::Parameterized { base: b1, params: p1 },
            SigModel::Parameterized { base: b2, params: p2 },
        ) => b1 == b2 && sig_list_equal(p1, p2),
        (SigModel::TupleOf { elements: e1 }, SigModel::TupleOf { elements: e2 }) => sig_list_equal(
            e1,
            e2,
        ),
        _ => false,
    }
}

/// Pairwise structural equality of two signature lists, in order.
pub open spec fn sig_list_equal(x: Seq<SigModel>, y: Seq<SigModel>) -> bool
    decreases x,
{
    &&& x.len() == y.len()
    &&& (x.len() == 0 || (sig_equal(x[0], y[0]) && sig_list_equal(x.drop_first(), y.drop_first())))
}

/// Structural equality coincides with mathematical equality of the models.
pub proof fn lemma_sig_equal_iff(a: SigModel, b: SigModel)
    ensures
        sig_equal(a, b) <==> a == b,
    decreases a,
{
    match (a, b) {
        (
            SigModel::Parameterized { base: b1, params: p1 },
            SigModel::Parameterized { base: b2, params: p2 },
        ) => {
            lemma_sig_list_equal_iff(p1, p2);
        },
        (SigModel::TupleOf { elements: e1 }, SigModel::TupleOf { elements: e2 }) => {
            lemma_sig_list_equal_iff(e1, e2);
        },
        _ => {},
    }
}

/// Pairwise structural equality of lists coincides with equality.
pub proof fn lemma_sig_list_equal_iff(x: Seq<SigModel>, y: Seq<SigModel>)
    ensures
        sig_list_equal(x, y) <==> x == y,
    decreases x,
{
    if x.len() == y.len() && x.len() == 0 {
        assert(x =~= y);
    }
    if x.len() == y.len() && x.len() > 0 {
        lemma_sig_equal_iff(x[0], y[0]);
        lemma_sig_list_equal_iff(x.drop_first(), y.drop_first());
        if sig_list_equal(x, y) {
            assert forall|i: int| 0 <= i < x.len() implies x[i] == y[i] by {
                if i > 0 {
                    assert(x.drop_first()[i - 1] == x[i]);
                    assert(y.drop_first()[i - 1] == y[i]);
                }
            }
            assert(x =~= y);
        }
        if x == y {
            assert(x.drop_first() =~= y.drop_first());
        }
    }
}

/// Structural equality of signatures is reflexive.
pub proof fn lemma_sig_equal_reflexive(a: SigModel)
    ensures
        sig_equal(a, a),
{
    lemma_sig_equal_iff(a, a);
}

/// Structural equality of signatures is symmetric.
pub proof fn lemma_sig_equal_symmetric(a: SigModel, b: SigModel)
    ensures
        sig_equal(a, b) == sig_equal(b, a),
{
    lemma_sig_equal_iff(a, b);
    lemma_sig_equal_iff(b, a);
}

/// Structural equality is order-sensitive: parameter lists that differ at
/// any one position make the parameterized types differ, whatever else they
/// share.
pub proof fn lemma_sig_equal_order_sensitive(
    base: Seq<char>,
    xs: Seq<SigModel>,
    ys: Seq<SigModel>,
    i: int,
)
    requires
        0 <= i < xs.len(),
        xs.len() == ys.len(),
        xs[i] != ys[i],
    ensures
        !sig_equal(
            SigModel::Parameterized { base, params: xs },
            SigModel::Parameterized { base, params: ys },
        ),
{
    lemma_sig_equal_iff(
        SigModel::Parameterized { base, params: xs },
        SigModel::Parameterized { base, params: ys },
    );
}

/// Decide structural equality of two signatures.
pub fn sig_eq(a: &TypeSignature, b: &TypeSignature) -> (r: bool)
    ensures
        r == sig_equal(a@, b@),
        r == (a@ == b@),
    decreases a,
{
    proof {
        lemma_sig_equal_iff(a@, b@);
    }
    match (a, b) {
        (TypeSignature::Atom { name: n1 }, TypeSignature::Atom { name: n2 }) => n1.eq(n2),
        (
            TypeSignature::Parameterized { base: b1, params: p1 },
            TypeSignature::Parameterized { base: b2, params: p2 },
        ) => {
            if b1.eq(b2) {
                sig_list_eq(p1, p2)
            } else {
                false
            }
        },
        (TypeSignature::TupleOf { elements: e1 }, TypeSignature::TupleOf { elements: e2 }) => {
            sig_list_eq(e1, e2)
        },
        _ => false,
    }
}

/// Decide pairwise structural equality of two signature lists.
pub fn sig_list_eq(x: &Vec<TypeSignature>, y: &Vec<TypeSignature>) -> (r: bool)
    ensures
        r == (sig_model_list(x@) == sig_model_list(y@)),
    decreases x,
{
    proof {
        lemma_sig_model_list(x@);
        lemma_sig_model_list(y@);
    }
    if x.len() != y.len() {
        proof {
            assert(sig_model_list(x@).len() != sig_model_list(y@).len());
        }
        return false;
    }
    for k in 0..x.len()
        invariant
            x@.len() == y@.len(),
            sig_model_list(x@).len() == x@.len(),
            sig_model_list(y@).len() == y@.len(),
            forall|i: int|
                0 <= i < x@.len() ==> sig_model_list(x@)[i] == sig_model(#[trigger] x@[i]),
            forall|i: int|
                0 <= i < y@.len() ==> sig_model_list(y@)[i] == sig_model(#[trigger] y@[i]),
            forall|i: int| 0 <= i < k ==> sig_model(#[trigger] x@[i]) == sig_model(y@[i]),
    {
        proof {
            assert(decreases_to!(*x => x@));
            assert(decreases_to!(x@ => x@[k as int]));
        }
        if !sig_eq(&x[k], &y[k]) {
            proof {
                assert(sig_model_list(x@)[k as int] != sig_model_list(y@)[k as int]);
            }
            return false;
        }
    }
    proof {
        assert forall|i: int| 0 <= i < x@.len() implies sig_model_list(x@)[i] == sig_model_list(
            y@,
        )[i] by {
            assert(sig_model(x@[i]) == sig_model(y@[i]));
        }
        assert(sig_model_list(x@) =~= sig_model_list(y@));
    }
    true
}

} // verus!
