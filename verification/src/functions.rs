//! Classification of a module's function definitions into the provider
//! registry and the consumer set, and the annotation display strings.
//!
//! The registry is a name-keyed collection rebuilt once per module; a later
//! definition of the same name overwrites the earlier one ("last wins").

use crate::ast::{expr_model, Arg, ExprModel, FunctionDef, FunctionDefModel, PyExpr, Stmt,
    StmtModel};
use crate::nodes::{is_provider, FunctionUtil};
use crate::signature::{render, render_model, resolve, resolve_model};
use vstd::prelude::*;

verus! {

/// The models of a sequence of function definitions, element by element.
pub open spec fn fn_models(v: Seq<FunctionDef>) -> Seq<FunctionDefModel> {
    Seq::new(v.len(), |i: int| v[i]@)
}

/// Whether some entry of the registry carries this name.
pub open spec fn contains_name(s: Seq<FunctionDefModel>, name: Seq<char>) -> bool {
    exists|i: int| 0 <= i < s.len() && (#[trigger] s[i]).name == name
}

/// The index of the entry carrying this name (unique in a well-formed
/// registry).
pub open spec fn index_of_name(s: Seq<FunctionDefModel>, name: Seq<char>) -> int {
    choose|i: int| 0 <= i < s.len() && (#[trigger] s[i]).name == name
}

/// The entry carrying this name, if any.
pub open spec fn find_name(s: Seq<FunctionDefModel>, name: Seq<char>) -> Option<
    FunctionDefModel,
> {
    if contains_name(s, name) {
        Some(s[index_of_name(s, name)])
    } else {
        None
    }
}

/// What inserting one definition does to a registry: overwrite the entry of
/// the same name in place, or append a new entry.
pub open spec fn registry_insert(s: Seq<FunctionDefModel>, f: FunctionDefModel) -> Seq<
    FunctionDefModel,
> {
    if contains_name(s, f.name) {
        s.update(index_of_name(s, f.name), f)
    } else {
        s.push(f)
    }
}

/// A name-keyed registry of function definitions, with at most one entry per
/// name, in insertion order.
#[derive(Debug, PartialEq, Eq)]
pub struct FunctionMap {
    entries: Vec<FunctionDef>,
}

impl View for FunctionMap {
    type V = Seq<FunctionDefModel>;

    closed spec fn view(&self) -> Seq<FunctionDefModel> {
        fn_models(self.entries@)
    }
}

impl FunctionMap {
    /// Names are pairwise distinct.
    pub open spec fn wf(&self) -> bool {
        forall|i: int, j: int|
            0 <= i < j < self@.len() ==> (#[trigger] self@[i]).name != (#[trigger] self@[j]).name
    }

    /// The empty registry.
    pub fn new() -> (r: FunctionMap)
        ensures
            r@ == Seq::<FunctionDefModel>::empty(),
            r.wf(),
    {
        let r = FunctionMap { entries: Vec::new() };
        proof {
            assert(r@ =~= Seq::<FunctionDefModel>::empty());
        }
        r
    }

    /// How many entries the registry holds.
    pub fn len(&self) -> (n: usize)
        ensures
            n == self@.len(),
    {
        self.entries.len()
    }

    /// The entry at one position, in insertion order.
    pub fn entry_at(&self, i: usize) -> (r: &FunctionDef)
        requires
            i < self@.len(),
        ensures
            r@ == self@[i as int],
    {
        &self.entries[i]
    }

    /// Look a definition up by name.
    pub fn get(&self, name: &String) -> (r: Option<&FunctionDef>)
        requires
            self.wf(),
        ensures
            match r {
                Some(f) => find_name(self@, name@) == Some(f@),
                None => find_name(self@, name@) is None,
            },
    {
        for k in 0..self.entries.len()
            invariant
                self.wf(),
                self@.len() == self.entries@.len(),
                forall|i: int| 0 <= i < self@.len() ==> self@[i] == (#[trigger] self.entries@[i])@,
                forall|i: int| 0 <= i < k ==> (#[trigger] self@[i]).name != name@,
        {
            if self.entries[k].name.eq(name) {
                proof {
                    assert(self@[k as int].name == name@);
                    assert(contains_name(self@, name@));
                    let j = index_of_name(self@, name@);
                    assert(0 <= j < self@.len() && self@[j].name == name@);
                    assert(j == k as int);
                }
                return Some(&self.entries[k]);
            }
        }
        proof {
            assert forall|i: int| 0 <= i < self@.len() implies (#[trigger] self@[i]).name
                != name@ by {}
            assert(!contains_name(self@, name@));
        }
        None
    }

    /// Insert a definition under its own name; a previous entry of the same
    /// name is overwritten in place.
    pub fn insert(&mut self, f: FunctionDef)
        requires
            old(self).wf(),
        ensures
            final(self).wf(),
            final(self)@ == registry_insert(old(self)@, f@),
    {
        let ghost olds = self@;
        let mut found: Option<usize> = None;
        let mut k: usize = 0;
        while k < self.entries.len() && found.is_none()
            invariant
                self@ == olds,
                self@.len() == self.entries@.len(),
                forall|i: int| 0 <= i < self@.len() ==> self@[i] == (#[trigger] self.entries@[i])@,
                k <= self@.len(),
                match found {
                    None => forall|i: int| 0 <= i < k ==> (#[trigger] self@[i]).name != f@.name,
                    Some(idx) => idx < self@.len() && self@[idx as int].name == f@.name,
                },
            decreases self@.len() - k,
        {
            if self.entries[k].name.eq(&f.name) {
                found = Some(k);
            }
            k = k + 1;
        }
        match found {
            Some(idx) => {
                proof {
                    assert(contains_name(olds, f@.name));
                    let j = index_of_name(olds, f@.name);
                    assert(0 <= j < olds.len() && olds[j].name == f@.name);
                    assert(j == idx as int);
                }
                self.entries.remove(idx);
                self.entries.insert(idx, f);
                proof {
                    assert(self@ =~= olds.update(idx as int, f@));
                }
            },
            None => {
                proof {
                    assert forall|i: int| 0 <= i < olds.len() implies (#[trigger] olds[i]).name
                        != f@.name by {}
                    assert(!contains_name(olds, f@.name));
                }
                self.entries.push(f);
                proof {
                    assert(self@ =~= olds.push(f@));
                }
            },
        }
    }
}

/// Whether a name starts with the consumer prefix `test_`.
pub open spec fn name_is_test(n: Seq<char>) -> bool {
    n.len() >= 5 && n.subrange(0, 5) == "test_"@
}

/// Whether a function definition is a consumer: not a provider, and named
/// with the `test_` prefix.
pub open spec fn is_consumer(f: FunctionDefModel) -> bool {
    !is_provider(f) && name_is_test(f.name)
}

/// Decide whether a name starts with `test_`.
pub fn starts_with_test(name: &String) -> (r: bool)
    ensures
        r == name_is_test(name@),
{
    proof {
        reveal_strlit("test_");
    }
    let s = name.as_str();
    let n = s.unicode_len();
    if n < 5 {
        return false;
    }
    let r = s.get_char(0) == 't' && s.get_char(1) == 'e' && s.get_char(2) == 's' && s.get_char(3)
        == 't' && s.get_char(4) == '_';
    proof {
        if r {
            assert(name@.subrange(0, 5) =~= "test_"@);
        } else {
            assert(name@.subrange(0, 5) != "test_"@) by {
                if name@.subrange(0, 5) == "test_"@ {
                    assert(name@[0] == "test_"@[0]);
                    assert(name@[1] == "test_"@[1]);
                    assert(name@[2] == "test_"@[2]);
                    assert(name@[3] == "test_"@[3]);
                    assert(name@[4] == "test_"@[4]);
                }
            }
        }
    }
    r
}

/// The models of the function definitions among a module's statements, in
/// source order.
pub open spec fn functions_model(stmts: Seq<StmtModel>) -> Seq<FunctionDefModel>
    decreases stmts.len(),
{
    if stmts.len() == 0 {
        Seq::empty()
    } else {
        match stmts.last() {
            StmtModel::FunctionDef(f) => functions_model(stmts.drop_last()).push(f),
            StmtModel::Other => functions_model(stmts.drop_last()),
        }
    }
}

/// Extract the function definitions among a module's top-level statements,
/// in source order.
pub fn get_functions(stmts: &Vec<Stmt>) -> (r: Vec<FunctionDef>)
    ensures
        fn_models(r@) == functions_model(stmts.deep_view()),
{
    let ghost sms = stmts.deep_view();
    let mut out: Vec<FunctionDef> = Vec::new();
    for k in 0..stmts.len()
        invariant
            sms == stmts.deep_view(),
            sms.len() == stmts@.len(),
            forall|i: int| 0 <= i < stmts@.len() ==> sms[i] == (#[trigger] stmts@[i])@,
            fn_models(out@) == functions_model(sms.subrange(0, k as int)),
    {
        let ghost prefix = sms.subrange(0, k as int);
        match &stmts[k] {
            Stmt::FunctionDef(f) => {
                out.push(f.clone());
            },
            Stmt::Other => {},
        }
        proof {
            assert(sms.subrange(0, k + 1 as int).drop_last() =~= prefix);
            assert(sms.subrange(0, k + 1 as int).last() == sms[k as int]);
            match sms[k as int] {
                StmtModel::FunctionDef(fm) => {
                    assert(fn_models(out@) =~= functions_model(prefix).push(fm));
                },
                StmtModel::Other => {},
            }
        }
    }
    proof {
        assert(sms.subrange(0, sms.len() as int) =~= sms);
    }
    out
}

/// The provider registry a sequence of definitions builds: every provider
/// inserted in order, a later definition overwriting an earlier one of the
/// same name.
pub open spec fn fixtures_mapping_model(fs: Seq<FunctionDefModel>) -> Seq<FunctionDefModel>
    decreases fs.len(),
{
    if fs.len() == 0 {
        Seq::empty()
    } else {
        let prev = fixtures_mapping_model(fs.drop_last());
        if is_provider(fs.last()) {
            registry_insert(prev, fs.last())
        } else {
            prev
        }
    }
}

/// The consumer registry a sequence of definitions builds: every consumer
/// inserted in order, a later definition overwriting an earlier one of the
/// same name.
pub open spec fn test_cases_model(fs: Seq<FunctionDefModel>) -> Seq<FunctionDefModel>
    decreases fs.len(),
{
    if fs.len() == 0 {
        Seq::empty()
    } else {
        let prev = test_cases_model(fs.drop_last());
        if is_consumer(fs.last()) {
            registry_insert(prev, fs.last())
        } else {
            prev
        }
    }
}

/// Build the provider registry: the definitions decorated as fixtures, keyed
/// by name, last definition winning.
pub fn get_fixtures_mapping(functions: &Vec<FunctionDef>) -> (r: FunctionMap)
    ensures
        r.wf(),
        r@ == fixtures_mapping_model(fn_models(functions@)),
{
    let ghost fms = fn_models(functions@);
    let mut mapping = FunctionMap::new();
    for k in 0..functions.len()
        invariant
            fms == fn_models(functions@),
            fms.len() == functions@.len(),
            forall|i: int| 0 <= i < functions@.len() ==> fms[i] == (#[trigger] functions@[i])@,
            mapping.wf(),
            mapping@ == fixtures_mapping_model(fms.subrange(0, k as int)),
    {
        let ghost prefix = fms.subrange(0, k as int);
        let f = &functions[k];
        if f.is_pytest_fixture() {
            mapping.insert(f.clone());
        }
        proof {
            assert(fms.subrange(0, k + 1 as int).drop_last() =~= prefix);
            assert(fms.subrange(0, k + 1 as int).last() == fms[k as int]);
        }
    }
    proof {
        assert(fms.subrange(0, fms.len() as int) =~= fms);
    }
    mapping
}

/// Build the consumer registry: the definitions that are not providers and
/// whose names start with `test_`, keyed by name, last definition winning.
pub fn get_test_cases(functions: &Vec<FunctionDef>) -> (r: FunctionMap)
    ensures
        r.wf(),
        r@ == test_cases_model(fn_models(functions@)),
{
    let ghost fms = fn_models(functions@);
    let mut mapping = FunctionMap::new();
    for k in 0..functions.len()
        invariant
            fms == fn_models(functions@),
            fms.len() == functions@.len(),
            forall|i: int| 0 <= i < functions@.len() ==> fms[i] == (#[trigger] functions@[i])@,
            mapping.wf(),
            mapping@ == test_cases_model(fms.subrange(0, k as int)),
    {
        let ghost prefix = fms.subrange(0, k as int);
        let f = &functions[k];
        let fixture = f.is_pytest_fixture();
        let named_test = starts_with_test(&f.name);
        if !fixture && named_test {
            mapping.insert(f.clone());
        }
        proof {
            assert(fms.subrange(0, k + 1 as int).drop_last() =~= prefix);
            assert(fms.subrange(0, k + 1 as int).last() == fms[k as int]);
        }
    }
    proof {
        assert(fms.subrange(0, fms.len() as int) =~= fms);
    }
    mapping
}

/// A function without decorators is no provider, so definitions without
/// decorators build an empty provider registry.
pub proof fn lemma_no_decorators_no_providers(fs: Seq<FunctionDefModel>)
    requires
        forall|i: int| 0 <= i < fs.len() ==> (#[trigger] fs[i]).decorator_list.len() == 0,
    ensures
        fixtures_mapping_model(fs) == Seq::<FunctionDefModel>::empty(),
    decreases fs.len(),
{
    if fs.len() > 0 {
        assert forall|i: int| 0 <= i < fs.drop_last().len() implies (#[trigger] fs.drop_last()[
            i
        ]).decorator_list.len() == 0 by {
            assert(fs.drop_last()[i] == fs[i]);
        }
        lemma_no_decorators_no_providers(fs.drop_last());
        assert(!is_provider(fs.last()));
    }
}

/// Every entry of the consumer registry is one of the definitions that built
/// it.
pub proof fn lemma_test_cases_from_functions(fs: Seq<FunctionDefModel>)
    ensures
        forall|j: int|
            0 <= j < test_cases_model(fs).len() ==> exists|i: int|
                0 <= i < fs.len() && #[trigger] test_cases_model(fs)[j] == fs[i],
    decreases fs.len(),
{
    if fs.len() > 0 {
        lemma_test_cases_from_functions(fs.drop_last());
        let prev = test_cases_model(fs.drop_last());
        let cur = test_cases_model(fs);
        assert forall|j: int| 0 <= j < cur.len() implies exists|i: int|
            0 <= i < fs.len() && #[trigger] cur[j] == fs[i] by {
            if is_consumer(fs.last()) {
                if cur[j] == fs.last() {
                    assert(fs.last() == fs[fs.len() - 1]);
                } else {
                    assert(cur[j] == prev[j]);
                    let i0 = choose|i: int|
                        0 <= i < fs.drop_last().len() && prev[j] == fs.drop_last()[i];
                    assert(fs.drop_last()[i0] == fs[i0]);
                }
            } else {
                assert(cur[j] == prev[j]);
                let i0 = choose|i: int|
                    0 <= i < fs.drop_last().len() && prev[j] == fs.drop_last()[i];
                assert(fs.drop_last()[i0] == fs[i0]);
            }
        }
    }
}

/// The display string of an annotation expression, when it resolves.
pub open spec fn annotation_model(e: ExprModel) -> Option<Seq<char>> {
    match resolve_model(e) {
        Some(s) => Some(render_model(s)),
        None => None,
    }
}

/// The display string of an optional annotation expression.
pub open spec fn opt_annotation_model(e: Option<ExprModel>) -> Option<Seq<char>> {
    match e {
        Some(e) => annotation_model(e),
        None => None,
    }
}

/// The model of an optional string.
pub open spec fn str_opt_model(r: Option<String>) -> Option<Seq<char>> {
    match r {
        Some(s) => Some(s@),
        None => None,
    }
}

/// The display string of an annotation expression: its resolved signature
/// rendered, or `None` when the shape is unsupported.
pub fn get_annotation(expr: &PyExpr) -> (r: Option<String>)
    ensures
        str_opt_model(r) == annotation_model(expr@),
{
    match resolve(expr) {
        Some(sig) => Some(render(&sig)),
        None => None,
    }
}

/// The display string of a parameter's annotation, if it carries one that
/// resolves.
pub fn get_argument_annotation(arg: &Arg) -> (r: Option<String>)
    ensures
        str_opt_model(r) == opt_annotation_model(arg@.annotation),
{
    match &arg.annotation {
        Some(expr) => {
            proof {
                assert(arg@.annotation == Some(expr_model(*expr)));
            }
            get_annotation(expr)
        },
        None => None,
    }
}

/// The display string of a function's return annotation, if it carries one
/// that resolves.
pub fn get_return_annotation(func: &FunctionDef) -> (r: Option<String>)
    ensures
        str_opt_model(r) == opt_annotation_model(func@.returns),
{
    match &func.returns {
        Some(expr) => {
            proof {
                assert(func@.returns == Some(expr_model(*expr)));
            }
            get_annotation(expr)
        },
        None => None,
    }
}

} // verus!
