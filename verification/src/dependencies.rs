//! The constructor dependencies of a class: which classes get a
//! `@depends(..)` decorator, and with which arguments.
//!
//! Each parameter of a class's first constructor names one dependency: the
//! value of its `@alias("..")` decorators, or else the name of its type.
use vstd::prelude::*;
use crate::model::{
    opt_str_view, strs_view, decos_view, params_view, members_view, Arg, ArgView, ClassNode,
    ClassView, Deco, DecoView, Member, MemberView, Module, Param, ParamView, Stmt, StmtView,
};
use crate::seqs::{first_where, lemma_first_where_prefix};
use crate::text::{eq_ignore_ascii_case, same_ignoring_ascii_case};

verus! {

pub open spec fn depends_word() -> Seq<char> {
    seq!['d', 'e', 'p', 'e', 'n', 'd', 's']
}

pub open spec fn alias_word() -> Seq<char> {
    seq!['a', 'l', 'i', 'a', 's']
}

/// A decorator whose name is `depends`, in any ASCII case.
pub open spec fn names_depends(d: DecoView) -> bool {
    match d {
        DecoView::Written { name: Some(n), .. } => same_ignoring_ascii_case(n, depends_word()),
        _ => false,
    }
}

/// A class needs a `@depends(..)` decorator when none of its decorators is
/// named `depends`.
pub open spec fn requires_depends(c: ClassView) -> bool {
    forall|i: int| 0 <= i < c.decorators.len() ==> !names_depends(#[trigger] c.decorators[i])
}

/// The value of an `@alias("..")` decorator: a call of an identifier named
/// `alias` (in any ASCII case) with exactly one argument, a string literal.
pub open spec fn alias_of(d: DecoView) -> Option<Seq<char>> {
    match d {
        DecoView::Written { call: Some(shape), .. } => match shape.callee {
            Some(callee) => if same_ignoring_ascii_case(callee, alias_word()) && shape.args.len()
                == 1 {
                match shape.args[0] {
                    ArgView::Str(v) => Some(v),
                    ArgView::Other => None,
                }
            } else {
                None
            },
            None => None,
        },
        _ => None,
    }
}

/// The alias values of a list of decorators, in order.
pub open spec fn aliases(ds: Seq<DecoView>) -> Seq<Seq<char>>
    decreases ds.len(),
{
    if ds.len() == 0 {
        seq![]
    } else {
        let rest = aliases(ds.drop_last());
        match alias_of(ds.last()) {
            Some(v) => rest.push(v),
            None => rest,
        }
    }
}

/// The decorators that are not alias decorators, in order.
pub open spec fn without_aliases(ds: Seq<DecoView>) -> Seq<DecoView>
    decreases ds.len(),
{
    if ds.len() == 0 {
        seq![]
    } else {
        let rest = without_aliases(ds.drop_last());
        match alias_of(ds.last()) {
            Some(_) => rest,
            None => rest.push(ds.last()),
        }
    }
}

/// What one parameter contributes to the dependencies: its alias values, or
/// when it has none, the name of its type reference, if it has one.
pub open spec fn param_injects(p: ParamView) -> Seq<Seq<char>> {
    if aliases(p.decorators).len() > 0 {
        aliases(p.decorators)
    } else {
        match p.type_ref {
            Some(t) => seq![t],
            None => seq![],
        }
    }
}

/// The dependencies named by a list of parameters, in order.
pub open spec fn injects(ps: Seq<ParamView>) -> Seq<Seq<char>>
    decreases ps.len(),
{
    if ps.len() == 0 {
        seq![]
    } else {
        injects(ps.drop_last()) + param_injects(ps.last())
    }
}

/// A parameter with its alias decorators removed.
pub open spec fn strip_aliases(p: ParamView) -> ParamView {
    ParamView { decorators: without_aliases(p.decorators), ..p }
}

/// The index of the first constructor among the members of a class.
pub open spec fn first_ctor(ms: Seq<MemberView>) -> Option<int> {
    first_where(ms, |m: MemberView| m is Constructor)
}

/// The parameters of the first constructor of a class (none without one).
pub open spec fn ctor_params(c: ClassView) -> Seq<ParamView> {
    match first_ctor(c.members) {
        Some(k) => match c.members[k] {
            MemberView::Constructor { params, .. } => params,
            MemberView::Other(_) => seq![],
        },
        None => seq![],
    }
}

/// The arguments of the `@depends(..)` decorator a class gets: every
/// parameter's dependencies, when there is at least one and exactly one per
/// parameter.
pub open spec fn depends_args(c: ClassView) -> Option<Seq<Seq<char>>> {
    let ps = ctor_params(c);
    let inj = injects(ps);
    if inj.len() == 0 || inj.len() != ps.len() {
        None
    } else {
        Some(inj)
    }
}

/// A class with the alias decorators removed from the parameters of its
/// first constructor.
pub open spec fn strip_ctor(c: ClassView) -> ClassView {
    match first_ctor(c.members) {
        Some(k) => match c.members[k] {
            MemberView::Constructor { params, node } => ClassView {
                members: c.members.update(
                    k,
                    MemberView::Constructor {
                        params: params.map_values(|p: ParamView| strip_aliases(p)),
                        node,
                    },
                ),
                ..c
            },
            MemberView::Other(_) => c,
        },
        None => c,
    }
}

/// A class after its dependencies are extracted: alias decorators removed
/// from its first constructor, and `@depends(..)` appended to its decorators
/// when [`depends_args`] gives arguments.
pub open spec fn with_depends(c: ClassView) -> ClassView {
    let s = strip_ctor(c);
    match depends_args(c) {
        Some(a) => ClassView { decorators: s.decorators.push(DecoView::Depends(a)), ..s },
        None => s,
    }
}

/// A top-level statement after the dependency pass: a class declaration
/// that needs a `@depends(..)` decorator is processed, all else is kept.
pub open spec fn module_stmt(s: StmtView) -> StmtView {
    match s {
        StmtView::ClassDecl(c) => if requires_depends(c) {
            StmtView::ClassDecl(with_depends(c))
        } else {
            s
        },
        _ => s,
    }
}

/// Whether a class still lacks a decorator named `depends` (any ASCII case).
pub fn requires_decorator<'a>(class: &ClassNode<'a>) -> (res: bool)
    ensures
        res == requires_depends(class@),
{
    proof {
        reveal_strlit("depends");
        assert("depends"@ =~= depends_word());
    }
    let mut i: usize = 0;
    while i < class.decorators.len()
        invariant
            0 <= i <= class.decorators@.len(),
            "depends"@ == depends_word(),
            forall|j: int| 0 <= j < i ==> !names_depends(#[trigger] class@.decorators[j]),
        decreases class.decorators@.len() - i,
    {
        match &class.decorators[i] {
            Deco::Written { name: Some(n), .. } => {
                if eq_ignore_ascii_case(n.as_str(), "depends") {
                    assert(names_depends(class@.decorators[i as int]));
                    return false;
                }
            },
            _ => {},
        }
        i = i + 1;
    }
    true
}

/// The value of an alias decorator.
fn alias_value<'a>(d: &Deco<'a>) -> (res: Option<String>)
    ensures
        opt_str_view(res) == alias_of(d@),
{
    proof {
        reveal_strlit("alias");
        assert("alias"@ =~= alias_word());
    }
    match d {
        Deco::Written { call: Some(shape), .. } => match &shape.callee {
            Some(callee) => {
                if eq_ignore_ascii_case(callee.as_str(), "alias") && shape.args.len() == 1 {
                    match &shape.args[0] {
                        Arg::Str(v) => Some(v.clone()),
                        Arg::Other => None,
                    }
                } else {
                    None
                }
            },
            None => None,
        },
        _ => None,
    }
}

/// Splits a parameter's decorators into those that stay and the values of
/// the alias decorators.
fn split_aliases<'a>(decorators: Vec<Deco<'a>>) -> (res: (Vec<Deco<'a>>, Vec<String>))
    ensures
        decos_view(res.0@) == without_aliases(decos_view(decorators@)),
        strs_view(res.1@) == aliases(decos_view(decorators@)),
{
    let ghost all = decos_view(decorators@);
    let mut kept: Vec<Deco<'a>> = Vec::new();
    let mut found: Vec<String> = Vec::new();
    for d in it: decorators.into_iter()
        invariant
            it.seq() == decorators@,
            all == decos_view(decorators@),
            decos_view(kept@) == without_aliases(all.take(it.index())),
            strs_view(found@) == aliases(all.take(it.index())),
    {
        let ghost i = it.index();
        assert(all.take(i + 1).drop_last() == all.take(i));
        match alias_value(&d) {
            Some(v) => {
                found.push(v);
            },
            None => {
                kept.push(d);
            },
        }
    }
    assert(all.take(all.len() as int) == all);
    (kept, found)
}


fn is_constructor<'a>(m: &Member<'a>) -> (res: bool)
    ensures
        res == (m@ is Constructor),
{
    match m {
        Member::Constructor { .. } => true,
        Member::Other(_) => false,
    }
}

/// Removes the alias decorators from the parameters of the class's first
/// constructor, and returns the `@depends(..)` decorator the class gets: one
/// string per parameter, the values of its `@alias("..")` decorators, or else
/// the name of its type. There is none when no dependency was found, or when
/// their number differs from the number of parameters (also when the class
/// has no constructor).
pub fn extract_injectable_class_constructor<'a>(class: &mut ClassNode<'a>) -> (res: Option<Deco<'a>>)
    ensures
        final(class)@ == strip_ctor(old(class)@),
        match depends_args(old(class)@) {
            Some(a) => res matches Some(d) && d@ == DecoView::Depends(a),
            None => res is None,
        },
{
    let ghost ms = old(class)@.members;
    let mut k: usize = 0;
    while k < class.members.len() && !is_constructor(&class.members[k])
        invariant
            0 <= k <= class.members@.len(),
            class@ == old(class)@,
            ms == old(class)@.members,
            first_ctor(ms.take(k as int)) is None,
        decreases class.members@.len() - k,
    {
        assert(ms.take(k + 1).drop_last() =~= ms.take(k as int));
        k = k + 1;
    }
    if k == class.members.len() {
        assert(ms.take(k as int) =~= ms);
        return None;
    }
    assert(ms.take(k + 1).drop_last() =~= ms.take(k as int));
    assert(first_ctor(ms.take(k + 1)) == Some(k as int));
    proof {
        lemma_first_where_prefix(ms, |m: MemberView| m is Constructor, k + 1);
    }
    let member = class.members.remove(k);
    let (params, node) = match member {
        Member::Constructor { params, node } => (params, node),
        Member::Other(_) => {
            assert(false);
            return None;
        },
    };
    let ghost pv = params_view(params@);
    assert(ctor_params(old(class)@) == pv);
    let expected: usize = params.len();
    let mut found_all: Vec<String> = Vec::new();
    let mut stripped: Vec<Param<'a>> = Vec::new();
    for p in it: params.into_iter()
        invariant
            it.seq() == params@,
            pv == params_view(params@),
            strs_view(found_all@) == injects(pv.take(it.index())),
            params_view(stripped@) == pv.take(it.index()).map_values(|q: ParamView| strip_aliases(q)),
    {
        let ghost i = it.index();
        let ghost before = found_all@;
        assert(pv.take(i + 1).drop_last() =~= pv.take(i));
        assert(pv[i] == p@);
        let Param { decorators, type_ref, node } = p;
        let (kept, mut found) = split_aliases(decorators);
        if found.len() > 0 {
            found_all.append(&mut found);
        } else {
            match &type_ref {
                Some(t) => {
                    found_all.push(t.clone());
                },
                None => {},
            }
        }
        assert(strs_view(found_all@) =~= injects(pv.take(i + 1)));
        let q = Param { decorators: kept, type_ref, node };
        assert(q@ == strip_aliases(pv[i]));
        let ghost prev = params_view(stripped@);
        stripped.push(q);
        assert(params_view(stripped@) =~= prev.push(q@));
        assert(pv.take(i + 1).map_values(|q: ParamView| strip_aliases(q)) =~= pv.take(i).map_values(
            |q: ParamView| strip_aliases(q),
        ).push(strip_aliases(pv[i])));
        assert(params_view(stripped@) =~= pv.take(i + 1).map_values(|q: ParamView| strip_aliases(q)));
    }
    assert(pv.take(pv.len() as int) =~= pv);
    let ghost new_member = MemberView::Constructor {
        params: pv.map_values(|q: ParamView| strip_aliases(q)),
        node,
    };
    class.members.insert(k, Member::Constructor { params: stripped, node });
    assert(class@.members =~= ms.update(k as int, new_member));
    if found_all.len() == 0 || found_all.len() != expected {
        None
    } else {
        Some(Deco::Depends(found_all))
    }
}


/// One top-level statement through the dependency pass.
fn process_statement<'a>(s: Stmt<'a>) -> (res: Stmt<'a>)
    ensures
        res@ == module_stmt(s@),
{
    match s {
        Stmt::ClassDecl(mut class) => {
            if requires_decorator(&class) {
                let decorator = extract_injectable_class_constructor(&mut class);
                match decorator {
                    Some(d) => {
                        class.decorators.push(d);
                    },
                    None => {},
                }
                assert(class@.decorators =~= with_depends(s@->ClassDecl_0).decorators);
            }
            Stmt::ClassDecl(class)
        },
        other => other,
    }
}

/// Gives every top-level class declaration that has no decorator named
/// `depends` the `@depends(..)` decorator of its constructor's dependencies
/// (see [`extract_injectable_class_constructor`]). Other statements are kept
/// as they are, in order.
pub fn transform_module<'a>(module: &mut Module<'a>)
    ensures
        final(module)@ == old(module)@.map_values(|s: StmtView<'a>| module_stmt(s)),
{
    let mut body: Vec<Stmt<'a>> = Vec::new();
    std::mem::swap(&mut module.body, &mut body);
    let ghost old_view = old(module)@;
    assert(crate::model::stmts_view(body@) == old_view);
    for s in it: body.into_iter()
        invariant
            it.seq() == body@,
            old_view == crate::model::stmts_view(body@),
            module@ == old_view.take(it.index()).map_values(|s: StmtView<'a>| module_stmt(s)),
    {
        let ghost i = it.index();
        assert(s@ == old_view[i]);
        let ghost prev = module@;
        module.body.push(process_statement(s));
        assert(module@ =~= prev.push(module_stmt(old_view[i])));
        assert(old_view.take(i + 1).map_values(|s: StmtView<'a>| module_stmt(s)) =~= old_view.take(
            i,
        ).map_values(|s: StmtView<'a>| module_stmt(s)).push(module_stmt(old_view[i])));
    }
    assert(old_view.take(old_view.len() as int) =~= old_view);
}

} // verus!
