//! Decorated classes become a call of the runtime's `$acd$` helper, which
//! applies the decorators itself: `@a @b class Foo {}` becomes
//! `const Foo = $acd$(class Foo {}, "Foo", [a, b])`.
use vstd::prelude::*;
use oxc::allocator::Allocator;
use crate::model::{
    ClassId, ClassNode, ClassView, Declarator, DeclaratorView, declarators_view, DefaultExport,
    DefaultExportView, Expr, ExprView, Module, Stmt, StmtView,
};
use crate::utils::{binding_name, clone_binding_identifier};

verus! {

/// A class as an expression with its decorators applied: a class without
/// decorators or without a name stays a class expression; otherwise the
/// decorators, in order, move into the call that applies them.
pub open spec fn wrap_class(c: ClassView) -> ExprView {
    if c.decorators.len() == 0 || c.id is None {
        ExprView::Class(c)
    } else {
        ExprView::ApplyDecorators {
            class: ClassView { decorators: seq![], ..c },
            name: c.id.unwrap().name,
            decorators: c.decorators,
        }
    }
}

/// A declarator whose initializer is a decorated class expression gets the
/// wrapped class; any other declarator is kept.
pub open spec fn decorate_declarator(d: DeclaratorView) -> DeclaratorView {
    match d.init {
        Some(ExprView::Class(c)) => if c.decorators.len() > 0 {
            DeclaratorView { init: Some(wrap_class(c)), ..d }
        } else {
            d
        },
        _ => d,
    }
}

/// A default export of a decorated class exports the wrapped class.
pub open spec fn decorate_default(e: DefaultExportView) -> DefaultExportView {
    match e {
        DefaultExportView::ClassDecl(c) => if c.decorators.len() > 0 {
            DefaultExportView::Expr(wrap_class(c))
        } else {
            e
        },
        DefaultExportView::ClassExpr(c) => if c.decorators.len() > 0 {
            DefaultExportView::Expr(wrap_class(c))
        } else {
            e
        },
        _ => e,
    }
}

/// How one top-level statement changes: a named, decorated class declaration
/// becomes `const <name> = <wrapped class>`; decorated classes in variable
/// initializers and default exports are wrapped; everything else, exported
/// named classes included, stays as it is.
pub open spec fn decorated_stmt(s: StmtView, t: StmtView) -> bool {
    match s {
        StmtView::ClassDecl(c) => if c.id is Some && c.decorators.len() > 0 {
            t matches StmtView::ConstDecl { id, init } && id.name == c.id.unwrap().name
                && binding_name(id.node) == binding_name(c.id.unwrap().node) && init == wrap_class(c)
        } else {
            t == s
        },
        StmtView::VarDecl { declarators, node } => t == StmtView::VarDecl {
            declarators: declarators.map_values(|d: DeclaratorView| decorate_declarator(d)),
            node,
        },
        StmtView::ExportDefault { decl, node } => t == StmtView::ExportDefault {
            decl: decorate_default(decl),
            node,
        },
        _ => t == s,
    }
}

/// A class as an expression with its decorators applied (see [`wrap_class`]).
pub fn wrap_class_decl<'a>(class: ClassNode<'a>) -> (res: Expr<'a>)
    ensures
        res@ == wrap_class(class@),
{
    let mut class = class;
    if class.decorators.len() == 0 {
        return Expr::Class(class);
    }
    let name = match &class.id {
        Some(id) => id.name.clone(),
        None => {
            return Expr::Class(class);
        },
    };
    let mut decorators: Vec<crate::model::Deco<'a>> = Vec::new();
    std::mem::swap(&mut class.decorators, &mut decorators);
    assert(class@.decorators =~= seq![]);
    Expr::ApplyDecorators { class, name, decorators }
}

fn decorate_declarators<'a>(declarators: Vec<Declarator<'a>>) -> (res: Vec<Declarator<'a>>)
    ensures
        declarators_view(res@) == declarators_view(declarators@).map_values(
            |d: DeclaratorView| decorate_declarator(d),
        ),
{
    let ghost dv = declarators_view(declarators@);
    let mut res: Vec<Declarator<'a>> = Vec::new();
    for d in it: declarators.into_iter()
        invariant
            it.seq() == declarators@,
            dv == declarators_view(declarators@),
            declarators_view(res@) == dv.take(it.index()).map_values(
                |d: DeclaratorView| decorate_declarator(d),
            ),
    {
        let ghost i = it.index();
        assert(d@ == dv[i]);
        let Declarator { init, node } = d;
        let init = match init {
            Some(Expr::Class(c)) => {
                if c.decorators.len() > 0 {
                    Some(wrap_class_decl(c))
                } else {
                    Some(Expr::Class(c))
                }
            },
            other => other,
        };
        let e = Declarator { init, node };
        assert(e@ == decorate_declarator(dv[i]));
        let ghost prev = declarators_view(res@);
        res.push(e);
        assert(declarators_view(res@) =~= prev.push(e@));
        assert(dv.take(i + 1).map_values(|d: DeclaratorView| decorate_declarator(d)) =~= dv.take(
            i,
        ).map_values(|d: DeclaratorView| decorate_declarator(d)).push(decorate_declarator(dv[i])));
    }
    assert(dv.take(dv.len() as int) =~= dv);
    res
}

fn decorate_statement<'a>(alloc: &'a Allocator, s: Stmt<'a>) -> (res: Stmt<'a>)
    ensures
        decorated_stmt(s@, res@),
{
    match s {
        Stmt::ClassDecl(class) => {
            if class.decorators.len() > 0 {
                let id = match &class.id {
                    Some(id) => ClassId {
                        name: id.name.clone(),
                        node: clone_binding_identifier(alloc, &id.node),
                    },
                    None => {
                        return Stmt::ClassDecl(class);
                    },
                };
                let init = wrap_class_decl(class);
                Stmt::ConstDecl { id, init }
            } else {
                Stmt::ClassDecl(class)
            }
        },
        Stmt::VarDecl { declarators, node } => {
            Stmt::VarDecl { declarators: decorate_declarators(declarators), node }
        },
        Stmt::ExportNamedClass { class, node } => {
            if class.decorators.len() > 0 {
                // A named class always has a name, so it is wrapped into the
                // call; an exported declaration cannot hold a call, and the
                // class is exported as it was written.
                let class = match wrap_class_decl(class) {
                    Expr::Class(c) => c,
                    Expr::ApplyDecorators { class: mut c, decorators, .. } => {
                        c.decorators = decorators;
                        c
                    },
                    Expr::Other(_) => {
                        assert(false);
                        return Stmt::Other(node);
                    },
                };
                Stmt::ExportNamedClass { class, node }
            } else {
                Stmt::ExportNamedClass { class, node }
            }
        },
        Stmt::ExportDefault { decl, node } => {
            let decl = match decl {
                DefaultExport::ClassDecl(c) => {
                    if c.decorators.len() > 0 {
                        DefaultExport::Expr(wrap_class_decl(c))
                    } else {
                        DefaultExport::ClassDecl(c)
                    }
                },
                DefaultExport::ClassExpr(c) => {
                    if c.decorators.len() > 0 {
                        DefaultExport::Expr(wrap_class_decl(c))
                    } else {
                        DefaultExport::ClassExpr(c)
                    }
                },
                other => other,
            };
            Stmt::ExportDefault { decl, node }
        },
        other => other,
    }
}

/// Rewrites the decorated classes of a module's top-level statements (see
/// [`decorated_stmt`]), keeping the statements' number and order.
pub fn transform_class_decorators<'a>(alloc: &'a Allocator, module: &mut Module<'a>)
    ensures
        final(module)@.len() == old(module)@.len(),
        forall|i: int|
            0 <= i < old(module)@.len() ==> decorated_stmt(
                #[trigger] old(module)@[i],
                final(module)@[i],
            ),
{
    let mut body: Vec<Stmt<'a>> = Vec::new();
    std::mem::swap(&mut module.body, &mut body);
    let ghost old_view = old(module)@;
    assert(crate::model::stmts_view(body@) == old_view);
    for s in it: body.into_iter()
        invariant
            it.seq() == body@,
            old_view == crate::model::stmts_view(body@),
            module@.len() == it.index(),
            forall|j: int| 0 <= j < it.index() ==> decorated_stmt(#[trigger] old_view[j], module@[j]),
    {
        let ghost i = it.index();
        assert(s@ == old_view[i]);
        let ghost prev = module@;
        module.body.push(decorate_statement(alloc, s));
        assert(forall|j: int| 0 <= j < i ==> module@[j] == prev[j]);
    }
}

} // verus!
