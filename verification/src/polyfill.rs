//! The import of the runtime's helper functions: a module gets
//! `import { $si$, $ri$, $acd$ } from '@moggie/runtime/polyfill'` unless it
//! already imports that module, placed after its leading imports.
use vstd::prelude::*;
use oxc::allocator::Allocator;
use oxc::ast::ast::{ImportDeclarationSpecifier, Statement};
use crate::model::{strs_view, stmts_view, Module, Stmt, StmtView};
use crate::seqs::{first_where, lemma_first_where_prefix};
use crate::text::{eq_ignore_ascii_case, same_ignoring_ascii_case};
use crate::utils::{
    import, import_declaration, import_specifier_of, import_specifiers_of, ImportSpecifierView,
};
use crate::convert::import_source_of;

verus! {

/// Name of the helper that initialises a set of dependencies.
pub const SET_INIT_SIGIL: &'static str = "$si$";

/// Name of the helper that runs an initialiser.
pub const RUN_INIT_SIGIL: &'static str = "$ri$";

/// Name of the helper that applies decorators to a class.
pub const APPLY_CLASS_SIGIL: &'static str = "$acd$";

/// The module the helpers are imported from.
pub const MODULE_NAME: &'static str = "@moggie/runtime/polyfill";

/// An import declaration at the top level of a module.
pub open spec fn is_import(s: StmtView) -> bool {
    s is Import || s is PolyfillImport
}

/// The module an import declaration imports from.
pub open spec fn import_source(s: StmtView) -> Seq<char> {
    match s {
        StmtView::Import { source, .. } => source,
        _ => MODULE_NAME@,
    }
}

/// The sources of a module's top-level imports, in order.
pub open spec fn import_sources(b: Seq<StmtView>) -> Seq<Seq<char>>
    decreases b.len(),
{
    if b.len() == 0 {
        seq![]
    } else {
        let rest = import_sources(b.drop_last());
        if is_import(b.last()) {
            rest.push(import_source(b.last()))
        } else {
            rest
        }
    }
}

/// A module already imports the helpers' module (in any ASCII case).
pub open spec fn has_polyfill_import(b: Seq<StmtView>) -> bool {
    exists|j: int|
        0 <= j < import_sources(b).len() && same_ignoring_ascii_case(
            #[trigger] import_sources(b)[j],
            MODULE_NAME@,
        )
}

/// The index of the first top-level statement that is not an import.
pub open spec fn first_non_import(b: Seq<StmtView>) -> Option<int> {
    first_where(b, |s: StmtView| !is_import(s))
}

/// Where the helpers' import goes: before the first statement that is not
/// an import, or at the end.
pub open spec fn polyfill_position(b: Seq<StmtView>) -> int {
    match first_non_import(b) {
        Some(i) => i,
        None => b.len() as int,
    }
}

/// A module's statements after the helpers' import is added where missing.
pub open spec fn with_polyfill_import(b: Seq<StmtView>) -> Seq<StmtView> {
    if has_polyfill_import(b) {
        b
    } else {
        b.insert(polyfill_position(b), StmtView::PolyfillImport)
    }
}

/// The sources of the top-level import declarations, in order.
pub fn find_root_imports<'a>(statements: &Vec<Stmt<'a>>) -> (res: Vec<String>)
    ensures
        strs_view(res@) == import_sources(stmts_view(statements@)),
{
    let ghost b = stmts_view(statements@);
    let mut res: Vec<String> = Vec::new();
    let mut i: usize = 0;
    while i < statements.len()
        invariant
            0 <= i <= statements@.len(),
            b == stmts_view(statements@),
            strs_view(res@) == import_sources(b.take(i as int)),
        decreases statements@.len() - i,
    {
        assert(b.take(i + 1).drop_last() =~= b.take(i as int));
        let ghost prev = res@;
        match &statements[i] {
            Stmt::Import { source, .. } => {
                res.push(source.clone());
            },
            Stmt::PolyfillImport => {
                res.push(MODULE_NAME.to_owned());
            },
            _ => {},
        }
        assert(strs_view(res@) =~= import_sources(b.take(i + 1)));
        i = i + 1;
    }
    assert(b.take(b.len() as int) =~= b);
    res
}

/// Scans the start of a module's body for the first statement that is not
/// an import declaration, so that the helpers' import goes after any others.
///
/// `None` means that the body holds imports only, and the helpers' import is
/// appended at its end; `Some(i)` is the index where it is inserted.
pub fn insertion_index<'a>(statements: &Vec<Stmt<'a>>) -> (res: Option<usize>)
    ensures
        match res {
            Some(i) => first_non_import(stmts_view(statements@)) == Some(i as int),
            None => first_non_import(stmts_view(statements@)) is None,
        },
{
    let ghost b = stmts_view(statements@);
    let ghost p = |s: StmtView| !is_import(s);
    let mut i: usize = 0;
    while i < statements.len()
        invariant
            0 <= i <= statements@.len(),
            b == stmts_view(statements@),
            p == (|s: StmtView| !is_import(s)),
            first_where(b.take(i as int), p) is None,
        decreases statements@.len() - i,
    {
        assert(b.take(i + 1).drop_last() =~= b.take(i as int));
        let import = match &statements[i] {
            Stmt::Import { .. } => true,
            Stmt::PolyfillImport => true,
            _ => false,
        };
        if !import {
            proof {
                lemma_first_where_prefix(b, p, i + 1);
            }
            return Some(i);
        }
        i = i + 1;
    }
    assert(b.take(b.len() as int) =~= b);
    None
}

/// Adds the import of the runtime's helpers to a module, unless a top-level
/// import already imports their module (the name compared in any ASCII
/// case). The import goes before the first statement that is not an import,
/// or at the end of a module of imports only.
pub fn inject_polyfill_import<'a>(module: &mut Module<'a>)
    ensures
        final(module)@ == with_polyfill_import(old(module)@),
{
    let sources = find_root_imports(&module.body);
    let mut existing_import: usize = 0;
    let mut j: usize = 0;
    while j < sources.len()
        invariant
            0 <= j <= sources@.len(),
            existing_import <= j,
            existing_import == 0 <==> forall|m: int|
                0 <= m < j ==> !same_ignoring_ascii_case(#[trigger] sources@[m]@, MODULE_NAME@),
        decreases sources@.len() - j,
    {
        if eq_ignore_ascii_case(sources[j].as_str(), MODULE_NAME) {
            existing_import = existing_import + 1;
        }
        j = j + 1;
    }
    assert(existing_import == 0 <==> !has_polyfill_import(old(module)@)) by {
        if existing_import != 0 {
            let m = choose|m: int|
                0 <= m < sources@.len() && same_ignoring_ascii_case(
                    #[trigger] sources@[m]@,
                    MODULE_NAME@,
                );
            assert(import_sources(old(module)@)[m] == sources@[m]@);
        } else {
            assert forall|m: int| 0 <= m < import_sources(old(module)@).len() implies
                !same_ignoring_ascii_case(#[trigger] import_sources(old(module)@)[m], MODULE_NAME@) by {
                assert(import_sources(old(module)@)[m] == sources@[m]@);
            }
        }
    }
    if existing_import == 0 {
        let idx = insertion_index(&module.body);
        match idx {
            Some(i) => {
                proof {
                    crate::seqs::lemma_first_where_least(old(module)@, |s: StmtView| !is_import(s));
                }
                module.body.insert(i, Stmt::PolyfillImport);
            },
            None => {
                module.body.push(Stmt::PolyfillImport);
            },
        }
        assert(module@ =~= with_polyfill_import(old(module)@));
    }
}

/// The helpers the runtime's import brings in, in order.
pub fn import_set() -> (res: Vec<&'static str>)
    ensures
        res@ == seq![SET_INIT_SIGIL, RUN_INIT_SIGIL, APPLY_CLASS_SIGIL],
{
    let mut names: Vec<&'static str> = Vec::new();
    names.push(SET_INIT_SIGIL);
    names.push(RUN_INIT_SIGIL);
    names.push(APPLY_CLASS_SIGIL);
    assert(names@ =~= seq![SET_INIT_SIGIL, RUN_INIT_SIGIL, APPLY_CLASS_SIGIL]);
    names
}

/// The value import of a name under the same name.
pub open spec fn value_import(name: &str) -> Option<ImportSpecifierView> {
    Some(ImportSpecifierView { imported: name@, local: name@, value: true })
}

/// An import of the runtime's helpers from the runtime's helpers' module:
/// `import { $si$, $ri$, $acd$ } from '@moggie/runtime/polyfill'`.
pub open spec fn helpers_import(statement: Statement<'_>) -> bool {
    &&& import_source_of(statement) == Some(MODULE_NAME@)
    &&& import_specifiers_of(statement) matches Some(specifiers)
    &&& specifiers.map_values(|s: ImportDeclarationSpecifier| import_specifier_of(s)) == seq![
        value_import(SET_INIT_SIGIL),
        value_import(RUN_INIT_SIGIL),
        value_import(APPLY_CLASS_SIGIL),
    ]
}

/// `import { $si$, $ri$, $acd$ } from '@moggie/runtime/polyfill'`.
pub(crate) fn polyfill_import_statement<'a>(alloc: &'a Allocator) -> (res: Statement<'a>)
    ensures
        helpers_import(res),
{
    let names = import_set();
    let mut specifiers: Vec<ImportDeclarationSpecifier<'a>> = Vec::new();
    let mut i: usize = 0;
    while i < names.len()
        invariant
            i <= names@.len(),
            names@ == seq![SET_INIT_SIGIL, RUN_INIT_SIGIL, APPLY_CLASS_SIGIL],
            specifiers@.len() == i,
            forall|j: int| 0 <= j < i ==> import_specifier_of(#[trigger] specifiers@[j]) == value_import(names@[j]),
        decreases names@.len() - i,
    {
        specifiers.push(import(alloc, names[i]));
        i = i + 1;
    }
    let res = import_declaration(alloc, specifiers, MODULE_NAME);
    assert(specifiers@.map_values(|s: ImportDeclarationSpecifier| import_specifier_of(s)) =~= seq![
        value_import(SET_INIT_SIGIL),
        value_import(RUN_INIT_SIGIL),
        value_import(APPLY_CLASS_SIGIL),
    ]);
    res
}

} // verus!
