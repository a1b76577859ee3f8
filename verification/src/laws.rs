//! What holds of the rewriting passes across calls and statements.
use vstd::prelude::*;
use crate::decorators::{decorate_declarator, decorate_default, decorated_stmt, wrap_class};
use crate::dependencies::{
    requires_depends, aliases, alias_of, ctor_params, depends_args, first_ctor, injects, module_stmt, strip_aliases,
    strip_ctor, with_depends, without_aliases,
};
use crate::model::{
    ClassView, DeclaratorView, DefaultExportView, DecoView, ExprView, MemberView, ParamView,
    StmtView,
};
use crate::polyfill::{
    first_non_import, has_polyfill_import, import_source, import_sources, is_import,
    polyfill_position, with_polyfill_import, MODULE_NAME,
};
use crate::seqs::{first_where, lemma_first_where_least};
use crate::transformer::{source_type_of, parent_of, printed_code, es2022, rewritten, transform_outcome, transformed, TransformError};
use crate::convert::{
    built_body, class_elements, exported_class, is_constructor_element, method_params, program_body,
    program_source, read_body, read_class, read_member, read_stmt, stmt_built,
};
use crate::utils::class_decorators;
use crate::text::same_ignoring_ascii_case;
use oxc::ast::ast::{Class, ClassElement, Program, Statement};

verus! {

// ---- the helpers' import ---------------------------------------------------

proof fn lemma_import_sources_concat(a: Seq<StmtView>, b: Seq<StmtView>)
    ensures
        import_sources(a + b) == import_sources(a) + import_sources(b),
    decreases b.len(),
{
    if b.len() == 0 {
        assert(a + b =~= a);
        assert(import_sources(b) =~= seq![]);
        assert(import_sources(a) + import_sources(b) =~= import_sources(a));
    } else {
        assert((a + b).drop_last() =~= a + b.drop_last());
        assert((a + b).last() == b.last());
        lemma_import_sources_concat(a, b.drop_last());
        if is_import(b.last()) {
            assert(import_sources(a + b) =~= import_sources(a) + import_sources(b));
        } else {
            assert(import_sources(a + b) =~= import_sources(a) + import_sources(b));
        }
    }
}

/// Statements that are imports exactly where the others are, from the same
/// sources, have the same import sources.
proof fn lemma_import_sources_pointwise(a: Seq<StmtView>, b: Seq<StmtView>)
    requires
        a.len() == b.len(),
        forall|i: int|
            0 <= i < a.len() ==> is_import(#[trigger] a[i]) == is_import(b[i]) && (is_import(a[i])
                ==> import_source(a[i]) == import_source(b[i])),
    ensures
        import_sources(a) == import_sources(b),
    decreases a.len(),
{
    if a.len() > 0 {
        assert forall|i: int| 0 <= i < a.drop_last().len() implies is_import(
            #[trigger] a.drop_last()[i],
        ) == is_import(b.drop_last()[i]) && (is_import(a.drop_last()[i]) ==> import_source(
            a.drop_last()[i],
        ) == import_source(b.drop_last()[i])) by {
            assert(a.drop_last()[i] == a[i]);
            assert(b.drop_last()[i] == b[i]);
        }
        lemma_import_sources_pointwise(a.drop_last(), b.drop_last());
        assert(a.last() == a[a.len() - 1]);
        assert(b.last() == b[b.len() - 1]);
    }
}

/// After the helpers' import is added, the module imports the helpers'
/// module.
pub proof fn lemma_polyfill_import_present(b: Seq<StmtView>)
    ensures
        has_polyfill_import(with_polyfill_import(b)),
{
    if !has_polyfill_import(b) {
        let p = polyfill_position(b);
        lemma_first_where_least(b, |s: StmtView| !is_import(s));
        assert(0 <= p <= b.len());
        let r = b.insert(p, StmtView::PolyfillImport);
        let one = seq![StmtView::PolyfillImport];
        assert(r =~= b.take(p) + one + b.skip(p));
        lemma_import_sources_concat(b.take(p) + one, b.skip(p));
        lemma_import_sources_concat(b.take(p), one);
        assert(one.drop_last() =~= Seq::<StmtView>::empty());
        assert(import_sources(one.drop_last()) =~= Seq::<Seq<char>>::empty());
        assert(one.last() == StmtView::PolyfillImport);
        assert(import_sources(one) =~= seq![import_source(StmtView::PolyfillImport)]);
        let j: int = import_sources(b.take(p)).len() as int;
        assert(import_sources(r)[j] == import_source(StmtView::PolyfillImport));
        assert(crate::text::same_ignoring_ascii_case(import_sources(r)[j], crate::polyfill::MODULE_NAME@));
    }
}

/// Adding the helpers' import a second time changes nothing.
pub proof fn lemma_polyfill_import_idempotent(b: Seq<StmtView>)
    ensures
        with_polyfill_import(with_polyfill_import(b)) == with_polyfill_import(b),
{
    lemma_polyfill_import_present(b);
}

/// The helpers' import is added after the module's leading imports: every
/// statement before it is an import, and the statement after it (if any) is
/// not; nothing else moves.
pub proof fn lemma_polyfill_import_after_leading_imports(b: Seq<StmtView>)
    requires
        !has_polyfill_import(b),
    ensures
        ({
            let p = polyfill_position(b);
            let r = with_polyfill_import(b);
            &&& 0 <= p <= b.len()
            &&& r.len() == b.len() + 1
            &&& r[p] == StmtView::PolyfillImport
            &&& forall|j: int| 0 <= j < p ==> is_import(#[trigger] b[j]) && r[j] == b[j]
            &&& p < b.len() ==> !is_import(b[p])
            &&& forall|j: int| p < j < r.len() ==> #[trigger] r[j] == b[j - 1]
        }),
{
    lemma_first_where_least(b, |s: StmtView| !is_import(s));
}

// ---- the decorator pass --------------------------------------------------

proof fn lemma_decorate_declarator_idempotent(d: DeclaratorView)
    ensures
        decorate_declarator(decorate_declarator(d)) == decorate_declarator(d),
{
}

proof fn lemma_decorate_default_idempotent(e: DefaultExportView)
    ensures
        decorate_default(decorate_default(e)) == decorate_default(e),
{
}

/// Rewriting the decorated classes of a statement that was already
/// rewritten changes nothing.
pub proof fn lemma_decorator_pass_idempotent(s: StmtView, t: StmtView, u: StmtView)
    requires
        decorated_stmt(s, t),
        decorated_stmt(t, u),
    ensures
        u == t,
{
    match s {
        StmtView::VarDecl { declarators, node } => {
            let once = declarators.map_values(|d: DeclaratorView| decorate_declarator(d));
            assert forall|i: int| 0 <= i < once.len() implies #[trigger] decorate_declarator(
                once[i],
            ) == once[i] by {
                lemma_decorate_declarator_idempotent(declarators[i]);
            }
            assert(once.map_values(|d: DeclaratorView| decorate_declarator(d)) =~= once);
        },
        StmtView::ExportDefault { decl, node } => {
            lemma_decorate_default_idempotent(decl);
        },
        _ => {},
    }
}

/// After the decorator pass, no top-level class declaration has both a name
/// and decorators.
pub proof fn lemma_decorator_pass_leaves_no_decorated_class(s: StmtView, t: StmtView)
    requires
        decorated_stmt(s, t),
    ensures
        t matches StmtView::ClassDecl(c) ==> c.id is None || c.decorators.len() == 0,
{
}

/// The decorator pass keeps every import, and every other statement stays
/// a statement of another kind.
pub proof fn lemma_decorator_pass_keeps_imports(b: Seq<StmtView>, t: Seq<StmtView>)
    requires
        t.len() == b.len(),
        forall|i: int| 0 <= i < b.len() ==> decorated_stmt(#[trigger] b[i], t[i]),
    ensures
        import_sources(t) == import_sources(b),
{
    assert forall|i: int| 0 <= i < b.len() implies is_import(#[trigger] b[i]) == is_import(t[i])
        && (is_import(b[i]) ==> import_source(b[i]) == import_source(t[i])) by {
        assert(decorated_stmt(b[i], t[i]));
    }
    lemma_import_sources_pointwise(b, t);
}

// ---- the dependency pass ---------------------------------------------------

/// The dependency pass keeps every import.
pub proof fn lemma_dependency_pass_keeps_imports(b: Seq<StmtView>)
    ensures
        import_sources(b.map_values(|s: StmtView| module_stmt(s))) == import_sources(b),
{
    let m = b.map_values(|s: StmtView| module_stmt(s));
    assert forall|i: int| 0 <= i < m.len() implies is_import(#[trigger] m[i]) == is_import(b[i])
        && (is_import(m[i]) ==> import_source(m[i]) == import_source(b[i])) by {
        assert(m[i] == module_stmt(b[i]));
    }
    lemma_import_sources_pointwise(m, b);
}

proof fn lemma_no_aliases_left(ds: Seq<DecoView>)
    ensures
        aliases(without_aliases(ds)) == Seq::<Seq<char>>::empty(),
    decreases ds.len(),
{
    if ds.len() > 0 {
        lemma_no_aliases_left(ds.drop_last());
        let rest = without_aliases(ds.drop_last());
        match alias_of(ds.last()) {
            Some(_) => {},
            None => {
                assert(rest.push(ds.last()).drop_last() =~= rest);
            },
        }
    }
}

proof fn lemma_first_where_same_tests<A>(s: Seq<A>, t: Seq<A>, p: spec_fn(A) -> bool)
    requires
        s.len() == t.len(),
        forall|i: int| 0 <= i < s.len() ==> p(#[trigger] s[i]) == p(t[i]),
    ensures
        first_where(s, p) == first_where(t, p),
    decreases s.len(),
{
    if s.len() > 0 {
        assert forall|i: int| 0 <= i < s.drop_last().len() implies p(#[trigger] s.drop_last()[i])
            == p(t.drop_last()[i]) by {
            assert(s.drop_last()[i] == s[i]);
            assert(t.drop_last()[i] == t[i]);
        }
        lemma_first_where_same_tests(s.drop_last(), t.drop_last(), p);
        assert(p(s.last()) == p(t.last())) by {
            assert(s.last() == s[s.len() - 1]);
            assert(t.last() == t[t.len() - 1]);
        }
    }
}

/// After the dependency pass, the parameters of a class's first constructor
/// carry no alias decorator.
pub proof fn lemma_dependency_pass_removes_aliases(c: ClassView)
    ensures
        forall|i: int|
            0 <= i < ctor_params(with_depends(c)).len() ==> aliases(
                (#[trigger] ctor_params(with_depends(c))[i]).decorators,
            ) == Seq::<Seq<char>>::empty(),
{
    let w = with_depends(c);
    let p = |m: MemberView| m is Constructor;
    match first_ctor(c.members) {
        Some(k) => {
            lemma_first_where_least(c.members, p);
            assert(w.members == strip_ctor(c).members);
            lemma_first_where_same_tests(c.members, w.members, p);
            match c.members[k] {
                MemberView::Constructor { params, node } => {
                    assert forall|i: int| 0 <= i < ctor_params(w).len() implies aliases(
                        (#[trigger] ctor_params(w)[i]).decorators,
                    ) == Seq::<Seq<char>>::empty() by {
                        assert(ctor_params(w)[i] == strip_aliases(params[i]));
                        lemma_no_aliases_left(params[i].decorators);
                    }
                },
                MemberView::Other(_) => {},
            }
        },
        None => {
            assert(w.members == c.members);
        },
    }
}

/// A class gets `@depends(..)` with exactly as many arguments as its first
/// constructor has parameters, and never with none.
pub proof fn lemma_depends_one_argument_per_param(c: ClassView)
    ensures
        depends_args(c) matches Some(a) ==> a.len() == ctor_params(c).len() && a.len() > 0
            && a == injects(ctor_params(c)),
{
}

// ---- the whole rewrite -----------------------------------------------------

/// After the whole rewrite, the module imports the runtime's helpers'
/// module.
pub proof fn lemma_rewrite_imports_helpers(old: Seq<StmtView>, new: Seq<StmtView>)
    requires
        rewritten(old, new),
    ensures
        has_polyfill_import(new),
{
    let mapped = old.map_values(|s: StmtView| module_stmt(s));
    let imported = with_polyfill_import(mapped);
    lemma_polyfill_import_present(mapped);
    lemma_decorator_pass_keeps_imports(imported, new);
}

/// The dependency pass changes class declarations only, and among them
/// only those without a decorator named `depends`.
pub proof fn lemma_dependency_pass_touches_only_classes_needing_it(s: StmtView)
    ensures
        !(s matches StmtView::ClassDecl(c) && requires_depends(c)) ==> module_stmt(s) == s,
{
}

/// The decorator pass leaves exported named classes as they are.
pub proof fn lemma_exported_named_class_untouched(s: StmtView, t: StmtView)
    requires
        s is ExportNamedClass,
        decorated_stmt(s, t),
    ensures
        t == s,
{
}

/// Wrapping a class keeps its decorators, in order, as the arguments of the
/// call, leaves the class itself without any, and names the call after the
/// class; a class that is not wrapped is kept as it is.
pub proof fn lemma_wrap_keeps_decorators_in_order(c: ClassView)
    ensures
        match wrap_class(c) {
            ExprView::ApplyDecorators { class, name, decorators } => {
                &&& decorators == c.decorators
                &&& decorators.len() > 0
                &&& class == ClassView { decorators: seq![], ..c }
                &&& c.id matches Some(id) && name == id.name
            },
            ExprView::Class(d) => d == c,
            ExprView::Other(_) => false,
        },
{
}

/// The whole rewrite keeps the module's imports, in order, and adds the
/// helpers' import exactly where adding it to the module as it was would
/// put it; the number of statements grows by one exactly when the module
/// did not import the helpers' module.
pub proof fn lemma_rewrite_keeps_imports(old: Seq<StmtView>, new: Seq<StmtView>)
    requires
        rewritten(old, new),
    ensures
        import_sources(new) == import_sources(with_polyfill_import(old)),
        new.len() == old.len() + if has_polyfill_import(old) { 0int } else { 1int },
{
    let mapped = old.map_values(|s: StmtView| module_stmt(s));
    let imported = with_polyfill_import(mapped);
    lemma_dependency_pass_keeps_imports(old);
    lemma_decorator_pass_keeps_imports(imported, new);
    assert(has_polyfill_import(mapped) == has_polyfill_import(old));
    let test = |s: StmtView| !is_import(s);
    assert forall|i: int| 0 <= i < mapped.len() implies test(#[trigger] mapped[i]) == test(old[i]) by {
        assert(mapped[i] == module_stmt(old[i]));
    }
    lemma_first_where_same_tests(mapped, old, test);
    if !has_polyfill_import(old) {
        let p = polyfill_position(old);
        lemma_first_where_least(old, test);
        let a = mapped.insert(p, StmtView::PolyfillImport);
        let b = old.insert(p, StmtView::PolyfillImport);
        assert forall|i: int| 0 <= i < a.len() implies is_import(#[trigger] a[i]) == is_import(b[i])
            && (is_import(a[i]) ==> import_source(a[i]) == import_source(b[i])) by {
            if i < p {
                assert(a[i] == module_stmt(old[i]));
            } else if i > p {
                assert(a[i] == module_stmt(old[i - 1]));
            }
        }
        lemma_import_sources_pointwise(a, b);
    } else {
        assert forall|i: int| 0 <= i < mapped.len() implies is_import(#[trigger] mapped[i])
            == is_import(old[i]) && (is_import(mapped[i]) ==> import_source(mapped[i])
            == import_source(old[i])) by {
            assert(mapped[i] == module_stmt(old[i]));
        }
    }
}

// ---- the whole transformation ---------------------------------------------

/// Two answers of a transformation agree: both are successes, or both are
/// the same error with the same message.
pub open spec fn same_outcome<T, U>(a: Result<T, TransformError>, b: Result<U, TransformError>) -> bool {
    match (a, b) {
        (Ok(_), Ok(_)) => true,
        (Err(TransformError::UnsupportedFile(x)), Err(TransformError::UnsupportedFile(y))) => x@ == y@,
        (Err(TransformError::ParseFailed(x)), Err(TransformError::ParseFailed(y))) => x@ == y@,
        _ => false,
    }
}

/// Whether a module's transformation succeeds, and the error it fails with,
/// depend on the file name and the code alone: any two transformers, fresh
/// or used, recycled or not, answer alike.
pub proof fn lemma_transform_outcome_determined(
    file_name: Seq<char>,
    code: Seq<char>,
    a: Result<Seq<char>, TransformError>,
    b: Result<Seq<char>, TransformError>,
)
    requires
        transform_outcome(file_name, code, a),
        transform_outcome(file_name, code, b),
    ensures
        same_outcome(a, b),
{
}

/// The code of a successful transformation is printed from a program whose
/// statements are built from a rewritten module that imports the runtime's
/// helpers' module, the module being read from a program parsed from the
/// code as the kind of source the file name stands for.
pub proof fn lemma_transformed_imports_helpers<'a>(file_name: Seq<char>, code: Seq<char>, out: Seq<char>)
    requires
        transformed(file_name, code, out),
    ensures
        source_type_of(file_name) matches Ok(kind) && exists|parsed: Program<'a>, read: Seq<StmtView<'a>>, new: Seq<StmtView<'a>>, printed: Program<'a>|
            #![trigger read_body(program_body(parsed), read), built_body(new, program_body(printed))]
            {
                &&& program_source(parsed) == (kind, code)
                &&& read_body(program_body(parsed), read)
                &&& rewritten(read, new)
                &&& has_polyfill_import(new)
                &&& built_body(new, program_body(printed))
                &&& out == printed_code(file_name, parent_of(file_name), es2022(), true, printed)
            },
{
    let kind = source_type_of(file_name)->Ok_0;
    let (parsed, read, new, printed) = choose|parsed: Program<'a>, read: Seq<StmtView<'a>>, new: Seq<StmtView<'a>>, printed: Program<'a>|
        #![trigger read_body(program_body(parsed), read), rewritten(read, new), printed_code(file_name, parent_of(file_name), es2022(), true, printed)]
        {
            &&& program_source(parsed) == (kind, code)
            &&& read_body(program_body(parsed), read)
            &&& rewritten(read, new)
            &&& program_source(printed) == (kind, code)
            &&& built_body(new, program_body(printed))
            &&& out == printed_code(file_name, parent_of(file_name), es2022(), true, printed)
        };
    lemma_rewrite_imports_helpers(read, new);
    assert(read_body(program_body(parsed), read));
    assert(built_body(new, program_body(printed)));
}

// ---- reading and building the tree -------------------------------------------

proof fn lemma_first_where_corresponding<A, B>(s: Seq<A>, p: spec_fn(A) -> bool, t: Seq<B>, q: spec_fn(B) -> bool)
    requires
        s.len() == t.len(),
        forall|i: int| 0 <= i < s.len() ==> p(#[trigger] s[i]) == q(t[i]),
    ensures
        first_where(s, p) == first_where(t, q),
    decreases s.len(),
{
    if s.len() > 0 {
        assert forall|i: int| 0 <= i < s.drop_last().len() implies p(#[trigger] s.drop_last()[i])
            == q(t.drop_last()[i]) by {
            assert(s.drop_last()[i] == s[i]);
            assert(t.drop_last()[i] == t[i]);
        }
        lemma_first_where_corresponding(s.drop_last(), p, t.drop_last(), q);
        assert(p(s.last()) == q(t.last())) by {
            assert(s.last() == s[s.len() - 1]);
            assert(t.last() == t[t.len() - 1]);
        }
    }
}

/// A member read from a class element is a constructor exactly when the
/// element is a method definition of kind `constructor`.
pub proof fn lemma_constructor_member_iff_constructor_element<'a>(e: ClassElement<'a>, m: MemberView<'a>)
    requires
        read_member(e, m),
    ensures
        m is Constructor <==> (method_params(e) matches Some((kind, _)) && kind is Constructor),
{
}

/// The constructor whose parameters a class's `@depends(..)` is built from
/// is the first element of the class read that is a method definition of
/// kind `constructor`: setters, getters and other methods before it do not
/// count.
pub proof fn lemma_first_constructor_is_first_constructor_element<'a>(k: Class<'a>, c: ClassView<'a>)
    requires
        read_class(k, c),
    ensures
        first_ctor(c.members) == first_where(class_elements(k), |e: ClassElement<'a>| is_constructor_element(e)),
{
    let p = |m: MemberView<'a>| m is Constructor;
    let q = |e: ClassElement<'a>| is_constructor_element(e);
    assert forall|i: int| 0 <= i < c.members.len() implies p(#[trigger] c.members[i]) == q(class_elements(k)[i]) by {
        assert(read_member(class_elements(k)[i], c.members[i]));
    }
    lemma_first_where_corresponding(c.members, p, class_elements(k), q);
}

/// A class none of whose elements is a constructor gets no `@depends(..)`:
/// the dependency pass leaves its declaration as it is.
pub proof fn lemma_class_without_constructor_gets_no_depends<'a>(k: Class<'a>, c: ClassView<'a>)
    requires
        read_class(k, c),
        forall|i: int| 0 <= i < class_elements(k).len() ==> !is_constructor_element(#[trigger] class_elements(k)[i]),
    ensures
        module_stmt(StmtView::ClassDecl(c)) == StmtView::ClassDecl(c),
{
    lemma_first_constructor_is_first_constructor_element(k, c);
    let q = |e: ClassElement<'a>| is_constructor_element(e);
    lemma_first_where_least(class_elements(k), q);
    assert(first_ctor(c.members) is None);
    assert(ctor_params(c) =~= Seq::<ParamView>::empty());
    assert(injects(ctor_params(c)) =~= Seq::<Seq<char>>::empty());
    assert(strip_ctor(c) == c);
}

/// An exported class comes back binding the identifier it was read with
/// (and without one only when it was read without one): `export class A ..`
/// keeps its name through the rewrite.
pub proof fn lemma_exported_class_keeps_binding<'a>(
    n: Statement<'a>,
    s: StmtView<'a>,
    t: StmtView<'a>,
    b: Statement<'a>,
)
    requires
        read_stmt(n, s),
        s is ExportNamedClass,
        decorated_stmt(module_stmt(s), t),
        stmt_built(t, b),
    ensures
        exported_class(n) matches Some(read) && exported_class(b) matches Some(built)
            && class_decorators(built).id == class_decorators(read).id,
{
}

/// The helpers' import is added exactly when no top-level import already
/// imports `@moggie/runtime/polyfill` (in any ASCII case): then it is one
/// more statement, put after the leading imports; otherwise the module is
/// kept as it is.
pub proof fn lemma_helpers_import_added_exactly_when_missing(b: Seq<StmtView>)
    ensures
        (forall|j: int| 0 <= j < import_sources(b).len()
            ==> !same_ignoring_ascii_case(#[trigger] import_sources(b)[j], MODULE_NAME@))
            ==> with_polyfill_import(b) == b.insert(polyfill_position(b), StmtView::PolyfillImport),
        (exists|j: int| 0 <= j < import_sources(b).len()
            && same_ignoring_ascii_case(#[trigger] import_sources(b)[j], MODULE_NAME@))
            ==> with_polyfill_import(b) == b,
{
}

/// A named class with at least one decorator is always wrapped: its
/// declaration becomes `const <name> = $acd$(<class without decorators>,
/// "<name>", [<all its decorators, in order>])`.
pub proof fn lemma_named_decorated_class_is_wrapped(c: ClassView, t: StmtView)
    requires
        c.decorators.len() > 0,
        (c.id is Some),
        decorated_stmt(StmtView::ClassDecl(c), t),
    ensures
        (t matches StmtView::ConstDecl { id, init: ExprView::ApplyDecorators { class, name, decorators } }
            && id.name == c.id.unwrap().name && name == c.id.unwrap().name
            && decorators == c.decorators && class == (ClassView { decorators: seq![], ..c })),
{
}

} // verus!
