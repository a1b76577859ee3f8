use module_transformer::convert::module_from_program;
use module_transformer::decorators::{transform_class_decorators, wrap_class_decl};
use module_transformer::dependencies::{
    extract_injectable_class_constructor, requires_decorator, transform_module,
};
use module_transformer::model::{Arg, ClassNode, Deco, Expr, Member, Module, Stmt};
use module_transformer::polyfill::{
    find_root_imports, import_set, inject_polyfill_import, insertion_index, MODULE_NAME,
};
use module_transformer::text::{eq_ignore_ascii_case, trim};
use module_transformer::transformer::{parse_failure_reason, rewrite_module, ParseError};
use oxc::allocator::Allocator;
use oxc::parser::Parser;
use oxc::span::SourceType;

/// Parses `code` as TypeScript and hands its tree to `f`.
fn with_module<R>(code: &str, f: impl for<'a> FnOnce(&'a Allocator, Module<'a>) -> R) -> R {
    let alloc = Allocator::default();
    let mut program = Parser::new(&alloc, code, SourceType::ts()).parse().program;
    let module = module_from_program(&alloc, &mut program);
    f(&alloc, module)
}

fn kinds(module: &Module) -> Vec<&'static str> {
    module
        .body
        .iter()
        .map(|s| match s {
            Stmt::Import { .. } => "import",
            Stmt::PolyfillImport => "helpers",
            Stmt::ClassDecl(_) => "class",
            Stmt::ConstDecl { .. } => "const",
            Stmt::VarDecl { .. } => "var",
            Stmt::ExportNamedClass { .. } => "export class",
            Stmt::ExportDefault { .. } => "export default",
            Stmt::Other(_) => "other",
        })
        .collect()
}

fn first_class<'a, 'm>(module: &'m mut Module<'a>) -> &'m mut ClassNode<'a> {
    for s in module.body.iter_mut() {
        if let Stmt::ClassDecl(c) = s {
            return c;
        }
    }
    panic!("no class declaration")
}

fn depends_args(d: &Deco) -> Option<Vec<String>> {
    match d {
        Deco::Depends(v) => Some(v.clone()),
        Deco::Written { .. } => None,
    }
}

#[test]
fn statements_are_read_by_kind() {
    let code = "import a from 'x'; class A {} let v = 1; export class B {} export default class C {} foo();";
    with_module(code, |_, module| {
        assert_eq!(kinds(&module), vec!["import", "class", "var", "export class", "export default", "other"]);
    });
}

#[test]
fn constructor_parameters_are_read() {
    let code = "@dec class A { x = 1; constructor(@alias('q') a: Foo, b, c: ns.Bar) {} }";
    with_module(code, |_, mut module| {
        let class = first_class(&mut module);
        assert_eq!(class.id.as_ref().map(|i| i.name.clone()), Some("A".to_string()));
        assert_eq!(class.decorators.len(), 1);
        assert_eq!(class.members.len(), 2);
        match &class.members[1] {
            Member::Constructor { params, .. } => {
                let types: Vec<Option<String>> = params.iter().map(|p| p.type_ref.clone()).collect();
                assert_eq!(types, vec![Some("Foo".to_string()), None, Some("ns.Bar".to_string())]);
                match &params[0].decorators[0] {
                    Deco::Written { name, call: Some(call), .. } => {
                        assert_eq!(name, &None);
                        assert_eq!(call.callee, Some("alias".to_string()));
                        assert!(matches!(call.args.as_slice(), [Arg::Str(v)] if v == "q"));
                    },
                    _ => panic!("expected a written call decorator"),
                }
            },
            Member::Other(_) => panic!("expected the constructor"),
        }
    });
}

#[test]
fn find_root_imports_lists_sources_in_order() {
    with_module("import a from 'x'; let q; import b from 'y';", |_, module| {
        assert_eq!(find_root_imports(&module.body), vec!["x".to_string(), "y".to_string()]);
    });
}

#[test]
fn insertion_index_is_the_first_statement_not_an_import() {
    with_module("import a from 'x'; import b from 'y'; let q;", |_, module| {
        assert_eq!(insertion_index(&module.body), Some(2));
    });
    with_module("let q; import b from 'y';", |_, module| {
        assert_eq!(insertion_index(&module.body), Some(0));
    });
    with_module("import a from 'x';", |_, module| {
        assert_eq!(insertion_index(&module.body), None);
    });
    with_module("", |_, module| {
        assert_eq!(insertion_index(&module.body), None);
    });
}

#[test]
fn helpers_import_goes_before_the_first_other_statement() {
    with_module("import a from 'x'; let q; import b from 'y';", |_, mut module| {
        inject_polyfill_import(&mut module);
        assert_eq!(kinds(&module), vec!["import", "helpers", "var", "import"]);
        assert_eq!(
            find_root_imports(&module.body),
            vec!["x".to_string(), MODULE_NAME.to_string(), "y".to_string()]
        );
    });
}

#[test]
fn helpers_import_is_added_once() {
    with_module("let q;", |_, mut module| {
        inject_polyfill_import(&mut module);
        inject_polyfill_import(&mut module);
        assert_eq!(kinds(&module), vec!["helpers", "var"]);
    });
}

#[test]
fn helpers_import_in_any_case_counts_as_present() {
    with_module("let q; import { $si$ } from '@Moggie/Runtime/Polyfill';", |_, mut module| {
        inject_polyfill_import(&mut module);
        assert_eq!(kinds(&module), vec!["var", "import"]);
    });
}

#[test]
fn import_set_lists_the_helpers() {
    assert_eq!(import_set(), vec!["$si$", "$ri$", "$acd$"]);
}

#[test]
fn requires_decorator_looks_for_a_decorator_named_depends() {
    let cases = [
        ("class A {}", true),
        ("@depends class A {}", false),
        ("@DePeNdS class A {}", false),
        ("@di.depends class A {}", false),
        ("@di.depends('x') class A {}", false),
        ("@depends('x') class A {}", true),
        ("@other class A {}", true),
    ];
    for (code, expected) in cases.iter() {
        with_module(code, |_, mut module| {
            assert_eq!(requires_decorator(first_class(&mut module)), *expected, "{}", code);
        });
    }
}

#[test]
fn extract_gives_one_dependency_per_parameter() {
    with_module("class A { constructor(@alias('x') @keep a: Foo, b: Bar) {} }", |_, mut module| {
        let class = first_class(&mut module);
        let deco = extract_injectable_class_constructor(class);
        assert_eq!(deco.as_ref().and_then(depends_args), Some(vec!["x".to_string(), "Bar".to_string()]));
        match &class.members[0] {
            Member::Constructor { params, .. } => {
                assert_eq!(params[0].decorators.len(), 1);
                assert_eq!(params[1].decorators.len(), 0);
            },
            Member::Other(_) => panic!("expected the constructor"),
        }
    });
}

#[test]
fn extract_gives_nothing_without_constructor_or_with_a_mismatch() {
    with_module("class A {}", |_, mut module| {
        assert!(extract_injectable_class_constructor(first_class(&mut module)).is_none());
    });
    with_module("class A { constructor() {} }", |_, mut module| {
        assert!(extract_injectable_class_constructor(first_class(&mut module)).is_none());
    });
    with_module("class A { constructor(@alias('x') @alias('y') a) {} }", |_, mut module| {
        let class = first_class(&mut module);
        assert!(extract_injectable_class_constructor(class).is_none());
        // the aliases are removed even so
        match &class.members[0] {
            Member::Constructor { params, .. } => assert_eq!(params[0].decorators.len(), 0),
            Member::Other(_) => panic!("expected the constructor"),
        }
    });
}

#[test]
fn only_the_first_constructor_is_read() {
    with_module("class A { constructor(a: Foo) {} constructor(@alias('z') b) {} }", |_, mut module| {
        let class = first_class(&mut module);
        let deco = extract_injectable_class_constructor(class);
        assert_eq!(deco.as_ref().and_then(depends_args), Some(vec!["Foo".to_string()]));
        match &class.members[1] {
            Member::Constructor { params, .. } => assert_eq!(params[0].decorators.len(), 1),
            Member::Other(_) => panic!("expected the second constructor"),
        }
    });
}

#[test]
fn dependency_pass_appends_depends_and_keeps_other_statements() {
    with_module("let v; @x class A { constructor(a: Foo) {} } export class B { constructor(b: Bar) {} }", |_, mut module| {
        transform_module(&mut module);
        assert_eq!(kinds(&module), vec!["var", "class", "export class"]);
        let class = first_class(&mut module);
        assert_eq!(class.decorators.len(), 2);
        assert_eq!(depends_args(&class.decorators[1]), Some(vec!["Foo".to_string()]));
        match &module.body[2] {
            Stmt::ExportNamedClass { class, .. } => assert_eq!(class.decorators.len(), 0),
            _ => panic!("expected the exported class"),
        }
    });
}

#[test]
fn dependency_pass_removes_aliases() {
    with_module("class A { constructor(@alias('x') a, @Alias('y') b: Foo) {} }", |_, mut module| {
        transform_module(&mut module);
        let class = first_class(&mut module);
        assert_eq!(depends_args(&class.decorators[0]), Some(vec!["x".to_string(), "y".to_string()]));
        match &class.members[0] {
            Member::Constructor { params, .. } => {
                assert!(params.iter().all(|p| p.decorators.is_empty()));
            },
            Member::Other(_) => panic!("expected the constructor"),
        }
    });
}

#[test]
fn wrap_class_decl_moves_the_decorators_into_the_call() {
    with_module("@a @b class A {}", |_, mut module| {
        let class = match module.body.remove(0) {
            Stmt::ClassDecl(c) => c,
            _ => panic!("expected a class"),
        };
        match wrap_class_decl(class) {
            Expr::ApplyDecorators { class, name, decorators } => {
                assert_eq!(name, "A");
                assert_eq!(decorators.len(), 2);
                assert!(class.decorators.is_empty());
            },
            _ => panic!("expected the call"),
        }
    });
    with_module("class A {}", |_, mut module| {
        let class = match module.body.remove(0) {
            Stmt::ClassDecl(c) => c,
            _ => panic!("expected a class"),
        };
        assert!(matches!(wrap_class_decl(class), Expr::Class(_)));
    });
    with_module("let v = @a class {};", |_, mut module| {
        let class = match module.body.remove(0) {
            Stmt::VarDecl { mut declarators, .. } => match declarators.remove(0).init {
                Some(Expr::Class(c)) => c,
                _ => panic!("expected a class expression"),
            },
            _ => panic!("expected a declaration"),
        };
        match wrap_class_decl(class) {
            Expr::Class(c) => assert_eq!(c.decorators.len(), 1),
            _ => panic!("an anonymous class keeps its decorators"),
        }
    });
}

#[test]
fn decorator_pass_is_idempotent() {
    let code = "@a class A {} let v = @b class {}, w = @c class C {}; export default @d class D {} @e export class E {}";
    with_module(code, |alloc, mut module| {
        transform_class_decorators(alloc, &mut module);
        let once = kinds(&module);
        transform_class_decorators(alloc, &mut module);
        assert_eq!(kinds(&module), once);
        assert_eq!(once, vec!["const", "var", "export default", "export class"]);
        match &module.body[1] {
            Stmt::VarDecl { declarators, .. } => {
                assert!(matches!(&declarators[0].init, Some(Expr::Class(_))));
                assert!(matches!(&declarators[1].init, Some(Expr::ApplyDecorators { .. })));
            },
            _ => panic!("expected the declaration"),
        }
        match &module.body[3] {
            Stmt::ExportNamedClass { class, .. } => assert_eq!(class.decorators.len(), 1),
            _ => panic!("expected the exported class"),
        }
    });
}

#[test]
fn rewrite_imports_the_helpers_and_wraps() {
    with_module("import x from 'x'; class A { constructor(a: Foo) {} }", |alloc, mut module| {
        rewrite_module(alloc, &mut module);
        assert_eq!(kinds(&module), vec!["import", "helpers", "const"]);
        match &module.body[2] {
            Stmt::ConstDecl { id, init: Expr::ApplyDecorators { name, decorators, .. } } => {
                assert_eq!(id.name, "A");
                assert_eq!(name, "A");
                assert_eq!(depends_args(&decorators[0]), Some(vec!["Foo".to_string()]));
            },
            _ => panic!("expected the wrapped class"),
        }
    });
}

#[test]
fn parse_failure_reason_lists_messages_and_trims() {
    let errors = vec![
        ParseError { labels: "a".to_string(), message: "first".to_string() },
        ParseError { labels: "b".to_string(), message: "second  ".to_string() },
    ];
    assert_eq!(parse_failure_reason(&errors), "Parsing failed; [a] first\n[b] second");
    assert_eq!(parse_failure_reason(&Vec::new()), "Parsing failed;");
}

#[test]
fn ascii_case_comparison_and_trim() {
    assert!(eq_ignore_ascii_case("ALIAS", "alias"));
    assert!(eq_ignore_ascii_case("Über", "Über"));
    assert!(!eq_ignore_ascii_case("ÜBER", "über"));
    assert!(!eq_ignore_ascii_case("alias", "alia"));
    assert_eq!(trim(" \t a b \n\u{3000}"), "a b");
}
