use module_transformer::transformer::{ModuleTransformer, TransformError};

fn run(file: &str, code: &str) -> Result<String, TransformError> {
    let mut t = ModuleTransformer::new();
    t.transform(file.to_string(), code.to_string()).map(|r| r.code)
}

fn ok(file: &str, code: &str) -> String {
    match run(file, code) {
        Ok(c) => c,
        Err(e) => panic!("transform failed: {}", e.reason()),
    }
}

#[test]
fn constructor_types_become_depends_arguments() {
    assert_eq!(
        ok("a.ts", "class A { constructor(a: Foo, b: ns.Bar) {} }"),
        "import { $acd$ } from '@moggie/runtime/polyfill';\nconst A = $acd$(class A {\n\tconstructor(a, b) {}\n}, 'A', [depends('Foo', 'ns.Bar')]);\n"
    );
}

#[test]
fn alias_decorators_replace_the_type() {
    assert_eq!(
        ok("a.ts", "class A { constructor(@alias('x') a: Foo, b: Bar) {} }"),
        "import { $acd$ } from '@moggie/runtime/polyfill';\nconst A = $acd$(class A {\n\tconstructor(a, b) {}\n}, 'A', [depends('x', 'Bar')]);\n"
    );
}

#[test]
fn alias_is_matched_in_any_case_and_each_alias_counts() {
    // `a` names `q`, `b` names `r` and `s`: three dependencies for two
    // parameters, so no `@depends` is added; the aliases are removed anyway.
    assert_eq!(
        ok("a.ts", "class A { constructor(@Alias('q') a: Foo, @alias('r') @ALIAS('s') b) {} }"),
        "class A {\n\tconstructor(a, b) {}\n}\nexport {};\n"
    );
}

#[test]
fn parameter_without_type_or_alias_blocks_the_decorator() {
    assert_eq!(
        ok("a.ts", "class A { constructor(a, b: Foo) {} }"),
        "class A {\n\tconstructor(a, b) {}\n}\nexport {};\n"
    );
}

#[test]
fn class_without_constructor_gets_no_decorator() {
    assert_eq!(ok("a.ts", "class A { run() {} }"), "class A {\n\trun() {}\n}\nexport {};\n");
}

#[test]
fn static_method_named_constructor_is_no_constructor() {
    assert_eq!(
        ok("a.ts", "class A { static constructor(a: Foo) {} }"),
        "class A {\n\tstatic constructor(a) {}\n}\nexport {};\n"
    );
}

#[test]
fn bare_depends_decorator_is_kept_alone() {
    assert_eq!(
        ok("a.ts", "@depends class A { constructor(a: Foo) {} }"),
        "import { $acd$ } from '@moggie/runtime/polyfill';\nconst A = $acd$(class A {\n\tconstructor(a) {}\n}, 'A', [depends]);\n"
    );
}

#[test]
fn depends_call_has_no_name_so_another_is_added() {
    // `oxc` names a decorator by an identifier or a member's property; a call
    // of an identifier has no name, so the class still needs `@depends`.
    assert_eq!(
        ok("a.ts", "@depends('x') class A { constructor(a: Foo) {} }"),
        "import { $acd$ } from '@moggie/runtime/polyfill';\nconst A = $acd$(class A {\n\tconstructor(a) {}\n}, 'A', [depends('x'), depends('Foo')]);\n"
    );
}

#[test]
fn decorated_class_declaration_is_wrapped_in_order() {
    assert_eq!(
        ok("a.ts", "@foo @bar() class A {}"),
        "import { $acd$ } from '@moggie/runtime/polyfill';\nconst A = $acd$(class A {}, 'A', [foo, bar()]);\n"
    );
}

#[test]
fn decorated_class_expression_in_declarator_is_wrapped() {
    assert_eq!(
        ok("a.ts", "const B = @foo class C {};"),
        "import { $acd$ } from '@moggie/runtime/polyfill';\nconst B = $acd$(class C {}, 'C', [foo]);\n"
    );
}

#[test]
fn named_default_export_is_wrapped() {
    assert_eq!(
        ok("a.ts", "export default @foo class A {}"),
        "import { $acd$ } from '@moggie/runtime/polyfill';\nexport default $acd$(class A {}, 'A', [foo]);\n"
    );
}

#[test]
fn anonymous_default_export_keeps_its_decorators() {
    assert_eq!(ok("a.ts", "@foo export default class {}"), "export default @foo class {};\n");
}

#[test]
fn exported_named_class_keeps_its_decorators() {
    assert_eq!(ok("a.ts", "@foo export class A {}"), "export @foo class A {}\n");
}

#[test]
fn existing_helper_import_in_other_case_is_not_repeated() {
    assert_eq!(
        ok("a.ts", "import { $acd$ } from '@MOGGIE/runtime/polyfill'; @foo class A {}"),
        "import { $acd$ } from '@MOGGIE/runtime/polyfill';\nconst A = $acd$(class A {}, 'A', [foo]);\n"
    );
}

#[test]
fn helper_import_follows_the_leading_imports() {
    assert_eq!(
        ok("a.ts", "import { x } from 'a'; console.log(x); @foo class A {}"),
        "import { x } from 'a';\nimport { $acd$ } from '@moggie/runtime/polyfill';\nconsole.log(x);\nconst A = $acd$(class A {}, 'A', [foo]);\n"
    );
}

#[test]
fn javascript_keeps_all_helpers() {
    assert_eq!(
        ok("a.js", "let x = 1;"),
        "import { $si$, $ri$, $acd$ } from '@moggie/runtime/polyfill';\nlet x = 1;\n"
    );
}

#[test]
fn module_of_imports_only_gets_the_import_at_its_end() {
    assert_eq!(
        ok("a.js", "import a from 'a';"),
        "import a from 'a';\nimport { $si$, $ri$, $acd$ } from '@moggie/runtime/polyfill';\n"
    );
}

#[test]
fn unsupported_file_name_is_refused() {
    match run("a.txt", "class A {}") {
        Err(TransformError::UnsupportedFile(m)) => assert_eq!(
            m,
            "Unknown file extension: Please provide a valid file extension for a.txt: .js, .mjs, .jsx or .cjs for JavaScript, or .ts, .d.ts, .mts, .cts or .tsx for TypeScript"
        ),
        _ => panic!("expected UnsupportedFile"),
    }
}

#[test]
fn source_the_parser_gives_up_on_is_refused() {
    match run("a.js", "class {") {
        Err(TransformError::ParseFailed(m)) => assert_eq!(
            m,
            "Parsing failed; [Some([LabeledSpan { label: Some(\"`}` expected\"), span: SourceSpan { offset: SourceOffset(7), length: 0 }, primary: false }])] Expected `}` but found `EOF`"
        ),
        _ => panic!("expected ParseFailed"),
    }
}

#[test]
fn transformer_can_be_reused_after_recycling() {
    let mut t = ModuleTransformer::new();
    let first = t.transform("a.js".to_string(), "let x = 1;".to_string());
    t.recycle();
    let second = t.transform("b.js".to_string(), "let y = 2;".to_string());
    assert_eq!(
        first.ok().map(|r| r.code),
        Some("import { $si$, $ri$, $acd$ } from '@moggie/runtime/polyfill';\nlet x = 1;\n".to_string())
    );
    assert_eq!(
        second.ok().map(|r| r.code),
        Some("import { $si$, $ri$, $acd$ } from '@moggie/runtime/polyfill';\nlet y = 2;\n".to_string())
    );
}

#[test]
fn generic_and_qualified_types_are_named_without_arguments() {
    assert_eq!(
        ok("a.ts", "class A { constructor(a: Map<K, V>, b: ns.Svc) {} }"),
        "import { $acd$ } from '@moggie/runtime/polyfill';\nconst A = $acd$(class A {\n\tconstructor(a, b) {}\n}, 'A', [depends('Map', 'ns.Svc')]);\n"
    );
}

#[test]
fn injectable_service_is_wrapped_with_its_dependencies() {
    let code = ok("svc.ts", "@Injectable() class Svc { constructor(a: Foo, @Alias('cfg') b: Bar) {} }");
    assert_eq!(
        code,
        "import { $acd$ } from '@moggie/runtime/polyfill';\nconst Svc = $acd$(class Svc {\n\tconstructor(a, b) {}\n}, 'Svc', [Injectable(), depends('Foo', 'cfg')]);\n"
    );
    assert!(!code.contains("Alias"));
    // The only `@` left is the one in the runtime's package name.
    assert!(code.lines().skip(1).all(|line| !line.contains('@')));
}

#[test]
fn strings_are_printed_with_single_quotes() {
    let code = ok("a.js", "const s = \"x\";");
    assert_eq!(code, "import { $si$, $ri$, $acd$ } from '@moggie/runtime/polyfill';\nconst s = 'x';\n");
    assert!(!code.contains('"'));
}

#[test]
fn redeclaration_errors_are_not_reported() {
    // `let` declared twice is an error of the syntax check, which is not reported.
    assert!(run("a.js", "let a = 1; let a = 2;").is_ok());
}

#[test]
fn every_transformer_gives_the_same_answer() {
    let mut used = ModuleTransformer::new();
    let _ = used.transform("a.txt".to_string(), "x".to_string());
    let _ = used.transform("a.js".to_string(), "class {".to_string());
    let _ = used.transform("a.ts".to_string(), "@foo class A {}".to_string());
    for (file, code) in [("a.ts", "@foo class A {}"), ("b.js", "class {"), ("c.md", "x")] {
        let mut fresh = ModuleTransformer::new();
        let a = used.transform(file.to_string(), code.to_string());
        let b = fresh.transform(file.to_string(), code.to_string());
        match (a, b) {
            (Ok(x), Ok(y)) => assert_eq!(x.code, y.code),
            (Err(x), Err(y)) => assert_eq!(x.reason(), y.reason()),
            _ => panic!("the transformers disagree on {file}"),
        }
    }
}
