//! The transformation of one module's source text: parse, rewrite (the
//! dependency pass, the helpers' import, the decorator pass), lower to
//! ES2022 and print.
use vstd::prelude::*;
use oxc::allocator::Allocator;
use oxc::ast::ast::Program;
use oxc::codegen::{Codegen, CodegenOptions};
use oxc::parser::Parser;
use oxc::semantic::SemanticBuilder;
use oxc::span::SourceType;
use oxc::transformer::{EnvOptions, TransformOptions, Transformer};
use crate::convert::{
    built_body, module_from_program, module_into_program, program_body, program_source, read_body,
};
use crate::decorators::{decorated_stmt, transform_class_decorators};
use crate::dependencies::{module_stmt, transform_module};
use crate::model::{Module, StmtView};
use crate::polyfill::{inject_polyfill_import, with_polyfill_import};
use crate::text::{trim, trimmed};

verus! {

/// The code a module transformation produced.
pub struct TransformResult {
    pub code: String,
}

/// Why a module could not be transformed.
pub enum TransformError {
    /// The file name does not end in an extension of JavaScript or
    /// TypeScript source; `oxc`'s message.
    UnsupportedFile(String),
    /// The parser gave up on the source; the message lists its errors.
    ParseFailed(String),
}

impl TransformError {
    /// The message of the error.
    pub fn reason(&self) -> (res: &String)
        ensures
            res == match self {
                TransformError::UnsupportedFile(m) => m,
                TransformError::ParseFailed(m) => m,
            },
    {
        match self {
            TransformError::UnsupportedFile(m) => m,
            TransformError::ParseFailed(m) => m,
        }
    }
}

/// The kind of source a file holds, as `oxc_span`'s `SourceType` records it:
/// TypeScript (`true` also for a definition file), a TypeScript definition
/// file, an ES module (`false`: a script), with JSX.
#[derive(Clone, Copy, PartialEq, Eq, Structural, Debug)]
pub struct SourceKind {
    pub typescript: bool,
    pub definition: bool,
    pub module: bool,
    pub jsx: bool,
}

/// What `oxc_span`'s `SourceType::from_path` answers for a file name: the
/// kind of source that the name's extension stands for, or the message of
/// its `UnknownExtension` error. The answer depends on the name alone.
pub uninterp spec fn source_type_of(file_name: Seq<char>) -> Result<SourceKind, Seq<char>>;

/// One error the parser reported: its labels, debug-printed, and its message.
pub struct ParseError {
    pub labels: String,
    pub message: String,
}

pub struct ParseErrorView {
    pub labels: Seq<char>,
    pub message: Seq<char>,
}

impl View for ParseError {
    type V = ParseErrorView;

    open spec fn view(&self) -> ParseErrorView {
        ParseErrorView { labels: self.labels@, message: self.message@ }
    }
}

pub open spec fn errors_view(v: Seq<ParseError>) -> Seq<ParseErrorView> {
    v.map_values(|e: ParseError| e@)
}

/// What `oxc_parser`'s `Parser::parse` reports of `code` parsed as `kind`:
/// whether it gave up (`panicked`), and its errors, in order. The report
/// depends on the kind and the code alone.
pub uninterp spec fn parse_outcome(kind: SourceKind, code: Seq<char>) -> (bool, Seq<ParseErrorView>);

pub const PARSE_FAILURE_PREFIX: &'static str = "Parsing failed; ";

/// How one error is listed: `[<labels>] <message>`.
pub open spec fn error_line(e: ParseErrorView) -> Seq<char> {
    seq!['['] + e.labels + seq![']', ' '] + e.message
}

/// The parser's errors, each listed and followed by a line break.
pub open spec fn message_lines(errors: Seq<ParseErrorView>) -> Seq<char>
    decreases errors.len(),
{
    if errors.len() == 0 {
        seq![]
    } else {
        message_lines(errors.drop_last()) + error_line(errors.last()) + seq!['\n']
    }
}

/// The reason given when the parser gives up: the prefix and the listed
/// errors, trimmed.
pub open spec fn parse_failure_text(errors: Seq<ParseErrorView>) -> Seq<char> {
    trimmed(PARSE_FAILURE_PREFIX@ + message_lines(errors))
}

/// The three rewriting passes of the library's tree, in their order: the
/// dependency pass, the helpers' import, the decorator pass.
pub open spec fn rewritten(old: Seq<StmtView>, new: Seq<StmtView>) -> bool {
    let imported = with_polyfill_import(old.map_values(|s: StmtView| module_stmt(s)));
    &&& new.len() == imported.len()
    &&& forall|i: int| 0 <= i < imported.len() ==> decorated_stmt(#[trigger] imported[i], new[i])
}

/// `oxc_allocator`'s `Allocator::default`: a new, empty arena.
#[verifier::external_body]
fn new_allocator() -> Allocator {
    Allocator::default()
}

/// `oxc_span`'s `SourceType::from_path`: the kind of source a file name
/// stands for (by its extension), or the message of its error.
#[verifier::external_body]
fn source_type_from_path(file_name: &str) -> (res: Result<SourceKind, String>)
    ensures
        match res {
            Ok(kind) => source_type_of(file_name@) == Ok::<SourceKind, Seq<char>>(kind)
                && (kind.definition ==> kind.typescript),
            Err(m) => source_type_of(file_name@) == Err::<SourceKind, Seq<char>>(m@),
        },
{
    match SourceType::from_path(file_name) {
        Ok(t) => Ok(SourceKind {
            typescript: t.is_typescript(),
            definition: t.is_typescript_definition(),
            module: t.is_module(),
            jsx: t.is_jsx(),
        }),
        Err(err) => Err(format!("{err}")),
    }
}

/// `oxc_parser`'s `Parser::parse` of `code` as a source of the given kind
/// (built from `SourceType::mjs` by its `with_..` methods): whether the
/// parser gave up, its errors (see [`parse_outcome`]), and the program,
/// which records `code` as its source text.
#[verifier::external_body]
fn parse<'a>(alloc: &'a Allocator, kind: SourceKind, code: &'a str) -> (res: (bool, Vec<ParseError>, Program<'a>))
    requires
        kind.definition ==> kind.typescript,
    ensures
        res.0 == parse_outcome(kind, code@).0,
        errors_view(res.1@) == parse_outcome(kind, code@).1,
        program_source(res.2) == (kind, code@),
{
    let source_type = SourceType::mjs()
        .with_typescript(kind.typescript)
        .with_typescript_definition(kind.definition)
        .with_module(kind.module)
        .with_jsx(kind.jsx);
    let parsed = Parser::new(alloc, code, source_type).parse();
    let errors = parsed.errors.iter().map(|e| ParseError { labels: format!("{:?}", e.labels), message: e.message.to_string() }).collect();
    (parsed.panicked, errors, parsed.program)
}

pub open spec fn es2022() -> Seq<char> {
    seq!['e', 's', '2', '0', '2', '2']
}

/// The directory of a path: what `PathBuf::pop` leaves of it (the path
/// without its last component; the empty path where it has one component).
pub uninterp spec fn parent_of(path: Seq<char>) -> Seq<char>;

/// std's `PathBuf::pop` on the file name taken as a path (see [`parent_of`]).
#[verifier::external_body]
fn parent_directory(file_name: &str) -> (res: String)
    ensures
        res@ == parent_of(file_name@),
{
    let mut directory = std::path::PathBuf::from(file_name);
    directory.pop();
    directory.to_string_lossy().into_owned()
}

/// The code `oxc` prints of a program of the file `file_name`: the program
/// analysed by `oxc_semantic` (with syntax error checking), lowered by
/// `oxc_transformer` to `target` with `cwd` as working directory, and printed
/// by `oxc_codegen` (with single quotes where `single_quote` is set). The
/// code depends on these arguments alone.
pub uninterp spec fn printed_code(
    file_name: Seq<char>,
    cwd: Seq<char>,
    target: Seq<char>,
    single_quote: bool,
    program: Program<'_>,
) -> Seq<char>;

/// `oxc_semantic`'s `SemanticBuilder::build`, then `oxc_transformer`'s
/// `Transformer::build_with_scoping` with the options of
/// `EnvOptions::from_target(target)` and the working directory `cwd`, then
/// `oxc_codegen`'s `Codegen::build`: the program lowered and printed (see
/// [`printed_code`]). The errors of the first two are not reported.
#[verifier::external_body]
fn lower_and_print<'a>(
    alloc: &'a Allocator,
    file_name: &str,
    cwd: &str,
    target: &str,
    single_quote: bool,
    program: Program<'a>,
) -> (res: String)
    requires
        target@ == es2022(),
    ensures
        res@ == printed_code(file_name@, cwd@, target@, single_quote, program),
{
    let mut program = program;
    let scoping = SemanticBuilder::new().with_check_syntax_error(true).build(&program).semantic.into_scoping();
    let options = TransformOptions { cwd: cwd.into(), env: EnvOptions::from_target(target).unwrap(), ..Default::default() };
    let _ = Transformer::new(alloc, std::path::Path::new(file_name), &options).build_with_scoping(scoping, &mut program);
    Codegen::new().with_options(CodegenOptions { single_quote, ..Default::default() }).build(&program).code
}

/// The reason given when the parser gives up on a source, from its errors
/// (see [`parse_failure_text`]).
pub fn parse_failure_reason(errors: &Vec<ParseError>) -> (res: String)
    ensures
        res@ == parse_failure_text(errors_view(errors@)),
{
    proof {
        reveal_strlit("\n");
        reveal_strlit("[");
        reveal_strlit("] ");
    }
    let ghost es = errors_view(errors@);
    let mut text = PARSE_FAILURE_PREFIX.to_owned();
    let mut i: usize = 0;
    while i < errors.len()
        invariant
            0 <= i <= errors@.len(),
            es == errors_view(errors@),
            "\n"@ == seq!['\n'],
            "["@ == seq!['['],
            "] "@ == seq![']', ' '],
            text@ == PARSE_FAILURE_PREFIX@ + message_lines(es.take(i as int)),
        decreases errors@.len() - i,
    {
        assert(es.take(i + 1).drop_last() =~= es.take(i as int));
        text.append("[");
        text.append(errors[i].labels.as_str());
        text.append("] ");
        text.append(errors[i].message.as_str());
        text.append("\n");
        assert(text@ =~= PARSE_FAILURE_PREFIX@ + message_lines(es.take(i + 1)));
        i = i + 1;
    }
    assert(es.take(es.len() as int) =~= es);
    trim(text.as_str()).to_owned()
}

/// Rewrites a module's tree: every top-level class declaration without a
/// `depends` decorator gets its `@depends(..)` decorator, the runtime's
/// helpers are imported where they are not, and decorated classes are
/// wrapped in the call that applies their decorators.
pub fn rewrite_module<'a>(alloc: &'a Allocator, module: &mut Module<'a>)
    ensures
        rewritten(old(module)@, final(module)@),
{
    transform_module(module);
    inject_polyfill_import(module);
    transform_class_decorators(alloc, module);
}

/// `out` is the code of a module parsed from `code` and rewritten: the
/// library's tree read from the statements of a program parsed from
/// `code` as the kind of source the file name stands for, that tree
/// rewritten (see [`rewritten`]), and the program with
/// the rewritten tree put back, lowered to ES2022 (with the file's
/// directory as working directory) and printed with single quotes.
pub open spec fn transformed<'a>(file_name: Seq<char>, code: Seq<char>, out: Seq<char>) -> bool {
    match source_type_of(file_name) {
        Ok(kind) => exists|parsed: Program<'a>, read: Seq<StmtView<'a>>, new: Seq<StmtView<'a>>, printed: Program<'a>|
            #![trigger read_body(program_body(parsed), read), rewritten(read, new), printed_code(file_name, parent_of(file_name), es2022(), true, printed)]
            {
                &&& program_source(parsed) == (kind, code)
                &&& read_body(program_body(parsed), read)
                &&& rewritten(read, new)
                &&& program_source(printed) == (kind, code)
                &&& built_body(new, program_body(printed))
                &&& out == printed_code(file_name, parent_of(file_name), es2022(), true, printed)
            },
        Err(_) => false,
    }
}

/// How the transformation of `code`, read from the file `file_name`, turns
/// out: a file name `oxc` does not accept gives `UnsupportedFile` with its
/// message; a source the parser gives up on gives `ParseFailed` with the
/// reason made of the parser's errors; any other source gives the code of
/// the module rewritten (see [`transformed`]).
pub open spec fn transform_outcome(file_name: Seq<char>, code: Seq<char>, res: Result<Seq<char>, TransformError>) -> bool {
    match source_type_of(file_name) {
        Err(m) => res matches Err(TransformError::UnsupportedFile(r)) && r@ == m,
        Ok(kind) => {
            let (gives_up, errors) = parse_outcome(kind, code);
            if gives_up {
                res matches Err(TransformError::ParseFailed(r)) && r@ == parse_failure_text(errors)
            } else {
                res matches Ok(out) && transformed(file_name, code, out)
            }
        },
    }
}

/// The code of a result, by its view.
pub open spec fn code_view(res: Result<String, TransformError>) -> Result<Seq<char>, TransformError> {
    match res {
        Ok(code) => Ok(code@),
        Err(e) => Err(e),
    }
}

/// Transforms one module's source text with the arena `alloc` (see
/// [`ModuleTransformer::transform`]).
pub fn transform_source<'a>(
    alloc: &'a Allocator,
    file_name: &str,
    code: &'a str,
) -> (res: Result<String, TransformError>)
    ensures
        transform_outcome(file_name@, code@, code_view(res)),
{
    let kind = match source_type_from_path(file_name) {
        Ok(kind) => kind,
        Err(m) => {
            return Err(TransformError::UnsupportedFile(m));
        },
    };
    let (gives_up, errors, mut program) = parse(alloc, kind, code);
    if gives_up {
        return Err(TransformError::ParseFailed(parse_failure_reason(&errors)));
    }
    let ghost parsed = program;
    let mut module = module_from_program(alloc, &mut program);
    let ghost read = module@;
    rewrite_module(alloc, &mut module);
    let ghost new = module@;
    module_into_program(alloc, &mut program, module);
    let ghost printed = program;
    proof {
        reveal_strlit("es2022");
        assert("es2022"@ =~= es2022());
    }
    let cwd = parent_directory(file_name);
    let out = lower_and_print(alloc, file_name, cwd.as_str(), "es2022", true, program);
    assert(transformed(file_name@, code@, out@)) by {
        assert(read_body(program_body(parsed), read));
        assert(rewritten(read, new));
        assert(printed_code(file_name@, parent_of(file_name@), es2022(), true, printed) == out@);
    }
    Ok(out)
}

/// Transforms JavaScript and TypeScript modules, each in an arena of its
/// own that is dropped once the module's code is printed.
pub struct ModuleTransformer {
    alloc: Allocator,
}

impl ModuleTransformer {
    /// A transformer with an empty arena.
    pub fn new() -> Self {
        ModuleTransformer { alloc: new_allocator() }
    }

    /// Drops the arena and everything allocated in it, in favour of an empty one.
    pub fn recycle(&mut self) {
        self.alloc = new_allocator();
    }

    /// Transforms the module `code`, read from the file `file_name`. The
    /// module is parsed as the file's extension says; every top-level class
    /// declaration without a `depends` decorator gets the `@depends(..)`
    /// decorator of its constructor's dependencies (an alias, or the name of
    /// the parameter's type), the runtime's helpers are imported, decorated
    /// classes are wrapped in `$acd$(..)`, the result is lowered to ES2022
    /// and printed with single quotes.
    ///
    /// An unsupported file name gives `UnsupportedFile` with `oxc`'s
    /// message; a source the parser gives up on gives `ParseFailed` with the
    /// reason of [`parse_failure_reason`], and in both cases the arena is
    /// kept; any other source gives the printed code of the module read from
    /// the parsed program, rewritten and put back (see [`transformed`]);
    /// errors the parser recovered from, and those of the later stages, are
    /// not reported, and the arena is recycled.
    pub fn transform(&mut self, file_name: String, code: String) -> (res: Result<TransformResult, TransformError>)
        ensures
            transform_outcome(
                file_name@,
                code@,
                match res {
                    Ok(r) => Ok(r.code@),
                    Err(e) => Err(e),
                },
            ),
    {
        let code = match transform_source(&self.alloc, file_name.as_str(), code.as_str()) {
            Ok(code) => code,
            Err(e) => {
                return Err(e);
            },
        };
        self.recycle();
        Ok(TransformResult { code })
    }
}

} // verus!
