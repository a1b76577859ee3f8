//! Builders of `oxc` syntax nodes. Each is a call of `oxc`'s `AstBuilder`
//! (or of a conversion `oxc` defines) whose result the library carries on
//! without looking into it; where the library needs to know what a built
//! node holds, the builder says so through a name for what reading that
//! part of the node gives.
use vstd::prelude::*;
use oxc::allocator::{Allocator, Box as AstBox, CloneIn, Dummy, FromIn, Vec as AstVec};
use oxc::ast::ast::{
    Argument, ArrayExpressionElement, BindingIdentifier, BindingPatternKind, Class, Decorator,
    ExportDefaultDeclarationKind, Expression, ImportDeclarationSpecifier, ImportOrExportKind,
    Statement, VariableDeclaration, VariableDeclarationKind,
};
use oxc::ast::{AstBuilder, NONE};
use oxc::span::{Atom, Span};
use crate::convert::import_source_of;
use crate::model::{ArgView, CallShapeView};

verus! {

// ---- what reading a part of a node gives ------------------------------------

/// The shape of an expression that is a call (`Expression::CallExpression`):
/// the callee's name when the callee is an identifier, and each argument as
/// a string literal's value or as another argument; `None` for any other
/// expression.
pub uninterp spec fn call_shape(e: Expression<'_>) -> Option<CallShapeView>;

/// The arguments of an expression that is a call; `None` for any other
/// expression.
pub uninterp spec fn call_arguments(e: Expression<'_>) -> Option<Seq<Argument<'_>>>;

/// An argument as a string literal's value (`Argument::StringLiteral`), or
/// as another argument.
pub uninterp spec fn arg_view(a: Argument<'_>) -> ArgView;

/// The expression an argument is (every argument but a spread element is
/// one); `None` for a spread element.
pub uninterp spec fn argument_expression(a: Argument<'_>) -> Option<Expression<'_>>;

/// The value of an expression that is a string literal; `None` for any
/// other expression.
pub uninterp spec fn string_value(e: Expression<'_>) -> Option<Seq<char>>;

/// The elements of an expression that is an array literal, each an
/// expression; `None` for any other expression, and for an array with a
/// hole or a spread element.
pub uninterp spec fn array_elements(e: Expression<'_>) -> Option<Seq<Expression<'_>>>;

/// The class of an expression that is a class expression
/// (`Expression::ClassExpression`); `None` for any other expression.
pub uninterp spec fn expression_class(e: Expression<'_>) -> Option<Class<'_>>;

/// The expression of a decorator (`Decorator::expression`).
pub uninterp spec fn decorator_expr(d: Decorator<'_>) -> Expression<'_>;

/// The class of a class declaration (`Statement::ClassDeclaration`); `None`
/// for any other statement.
pub uninterp spec fn declared_class(s: Statement<'_>) -> Option<Class<'_>>;

/// What a class holds besides its body: the identifier it binds
/// (`Class::id`) and its decorators (`Class::decorators`), in order.
pub struct ClassHead<'a> {
    pub id: Option<BindingIdentifier<'a>>,
    pub decorators: Seq<Decorator<'a>>,
}

/// The binding and the decorators of a class (see [`ClassHead`]).
pub uninterp spec fn class_decorators(c: Class<'_>) -> ClassHead<'_>;

/// The declaration of a variable declaration statement
/// (`Statement::VariableDeclaration`); `None` for any other statement.
pub uninterp spec fn declaration_of(s: Statement<'_>) -> Option<VariableDeclaration<'_>>;

/// A `const` declaration of a single declarator that binds an identifier
/// and has an initializer: the name bound and the initializer; `None` for
/// any other declaration.
pub uninterp spec fn const_declared(d: VariableDeclaration<'_>) -> Option<(Seq<char>, Expression<'_>)>;

/// The class a default export exports when it is a class declaration
/// (`true`) or a class expression (`false`); `None` for anything else.
pub uninterp spec fn default_class(k: ExportDefaultDeclarationKind<'_>) -> Option<(Class<'_>, bool)>;

/// The expression a default export exports, when what it exports is an
/// expression (a class expression among them); `None` for a declaration.
pub uninterp spec fn default_expression_of(k: ExportDefaultDeclarationKind<'_>) -> Option<Expression<'_>>;

// ---- builders ------------------------------------------------------------------

/// `AstBuilder::expression_string_literal`: the string literal expression
/// `"<value>"`.
#[verifier::external_body]
pub fn expr_string<'a>(alloc: &'a Allocator, value: &str) -> (res: Expression<'a>)
    ensures
        string_value(res) == Some(value@),
{
    let builder = AstBuilder::new(alloc);
    builder.expression_string_literal(Span::dummy(alloc), Atom::from_in(value, alloc), None)
}

/// `AstBuilder::variable_declaration` with one declarator:
/// `const <name> = <expr>;`.
#[verifier::external_body]
pub fn decl_variable<'a>(
    alloc: &'a Allocator,
    name: BindingIdentifier<'a>,
    expr: Expression<'a>,
) -> (res: VariableDeclaration<'a>)
    ensures
        const_declared(res) == Some((binding_name(name), expr)),
{
    let builder = AstBuilder::new(alloc);
    let id = BindingPatternKind::BindingIdentifier(AstBox::new_in(name.clone_in(alloc), alloc));
    let kind = VariableDeclarationKind::Const;
    let declarator = builder.variable_declarator(
        Span::dummy(alloc),
        kind,
        builder.binding_pattern(id, NONE, false),
        Some(expr),
        false,
    );
    builder.variable_declaration(Span::dummy(alloc), kind, AstVec::from_array_in([declarator], alloc), false)
}

/// The name a binding identifier binds (`BindingIdentifier::name`).
pub uninterp spec fn binding_name(id: BindingIdentifier<'_>) -> Seq<char>;

/// `CloneIn::clone_in` of `oxc_allocator` on a binding identifier: a copy of
/// the node, allocated in `alloc`, binding the same name.
#[verifier::external_body]
pub(crate) fn clone_binding_identifier<'a>(
    alloc: &'a Allocator,
    id: &BindingIdentifier<'a>,
) -> (res: BindingIdentifier<'a>)
    ensures
        binding_name(res) == binding_name(*id),
{
    id.clone_in(alloc)
}

/// `AstBuilder::alloc_string_literal` as a call argument: `"<value>"`.
#[verifier::external_body]
pub(crate) fn string_argument<'a>(alloc: &'a Allocator, value: &str) -> (res: Argument<'a>)
    ensures
        arg_view(res) == ArgView::Str(value@),
{
    let builder = AstBuilder::new(alloc);
    Argument::StringLiteral(
        builder.alloc_string_literal(Span::dummy(alloc), Atom::from_in(value, alloc), None),
    )
}

/// `Argument::from`: an expression as a call argument.
#[verifier::external_body]
pub(crate) fn expression_argument<'a>(expr: Expression<'a>) -> (res: Argument<'a>)
    ensures
        argument_expression(res) == Some(expr),
        arg_view(res) == match string_value(expr) {
            Some(v) => ArgView::Str(v),
            None => ArgView::Other,
        },
{
    Argument::from(expr)
}

/// `AstBuilder::expression_call` of an identifier: `<callee>(<args>)`.
#[verifier::external_body]
pub(crate) fn identifier_call<'a>(
    alloc: &'a Allocator,
    callee: &str,
    args: Vec<Argument<'a>>,
) -> (res: Expression<'a>)
    ensures
        call_shape(res) == Some(CallShapeView {
            callee: Some(callee@),
            args: args@.map_values(|a: Argument<'a>| arg_view(a)),
        }),
        call_arguments(res) == Some(args@),
{
    let builder = AstBuilder::new(alloc);
    let callee = builder.expression_identifier(Span::dummy(alloc), Atom::from_in(callee, alloc));
    builder.expression_call(Span::dummy(alloc), callee, NONE, AstVec::from_iter_in(args, alloc), false)
}

/// `AstBuilder::expression_array`: `[<elements>]`.
#[verifier::external_body]
pub(crate) fn array_expression<'a>(alloc: &'a Allocator, elements: Vec<Expression<'a>>) -> (res: Expression<'a>)
    ensures
        array_elements(res) == Some(elements@),
        string_value(res) is None,
{
    let builder = AstBuilder::new(alloc);
    let elements = elements.into_iter().map(ArrayExpressionElement::from);
    builder.expression_array(Span::dummy(alloc), AstVec::from_iter_in(elements, alloc))
}

/// `AstBuilder::decorator`: `@<expr>`.
#[verifier::external_body]
pub(crate) fn decorator<'a>(alloc: &'a Allocator, expr: Expression<'a>) -> (res: Decorator<'a>)
    ensures
        decorator_expr(res) == expr,
{
    AstBuilder::new(alloc).decorator(Span::dummy(alloc), expr)
}

/// The expression of a decorator (its field `expression`).
#[verifier::external_body]
pub(crate) fn decorator_expression<'a>(decorator: Decorator<'a>) -> (res: Expression<'a>)
    ensures
        res == decorator_expr(decorator),
{
    decorator.expression
}

/// `Expression::ClassExpression` of a class, boxed in `alloc`.
#[verifier::external_body]
pub(crate) fn class_expression<'a>(alloc: &'a Allocator, class: Class<'a>) -> (res: Expression<'a>)
    ensures
        expression_class(res) == Some(class),
        string_value(res) is None,
{
    Expression::ClassExpression(AstBox::new_in(class, alloc))
}

/// `Statement::ClassDeclaration` of a class, boxed in `alloc`.
#[verifier::external_body]
pub(crate) fn class_declaration<'a>(alloc: &'a Allocator, class: Class<'a>) -> (res: Statement<'a>)
    ensures
        declared_class(res) == Some(class),
{
    Statement::ClassDeclaration(AstBox::new_in(class, alloc))
}

/// `Statement::VariableDeclaration` of a declaration, boxed in `alloc`.
#[verifier::external_body]
pub(crate) fn variable_statement<'a>(alloc: &'a Allocator, decl: VariableDeclaration<'a>) -> (res: Statement<'a>)
    ensures
        declaration_of(res) == Some(decl),
{
    Statement::VariableDeclaration(AstBox::new_in(decl, alloc))
}

/// `ExportDefaultDeclarationKind::ClassDeclaration` of a class, boxed in `alloc`.
#[verifier::external_body]
pub(crate) fn default_class_declaration<'a>(
    alloc: &'a Allocator,
    class: Class<'a>,
) -> (res: ExportDefaultDeclarationKind<'a>)
    ensures
        default_class(res) == Some((class, true)),
{
    ExportDefaultDeclarationKind::ClassDeclaration(AstBox::new_in(class, alloc))
}

/// `ExportDefaultDeclarationKind::from`: an expression as what a default export exports.
#[verifier::external_body]
pub(crate) fn default_expression<'a>(expr: Expression<'a>) -> (res: ExportDefaultDeclarationKind<'a>)
    ensures
        default_expression_of(res) == Some(expr),
        expression_class(expr) matches Some(c) ==> default_class(res) == Some((c, false)),
{
    ExportDefaultDeclarationKind::from(expr)
}

/// A specifier `import { <imported> as <local> }`: the name it imports (an
/// identifier's name, or a string's value), the name it binds, and whether
/// it imports a value (`import_kind` is `Value`) rather than a type.
pub struct ImportSpecifierView {
    pub imported: Seq<char>,
    pub local: Seq<char>,
    pub value: bool,
}

/// What an import specifier is (`ImportDeclarationSpecifier::ImportSpecifier`);
/// `None` for a default or namespace specifier.
pub uninterp spec fn import_specifier_of(specifier: ImportDeclarationSpecifier<'_>) -> Option<ImportSpecifierView>;

/// The specifiers of an import declaration (`ImportDeclaration::specifiers`);
/// `None` for any other statement, and for an import without a list.
pub uninterp spec fn import_specifiers_of(statement: Statement<'_>) -> Option<Seq<ImportDeclarationSpecifier<'_>>>;

/// `AstBuilder::import_declaration_specifier_import_specifier`: the
/// specifier `<name>` of `import { <name> } from ..`, a value import of the
/// name bound under the same name.
#[verifier::external_body]
pub fn import<'a>(alloc: &'a Allocator, name: &str) -> (res: ImportDeclarationSpecifier<'a>)
    ensures
        import_specifier_of(res) == Some(ImportSpecifierView { imported: name@, local: name@, value: true }),
{
    let builder = AstBuilder::new(alloc);
    builder.import_declaration_specifier_import_specifier(
        Span::dummy(alloc),
        builder.module_export_name_identifier_name(Span::dummy(alloc), Atom::from_in(name, alloc)),
        builder.binding_identifier(Span::dummy(alloc), Atom::from_in(name, alloc)),
        ImportOrExportKind::Value,
    )
}

/// `AstBuilder::alloc_import_declaration`:
/// `import { <specifiers> } from '<source>'`.
#[verifier::external_body]
pub(crate) fn import_declaration<'a>(
    alloc: &'a Allocator,
    specifiers: Vec<ImportDeclarationSpecifier<'a>>,
    source: &str,
) -> (res: Statement<'a>)
    ensures
        import_source_of(res) == Some(source@),
        import_specifiers_of(res) == Some(specifiers@),
{
    let builder = AstBuilder::new(alloc);
    let source = builder.string_literal(Span::dummy(alloc), Atom::from_in(source, alloc), None);
    let specifiers = Some(AstVec::from_iter_in(specifiers, alloc));
    Statement::ImportDeclaration(builder.alloc_import_declaration(
        Span::dummy(alloc), specifiers, source, None, NONE, ImportOrExportKind::Value))
}

} // verus!
