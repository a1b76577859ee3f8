//! Moving a parsed `oxc` program into the library's syntax tree and back.
//!
//! Going in, the parts the transformation reads (statement kinds, import
//! sources, class names, decorators, constructor parameters, declarator
//! initializers) are taken out of the `oxc` nodes and read into plain values;
//! the remaining node goes along unchanged. Coming back, each part is put
//! back where it was taken from, and what the transformation added is built.
//! Both ways are stated over names for what reading a part of a node gives
//! ([`read_body`], [`built_body`]).
use vstd::prelude::*;
use oxc::allocator::{Allocator, TakeIn, Vec as AstVec};
use oxc::codegen::{Codegen, Context, Gen};
use oxc::ast::ast::{
    Argument, BindingIdentifier, Class, ClassElement, Declaration, Decorator,
    ExportDefaultDeclarationKind, Expression, FormalParameter, MethodDefinitionKind, Program,
    Statement, TSType, VariableDeclarator,
};
use crate::model::{
    declarators_view, decos_view, members_view, opt_shape_view, opt_str_view, params_view,
    stmts_view, strs_view, Arg, ArgView, CallShape, CallShapeView, ClassId, ClassNode, ClassView,
    Deco, DecoView, Declarator, DeclaratorView, DefaultExport, DefaultExportView, Expr, ExprView,
    Member, MemberView, Module, Param, ParamView, Stmt, StmtView,
};
use crate::utils::{
    arg_view, argument_expression, array_elements, array_expression, binding_name, call_arguments,
    call_shape, class_declaration, class_decorators, class_expression, const_declared,
    decl_variable, declaration_of, declared_class, decorator, decorator_expr, decorator_expression,
    default_class, default_class_declaration, default_expression, default_expression_of,
    expr_string, expression_argument, expression_class, identifier_call, string_argument,
    variable_statement,
};
use crate::transformer::SourceKind;
use crate::polyfill::{helpers_import, polyfill_import_statement, APPLY_CLASS_SIGIL};

verus! {

// ---- what reading a part of a node gives ------------------------------------

/// The elements of a class's body (`Class::body`), in order.
pub uninterp spec fn class_elements(c: Class<'_>) -> Seq<ClassElement<'_>>;

/// The kind (`MethodDefinition::kind`) and the formal parameters (its
/// function's `params.items`, in order) of a class element that is a method
/// definition; `None` for any other element.
pub uninterp spec fn method_params(e: ClassElement<'_>) -> Option<(MethodKind, Seq<FormalParameter<'_>>)>;

/// Whether a class element is a constructor: a method definition of kind
/// `constructor`.
pub open spec fn is_constructor_element<'a>(e: ClassElement<'a>) -> bool {
    method_params(e) matches Some((kind, _)) && kind is Constructor
}

/// The decorators of a formal parameter, in order.
pub uninterp spec fn param_decorators(p: FormalParameter<'_>) -> Seq<Decorator<'_>>;

/// The name of the type a formal parameter is annotated with, when the
/// annotation is a type reference: the reference's name as `oxc` prints it,
/// without type arguments (`Foo`, `ns.Foo`); `None` for a parameter without
/// such an annotation.
pub uninterp spec fn type_reference_name(p: FormalParameter<'_>) -> Option<Seq<char>>;

/// The declarators of a variable declaration statement, in order; `None`
/// for any other statement.
pub uninterp spec fn statement_declarators(s: Statement<'_>) -> Option<Seq<VariableDeclarator<'_>>>;

/// The initializer of a declarator (`VariableDeclarator::init`).
pub uninterp spec fn declarator_init(d: VariableDeclarator<'_>) -> Option<Expression<'_>>;

/// Whether a statement is `export ..` with a declaration or a list
/// (`Statement::ExportNamedDeclaration`).
pub uninterp spec fn is_named_export(s: Statement<'_>) -> bool;

/// The class of `export class ..`; `None` for any other statement.
pub uninterp spec fn exported_class(s: Statement<'_>) -> Option<Class<'_>>;

/// What `export default ..` exports (`ExportDefaultDeclaration::declaration`);
/// `None` for any other statement.
pub uninterp spec fn default_export(s: Statement<'_>) -> Option<ExportDefaultDeclarationKind<'_>>;

/// The top-level statements of a program (`Program::body`), in order.
pub uninterp spec fn program_body(program: Program<'_>) -> Seq<Statement<'_>>;

/// The source a program was parsed from: the kind of source it was parsed
/// as (`Program::source_type`, read as [`SourceKind`] reads it) and the text
/// (`Program::source_text`).
pub uninterp spec fn program_source(program: Program<'_>) -> (SourceKind, Seq<char>);

/// The source of an import declaration (`ImportDeclaration::source`'s
/// value); `None` for any other statement.
pub uninterp spec fn import_source_of(statement: Statement<'_>) -> Option<Seq<char>>;

// ---- taking parts out of `oxc` nodes -------------------------------------

/// Moves the statements out of `program.body` (`TakeIn::take_in`, which
/// leaves the body empty), in order.
#[verifier::external_body]
fn take_body<'a>(alloc: &'a Allocator, program: &mut Program<'a>) -> (res: Vec<Statement<'a>>)
    ensures
        res@ == program_body(*old(program)),
        program_body(*final(program)) == Seq::<Statement<'a>>::empty(),
        program_source(*final(program)) == program_source(*old(program)),
{
    program.body.take_in(alloc).into_iter().collect()
}

/// The source of an import declaration (`source.value`); `None` for any
/// other statement.
#[verifier::external_body]
fn import_source<'a>(statement: &Statement<'a>) -> (res: Option<String>)
    ensures
        opt_str_view(res) == import_source_of(*statement),
{
    match statement {
        Statement::ImportDeclaration(import) => Some(import.source.value.to_string()),
        _ => None,
    }
}

/// The class of a class declaration (unboxed); any other statement is
/// handed back.
#[verifier::external_body]
fn into_class_declaration<'a>(statement: Statement<'a>) -> (res: Result<Class<'a>, Statement<'a>>)
    ensures
        res matches Err(s) ==> s == statement,
        res matches Ok(c) ==> declared_class(statement) == Some(c),
{
    match statement {
        Statement::ClassDeclaration(class) => Ok(class.unbox()),
        other => Err(other),
    }
}

/// Moves the declarators out of a variable declaration; `None` for any other
/// statement.
#[verifier::external_body]
fn take_var_declarators<'a>(
    alloc: &'a Allocator,
    statement: &mut Statement<'a>,
) -> (res: Option<Vec<VariableDeclarator<'a>>>)
    ensures
        res is None ==> *final(statement) == *old(statement),
        res matches Some(ds) ==> statement_declarators(*old(statement)) == Some(ds@)
            && statement_declarators(*final(statement)) is Some,
{
    match statement {
        Statement::VariableDeclaration(decl) => Some(decl.declarations.take_in(alloc).into_iter().collect()),
        _ => None,
    }
}

/// Moves the class out of `export class ..` (unboxed, leaving no
/// declaration); `None` for any other statement.
#[verifier::external_body]
fn take_export_named_class<'a>(statement: &mut Statement<'a>) -> (res: Option<Class<'a>>)
    ensures
        res is None ==> *final(statement) == *old(statement),
        res matches Some(c) ==> exported_class(*old(statement)) == Some(c) && is_named_export(*final(statement)),
{
    match statement {
        Statement::ExportNamedDeclaration(export) => match export.declaration.take() {
            Some(Declaration::ClassDeclaration(class)) => Some(class.unbox()),
            other => {
                export.declaration = other;
                None
            },
        },
        _ => None,
    }
}

/// Moves what `export default` exports out of the statement (`TakeIn`,
/// leaving a dummy); `None` for any other statement.
#[verifier::external_body]
fn take_export_default<'a>(
    alloc: &'a Allocator,
    statement: &mut Statement<'a>,
) -> (res: Option<ExportDefaultDeclarationKind<'a>>)
    ensures
        res is None ==> *final(statement) == *old(statement),
        res matches Some(k) ==> default_export(*old(statement)) == Some(k)
            && default_export(*final(statement)) is Some,
{
    match statement {
        Statement::ExportDefaultDeclaration(export) => Some(export.declaration.take_in(alloc)),
        _ => None,
    }
}

/// The class a default export exports (unboxed), with `true` for a class
/// declaration and `false` for a class expression; anything else is handed back.
#[verifier::external_body]
fn into_default_class<'a>(
    kind: ExportDefaultDeclarationKind<'a>,
) -> (res: Result<(Class<'a>, bool), ExportDefaultDeclarationKind<'a>>)
    ensures
        res matches Err(k) ==> k == kind,
        res matches Ok((c, declared)) ==> default_class(kind) == Some((c, declared)),
{
    match kind {
        ExportDefaultDeclarationKind::ClassDeclaration(class) => Ok((class.unbox(), true)),
        ExportDefaultDeclarationKind::ClassExpression(class) => Ok((class.unbox(), false)),
        other => Err(other),
    }
}

/// Moves the initializer out of a declarator (`Option::take`).
#[verifier::external_body]
fn take_declarator_init<'a>(declarator: &mut VariableDeclarator<'a>) -> (res: Option<Expression<'a>>)
    ensures
        res is None ==> *final(declarator) == *old(declarator),
        res == declarator_init(*old(declarator)),
{
    declarator.init.take()
}

/// The class of a class expression (unboxed); any other expression is
/// handed back.
#[verifier::external_body]
fn into_class_expression<'a>(expr: Expression<'a>) -> (res: Result<Class<'a>, Expression<'a>>)
    ensures
        res matches Err(e) ==> e == expr,
        res matches Ok(c) ==> expression_class(expr) == Some(c),
{
    match expr {
        Expression::ClassExpression(class) => Ok(class.unbox()),
        other => Err(other),
    }
}

/// Moves the binding identifier out of a class (`Option::take`), with its name.
#[verifier::external_body]
fn take_class_id<'a>(class: &mut Class<'a>) -> (res: Option<(String, BindingIdentifier<'a>)>)
    ensures
        res matches Some((name, id)) ==> name@ == binding_name(id),
        class_decorators(*old(class)).id == match res {
            Some((_, id)) => Some(id),
            None => None,
        },
        class_decorators(*final(class)).id is None,
        class_decorators(*final(class)).decorators == class_decorators(*old(class)).decorators,
        class_elements(*final(class)) == class_elements(*old(class)),
{
    match class.id.take() {
        Some(id) => Some((id.name.to_string(), id)),
        None => None,
    }
}

/// Moves the decorators out of a class, in order.
#[verifier::external_body]
fn take_class_decorators<'a>(alloc: &'a Allocator, class: &mut Class<'a>) -> (res: Vec<Decorator<'a>>)
    ensures
        res@ == class_decorators(*old(class)).decorators,
        class_decorators(*final(class)).id == class_decorators(*old(class)).id,
        class_elements(*final(class)) == class_elements(*old(class)),
{
    class.decorators.take_in(alloc).into_iter().collect()
}

/// Moves the elements out of a class body, in order.
#[verifier::external_body]
fn take_class_elements<'a>(alloc: &'a Allocator, class: &mut Class<'a>) -> (res: Vec<ClassElement<'a>>)
    ensures
        res@ == class_elements(*old(class)),
        class_decorators(*final(class)) == class_decorators(*old(class)),
{
    class.body.body.take_in(alloc).into_iter().collect()
}

/// The kinds of a method definition (`MethodDefinitionKind`).
pub enum MethodKind {
    Constructor,
    Method,
    Getter,
    Setter,
}

/// The kind of a class element that is a method definition
/// (`MethodDefinition::kind`); `None` for any other element.
#[verifier::external_body]
fn method_kind<'a>(element: &ClassElement<'a>) -> (res: Option<MethodKind>)
    ensures
        res == match method_params(*element) {
            Some((kind, _)) => Some(kind),
            None => None::<MethodKind>,
        },
{
    match element {
        ClassElement::MethodDefinition(method) => Some(match method.kind {
            MethodDefinitionKind::Constructor => MethodKind::Constructor,
            MethodDefinitionKind::Method => MethodKind::Method,
            MethodDefinitionKind::Get => MethodKind::Getter,
            MethodDefinitionKind::Set => MethodKind::Setter,
        }),
        _ => None,
    }
}

/// Moves the formal parameters (`value.params.items`, in order) out of a
/// method definition; `None` for any other element.
#[verifier::external_body]
fn take_method_params<'a>(
    alloc: &'a Allocator,
    element: &mut ClassElement<'a>,
) -> (res: Option<Vec<FormalParameter<'a>>>)
    ensures
        res is None ==> *final(element) == *old(element),
        res is None <==> method_params(*old(element)) is None,
        res matches Some(ps) ==> (method_params(*old(element)) matches Some((kind, qs)) && qs == ps@
            && method_params(*final(element)) == Some((kind, Seq::<FormalParameter<'a>>::empty()))),
{
    match element {
        ClassElement::MethodDefinition(method) => {
            Some(method.value.params.items.take_in(alloc).into_iter().collect())
        },
        _ => None,
    }
}

/// Moves the decorators out of a formal parameter, in order.
#[verifier::external_body]
fn take_param_decorators<'a>(alloc: &'a Allocator, param: &mut FormalParameter<'a>) -> (res: Vec<Decorator<'a>>)
    ensures
        res@ == param_decorators(*old(param)),
        type_reference_name(*final(param)) == type_reference_name(*old(param)),
{
    param.decorators.take_in(alloc).into_iter().collect()
}

/// The name of the type a parameter is annotated with, when the annotation
/// is a type reference (`TSType::TSTypeReference`): the reference without its
/// type arguments, printed by `oxc_codegen` (`Gen::print`), which writes a
/// type name as `TSTypeName`'s `Display` does, identifiers joined by `.`
/// (`Foo`, `ns.Foo`). The type arguments are put back; the parameter is left
/// as it was.
#[verifier::external_body]
fn param_type_name<'a>(param: &mut FormalParameter<'a>) -> (res: Option<String>)
    ensures
        *final(param) == *old(param),
        opt_str_view(res) == type_reference_name(*old(param)),
{
    match &mut param.pattern.type_annotation {
        Some(annotation) => match &mut annotation.type_annotation {
            TSType::TSTypeReference(reference) => {
                let arguments = reference.type_arguments.take();
                let mut printer = Codegen::new();
                reference.print(&mut printer, Context::default());
                reference.type_arguments = arguments;
                Some(printer.into_source_text())
            },
            _ => None,
        },
        None => None,
    }
}

/// `Decorator::name`: the name `oxc` gives a decorator.
#[verifier::external_body]
fn decorator_name<'a>(decorator: &Decorator<'a>) -> Option<String> {
    match decorator.name() {
        Some(name) => Some(name.to_string()),
        None => None,
    }
}

/// The shape of a decorator whose expression is a call: the callee's name
/// when the callee is an identifier, and each argument as a string literal's
/// value or as another argument; `None` when the expression is no call.
#[verifier::external_body]
fn decorator_call<'a>(decorator: &Decorator<'a>) -> (res: Option<CallShape>)
    ensures
        opt_shape_view(res) == call_shape(decorator_expr(*decorator)),
{
    match &decorator.expression {
        Expression::CallExpression(call) => Some(CallShape {
            callee: match &call.callee {
                Expression::Identifier(ident) => Some(ident.name.to_string()),
                _ => None,
            },
            args: call.arguments.iter().map(|arg| match arg {
                Argument::StringLiteral(lit) => Arg::Str(lit.value.to_string()),
                _ => Arg::Other,
            }).collect(),
        }),
        _ => None,
    }
}

// ---- putting parts back ---------------------------------------------------

/// Puts statements into `program.body`, replacing what it holds.
#[verifier::external_body]
fn put_body<'a>(alloc: &'a Allocator, program: &mut Program<'a>, statements: Vec<Statement<'a>>)
    ensures
        program_body(*final(program)) == statements@,
        program_source(*final(program)) == program_source(*old(program)),
{
    program.body = AstVec::from_iter_in(statements, alloc);
}

/// Puts declarators into a variable declaration; other statements are left as they are.
#[verifier::external_body]
fn put_var_declarators<'a>(
    alloc: &'a Allocator,
    statement: &mut Statement<'a>,
    declarators: Vec<VariableDeclarator<'a>>,
)
    ensures
        match statement_declarators(*old(statement)) {
            Some(_) => statement_declarators(*final(statement)) == Some(declarators@),
            None => *final(statement) == *old(statement),
        },
{
    if let Statement::VariableDeclaration(decl) = statement {
        decl.declarations = AstVec::from_iter_in(declarators, alloc);
    }
}

/// Puts a class, boxed, as the declaration of `export ..`; other statements
/// are left as they are.
#[verifier::external_body]
fn put_export_named_class<'a>(alloc: &'a Allocator, statement: &mut Statement<'a>, class: Class<'a>)
    ensures
        if is_named_export(*old(statement)) {
            exported_class(*final(statement)) == Some(class)
        } else {
            *final(statement) == *old(statement)
        },
{
    if let Statement::ExportNamedDeclaration(export) = statement {
        export.declaration = Some(Declaration::ClassDeclaration(oxc::allocator::Box::new_in(class, alloc)));
    }
}

/// Puts what `export default` exports; other statements are left as they are.
#[verifier::external_body]
fn put_export_default<'a>(statement: &mut Statement<'a>, kind: ExportDefaultDeclarationKind<'a>)
    ensures
        match default_export(*old(statement)) {
            Some(_) => default_export(*final(statement)) == Some(kind),
            None => *final(statement) == *old(statement),
        },
{
    if let Statement::ExportDefaultDeclaration(export) = statement {
        export.declaration = kind;
    }
}

/// Sets the initializer of a declarator.
#[verifier::external_body]
fn put_declarator_init<'a>(declarator: &mut VariableDeclarator<'a>, init: Option<Expression<'a>>)
    ensures
        declarator_init(*final(declarator)) == init,
{
    declarator.init = init;
}

/// Sets the binding identifier of a class.
#[verifier::external_body]
fn put_class_id<'a>(class: &mut Class<'a>, id: Option<BindingIdentifier<'a>>)
    ensures
        class_decorators(*final(class)).id == id,
        class_decorators(*final(class)).decorators == class_decorators(*old(class)).decorators,
        class_elements(*final(class)) == class_elements(*old(class)),
{
    class.id = id;
}

/// Sets the decorators of a class.
#[verifier::external_body]
fn put_class_decorators<'a>(alloc: &'a Allocator, class: &mut Class<'a>, decorators: Vec<Decorator<'a>>)
    ensures
        class_decorators(*final(class)).decorators == decorators@,
        class_decorators(*final(class)).id == class_decorators(*old(class)).id,
        class_elements(*final(class)) == class_elements(*old(class)),
{
    class.decorators = AstVec::from_iter_in(decorators, alloc);
}

/// Sets the elements of a class body.
#[verifier::external_body]
fn put_class_elements<'a>(alloc: &'a Allocator, class: &mut Class<'a>, elements: Vec<ClassElement<'a>>)
    ensures
        class_decorators(*final(class)) == class_decorators(*old(class)),
        class_elements(*final(class)) == elements@,
{
    class.body.body = AstVec::from_iter_in(elements, alloc);
}

/// Sets the formal parameters of a method definition; other elements are
/// left as they are.
#[verifier::external_body]
fn put_constructor_params<'a>(
    alloc: &'a Allocator,
    element: &mut ClassElement<'a>,
    params: Vec<FormalParameter<'a>>,
)
    ensures
        match method_params(*old(element)) {
            Some((kind, _)) => method_params(*final(element)) == Some((kind, params@)),
            None => *final(element) == *old(element),
        },
{
    if let ClassElement::MethodDefinition(method) = element {
        method.value.params.items = AstVec::from_iter_in(params, alloc);
    }
}

/// Sets the decorators of a formal parameter.
#[verifier::external_body]
fn put_param_decorators<'a>(
    alloc: &'a Allocator,
    param: &mut FormalParameter<'a>,
    decorators: Vec<Decorator<'a>>,
)
    ensures
        param_decorators(*final(param)) == decorators@,
{
    param.decorators = AstVec::from_iter_in(decorators, alloc);
}

// ---- what a tree read from the source is -----------------------------------

/// Decorators read from the source: each is a written decorator (none is
/// one that the transformation adds).
pub open spec fn decos_read<'a>(ds: Seq<Deco<'a>>) -> bool {
    forall|i: int| 0 <= i < ds.len() ==> (#[trigger] ds[i]) is Written
}

/// A parameter read from the source: its decorators are written ones.
pub open spec fn param_read<'a>(p: Param<'a>) -> bool {
    decos_read(p.decorators@)
}

pub open spec fn member_read<'a>(m: Member<'a>) -> bool {
    match m {
        Member::Constructor { params, .. } => forall|i: int|
            0 <= i < params@.len() ==> param_read(#[trigger] params@[i]),
        Member::Other(_) => true,
    }
}

/// A class read from the source: written decorators, and members read from
/// the source.
pub open spec fn class_read<'a>(c: ClassNode<'a>) -> bool {
    &&& decos_read(c.decorators@)
    &&& forall|i: int| 0 <= i < c.members@.len() ==> member_read(#[trigger] c.members@[i])
}

/// An expression read from the source: a class read from the source, or
/// another expression; never the call that applies decorators.
pub open spec fn expr_read<'a>(e: Expr<'a>) -> bool {
    match e {
        Expr::Class(c) => class_read(c),
        Expr::ApplyDecorators { .. } => false,
        Expr::Other(_) => true,
    }
}

pub open spec fn declarator_read<'a>(d: Declarator<'a>) -> bool {
    d.init matches Some(e) ==> expr_read(e)
}

pub open spec fn default_read<'a>(d: DefaultExport<'a>) -> bool {
    match d {
        DefaultExport::ClassDecl(c) => class_read(c),
        DefaultExport::ClassExpr(c) => class_read(c),
        DefaultExport::Expr(_) => false,
        DefaultExport::Other(_) => true,
    }
}

/// A statement read from the source: none of the statements the
/// transformation makes (the helpers' import, `const <name> = ..`), and its
/// classes, declarators and default export read from the source.
pub open spec fn stmt_read<'a>(s: Stmt<'a>) -> bool {
    match s {
        Stmt::Import { .. } => true,
        Stmt::PolyfillImport => false,
        Stmt::ClassDecl(c) => class_read(c),
        Stmt::ConstDecl { .. } => false,
        Stmt::VarDecl { declarators, .. } => forall|i: int|
            0 <= i < declarators@.len() ==> declarator_read(#[trigger] declarators@[i]),
        Stmt::ExportNamedClass { class, .. } => class_read(class),
        Stmt::ExportDefault { decl, .. } => default_read(decl),
        Stmt::Other(_) => true,
    }
}

/// The decorators of the library's tree read from decorator nodes: one for
/// each, in order, each a written decorator holding its node and the shape
/// of the node's call.
pub open spec fn read_decorators<'a>(nodes: Seq<Decorator<'a>>, ds: Seq<DecoView<'a>>) -> bool {
    &&& ds.len() == nodes.len()
    &&& forall|i: int| 0 <= i < nodes.len() ==> (#[trigger] ds[i] matches DecoView::Written { node, call, .. }
        && node == nodes[i] && call == call_shape(decorator_expr(nodes[i])))
}

/// The identifier node a class of the tree binds, if it has a name.
pub open spec fn class_binding<'a>(c: ClassView<'a>) -> Option<BindingIdentifier<'a>> {
    match c.id {
        Some(id) => Some(id.node),
        None => None,
    }
}

/// A constructor parameter read from a formal parameter: its decorators,
/// and the name of its type.
pub open spec fn read_param<'a>(p: FormalParameter<'a>, v: ParamView<'a>) -> bool {
    read_decorators(param_decorators(p), v.decorators) && v.type_ref == type_reference_name(p)
}

/// A member read from a class element: a constructor is read from exactly
/// the elements that are constructors, and holds the element's parameters,
/// one for each, in order; any other member is the element.
pub open spec fn read_member<'a>(e: ClassElement<'a>, m: MemberView<'a>) -> bool {
    match m {
        MemberView::Constructor { params, .. } => is_constructor_element(e)
            && (method_params(e) matches Some((_, ps)) && ps.len() == params.len()
            && forall|j: int| 0 <= j < params.len() ==> read_param(#[trigger] ps[j], params[j])),
        MemberView::Other(n) => n == e && !is_constructor_element(e),
    }
}

/// A class read from a class node: its decorators, its members (one for
/// each element, in order), and the identifier it binds, with its name.
pub open spec fn read_class<'a>(k: Class<'a>, c: ClassView<'a>) -> bool {
    &&& read_decorators(class_decorators(k).decorators, c.decorators)
    &&& class_decorators(k).id == class_binding(c)
    &&& c.members.len() == class_elements(k).len()
    &&& forall|i: int| 0 <= i < c.members.len() ==> read_member(#[trigger] class_elements(k)[i], c.members[i])
    &&& (c.id matches Some(id) ==> id.name == binding_name(id.node))
}

/// An expression read from an `oxc` expression: a class expression's
/// class, or the expression itself.
pub open spec fn read_expr<'a>(e: Expression<'a>, x: ExprView<'a>) -> bool {
    match x {
        ExprView::Class(c) => expression_class(e) matches Some(k) && read_class(k, c),
        ExprView::ApplyDecorators { .. } => false,
        ExprView::Other(n) => n == e,
    }
}

/// A declarator read from a declarator node: its initializer, read.
pub open spec fn read_declarator<'a>(d: VariableDeclarator<'a>, v: DeclaratorView<'a>) -> bool {
    match v.init {
        Some(x) => declarator_init(d) matches Some(e) && read_expr(e, x),
        None => declarator_init(d) is None,
    }
}

/// What a default export exports, read: a class declaration's or a class
/// expression's class, or what it exports itself.
pub open spec fn read_default<'a>(k: ExportDefaultDeclarationKind<'a>, v: DefaultExportView<'a>) -> bool {
    match v {
        DefaultExportView::ClassDecl(c) => default_class(k) matches Some((kc, declared)) && declared && read_class(kc, c),
        DefaultExportView::ClassExpr(c) => default_class(k) matches Some((kc, declared)) && !declared && read_class(kc, c),
        DefaultExportView::Expr(_) => false,
        DefaultExportView::Other(n) => n == k,
    }
}

/// How a statement of the library's tree stands for the `oxc` statement it
/// was read from: an import holds that statement and its source, a
/// statement the library does not look into is that statement, a class
/// declaration, a variable declaration, `export class` and `export default`
/// are read from the statement's parts, and only imports have a source.
pub open spec fn read_stmt<'a>(node: Statement<'a>, s: StmtView<'a>) -> bool {
    match s {
        StmtView::Import { source, node: n } => n == node && import_source_of(node) == Some(source),
        StmtView::Other(n) => n == node && import_source_of(node) is None,
        StmtView::ClassDecl(c) => import_source_of(node) is None && (declared_class(node) matches Some(k)
            && read_class(k, c)),
        StmtView::VarDecl { declarators, .. } => import_source_of(node) is None
            && (statement_declarators(node) matches Some(ds) && ds.len() == declarators.len()
            && forall|i: int| 0 <= i < ds.len() ==> read_declarator(#[trigger] ds[i], declarators[i])),
        StmtView::ExportNamedClass { class, node: rest } => import_source_of(node) is None
            && (exported_class(node) matches Some(k) && read_class(k, class)) && is_named_export(rest),
        StmtView::ExportDefault { decl, .. } => import_source_of(node) is None
            && (default_export(node) matches Some(k) && read_default(k, decl)),
        _ => import_source_of(node) is None,
    }
}

/// The library's tree read from a program's statements: one statement for
/// each, in order (see [`read_stmt`]).
pub open spec fn read_body<'a>(body: Seq<Statement<'a>>, module: Seq<StmtView<'a>>) -> bool {
    &&& module.len() == body.len()
    &&& forall|i: int| 0 <= i < body.len() ==> read_stmt(#[trigger] body[i], module[i])
}

/// The call `depends("<a>", "<b>", ..)` of the `@depends` decorator.
pub open spec fn depends_shape(args: Seq<Seq<char>>) -> CallShapeView {
    CallShapeView { callee: Some("depends"@), args: args.map_values(|a: Seq<char>| ArgView::Str(a)) }
}

/// The expression `e` of a decorator built from a decorator of the tree: a
/// written one's own expression, or the `depends(..)` call with the added
/// decorator's arguments.
pub open spec fn decorator_built<'a>(d: DecoView<'a>, e: Expression<'a>) -> bool {
    match d {
        DecoView::Written { node, .. } => e == decorator_expr(node),
        DecoView::Depends(args) => call_shape(e) == Some(depends_shape(args)),
    }
}

/// Decorator nodes built from the tree's decorators: one for each, in order,
/// a written one put back as it was read.
pub open spec fn decorators_built<'a>(ds: Seq<DecoView<'a>>, nodes: Seq<Decorator<'a>>) -> bool {
    &&& nodes.len() == ds.len()
    &&& forall|i: int| 0 <= i < ds.len() ==> {
        &&& decorator_built(#[trigger] ds[i], decorator_expr(nodes[i]))
        &&& (ds[i] matches DecoView::Written { node, .. } ==> nodes[i] == node)
    }
}

/// A class element built from a member of the tree: a constructor's
/// parameters are put back, one for each, with their decorators built from
/// the tree's; any other member is put back as it was read.
pub open spec fn member_built<'a>(m: MemberView<'a>, e: ClassElement<'a>) -> bool {
    match m {
        MemberView::Constructor { params, node } => if method_params(node) is Some {
            method_params(e) matches Some((kind, ps)) && method_params(node) matches Some((read_kind, _))
                && kind == read_kind && ps.len() == params.len()
                && forall|j: int| 0 <= j < params.len() ==> decorators_built(params[j].decorators, param_decorators(#[trigger] ps[j]))
        } else {
            e == node
        },
        MemberView::Other(n) => e == n,
    }
}

/// A class built from a class of the tree: it binds the tree's identifier
/// (none where the tree's class has none), its decorators are built from the
/// tree's, and its elements from the tree's members, one for each, in order.
pub open spec fn class_built<'a>(c: ClassView<'a>, k: Class<'a>) -> bool {
    &&& decorators_built(c.decorators, class_decorators(k).decorators)
    &&& class_decorators(k).id == class_binding(c)
    &&& class_elements(k).len() == c.members.len()
    &&& forall|i: int| 0 <= i < c.members.len() ==> member_built(#[trigger] c.members[i], class_elements(k)[i])
}

/// `$acd$(<class>, "<name>", [<decorators>])`: the call of the helper that
/// applies decorators, with the class built from the tree's class, the
/// class's name, and the decorators' expressions.
pub open spec fn apply_built<'a>(
    class: ClassView<'a>,
    name: Seq<char>,
    decorators: Seq<DecoView<'a>>,
    e: Expression<'a>,
) -> bool {
    &&& call_shape(e) == Some(CallShapeView {
        callee: Some(APPLY_CLASS_SIGIL@),
        args: seq![ArgView::Other, ArgView::Str(name), ArgView::Other],
    })
    &&& call_arguments(e) matches Some(args) && args.len() == 3
        && (argument_expression(args[0]) matches Some(ce) && expression_class(ce) matches Some(k)
            && class_built(class, k))
        && (argument_expression(args[2]) matches Some(ae) && array_elements(ae) matches Some(elements)
            && elements.len() == decorators.len()
            && forall|j: int| 0 <= j < decorators.len() ==> decorator_built(#[trigger] decorators[j], elements[j]))
}

/// An expression built from an expression of the tree.
pub open spec fn expr_built<'a>(x: ExprView<'a>, e: Expression<'a>) -> bool {
    match x {
        ExprView::Class(c) => expression_class(e) matches Some(k) && class_built(c, k),
        ExprView::ApplyDecorators { class, name, decorators } => apply_built(class, name, decorators, e),
        ExprView::Other(x) => e == x,
    }
}

/// A declarator built from a declarator of the tree: its initializer built
/// from the tree's.
pub open spec fn declarator_built<'a>(v: DeclaratorView<'a>, d: VariableDeclarator<'a>) -> bool {
    match v.init {
        Some(x) => declarator_init(d) matches Some(e) && expr_built(x, e),
        None => declarator_init(d) is None,
    }
}

/// What a default export exports, built from the tree's: a class
/// declaration or a class expression of a class built from the tree's, an
/// expression built from the tree's, or what was read.
pub open spec fn default_built<'a>(v: DefaultExportView<'a>, k: ExportDefaultDeclarationKind<'a>) -> bool {
    match v {
        DefaultExportView::ClassDecl(c) => default_class(k) matches Some((kc, declared)) && declared && class_built(c, kc),
        DefaultExportView::ClassExpr(c) => default_class(k) matches Some((kc, declared)) && !declared && class_built(c, kc),
        DefaultExportView::Expr(x) => default_expression_of(k) matches Some(e) && expr_built(x, e),
        DefaultExportView::Other(n) => k == n,
    }
}

/// A statement built from a statement of the tree: an import and a
/// statement the library does not look into are put back as they were
/// read; the helpers' import imports the runtime's helpers from their
/// module; a class declaration declares a class built from the tree's;
/// `const <name> = ..` binds the name of the tree's binding to an expression
/// built from the tree's; a variable declaration, `export class` and
/// `export default` have their parts built from the tree's.
pub open spec fn stmt_built<'a>(s: StmtView<'a>, node: Statement<'a>) -> bool {
    match s {
        StmtView::Import { node: n, .. } => node == n,
        StmtView::Other(n) => node == n,
        StmtView::PolyfillImport => helpers_import(node),
        StmtView::ClassDecl(c) => declared_class(node) matches Some(k) && class_built(c, k),
        StmtView::ConstDecl { id, init } => declaration_of(node) matches Some(d)
            && const_declared(d) matches Some((bound, e)) && bound == binding_name(id.node)
            && expr_built(init, e),
        StmtView::VarDecl { declarators, node: n } => if statement_declarators(n) is Some {
            statement_declarators(node) matches Some(ds) && ds.len() == declarators.len()
                && forall|i: int| 0 <= i < ds.len() ==> declarator_built(declarators[i], #[trigger] ds[i])
        } else {
            node == n
        },
        StmtView::ExportNamedClass { class, node: n } => if is_named_export(n) {
            exported_class(node) matches Some(k) && class_built(class, k)
        } else {
            node == n
        },
        StmtView::ExportDefault { decl, node: n } => if default_export(n) is Some {
            default_export(node) matches Some(k) && default_built(decl, k)
        } else {
            node == n
        },
    }
}

/// A program's statements built from the library's tree: one for each
/// statement of the tree, in order (see [`stmt_built`]).
pub open spec fn built_body<'a>(module: Seq<StmtView<'a>>, body: Seq<Statement<'a>>) -> bool {
    &&& body.len() == module.len()
    &&& forall|i: int| 0 <= i < module.len() ==> stmt_built(#[trigger] module[i], body[i])
}

// ---- into the library's tree -----------------------------------------------

fn deco_from_oxc<'a>(node: Decorator<'a>) -> (res: Deco<'a>)
    ensures
        res matches Deco::Written { node: n, .. } && n == node,
        res@ matches DecoView::Written { call, .. } && call == call_shape(decorator_expr(node)),
{
    let name = decorator_name(&node);
    let call = decorator_call(&node);
    Deco::Written { name, call, node }
}

fn decos_from_oxc<'a>(nodes: Vec<Decorator<'a>>) -> (res: Vec<Deco<'a>>)
    ensures
        read_decorators(nodes@, decos_view(res@)),
        res@.len() == nodes@.len(),
        forall|i: int|
            0 <= i < nodes@.len() ==> ((#[trigger] res@[i]) matches Deco::Written { node: n, .. }
                && n == nodes@[i]),
{
    let mut res: Vec<Deco<'a>> = Vec::new();
    for node in it: nodes.into_iter()
        invariant
            it.seq() == nodes@,
            res@.len() == it.index(),
            forall|i: int|
                0 <= i < it.index() ==> ((#[trigger] res@[i]) matches Deco::Written { node: n, .. }
                    && n == nodes@[i]),
            forall|i: int|
                0 <= i < it.index() ==> ((#[trigger] res@[i])@ matches DecoView::Written { call, .. }
                    && call == call_shape(decorator_expr(nodes@[i]))),
    {
        res.push(deco_from_oxc(node));
    }
    assert(read_decorators(nodes@, decos_view(res@))) by {
        assert forall|i: int| 0 <= i < nodes@.len() implies (#[trigger] decos_view(res@)[i] matches DecoView::Written { node, call, .. }
            && node == nodes@[i] && call == call_shape(decorator_expr(nodes@[i]))) by {
            assert(decos_view(res@)[i] == res@[i]@);
        }
    }
    res
}

fn param_from_oxc<'a>(alloc: &'a Allocator, node: FormalParameter<'a>) -> (res: Param<'a>)
    ensures
        param_read(res),
        read_param(node, res@),
{
    let mut node = node;
    let decorators = decos_from_oxc(take_param_decorators(alloc, &mut node));
    let type_ref = param_type_name(&mut node);
    Param { decorators, type_ref, node }
}

fn member_from_oxc<'a>(alloc: &'a Allocator, node: ClassElement<'a>) -> (res: Member<'a>)
    ensures
        member_read(res),
        res matches Member::Other(n) ==> n == node,
        read_member(node, res@),
{
    let ghost original = node;
    let mut node = node;
    let is_constructor = match method_kind(&node) {
        Some(MethodKind::Constructor) => true,
        _ => false,
    };
    if !is_constructor {
        return Member::Other(node);
    }
    match take_method_params(alloc, &mut node) {
        Some(items) => {
            let ghost ps = items@;
            let mut params: Vec<Param<'a>> = Vec::new();
            for item in it: items.into_iter()
                invariant
                    it.seq() == ps,
                    params@.len() == it.index(),
                    forall|i: int| 0 <= i < params@.len() ==> param_read(#[trigger] params@[i]),
                    forall|i: int| 0 <= i < params@.len() ==> read_param(ps[i], (#[trigger] params@[i])@),
            {
                params.push(param_from_oxc(alloc, item));
            }
            let res = Member::Constructor { params, node };
            assert(read_member(original, res@)) by {
                assert forall|j: int| 0 <= j < ps.len() implies read_param(#[trigger] ps[j], params_view(params@)[j]) by {
                    assert(params_view(params@)[j] == params@[j]@);
                }
            }
            res
        },
        None => Member::Other(node),
    }
}

fn class_from_oxc<'a>(alloc: &'a Allocator, node: Class<'a>) -> (res: ClassNode<'a>)
    ensures
        class_read(res),
        read_class(node, res@),
{
    let ghost original = node;
    let mut node = node;
    let id = match take_class_id(&mut node) {
        Some((name, id)) => Some(ClassId { name, node: id }),
        None => None,
    };
    let decorators = decos_from_oxc(take_class_decorators(alloc, &mut node));
    let mut members: Vec<Member<'a>> = Vec::new();
    let elements = take_class_elements(alloc, &mut node);
    let ghost es = elements@;
    for element in it: elements.into_iter()
        invariant
            it.seq() == es,
            members@.len() == it.index(),
            forall|i: int| 0 <= i < members@.len() ==> member_read(#[trigger] members@[i]),
            forall|i: int| 0 <= i < members@.len() ==> read_member(es[i], (#[trigger] members@[i])@),
    {
        members.push(member_from_oxc(alloc, element));
    }
    let res = ClassNode { id, decorators, members, node };
    assert(read_class(original, res@)) by {
        assert forall|i: int| 0 <= i < es.len() implies read_member(#[trigger] class_elements(original)[i], res@.members[i]) by {
            assert(res@.members[i] == members@[i]@);
        }
    }
    res
}

fn expr_from_oxc<'a>(alloc: &'a Allocator, node: Expression<'a>) -> (res: Expr<'a>)
    ensures
        expr_read(res),
        res matches Expr::Other(e) ==> e == node,
        read_expr(node, res@),
{
    match into_class_expression(node) {
        Ok(class) => Expr::Class(class_from_oxc(alloc, class)),
        Err(other) => Expr::Other(other),
    }
}

fn declarator_from_oxc<'a>(
    alloc: &'a Allocator,
    node: VariableDeclarator<'a>,
) -> (res: Declarator<'a>)
    ensures
        declarator_read(res),
        res.init is None ==> res.node == node,
        read_declarator(node, res@),
{
    let mut node = node;
    let init = match take_declarator_init(&mut node) {
        Some(e) => Some(expr_from_oxc(alloc, e)),
        None => None,
    };
    Declarator { init, node }
}

fn default_from_oxc<'a>(
    alloc: &'a Allocator,
    kind: ExportDefaultDeclarationKind<'a>,
) -> (res: DefaultExport<'a>)
    ensures
        default_read(res),
        res matches DefaultExport::Other(k) ==> k == kind,
        read_default(kind, res@),
{
    match into_default_class(kind) {
        Ok((class, is_declaration)) => {
            let class = class_from_oxc(alloc, class);
            if is_declaration {
                DefaultExport::ClassDecl(class)
            } else {
                DefaultExport::ClassExpr(class)
            }
        },
        Err(other) => DefaultExport::Other(other),
    }
}

fn stmt_from_oxc<'a>(alloc: &'a Allocator, node: Statement<'a>) -> (res: Stmt<'a>)
    ensures
        stmt_read(res),
        read_stmt(node, res@),
{
    match import_source(&node) {
        Some(source) => Stmt::Import { source, node },
        None => match into_class_declaration(node) {
            Ok(class) => Stmt::ClassDecl(class_from_oxc(alloc, class)),
            Err(node) => other_stmt_from_oxc(alloc, node),
        },
    }
}

fn other_stmt_from_oxc<'a>(alloc: &'a Allocator, node: Statement<'a>) -> (res: Stmt<'a>)
    requires
        import_source_of(node) is None,
    ensures
        stmt_read(res),
        !(res is Import),
        !(res is ClassDecl),
        res matches Stmt::Other(n) ==> n == node,
        read_stmt(node, res@),
{
    let ghost original = node;
    let mut node = node;
    match take_var_declarators(alloc, &mut node) {
        Some(items) => {
            let ghost ds = items@;
            let mut declarators: Vec<Declarator<'a>> = Vec::new();
            for item in it: items.into_iter()
                invariant
                    it.seq() == ds,
                    declarators@.len() == it.index(),
                    forall|i: int| 0 <= i < declarators@.len() ==> declarator_read(#[trigger] declarators@[i]),
                    forall|i: int| 0 <= i < declarators@.len() ==> read_declarator(ds[i], (#[trigger] declarators@[i])@),
            {
                declarators.push(declarator_from_oxc(alloc, item));
            }
            let res = Stmt::VarDecl { declarators, node };
            assert(read_stmt(original, res@)) by {
                assert forall|i: int| 0 <= i < ds.len() implies read_declarator(#[trigger] ds[i], declarators_view(declarators@)[i]) by {
                    assert(declarators_view(declarators@)[i] == declarators@[i]@);
                }
            }
            res
        },
        None => match take_export_named_class(&mut node) {
            Some(class) => Stmt::ExportNamedClass { class: class_from_oxc(alloc, class), node },
            None => match take_export_default(alloc, &mut node) {
                Some(kind) => Stmt::ExportDefault { decl: default_from_oxc(alloc, kind), node },
                None => Stmt::Other(node),
            },
        },
    }
}

/// Moves the top-level statements of a parsed program into the library's
/// tree, in order, leaving the program's body empty. Every statement is as
/// read from the source ([`stmt_read`]): none is one the transformation
/// makes.
pub fn module_from_program<'a>(
    alloc: &'a Allocator,
    program: &mut Program<'a>,
) -> (res: Module<'a>)
    ensures
        read_body(program_body(*old(program)), res@),
        program_body(*final(program)) == Seq::<Statement<'a>>::empty(),
        program_source(*final(program)) == program_source(*old(program)),
        forall|i: int| 0 <= i < res.body@.len() ==> stmt_read(#[trigger] res.body@[i]),
{
    let mut body: Vec<Stmt<'a>> = Vec::new();
    let statements = take_body(alloc, program);
    let ghost taken = statements@;
    for statement in it: statements.into_iter()
        invariant
            it.seq() == taken,
            body@.len() == it.index(),
            forall|i: int| 0 <= i < body@.len() ==> stmt_read(#[trigger] body@[i]),
            forall|i: int| 0 <= i < body@.len() ==> read_stmt(taken[i], #[trigger] body@[i]@),
    {
        body.push(stmt_from_oxc(alloc, statement));
    }
    let module = Module { body };
    assert(read_body(taken, module@)) by {
        assert forall|i: int| 0 <= i < taken.len() implies read_stmt(#[trigger] taken[i], module@[i]) by {
            assert(module@[i] == module.body@[i]@);
        }
    }
    module
}

// ---- back into `oxc` ---------------------------------------------------------

/// The `@depends("a", "b", ..)` decorator.
fn depends_decorator<'a>(alloc: &'a Allocator, args: &Vec<String>) -> (res: Decorator<'a>)
    ensures
        call_shape(decorator_expr(res)) == Some(depends_shape(strs_view(args@))),
{
    let ghost want = depends_shape(strs_view(args@)).args;
    let mut arguments: Vec<Argument<'a>> = Vec::new();
    let mut i: usize = 0;
    while i < args.len()
        invariant
            i <= args@.len(),
            want == strs_view(args@).map_values(|a: Seq<char>| ArgView::Str(a)),
            arguments@.len() == i,
            forall|j: int| 0 <= j < i ==> arg_view(#[trigger] arguments@[j]) == want[j],
        decreases args@.len() - i,
    {
        arguments.push(string_argument(alloc, args[i].as_str()));
        i = i + 1;
    }
    assert(arguments@.map_values(|a: Argument<'a>| arg_view(a)) =~= want);
    decorator(alloc, identifier_call(alloc, "depends", arguments))
}

fn deco_to_oxc<'a>(alloc: &'a Allocator, deco: Deco<'a>) -> (res: Decorator<'a>)
    ensures
        deco matches Deco::Written { node, .. } ==> res == node,
        decorator_built(deco@, decorator_expr(res)),
{
    match deco {
        Deco::Written { node, .. } => node,
        Deco::Depends(args) => depends_decorator(alloc, &args),
    }
}

fn decos_to_oxc<'a>(alloc: &'a Allocator, decos: Vec<Deco<'a>>) -> (res: Vec<Decorator<'a>>)
    ensures
        decorators_built(decos_view(decos@), res@),
        res@.len() == decos@.len(),
        forall|i: int|
            0 <= i < decos@.len() ==> ((#[trigger] decos@[i]) matches Deco::Written { node, .. }
                ==> res@[i] == node),
{
    let mut res: Vec<Decorator<'a>> = Vec::new();
    for deco in it: decos.into_iter()
        invariant
            it.seq() == decos@,
            res@.len() == it.index(),
            forall|i: int|
                0 <= i < it.index() ==> ((#[trigger] decos@[i]) matches Deco::Written { node, .. }
                    ==> res@[i] == node),
            forall|i: int| 0 <= i < it.index() ==> decorator_built((#[trigger] decos@[i])@, decorator_expr(res@[i])),
    {
        res.push(deco_to_oxc(alloc, deco));
    }
    assert(decorators_built(decos_view(decos@), res@)) by {
        assert forall|i: int| 0 <= i < decos@.len() implies {
            &&& decorator_built(#[trigger] decos_view(decos@)[i], decorator_expr(res@[i]))
            &&& (decos_view(decos@)[i] matches DecoView::Written { node, .. } ==> res@[i] == node)
        } by {
            assert(decos_view(decos@)[i] == decos@[i]@);
        }
    }
    res
}

fn param_to_oxc<'a>(alloc: &'a Allocator, param: Param<'a>) -> (res: FormalParameter<'a>)
    ensures
        decorators_built(param@.decorators, param_decorators(res)),
{
    let Param { decorators, node, .. } = param;
    let mut node = node;
    put_param_decorators(alloc, &mut node, decos_to_oxc(alloc, decorators));
    node
}

fn member_to_oxc<'a>(alloc: &'a Allocator, member: Member<'a>) -> (res: ClassElement<'a>)
    ensures
        member matches Member::Other(node) ==> res == node,
        member_built(member@, res),
{
    let ghost view = member@;
    match member {
        Member::Constructor { params, node } => {
            let ghost pv = params_view(params@);
            let ghost ps = params@;
            let mut node = node;
            let mut items: Vec<FormalParameter<'a>> = Vec::new();
            for param in it: params.into_iter()
                invariant
                    it.seq() == ps,
                    pv == params_view(ps),
                    items@.len() == it.index(),
                    forall|j: int| 0 <= j < items@.len() ==> decorators_built(pv[j].decorators, param_decorators(#[trigger] items@[j])),
            {
                items.push(param_to_oxc(alloc, param));
            }
            put_constructor_params(alloc, &mut node, items);
            node
        },
        Member::Other(node) => node,
    }
}

fn class_to_oxc<'a>(alloc: &'a Allocator, class: ClassNode<'a>) -> (res: Class<'a>)
    ensures
        class_built(class@, res),
{
    let ghost view = class@;
    let ClassNode { id, decorators, members, node } = class;
    let mut node = node;
    match id {
        Some(id) => put_class_id(&mut node, Some(id.node)),
        None => put_class_id(&mut node, None),
    }
    put_class_decorators(alloc, &mut node, decos_to_oxc(alloc, decorators));
    let ghost ms = members@;
    let mut elements: Vec<ClassElement<'a>> = Vec::new();
    for member in it: members.into_iter()
        invariant
            it.seq() == ms,
            view.members == members_view(ms),
            elements@.len() == it.index(),
            forall|i: int| 0 <= i < elements@.len() ==> member_built(view.members[i], #[trigger] elements@[i]),
    {
        elements.push(member_to_oxc(alloc, member));
    }
    put_class_elements(alloc, &mut node, elements);
    node
}

/// `$acd$(class, "<name>", [<decorators' expressions>])`.
fn apply_decorators_call<'a>(
    alloc: &'a Allocator,
    class: ClassNode<'a>,
    name: &str,
    decorators: Vec<Deco<'a>>,
) -> (res: Expression<'a>)
    ensures
        apply_built(class@, name@, decos_view(decorators@), res),
{
    let ghost ds = decos_view(decorators@);
    let ghost decos = decorators@;
    let mut elements: Vec<Expression<'a>> = Vec::new();
    for deco in it: decorators.into_iter()
        invariant
            it.seq() == decos,
            ds == decos_view(decos),
            elements@.len() == it.index(),
            forall|j: int| 0 <= j < it.index() ==> decorator_built(#[trigger] ds[j], elements@[j]),
    {
        elements.push(decorator_expression(deco_to_oxc(alloc, deco)));
    }
    let ghost class_view = class@;
    let built_class = class_to_oxc(alloc, class);
    let ghost k = built_class;
    let class_expr = class_expression(alloc, built_class);
    let ghost ce = class_expr;
    let name_expr = expr_string(alloc, name);
    let array = array_expression(alloc, elements);
    let ghost ae = array;
    let mut arguments: Vec<Argument<'a>> = Vec::new();
    arguments.push(expression_argument(class_expr));
    arguments.push(expression_argument(name_expr));
    arguments.push(expression_argument(array));
    let res = identifier_call(alloc, APPLY_CLASS_SIGIL, arguments);
    assert(arguments@.map_values(|a: Argument<'a>| arg_view(a)) =~= seq![ArgView::Other, ArgView::Str(name@), ArgView::Other]);
    assert(argument_expression(arguments@[0]) == Some(ce));
    assert(expression_class(ce) == Some(k));
    assert(argument_expression(arguments@[2]) == Some(ae));
    res
}

fn expr_to_oxc<'a>(alloc: &'a Allocator, expr: Expr<'a>) -> (res: Expression<'a>)
    ensures
        expr matches Expr::Other(e) ==> res == e,
        expr_built(expr@, res),
{
    match expr {
        Expr::Class(class) => class_expression(alloc, class_to_oxc(alloc, class)),
        Expr::ApplyDecorators { class, name, decorators } => {
            apply_decorators_call(alloc, class, name.as_str(), decorators)
        },
        Expr::Other(e) => e,
    }
}

fn declarator_to_oxc<'a>(alloc: &'a Allocator, declarator: Declarator<'a>) -> (res: VariableDeclarator<'a>)
    ensures
        declarator_built(declarator@, res),
{
    let Declarator { init, node } = declarator;
    let mut node = node;
    let init = match init {
        Some(e) => Some(expr_to_oxc(alloc, e)),
        None => None,
    };
    put_declarator_init(&mut node, init);
    node
}

fn stmt_to_oxc<'a>(alloc: &'a Allocator, stmt: Stmt<'a>) -> (res: Statement<'a>)
    ensures
        stmt matches Stmt::Import { node, .. } ==> res == node,
        stmt matches Stmt::Other(node) ==> res == node,
        stmt is PolyfillImport ==> helpers_import(res),
        stmt_built(stmt@, res),
{
    match stmt {
        Stmt::Import { node, .. } => node,
        Stmt::PolyfillImport => polyfill_import_statement(alloc),
        Stmt::ClassDecl(class) => class_declaration(alloc, class_to_oxc(alloc, class)),
        Stmt::ConstDecl { id, init } => {
            variable_statement(alloc, decl_variable(alloc, id.node, expr_to_oxc(alloc, init)))
        },
        Stmt::VarDecl { declarators, node } => {
            let ghost dv = declarators_view(declarators@);
            let ghost ds = declarators@;
            let mut node = node;
            let mut items: Vec<VariableDeclarator<'a>> = Vec::new();
            for declarator in it: declarators.into_iter()
                invariant
                    it.seq() == ds,
                    dv == declarators_view(ds),
                    items@.len() == it.index(),
                    forall|i: int| 0 <= i < items@.len() ==> declarator_built(dv[i], #[trigger] items@[i]),
            {
                items.push(declarator_to_oxc(alloc, declarator));
            }
            put_var_declarators(alloc, &mut node, items);
            node
        },
        Stmt::ExportNamedClass { class, node } => {
            let mut node = node;
            put_export_named_class(alloc, &mut node, class_to_oxc(alloc, class));
            node
        },
        Stmt::ExportDefault { decl, node } => {
            let mut node = node;
            let kind = match decl {
                DefaultExport::ClassDecl(class) => {
                    default_class_declaration(alloc, class_to_oxc(alloc, class))
                },
                DefaultExport::ClassExpr(class) => {
                    let built = class_to_oxc(alloc, class);
                    let ghost k = built;
                    let expr = class_expression(alloc, built);
                    assert(expression_class(expr) == Some(k));
                    default_expression(expr)
                },
                DefaultExport::Expr(e) => default_expression(expr_to_oxc(alloc, e)),
                DefaultExport::Other(kind) => kind,
            };
            put_export_default(&mut node, kind);
            node
        },
        Stmt::Other(node) => node,
    }
}

/// Puts the statements of the library's tree back into a program's body,
/// in order, building the nodes the transformation added.
pub fn module_into_program<'a>(alloc: &'a Allocator, program: &mut Program<'a>, module: Module<'a>)
    ensures
        built_body(module@, program_body(*final(program))),
        program_source(*final(program)) == program_source(*old(program)),
{
    let ghost view = module@;
    let ghost stmts = module.body@;
    let mut statements: Vec<Statement<'a>> = Vec::new();
    for stmt in it: module.body.into_iter()
        invariant
            it.seq() == stmts,
            view == stmts_view(stmts),
            statements@.len() == it.index(),
            forall|i: int| 0 <= i < statements@.len() ==> stmt_built(#[trigger] view[i], statements@[i]),
    {
        statements.push(stmt_to_oxc(alloc, stmt));
    }
    put_body(alloc, program, statements);
}

} // verus!
