//! The library's own syntax tree of a module: the statements, classes,
//! constructors, parameters and decorators that the transformation reads and
//! rewrites, each holding as plain values what the rules look at, and the
//! `oxc` node that carries the rest of it unchanged.
use vstd::prelude::*;
use oxc::ast::ast::{
    BindingIdentifier, Class, ClassElement, Decorator, ExportDefaultDeclarationKind, Expression,
    FormalParameter, Statement, VariableDeclarator,
};

verus! {

/// One argument of a decorator call: a string literal, or anything else.
pub enum Arg {
    Str(String),
    Other,
}

pub enum ArgView {
    Str(Seq<char>),
    Other,
}

impl View for Arg {
    type V = ArgView;

    open spec fn view(&self) -> ArgView {
        match self {
            Arg::Str(s) => ArgView::Str(s@),
            Arg::Other => ArgView::Other,
        }
    }
}

/// A decorator written as a call: the callee's name when the callee is a
/// plain identifier, and the arguments.
pub struct CallShape {
    pub callee: Option<String>,
    pub args: Vec<Arg>,
}

pub struct CallShapeView {
    pub callee: Option<Seq<char>>,
    pub args: Seq<ArgView>,
}

pub open spec fn opt_str_view(o: Option<String>) -> Option<Seq<char>> {
    match o {
        Some(s) => Some(s@),
        None => None,
    }
}

pub open spec fn strs_view(v: Seq<String>) -> Seq<Seq<char>> {
    v.map_values(|s: String| s@)
}

impl View for CallShape {
    type V = CallShapeView;

    open spec fn view(&self) -> CallShapeView {
        CallShapeView { callee: opt_str_view(self.callee), args: self.args@.map_values(|a: Arg| a@) }
    }
}

pub open spec fn opt_shape_view(o: Option<CallShape>) -> Option<CallShapeView> {
    match o {
        Some(c) => Some(c@),
        None => None,
    }
}

/// A decorator of a class or of a constructor parameter.
pub enum Deco<'a> {
    /// A decorator of the source: its name as `oxc` reports it
    /// (`Decorator::name`), its call shape when it is a call, and its node.
    Written { name: Option<String>, call: Option<CallShape>, node: Decorator<'a> },
    /// The decorator `@depends(..)` that the transformation adds, with the
    /// string arguments of the call. `oxc` gives a call of a plain
    /// identifier no name (`Decorator::name`), so this one has none either.
    Depends(Vec<String>),
}

pub enum DecoView<'a> {
    Written { name: Option<Seq<char>>, call: Option<CallShapeView>, node: Decorator<'a> },
    Depends(Seq<Seq<char>>),
}

impl<'a> View for Deco<'a> {
    type V = DecoView<'a>;

    open spec fn view(&self) -> DecoView<'a> {
        match self {
            Deco::Written { name, call, node } => DecoView::Written {
                name: opt_str_view(*name),
                call: opt_shape_view(*call),
                node: *node,
            },
            Deco::Depends(v) => DecoView::Depends(strs_view(v@)),
        }
    }
}

pub open spec fn decos_view<'a>(v: Seq<Deco<'a>>) -> Seq<DecoView<'a>> {
    v.map_values(|d: Deco<'a>| d@)
}

/// A formal parameter of a constructor: its decorators, the name of its type
/// when the type annotation is a type reference, and its node (without the
/// decorators).
pub struct Param<'a> {
    pub decorators: Vec<Deco<'a>>,
    pub type_ref: Option<String>,
    pub node: FormalParameter<'a>,
}

pub struct ParamView<'a> {
    pub decorators: Seq<DecoView<'a>>,
    pub type_ref: Option<Seq<char>>,
    pub node: FormalParameter<'a>,
}

impl<'a> View for Param<'a> {
    type V = ParamView<'a>;

    open spec fn view(&self) -> ParamView<'a> {
        ParamView {
            decorators: decos_view(self.decorators@),
            type_ref: opt_str_view(self.type_ref),
            node: self.node,
        }
    }
}

pub open spec fn params_view<'a>(v: Seq<Param<'a>>) -> Seq<ParamView<'a>> {
    v.map_values(|p: Param<'a>| p@)
}

/// An element of a class body: a constructor with its parameters taken out
/// of the node, or any other element.
pub enum Member<'a> {
    Constructor { params: Vec<Param<'a>>, node: ClassElement<'a> },
    Other(ClassElement<'a>),
}

pub enum MemberView<'a> {
    Constructor { params: Seq<ParamView<'a>>, node: ClassElement<'a> },
    Other(ClassElement<'a>),
}

impl<'a> View for Member<'a> {
    type V = MemberView<'a>;

    open spec fn view(&self) -> MemberView<'a> {
        match self {
            Member::Constructor { params, node } => MemberView::Constructor {
                params: params_view(params@),
                node: *node,
            },
            Member::Other(n) => MemberView::Other(*n),
        }
    }
}

pub open spec fn members_view<'a>(v: Seq<Member<'a>>) -> Seq<MemberView<'a>> {
    v.map_values(|m: Member<'a>| m@)
}

/// The name of a class with its binding identifier.
pub struct ClassId<'a> {
    pub name: String,
    pub node: BindingIdentifier<'a>,
}

pub struct ClassIdView<'a> {
    pub name: Seq<char>,
    pub node: BindingIdentifier<'a>,
}

impl<'a> View for ClassId<'a> {
    type V = ClassIdView<'a>;

    open spec fn view(&self) -> ClassIdView<'a> {
        ClassIdView { name: self.name@, node: self.node }
    }
}

pub open spec fn opt_id_view<'a>(o: Option<ClassId<'a>>) -> Option<ClassIdView<'a>> {
    match o {
        Some(i) => Some(i@),
        None => None,
    }
}

/// A class: its name, its decorators, its body elements, and its node
/// (without name, decorators and body elements).
pub struct ClassNode<'a> {
    pub id: Option<ClassId<'a>>,
    pub decorators: Vec<Deco<'a>>,
    pub members: Vec<Member<'a>>,
    pub node: Class<'a>,
}

pub struct ClassView<'a> {
    pub id: Option<ClassIdView<'a>>,
    pub decorators: Seq<DecoView<'a>>,
    pub members: Seq<MemberView<'a>>,
    pub node: Class<'a>,
}

impl<'a> View for ClassNode<'a> {
    type V = ClassView<'a>;

    open spec fn view(&self) -> ClassView<'a> {
        ClassView {
            id: opt_id_view(self.id),
            decorators: decos_view(self.decorators@),
            members: members_view(self.members@),
            node: self.node,
        }
    }
}

/// An expression: a class expression, the call that applies decorators to a
/// class (`$acd$(class, "Name", [decorators])`), or any other expression.
pub enum Expr<'a> {
    Class(ClassNode<'a>),
    ApplyDecorators { class: ClassNode<'a>, name: String, decorators: Vec<Deco<'a>> },
    Other(Expression<'a>),
}

pub enum ExprView<'a> {
    Class(ClassView<'a>),
    ApplyDecorators { class: ClassView<'a>, name: Seq<char>, decorators: Seq<DecoView<'a>> },
    Other(Expression<'a>),
}

impl<'a> View for Expr<'a> {
    type V = ExprView<'a>;

    open spec fn view(&self) -> ExprView<'a> {
        match self {
            Expr::Class(c) => ExprView::Class(c@),
            Expr::ApplyDecorators { class, name, decorators } => ExprView::ApplyDecorators {
                class: class@,
                name: name@,
                decorators: decos_view(decorators@),
            },
            Expr::Other(e) => ExprView::Other(*e),
        }
    }
}

pub open spec fn opt_expr_view<'a>(o: Option<Expr<'a>>) -> Option<ExprView<'a>> {
    match o {
        Some(e) => Some(e@),
        None => None,
    }
}

/// One declarator of a variable declaration: its initializer, and its node
/// (without the initializer).
pub struct Declarator<'a> {
    pub init: Option<Expr<'a>>,
    pub node: VariableDeclarator<'a>,
}

pub struct DeclaratorView<'a> {
    pub init: Option<ExprView<'a>>,
    pub node: VariableDeclarator<'a>,
}

impl<'a> View for Declarator<'a> {
    type V = DeclaratorView<'a>;

    open spec fn view(&self) -> DeclaratorView<'a> {
        DeclaratorView { init: opt_expr_view(self.init), node: self.node }
    }
}

pub open spec fn declarators_view<'a>(v: Seq<Declarator<'a>>) -> Seq<DeclaratorView<'a>> {
    v.map_values(|d: Declarator<'a>| d@)
}

/// What an `export default` exports.
pub enum DefaultExport<'a> {
    ClassDecl(ClassNode<'a>),
    ClassExpr(ClassNode<'a>),
    Expr(Expr<'a>),
    Other(ExportDefaultDeclarationKind<'a>),
}

pub enum DefaultExportView<'a> {
    ClassDecl(ClassView<'a>),
    ClassExpr(ClassView<'a>),
    Expr(ExprView<'a>),
    Other(ExportDefaultDeclarationKind<'a>),
}

impl<'a> View for DefaultExport<'a> {
    type V = DefaultExportView<'a>;

    open spec fn view(&self) -> DefaultExportView<'a> {
        match self {
            DefaultExport::ClassDecl(c) => DefaultExportView::ClassDecl(c@),
            DefaultExport::ClassExpr(c) => DefaultExportView::ClassExpr(c@),
            DefaultExport::Expr(e) => DefaultExportView::Expr(e@),
            DefaultExport::Other(k) => DefaultExportView::Other(*k),
        }
    }
}

/// A top-level statement of a module.
pub enum Stmt<'a> {
    /// An import declaration with its source, and its node.
    Import { source: String, node: Statement<'a> },
    /// The import of the runtime's polyfill helpers that the transformation adds.
    PolyfillImport,
    /// A class declaration.
    ClassDecl(ClassNode<'a>),
    /// `const <id> = <init>;`, made by the transformation from a decorated class.
    ConstDecl { id: ClassId<'a>, init: Expr<'a> },
    /// A variable declaration with its declarators, and its node (without them).
    VarDecl { declarators: Vec<Declarator<'a>>, node: Statement<'a> },
    /// `export class ..`, with the class taken out of the node.
    ExportNamedClass { class: ClassNode<'a>, node: Statement<'a> },
    /// `export default ..`, with what it exports taken out of the node.
    ExportDefault { decl: DefaultExport<'a>, node: Statement<'a> },
    /// Any other statement.
    Other(Statement<'a>),
}

pub enum StmtView<'a> {
    Import { source: Seq<char>, node: Statement<'a> },
    PolyfillImport,
    ClassDecl(ClassView<'a>),
    ConstDecl { id: ClassIdView<'a>, init: ExprView<'a> },
    VarDecl { declarators: Seq<DeclaratorView<'a>>, node: Statement<'a> },
    ExportNamedClass { class: ClassView<'a>, node: Statement<'a> },
    ExportDefault { decl: DefaultExportView<'a>, node: Statement<'a> },
    Other(Statement<'a>),
}

impl<'a> View for Stmt<'a> {
    type V = StmtView<'a>;

    open spec fn view(&self) -> StmtView<'a> {
        match self {
            Stmt::Import { source, node } => StmtView::Import { source: source@, node: *node },
            Stmt::PolyfillImport => StmtView::PolyfillImport,
            Stmt::ClassDecl(c) => StmtView::ClassDecl(c@),
            Stmt::ConstDecl { id, init } => StmtView::ConstDecl { id: id@, init: init@ },
            Stmt::VarDecl { declarators, node } => StmtView::VarDecl {
                declarators: declarators_view(declarators@),
                node: *node,
            },
            Stmt::ExportNamedClass { class, node } => StmtView::ExportNamedClass {
                class: class@,
                node: *node,
            },
            Stmt::ExportDefault { decl, node } => StmtView::ExportDefault {
                decl: decl@,
                node: *node,
            },
            Stmt::Other(s) => StmtView::Other(*s),
        }
    }
}

pub open spec fn stmts_view<'a>(v: Seq<Stmt<'a>>) -> Seq<StmtView<'a>> {
    v.map_values(|s: Stmt<'a>| s@)
}

/// The top-level statements of a module, in order.
pub struct Module<'a> {
    pub body: Vec<Stmt<'a>>,
}

impl<'a> View for Module<'a> {
    type V = Seq<StmtView<'a>>;

    open spec fn view(&self) -> Seq<StmtView<'a>> {
        stmts_view(self.body@)
    }
}

} // verus!
