//! The types of the `oxc` crates that the library carries through its own
//! syntax tree without looking inside them.
use vstd::prelude::*;
use oxc::allocator::Allocator;
use oxc::ast::ast::{
    Argument, BindingIdentifier, VariableDeclaration, Class, ClassElement, Decorator, ExportDefaultDeclarationKind, Expression,
    FormalParameter, ImportDeclarationSpecifier, Program, Statement, VariableDeclarator,
};

verus! {

#[verifier::external_type_specification]
#[verifier::external_body]
pub struct ExAllocator(Allocator);

#[verifier::external_type_specification]
#[verifier::external_body]
pub struct ExProgram<'a>(Program<'a>);

#[verifier::external_type_specification]
#[verifier::external_body]
pub struct ExStatement<'a>(Statement<'a>);

#[verifier::external_type_specification]
#[verifier::external_body]
pub struct ExClass<'a>(Class<'a>);

#[verifier::external_type_specification]
#[verifier::external_body]
pub struct ExDecorator<'a>(Decorator<'a>);

#[verifier::external_type_specification]
#[verifier::external_body]
pub struct ExFormalParameter<'a>(FormalParameter<'a>);

#[verifier::external_type_specification]
#[verifier::external_body]
pub struct ExClassElement<'a>(ClassElement<'a>);

#[verifier::external_type_specification]
#[verifier::external_body]
pub struct ExBindingIdentifier<'a>(BindingIdentifier<'a>);

#[verifier::external_type_specification]
#[verifier::external_body]
pub struct ExExpression<'a>(Expression<'a>);

#[verifier::external_type_specification]
#[verifier::external_body]
pub struct ExVariableDeclarator<'a>(VariableDeclarator<'a>);

#[verifier::external_type_specification]
#[verifier::external_body]
pub struct ExExportDefaultDeclarationKind<'a>(ExportDefaultDeclarationKind<'a>);

#[verifier::external_type_specification]
#[verifier::external_body]
pub struct ExImportDeclarationSpecifier<'a>(ImportDeclarationSpecifier<'a>);

#[verifier::external_type_specification]
#[verifier::external_body]
pub struct ExArgument<'a>(Argument<'a>);

#[verifier::external_type_specification]
#[verifier::external_body]
pub struct ExVariableDeclaration<'a>(VariableDeclaration<'a>);

} // verus!
