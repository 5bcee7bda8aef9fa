//! Promise-value inference: whether a callee expression statically denotes a
//! promise-returning callable.
//!
//! Inference is fail-closed: any shape it does not positively recognize, any
//! reference it cannot resolve, and any malformed annotation all count as
//! "not a promise", so incomplete static information can only suppress a
//! signal, never invent one.

use vstd::prelude::*;

use crate::ast::name_eq;
use crate::ast::Declaration;
use crate::ast::Expression;
use crate::ast::FunctionSignature;
use crate::ast::StaticMemberExpression;
use crate::ast::TsName;
use crate::ast::TsReturnType;
use crate::ast::TsType;
use crate::ast::VariableDeclarator;
use crate::semantic::spec_resolve;
use crate::semantic::SemanticModel;

verus! {

/// Whether a type name is the plain identifier `Promise`. A qualified name
/// never qualifies.
pub open spec fn spec_name_is_promise(name: TsName) -> bool {
    name matches TsName::Identifier(s) && s@ == "Promise"@
}

/// Whether a type expression is a reference to the name `Promise` (generic
/// arguments are ignored, as they are not part of the model).
pub open spec fn spec_type_is_promise_reference(t: TsType) -> bool {
    t matches TsType::Reference { name } && spec_name_is_promise(name)
}

/// Whether a return-type annotation denotes `Promise`: the annotation must
/// be present, be an ordinary type expression, and be a named reference to
/// the plain identifier `Promise`. Failure at any unwrap step yields false.
pub open spec fn spec_return_annotation_is_promise(return_type: Option<TsReturnType>) -> bool {
    return_type matches Some(TsReturnType::Type(t)) && spec_type_is_promise_reference(t)
}

/// Whether a function-like signature is judged promise-returning: it carries
/// an asynchronous marker, or its return-type annotation denotes `Promise`.
pub open spec fn spec_function_is_promise(sig: FunctionSignature) -> bool {
    sig.is_async || spec_return_annotation_is_promise(sig.return_type)
}

/// Whether a variable declarator's initializer is a promise-returning
/// function-like value. Only arrow-function and function-expression
/// initializers are inspected; every other initializer shape yields false.
pub open spec fn spec_initializer_is_promise(declarator: VariableDeclarator) -> bool {
    match declarator.initializer {
        Some(Expression::ArrowFunction(sig)) => spec_function_is_promise(sig),
        Some(Expression::FunctionExpression(sig)) => spec_function_is_promise(sig),
        _ => false,
    }
}

/// Whether a variable declarator's own declared type is a function type
/// whose return type is a named reference to `Promise`.
pub open spec fn spec_annotation_is_promise(declarator: VariableDeclarator) -> bool {
    match declarator.annotation {
        Some(TsType::Function { return_type }) => match *return_type {
            TsReturnType::Type(t) => spec_type_is_promise_reference(t),
            _ => false,
        },
        _ => false,
    }
}

/// Whether a resolved declaration denotes a promise-returning callable.
pub open spec fn spec_declaration_is_promise(declaration: Declaration) -> bool {
    match declaration {
        Declaration::Function(sig) => spec_function_is_promise(sig),
        Declaration::Variable(declarator) => spec_initializer_is_promise(declarator)
            || spec_annotation_is_promise(declarator),
        Declaration::Other => false,
    }
}

/// Whether a callee expression statically denotes a promise-returning
/// callable: an identifier whose binding resolves to a promise-returning
/// declaration, or a static member access whose object is itself a call
/// whose callee does. Every other shape, and every failed resolution,
/// yields false.
pub open spec fn spec_is_promise(callee: Expression, model: SemanticModel) -> bool
    decreases callee,
{
    match callee {
        Expression::Identifier { reference } => match spec_resolve(model.bindings@, reference) {
            Some(declaration) => spec_declaration_is_promise(declaration),
            None => false,
        },
        Expression::StaticMember(member_expr) => spec_member_callee_is_promise(*member_expr, model),
        _ => false,
    }
}

/// Whether the object of a static member access is a call whose own callee
/// denotes a promise-returning callable; this classifies chains such as
/// `a().then(...)` through their leftmost call.
pub open spec fn spec_member_callee_is_promise(
    member_expr: StaticMemberExpression,
    model: SemanticModel,
) -> bool
    decreases member_expr,
{
    match member_expr.object {
        Expression::Call(call) => spec_is_promise(call.callee, model),
        _ => false,
    }
}

/// Whether a return-type annotation denotes `Promise`.
pub fn is_return_type_a_promise(return_type: &Option<TsReturnType>) -> (r: bool)
    ensures
        r == spec_return_annotation_is_promise(*return_type),
{
    match return_type {
        Some(TsReturnType::Type(TsType::Reference { name: TsName::Identifier(name) })) => name_eq(
            name,
            "Promise",
        ),
        _ => false,
    }
}

/// Whether a function-like signature is judged promise-returning.
pub fn is_function_a_promise(sig: &FunctionSignature) -> (r: bool)
    ensures
        r == spec_function_is_promise(*sig),
{
    sig.is_async || is_return_type_a_promise(&sig.return_type)
}

/// Whether a variable declarator's initializer is a promise-returning
/// arrow function or function expression.
pub fn is_variable_initializer_a_promise(declarator: &VariableDeclarator) -> (r: bool)
    ensures
        r == spec_initializer_is_promise(*declarator),
{
    match &declarator.initializer {
        Some(Expression::ArrowFunction(sig)) => is_function_a_promise(sig),
        Some(Expression::FunctionExpression(sig)) => is_function_a_promise(sig),
        _ => false,
    }
}

/// Whether a variable declarator's declared type is a function type
/// returning `Promise`.
pub fn is_variable_annotation_a_promise(declarator: &VariableDeclarator) -> (r: bool)
    ensures
        r == spec_annotation_is_promise(*declarator),
{
    match &declarator.annotation {
        Some(TsType::Function { return_type }) => match &**return_type {
            TsReturnType::Type(TsType::Reference { name: TsName::Identifier(name) }) => name_eq(
                name,
                "Promise",
            ),
            _ => false,
        },
        _ => false,
    }
}

/// Whether a callee expression statically denotes a promise-returning
/// callable, resolving identifier references through the semantic model.
pub fn is_callee_a_promise(callee: &Expression, model: &SemanticModel) -> (r: bool)
    ensures
        r == spec_is_promise(*callee, *model),
    decreases callee,
{
    match callee {
        Expression::Identifier { reference } => match model.resolve(*reference) {
            Some(declaration) => match declaration {
                Declaration::Function(sig) => is_function_a_promise(sig),
                Declaration::Variable(declarator) => is_variable_initializer_a_promise(declarator)
                    || is_variable_annotation_a_promise(declarator),
                Declaration::Other => false,
            },
            None => false,
        },
        Expression::StaticMember(member_expr) => is_member_expression_callee_a_promise(
            member_expr,
            model,
        ),
        _ => false,
    }
}

/// Whether the callee chained through a static member access denotes a
/// promise-returning callable.
pub fn is_member_expression_callee_a_promise(
    member_expr: &StaticMemberExpression,
    model: &SemanticModel,
) -> (r: bool)
    ensures
        r == spec_member_callee_is_promise(*member_expr, *model),
    decreases member_expr,
{
    match &member_expr.object {
        Expression::Call(call) => is_callee_a_promise(&call.callee, model),
        _ => false,
    }
}

} // verus!
