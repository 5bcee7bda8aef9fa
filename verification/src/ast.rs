//! Read-only syntax values that the rule inspects.
//!
//! Each value mirrors one syntactic shape of the source program: expressions,
//! call chains, member accesses, function signatures, type annotations, and
//! the declarations that identifier references resolve to. The rule never
//! mutates these values; a rewrite is expressed as a newly built value.

use vstd::prelude::*;

verus! {

/// A named type expression, as it appears in a return-type position or a
/// variable's declared type.
#[derive(Debug, PartialEq, Eq)]
pub enum TsName {
    /// A plain identifier, such as `Promise`.
    Identifier(String),
    /// A qualified name, such as `ns.Promise`; never promise-relevant.
    Qualified,
}

/// A syntactic type expression. Only the shapes the rule inspects are kept
/// apart; everything else collapses into `Other`.
#[derive(Debug, PartialEq, Eq)]
pub enum TsType {
    /// A reference to a named type, such as `Promise<string>` (generic
    /// arguments are ignored).
    Reference { name: TsName },
    /// A function type, such as `() => Promise<string>`.
    Function { return_type: Box<TsReturnType> },
    /// Any other type expression; never promise-relevant.
    Other,
}

/// What stands in a function's return-type position.
#[derive(Debug, PartialEq, Eq)]
pub enum TsReturnType {
    /// An ordinary type expression.
    Type(TsType),
    /// A predicate or assertion return form; never promise-relevant.
    Other,
}

/// The promise-relevant part of a function-like value's signature: its
/// asynchronous marker and its optional return-type annotation.
#[derive(Debug, PartialEq, Eq)]
pub struct FunctionSignature {
    /// Whether the function carries an `async` marker.
    pub is_async: bool,
    /// The return-type annotation, if one is present and well formed.
    pub return_type: Option<TsReturnType>,
}

/// An expression. Only the shapes the rule distinguishes are kept apart;
/// unrecognized forms collapse into `Other` and are never judged promises.
#[derive(Debug, PartialEq, Eq)]
pub enum Expression {
    /// An identifier reference, carrying the opaque reference id under which
    /// the semantic model knows it.
    Identifier { reference: u64 },
    /// A call expression.
    Call(Box<CallExpression>),
    /// A static member access, such as `x.then`.
    StaticMember(Box<StaticMemberExpression>),
    /// An arrow function expression.
    ArrowFunction(FunctionSignature),
    /// A function expression.
    FunctionExpression(FunctionSignature),
    /// An `await` expression.
    Await(Box<Expression>),
    /// A `void` expression.
    Void(Box<Expression>),
    /// Any other expression shape.
    Other,
}

/// A call: a callee plus the length of its argument list. Argument contents
/// are never inspected, only their count.
#[derive(Debug, PartialEq, Eq)]
pub struct CallExpression {
    pub callee: Expression,
    pub argument_count: usize,
}

/// A static member access: an object expression and the accessed property
/// name.
#[derive(Debug, PartialEq, Eq)]
pub struct StaticMemberExpression {
    pub object: Expression,
    pub member: String,
}

/// Whether a name held in the tree equals a given literal name.
pub fn name_eq(name: &String, literal: &str) -> (r: bool)
    ensures
        r == (name@ == literal@),
{
    let other: String = literal.to_owned();
    *name == other
}

/// A variable declarator: its optional initializer expression and its
/// optional declared type.
#[derive(Debug, PartialEq, Eq)]
pub struct VariableDeclarator {
    pub initializer: Option<Expression>,
    pub annotation: Option<TsType>,
}

/// The declaring construct an identifier reference resolves to. Only
/// function declarations and variable declarators carry promise-relevant
/// information.
#[derive(Debug, PartialEq, Eq)]
pub enum Declaration {
    Function(FunctionSignature),
    Variable(VariableDeclarator),
    Other,
}

/// One ancestor node of a statement, innermost first, reduced to what the
/// scope finder reads: its kind and, for function-like kinds, whether it is
/// asynchronous.
#[derive(Debug, Clone, Copy, PartialEq, Eq)]
pub enum Ancestor {
    ArrowFunction { is_async: bool },
    FunctionDeclaration { is_async: bool },
    FunctionExpression { is_async: bool },
    ClassMethod { is_async: bool },
    ObjectMethod { is_async: bool },
    Other,
}

/// A half-open source range, in bytes.
#[derive(Debug, Clone, Copy, PartialEq, Eq, Structural)]
pub struct TextRange {
    pub start: u32,
    pub end: u32,
}

/// An expression statement under evaluation: its expression, its source
/// range, and its ancestor chain (innermost first).
#[derive(Debug, PartialEq, Eq)]
pub struct ExpressionStatement {
    pub expression: Expression,
    pub range: TextRange,
    pub ancestors: Vec<Ancestor>,
}

} // verus!
