//! The enclosing-function scope finder: whether a statement lexically sits
//! inside an asynchronous function.
//!
//! The walk goes over the statement's ancestors, innermost first, and stops
//! at the first ancestor whose kind is an arrow function, a function
//! declaration, a class method, or an object method; enclosing functions
//! further out are irrelevant. The answer gates only fix eligibility, never
//! whether a diagnostic is raised.

use vstd::prelude::*;

use crate::ast::Ancestor;
use crate::ast::ExpressionStatement;

verus! {

/// Whether an ancestor has one of the kinds at which the scope walk stops.
pub open spec fn spec_stops_scope_walk(ancestor: Ancestor) -> bool {
    match ancestor {
        Ancestor::ArrowFunction { .. } => true,
        Ancestor::FunctionDeclaration { .. } => true,
        Ancestor::ClassMethod { .. } => true,
        Ancestor::ObjectMethod { .. } => true,
        _ => false,
    }
}

/// Whether an ancestor carries an asynchronous marker.
pub open spec fn spec_ancestor_is_async(ancestor: Ancestor) -> bool {
    match ancestor {
        Ancestor::ArrowFunction { is_async } => is_async,
        Ancestor::FunctionDeclaration { is_async } => is_async,
        Ancestor::FunctionExpression { is_async } => is_async,
        Ancestor::ClassMethod { is_async } => is_async,
        Ancestor::ObjectMethod { is_async } => is_async,
        Ancestor::Other => false,
    }
}

/// Whether an ancestor chain, innermost first, places a statement inside an
/// asynchronous function: true iff the first ancestor at which the scope
/// walk stops is asynchronous, and false when no ancestor stops the walk.
pub open spec fn spec_in_async_function(ancestors: Seq<Ancestor>) -> bool
    decreases ancestors.len(),
{
    if ancestors.len() == 0 {
        false
    } else if spec_stops_scope_walk(ancestors[0]) {
        spec_ancestor_is_async(ancestors[0])
    } else {
        spec_in_async_function(ancestors.drop_first())
    }
}

/// Whether an ancestor stops the scope walk.
fn stops_scope_walk(ancestor: &Ancestor) -> (r: bool)
    ensures
        r == spec_stops_scope_walk(*ancestor),
{
    match ancestor {
        Ancestor::ArrowFunction { .. } => true,
        Ancestor::FunctionDeclaration { .. } => true,
        Ancestor::ClassMethod { .. } => true,
        Ancestor::ObjectMethod { .. } => true,
        _ => false,
    }
}

/// Whether an ancestor is asynchronous.
fn ancestor_is_async(ancestor: &Ancestor) -> (r: bool)
    ensures
        r == spec_ancestor_is_async(*ancestor),
{
    match ancestor {
        Ancestor::ArrowFunction { is_async } => *is_async,
        Ancestor::FunctionDeclaration { is_async } => *is_async,
        Ancestor::FunctionExpression { is_async } => *is_async,
        Ancestor::ClassMethod { is_async } => *is_async,
        Ancestor::ObjectMethod { is_async } => *is_async,
        Ancestor::Other => false,
    }
}

/// Whether the statement lexically sits inside an asynchronous function.
pub fn is_in_async_function(stmt: &ExpressionStatement) -> (r: bool)
    ensures
        r == spec_in_async_function(stmt.ancestors@),
{
    let n = stmt.ancestors.len();
    let mut i: usize = 0;
    proof {
        assert(stmt.ancestors@.skip(0) =~= stmt.ancestors@);
    }
    while i < n
        invariant
            i <= n,
            n == stmt.ancestors@.len(),
            spec_in_async_function(stmt.ancestors@.skip(i as int)) == spec_in_async_function(
                stmt.ancestors@,
            ),
        decreases n - i,
    {
        let ancestor = &stmt.ancestors[i];
        assert(stmt.ancestors@.skip(i as int)[0] == stmt.ancestors@[i as int]);
        if stops_scope_walk(ancestor) {
            return ancestor_is_async(ancestor);
        }
        proof {
            assert(stmt.ancestors@.skip(i as int).drop_first() =~= stmt.ancestors@.skip(
                i as int + 1,
            ));
        }
        i = i + 1;
    }
    proof {
        assert(stmt.ancestors@.skip(n as int) =~= Seq::<Ancestor>::empty());
    }
    false
}

} // verus!
