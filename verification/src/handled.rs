//! Handled-chain resolution: whether a call expression is already terminated
//! by an acceptable rejection-handling pattern.
//!
//! A chain is handled when it ends in `.then` with at least two arguments
//! (a fulfillment and a rejection handler), `.catch` with at least one
//! argument, or `.finally` whose receiver chain is itself handled. Argument
//! contents are deliberately not inspected, only their count.

use vstd::prelude::*;

use crate::ast::name_eq;
use crate::ast::CallExpression;
use crate::ast::Expression;

verus! {

/// Whether a call expression is terminated by an accepted rejection-handling
/// pattern. The callee must be a static member access; `.finally` defers to
/// the member's object when that object is itself a call, `.catch` accepts
/// one or more arguments, `.then` accepts two or more, and every other
/// property name leaves the chain unhandled.
pub open spec fn spec_is_handled(call: CallExpression) -> bool
    decreases call,
{
    match call.callee {
        Expression::StaticMember(member_expr) => if member_expr.member@ == "finally"@ {
            match member_expr.object {
                Expression::Call(inner) => spec_is_handled(*inner),
                _ => false,
            }
        } else if member_expr.member@ == "catch"@ {
            call.argument_count >= 1
        } else if member_expr.member@ == "then"@ {
            call.argument_count >= 2
        } else {
            false
        },
        _ => false,
    }
}

/// Whether a call expression is a handled promise chain.
pub fn is_handled_promise(call: &CallExpression) -> (r: bool)
    ensures
        r == spec_is_handled(*call),
    decreases call,
{
    match &call.callee {
        Expression::StaticMember(member_expr) => if name_eq(&member_expr.member, "finally") {
            match &member_expr.object {
                Expression::Call(inner) => is_handled_promise(inner),
                _ => false,
            }
        } else if name_eq(&member_expr.member, "catch") {
            call.argument_count >= 1
        } else if name_eq(&member_expr.member, "then") {
            call.argument_count >= 2
        } else {
            false
        },
        _ => false,
    }
}

} // verus!
