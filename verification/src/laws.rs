//! The rule's guarantees, stated and proved over the same spec functions
//! that the executable functions are verified against.

use vstd::prelude::*;

use crate::ast::Ancestor;
use crate::ast::CallExpression;
use crate::ast::Declaration;
use crate::ast::Expression;
use crate::ast::ExpressionStatement;
use crate::ast::StaticMemberExpression;
use crate::handled::spec_is_handled;
use crate::inference::spec_declaration_is_promise;
use crate::inference::spec_is_promise;
use crate::rule::spec_signals;
use crate::rule::RewriteAction;
use crate::scope::spec_ancestor_is_async;
use crate::scope::spec_in_async_function;
use crate::scope::spec_stops_scope_walk;
use crate::semantic::spec_resolve;
use crate::semantic::SemanticModel;

verus! {

/// Whether a callee resolves, directly or through one level of member-chain
/// nesting, to the given declaration: the callee is an identifier bound to
/// it, or a static member access whose object is a call whose own callee is
/// an identifier bound to it.
pub open spec fn spec_callee_resolves_to(
    callee: Expression,
    model: SemanticModel,
    declaration: Declaration,
) -> bool {
    match callee {
        Expression::Identifier { reference } => spec_resolve(model.bindings@, reference) == Some(
            declaration,
        ),
        Expression::StaticMember(member_expr) => match member_expr.object {
            Expression::Call(inner) => match inner.callee {
                Expression::Identifier { reference } => spec_resolve(model.bindings@, reference)
                    == Some(declaration),
                _ => false,
            },
            _ => false,
        },
        _ => false,
    }
}

/// Every statement whose call's callee resolves, directly or through one
/// level of member-chain nesting, to a promise-returning declaration, and
/// whose outer call is not closed by an accepted handling suffix, is
/// signaled.
pub proof fn lemma_floating_promise_is_signaled(
    stmt: ExpressionStatement,
    model: SemanticModel,
    call: CallExpression,
    declaration: Declaration,
)
    requires
        stmt.expression matches Expression::Call(c) && *c == call,
        spec_callee_resolves_to(call.callee, model, declaration),
        spec_declaration_is_promise(declaration),
        !spec_is_handled(call),
    ensures
        spec_signals(stmt, model),
{
    match call.callee {
        Expression::Identifier { reference } => {
            assert(spec_is_promise(call.callee, model));
        },
        Expression::StaticMember(member_expr) => {
            match member_expr.object {
                Expression::Call(inner) => {
                    assert(spec_is_promise(inner.callee, model));
                    assert(spec_is_promise(call.callee, model));
                },
                _ => {
                    assert(false);
                },
            }
        },
        _ => {
            assert(false);
        },
    }
}

/// A call of `then` with two or more arguments is a handled chain, so such
/// a statement is never flagged, whatever its object's promise-ness.
pub proof fn lemma_two_argument_then_is_not_flagged(
    stmt: ExpressionStatement,
    model: SemanticModel,
    call: CallExpression,
    member_expr: StaticMemberExpression,
)
    requires
        stmt.expression matches Expression::Call(c) && *c == call,
        call.callee matches Expression::StaticMember(m) && *m == member_expr,
        member_expr.member@ == "then"@,
        call.argument_count >= 2,
    ensures
        !spec_signals(stmt, model),
{
    reveal_strlit("then");
    reveal_strlit("catch");
    reveal_strlit("finally");
    assert(member_expr.member@.len() == 4);
    assert(spec_is_handled(call));
}

/// A call of `catch` with one or more arguments is a handled chain, so such
/// a statement is never flagged.
pub proof fn lemma_catch_with_argument_is_not_flagged(
    stmt: ExpressionStatement,
    model: SemanticModel,
    call: CallExpression,
    member_expr: StaticMemberExpression,
)
    requires
        stmt.expression matches Expression::Call(c) && *c == call,
        call.callee matches Expression::StaticMember(m) && *m == member_expr,
        member_expr.member@ == "catch"@,
        call.argument_count >= 1,
    ensures
        !spec_signals(stmt, model),
{
    reveal_strlit("catch");
    reveal_strlit("finally");
    assert(member_expr.member@.len() == 5);
    assert(spec_is_handled(call));
}

/// A call of `finally` inherits the handled verdict of the chain it closes:
/// when its receiver is a handled call, the whole call is handled, so a
/// chain such as `expr.then(a).catch(b).finally(c)` is never flagged.
pub proof fn lemma_finally_inherits_handled(
    call: CallExpression,
    member_expr: StaticMemberExpression,
    inner: CallExpression,
)
    requires
        call.callee matches Expression::StaticMember(m) && *m == member_expr,
        member_expr.member@ == "finally"@,
        member_expr.object matches Expression::Call(c) && *c == inner,
        spec_is_handled(inner),
    ensures
        spec_is_handled(call),
{
}

/// A bare `finally` closes nothing: when the receiver call's own callee is
/// not a member access (so no `then` or `catch` precedes), a promise-valued
/// `expr.finally(c)` statement is flagged.
pub proof fn lemma_bare_finally_is_flagged(
    stmt: ExpressionStatement,
    model: SemanticModel,
    call: CallExpression,
    member_expr: StaticMemberExpression,
    inner: CallExpression,
)
    requires
        stmt.expression matches Expression::Call(c) && *c == call,
        call.callee matches Expression::StaticMember(m) && *m == member_expr,
        member_expr.member@ == "finally"@,
        member_expr.object matches Expression::Call(c) && *c == inner,
        !(inner.callee matches Expression::StaticMember(_)),
        spec_is_promise(call.callee, model),
    ensures
        spec_signals(stmt, model),
{
    assert(!spec_is_handled(inner));
    assert(!spec_is_handled(call));
}

/// `await expr` and `void expr` statements never match the rule's query, so
/// they are never flagged, whatever `expr`'s promise-ness.
pub proof fn lemma_await_and_void_never_match(stmt: ExpressionStatement, model: SemanticModel)
    requires
        stmt.expression matches Expression::Await(_) || stmt.expression matches Expression::Void(
            _,
        ),
    ensures
        !spec_signals(stmt, model),
{
}

/// Applying the offered rewrite is idempotent: a statement whose expression
/// is the replacement that the rewrite built — the original expression
/// wrapped in `await` — produces no further signal.
pub proof fn lemma_rewrite_is_idempotent(
    action: RewriteAction,
    rewritten: ExpressionStatement,
    model: SemanticModel,
)
    requires
        action.replacement matches Expression::Await(_),
        rewritten.expression == action.replacement,
    ensures
        !spec_signals(rewritten, model),
{
}

/// The fix gate is decided by the nearest enclosing function-like ancestor
/// alone: where position `i` holds the first ancestor at which the scope
/// walk stops, the statement counts as inside an asynchronous function
/// exactly when that ancestor is asynchronous.
pub proof fn lemma_nearest_function_gates_fix(ancestors: Seq<Ancestor>, i: int)
    requires
        0 <= i < ancestors.len(),
        spec_stops_scope_walk(ancestors[i]),
        forall|j: int| 0 <= j < i ==> !spec_stops_scope_walk(ancestors[j]),
    ensures
        spec_in_async_function(ancestors) == spec_ancestor_is_async(ancestors[i]),
    decreases i,
{
    if i > 0 {
        assert forall|j: int| 0 <= j < i - 1 implies !spec_stops_scope_walk(
            ancestors.drop_first()[j],
        ) by {
            assert(ancestors.drop_first()[j] == ancestors[j + 1]);
        }
        assert(ancestors.drop_first()[i - 1] == ancestors[i]);
        lemma_nearest_function_gates_fix(ancestors.drop_first(), i - 1);
    }
}

/// A statement with no function-like ancestor — a top-level statement —
/// never counts as inside an asynchronous function, so it gets a diagnostic
/// with no fix.
pub proof fn lemma_top_level_statement_gets_no_fix(ancestors: Seq<Ancestor>)
    requires
        forall|j: int| 0 <= j < ancestors.len() ==> !spec_stops_scope_walk(ancestors[j]),
    ensures
        !spec_in_async_function(ancestors),
    decreases ancestors.len(),
{
    if ancestors.len() > 0 {
        assert forall|j: int| 0 <= j < ancestors.drop_first().len() implies !spec_stops_scope_walk(
            ancestors.drop_first()[j],
        ) by {
            assert(ancestors.drop_first()[j] == ancestors[j + 1]);
        }
        lemma_top_level_statement_gets_no_fix(ancestors.drop_first());
    }
}

/// An identifier reference with no binding never triggers a signal: a
/// failed resolution is treated as "not a promise".
pub proof fn lemma_unresolved_identifier_never_signals(
    stmt: ExpressionStatement,
    model: SemanticModel,
    call: CallExpression,
)
    requires
        stmt.expression matches Expression::Call(c) && *c == call,
        call.callee is Identifier,
        spec_resolve(model.bindings@, call.callee->reference) is None,
    ensures
        !spec_signals(stmt, model),
{
}

} // verus!
