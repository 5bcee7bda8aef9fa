//! The rule orchestrator: queries one expression statement, combines
//! promise-value inference and handled-chain resolution into the signal
//! decision, renders the diagnostic, and builds the rewrite.
//!
//! The query matches only statements whose expression is directly a call;
//! `await expr`, `void expr`, and `return expr` wrap the call in an outer
//! construct and so never match, which is how those accepted patterns are
//! excused without explicit case logic.

use vstd::prelude::*;

use crate::ast::Expression;
use crate::ast::ExpressionStatement;
use crate::ast::TextRange;
use crate::handled::is_handled_promise;
use crate::handled::spec_is_handled;
use crate::inference::is_callee_a_promise;
use crate::inference::spec_is_promise;
use crate::scope::is_in_async_function;
use crate::scope::spec_in_async_function;
use crate::semantic::SemanticModel;

verus! {

/// A violation signal. Its presence is the whole state of a finding.
#[derive(Debug, PartialEq, Eq)]
pub struct Signal {}

/// A rendered finding: the statement's source range, the primary message,
/// and the explanatory note.
#[derive(Debug, PartialEq, Eq)]
pub struct Diagnostic {
    pub range: TextRange,
    pub message: String,
    pub note: String,
}

/// How safe an automatic rewrite is to apply.
#[derive(Clone, Copy, PartialEq, Eq, Structural, Debug)]
pub enum FixSafety {
    Safe,
    Unsafe,
}

/// A requested rewrite: the node that replaces the statement's expression,
/// with the category, safety, and description under which the host offers
/// it.
#[derive(Debug, PartialEq, Eq)]
pub struct RewriteAction {
    pub replacement: Expression,
    pub category: String,
    pub safety: FixSafety,
    pub description: String,
}

/// The static facts the host reads about the rule: its name, the language
/// it applies to, its stability tier, whether it is enabled by default, how
/// safe its rewrite is, and the equivalent rule of an external linter.
#[derive(Debug, PartialEq, Eq)]
pub struct RuleMetadata {
    pub rule_name: String,
    pub language: String,
    pub version: String,
    pub recommended: bool,
    pub fix_safety: FixSafety,
    pub source_rule: String,
}

/// The rule's metadata: named `noFloatingPromises`, applying to TypeScript,
/// still experimental (`next`), disabled by default, offering an unsafe
/// rewrite, and mirroring the external `no-floating-promises` rule.
pub fn metadata() -> (m: RuleMetadata)
    ensures
        m.rule_name@ == "noFloatingPromises"@,
        m.language@ == "ts"@,
        m.version@ == "next"@,
        m.recommended == false,
        m.fix_safety == FixSafety::Unsafe,
        m.source_rule@ == "no-floating-promises"@,
{
    RuleMetadata {
        rule_name: "noFloatingPromises".to_owned(),
        language: "ts".to_owned(),
        version: "next".to_owned(),
        recommended: false,
        fix_safety: FixSafety::Unsafe,
        source_rule: "no-floating-promises".to_owned(),
    }
}

/// Whether a statement must be signaled as a floating promise: its
/// expression is directly a call, the call's callee denotes a
/// promise-returning callable, and the call is not an accepted handling
/// chain.
pub open spec fn spec_signals(stmt: ExpressionStatement, model: SemanticModel) -> bool {
    match stmt.expression {
        Expression::Call(call) => spec_is_promise(call.callee, model) && !spec_is_handled(*call),
        _ => false,
    }
}

/// The primary message of the diagnostic.
pub open spec fn spec_rule_message() -> Seq<char> {
    "A \"floating\" Promise was found, meaning it is not properly handled and could lead to ignored errors or unexpected behavior."@
}

/// The explanatory note of the diagnostic.
pub open spec fn spec_rule_note() -> Seq<char> {
    "This happens when a Promise is not awaited, lacks a `.catch` or `.then` rejection handler, or is not explicitly ignored using the `void` operator."@
}

/// The description under which the rewrite is offered.
pub open spec fn spec_fix_description() -> Seq<char> {
    "Add await operator."@
}

/// Evaluate the rule on one expression statement: a signal is returned
/// exactly when the statement is a floating promise.
pub fn evaluate(stmt: &ExpressionStatement, model: &SemanticModel) -> (r: Option<Signal>)
    ensures
        r is Some <==> spec_signals(*stmt, *model),
{
    match &stmt.expression {
        Expression::Call(call) => {
            if !is_callee_a_promise(&call.callee, model) {
                None
            } else if is_handled_promise(call) {
                None
            } else {
                Some(Signal {})
            }
        },
        _ => None,
    }
}

/// Render the diagnostic for a signaled statement: the statement's own
/// range, the primary message, and the note naming the accepted remedies.
pub fn diagnose(stmt: &ExpressionStatement) -> (d: Diagnostic)
    ensures
        d.range == stmt.range,
        d.message@ == spec_rule_message(),
        d.note@ == spec_rule_note(),
{
    Diagnostic {
        range: stmt.range,
        message: "A \"floating\" Promise was found, meaning it is not properly handled and could lead to ignored errors or unexpected behavior.".to_owned(),
        note: "This happens when a Promise is not awaited, lacks a `.catch` or `.then` rejection handler, or is not explicitly ignored using the `void` operator.".to_owned(),
    }
}

/// Build the rewrite for a signaled statement, when one may be offered: the
/// statement's expression wrapped in a new `await` expression. A rewrite is
/// offered exactly when the statement sits inside an asynchronous function,
/// since `await` is illegal elsewhere; it is marked unsafe because inserting
/// `await` changes control flow.
pub fn fix(stmt: ExpressionStatement) -> (r: Option<RewriteAction>)
    ensures
        r is Some <==> spec_in_async_function(stmt.ancestors@),
        r matches Some(action) ==> {
            &&& action.replacement matches Expression::Await(inner) && *inner == stmt.expression
            &&& action.category@ == "quick-fix"@
            &&& action.safety == FixSafety::Unsafe
            &&& action.description@ == spec_fix_description()
        },
{
    if !is_in_async_function(&stmt) {
        return None;
    }
    Some(
        RewriteAction {
            replacement: Expression::Await(Box::new(stmt.expression)),
            category: "quick-fix".to_owned(),
            safety: FixSafety::Unsafe,
            description: "Add await operator.".to_owned(),
        },
    )
}

} // verus!
