//! End-to-end scenarios for the rule: which statements are signaled, which
//! are quiet, and what the offered rewrite looks like.

use no_floating_promises::ast::Ancestor;
use no_floating_promises::ast::CallExpression;
use no_floating_promises::ast::Declaration;
use no_floating_promises::ast::Expression;
use no_floating_promises::ast::ExpressionStatement;
use no_floating_promises::ast::FunctionSignature;
use no_floating_promises::ast::StaticMemberExpression;
use no_floating_promises::ast::TextRange;
use no_floating_promises::ast::TsName;
use no_floating_promises::ast::TsReturnType;
use no_floating_promises::ast::TsType;
use no_floating_promises::ast::VariableDeclarator;
use no_floating_promises::rule::evaluate;
use no_floating_promises::rule::fix;
use no_floating_promises::rule::FixSafety;
use no_floating_promises::semantic::BindingEntry;
use no_floating_promises::semantic::SemanticModel;

fn promise_type() -> TsType {
    TsType::Reference { name: TsName::Identifier(String::from("Promise")) }
}

/// `async function f(): Promise<string> { return 'v'; }`
fn async_promise_fn() -> Declaration {
    Declaration::Function(FunctionSignature {
        is_async: true,
        return_type: Some(TsReturnType::Type(promise_type())),
    })
}

fn model_with(reference: u64, declaration: Declaration) -> SemanticModel {
    SemanticModel { bindings: vec![BindingEntry { reference, declaration }] }
}

fn call_of(callee: Expression, argument_count: usize) -> Expression {
    Expression::Call(Box::new(CallExpression { callee, argument_count }))
}

fn member_of(object: Expression, member: &str) -> Expression {
    Expression::StaticMember(Box::new(StaticMemberExpression {
        object,
        member: String::from(member),
    }))
}

/// The call `f()`, with `f` bound under reference id 0.
fn f_call() -> Expression {
    call_of(Expression::Identifier { reference: 0 }, 0)
}

fn statement(expression: Expression) -> ExpressionStatement {
    ExpressionStatement {
        expression,
        range: TextRange { start: 0, end: 0 },
        ancestors: Vec::new(),
    }
}

fn statement_in(expression: Expression, ancestors: Vec<Ancestor>) -> ExpressionStatement {
    ExpressionStatement { expression, range: TextRange { start: 0, end: 0 }, ancestors }
}

#[test]
fn one_argument_then_is_flagged() {
    let model = model_with(0, async_promise_fn());
    let stmt = statement(call_of(member_of(f_call(), "then"), 1));
    assert!(evaluate(&stmt, &model).is_some());
}

#[test]
fn two_argument_then_is_quiet() {
    let model = model_with(0, async_promise_fn());
    let stmt = statement(call_of(member_of(f_call(), "then"), 2));
    assert!(evaluate(&stmt, &model).is_none());
}

#[test]
fn await_statement_is_quiet() {
    let model = model_with(0, async_promise_fn());
    let stmt = statement_in(
        Expression::Await(Box::new(f_call())),
        vec![Ancestor::FunctionDeclaration { is_async: true }],
    );
    assert!(evaluate(&stmt, &model).is_none());
}

#[test]
fn void_statement_is_quiet() {
    let model = model_with(0, async_promise_fn());
    let stmt = statement(Expression::Void(Box::new(call_of(
        member_of(f_call(), "then"),
        1,
    ))));
    assert!(evaluate(&stmt, &model).is_none());
}

#[test]
fn plain_function_is_quiet() {
    // `function g(): void {} g().then(() => {});` — g is neither async nor
    // Promise-typed.
    let model = model_with(
        0,
        Declaration::Function(FunctionSignature {
            is_async: false,
            return_type: Some(TsReturnType::Type(TsType::Other)),
        }),
    );
    let stmt = statement(call_of(member_of(f_call(), "then"), 1));
    assert!(evaluate(&stmt, &model).is_none());
}

#[test]
fn annotated_variable_is_flagged() {
    // `const h: () => Promise<string> = () => Promise.resolve('v');
    //  h().then(() => {});` — inference through the declared type.
    let model = model_with(
        0,
        Declaration::Variable(VariableDeclarator {
            initializer: Some(Expression::ArrowFunction(FunctionSignature {
                is_async: false,
                return_type: None,
            })),
            annotation: Some(TsType::Function {
                return_type: Box::new(TsReturnType::Type(promise_type())),
            }),
        }),
    );
    let stmt = statement(call_of(member_of(f_call(), "then"), 1));
    assert!(evaluate(&stmt, &model).is_some());
}

#[test]
fn async_initializer_is_flagged() {
    // `const h = async function (): Promise<string> { return 'v'; };
    //  h().then(() => {});` — inference through the initializer.
    let model = model_with(
        0,
        Declaration::Variable(VariableDeclarator {
            initializer: Some(Expression::FunctionExpression(FunctionSignature {
                is_async: true,
                return_type: None,
            })),
            annotation: None,
        }),
    );
    let stmt = statement(call_of(member_of(f_call(), "then"), 1));
    assert!(evaluate(&stmt, &model).is_some());
}

#[test]
fn promise_annotation_without_async_is_flagged() {
    // `function f(): Promise<string> { ... }` without `async` still counts.
    let model = model_with(
        0,
        Declaration::Function(FunctionSignature {
            is_async: false,
            return_type: Some(TsReturnType::Type(promise_type())),
        }),
    );
    let stmt = statement(call_of(member_of(f_call(), "then"), 1));
    assert!(evaluate(&stmt, &model).is_some());
}

#[test]
fn qualified_promise_name_is_quiet() {
    // A qualified name such as `ns.Promise` is never promise-relevant.
    let model = model_with(
        0,
        Declaration::Function(FunctionSignature {
            is_async: false,
            return_type: Some(TsReturnType::Type(TsType::Reference { name: TsName::Qualified })),
        }),
    );
    let stmt = statement(call_of(member_of(f_call(), "then"), 1));
    assert!(evaluate(&stmt, &model).is_none());
}

#[test]
fn catch_with_argument_is_quiet() {
    let model = model_with(0, async_promise_fn());
    let stmt = statement(call_of(member_of(f_call(), "catch"), 1));
    assert!(evaluate(&stmt, &model).is_none());
}

#[test]
fn catch_without_argument_is_flagged() {
    let model = model_with(0, async_promise_fn());
    let stmt = statement(call_of(member_of(f_call(), "catch"), 0));
    assert!(evaluate(&stmt, &model).is_some());
}

#[test]
fn then_catch_finally_chain_is_quiet() {
    // `f().then(a).catch(b).finally(c)` — finally inherits the handled
    // verdict of the chain it closes.
    let model = model_with(0, async_promise_fn());
    let then_call = call_of(member_of(f_call(), "then"), 1);
    let catch_call = call_of(member_of(then_call, "catch"), 1);
    let finally_call = call_of(member_of(catch_call, "finally"), 1);
    let stmt = statement(finally_call);
    assert!(evaluate(&stmt, &model).is_none());
}

#[test]
fn bare_finally_is_flagged() {
    // `f().finally(c)` with no preceding then/catch closes nothing.
    let model = model_with(0, async_promise_fn());
    let stmt = statement(call_of(member_of(f_call(), "finally"), 1));
    assert!(evaluate(&stmt, &model).is_some());
}

#[test]
fn unknown_member_call_is_flagged() {
    // An unknown chain call such as `f().map(x)` leaves the chain unhandled.
    let model = model_with(0, async_promise_fn());
    let stmt = statement(call_of(member_of(f_call(), "map"), 1));
    assert!(evaluate(&stmt, &model).is_some());
}

#[test]
fn unresolved_identifier_is_quiet() {
    let model = SemanticModel { bindings: Vec::new() };
    let stmt = statement(call_of(member_of(f_call(), "then"), 1));
    assert!(evaluate(&stmt, &model).is_none());
}

#[test]
fn other_declaration_is_quiet() {
    let model = model_with(0, Declaration::Other);
    let stmt = statement(call_of(member_of(f_call(), "then"), 1));
    assert!(evaluate(&stmt, &model).is_none());
}

#[test]
fn non_call_statement_is_quiet() {
    let model = model_with(0, async_promise_fn());
    let stmt = statement(Expression::Identifier { reference: 0 });
    assert!(evaluate(&stmt, &model).is_none());
}

#[test]
fn fix_wraps_expression_in_await() {
    // Fix applied to `f().then(() => {})` inside an async caller yields
    // `await f().then(() => {});`, and re-evaluating the rewritten statement
    // produces no further signal.
    let model = model_with(0, async_promise_fn());
    let ancestors = vec![Ancestor::FunctionDeclaration { is_async: true }];
    let stmt = statement_in(call_of(member_of(f_call(), "then"), 1), ancestors.clone());
    assert!(evaluate(&stmt, &model).is_some());

    let action = fix(stmt).expect("a rewrite is offered inside an async function");
    assert_eq!(
        action.replacement,
        Expression::Await(Box::new(call_of(member_of(f_call(), "then"), 1)))
    );
    assert_eq!(action.category, "quick-fix");
    assert_eq!(action.safety, FixSafety::Unsafe);
    assert_eq!(action.description, "Add await operator.");

    let rewritten = statement_in(action.replacement, ancestors);
    assert!(evaluate(&rewritten, &model).is_none());
}

#[test]
fn no_fix_at_top_level() {
    let stmt = statement(call_of(member_of(f_call(), "then"), 1));
    assert!(fix(stmt).is_none());
}

#[test]
fn no_fix_in_sync_function() {
    // The nearest enclosing function decides alone; an async function
    // further out is irrelevant.
    let stmt = statement_in(
        call_of(member_of(f_call(), "then"), 1),
        vec![
            Ancestor::FunctionDeclaration { is_async: false },
            Ancestor::FunctionDeclaration { is_async: true },
        ],
    );
    assert!(fix(stmt).is_none());
}

#[test]
fn fix_skips_non_function_ancestors() {
    let stmt = statement_in(
        call_of(member_of(f_call(), "then"), 1),
        vec![Ancestor::Other, Ancestor::ArrowFunction { is_async: true }],
    );
    assert!(fix(stmt).is_some());
}

#[test]
fn fix_in_async_class_method() {
    let stmt = statement_in(
        call_of(member_of(f_call(), "then"), 1),
        vec![Ancestor::ClassMethod { is_async: true }],
    );
    assert!(fix(stmt).is_some());
}

#[test]
fn fix_in_async_object_method() {
    let stmt = statement_in(
        call_of(member_of(f_call(), "then"), 1),
        vec![Ancestor::ObjectMethod { is_async: true }],
    );
    assert!(fix(stmt).is_some());
}

#[test]
fn function_expression_ancestor_does_not_stop_walk() {
    // The scope walk stops only at arrow functions, function declarations,
    // class methods, and object methods; a function expression is passed
    // over, async or not.
    let inside_async_expression = statement_in(
        call_of(member_of(f_call(), "then"), 1),
        vec![Ancestor::FunctionExpression { is_async: true }],
    );
    assert!(fix(inside_async_expression).is_none());

    let async_fn_beyond_expression = statement_in(
        call_of(member_of(f_call(), "then"), 1),
        vec![
            Ancestor::FunctionExpression { is_async: false },
            Ancestor::FunctionDeclaration { is_async: true },
        ],
    );
    assert!(fix(async_fn_beyond_expression).is_some());
}
