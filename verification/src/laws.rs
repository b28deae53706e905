use crate::ast::{ExpressionView, StatementView};
use crate::builtin::builtin_value;
use crate::environment::{lemma_lookup_shift, lookup_from, EnvironmentView};
use crate::evaluator::{
    bind_parameters, depth_message, eval_block_spec, eval_call_spec, eval_expression_spec,
    eval_expressions_spec, eval_identifier_spec, eval_if_spec, eval_index_spec, eval_root_spec,
    eval_statement_spec, eval_statements_spec, unwrap_return, Outcomes, Step,
};
use crate::object::{Outcome, ValueView};
use vstd::prelude::*;

verus! {

/// A name that the scopes in front bind is found there, whatever scopes
/// stand behind them.
pub proof fn lookup_prefers_inner_scopes(
    front: Seq<Map<Seq<char>, ValueView>>,
    back: Seq<Map<Seq<char>, ValueView>>,
    i: int,
    name: Seq<char>,
)
    requires
        0 <= i,
        lookup_from(front, i, name) is Some,
    ensures
        lookup_from(front + back, i, name) == lookup_from(front, i, name),
    decreases front.len() - i,
{
    if i < front.len() {
        if !front[i].contains_key(name) {
            lookup_prefers_inner_scopes(front, back, i + 1, name);
        }
    }
}

/// A name that the scopes in front do not bind is looked up in the scopes
/// behind them.
pub proof fn lookup_passes_empty_scopes(
    front: Seq<Map<Seq<char>, ValueView>>,
    back: Seq<Map<Seq<char>, ValueView>>,
    i: int,
    name: Seq<char>,
)
    requires
        0 <= i <= front.len(),
        forall|k: int| i <= k < front.len() ==> !(#[trigger] front[k]).contains_key(name),
    ensures
        lookup_from(front + back, i, name) == lookup_from(back, 0, name),
    decreases front.len() - i,
{
    if i < front.len() {
        lookup_passes_empty_scopes(front, back, i + 1, name);
    } else {
        lemma_lookup_shift(front, back, 0, name);
    }
}

/// Built-in identifiers cannot be bound: `let` with the name of a built-in
/// identifier is an error in every environment, whatever its expression,
/// and leaves the environment as it was.
pub proof fn let_refuses_builtin_names(
    name: Seq<char>,
    e: ExpressionView,
    env: EnvironmentView,
    depth: nat,
)
    requires
        builtin_value(name) is Some,
    ensures
        eval_statement_spec(StatementView::Let(name, e), env, depth) == (Step {
            outcome: Outcome::Error("`"@ + name + "` is a built-in identifier"@),
            env,
        }),
{
}

/// A built-in identifier stands for its built-in value in every
/// environment: no scope, however deep, hides it.
pub proof fn builtins_are_found_in_every_environment(
    name: Seq<char>,
    env: EnvironmentView,
    depth: nat,
)
    requires
        builtin_value(name) is Some,
    ensures
        eval_expression_spec(ExpressionView::Identifier(name), env, depth) == Outcome::Value(
            builtin_value(name)->0,
        ),
{
}

/// The environment in which the body of a closure runs: a scope of its own,
/// inside the scope that binds the parameters, inside the scopes that the
/// closure captured, inside those of the caller.
pub open spec fn body_environment(
    frame: Map<Seq<char>, ValueView>,
    captured: EnvironmentView,
    caller: EnvironmentView,
) -> EnvironmentView {
    (EnvironmentView { scopes: seq![frame] + captured.scopes + caller.scopes }).child()
}

/// Lexical scoping: inside the body of a closure, a name that is no
/// parameter and that the captured environment binds stands for what the
/// captured environment binds it to, whatever the caller's environment
/// holds.
pub proof fn closure_resolves_names_where_it_was_made(
    frame: Map<Seq<char>, ValueView>,
    captured: EnvironmentView,
    caller: EnvironmentView,
    name: Seq<char>,
)
    requires
        !frame.contains_key(name),
        captured.lookup(name) is Some,
    ensures
        body_environment(frame, captured, caller).lookup(name) == captured.lookup(name),
        eval_identifier_spec(name, body_environment(frame, captured, caller))
            == eval_identifier_spec(name, captured),
{
    let front = seq![Map::<Seq<char>, ValueView>::empty(), frame];
    let scopes = body_environment(frame, captured, caller).scopes;
    assert(scopes =~= front + (captured.scopes + caller.scopes));
    lookup_passes_empty_scopes(front, captured.scopes + caller.scopes, 0, name);
    lookup_prefers_inner_scopes(captured.scopes, caller.scopes, 0, name);
}

/// Lexical scoping, seen from a call: a closure without parameters whose
/// body is the one name `name` gives what the environment of its making
/// binds `name` to, in every environment from which it is called.
pub proof fn call_gives_the_captured_binding(
    function: Seq<char>,
    name: Seq<char>,
    captured: EnvironmentView,
    caller: EnvironmentView,
    depth: nat,
)
    requires
        depth > 0,
        builtin_value(function) is None,
        builtin_value(name) is None,
        caller.lookup(function) == Some(
            ValueView::Function(
                Seq::empty(),
                seq![StatementView::Expression(ExpressionView::Identifier(name))],
                captured,
            ),
        ),
        captured.lookup(name) is Some,
    ensures
        eval_expression_spec(
            ExpressionView::Call(Box::new(ExpressionView::Identifier(function)), Seq::empty()),
            caller,
            depth,
        ) == unwrap_return(Outcome::Value(captured.lookup(name)->0)),
{
    let body = seq![StatementView::Expression(ExpressionView::Identifier(name))];
    let call = ExpressionView::Call(Box::new(ExpressionView::Identifier(function)), Seq::empty());
    let frame = bind_parameters(Seq::empty(), Seq::empty(), 0);
    let call_env = EnvironmentView { scopes: seq![frame] + captured.scopes + caller.scopes };
    closure_resolves_names_where_it_was_made(frame, captured, caller, name);
    assert(eval_call_spec(call, caller, depth) == unwrap_return(
        eval_block_spec(body, call_env, (depth - 1) as nat),
    ));
    reveal_with_fuel(eval_statements_spec, 3);
}

/// Statements that all give values other than a pending `return` are
/// passed one after the other: what the first `i` of them come to decides
/// the environment and the value with which the rest goes on.
pub proof fn statements_continue_after_values(
    statements: Seq<StatementView>,
    env: EnvironmentView,
    depth: nat,
    j: int,
    i: int,
    last: ValueView,
)
    requires
        0 <= j <= i <= statements.len(),
        eval_statements_spec(statements.take(i), env, depth, j, last).outcome matches Outcome::Value(
            w,
        ) && !(w is Return),
    ensures
        ({
            let first = eval_statements_spec(statements.take(i), env, depth, j, last);
            eval_statements_spec(statements, env, depth, j, last) == eval_statements_spec(
                statements,
                first.env,
                depth,
                i,
                first.outcome->Value_0,
            )
        }),
    decreases i - j,
{
    if j < i {
        let step = eval_statement_spec(statements[j], env, depth);
        match step.outcome {
            Outcome::Value(v) => {
                if !(v is Return) {
                    statements_continue_after_values(statements, step.env, depth, j + 1, i, v);
                }
            },
            _ => {},
        }
    }
}

/// Return scoping in a block: where the statements before the `i`-th give
/// values other than a pending `return` and the `i`-th gives a pending
/// `return` of `v`, the block gives that pending `return`, marker and all,
/// whatever statements follow. So the first `return` that is reached
/// decides, and it is handed on through every block round it.
pub proof fn first_return_ends_a_block(
    statements: Seq<StatementView>,
    env: EnvironmentView,
    depth: nat,
    i: int,
    v: ValueView,
)
    requires
        0 <= i < statements.len(),
        eval_statements_spec(
            statements.take(i),
            env.child(),
            depth,
            0,
            ValueView::Null,
        ).outcome matches Outcome::Value(w) && !(w is Return),
        eval_statement_spec(
            statements[i],
            eval_statements_spec(statements.take(i), env.child(), depth, 0, ValueView::Null).env,
            depth,
        ).outcome == Outcome::Value(ValueView::Return(Box::new(v))),
    ensures
        eval_block_spec(statements, env, depth) == Outcome::Value(ValueView::Return(Box::new(v))),
{
    statements_continue_after_values(statements, env.child(), depth, 0, i, ValueView::Null);
}

/// Return scoping in a program: where the statements before the `i`-th give
/// values other than a pending `return` and the `i`-th gives a pending
/// `return` of `v`, the program gives `v` itself, whatever statements
/// follow.
pub proof fn first_return_ends_a_program(
    statements: Seq<StatementView>,
    env: EnvironmentView,
    depth: nat,
    i: int,
    v: ValueView,
)
    requires
        0 <= i < statements.len(),
        eval_statements_spec(statements.take(i), env, depth, 0, ValueView::Null).outcome matches Outcome::Value(
            w,
        ) && !(w is Return),
        eval_statement_spec(
            statements[i],
            eval_statements_spec(statements.take(i), env, depth, 0, ValueView::Null).env,
            depth,
        ).outcome == Outcome::Value(ValueView::Return(Box::new(v))),
    ensures
        eval_root_spec(statements, env, depth).outcome == Outcome::Value(v),
{
    statements_continue_after_values(statements, env, depth, 0, i, ValueView::Null);
}

/// A `return` statement gives a pending `return` of the value of its
/// expression, and of null where it has none.
pub proof fn return_statement_gives_its_payload(
    e: Option<ExpressionView>,
    env: EnvironmentView,
    depth: nat,
)
    ensures
        match e {
            None => eval_statement_spec(StatementView::Return(None), env, depth).outcome
                == Outcome::Value(ValueView::Return(Box::new(ValueView::Null))),
            Some(e) => eval_expression_spec(e, env, depth) matches Outcome::Value(v)
                ==> eval_statement_spec(StatementView::Return(Some(e)), env, depth).outcome
                == Outcome::Value(ValueView::Return(Box::new(v))),
        },
{
}

/// A pending `return` passes through a block that is a statement and
/// through a conditional: each gives what its block gives, marker and all.
pub proof fn pending_return_passes_through_nesting(
    condition: ExpressionView,
    if_value: Seq<StatementView>,
    else_value: Seq<StatementView>,
    env: EnvironmentView,
    depth: nat,
)
    ensures
        eval_statement_spec(
            StatementView::Expression(ExpressionView::Block(if_value)),
            env,
            depth,
        ).outcome == eval_block_spec(if_value, env, depth),
        eval_expression_spec(condition, env, depth) == Outcome::Value(ValueView::Bool(true))
            ==> eval_expression_spec(
            ExpressionView::If(Box::new(condition), if_value, Some(else_value)),
            env,
            depth,
        ) == eval_block_spec(if_value, env, depth),
        eval_expression_spec(condition, env, depth) == Outcome::Value(ValueView::Bool(false))
            ==> eval_expression_spec(
            ExpressionView::If(Box::new(condition), if_value, Some(else_value)),
            env,
            depth,
        ) == eval_block_spec(else_value, env, depth),
{
    reveal_with_fuel(eval_if_spec, 2);
    reveal_with_fuel(eval_expression_spec, 2);
}

/// Whether an outcome is the error of a call that went too deep.
pub open spec fn too_deep(o: Outcome) -> bool {
    o == Outcome::Error(depth_message())
}

/// The limit on the depth of calls matters only where it is hit: what an
/// expression comes to with `depth` calls allowed, it comes to with one
/// more allowed as well, unless it is the error of a call that went too
/// deep.
pub proof fn deeper_calls_change_nothing_else(e: ExpressionView, env: EnvironmentView, depth: nat)
    ensures
        !too_deep(eval_expression_spec(e, env, depth)) ==> eval_expression_spec(e, env, depth + 1)
            == eval_expression_spec(e, env, depth),
    decreases depth, e, 1nat,
{
    match e {
        ExpressionView::Array(elements) => {
            deeper_calls_in_lists(elements, env, depth, 0, Seq::empty());
        },
        ExpressionView::Block(statements) => {
            deeper_calls_in_blocks(statements, env, depth);
        },
        ExpressionView::Unary(_, operand) => {
            deeper_calls_change_nothing_else(*operand, env, depth);
        },
        ExpressionView::Binary(_, left, right) => {
            deeper_calls_change_nothing_else(*left, env, depth);
            deeper_calls_change_nothing_else(*right, env, depth);
        },
        ExpressionView::Index(_, _) => {
            deeper_calls_in_indexing(e, env, depth);
        },
        ExpressionView::Call(_, _) => {
            deeper_calls_in_calls(e, env, depth);
        },
        ExpressionView::If(_, _, _) => {
            deeper_calls_in_conditionals(e, env, depth);
        },
        _ => {},
    }
}

/// The same of an index expression.
pub proof fn deeper_calls_in_indexing(e: ExpressionView, env: EnvironmentView, depth: nat)
    requires
        e is Index,
    ensures
        !too_deep(eval_index_spec(e, env, depth)) ==> eval_index_spec(e, env, depth + 1)
            == eval_index_spec(e, env, depth),
    decreases depth, e, 0nat,
{
    deeper_calls_change_nothing_else(*e->Index_0, env, depth);
    deeper_calls_change_nothing_else(*e->Index_1, env, depth);
}

/// The same of a conditional.
pub proof fn deeper_calls_in_conditionals(e: ExpressionView, env: EnvironmentView, depth: nat)
    requires
        e is If,
    ensures
        !too_deep(eval_if_spec(e, env, depth)) ==> eval_if_spec(e, env, depth + 1) == eval_if_spec(
            e,
            env,
            depth,
        ),
    decreases depth, e, 0nat,
{
    deeper_calls_change_nothing_else(*e->If_0, env, depth);
    deeper_calls_in_blocks(e->If_1, env, depth);
    if let Some(statements) = e->If_2 {
        deeper_calls_in_blocks(statements, env, depth);
    }
}

/// The same of a call.
pub proof fn deeper_calls_in_calls(e: ExpressionView, env: EnvironmentView, depth: nat)
    requires
        e is Call,
    ensures
        !too_deep(eval_call_spec(e, env, depth)) ==> eval_call_spec(e, env, depth + 1)
            == eval_call_spec(e, env, depth),
    decreases depth, e, 0nat,
{
    let arguments = e->Call_1;
    deeper_calls_in_lists(arguments, env, depth, 0, Seq::empty());
    if depth > 0 {
        let values = eval_expressions_spec(arguments, env, depth, 0, Seq::empty());
        if let Outcomes::Values(values) = values {
            let function = match *e->Call_0 {
                ExpressionView::Function(parameters, body) => Outcome::Value(
                    ValueView::Function(parameters, body, env),
                ),
                ExpressionView::Identifier(name) => eval_identifier_spec(name, env),
                _ => Outcome::Floating,
            };
            if let Outcome::Value(ValueView::Function(parameters, body, captured)) = function {
                let frame = bind_parameters(parameters, values, values.len() as int);
                deeper_calls_in_blocks(
                    body,
                    EnvironmentView { scopes: seq![frame] + captured.scopes + env.scopes },
                    (depth - 1) as nat,
                );
            }
        }
    }
}

/// The same of the expressions of a list.
pub proof fn deeper_calls_in_lists(
    es: Seq<ExpressionView>,
    env: EnvironmentView,
    depth: nat,
    i: int,
    acc: Seq<ValueView>,
)
    ensures
        eval_expressions_spec(es, env, depth, i, acc) != Outcomes::Error(depth_message())
            ==> eval_expressions_spec(es, env, depth + 1, i, acc) == eval_expressions_spec(
            es,
            env,
            depth,
            i,
            acc,
        ),
    decreases depth, es, es.len() - i,
{
    if 0 <= i < es.len() {
        deeper_calls_change_nothing_else(es[i], env, depth);
        if let Outcome::Value(v) = eval_expression_spec(es[i], env, depth) {
            deeper_calls_in_lists(es, env, depth, i + 1, acc.push(v));
        }
    }
}

/// The same of a block.
pub proof fn deeper_calls_in_blocks(statements: Seq<StatementView>, env: EnvironmentView, depth: nat)
    ensures
        !too_deep(eval_block_spec(statements, env, depth)) ==> eval_block_spec(
            statements,
            env,
            depth + 1,
        ) == eval_block_spec(statements, env, depth),
    decreases depth, statements, statements.len() + 1,
{
    deeper_calls_in_statements(statements, env.child(), depth, 0, ValueView::Null);
}

/// The same of statements, and of the environment after them.
pub proof fn deeper_calls_in_statements(
    statements: Seq<StatementView>,
    env: EnvironmentView,
    depth: nat,
    i: int,
    last: ValueView,
)
    ensures
        !too_deep(eval_statements_spec(statements, env, depth, i, last).outcome)
            ==> eval_statements_spec(statements, env, depth + 1, i, last) == eval_statements_spec(
            statements,
            env,
            depth,
            i,
            last,
        ),
    decreases depth, statements, statements.len() - i,
{
    if 0 <= i < statements.len() {
        deeper_calls_in_a_statement(statements[i], env, depth);
        let step = eval_statement_spec(statements[i], env, depth);
        if let Outcome::Value(v) = step.outcome {
            if !(v is Return) {
                deeper_calls_in_statements(statements, step.env, depth, i + 1, v);
            }
        }
    }
}

/// The same of a statement, and of the environment after it.
pub proof fn deeper_calls_in_a_statement(s: StatementView, env: EnvironmentView, depth: nat)
    ensures
        !too_deep(eval_statement_spec(s, env, depth).outcome) ==> eval_statement_spec(
            s,
            env,
            depth + 1,
        ) == eval_statement_spec(s, env, depth),
    decreases depth, s, 0nat,
{
    match s {
        StatementView::Let(_, e) => {
            deeper_calls_change_nothing_else(e, env, depth);
        },
        StatementView::Return(Some(e)) => {
            deeper_calls_change_nothing_else(e, env, depth);
        },
        StatementView::Return(None) => {},
        StatementView::Expression(e) => {
            deeper_calls_change_nothing_else(e, env, depth);
        },
    }
}

/// The same of a program.
pub proof fn deeper_calls_in_programs(statements: Seq<StatementView>, env: EnvironmentView, depth: nat)
    ensures
        !too_deep(eval_root_spec(statements, env, depth).outcome) ==> eval_root_spec(
            statements,
            env,
            depth + 1,
        ) == eval_root_spec(statements, env, depth),
{
    deeper_calls_in_statements(statements, env, depth, 0, ValueView::Null);
}

} // verus!
