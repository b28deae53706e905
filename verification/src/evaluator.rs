use crate::ast::{
    expressions_view, lemma_expression_view, names_view, statements_view, ArrayLiteralNode,
    BinaryExpressionNode, BlockExpressionNode, BooleanLiteralNode, CallExpressionNode,
    CharacterLiteralNode, ExpressionNode, ExpressionStatementNode, ExpressionView, FloatLiteralNode,
    FunctionLiteralNode, IdentifierNode, IfExpressionNode, IndexExpressionNode, IntegerLiteralNode,
    LetStatementNode, Node, NodeView, ReturnStatementNode, RootNode, StatementNode, StatementView,
    StringLiteralNode, UnaryExpressionNode,
};
use crate::builtin::{builtin_call_spec, builtin_value, Builtin};
use crate::environment::{Environment, EnvironmentView};
use crate::host::{Arithmetic, Comparison, Host};
use crate::object::{
    lemma_value_view, outcome_matches, parameters_of, values_view, Array, Bool, Char, Float,
    Function, FunctionBase, Indexable, Int, Null, Object, Outcome, ReturnValue, Str, ValueView,
};
use crate::operator::{
    arithmetic_spec, binary_and, binary_and_spec, binary_asterisk, binary_eq, binary_gt,
    binary_gteq, binary_lt, binary_lteq, binary_minus, binary_noteq, binary_or, binary_or_spec,
    binary_percent, binary_plus, binary_power, binary_slash, comparison_spec, unary_invert,
    unary_invert_spec, unary_minus, unary_minus_spec,
};
use crate::text::{concat3, rc_clone};
use crate::token::{token_debug_text, Token, TokenKind, TokenView};
use std::rc::Rc;
use vstd::prelude::*;
use vstd::string::{StrSliceExecFns, StringExecFns};

verus! {

pub type EvalResult = Result<Rc<Object>, String>;

/// What a statement comes to, and the environment after it.
pub ghost struct Step {
    pub outcome: Outcome,
    pub env: EnvironmentView,
}

/// What a list of expressions comes to: their values, an error message, or
/// `Floating` as for a single expression.
pub ghost enum Outcomes {
    Values(Seq<ValueView>),
    Error(Seq<char>),
    Floating,
}

/// The marker of a pending `return` at the place where it is taken off: a
/// call, or the end of the program.
pub open spec fn unwrap_return(o: Outcome) -> Outcome {
    match o {
        Outcome::Value(ValueView::Return(v)) => Outcome::Value(*v),
        o => o,
    }
}

/// What a prefix operator gives for a value.
pub open spec fn unary_spec(operator: TokenView, v: ValueView) -> Outcome {
    match operator.kind {
        TokenKind::Minus => unary_minus_spec(v),
        TokenKind::Invert => unary_invert_spec(v),
        _ => Outcome::Error("unknown unary operator: `"@ + token_debug_text(operator) + "`"@),
    }
}

/// What an infix operator gives for two values.
pub open spec fn binary_spec(operator: TokenView, left: ValueView, right: ValueView) -> Outcome {
    match operator.kind {
        TokenKind::Plus => arithmetic_spec(Arithmetic::Add, left, right),
        TokenKind::Minus => arithmetic_spec(Arithmetic::Subtract, left, right),
        TokenKind::Asterisk => arithmetic_spec(Arithmetic::Multiply, left, right),
        TokenKind::Slash => arithmetic_spec(Arithmetic::Divide, left, right),
        TokenKind::Percent => arithmetic_spec(Arithmetic::Remainder, left, right),
        TokenKind::Power => arithmetic_spec(Arithmetic::Power, left, right),
        TokenKind::Eq => comparison_spec(Comparison::Equal, left, right),
        TokenKind::NotEq => comparison_spec(Comparison::NotEqual, left, right),
        TokenKind::Lt => comparison_spec(Comparison::Less, left, right),
        TokenKind::Gt => comparison_spec(Comparison::Greater, left, right),
        TokenKind::LtEq => comparison_spec(Comparison::LessOrEqual, left, right),
        TokenKind::GtEq => comparison_spec(Comparison::GreaterOrEqual, left, right),
        TokenKind::And => binary_and_spec(left, right),
        TokenKind::Or => binary_or_spec(left, right),
        _ => Outcome::Error("unknown binary operator: `"@ + token_debug_text(operator) + "`"@),
    }
}

/// What a name stands for: a built-in identifier first, then the binding of
/// the innermost scope that holds the name.
pub open spec fn eval_identifier_spec(name: Seq<char>, env: EnvironmentView) -> Outcome {
    match builtin_value(name) {
        Some(v) => Outcome::Value(v),
        None => match env.lookup(name) {
            Some(v) => Outcome::Value(v),
            None => Outcome::Error("`"@ + name + "` is not defined"@),
        },
    }
}

/// The element of an array, or the character of a string, at an index.
pub open spec fn index_spec(array: ValueView, index: ValueView) -> Outcome {
    match index {
        ValueView::Int(i) => if i < 0 {
            Outcome::Error("negative array index not allowed"@)
        } else {
            match array {
                ValueView::Array(elements) => if i >= elements.len() {
                    Outcome::Error("array index out of bounds"@)
                } else {
                    Outcome::Value(elements[i as int])
                },
                ValueView::Str(s) => if i >= s.len() {
                    Outcome::Error("array index out of bounds"@)
                } else {
                    Outcome::Value(ValueView::Char(s[i as int]))
                },
                _ => arbitrary(),
            }
        },
        _ => Outcome::Error("non-integer array index found"@),
    }
}

/// The scope that binds the first `n` of the names to the values: where a
/// name occurs twice, the later binding counts.
pub open spec fn bind_parameters(names: Seq<Seq<char>>, values: Seq<ValueView>, n: int) -> Map<
    Seq<char>,
    ValueView,
>
    decreases n,
{
    if n <= 0 {
        Map::empty()
    } else {
        bind_parameters(names, values, n - 1).insert(names[n - 1], values[n - 1])
    }
}

/// The message for a call that goes deeper than the evaluator allows.
pub open spec fn depth_message() -> Seq<char> {
    "call depth limit exceeded"@
}

/// What an expression comes to in an environment, with `depth` calls of
/// closures allowed inside one another.
pub open spec fn eval_expression_spec(e: ExpressionView, env: EnvironmentView, depth: nat) -> Outcome
    decreases depth, e, 1nat,
{
    match e {
        ExpressionView::Identifier(name) => eval_identifier_spec(name, env),
        ExpressionView::Integer(i) => Outcome::Value(ValueView::Int(i)),
        ExpressionView::Float(_) => Outcome::Value(ValueView::Float),
        ExpressionView::Boolean(b) => Outcome::Value(ValueView::Bool(b)),
        ExpressionView::Character(c) => Outcome::Value(ValueView::Char(c)),
        ExpressionView::Str(s) => Outcome::Value(ValueView::Str(s)),
        ExpressionView::Array(elements) => match eval_expressions_spec(
            elements,
            env,
            depth,
            0,
            Seq::empty(),
        ) {
            Outcomes::Values(values) => Outcome::Value(ValueView::Array(values)),
            Outcomes::Error(m) => Outcome::Error(m),
            Outcomes::Floating => Outcome::Floating,
        },
        ExpressionView::Function(parameters, body) => Outcome::Value(
            ValueView::Function(parameters, body, env),
        ),
        ExpressionView::Block(statements) => eval_block_spec(statements, env, depth),
        ExpressionView::Unary(operator, operand) => match eval_expression_spec(
            *operand,
            env,
            depth,
        ) {
            Outcome::Value(v) => unary_spec(operator, v),
            o => o,
        },
        ExpressionView::Binary(operator, left, right) => match eval_expression_spec(
            *left,
            env,
            depth,
        ) {
            Outcome::Value(l) => match eval_expression_spec(*right, env, depth) {
                Outcome::Value(r) => binary_spec(operator, l, r),
                o => o,
            },
            o => o,
        },
        ExpressionView::Index(_, _) => eval_index_spec(e, env, depth),
        ExpressionView::Call(_, _) => eval_call_spec(e, env, depth),
        ExpressionView::If(_, _, _) => eval_if_spec(e, env, depth),
    }
}

/// The values of the expressions of a list from index `i` on, after the
/// values `acc`, from left to right; or what the first of them comes to
/// that gives no value.
pub open spec fn eval_expressions_spec(
    es: Seq<ExpressionView>,
    env: EnvironmentView,
    depth: nat,
    i: int,
    acc: Seq<ValueView>,
) -> Outcomes
    decreases depth, es, es.len() - i,
{
    if i < 0 || i >= es.len() {
        Outcomes::Values(acc)
    } else {
        match eval_expression_spec(es[i], env, depth) {
            Outcome::Value(v) => eval_expressions_spec(es, env, depth, i + 1, acc.push(v)),
            Outcome::Error(m) => Outcomes::Error(m),
            Outcome::Floating => Outcomes::Floating,
        }
    }
}

/// What statements come to in a scope of their own inside `env`: the value
/// of the last, or null where there is none. A pending `return` ends the
/// block and is handed on as it is, marker and all.
pub open spec fn eval_block_spec(statements: Seq<StatementView>, env: EnvironmentView, depth: nat) -> Outcome
    decreases depth, statements, statements.len() + 1,
{
    eval_statements_spec(statements, env.child(), depth, 0, ValueView::Null).outcome
}

/// What the statements from index `i` on come to, one after the other, and
/// the environment after them. `last` is the value of the statement before.
/// The first statement that gives an error or a pending `return` ends it.
pub open spec fn eval_statements_spec(
    statements: Seq<StatementView>,
    env: EnvironmentView,
    depth: nat,
    i: int,
    last: ValueView,
) -> Step
    decreases depth, statements, statements.len() - i,
{
    if i < 0 || i >= statements.len() {
        Step { outcome: Outcome::Value(last), env }
    } else {
        let step = eval_statement_spec(statements[i], env, depth);
        match step.outcome {
            Outcome::Value(v) => if v is Return {
                step
            } else {
                eval_statements_spec(statements, step.env, depth, i + 1, v)
            },
            _ => step,
        }
    }
}

/// What a statement comes to, and the environment after it. `let` binds a
/// name in the innermost scope and gives null: a built-in identifier and a
/// name that the scope holds already are refused. `return` gives the marker
/// of a pending `return`.
pub open spec fn eval_statement_spec(s: StatementView, env: EnvironmentView, depth: nat) -> Step
    decreases depth, s, 0nat,
{
    match s {
        StatementView::Let(name, e) => if builtin_value(name) is Some {
            Step { outcome: Outcome::Error("`"@ + name + "` is a built-in identifier"@), env }
        } else {
            match eval_expression_spec(e, env, depth) {
                Outcome::Value(v) => if env.defines_locally(name) {
                    Step { outcome: Outcome::Error("`"@ + name + "` is already defined"@), env }
                } else {
                    Step { outcome: Outcome::Value(ValueView::Null), env: env.define(name, v) }
                },
                o => Step { outcome: o, env },
            }
        },
        StatementView::Return(None) => Step {
            outcome: Outcome::Value(ValueView::Return(Box::new(ValueView::Null))),
            env,
        },
        StatementView::Return(Some(e)) => match eval_expression_spec(e, env, depth) {
            Outcome::Value(v) => Step { outcome: Outcome::Value(ValueView::Return(Box::new(v))), env },
            o => Step { outcome: o, env },
        },
        StatementView::Expression(e) => Step { outcome: eval_expression_spec(e, env, depth), env },
    }
}

/// What an index expression comes to. Only an identifier, an array literal
/// and a string literal can be indexed.
pub open spec fn eval_index_spec(e: ExpressionView, env: EnvironmentView, depth: nat) -> Outcome
    decreases depth, e, 0nat,
{
    match e {
        ExpressionView::Index(target, index) => {
            let array = match *target {
                ExpressionView::Array(_) => eval_expression_spec(*target, env, depth),
                ExpressionView::Str(s) => Outcome::Value(ValueView::Str(s)),
                ExpressionView::Identifier(name) => match eval_identifier_spec(name, env) {
                    Outcome::Value(v) => if v is Array || v is Str {
                        Outcome::Value(v)
                    } else {
                        Outcome::Error("`"@ + name + "` is not an array nor a string"@)
                    },
                    o => o,
                },
                _ => Outcome::Error(
                    "only identifier, array literal or string literal can be indexed"@,
                ),
            };
            match array {
                Outcome::Value(a) => match eval_expression_spec(*index, env, depth) {
                    Outcome::Value(i) => index_spec(a, i),
                    o => o,
                },
                o => o,
            }
        },
        _ => arbitrary(),
    }
}

/// What a call comes to. Only an identifier and a function literal can be
/// called. The arguments are evaluated in the caller's environment, from
/// left to right. The body of a closure runs in a scope that binds the
/// parameters, inside the scopes that the closure captured, inside those of
/// the caller; a pending `return` that leaves the body is taken off its
/// marker. A built-in function runs in a scope that binds its parameters,
/// inside the scopes of the caller.
pub open spec fn eval_call_spec(e: ExpressionView, env: EnvironmentView, depth: nat) -> Outcome
    decreases depth, e, 0nat,
{
    match e {
        ExpressionView::Call(callee, arguments) => {
            let function = match *callee {
                ExpressionView::Function(parameters, body) => Outcome::Value(
                    ValueView::Function(parameters, body, env),
                ),
                ExpressionView::Identifier(name) => match eval_identifier_spec(name, env) {
                    Outcome::Value(v) => if v is Function || v is Builtin {
                        Outcome::Value(v)
                    } else {
                        Outcome::Error("`"@ + name + "` is not a function"@)
                    },
                    o => o,
                },
                _ => Outcome::Error("only identifier or function literal can be called"@),
            };
            match function {
                Outcome::Value(f) => if arguments.len() != parameters_of(f).len() {
                    Outcome::Error("argument number mismatch"@)
                } else {
                    match eval_expressions_spec(arguments, env, depth, 0, Seq::empty()) {
                        Outcomes::Error(m) => Outcome::Error(m),
                        Outcomes::Floating => Outcome::Floating,
                        Outcomes::Values(values) => {
                            let frame = bind_parameters(
                                parameters_of(f),
                                values,
                                values.len() as int,
                            );
                            match f {
                                ValueView::Function(_, body, captured) => if depth == 0 {
                                    Outcome::Error(depth_message())
                                } else {
                                    unwrap_return(
                                        eval_block_spec(
                                            body,
                                            EnvironmentView {
                                                scopes: seq![frame] + captured.scopes + env.scopes,
                                            },
                                            (depth - 1) as nat,
                                        ),
                                    )
                                },
                                ValueView::Builtin(_, kind) => builtin_call_spec(
                                    kind,
                                    EnvironmentView { scopes: seq![frame] + env.scopes },
                                ),
                                _ => arbitrary(),
                            }
                        },
                    }
                },
                o => o,
            }
        },
        _ => arbitrary(),
    }
}

/// What a conditional comes to: its first block where the condition is
/// true, its second where it is false, and null where it is false and
/// there is no second block.
pub open spec fn eval_if_spec(e: ExpressionView, env: EnvironmentView, depth: nat) -> Outcome
    decreases depth, e, 0nat,
{
    match e {
        ExpressionView::If(condition, if_value, else_value) => match eval_expression_spec(
            *condition,
            env,
            depth,
        ) {
            Outcome::Value(ValueView::Bool(true)) => eval_block_spec(if_value, env, depth),
            Outcome::Value(ValueView::Bool(false)) => match else_value {
                Some(statements) => eval_block_spec(statements, env, depth),
                None => Outcome::Value(ValueView::Null),
            },
            Outcome::Value(_) => Outcome::Error("if condition is not a boolean"@),
            o => o,
        },
        _ => arbitrary(),
    }
}

/// What a program comes to, and the environment after it: the value of its
/// last statement, or null where it has none. A pending `return` ends the
/// program and is taken off its marker.
pub open spec fn eval_root_spec(statements: Seq<StatementView>, env: EnvironmentView, depth: nat) -> Step {
    let step = eval_statements_spec(statements, env, depth, 0, ValueView::Null);
    Step { outcome: unwrap_return(step.outcome), env: step.env }
}

/// What a node of any sort comes to, and the environment after it.
pub open spec fn eval_node_spec(node: NodeView, env: EnvironmentView, depth: nat) -> Step {
    match node {
        NodeView::Root(statements) => eval_root_spec(statements, env, depth),
        NodeView::Statement(s) => eval_statement_spec(s, env, depth),
        NodeView::Expression(e) => Step { outcome: eval_expression_spec(e, env, depth), env },
    }
}

/// Whether a result and the environment after it are those that the model
/// gives.
pub open spec fn step_matches(r: EvalResult, env: EnvironmentView, expected: Step) -> bool {
    outcome_matches(r, expected.outcome) && (!(expected.outcome is Floating) ==> env
        == expected.env)
}

/// Whether a list of values is the one that the model gives.
pub open spec fn values_match(r: Result<Vec<Rc<Object>>, String>, expected: Outcomes) -> bool {
    match expected {
        Outcomes::Values(values) => r matches Ok(v) && values_view(v@) == values,
        Outcomes::Error(m) => r matches Err(e) && e@ == m,
        Outcomes::Floating => true,
    }
}

/// How many calls of closures may run inside one another. The limit makes
/// every evaluation end, and keeps it within the stack of the machine.
pub const CALL_DEPTH_LIMIT: usize = 200;

fn null() -> (r: Rc<Object>)
    ensures
        r@ == ValueView::Null,
{
    Rc::new(Object::Null(Null::new()))
}

fn quoted(name: &str, rest: &str) -> (r: EvalResult)
    ensures
        r matches Err(e) && e@ == "`"@ + name@ + rest@,
{
    Err(concat3("`", name, rest))
}

fn failure(message: &str) -> (r: EvalResult)
    ensures
        r matches Err(e) && e@ == message@,
{
    Err(String::from_str(message))
}

/// Walks a syntax tree and gives the value it comes to.
pub struct Evaluator {
    builtin: Builtin,
    call_depth: usize,
}

impl Evaluator {
    /// How many calls of closures may run inside one another.
    pub closed spec fn call_depth(&self) -> nat {
        self.call_depth as nat
    }

    #[allow(clippy::new_without_default)]
    pub fn new() -> (evaluator: Self)
        ensures
            evaluator.call_depth() == CALL_DEPTH_LIMIT,
    {
        Self { builtin: Builtin::new(), call_depth: CALL_DEPTH_LIMIT }
    }

    /// Evaluates a node in an environment. A `let` at the level of the node
    /// binds its name in that environment; what was bound before an error
    /// stays bound.
    pub fn eval<H: Host>(&self, node: &Node, env: &mut Environment, host: &mut H) -> (r: EvalResult)
        ensures
            step_matches(r, final(env)@, eval_node_spec(node@, old(env)@, self.call_depth())),
    {
        match node {
            Node::Root(n) => self.eval_root_node(n, env, host),
            Node::Statement(n) => self.eval_statement(n, env, host, self.call_depth),
            Node::Expression(n) => self.eval_expression(n, env, host, self.call_depth),
        }
    }

    fn eval_statement<H: Host>(
        &self,
        s: &StatementNode,
        env: &mut Environment,
        host: &mut H,
        depth: usize,
    ) -> (r: EvalResult)
        ensures
            step_matches(r, final(env)@, eval_statement_spec(s@, old(env)@, depth as nat)),
        decreases depth, s@, 1nat,
    {
        match s {
            StatementNode::Let(n) => self.eval_let_statement_node(n, env, host, depth),
            StatementNode::Return(n) => self.eval_return_statement_node(n, &*env, host, depth),
            StatementNode::Expression(n) => self.eval_expression_statement_node(
                n,
                &*env,
                host,
                depth,
            ),
        }
    }

    fn eval_expression<H: Host>(
        &self,
        e: &ExpressionNode,
        env: &Environment,
        host: &mut H,
        depth: usize,
    ) -> (r: EvalResult)
        ensures
            outcome_matches(r, eval_expression_spec(e@, env@, depth as nat)),
        decreases depth, e@, 1nat,
    {
        proof {
            lemma_expression_view(e);
        }
        match e {
            ExpressionNode::Block(n) => self.eval_block_expression_node(n, env, host, depth),
            ExpressionNode::Unary(n) => self.eval_unary_expression_node(n, env, host, depth),
            ExpressionNode::Binary(n) => self.eval_binary_expression_node(n, env, host, depth),
            ExpressionNode::Index(n) => self.eval_index_expression_node(n, env, host, depth),
            ExpressionNode::Call(n) => self.eval_call_expression_node(n, env, host, depth),
            ExpressionNode::If(n) => self.eval_if_expression_node(n, env, host, depth),
            ExpressionNode::IntegerLiteral(n) => self.eval_integer_literal_node(n, env),
            ExpressionNode::FloatLiteral(n) => self.eval_float_literal_node(n, env, host),
            ExpressionNode::BooleanLiteral(n) => self.eval_boolean_literal_node(n, env),
            ExpressionNode::CharacterLiteral(n) => self.eval_character_literal_node(n, env),
            ExpressionNode::StringLiteral(n) => self.eval_string_literal_node(n, env),
            ExpressionNode::ArrayLiteral(n) => self.eval_array_literal_node(n, env, host, depth),
            ExpressionNode::FunctionLiteral(n) => self.eval_function_literal_node(n, env),
            ExpressionNode::Identifier(n) => self.eval_identifier_node(n, env),
        }
    }

    fn eval_root_node<H: Host>(&self, n: &RootNode, env: &mut Environment, host: &mut H) -> (r:
        EvalResult)
        ensures
            step_matches(r, final(env)@, eval_root_spec(n@, old(env)@, self.call_depth())),
    {
        let ret = self.eval_statements(&n.statements, env, host, self.call_depth)?;
        //early return at the first `return` statement
        //Note the returned value is the content of `ReturnValue`; not the `ReturnValue` itself.
        proof {
            lemma_value_view(&*ret);
        }
        match &*ret {
            Object::ReturnValue(e) => Ok(rc_clone(e.value())),
            _ => Ok(ret),
        }
    }

    /// The statements, one after the other, up to the first that gives an
    /// error or a pending `return`.
    fn eval_statements<H: Host>(
        &self,
        statements: &Vec<StatementNode>,
        env: &mut Environment,
        host: &mut H,
        depth: usize,
    ) -> (r: EvalResult)
        ensures
            step_matches(
                r,
                final(env)@,
                eval_statements_spec(
                    statements_view(statements@),
                    old(env)@,
                    depth as nat,
                    0,
                    ValueView::Null,
                ),
            ),
        decreases depth, statements_view(statements@), statements.len(),
    {
        let ghost expected = eval_statements_spec(
            statements_view(statements@),
            env@,
            depth as nat,
            0,
            ValueView::Null,
        );
        let mut ret = null();
        let mut i: usize = 0;
        while i < statements.len()
            invariant
                i <= statements.len(),
                expected == eval_statements_spec(
                    statements_view(statements@),
                    old(env)@,
                    depth as nat,
                    0,
                    ValueView::Null,
                ),
                expected.outcome is Floating || expected == eval_statements_spec(
                    statements_view(statements@),
                    env@,
                    depth as nat,
                    i as int,
                    ret@,
                ),
            decreases statements.len() - i,
        {
            match self.eval_statement(&statements[i], env, host, depth) {
                Ok(v) => {
                    ret = v;
                },
                Err(e) => {
                    return Err(e);
                },
            }
            proof {
                lemma_value_view(&*ret);
            }
            if let Object::ReturnValue(_) = &*ret {
                return Ok(ret);
            }
            i = i + 1;
        }
        Ok(ret)
    }

    //similar to `eval_root_node()` but returns `ReturnValue` itself when early return
    //This difference is important to properly handle the following statement:
    // if (true) {
    //     if (true) {
    //         return a;
    //     }
    //     return b;
    // }
    //If the two shared one implementation, the result would be `b` rather than `a`, as the
    // statement above would be evaluated as
    // if (true) {
    //     a;
    //     return b;
    // }
    fn eval_block_expression_node<H: Host>(
        &self,
        n: &BlockExpressionNode,
        env: &Environment,
        host: &mut H,
        depth: usize,
    ) -> (r: EvalResult)
        ensures
            outcome_matches(r, eval_block_spec(n@, env@, depth as nat)),
        decreases depth, n@, n@.len() + 1,
    {
        let mut block_env = Environment::new(Some(Rc::new(env.clone())));
        self.eval_statements(&n.statements, &mut block_env, host, depth)
    }

    fn eval_let_statement_node<H: Host>(
        &self,
        n: &LetStatementNode,
        env: &mut Environment,
        host: &mut H,
        depth: usize,
    ) -> (r: EvalResult)
        ensures
            step_matches(r, final(env)@, eval_statement_spec(n@, old(env)@, depth as nat)),
        decreases depth, n@, 0nat,
    {
        if (self.builtin.lookup_builtin_identifier(n.identifier.get_name()).is_some()) {
            return quoted(n.identifier.get_name(), "` is a built-in identifier");
        }
        let o = self.eval_expression(&*n.expression, env, host, depth)?;
        match env.try_set(String::from_str(n.identifier.get_name()), o) {
            Ok(_) => Ok(null()),
            Err(e) => Err(e),
        }
    }

    fn eval_return_statement_node<H: Host>(
        &self,
        n: &ReturnStatementNode,
        env: &Environment,
        host: &mut H,
        depth: usize,
    ) -> (r: EvalResult)
        ensures
            outcome_matches(r, eval_statement_spec(n@, env@, depth as nat).outcome),
            eval_statement_spec(n@, env@, depth as nat).env == env@,
        decreases depth, n@, 0nat,
    {
        let value = match &n.expression {
            None => null(),
            Some(e) => self.eval_expression(&**e, env, host, depth)?,
        };
        let marker = Object::ReturnValue(ReturnValue::new(value));
        proof {
            lemma_value_view(&marker);
        }
        Ok(Rc::new(marker))
    }

    fn eval_expression_statement_node<H: Host>(
        &self,
        n: &ExpressionStatementNode,
        env: &Environment,
        host: &mut H,
        depth: usize,
    ) -> (r: EvalResult)
        ensures
            outcome_matches(r, eval_statement_spec(n@, env@, depth as nat).outcome),
            eval_statement_spec(n@, env@, depth as nat).env == env@,
        decreases depth, n@, 0nat,
    {
        self.eval_expression(&*n.expression, env, host, depth)
    }

    fn eval_unary_expression_node<H: Host>(
        &self,
        n: &UnaryExpressionNode,
        env: &Environment,
        host: &mut H,
        depth: usize,
    ) -> (r: EvalResult)
        ensures
            outcome_matches(r, eval_expression_spec(n@, env@, depth as nat)),
        decreases depth, n@, 0nat,
    {
        let o = self.eval_expression(&*n.expression, env, host, depth)?;
        match n.operator {
            Token::Minus => unary_minus(&*o, &*host),
            Token::Invert => unary_invert(&*o),
            _ => {
                let shown = n.operator.debug_string();
                Err(concat3("unknown unary operator: `", shown.as_str(), "`"))
            },
        }
    }

    fn eval_binary_expression_node<H: Host>(
        &self,
        n: &BinaryExpressionNode,
        env: &Environment,
        host: &mut H,
        depth: usize,
    ) -> (r: EvalResult)
        ensures
            outcome_matches(r, eval_expression_spec(n@, env@, depth as nat)),
        decreases depth, n@, 0nat,
    {
        let left = self.eval_expression(&*n.left, env, host, depth)?;
        let right = self.eval_expression(&*n.right, env, host, depth)?;
        match n.operator {
            Token::Plus => binary_plus(&*left, &*right, &*host),
            Token::Minus => binary_minus(&*left, &*right, &*host),
            Token::Asterisk => binary_asterisk(&*left, &*right, &*host),
            Token::Slash => binary_slash(&*left, &*right, &*host),
            Token::Percent => binary_percent(&*left, &*right, &*host),
            Token::Power => binary_power(&*left, &*right, &*host),
            Token::Eq => binary_eq(&*left, &*right, &*host),
            Token::NotEq => binary_noteq(&*left, &*right, &*host),
            Token::Lt => binary_lt(&*left, &*right, &*host),
            Token::Gt => binary_gt(&*left, &*right, &*host),
            Token::LtEq => binary_lteq(&*left, &*right, &*host),
            Token::GtEq => binary_gteq(&*left, &*right, &*host),
            Token::And => binary_and(&*left, &*right),
            Token::Or => binary_or(&*left, &*right),
            _ => {
                let shown = n.operator.debug_string();
                Err(concat3("unknown binary operator: `", shown.as_str(), "`"))
            },
        }
    }

    fn eval_index_expression_node<H: Host>(
        &self,
        n: &IndexExpressionNode,
        env: &Environment,
        host: &mut H,
        depth: usize,
    ) -> (r: EvalResult)
        ensures
            outcome_matches(r, eval_index_spec(n@, env@, depth as nat)),
        decreases depth, n@, 0nat,
    {
        //Note an index expression is of the form
        //- `<identifier>[<index>]`
        //- `<array literal>[<index>]`
        //- `<string literal>[<index>]`
        proof {
            lemma_expression_view(&*n.array);
        }
        let array: Rc<Object> = match &*n.array {
            ExpressionNode::ArrayLiteral(a) => self.eval_array_literal_node(a, env, host, depth)?,
            ExpressionNode::StringLiteral(a) => self.eval_string_literal_node(a, env)?,
            ExpressionNode::Identifier(identifier) => {
                let a = self.eval_identifier_node(identifier, env)?;
                proof {
                    lemma_value_view(&*a);
                }
                match &*a {
                    Object::Array(_) => a,
                    Object::Str(_) => a,
                    _ => {
                        return quoted(identifier.get_name(), "` is not an array nor a string");
                    },
                }
            },
            _ => {
                return failure("only identifier, array literal or string literal can be indexed");
            },
        };

        let index = self.eval_expression(&*n.index, env, host, depth)?;
        proof {
            lemma_value_view(&*index);
            lemma_value_view(&*array);
        }
        let index: i64 = match &*index {
            Object::Int(i) => i.value(),
            _ => {
                return failure("non-integer array index found");
            },
        };
        if (index < 0) {
            return failure("negative array index not allowed");
        }
        match &*array {
            Object::Array(a) => {
                if index as u64 >= a.len() as u64 {
                    return failure("array index out of bounds");
                }
                Ok(rc_clone(&a.elements[index as usize]))
            },
            Object::Str(a) => {
                if index as u64 >= a.len() as u64 {
                    return failure("array index out of bounds");
                }
                Ok(Rc::new(Object::Char(Char::new(a.value().get_char(index as usize)))))
            },
            _ => unreached(),
        }
    }

    /// The values of the expressions of a list, from left to right.
    fn eval_expressions<H: Host>(
        &self,
        expressions: &Vec<ExpressionNode>,
        env: &Environment,
        host: &mut H,
        depth: usize,
    ) -> (r: Result<Vec<Rc<Object>>, String>)
        ensures
            values_match(
                r,
                eval_expressions_spec(
                    expressions_view(expressions@),
                    env@,
                    depth as nat,
                    0,
                    Seq::empty(),
                ),
            ),
            r matches Ok(v) ==> v.len() == expressions.len(),
        decreases depth, expressions_view(expressions@), expressions.len() + 1,
    {
        let ghost es = expressions_view(expressions@);
        let ghost expected = eval_expressions_spec(es, env@, depth as nat, 0, Seq::empty());
        let mut v: Vec<Rc<Object>> = Vec::new();
        let mut i: usize = 0;
        assert(values_view(v@) =~= Seq::empty());
        while i < expressions.len()
            invariant
                i <= expressions.len(),
                v.len() == i,
                es == expressions_view(expressions@),
                expected == eval_expressions_spec(es, env@, depth as nat, 0, Seq::empty()),
                expected is Floating || expected == eval_expressions_spec(
                    es,
                    env@,
                    depth as nat,
                    i as int,
                    values_view(v@),
                ),
            decreases expressions.len() - i,
        {
            let ghost before = values_view(v@);
            let value = self.eval_expression(&expressions[i], env, host, depth)?;
            v.push(value);
            assert(values_view(v@) =~= before.push(value@));
            i = i + 1;
        }
        Ok(v)
    }

    /// The scope that binds the parameters to the values.
    fn bind(parameters: &Vec<IdentifierNode>, values: &Vec<Rc<Object>>) -> (frame: Environment)
        requires
            parameters.len() == values.len(),
        ensures
            frame@.scopes == seq![
                bind_parameters(
                    names_view(parameters@),
                    values_view(values@),
                    values.len() as int,
                ),
            ],
    {
        let mut function_env = Environment::new(None);
        let mut i: usize = 0;
        while i < parameters.len()
            invariant
                i <= parameters.len(),
                parameters.len() == values.len(),
                function_env@.scopes == seq![
                    bind_parameters(names_view(parameters@), values_view(values@), i as int),
                ],
            decreases parameters.len() - i,
        {
            function_env.set(String::from_str(parameters[i].get_name()), rc_clone(&values[i]));
            i = i + 1;
        }
        function_env
    }

    fn eval_call_expression_node<H: Host>(
        &self,
        n: &CallExpressionNode,
        env: &Environment,
        host: &mut H,
        depth: usize,
    ) -> (r: EvalResult)
        ensures
            outcome_matches(r, eval_call_spec(n@, env@, depth as nat)),
        decreases depth, n@, 0nat,
    {
        //Note a function call is of the form `<identifier>(<arg(s)>)` or `<function literal>(<arg(s)>)`.
        proof {
            lemma_expression_view(&*n.function);
        }
        let function: Rc<Object> = match &*n.function {
            ExpressionNode::FunctionLiteral(f) => self.eval_function_literal_node(f, env)?,
            ExpressionNode::Identifier(identifier) => {
                let f = self.eval_identifier_node(identifier, env)?;
                proof {
                    lemma_value_view(&*f);
                }
                match &*f {
                    Object::Function(_) => f,
                    Object::BuiltinFunction(_) => f,
                    _ => {
                        return quoted(identifier.get_name(), "` is not a function");
                    },
                }
            },
            _ => {
                return failure("only identifier or function literal can be called");
            },
        };
        proof {
            lemma_value_view(&*function);
        }
        let parameters: &Vec<IdentifierNode> = match &*function {
            Object::Function(f) => f.parameters(),
            Object::BuiltinFunction(f) => f.parameters(),
            _ => unreached(),
        };
        if (n.arguments.len() != parameters.len()) {
            return failure("argument number mismatch");
        }
        let values = self.eval_expressions(&n.arguments, env, host, depth)?;

        //constructs the following nested environment
        // { //outer
        //     { //function capture
        //         { //arguments
        //         }
        //     }
        // }
        let mut function_env = Self::bind(parameters, &values);
        let ghost frame = function_env@.scopes[0];

        match &*function {
            Object::Function(function) => {
                if depth == 0 {
                    return failure("call depth limit exceeded");
                }
                let mut e = function.env().clone();
                e.set_outer(Some(Rc::new(env.clone())));
                function_env.set_outer(Some(Rc::new(e)));
                assert(function_env@.scopes =~= seq![frame] + function.env@.scopes + env@.scopes);

                let result = self.eval_block_expression_node(
                    function.body(),
                    &function_env,
                    host,
                    depth - 1,
                )?;

                //Takes the value out of `ReturnValue` as `eval_root_node()` does.
                //Without this, `let f = fn() { return 3; 4 }; let a = f(); f(); return 100;` gives `3` (not `100`).
                proof {
                    lemma_value_view(&*result);
                }
                match &*result {
                    Object::ReturnValue(e) => Ok(rc_clone(e.value())),
                    _ => Ok(result),
                }
            },
            Object::BuiltinFunction(function) => {
                function_env.set_outer(Some(Rc::new(env.clone())));
                function.call(&function_env, host)
            },
            _ => unreached(),
        }
    }

    fn eval_if_expression_node<H: Host>(
        &self,
        n: &IfExpressionNode,
        env: &Environment,
        host: &mut H,
        depth: usize,
    ) -> (r: EvalResult)
        ensures
            outcome_matches(r, eval_if_spec(n@, env@, depth as nat)),
        decreases depth, n@, 0nat,
    {
        let condition = self.eval_expression(&*n.condition, env, host, depth)?;
        proof {
            lemma_value_view(&*condition);
        }
        match &*condition {
            Object::Bool(condition) => {
                if (condition.value()) {
                    self.eval_block_expression_node(&n.if_value, env, host, depth)
                } else {
                    match &n.else_value {
                        Some(else_value) => self.eval_block_expression_node(
                            else_value,
                            env,
                            host,
                            depth,
                        ),
                        None => Ok(null()),
                    }
                }
            },
            _ => failure("if condition is not a boolean"),
        }
    }

    fn eval_integer_literal_node(&self, n: &IntegerLiteralNode, _env: &Environment) -> (r:
        EvalResult)
        ensures
            r matches Ok(v) && v@ == ValueView::Int(n@),
    {
        Ok(Rc::new(Object::Int(Int::new(n.get_value()))))
    }

    fn eval_float_literal_node<H: Host>(
        &self,
        n: &FloatLiteralNode,
        _env: &Environment,
        host: &mut H,
    ) -> (r: EvalResult)
        ensures
            r matches Ok(v) && v@ == ValueView::Float,
    {
        Ok(Rc::new(Object::Float(Float::new(host.float_parse(n.get_value())))))
    }

    fn eval_boolean_literal_node(&self, n: &BooleanLiteralNode, _env: &Environment) -> (r:
        EvalResult)
        ensures
            r matches Ok(v) && v@ == ValueView::Bool(n@),
    {
        Ok(Rc::new(Object::Bool(Bool::new(n.get_value()))))
    }

    fn eval_character_literal_node(&self, n: &CharacterLiteralNode, _env: &Environment) -> (r:
        EvalResult)
        ensures
            r matches Ok(v) && v@ == ValueView::Char(n@),
    {
        Ok(Rc::new(Object::Char(Char::new(n.get_value()))))
    }

    fn eval_string_literal_node(&self, n: &StringLiteralNode, _env: &Environment) -> (r:
        EvalResult)
        ensures
            r matches Ok(v) && v@ == ValueView::Str(n@),
    {
        Ok(Rc::new(Object::Str(Str::new(Rc::new(String::from_str(n.get_value()))))))
    }

    fn eval_array_literal_node<H: Host>(
        &self,
        n: &ArrayLiteralNode,
        env: &Environment,
        host: &mut H,
        depth: usize,
    ) -> (r: EvalResult)
        ensures
            outcome_matches(r, eval_expression_spec(n@, env@, depth as nat)),
            r matches Ok(v) ==> v@ is Array,
        decreases depth, n@, 0nat,
    {
        let v = self.eval_expressions(&n.elements, env, host, depth)?;
        let array = Object::Array(Array::new(v));
        proof {
            lemma_value_view(&array);
        }
        Ok(Rc::new(array))
    }

    fn eval_function_literal_node(&self, n: &FunctionLiteralNode, env: &Environment) -> (r:
        EvalResult)
        ensures
            r matches Ok(v) && v@ == ValueView::Function(
                names_view(n.parameters@),
                n.body@,
                env@,
            ),
    {
        Ok(
            Rc::new(
                Object::Function(
                    Function::new(rc_clone(&n.parameters), rc_clone(&n.body), env.clone()),
                ),
            ),
        )
    }

    fn eval_identifier_node(&self, n: &IdentifierNode, env: &Environment) -> (r: EvalResult)
        ensures
            outcome_matches(r, eval_identifier_spec(n@, env@)),
    {
        if let Some(e) = self.builtin.lookup_builtin_identifier(n.get_name()) {
            return Ok(e);
        }
        match env.get(n.get_name()) {
            None => quoted(n.get_name(), "` is not defined"),
            Some(e) => Ok(rc_clone(e)),
        }
    }
}

} // verus!
