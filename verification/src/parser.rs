use crate::ast::{
    expressions_view, is_binary_operator, is_unary_operator, lemma_expression_view, names_view,
    statements_view, well_formed_expression, well_formed_statement, well_formed_statements,
    ArrayLiteralNode, BinaryExpressionNode, BlockExpressionNode, BooleanLiteralNode,
    CallExpressionNode, CharacterLiteralNode, ExpressionNode, ExpressionStatementNode,
    ExpressionView, FloatLiteralNode, FunctionLiteralNode, IdentifierNode, IfExpressionNode,
    IndexExpressionNode, IntegerLiteralNode, LetStatementNode, ReturnStatementNode, RootNode,
    StatementNode, StatementView, StringLiteralNode, UnaryExpressionNode,
};
use crate::text::concat3;
use crate::token::{token_debug_text, token_views, Token, TokenKind, TokenView};
use std::rc::Rc;
use vstd::prelude::*;
use vstd::string::StringExecFns;

verus! {

/// How tightly an operator binds, from the loosest to the tightest.
#[derive(Debug, Clone, Copy, PartialEq, Eq, Structural)]
pub enum Precedence {
    Lowest,
    /// `||`
    Or,
    /// `&&`
    And,
    /// `==`, `!=`, `<`, `>`, `>=`, `<=`
    Cmp,
    /// `+`, `-`
    Sum,
    /// `*`, `/`, `%`, `**`
    Product,
    /// prefix `-`, `!`
    Unary,
    /// `(`, `[`
    Call,
}

impl Precedence {
    /// The place of a level in the order of the levels.
    pub open spec fn rank(self) -> int {
        match self {
            Precedence::Lowest => 0,
            Precedence::Or => 1,
            Precedence::And => 2,
            Precedence::Cmp => 3,
            Precedence::Sum => 4,
            Precedence::Product => 5,
            Precedence::Unary => 6,
            Precedence::Call => 7,
        }
    }

    fn level(self) -> (r: u8)
        ensures
            r == self.rank(),
    {
        match self {
            Precedence::Lowest => 0,
            Precedence::Or => 1,
            Precedence::And => 2,
            Precedence::Cmp => 3,
            Precedence::Sum => 4,
            Precedence::Product => 5,
            Precedence::Unary => 6,
            Precedence::Call => 7,
        }
    }
}

/// The level at which a token binds what stands to its left. A token that
/// is no infix operator binds at the lowest level, `)` and `]` among them.
pub open spec fn precedence_of(kind: TokenKind) -> Precedence {
    match kind {
        TokenKind::Or => Precedence::Or,
        TokenKind::And => Precedence::And,
        TokenKind::Eq => Precedence::Cmp,
        TokenKind::NotEq => Precedence::Cmp,
        TokenKind::Lt => Precedence::Cmp,
        TokenKind::Gt => Precedence::Cmp,
        TokenKind::LtEq => Precedence::Cmp,
        TokenKind::GtEq => Precedence::Cmp,
        TokenKind::Plus => Precedence::Sum,
        TokenKind::Minus => Precedence::Sum,
        TokenKind::Asterisk => Precedence::Product,
        TokenKind::Slash => Precedence::Product,
        TokenKind::Percent => Precedence::Product,
        TokenKind::Power => Precedence::Product,
        TokenKind::Lparen => Precedence::Call,
        TokenKind::Lbracket => Precedence::Call,
        _ => Precedence::Lowest,
    }
}

fn lookup_precedence(kind: TokenKind) -> (r: Precedence)
    ensures
        r == precedence_of(kind),
{
    match kind {
        TokenKind::Or => Precedence::Or,
        TokenKind::And => Precedence::And,
        TokenKind::Eq => Precedence::Cmp,
        TokenKind::NotEq => Precedence::Cmp,
        TokenKind::Lt => Precedence::Cmp,
        TokenKind::Gt => Precedence::Cmp,
        TokenKind::LtEq => Precedence::Cmp,
        TokenKind::GtEq => Precedence::Cmp,
        TokenKind::Plus => Precedence::Sum,
        TokenKind::Minus => Precedence::Sum,
        TokenKind::Asterisk => Precedence::Product,
        TokenKind::Slash => Precedence::Product,
        TokenKind::Percent => Precedence::Product,
        TokenKind::Power => Precedence::Product,
        TokenKind::Lparen => Precedence::Call,
        TokenKind::Lbracket => Precedence::Call,
        TokenKind::Rparen => Precedence::Lowest,
        TokenKind::Rbracket => Precedence::Lowest,
        _ => Precedence::Lowest,
    }
}

/// Why the parser gave up: the tokens ended, or a message.
#[derive(Debug, PartialEq)]
pub enum ParseError {
    Eof,
    Error(String),
}

/// The mathematical model of a parse error.
pub ghost enum ParseErrorView {
    Eof,
    Error(Seq<char>),
}

impl View for ParseError {
    type V = ParseErrorView;

    open spec fn view(&self) -> ParseErrorView {
        match self {
            ParseError::Eof => ParseErrorView::Eof,
            ParseError::Error(s) => ParseErrorView::Error(s@),
        }
    }
}

impl ParseError {
    /// The error as text: `eof`, or the message.
    pub fn to_string(&self) -> (s: String)
        ensures
            s@ == (match self@ {
                ParseErrorView::Eof => "eof"@,
                ParseErrorView::Error(m) => m,
            }),
    {
        match self {
            ParseError::Eof => String::from_str("eof"),
            ParseError::Error(s) => s.clone(),
        }
    }
}

pub type ParseResult<T> = Result<T, ParseError>;

/// What parsing one construct gives: the construct or an error, and the
/// index of the first token after it. After an error the index says nothing.
pub ghost struct Parsed<T> {
    pub result: Result<T, ParseErrorView>,
    pub end: int,
}

pub open spec fn parsed<T>(value: T, end: int) -> Parsed<T> {
    Parsed { result: Ok(value), end }
}

pub open spec fn failed<T>(message: Seq<char>) -> Parsed<T> {
    Parsed { result: Err(ParseErrorView::Error(message)), end: 0 }
}

pub open spec fn ended<T>() -> Parsed<T> {
    Parsed { result: Err(ParseErrorView::Eof), end: 0 }
}

pub open spec fn rejected<T>(e: ParseErrorView) -> Parsed<T> {
    Parsed { result: Err(e), end: 0 }
}

/// The kind of the token at index `pos`; past the end of the tokens, `Eof`.
pub open spec fn kind_at(ts: Seq<TokenView>, pos: int) -> TokenKind {
    if 0 <= pos < ts.len() {
        ts[pos].kind
    } else {
        TokenKind::Eof
    }
}

/// A statement at index `pos`: `let`, `return`, or an expression. At the end
/// of the tokens there is none.
pub open spec fn parse_statement_spec(ts: Seq<TokenView>, pos: int) -> Parsed<StatementView>
    decreases ts.len() - pos, 5int,
{
    match kind_at(ts, pos) {
        TokenKind::Eof => ended(),
        TokenKind::Let => parse_let_statement_spec(ts, pos),
        TokenKind::Return => parse_return_statement_spec(ts, pos),
        _ => parse_expression_statement_spec(ts, pos),
    }
}

/// `let <identifier> = <expression> ;` with `let` at index `pos`.
pub open spec fn parse_let_statement_spec(ts: Seq<TokenView>, pos: int) -> Parsed<StatementView>
    decreases ts.len() - pos, 4int,
{
    if kind_at(ts, pos + 1) != TokenKind::Ident {
        failed("identifier missing or reserved keyword used after `let`"@)
    } else if kind_at(ts, pos + 2) != TokenKind::Assign {
        failed("`=` missing in `let`"@)
    } else {
        let value = parse_expression_spec(ts, pos + 3, Precedence::Lowest);
        match value.result {
            Err(e) => rejected(e),
            Ok(e) => if kind_at(ts, value.end) != TokenKind::Semicolon {
                failed("`;` missing in `let`"@)
            } else {
                parsed(StatementView::Let(ts[pos + 1].text, e), value.end + 1)
            },
        }
    }
}

/// `return ;` or `return <expression> ;` with `return` at index `pos`.
pub open spec fn parse_return_statement_spec(ts: Seq<TokenView>, pos: int) -> Parsed<StatementView>
    decreases ts.len() - pos, 4int,
{
    if kind_at(ts, pos) == TokenKind::Eof {
        ended()
    } else if kind_at(ts, pos + 1) == TokenKind::Semicolon {
        parsed(StatementView::Return(None), pos + 2)
    } else {
        let value = parse_expression_spec(ts, pos + 1, Precedence::Lowest);
        match value.result {
            Err(e) => rejected(e),
            Ok(e) => if kind_at(ts, value.end) != TokenKind::Semicolon {
                failed("`;` missing in `return`"@)
            } else {
                parsed(StatementView::Return(Some(e)), value.end + 1)
            },
        }
    }
}

/// An expression and, where one follows, the `;` after it.
pub open spec fn parse_expression_statement_spec(ts: Seq<TokenView>, pos: int) -> Parsed<
    StatementView,
>
    decreases ts.len() - pos, 4int,
{
    let value = parse_expression_spec(ts, pos, Precedence::Lowest);
    match value.result {
        Err(e) => rejected(e),
        Ok(e) => parsed(
            StatementView::Expression(e),
            if kind_at(ts, value.end) == TokenKind::Semicolon {
                value.end + 1
            } else {
                value.end
            },
        ),
    }
}

/// An expression at index `pos` whose operators all bind tighter than
/// `precedence`: a prefix form, then every infix form that binds tighter.
pub open spec fn parse_expression_spec(ts: Seq<TokenView>, pos: int, precedence: Precedence) -> Parsed<
    ExpressionView,
>
    decreases ts.len() - pos, 3int,
{
    let first = parse_prefix_spec(ts, pos);
    match first.result {
        Err(e) => rejected(e),
        Ok(e) => if first.end <= pos || first.end > ts.len() {
            first
        } else {
            parse_infix_spec(ts, first.end, e, precedence)
        },
    }
}

/// The form with which an expression starts, chosen by the token at `pos`.
pub open spec fn parse_prefix_spec(ts: Seq<TokenView>, pos: int) -> Parsed<ExpressionView>
    decreases ts.len() - pos, 2int,
{
    match kind_at(ts, pos) {
        TokenKind::Eof => ended(),
        TokenKind::Lbrace => {
            let block = parse_block_spec(ts, pos);
            match block.result {
                Err(e) => rejected(e),
                Ok(statements) => parsed(ExpressionView::Block(statements), block.end),
            }
        },
        TokenKind::Lparen => parse_grouped_spec(ts, pos),
        TokenKind::Ident => parsed(ExpressionView::Identifier(ts[pos].text), pos + 1),
        TokenKind::Int => parsed(ExpressionView::Integer(ts[pos].number), pos + 1),
        TokenKind::Float => parsed(ExpressionView::Float(ts[pos].text), pos + 1),
        TokenKind::True => parsed(ExpressionView::Boolean(true), pos + 1),
        TokenKind::False => parsed(ExpressionView::Boolean(false), pos + 1),
        TokenKind::Char => parsed(ExpressionView::Character(ts[pos].character), pos + 1),
        TokenKind::String => parsed(ExpressionView::Str(ts[pos].text), pos + 1),
        TokenKind::Lbracket => {
            let elements = parse_list_spec(
                ts,
                pos + 1,
                TokenKind::Rbracket,
                "`,` expected but not found in array literal"@,
                Seq::empty(),
            );
            match elements.result {
                Err(e) => rejected(e),
                Ok(elements_) => parsed(ExpressionView::Array(elements_), elements.end),
            }
        },
        TokenKind::Invert | TokenKind::Minus => {
            let operand = parse_expression_spec(ts, pos + 1, Precedence::Unary);
            match operand.result {
                Err(e) => rejected(e),
                Ok(e) => parsed(ExpressionView::Unary(ts[pos], Box::new(e)), operand.end),
            }
        },
        TokenKind::If => parse_if_spec(ts, pos),
        TokenKind::Function => parse_function_spec(ts, pos),
        _ => failed("unexpected start of expression: "@ + token_debug_text(ts[pos])),
    }
}

/// What follows an expression `left` that ends before index `pos`: as long
/// as the next token is no `;` and binds tighter than `precedence`, it
/// continues the expression as a call, an index or a binary operation.
pub open spec fn parse_infix_spec(
    ts: Seq<TokenView>,
    pos: int,
    left: ExpressionView,
    precedence: Precedence,
) -> Parsed<ExpressionView>
    decreases ts.len() - pos, 2int,
{
    let kind = kind_at(ts, pos);
    if kind == TokenKind::Eof || kind == TokenKind::Semicolon || precedence.rank() >= precedence_of(
        kind,
    ).rank() {
        parsed(left, pos)
    } else {
        let next = if kind == TokenKind::Lparen {
            parse_call_spec(ts, pos, left)
        } else if kind == TokenKind::Lbracket {
            parse_index_spec(ts, pos, left)
        } else {
            parse_binary_spec(ts, pos, left)
        };
        match next.result {
            Err(e) => rejected(e),
            Ok(e) => if next.end <= pos || next.end > ts.len() {
                next
            } else {
                parse_infix_spec(ts, next.end, e, precedence)
            },
        }
    }
}

/// `( <expression> )` with `(` at index `pos`.
pub open spec fn parse_grouped_spec(ts: Seq<TokenView>, pos: int) -> Parsed<ExpressionView>
    decreases ts.len() - pos, 1int,
{
    if kind_at(ts, pos) == TokenKind::Eof {
        ended()
    } else {
        let inner = parse_expression_spec(ts, pos + 1, Precedence::Lowest);
        match inner.result {
            Err(e) => rejected(e),
            Ok(e) => if kind_at(ts, inner.end) != TokenKind::Rparen {
                failed("`)` missing in grouped expression"@)
            } else {
                parsed(e, inner.end + 1)
            },
        }
    }
}

/// The expressions of a list that is closed by a token of kind `close`,
/// from index `pos` on and after the items `acc`: they are separated by
/// commas, and a comma may follow the last.
pub open spec fn parse_list_spec(
    ts: Seq<TokenView>,
    pos: int,
    close: TokenKind,
    message: Seq<char>,
    acc: Seq<ExpressionView>,
) -> Parsed<Seq<ExpressionView>>
    decreases ts.len() - pos, 4int,
{
    let kind = kind_at(ts, pos);
    if kind == TokenKind::Eof {
        ended()
    } else if kind == close {
        parsed(acc, pos + 1)
    } else {
        let item = parse_expression_spec(ts, pos, Precedence::Lowest);
        match item.result {
            Err(e) => rejected(e),
            Ok(e) => {
                let after = kind_at(ts, item.end);
                if after == TokenKind::Eof {
                    ended()
                } else if after == close {
                    parsed(acc.push(e), item.end + 1)
                } else if after == TokenKind::Comma {
                    if item.end < pos {
                        parsed(acc, pos)
                    } else {
                        parse_list_spec(ts, item.end + 1, close, message, acc.push(e))
                    }
                } else {
                    failed(message)
                }
            },
        }
    }
}

/// `<callee> ( <arguments> )` with `(` at index `pos`.
pub open spec fn parse_call_spec(ts: Seq<TokenView>, pos: int, function: ExpressionView) -> Parsed<
    ExpressionView,
>
    decreases ts.len() - pos, 1int,
{
    if kind_at(ts, pos) == TokenKind::Eof {
        ended()
    } else {
        let arguments = parse_list_spec(
            ts,
            pos + 1,
            TokenKind::Rparen,
            "`,` expected but not found in argument list"@,
            Seq::empty(),
        );
        match arguments.result {
            Err(e) => rejected(e),
            Ok(arguments_) => parsed(
                ExpressionView::Call(Box::new(function), arguments_),
                arguments.end,
            ),
        }
    }
}

/// `<target> [ <index> ]` with `[` at index `pos`.
pub open spec fn parse_index_spec(ts: Seq<TokenView>, pos: int, array: ExpressionView) -> Parsed<
    ExpressionView,
>
    decreases ts.len() - pos, 1int,
{
    if kind_at(ts, pos) == TokenKind::Eof {
        ended()
    } else if kind_at(ts, pos + 1) == TokenKind::Rbracket {
        failed("empty index in array index expression"@)
    } else {
        let index = parse_expression_spec(ts, pos + 1, Precedence::Lowest);
        match index.result {
            Err(e) => rejected(e),
            Ok(e) => if kind_at(ts, index.end) != TokenKind::Rbracket {
                failed("`]` missing in array index expression"@)
            } else {
                parsed(ExpressionView::Index(Box::new(array), Box::new(e)), index.end + 1)
            },
        }
    }
}

/// `<left> <operator> <right>` with the operator at index `pos`: the right
/// side holds what binds tighter than the operator, so that operators of one
/// level group from the left.
pub open spec fn parse_binary_spec(ts: Seq<TokenView>, pos: int, left: ExpressionView) -> Parsed<
    ExpressionView,
>
    decreases ts.len() - pos, 1int,
{
    if kind_at(ts, pos) == TokenKind::Eof {
        ended()
    } else {
        let right = parse_expression_spec(ts, pos + 1, precedence_of(ts[pos].kind));
        match right.result {
            Err(e) => rejected(e),
            Ok(e) => parsed(ExpressionView::Binary(ts[pos], Box::new(left), Box::new(e)), right.end),
        }
    }
}

/// `if ( <condition> ) { .. }`, with `else { .. }` after it or without,
/// and `if` at index `pos`.
pub open spec fn parse_if_spec(ts: Seq<TokenView>, pos: int) -> Parsed<ExpressionView>
    decreases ts.len() - pos, 1int,
{
    if kind_at(ts, pos) == TokenKind::Eof {
        ended()
    } else if kind_at(ts, pos + 1) != TokenKind::Lparen {
        failed("`(` missing in `if` condition"@)
    } else {
        let condition = parse_expression_spec(ts, pos + 2, Precedence::Lowest);
        match condition.result {
            Err(e) => rejected(e),
            Ok(c) => if kind_at(ts, condition.end) != TokenKind::Rparen {
                failed("`)` missing in `if` condition"@)
            } else if kind_at(ts, condition.end + 1) != TokenKind::Lbrace {
                failed("`{` missing in `if` block"@)
            } else if condition.end < pos {
                failed(Seq::empty())
            } else {
                let if_value = parse_block_spec(ts, condition.end + 1);
                match if_value.result {
                    Err(e) => rejected(e),
                    Ok(t) => if kind_at(ts, if_value.end) != TokenKind::Else {
                        parsed(ExpressionView::If(Box::new(c), t, None), if_value.end)
                    } else if kind_at(ts, if_value.end + 1) != TokenKind::Lbrace {
                        failed("`{` missing in `else` block"@)
                    } else if if_value.end < pos {
                        failed(Seq::empty())
                    } else {
                        let else_value = parse_block_spec(ts, if_value.end + 1);
                        match else_value.result {
                            Err(e) => rejected(e),
                            Ok(f) => parsed(
                                ExpressionView::If(Box::new(c), t, Some(f)),
                                else_value.end,
                            ),
                        }
                    },
                }
            },
        }
    }
}

/// The names of a parameter list from index `pos` on and after the names
/// `acc`, up to the `)`: identifiers separated by commas, and a comma may
/// follow the last.
pub open spec fn parse_parameters_spec(ts: Seq<TokenView>, pos: int, acc: Seq<Seq<char>>) -> Parsed<
    Seq<Seq<char>>,
>
    decreases ts.len() - pos,
{
    let kind = kind_at(ts, pos);
    if kind == TokenKind::Eof {
        ended()
    } else if kind == TokenKind::Rparen {
        parsed(acc, pos + 1)
    } else if kind == TokenKind::Ident {
        let after = kind_at(ts, pos + 1);
        if after == TokenKind::Eof {
            ended()
        } else if after == TokenKind::Rparen {
            parsed(acc.push(ts[pos].text), pos + 2)
        } else if after == TokenKind::Comma {
            parse_parameters_spec(ts, pos + 2, acc.push(ts[pos].text))
        } else {
            failed("`,` expected but not found in parameter list"@)
        }
    } else {
        failed(
            "expected identifier but found `"@ + token_debug_text(ts[pos])
                + "` in function parameter list"@,
        )
    }
}

/// `fn ( <parameters> ) { .. }` with `fn` at index `pos`.
pub open spec fn parse_function_spec(ts: Seq<TokenView>, pos: int) -> Parsed<ExpressionView>
    decreases ts.len() - pos, 1int,
{
    if kind_at(ts, pos) == TokenKind::Eof {
        ended()
    } else if kind_at(ts, pos + 1) != TokenKind::Lparen {
        failed("`(` missing in function parameter list"@)
    } else {
        let parameters = parse_parameters_spec(ts, pos + 2, Seq::empty());
        match parameters.result {
            Err(e) => rejected(e),
            Ok(names) => if kind_at(ts, parameters.end) != TokenKind::Lbrace {
                failed("function body missing"@)
            } else if parameters.end <= pos {
                failed(Seq::empty())
            } else {
                let body = parse_block_spec(ts, parameters.end);
                match body.result {
                    Err(e) => rejected(e),
                    Ok(statements) => parsed(ExpressionView::Function(names, statements), body.end),
                }
            },
        }
    }
}

/// `{ <statements> }` with `{` at index `pos`.
pub open spec fn parse_block_spec(ts: Seq<TokenView>, pos: int) -> Parsed<Seq<StatementView>>
    decreases ts.len() - pos, 1int,
{
    if kind_at(ts, pos) == TokenKind::Eof {
        ended()
    } else {
        parse_block_statements_spec(ts, pos + 1, Seq::empty())
    }
}

/// The statements of a block from index `pos` on and after the statements
/// `acc`, up to the `}`. A `;` between statements is skipped.
pub open spec fn parse_block_statements_spec(
    ts: Seq<TokenView>,
    pos: int,
    acc: Seq<StatementView>,
) -> Parsed<Seq<StatementView>>
    decreases ts.len() - pos, 6int,
{
    let kind = kind_at(ts, pos);
    if kind == TokenKind::Eof {
        ended()
    } else if kind == TokenKind::Rbrace {
        parsed(acc, pos + 1)
    } else if kind == TokenKind::Semicolon {
        parse_block_statements_spec(ts, pos + 1, acc)
    } else {
        let statement = parse_statement_spec(ts, pos);
        match statement.result {
            Err(e) => rejected(e),
            Ok(s) => if statement.end <= pos || statement.end > ts.len() {
                parsed(acc, pos)
            } else {
                parse_block_statements_spec(ts, statement.end, acc.push(s))
            },
        }
    }
}

/// The statements of a program from index `pos` on and after the statements
/// `acc`, up to the end of the tokens. A `;` between statements is skipped.
/// Tokens that end inside a statement are an error.
pub open spec fn parse_program_spec(ts: Seq<TokenView>, pos: int, acc: Seq<StatementView>) -> Parsed<
    Seq<StatementView>,
>
    decreases ts.len() - pos,
{
    let kind = kind_at(ts, pos);
    if kind == TokenKind::Eof {
        parsed(acc, pos)
    } else if kind == TokenKind::Semicolon {
        parse_program_spec(ts, pos + 1, acc)
    } else {
        let statement = parse_statement_spec(ts, pos);
        match statement.result {
            Err(ParseErrorView::Eof) => failed("unexpected eof in the middle of a statement"@),
            Err(e) => rejected(e),
            Ok(s) => if statement.end <= pos || statement.end > ts.len() {
                parsed(acc, pos)
            } else {
                parse_program_spec(ts, statement.end, acc.push(s))
            },
        }
    }
}

/// Tokens that a parser takes: at least one, the last of them `Eof`.
pub open spec fn tokens_well_formed(ts: Seq<TokenView>) -> bool {
    ts.len() > 0 && ts.last().kind == TokenKind::Eof
}

/// The model of the result of parsing a program.
pub open spec fn root_result_view(r: ParseResult<RootNode>) -> Result<
    Seq<StatementView>,
    ParseErrorView,
> {
    match r {
        Ok(root) => Ok(root@),
        Err(e) => Err(e@),
    }
}

spec fn expression_parsed(
    r: (ParseResult<ExpressionNode>, usize),
    expected: Parsed<ExpressionView>,
    position: usize,
    len: usize,
) -> bool {
    match r.0 {
        Ok(e) => {
            &&& expected.result == Ok::<ExpressionView, ParseErrorView>(e@)
            &&& r.1 == expected.end
            &&& position < r.1 < len
            &&& well_formed_expression(e@)
        },
        Err(e) => expected.result == Err::<ExpressionView, ParseErrorView>(e@),
    }
}

spec fn statement_parsed(
    r: (ParseResult<StatementNode>, usize),
    expected: Parsed<StatementView>,
    position: usize,
    len: usize,
) -> bool {
    match r.0 {
        Ok(s) => {
            &&& expected.result == Ok::<StatementView, ParseErrorView>(s@)
            &&& r.1 == expected.end
            &&& position < r.1 < len
            &&& well_formed_statement(s@)
        },
        Err(e) => expected.result == Err::<StatementView, ParseErrorView>(e@),
    }
}

spec fn block_parsed(
    r: (ParseResult<BlockExpressionNode>, usize),
    expected: Parsed<Seq<StatementView>>,
    position: usize,
    len: usize,
) -> bool {
    match r.0 {
        Ok(b) => {
            &&& expected.result == Ok::<Seq<StatementView>, ParseErrorView>(b@)
            &&& r.1 == expected.end
            &&& position < r.1 < len
            &&& well_formed_statements(b@)
        },
        Err(e) => expected.result == Err::<Seq<StatementView>, ParseErrorView>(e@),
    }
}

spec fn list_parsed(
    r: (ParseResult<Vec<ExpressionNode>>, usize),
    expected: Parsed<Seq<ExpressionView>>,
    position: usize,
    len: usize,
) -> bool {
    match r.0 {
        Ok(v) => {
            &&& expected.result == Ok::<Seq<ExpressionView>, ParseErrorView>(expressions_view(v@))
            &&& r.1 == expected.end
            &&& position < r.1 < len
            &&& forall|i: int|
                0 <= i < v@.len() ==> well_formed_expression(#[trigger] expressions_view(v@)[i])
        },
        Err(e) => expected.result == Err::<Seq<ExpressionView>, ParseErrorView>(e@),
    }
}

proof fn lemma_token_views(tokens: Seq<Token>, i: int)
    requires
        tokens_well_formed(token_views(tokens)),
        0 <= i < tokens.len(),
    ensures
        token_views(tokens).len() == tokens.len(),
        token_views(tokens)[i] == tokens[i]@,
        kind_at(token_views(tokens), i) == tokens[i]@.kind,
        tokens[i]@.kind != TokenKind::Eof ==> i + 1 < tokens.len(),
{
}

/// The kind of the token at `position`. A token that is no `Eof` is not the
/// last.
fn peek(tokens: &Vec<Token>, position: usize) -> (kind: TokenKind)
    requires
        tokens_well_formed(token_views(tokens@)),
        position < tokens.len(),
    ensures
        kind == kind_at(token_views(tokens@), position as int),
        kind == tokens@[position as int]@.kind,
        kind != TokenKind::Eof ==> position + 1 < tokens.len(),
{
    proof {
        lemma_token_views(tokens@, position as int);
    }
    tokens[position].kind()
}

fn error<T>(message: &str) -> (r: (ParseResult<T>, usize))
    ensures
        r.0 == Err::<T, ParseError>(r.0->Err_0),
        r.0->Err_0@ == ParseErrorView::Error(message@),
{
    (Err(ParseError::Error(String::from_str(message))), 0)
}

/// The parser: the tokens of a program, which end with `Eof`, and the index
/// of the next one to read.
pub struct Parser {
    tokens: Vec<Token>,
    position: usize,
}

impl Parser {
    /// The tokens, as their models.
    pub closed spec fn tokens(&self) -> Seq<TokenView> {
        token_views(self.tokens@)
    }

    /// The index of the next token to read.
    pub closed spec fn position(&self) -> int {
        self.position as int
    }

    /// The tokens end with `Eof`, and the position is the index of one of them.
    #[verifier::type_invariant]
    spec fn position_in_tokens(self) -> bool {
        tokens_well_formed(token_views(self.tokens@)) && self.position < self.tokens.len()
    }

    pub fn new(tokens: Vec<Token>) -> (parser: Self)
        requires
            tokens_well_formed(token_views(tokens@)),
        ensures
            parser.tokens() == token_views(tokens@),
            parser.position() == 0,
    {
        Parser { tokens, position: 0 }
    }

    /// Parses the statements from the position up to the end of the tokens.
    /// Where it succeeds, every node of the tree is well formed and the
    /// position is at the end; where it fails, the position stays.
    pub fn parse(&mut self) -> (r: ParseResult<RootNode>)
        ensures
            final(self).tokens() == old(self).tokens(),
            root_result_view(r) == parse_program_spec(
                old(self).tokens(),
                old(self).position(),
                Seq::empty(),
            ).result,
            r matches Ok(root) ==> well_formed_statements(root@) && final(self).position()
                == parse_program_spec(old(self).tokens(), old(self).position(), Seq::empty()).end,
            r is Err ==> final(self).position() == old(self).position(),
    {
        proof {
            use_type_invariant(&*self);
        }
        let (result, end) = Self::parse_program(&self.tokens, self.position);
        if result.is_ok() {
            self.position = end;
        }
        result
    }

    /// The statements from `position` up to the end of the tokens.
    fn parse_program(tokens: &Vec<Token>, position: usize) -> (r: (ParseResult<RootNode>, usize))
        requires
            tokens_well_formed(token_views(tokens@)),
            position < tokens.len(),
        ensures
            root_result_view(r.0) == parse_program_spec(
                token_views(tokens@),
                position as int,
                Seq::empty(),
            ).result,
            r.0 matches Ok(root) ==> {
                &&& well_formed_statements(root@)
                &&& r.1 == parse_program_spec(
                    token_views(tokens@),
                    position as int,
                    Seq::empty(),
                ).end
                &&& r.1 < tokens.len()
            },
    {
        let mut statements: Vec<StatementNode> = Vec::new();
        let mut next: usize = position;
        let ghost ts = token_views(tokens@);
        assert(statements_view(statements@) =~= Seq::empty());
        //reads the next statement
        loop
            invariant
                ts == token_views(tokens@),
                tokens_well_formed(ts),
                position <= next < tokens.len(),
                parse_program_spec(ts, position as int, Seq::empty()) == parse_program_spec(
                    ts,
                    next as int,
                    statements_view(statements@),
                ),
                well_formed_statements(statements_view(statements@)),
            decreases tokens.len() - next,
        {
            let kind = peek(tokens, next);
            if kind == TokenKind::Eof {
                return (Ok(RootNode::new(statements)), next);
            }
            //empty statement
            if kind == TokenKind::Semicolon {
                next = next + 1;
                continue ;
            }
            let (statement, end) = Self::parse_statement(tokens, next);
            match statement {
                Err(ParseError::Eof) => {
                    return error("unexpected eof in the middle of a statement");
                },
                Err(e) => {
                    return (Err(e), end);
                },
                Ok(s) => {
                    let ghost before = statements_view(statements@);
                    statements.push(s);
                    assert(statements_view(statements@) =~= before.push(s@));
                    next = end;
                },
            }
        }
    }

    fn parse_statement(tokens: &Vec<Token>, position: usize) -> (r: (ParseResult<StatementNode>, usize))
        requires
            tokens_well_formed(token_views(tokens@)),
            position < tokens.len(),
        ensures
            statement_parsed(
                r,
                parse_statement_spec(token_views(tokens@), position as int),
                position,
                tokens.len(),
            ),
        decreases tokens.len() - position, 5int,
    {
        match peek(tokens, position) {
            TokenKind::Eof => (Err(ParseError::Eof), position),
            TokenKind::Let => Self::parse_let_statement(tokens, position),
            TokenKind::Return => Self::parse_return_statement(tokens, position),
            _ => Self::parse_expression_statement(tokens, position),
        }
    }

    /// `{ <statements> }`
    fn parse_block_expression(tokens: &Vec<Token>, position: usize) -> (r: (
        ParseResult<BlockExpressionNode>,
        usize,
    ))
        requires
            tokens_well_formed(token_views(tokens@)),
            position < tokens.len(),
            tokens@[position as int]@.kind == TokenKind::Lbrace,
        ensures
            block_parsed(
                r,
                parse_block_spec(token_views(tokens@), position as int),
                position,
                tokens.len(),
            ),
        decreases tokens.len() - position, 1int,
    {
        let ghost ts = token_views(tokens@);
        proof {
            lemma_token_views(tokens@, position as int);
        }
        let mut statements: Vec<StatementNode> = Vec::new();
        let mut next: usize = position + 1;
        assert(statements_view(statements@) =~= Seq::empty());
        loop
            invariant
                ts == token_views(tokens@),
                tokens_well_formed(ts),
                position < next < tokens.len(),
                parse_block_spec(ts, position as int) == parse_block_statements_spec(
                    ts,
                    next as int,
                    statements_view(statements@),
                ),
                well_formed_statements(statements_view(statements@)),
            decreases tokens.len() - next,
        {
            let kind = peek(tokens, next);
            if kind == TokenKind::Eof {
                return (Err(ParseError::Eof), next);
            }
            if kind == TokenKind::Rbrace {
                return (Ok(BlockExpressionNode::new(statements)), next + 1);
            }
            if kind == TokenKind::Semicolon {
                next = next + 1;
                continue ;
            }
            let (statement, end) = Self::parse_statement(tokens, next);
            match statement {
                Err(e) => {
                    return (Err(e), end);
                },
                Ok(s) => {
                    let ghost before = statements_view(statements@);
                    statements.push(s);
                    assert(statements_view(statements@) =~= before.push(s@));
                    next = end;
                },
            }
        }
    }

    /// `let <identifier> = <expression>;`
    fn parse_let_statement(tokens: &Vec<Token>, position: usize) -> (r: (
        ParseResult<StatementNode>,
        usize,
    ))
        requires
            tokens_well_formed(token_views(tokens@)),
            position < tokens.len(),
            tokens@[position as int]@.kind == TokenKind::Let,
        ensures
            statement_parsed(
                r,
                parse_let_statement_spec(token_views(tokens@), position as int),
                position,
                tokens.len(),
            ),
        decreases tokens.len() - position, 4int,
    {
        proof {
            lemma_token_views(tokens@, position as int);
        }
        if peek(tokens, position + 1) != TokenKind::Ident {
            return error("identifier missing or reserved keyword used after `let`");
        }
        let identifier = IdentifierNode::new(tokens[position + 1].clone());
        if peek(tokens, position + 2) != TokenKind::Assign {
            return error("`=` missing in `let`");
        }
        let (value, end) = Self::parse_expression(tokens, position + 3, Precedence::Lowest);
        match value {
            Err(e) => (Err(e), end),
            Ok(expr) => {
                if peek(tokens, end) != TokenKind::Semicolon {
                    return error("`;` missing in `let`");
                }
                proof {
                    lemma_token_views(tokens@, position + 1);
                }
                (Ok(StatementNode::Let(LetStatementNode::new(identifier, Box::new(expr)))), end + 1)
            },
        }
    }

    /// `return [<expression>];`
    fn parse_return_statement(tokens: &Vec<Token>, position: usize) -> (r: (
        ParseResult<StatementNode>,
        usize,
    ))
        requires
            tokens_well_formed(token_views(tokens@)),
            position < tokens.len(),
            tokens@[position as int]@.kind == TokenKind::Return,
        ensures
            statement_parsed(
                r,
                parse_return_statement_spec(token_views(tokens@), position as int),
                position,
                tokens.len(),
            ),
        decreases tokens.len() - position, 4int,
    {
        proof {
            lemma_token_views(tokens@, position as int);
        }
        if peek(tokens, position + 1) == TokenKind::Semicolon {
            return (Ok(StatementNode::Return(ReturnStatementNode::new(None))), position + 2);
        }
        let (value, end) = Self::parse_expression(tokens, position + 1, Precedence::Lowest);
        match value {
            Err(e) => (Err(e), end),
            Ok(expr) => {
                if peek(tokens, end) != TokenKind::Semicolon {
                    return error("`;` missing in `return`");
                }
                (Ok(StatementNode::Return(ReturnStatementNode::new(Some(Box::new(expr))))), end + 1)
            },
        }
    }

    /// `<expression>[;]`
    fn parse_expression_statement(tokens: &Vec<Token>, position: usize) -> (r: (
        ParseResult<StatementNode>,
        usize,
    ))
        requires
            tokens_well_formed(token_views(tokens@)),
            position < tokens.len(),
        ensures
            statement_parsed(
                r,
                parse_expression_statement_spec(token_views(tokens@), position as int),
                position,
                tokens.len(),
            ),
        decreases tokens.len() - position, 4int,
    {
        let (value, end) = Self::parse_expression(tokens, position, Precedence::Lowest);
        match value {
            Err(e) => (Err(e), end),
            Ok(expr) => {
                let next = if peek(tokens, end) == TokenKind::Semicolon {
                    end + 1
                } else {
                    end
                };
                (Ok(StatementNode::Expression(ExpressionStatementNode::new(Box::new(expr)))), next)
            },
        }
    }

    /// The form with which an expression starts.
    fn parse_prefix(tokens: &Vec<Token>, position: usize) -> (r: (ParseResult<ExpressionNode>, usize))
        requires
            tokens_well_formed(token_views(tokens@)),
            position < tokens.len(),
        ensures
            expression_parsed(
                r,
                parse_prefix_spec(token_views(tokens@), position as int),
                position,
                tokens.len(),
            ),
        decreases tokens.len() - position, 2int,
    {
        proof {
            lemma_token_views(tokens@, position as int);
        }
        match peek(tokens, position) {
            TokenKind::Eof => (Err(ParseError::Eof), position),
            TokenKind::Lbrace => {
                let (block, end) = Self::parse_block_expression(tokens, position);
                match block {
                    Err(e) => (Err(e), end),
                    Ok(b) => {
                        let e = ExpressionNode::Block(b);
                        proof {
                            lemma_expression_view(&e);
                        }
                        (Ok(e), end)
                    },
                }
            },
            TokenKind::Lparen => Self::parse_grouped_expression(tokens, position),
            TokenKind::Ident => (
                Ok(ExpressionNode::Identifier(IdentifierNode::new(tokens[position].clone()))),
                position + 1,
            ),
            TokenKind::Int => (
                Ok(ExpressionNode::IntegerLiteral(IntegerLiteralNode::new(tokens[position].clone()))),
                position + 1,
            ),
            TokenKind::Float => (
                Ok(ExpressionNode::FloatLiteral(FloatLiteralNode::new(tokens[position].clone()))),
                position + 1,
            ),
            TokenKind::True => (
                Ok(ExpressionNode::BooleanLiteral(BooleanLiteralNode::new(tokens[position].clone()))),
                position + 1,
            ),
            TokenKind::False => (
                Ok(ExpressionNode::BooleanLiteral(BooleanLiteralNode::new(tokens[position].clone()))),
                position + 1,
            ),
            TokenKind::Char => (
                Ok(
                    ExpressionNode::CharacterLiteral(
                        CharacterLiteralNode::new(tokens[position].clone()),
                    ),
                ),
                position + 1,
            ),
            TokenKind::String => (
                Ok(ExpressionNode::StringLiteral(StringLiteralNode::new(tokens[position].clone()))),
                position + 1,
            ),
            TokenKind::Lbracket => Self::parse_array_literal(tokens, position),
            TokenKind::Invert => Self::parse_unary_expression(tokens, position),
            TokenKind::Minus => Self::parse_unary_expression(tokens, position),
            TokenKind::If => Self::parse_if_expression(tokens, position),
            TokenKind::Function => Self::parse_function_literal(tokens, position),
            _ => {
                let shown = tokens[position].debug_string();
                let mut message = String::from_str("unexpected start of expression: ");
                message.append(shown.as_str());
                (Err(ParseError::Error(message)), position)
            },
        }
    }

    /// An expression whose operators all bind tighter than `precedence`.
    fn parse_expression(tokens: &Vec<Token>, position: usize, precedence: Precedence) -> (r: (
        ParseResult<ExpressionNode>,
        usize,
    ))
        requires
            tokens_well_formed(token_views(tokens@)),
            position < tokens.len(),
        ensures
            expression_parsed(
                r,
                parse_expression_spec(token_views(tokens@), position as int, precedence),
                position,
                tokens.len(),
            ),
        decreases tokens.len() - position, 3int,
    {
        let ghost ts = token_views(tokens@);
        //parses first expression
        let (first, start) = Self::parse_prefix(tokens, position);
        let mut expr = match first {
            Err(e) => {
                return (Err(e), start);
            },
            Ok(e) => e,
        };
        let mut next: usize = start;
        //parses a binary expression or a call/index expression if the next token is a binary operator, `(` or `[`
        loop
            invariant
                ts == token_views(tokens@),
                tokens_well_formed(ts),
                position < next < tokens.len(),
                parse_expression_spec(ts, position as int, precedence) == parse_infix_spec(
                    ts,
                    next as int,
                    expr@,
                    precedence,
                ),
                well_formed_expression(expr@),
            decreases tokens.len() - next,
        {
            let kind = peek(tokens, next);
            if kind == TokenKind::Eof || kind == TokenKind::Semicolon || precedence.level()
                >= lookup_precedence(kind).level() {
                return (Ok(expr), next);
            }
            let (continued, end) = match kind {
                TokenKind::Lparen => Self::parse_call_expression(tokens, next, expr),
                TokenKind::Lbracket => Self::parse_index_expression(tokens, next, expr),
                _ => Self::parse_binary_expression(tokens, next, expr),
            };
            match continued {
                Err(e) => {
                    return (Err(e), end);
                },
                Ok(e) => {
                    expr = e;
                    next = end;
                },
            }
        }
    }

    /// `(<expression>)`
    ///
    /// `)` binds at the lowest level: that is why the expression inside ends
    /// before it.
    fn parse_grouped_expression(tokens: &Vec<Token>, position: usize) -> (r: (
        ParseResult<ExpressionNode>,
        usize,
    ))
        requires
            tokens_well_formed(token_views(tokens@)),
            position < tokens.len(),
            tokens@[position as int]@.kind == TokenKind::Lparen,
        ensures
            expression_parsed(
                r,
                parse_grouped_spec(token_views(tokens@), position as int),
                position,
                tokens.len(),
            ),
        decreases tokens.len() - position, 1int,
    {
        proof {
            lemma_token_views(tokens@, position as int);
        }
        let (inner, end) = Self::parse_expression(tokens, position + 1, Precedence::Lowest);
        match inner {
            Err(e) => (Err(e), end),
            Ok(expr) => {
                if peek(tokens, end) != TokenKind::Rparen {
                    return error("`)` missing in grouped expression");
                }
                (Ok(expr), end + 1)
            },
        }
    }

    /// The expressions of a list up to the closing token: `<e1>, <e2>, ...`.
    /// The last can be followed by a comma.
    fn parse_list(tokens: &Vec<Token>, position: usize, close: TokenKind, message: &str) -> (r: (
        ParseResult<Vec<ExpressionNode>>,
        usize,
    ))
        requires
            tokens_well_formed(token_views(tokens@)),
            0 < position < tokens.len(),
            close != TokenKind::Eof,
        ensures
            list_parsed(
                r,
                parse_list_spec(
                    token_views(tokens@),
                    position as int,
                    close,
                    message@,
                    Seq::empty(),
                ),
                position,
                tokens.len(),
            ),
        decreases tokens.len() - position, 4int,
    {
        let ghost ts = token_views(tokens@);
        let mut elements: Vec<ExpressionNode> = Vec::new();
        let mut next: usize = position;
        assert(expressions_view(elements@) =~= Seq::empty());
        loop
            invariant
                ts == token_views(tokens@),
                tokens_well_formed(ts),
                close != TokenKind::Eof,
                position <= next < tokens.len(),
                parse_list_spec(ts, position as int, close, message@, Seq::empty())
                    == parse_list_spec(
                    ts,
                    next as int,
                    close,
                    message@,
                    expressions_view(elements@),
                ),
                forall|i: int|
                    0 <= i < elements@.len() ==> well_formed_expression(
                        #[trigger] expressions_view(elements@)[i],
                    ),
            decreases tokens.len() - next,
        {
            let kind = peek(tokens, next);
            if kind == TokenKind::Eof {
                return (Err(ParseError::Eof), next);
            }
            if kind == close {
                return (Ok(elements), next + 1);
            }
            let (item, end) = Self::parse_expression(tokens, next, Precedence::Lowest);
            match item {
                Err(e) => {
                    return (Err(e), end);
                },
                Ok(e) => {
                    let ghost before = expressions_view(elements@);
                    let after = peek(tokens, end);
                    if after == TokenKind::Eof {
                        return (Err(ParseError::Eof), end);
                    }
                    elements.push(e);
                    assert(expressions_view(elements@) =~= before.push(e@));
                    if after == close {
                        return (Ok(elements), end + 1);
                    } else if after == TokenKind::Comma {
                        next = end + 1;
                    } else {
                        return error(message);
                    }
                },
            }
        }
    }

    /// `[<e1>, <e2>, ...]`
    fn parse_array_literal(tokens: &Vec<Token>, position: usize) -> (r: (
        ParseResult<ExpressionNode>,
        usize,
    ))
        requires
            tokens_well_formed(token_views(tokens@)),
            position < tokens.len(),
            tokens@[position as int]@.kind == TokenKind::Lbracket,
        ensures
            expression_parsed(
                r,
                parse_prefix_spec(token_views(tokens@), position as int),
                position,
                tokens.len(),
            ),
        decreases tokens.len() - position, 1int,
    {
        proof {
            lemma_token_views(tokens@, position as int);
        }
        let (elements, end) = Self::parse_list(
            tokens,
            position + 1,
            TokenKind::Rbracket,
            "`,` expected but not found in array literal",
        );
        match elements {
            Err(e) => (Err(e), end),
            Ok(v) => {
                let e = ExpressionNode::ArrayLiteral(ArrayLiteralNode::new(v));
                proof {
                    lemma_expression_view(&e);
                }
                (Ok(e), end)
            },
        }
    }

    /// `<operator> <expression>`
    fn parse_unary_expression(tokens: &Vec<Token>, position: usize) -> (r: (
        ParseResult<ExpressionNode>,
        usize,
    ))
        requires
            tokens_well_formed(token_views(tokens@)),
            position < tokens.len(),
            is_unary_operator(tokens@[position as int]@.kind),
        ensures
            expression_parsed(
                r,
                parse_prefix_spec(token_views(tokens@), position as int),
                position,
                tokens.len(),
            ),
        decreases tokens.len() - position, 1int,
    {
        proof {
            lemma_token_views(tokens@, position as int);
        }
        let operator = tokens[position].clone();
        let (operand, end) = Self::parse_expression(tokens, position + 1, Precedence::Unary);
        match operand {
            Err(e) => (Err(e), end),
            Ok(expr) => (
                Ok(ExpressionNode::Unary(UnaryExpressionNode::new(operator, Box::new(expr)))),
                end,
            ),
        }
    }

    /// `<expression> <operator> <expression>`
    fn parse_binary_expression(tokens: &Vec<Token>, position: usize, left: ExpressionNode) -> (r: (
        ParseResult<ExpressionNode>,
        usize,
    ))
        requires
            tokens_well_formed(token_views(tokens@)),
            position < tokens.len(),
            is_binary_operator(tokens@[position as int]@.kind),
            well_formed_expression(left@),
        ensures
            expression_parsed(
                r,
                parse_binary_spec(token_views(tokens@), position as int, left@),
                position,
                tokens.len(),
            ),
        decreases tokens.len() - position, 1int,
    {
        let kind = peek(tokens, position);
        proof {
            lemma_token_views(tokens@, position as int);
        }
        let operator = tokens[position].clone();
        let (right, end) = Self::parse_expression(tokens, position + 1, lookup_precedence(kind));
        match right {
            Err(e) => (Err(e), end),
            Ok(expr) => (
                Ok(
                    ExpressionNode::Binary(
                        BinaryExpressionNode::new(operator, Box::new(left), Box::new(expr)),
                    ),
                ),
                end,
            ),
        }
    }

    /// `<array name or array literal>[<index>]`
    fn parse_index_expression(tokens: &Vec<Token>, position: usize, array: ExpressionNode) -> (r: (
        ParseResult<ExpressionNode>,
        usize,
    ))
        requires
            tokens_well_formed(token_views(tokens@)),
            position < tokens.len(),
            tokens@[position as int]@.kind == TokenKind::Lbracket,
            well_formed_expression(array@),
        ensures
            expression_parsed(
                r,
                parse_index_spec(token_views(tokens@), position as int, array@),
                position,
                tokens.len(),
            ),
        decreases tokens.len() - position, 1int,
    {
        proof {
            lemma_token_views(tokens@, position as int);
        }
        if peek(tokens, position + 1) == TokenKind::Rbracket {
            return error("empty index in array index expression");
        }
        let (index, end) = Self::parse_expression(tokens, position + 1, Precedence::Lowest);
        match index {
            Err(e) => (Err(e), end),
            Ok(expr) => {
                if peek(tokens, end) != TokenKind::Rbracket {
                    return error("`]` missing in array index expression");
                }
                (
                    Ok(ExpressionNode::Index(IndexExpressionNode::new(Box::new(array), Box::new(expr)))),
                    end + 1,
                )
            },
        }
    }

    /// `<function name or function literal>(<argument(s)>)`
    ///
    /// The last argument can be followed by a comma: `()`, `(a)`, `(a, b * c,)`.
    fn parse_call_expression(tokens: &Vec<Token>, position: usize, function: ExpressionNode) -> (r: (
        ParseResult<ExpressionNode>,
        usize,
    ))
        requires
            tokens_well_formed(token_views(tokens@)),
            position < tokens.len(),
            tokens@[position as int]@.kind == TokenKind::Lparen,
            well_formed_expression(function@),
        ensures
            expression_parsed(
                r,
                parse_call_spec(token_views(tokens@), position as int, function@),
                position,
                tokens.len(),
            ),
        decreases tokens.len() - position, 1int,
    {
        proof {
            lemma_token_views(tokens@, position as int);
        }
        let (arguments, end) = Self::parse_list(
            tokens,
            position + 1,
            TokenKind::Rparen,
            "`,` expected but not found in argument list",
        );
        match arguments {
            Err(e) => (Err(e), end),
            Ok(v) => {
                let e = ExpressionNode::Call(CallExpressionNode::new(Box::new(function), v));
                proof {
                    lemma_expression_view(&e);
                }
                (Ok(e), end)
            },
        }
    }

    /// `if (<expression>) { <statement(s)> } [else { <statement(s)> }]`
    fn parse_if_expression(tokens: &Vec<Token>, position: usize) -> (r: (
        ParseResult<ExpressionNode>,
        usize,
    ))
        requires
            tokens_well_formed(token_views(tokens@)),
            position < tokens.len(),
            tokens@[position as int]@.kind == TokenKind::If,
        ensures
            expression_parsed(
                r,
                parse_if_spec(token_views(tokens@), position as int),
                position,
                tokens.len(),
            ),
        decreases tokens.len() - position, 1int,
    {
        proof {
            lemma_token_views(tokens@, position as int);
        }

        //if clause
        if peek(tokens, position + 1) != TokenKind::Lparen {
            return error("`(` missing in `if` condition");
        }
        let (condition, after_condition) = Self::parse_expression(
            tokens,
            position + 2,
            Precedence::Lowest,
        );
        let condition = match condition {
            Err(e) => {
                return (Err(e), after_condition);
            },
            Ok(c) => c,
        };
        if peek(tokens, after_condition) != TokenKind::Rparen {
            return error("`)` missing in `if` condition");
        }
        if peek(tokens, after_condition + 1) != TokenKind::Lbrace {
            return error("`{` missing in `if` block");
        }
        let (if_value, after_if) = Self::parse_block_expression(tokens, after_condition + 1);
        let if_value = match if_value {
            Err(e) => {
                return (Err(e), after_if);
            },
            Ok(b) => b,
        };

        //else clause
        if peek(tokens, after_if) != TokenKind::Else {
            let e = ExpressionNode::If(IfExpressionNode::new(Box::new(condition), if_value, None));
            proof {
                lemma_expression_view(&e);
            }
            return (Ok(e), after_if);
        }
        if peek(tokens, after_if + 1) != TokenKind::Lbrace {
            return error("`{` missing in `else` block");
        }
        let (else_value, end) = Self::parse_block_expression(tokens, after_if + 1);
        match else_value {
            Err(e) => (Err(e), end),
            Ok(b) => {
                let e = ExpressionNode::If(
                    IfExpressionNode::new(Box::new(condition), if_value, Some(b)),
                );
                proof {
                    lemma_expression_view(&e);
                }
                (Ok(e), end)
            },
        }
    }

    /// The names of a parameter list up to the `)`.
    fn parse_parameters(tokens: &Vec<Token>, position: usize) -> (r: (
        ParseResult<Vec<IdentifierNode>>,
        usize,
    ))
        requires
            tokens_well_formed(token_views(tokens@)),
            0 < position < tokens.len(),
        ensures
            match r.0 {
                Ok(v) => {
                    &&& parse_parameters_spec(
                        token_views(tokens@),
                        position as int,
                        Seq::empty(),
                    ).result == Ok::<Seq<Seq<char>>, ParseErrorView>(names_view(v@))
                    &&& r.1 == parse_parameters_spec(
                        token_views(tokens@),
                        position as int,
                        Seq::empty(),
                    ).end
                    &&& position < r.1 < tokens.len()
                },
                Err(e) => parse_parameters_spec(
                    token_views(tokens@),
                    position as int,
                    Seq::empty(),
                ).result == Err::<Seq<Seq<char>>, ParseErrorView>(e@),
            },
    {
        let ghost ts = token_views(tokens@);
        let mut parameters: Vec<IdentifierNode> = Vec::new();
        let mut next: usize = position;
        assert(names_view(parameters@) =~= Seq::empty());
        loop
            invariant
                ts == token_views(tokens@),
                tokens_well_formed(ts),
                position <= next < tokens.len(),
                parse_parameters_spec(ts, position as int, Seq::empty()) == parse_parameters_spec(
                    ts,
                    next as int,
                    names_view(parameters@),
                ),
            decreases tokens.len() - next,
        {
            proof {
                lemma_token_views(tokens@, next as int);
            }
            match peek(tokens, next) {
                TokenKind::Eof => {
                    return (Err(ParseError::Eof), next);
                },
                TokenKind::Rparen => {
                    return (Ok(parameters), next + 1);
                },
                TokenKind::Ident => {
                    let ghost before = names_view(parameters@);
                    let identifier = IdentifierNode::new(tokens[next].clone());
                    let after = peek(tokens, next + 1);
                    if after == TokenKind::Eof {
                        return (Err(ParseError::Eof), next);
                    }
                    parameters.push(identifier);
                    assert(names_view(parameters@) =~= before.push(ts[next as int].text));
                    if after == TokenKind::Rparen {
                        return (Ok(parameters), next + 2);
                    } else if after == TokenKind::Comma {
                        next = next + 2;
                    } else {
                        return error("`,` expected but not found in parameter list");
                    }
                },
                _ => {
                    let shown = tokens[next].debug_string();
                    return (
                        Err(
                            ParseError::Error(
                                concat3(
                                    "expected identifier but found `",
                                    shown.as_str(),
                                    "` in function parameter list",
                                ),
                            ),
                        ),
                        next,
                    );
                },
            }
        }
    }

    /// `fn (<parameter(s)>) { <statement(s)> }`
    ///
    /// The last parameter can be followed by a comma: `()`, `(a)`, `(a, b,)`.
    fn parse_function_literal(tokens: &Vec<Token>, position: usize) -> (r: (
        ParseResult<ExpressionNode>,
        usize,
    ))
        requires
            tokens_well_formed(token_views(tokens@)),
            position < tokens.len(),
            tokens@[position as int]@.kind == TokenKind::Function,
        ensures
            expression_parsed(
                r,
                parse_function_spec(token_views(tokens@), position as int),
                position,
                tokens.len(),
            ),
        decreases tokens.len() - position, 1int,
    {
        proof {
            lemma_token_views(tokens@, position as int);
        }
        if peek(tokens, position + 1) != TokenKind::Lparen {
            return error("`(` missing in function parameter list");
        }
        let (parameters, after_parameters) = Self::parse_parameters(tokens, position + 2);
        let parameters = match parameters {
            Err(e) => {
                return (Err(e), after_parameters);
            },
            Ok(p) => p,
        };
        if peek(tokens, after_parameters) != TokenKind::Lbrace {
            return error("function body missing");
        }
        let (body, end) = Self::parse_block_expression(tokens, after_parameters);
        match body {
            Err(e) => (Err(e), end),
            Ok(b) => {
                let e = ExpressionNode::FunctionLiteral(
                    FunctionLiteralNode::new(Rc::new(parameters), Rc::new(b)),
                );
                proof {
                    lemma_expression_view(&e);
                }
                (Ok(e), end)
            },
        }
    }
}

/// Whether a construct that starts at `pos` ends after it, before the last
/// token.
pub open spec fn moves_forward<T>(ts: Seq<TokenView>, pos: int, p: Parsed<T>) -> bool {
    p.result is Ok ==> pos < p.end < ts.len()
}

/// A statement that is parsed takes at least one token and ends before the
/// `Eof` at the end.
pub proof fn statement_moves_forward(ts: Seq<TokenView>, pos: int)
    requires
        tokens_well_formed(ts),
        0 <= pos,
    ensures
        moves_forward(ts, pos, parse_statement_spec(ts, pos)),
    decreases ts.len() - pos, 5int,
{
    if kind_at(ts, pos) != TokenKind::Eof {
        if kind_at(ts, pos) == TokenKind::Let {
            if kind_at(ts, pos + 1) == TokenKind::Ident && kind_at(ts, pos + 2)
                == TokenKind::Assign {
                expression_moves_forward(ts, pos + 3, Precedence::Lowest);
            }
        } else if kind_at(ts, pos) == TokenKind::Return {
            expression_moves_forward(ts, pos + 1, Precedence::Lowest);
        } else {
            expression_moves_forward(ts, pos, Precedence::Lowest);
        }
    }
}

/// An expression that is parsed takes at least one token and ends before
/// the `Eof` at the end.
pub proof fn expression_moves_forward(ts: Seq<TokenView>, pos: int, precedence: Precedence)
    requires
        tokens_well_formed(ts),
        0 <= pos,
    ensures
        moves_forward(ts, pos, parse_expression_spec(ts, pos, precedence)),
    decreases ts.len() - pos, 3int,
{
    prefix_moves_forward(ts, pos);
    let first = parse_prefix_spec(ts, pos);
    if let Ok(e) = first.result {
        infix_moves_forward(ts, first.end, e, precedence);
    }
}

/// The form with which an expression starts takes at least one token.
pub proof fn prefix_moves_forward(ts: Seq<TokenView>, pos: int)
    requires
        tokens_well_formed(ts),
        0 <= pos,
    ensures
        moves_forward(ts, pos, parse_prefix_spec(ts, pos)),
    decreases ts.len() - pos, 2int,
{
    match kind_at(ts, pos) {
        TokenKind::Lbrace => {
            block_moves_forward(ts, pos + 1, Seq::empty());
        },
        TokenKind::Lparen => {
            expression_moves_forward(ts, pos + 1, Precedence::Lowest);
        },
        TokenKind::Lbracket => {
            list_moves_forward(
                ts,
                pos + 1,
                TokenKind::Rbracket,
                "`,` expected but not found in array literal"@,
                Seq::empty(),
            );
        },
        TokenKind::Invert | TokenKind::Minus => {
            expression_moves_forward(ts, pos + 1, Precedence::Unary);
        },
        TokenKind::If => {
            if kind_at(ts, pos + 1) == TokenKind::Lparen {
                expression_moves_forward(ts, pos + 2, Precedence::Lowest);
                let condition = parse_expression_spec(ts, pos + 2, Precedence::Lowest);
                if condition.result is Ok && kind_at(ts, condition.end) == TokenKind::Rparen
                    && kind_at(ts, condition.end + 1) == TokenKind::Lbrace {
                    block_moves_forward(ts, condition.end + 2, Seq::empty());
                    let if_value = parse_block_spec(ts, condition.end + 1);
                    if if_value.result is Ok && kind_at(ts, if_value.end) == TokenKind::Else
                        && kind_at(ts, if_value.end + 1) == TokenKind::Lbrace {
                        block_moves_forward(ts, if_value.end + 2, Seq::empty());
                        assert(parse_block_spec(ts, if_value.end + 1)
                            == parse_block_statements_spec(ts, if_value.end + 2, Seq::empty()));
                    }
                }
            }
        },
        TokenKind::Function => {
            if kind_at(ts, pos + 1) == TokenKind::Lparen {
                parameters_move_forward(ts, pos + 2, Seq::empty());
                let parameters = parse_parameters_spec(ts, pos + 2, Seq::empty());
                if parameters.result is Ok && kind_at(ts, parameters.end) == TokenKind::Lbrace {
                    block_moves_forward(ts, parameters.end + 1, Seq::empty());
                    assert(parse_block_spec(ts, parameters.end) == parse_block_statements_spec(
                        ts,
                        parameters.end + 1,
                        Seq::empty(),
                    ));
                }
            }
        },
        _ => {},
    }
}

/// What continues an expression ends at or after where it starts, before
/// the `Eof` at the end.
pub proof fn infix_moves_forward(
    ts: Seq<TokenView>,
    pos: int,
    left: ExpressionView,
    precedence: Precedence,
)
    requires
        tokens_well_formed(ts),
        0 <= pos < ts.len(),
    ensures
        parse_infix_spec(ts, pos, left, precedence).result is Ok ==> pos <= parse_infix_spec(
            ts,
            pos,
            left,
            precedence,
        ).end < ts.len(),
    decreases ts.len() - pos, 2int,
{
    let kind = kind_at(ts, pos);
    if !(kind == TokenKind::Eof || kind == TokenKind::Semicolon || precedence.rank()
        >= precedence_of(kind).rank()) {
        let next = if kind == TokenKind::Lparen {
            list_moves_forward(
                ts,
                pos + 1,
                TokenKind::Rparen,
                "`,` expected but not found in argument list"@,
                Seq::empty(),
            );
            parse_call_spec(ts, pos, left)
        } else if kind == TokenKind::Lbracket {
            if kind_at(ts, pos + 1) != TokenKind::Rbracket {
                expression_moves_forward(ts, pos + 1, Precedence::Lowest);
            }
            parse_index_spec(ts, pos, left)
        } else {
            expression_moves_forward(ts, pos + 1, precedence_of(ts[pos].kind));
            parse_binary_spec(ts, pos, left)
        };
        if let Ok(e) = next.result {
            infix_moves_forward(ts, next.end, e, precedence);
        }
    }
}

/// A list that is parsed ends after its closing token, before the `Eof` at
/// the end.
pub proof fn list_moves_forward(
    ts: Seq<TokenView>,
    pos: int,
    close: TokenKind,
    message: Seq<char>,
    acc: Seq<ExpressionView>,
)
    requires
        tokens_well_formed(ts),
        0 <= pos,
        close != TokenKind::Eof,
    ensures
        moves_forward(ts, pos, parse_list_spec(ts, pos, close, message, acc)),
    decreases ts.len() - pos, 4int,
{
    let kind = kind_at(ts, pos);
    if kind != TokenKind::Eof && kind != close {
        expression_moves_forward(ts, pos, Precedence::Lowest);
        let item = parse_expression_spec(ts, pos, Precedence::Lowest);
        if let Ok(e) = item.result {
            if kind_at(ts, item.end) == TokenKind::Comma {
                list_moves_forward(ts, item.end + 1, close, message, acc.push(e));
            }
        }
    }
}

/// A parameter list that is parsed ends after its `)`, before the `Eof` at
/// the end.
pub proof fn parameters_move_forward(ts: Seq<TokenView>, pos: int, acc: Seq<Seq<char>>)
    requires
        tokens_well_formed(ts),
        0 <= pos,
    ensures
        moves_forward(ts, pos, parse_parameters_spec(ts, pos, acc)),
    decreases ts.len() - pos,
{
    if kind_at(ts, pos) == TokenKind::Ident && kind_at(ts, pos + 1) == TokenKind::Comma {
        parameters_move_forward(ts, pos + 2, acc.push(ts[pos].text));
    }
}

/// The statements of a block that are parsed end after the `}`, before the
/// `Eof` at the end.
pub proof fn block_moves_forward(ts: Seq<TokenView>, pos: int, acc: Seq<StatementView>)
    requires
        tokens_well_formed(ts),
        0 <= pos,
    ensures
        moves_forward(ts, pos, parse_block_statements_spec(ts, pos, acc)),
    decreases ts.len() - pos, 6int,
{
    let kind = kind_at(ts, pos);
    if kind == TokenKind::Semicolon {
        block_moves_forward(ts, pos + 1, acc);
    } else if kind != TokenKind::Eof && kind != TokenKind::Rbrace {
        statement_moves_forward(ts, pos);
        let statement = parse_statement_spec(ts, pos);
        if let Ok(s) = statement.result {
            block_moves_forward(ts, statement.end, acc.push(s));
        }
    }
}

/// A program that is parsed ends at an `Eof`.
pub proof fn program_ends_at_eof(ts: Seq<TokenView>, pos: int, acc: Seq<StatementView>)
    requires
        tokens_well_formed(ts),
        0 <= pos < ts.len(),
    ensures
        parse_program_spec(ts, pos, acc).result is Ok ==> {
            &&& pos <= parse_program_spec(ts, pos, acc).end < ts.len()
            &&& kind_at(ts, parse_program_spec(ts, pos, acc).end) == TokenKind::Eof
        },
    decreases ts.len() - pos,
{
    let kind = kind_at(ts, pos);
    if kind == TokenKind::Semicolon {
        program_ends_at_eof(ts, pos + 1, acc);
    } else if kind != TokenKind::Eof {
        statement_moves_forward(ts, pos);
        let statement = parse_statement_spec(ts, pos);
        if let Ok(s) = statement.result {
            program_ends_at_eof(ts, statement.end, acc.push(s));
        }
    }
}

} // verus!
