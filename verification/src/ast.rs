use crate::token::{plain_token, Token, TokenKind, TokenView};
use std::rc::Rc;
use vstd::prelude::*;

verus! {

/// The mathematical model of an expression.
pub ghost enum ExpressionView {
    Identifier(Seq<char>),
    Integer(i64),
    /// A float literal, by its text.
    Float(Seq<char>),
    Boolean(bool),
    Character(char),
    Str(Seq<char>),
    Array(Seq<ExpressionView>),
    /// The parameters' names and the statements of the body.
    Function(Seq<Seq<char>>, Seq<StatementView>),
    Block(Seq<StatementView>),
    Unary(TokenView, Box<ExpressionView>),
    Binary(TokenView, Box<ExpressionView>, Box<ExpressionView>),
    /// What is indexed, and the index.
    Index(Box<ExpressionView>, Box<ExpressionView>),
    /// What is called, and the arguments.
    Call(Box<ExpressionView>, Seq<ExpressionView>),
    /// The condition, the statements of the first block and, where there is
    /// an `else`, those of the second.
    If(Box<ExpressionView>, Seq<StatementView>, Option<Seq<StatementView>>),
}

/// The mathematical model of a statement.
pub ghost enum StatementView {
    Let(Seq<char>, ExpressionView),
    Return(Option<ExpressionView>),
    Expression(ExpressionView),
}

/// An expression of any form.
#[derive(Debug)]
pub enum ExpressionNode {
    Identifier(IdentifierNode),
    IntegerLiteral(IntegerLiteralNode),
    FloatLiteral(FloatLiteralNode),
    BooleanLiteral(BooleanLiteralNode),
    CharacterLiteral(CharacterLiteralNode),
    StringLiteral(StringLiteralNode),
    ArrayLiteral(ArrayLiteralNode),
    FunctionLiteral(FunctionLiteralNode),
    Block(BlockExpressionNode),
    Unary(UnaryExpressionNode),
    Binary(BinaryExpressionNode),
    Index(IndexExpressionNode),
    Call(CallExpressionNode),
    If(IfExpressionNode),
}

/// A statement of any form.
#[derive(Debug)]
pub enum StatementNode {
    Let(LetStatementNode),
    Return(ReturnStatementNode),
    Expression(ExpressionStatementNode),
}

/// Any node of a syntax tree.
#[derive(Debug)]
pub enum Node {
    Root(RootNode),
    Statement(StatementNode),
    Expression(ExpressionNode),
}

#[derive(Debug)]
pub struct RootNode {
    pub(crate) statements: Vec<StatementNode>,
}

#[derive(Debug)]
pub struct BlockExpressionNode {
    pub(crate) statements: Vec<StatementNode>,
}

#[derive(Debug)]
pub struct IdentifierNode {
    pub(crate) name: String,
}

#[derive(Debug)]
pub struct UnaryExpressionNode {
    pub(crate) operator: Token,
    pub(crate) expression: Box<ExpressionNode>,
}

#[derive(Debug)]
pub struct BinaryExpressionNode {
    pub(crate) operator: Token,
    pub(crate) left: Box<ExpressionNode>,
    pub(crate) right: Box<ExpressionNode>,
}

#[derive(Debug)]
pub struct IndexExpressionNode {
    pub(crate) array: Box<ExpressionNode>,
    pub(crate) index: Box<ExpressionNode>,
}

#[derive(Debug)]
pub struct CallExpressionNode {
    pub(crate) function: Box<ExpressionNode>,
    pub(crate) arguments: Vec<ExpressionNode>,
}

#[derive(Debug)]
pub struct IfExpressionNode {
    pub(crate) condition: Box<ExpressionNode>,
    pub(crate) if_value: BlockExpressionNode,
    pub(crate) else_value: Option<BlockExpressionNode>,
}

#[derive(Debug)]
pub struct IntegerLiteralNode {
    pub(crate) value: i64,
}

#[derive(Debug)]
pub struct FloatLiteralNode {
    pub(crate) text: String,
}

#[derive(Debug)]
pub struct BooleanLiteralNode {
    pub(crate) value: bool,
}

#[derive(Debug)]
pub struct CharacterLiteralNode {
    pub(crate) value: char,
}

#[derive(Debug)]
pub struct StringLiteralNode {
    pub(crate) value: String,
}

#[derive(Debug)]
pub struct ArrayLiteralNode {
    pub(crate) elements: Vec<ExpressionNode>,
}

#[derive(Debug)]
pub struct FunctionLiteralNode {
    pub(crate) parameters: Rc<Vec<IdentifierNode>>,
    pub(crate) body: Rc<BlockExpressionNode>,
}

#[derive(Debug)]
pub struct LetStatementNode {
    pub(crate) identifier: IdentifierNode,
    pub(crate) expression: Box<ExpressionNode>,
}

#[derive(Debug)]
pub struct ReturnStatementNode {
    pub(crate) expression: Option<Box<ExpressionNode>>,
}

#[derive(Debug)]
pub struct ExpressionStatementNode {
    pub(crate) expression: Box<ExpressionNode>,
}

/// The names of a list of identifiers.
pub open(crate) spec fn names_view(identifiers: Seq<IdentifierNode>) -> Seq<Seq<char>> {
    identifiers.map_values(|n: IdentifierNode| n.name@)
}

/// The model of an expression.
pub open(crate) spec fn expression_view(e: ExpressionNode) -> ExpressionView
    decreases e,
{
    match e {
        ExpressionNode::Identifier(n) => ExpressionView::Identifier(n.name@),
        ExpressionNode::IntegerLiteral(n) => ExpressionView::Integer(n.value),
        ExpressionNode::FloatLiteral(n) => ExpressionView::Float(n.text@),
        ExpressionNode::BooleanLiteral(n) => ExpressionView::Boolean(n.value),
        ExpressionNode::CharacterLiteral(n) => ExpressionView::Character(n.value),
        ExpressionNode::StringLiteral(n) => ExpressionView::Str(n.value@),
        ExpressionNode::ArrayLiteral(n) => ExpressionView::Array(
            Seq::new(
                n.elements@.len(),
                |i: int|
                    if 0 <= i < n.elements@.len() {
                        expression_view(n.elements@[i])
                    } else {
                        arbitrary()
                    },
            ),
        ),
        ExpressionNode::FunctionLiteral(n) => ExpressionView::Function(
            names_view(n.parameters@),
            Seq::new(
                n.body.statements@.len(),
                |i: int|
                    if 0 <= i < n.body.statements@.len() {
                        statement_view(n.body.statements@[i])
                    } else {
                        arbitrary()
                    },
            ),
        ),
        ExpressionNode::Block(n) => ExpressionView::Block(
            Seq::new(
                n.statements@.len(),
                |i: int|
                    if 0 <= i < n.statements@.len() {
                        statement_view(n.statements@[i])
                    } else {
                        arbitrary()
                    },
            ),
        ),
        ExpressionNode::Unary(n) => ExpressionView::Unary(
            n.operator@,
            Box::new(expression_view(*n.expression)),
        ),
        ExpressionNode::Binary(n) => ExpressionView::Binary(
            n.operator@,
            Box::new(expression_view(*n.left)),
            Box::new(expression_view(*n.right)),
        ),
        ExpressionNode::Index(n) => ExpressionView::Index(
            Box::new(expression_view(*n.array)),
            Box::new(expression_view(*n.index)),
        ),
        ExpressionNode::Call(n) => ExpressionView::Call(
            Box::new(expression_view(*n.function)),
            Seq::new(
                n.arguments@.len(),
                |i: int|
                    if 0 <= i < n.arguments@.len() {
                        expression_view(n.arguments@[i])
                    } else {
                        arbitrary()
                    },
            ),
        ),
        ExpressionNode::If(n) => ExpressionView::If(
            Box::new(expression_view(*n.condition)),
            Seq::new(
                n.if_value.statements@.len(),
                |i: int|
                    if 0 <= i < n.if_value.statements@.len() {
                        statement_view(n.if_value.statements@[i])
                    } else {
                        arbitrary()
                    },
            ),
            match n.else_value {
                None => None,
                Some(b) => Some(
                    Seq::new(
                        b.statements@.len(),
                        |i: int|
                            if 0 <= i < b.statements@.len() {
                                statement_view(b.statements@[i])
                            } else {
                                arbitrary()
                            },
                    ),
                ),
            },
        ),
    }
}

/// The model of a statement.
pub open(crate) spec fn statement_view(s: StatementNode) -> StatementView
    decreases s,
{
    match s {
        StatementNode::Let(n) => StatementView::Let(n.identifier.name@, expression_view(*n.expression)),
        StatementNode::Return(n) => StatementView::Return(
            match n.expression {
                None => None,
                Some(e) => Some(expression_view(*e)),
            },
        ),
        StatementNode::Expression(n) => StatementView::Expression(expression_view(*n.expression)),
    }
}

/// The models of a list of statements.
pub open(crate) spec fn statements_view(statements: Seq<StatementNode>) -> Seq<StatementView> {
    Seq::new(statements.len(), |i: int| statement_view(statements[i]))
}

/// The models of a list of expressions.
pub open(crate) spec fn expressions_view(expressions: Seq<ExpressionNode>) -> Seq<ExpressionView> {
    Seq::new(expressions.len(), |i: int| expression_view(expressions[i]))
}

/// The mathematical model of a node of any sort.
pub ghost enum NodeView {
    Root(Seq<StatementView>),
    Statement(StatementView),
    Expression(ExpressionView),
}

impl View for ExpressionNode {
    type V = ExpressionView;

    open(crate) spec fn view(&self) -> ExpressionView {
        expression_view(*self)
    }
}

impl View for StatementNode {
    type V = StatementView;

    open(crate) spec fn view(&self) -> StatementView {
        statement_view(*self)
    }
}

impl View for Node {
    type V = NodeView;

    open(crate) spec fn view(&self) -> NodeView {
        match self {
            Node::Root(n) => NodeView::Root(n@),
            Node::Statement(n) => NodeView::Statement(n@),
            Node::Expression(n) => NodeView::Expression(n@),
        }
    }
}

/// What a node's model says in terms of the models of its parts.
pub(crate) proof fn lemma_expression_view(e: &ExpressionNode)
    ensures
        match *e {
            ExpressionNode::Identifier(n) => e@ == ExpressionView::Identifier(n@),
            ExpressionNode::IntegerLiteral(n) => e@ == ExpressionView::Integer(n@),
            ExpressionNode::FloatLiteral(n) => e@ == ExpressionView::Float(n@),
            ExpressionNode::BooleanLiteral(n) => e@ == ExpressionView::Boolean(n@),
            ExpressionNode::CharacterLiteral(n) => e@ == ExpressionView::Character(n@),
            ExpressionNode::StringLiteral(n) => e@ == ExpressionView::Str(n@),
            ExpressionNode::ArrayLiteral(n) => e@ == n@ && e@ == ExpressionView::Array(
                expressions_view(n.elements@),
            ),
            ExpressionNode::FunctionLiteral(n) => e@ == n@ && e@ == ExpressionView::Function(
                names_view(n.parameters@),
                n.body@,
            ),
            ExpressionNode::Block(n) => e@ == ExpressionView::Block(n@),
            ExpressionNode::Unary(n) => e@ == n@ && e@ == ExpressionView::Unary(
                n.operator@,
                Box::new(n.expression@),
            ),
            ExpressionNode::Binary(n) => e@ == n@ && e@ == ExpressionView::Binary(
                n.operator@,
                Box::new(n.left@),
                Box::new(n.right@),
            ),
            ExpressionNode::Index(n) => e@ == n@ && e@ == ExpressionView::Index(
                Box::new(n.array@),
                Box::new(n.index@),
            ),
            ExpressionNode::Call(n) => e@ == n@ && e@ == ExpressionView::Call(
                Box::new(n.function@),
                expressions_view(n.arguments@),
            ),
            ExpressionNode::If(n) => e@ == n@ && e@ == ExpressionView::If(
                Box::new(n.condition@),
                n.if_value@,
                match n.else_value {
                    None => None,
                    Some(b) => Some(b@),
                },
            ),
        },
{
    match *e {
        ExpressionNode::ArrayLiteral(n) => {
            assert(e@->Array_0 =~= expressions_view(n.elements@));
        },
        ExpressionNode::FunctionLiteral(n) => {
            assert(e@->Function_1 =~= n.body@);
        },
        ExpressionNode::Block(n) => {
            assert(e@->Block_0 =~= n@);
        },
        ExpressionNode::Call(n) => {
            assert(e@->Call_1 =~= expressions_view(n.arguments@));
        },
        ExpressionNode::If(n) => {
            assert(e@->If_1 =~= n.if_value@);
            match n.else_value {
                None => {},
                Some(b) => {
                    assert(e@->If_2->0 =~= b@);
                },
            }
        },
        _ => {},
    }
}

impl View for RootNode {
    type V = Seq<StatementView>;

    open(crate) spec fn view(&self) -> Seq<StatementView> {
        statements_view(self.statements@)
    }
}

impl RootNode {
    pub fn new(statements: Vec<StatementNode>) -> (n: Self)
        ensures
            n@ == statements_view(statements@),
    {
        RootNode { statements }
    }

    pub fn statements(&self) -> (r: &Vec<StatementNode>)
        ensures
            statements_view(r@) == self@,
    {
        &self.statements
    }
}

impl View for BlockExpressionNode {
    type V = Seq<StatementView>;

    open(crate) spec fn view(&self) -> Seq<StatementView> {
        statements_view(self.statements@)
    }
}

impl BlockExpressionNode {
    pub fn new(statements: Vec<StatementNode>) -> (n: Self)
        ensures
            n@ == statements_view(statements@),
    {
        BlockExpressionNode { statements }
    }

    pub fn statements(&self) -> (r: &Vec<StatementNode>)
        ensures
            statements_view(r@) == self@,
    {
        &self.statements
    }
}

impl View for IdentifierNode {
    type V = Seq<char>;

    open(crate) spec fn view(&self) -> Seq<char> {
        self.name@
    }
}

impl IdentifierNode {
    /// The node for an identifier token.
    pub fn new(token: Token) -> (n: Self)
        requires
            token@.kind == TokenKind::Ident,
        ensures
            n@ == token@.text,
    {
        match token {
            Token::Ident(name) => IdentifierNode { name },
            _ => unreached(),
        }
    }

    pub fn get_name(&self) -> (name: &str)
        ensures
            name@ == self@,
    {
        self.name.as_str()
    }
}

impl Clone for IdentifierNode {
    fn clone(&self) -> (n: Self)
        ensures
            n@ == self@,
    {
        IdentifierNode { name: self.name.clone() }
    }
}

impl View for UnaryExpressionNode {
    type V = ExpressionView;

    open(crate) spec fn view(&self) -> ExpressionView {
        ExpressionView::Unary(self.operator@, Box::new(self.expression@))
    }
}

impl UnaryExpressionNode {
    pub fn new(operator: Token, expression: Box<ExpressionNode>) -> (n: Self)
        ensures
            n@ == ExpressionView::Unary(operator@, Box::new(expression@)),
    {
        UnaryExpressionNode { operator, expression }
    }

    pub fn operator(&self) -> (r: &Token)
        ensures
            self@ matches ExpressionView::Unary(operator, _) && r@ == operator,
    {
        &self.operator
    }

    pub fn expression(&self) -> (r: &ExpressionNode)
        ensures
            self@ matches ExpressionView::Unary(_, expression) && r@ == *expression,
    {
        &*self.expression
    }
}

impl View for BinaryExpressionNode {
    type V = ExpressionView;

    open(crate) spec fn view(&self) -> ExpressionView {
        ExpressionView::Binary(self.operator@, Box::new(self.left@), Box::new(self.right@))
    }
}

impl BinaryExpressionNode {
    pub fn new(operator: Token, left: Box<ExpressionNode>, right: Box<ExpressionNode>) -> (n: Self)
        ensures
            n@ == ExpressionView::Binary(operator@, Box::new(left@), Box::new(right@)),
    {
        BinaryExpressionNode { operator, left, right }
    }

    pub fn operator(&self) -> (r: &Token)
        ensures
            self@ matches ExpressionView::Binary(operator, _, _) && r@ == operator,
    {
        &self.operator
    }

    pub fn left(&self) -> (r: &ExpressionNode)
        ensures
            self@ matches ExpressionView::Binary(_, left, _) && r@ == *left,
    {
        &*self.left
    }

    pub fn right(&self) -> (r: &ExpressionNode)
        ensures
            self@ matches ExpressionView::Binary(_, _, right) && r@ == *right,
    {
        &*self.right
    }
}

impl View for IndexExpressionNode {
    type V = ExpressionView;

    open(crate) spec fn view(&self) -> ExpressionView {
        ExpressionView::Index(Box::new(self.array@), Box::new(self.index@))
    }
}

impl IndexExpressionNode {
    pub fn new(array: Box<ExpressionNode>, index: Box<ExpressionNode>) -> (n: Self)
        ensures
            n@ == ExpressionView::Index(Box::new(array@), Box::new(index@)),
    {
        IndexExpressionNode { array, index }
    }

    pub fn array(&self) -> (r: &ExpressionNode)
        ensures
            self@ matches ExpressionView::Index(array, _) && r@ == *array,
    {
        &*self.array
    }

    pub fn index(&self) -> (r: &ExpressionNode)
        ensures
            self@ matches ExpressionView::Index(_, index) && r@ == *index,
    {
        &*self.index
    }
}

impl View for CallExpressionNode {
    type V = ExpressionView;

    open(crate) spec fn view(&self) -> ExpressionView {
        ExpressionView::Call(Box::new(self.function@), expressions_view(self.arguments@))
    }
}

impl CallExpressionNode {
    pub fn new(function: Box<ExpressionNode>, arguments: Vec<ExpressionNode>) -> (n: Self)
        ensures
            n@ == ExpressionView::Call(Box::new(function@), expressions_view(arguments@)),
    {
        CallExpressionNode { function, arguments }
    }

    pub fn function(&self) -> (r: &ExpressionNode)
        ensures
            self@ matches ExpressionView::Call(function, _) && r@ == *function,
    {
        &*self.function
    }

    pub fn arguments(&self) -> (r: &Vec<ExpressionNode>)
        ensures
            self@ matches ExpressionView::Call(_, arguments) && expressions_view(r@) == arguments,
    {
        &self.arguments
    }
}

/// The model of a block that may be missing.
pub open spec fn optional_block_view(b: Option<BlockExpressionNode>) -> Option<Seq<StatementView>> {
    match b {
        None => None,
        Some(b) => Some(b@),
    }
}

impl View for IfExpressionNode {
    type V = ExpressionView;

    open(crate) spec fn view(&self) -> ExpressionView {
        ExpressionView::If(
            Box::new(self.condition@),
            self.if_value@,
            optional_block_view(self.else_value),
        )
    }
}

impl IfExpressionNode {
    pub fn new(
        condition: Box<ExpressionNode>,
        if_value: BlockExpressionNode,
        else_value: Option<BlockExpressionNode>,
    ) -> (n: Self)
        ensures
            n@ == ExpressionView::If(
                Box::new(condition@),
                if_value@,
                optional_block_view(else_value),
            ),
    {
        IfExpressionNode { condition, if_value, else_value }
    }

    pub fn condition(&self) -> (r: &ExpressionNode)
        ensures
            self@ matches ExpressionView::If(condition, _, _) && r@ == *condition,
    {
        &*self.condition
    }

    pub fn if_value(&self) -> (r: &BlockExpressionNode)
        ensures
            self@ matches ExpressionView::If(_, if_value, _) && r@ == if_value,
    {
        &self.if_value
    }

    pub fn else_value(&self) -> (r: &Option<BlockExpressionNode>)
        ensures
            self@ matches ExpressionView::If(_, _, else_value) && optional_block_view(*r)
                == else_value,
    {
        &self.else_value
    }
}

impl View for IntegerLiteralNode {
    type V = i64;

    open(crate) spec fn view(&self) -> i64 {
        self.value
    }
}

impl IntegerLiteralNode {
    /// The node for an integer token.
    pub fn new(token: Token) -> (n: Self)
        requires
            token@.kind == TokenKind::Int,
        ensures
            n@ == token@.number,
    {
        match token {
            Token::Int(value) => IntegerLiteralNode { value },
            _ => unreached(),
        }
    }

    pub fn get_value(&self) -> (value: i64)
        ensures
            value == self@,
    {
        self.value
    }
}

impl View for FloatLiteralNode {
    type V = Seq<char>;

    open(crate) spec fn view(&self) -> Seq<char> {
        self.text@
    }
}

impl FloatLiteralNode {
    /// The node for a float token.
    pub fn new(token: Token) -> (n: Self)
        requires
            token@.kind == TokenKind::Float,
        ensures
            n@ == token@.text,
    {
        match token {
            Token::Float(text) => FloatLiteralNode { text },
            _ => unreached(),
        }
    }

    /// The literal's text, as written.
    pub fn get_value(&self) -> (text: &str)
        ensures
            text@ == self@,
    {
        self.text.as_str()
    }
}

impl View for BooleanLiteralNode {
    type V = bool;

    open(crate) spec fn view(&self) -> bool {
        self.value
    }
}

impl BooleanLiteralNode {
    /// The node for the token `true` or `false`.
    pub fn new(token: Token) -> (n: Self)
        requires
            token@.kind == TokenKind::True || token@.kind == TokenKind::False,
        ensures
            n@ == (token@.kind == TokenKind::True),
    {
        match token {
            Token::True => BooleanLiteralNode { value: true },
            _ => BooleanLiteralNode { value: false },
        }
    }

    pub fn get_value(&self) -> (value: bool)
        ensures
            value == self@,
    {
        self.value
    }
}

impl View for CharacterLiteralNode {
    type V = char;

    open(crate) spec fn view(&self) -> char {
        self.value
    }
}

impl CharacterLiteralNode {
    /// The node for a character token.
    pub fn new(token: Token) -> (n: Self)
        requires
            token@.kind == TokenKind::Char,
        ensures
            n@ == token@.character,
    {
        match token {
            Token::Char(value) => CharacterLiteralNode { value },
            _ => unreached(),
        }
    }

    pub fn get_value(&self) -> (value: char)
        ensures
            value == self@,
    {
        self.value
    }
}

impl View for StringLiteralNode {
    type V = Seq<char>;

    open(crate) spec fn view(&self) -> Seq<char> {
        self.value@
    }
}

impl StringLiteralNode {
    /// The node for a string token.
    pub fn new(token: Token) -> (n: Self)
        requires
            token@.kind == TokenKind::String,
        ensures
            n@ == token@.text,
    {
        match token {
            Token::String(value) => StringLiteralNode { value },
            _ => unreached(),
        }
    }

    pub fn get_value(&self) -> (value: &str)
        ensures
            value@ == self@,
    {
        self.value.as_str()
    }
}

impl View for ArrayLiteralNode {
    type V = ExpressionView;

    open(crate) spec fn view(&self) -> ExpressionView {
        ExpressionView::Array(expressions_view(self.elements@))
    }
}

impl ArrayLiteralNode {
    pub fn new(elements: Vec<ExpressionNode>) -> (n: Self)
        ensures
            n@ == ExpressionView::Array(expressions_view(elements@)),
    {
        ArrayLiteralNode { elements }
    }

    pub fn elements(&self) -> (r: &Vec<ExpressionNode>)
        ensures
            self@ == ExpressionView::Array(expressions_view(r@)),
    {
        &self.elements
    }
}

impl View for FunctionLiteralNode {
    type V = ExpressionView;

    open(crate) spec fn view(&self) -> ExpressionView {
        ExpressionView::Function(names_view(self.parameters@), self.body@)
    }
}

impl FunctionLiteralNode {
    pub fn new(parameters: Rc<Vec<IdentifierNode>>, body: Rc<BlockExpressionNode>) -> (n: Self)
        ensures
            n@ == ExpressionView::Function(names_view(parameters@), body@),
    {
        FunctionLiteralNode { parameters, body }
    }

    pub fn parameters(&self) -> (r: &Rc<Vec<IdentifierNode>>)
        ensures
            self@ matches ExpressionView::Function(parameters, _) && names_view(r@) == parameters,
    {
        &self.parameters
    }

    pub fn body(&self) -> (r: &Rc<BlockExpressionNode>)
        ensures
            self@ matches ExpressionView::Function(_, body) && r@ == body,
    {
        &self.body
    }
}

impl View for LetStatementNode {
    type V = StatementView;

    open(crate) spec fn view(&self) -> StatementView {
        StatementView::Let(self.identifier@, self.expression@)
    }
}

impl LetStatementNode {
    pub fn new(identifier: IdentifierNode, expression: Box<ExpressionNode>) -> (n: Self)
        ensures
            n@ == StatementView::Let(identifier@, expression@),
    {
        LetStatementNode { identifier, expression }
    }

    pub fn identifier(&self) -> (r: &IdentifierNode)
        ensures
            self@ matches StatementView::Let(name, _) && r@ == name,
    {
        &self.identifier
    }

    pub fn expression(&self) -> (r: &ExpressionNode)
        ensures
            self@ matches StatementView::Let(_, expression) && r@ == expression,
    {
        &*self.expression
    }
}

/// The model of an expression that may be missing.
pub open spec fn optional_expression_view(e: Option<Box<ExpressionNode>>) -> Option<ExpressionView> {
    match e {
        None => None,
        Some(e) => Some(e@),
    }
}

impl View for ReturnStatementNode {
    type V = StatementView;

    open(crate) spec fn view(&self) -> StatementView {
        StatementView::Return(optional_expression_view(self.expression))
    }
}

impl ReturnStatementNode {
    pub fn new(expression: Option<Box<ExpressionNode>>) -> (n: Self)
        ensures
            n@ == StatementView::Return(optional_expression_view(expression)),
    {
        ReturnStatementNode { expression }
    }

    pub fn expression(&self) -> (r: &Option<Box<ExpressionNode>>)
        ensures
            self@ == StatementView::Return(optional_expression_view(*r)),
    {
        &self.expression
    }
}

impl View for ExpressionStatementNode {
    type V = StatementView;

    open(crate) spec fn view(&self) -> StatementView {
        StatementView::Expression(self.expression@)
    }
}

impl ExpressionStatementNode {
    pub fn new(expression: Box<ExpressionNode>) -> (n: Self)
        ensures
            n@ == StatementView::Expression(expression@),
    {
        ExpressionStatementNode { expression }
    }

    pub fn expression(&self) -> (r: &ExpressionNode)
        ensures
            self@ == StatementView::Expression(r@),
    {
        &*self.expression
    }
}

/// The prefix operators.
pub open spec fn is_unary_operator(kind: TokenKind) -> bool {
    kind == TokenKind::Minus || kind == TokenKind::Invert
}

/// The infix operators: arithmetic, comparison and logic.
pub open spec fn is_binary_operator(kind: TokenKind) -> bool {
    kind == TokenKind::Plus || kind == TokenKind::Minus || kind == TokenKind::Asterisk || kind
        == TokenKind::Slash || kind == TokenKind::Percent || kind == TokenKind::Power || kind
        == TokenKind::Eq || kind == TokenKind::NotEq || kind == TokenKind::Lt || kind
        == TokenKind::Gt || kind == TokenKind::LtEq || kind == TokenKind::GtEq || kind
        == TokenKind::And || kind == TokenKind::Or
}

/// An expression is well formed where every unary node holds a prefix
/// operator, every binary node an infix operator, and every part of it is
/// well formed.
pub open spec fn well_formed_expression(e: ExpressionView) -> bool
    decreases e,
{
    match e {
        ExpressionView::Array(elements) => forall|i: int|
            0 <= i < elements.len() ==> well_formed_expression(#[trigger] elements[i]),
        ExpressionView::Function(_, body) => forall|i: int|
            0 <= i < body.len() ==> well_formed_statement(#[trigger] body[i]),
        ExpressionView::Block(statements) => forall|i: int|
            0 <= i < statements.len() ==> well_formed_statement(#[trigger] statements[i]),
        ExpressionView::Unary(operator, operand) => {
            &&& operator == plain_token(operator.kind)
            &&& is_unary_operator(operator.kind)
            &&& well_formed_expression(*operand)
        },
        ExpressionView::Binary(operator, left, right) => {
            &&& operator == plain_token(operator.kind)
            &&& is_binary_operator(operator.kind)
            &&& well_formed_expression(*left)
            &&& well_formed_expression(*right)
        },
        ExpressionView::Index(target, index) => well_formed_expression(*target)
            && well_formed_expression(*index),
        ExpressionView::Call(callee, arguments) => {
            &&& well_formed_expression(*callee)
            &&& forall|i: int|
                0 <= i < arguments.len() ==> well_formed_expression(#[trigger] arguments[i])
        },
        ExpressionView::If(condition, then_block, else_block) => {
            &&& well_formed_expression(*condition)
            &&& forall|i: int|
                0 <= i < then_block.len() ==> well_formed_statement(#[trigger] then_block[i])
            &&& else_block matches Some(statements) ==> forall|i: int|
                0 <= i < statements.len() ==> well_formed_statement(#[trigger] statements[i])
        },
        _ => true,
    }
}

/// A statement is well formed where its expression is.
pub open spec fn well_formed_statement(s: StatementView) -> bool
    decreases s,
{
    match s {
        StatementView::Let(_, e) => well_formed_expression(e),
        StatementView::Return(e) => e matches Some(e) ==> well_formed_expression(e),
        StatementView::Expression(e) => well_formed_expression(e),
    }
}

/// A list of statements is well formed where each of them is.
pub open spec fn well_formed_statements(statements: Seq<StatementView>) -> bool {
    forall|i: int| 0 <= i < statements.len() ==> well_formed_statement(#[trigger] statements[i])
}

} // verus!
