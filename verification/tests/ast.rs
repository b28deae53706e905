use monkey_lang::ast::{
    ArrayLiteralNode, BinaryExpressionNode, BlockExpressionNode, BooleanLiteralNode,
    CallExpressionNode, CharacterLiteralNode, ExpressionNode, ExpressionStatementNode,
    FloatLiteralNode, FunctionLiteralNode, IdentifierNode, IfExpressionNode, IndexExpressionNode,
    IntegerLiteralNode, LetStatementNode, ReturnStatementNode, RootNode, StatementNode,
    StringLiteralNode, UnaryExpressionNode,
};
use monkey_lang::token::Token;
use std::rc::Rc;

fn literal(i: i64) -> Box<ExpressionNode> {
    Box::new(ExpressionNode::IntegerLiteral(IntegerLiteralNode::new(Token::Int(i))))
}

fn value(e: &ExpressionNode) -> i64 {
    match e {
        ExpressionNode::IntegerLiteral(n) => n.get_value(),
        _ => panic!("not an integer literal"),
    }
}

fn statement(i: i64) -> StatementNode {
    StatementNode::Expression(ExpressionStatementNode::new(literal(i)))
}

#[test]
fn literal_nodes_keep_the_payload_of_their_token() {
    assert_eq!(IdentifierNode::new(Token::Ident("name".to_string())).get_name(), "name");
    assert_eq!(IdentifierNode::new(Token::Ident("name".to_string())).clone().get_name(), "name");
    assert_eq!(IntegerLiteralNode::new(Token::Int(-5)).get_value(), -5);
    assert_eq!(FloatLiteralNode::new(Token::Float("1.50".to_string())).get_value(), "1.50");
    assert_eq!(BooleanLiteralNode::new(Token::True).get_value(), true);
    assert_eq!(BooleanLiteralNode::new(Token::False).get_value(), false);
    assert_eq!(CharacterLiteralNode::new(Token::Char('あ')).get_value(), 'あ');
    assert_eq!(StringLiteralNode::new(Token::String("a b".to_string())).get_value(), "a b");
}

#[test]
fn root_and_block_keep_their_statements() {
    let root = RootNode::new(vec![statement(1), statement(2)]);
    assert_eq!(root.statements().len(), 2);
    assert!(matches!(&root.statements()[1], StatementNode::Expression(s) if value(s.expression()) == 2));
    let block = BlockExpressionNode::new(vec![statement(3)]);
    assert_eq!(block.statements().len(), 1);
    assert!(matches!(&block.statements()[0], StatementNode::Expression(s) if value(s.expression()) == 3));
    assert_eq!(RootNode::new(vec![]).statements().len(), 0);
}

#[test]
fn operator_nodes_keep_operator_and_operands() {
    let unary = UnaryExpressionNode::new(Token::Minus, literal(1));
    assert_eq!(unary.operator(), &Token::Minus);
    assert_eq!(value(unary.expression()), 1);
    let binary = BinaryExpressionNode::new(Token::Percent, literal(1), literal(2));
    assert_eq!(binary.operator(), &Token::Percent);
    assert_eq!(value(binary.left()), 1);
    assert_eq!(value(binary.right()), 2);
}

#[test]
fn index_and_call_keep_their_parts() {
    let index = IndexExpressionNode::new(literal(1), literal(2));
    assert_eq!(value(index.array()), 1);
    assert_eq!(value(index.index()), 2);
    let call = CallExpressionNode::new(literal(1), vec![*literal(2), *literal(3)]);
    assert_eq!(value(call.function()), 1);
    assert_eq!(call.arguments().len(), 2);
    assert_eq!(value(&call.arguments()[1]), 3);
    let array = ArrayLiteralNode::new(vec![*literal(4)]);
    assert_eq!(array.elements().len(), 1);
    assert_eq!(value(&array.elements()[0]), 4);
}

#[test]
fn a_conditional_keeps_condition_and_blocks() {
    let n = IfExpressionNode::new(
        literal(1),
        BlockExpressionNode::new(vec![statement(2)]),
        Some(BlockExpressionNode::new(vec![statement(3), statement(4)])),
    );
    assert_eq!(value(n.condition()), 1);
    assert_eq!(n.if_value().statements().len(), 1);
    assert_eq!(n.else_value().as_ref().unwrap().statements().len(), 2);
    let n = IfExpressionNode::new(literal(1), BlockExpressionNode::new(vec![]), None);
    assert!(n.else_value().is_none());
}

#[test]
fn a_function_literal_keeps_parameters_and_body() {
    let n = FunctionLiteralNode::new(
        Rc::new(vec![
            IdentifierNode::new(Token::Ident("a".to_string())),
            IdentifierNode::new(Token::Ident("b".to_string())),
        ]),
        Rc::new(BlockExpressionNode::new(vec![statement(1)])),
    );
    assert_eq!(n.parameters().len(), 2);
    assert_eq!(n.parameters()[0].get_name(), "a");
    assert_eq!(n.parameters()[1].get_name(), "b");
    assert_eq!(n.body().statements().len(), 1);
}

#[test]
fn statement_nodes_keep_their_parts() {
    let n = LetStatementNode::new(IdentifierNode::new(Token::Ident("a".to_string())), literal(1));
    assert_eq!(n.identifier().get_name(), "a");
    assert_eq!(value(n.expression()), 1);
    let n = ReturnStatementNode::new(Some(literal(2)));
    assert_eq!(value(n.expression().as_ref().unwrap()), 2);
    assert!(ReturnStatementNode::new(None).expression().is_none());
    let n = ExpressionStatementNode::new(literal(3));
    assert_eq!(value(n.expression()), 3);
}
