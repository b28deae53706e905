use monkey_lang::ast::{
    BlockExpressionNode, ExpressionNode, IdentifierNode, RootNode, StatementNode,
};
use monkey_lang::lexer::get_tokens;
use monkey_lang::parser::{ParseError, Parser};
use monkey_lang::token::Token;

// Shows a token as `{:#?}` does, without whitespace.
fn show_token(t: &Token) -> String {
    match t {
        Token::Ident(s) => format!("Ident({:?},)", s),
        Token::Int(i) => format!("Int({},)", i),
        Token::Float(s) => format!("Float({:?},)", s.parse::<f64>().unwrap()),
        Token::String(s) => format!("String({:?},)", s),
        Token::Char(c) => format!("Char({:?},)", c),
        t => format!("{:?}", t),
    }
}

fn show_identifier(n: &IdentifierNode) -> String {
    format!("IdentifierNode{{token:Ident({:?},),}}", n.get_name())
}

fn show_statements(statements: &Vec<StatementNode>) -> String {
    let mut s = String::from("[");
    for statement in statements {
        s += &show_statement(statement);
        s += ",";
    }
    s + "]"
}

fn show_block(b: &BlockExpressionNode) -> String {
    format!("BlockExpressionNode{{statements:{},}}", show_statements(b.statements()))
}

fn show_expressions(expressions: &Vec<ExpressionNode>) -> String {
    let mut s = String::from("[");
    for expression in expressions {
        s += &show_expression(expression);
        s += ",";
    }
    s + "]"
}

fn show_expression(e: &ExpressionNode) -> String {
    match e {
        ExpressionNode::Identifier(n) => show_identifier(n),
        ExpressionNode::IntegerLiteral(n) => {
            format!("IntegerLiteralNode{{token:Int({},),}}", n.get_value())
        }
        ExpressionNode::FloatLiteral(n) => format!(
            "FloatLiteralNode{{token:Float({:?},),}}",
            n.get_value().parse::<f64>().unwrap()
        ),
        ExpressionNode::BooleanLiteral(n) => format!(
            "BooleanLiteralNode{{token:{},}}",
            if n.get_value() { "True" } else { "False" }
        ),
        ExpressionNode::CharacterLiteral(n) => {
            format!("CharacterLiteralNode{{token:Char({:?},),}}", n.get_value())
        }
        ExpressionNode::StringLiteral(n) => {
            format!("StringLiteralNode{{token:String({:?},),}}", n.get_value())
        }
        ExpressionNode::ArrayLiteral(n) => {
            format!("ArrayLiteralNode{{elements:{},}}", show_expressions(n.elements()))
        }
        ExpressionNode::FunctionLiteral(n) => {
            let mut parameters = String::from("[");
            for p in n.parameters().iter() {
                parameters += &show_identifier(p);
                parameters += ",";
            }
            parameters += "]";
            format!(
                "FunctionLiteralNode{{parameters:{},body:{},}}",
                parameters,
                show_block(n.body())
            )
        }
        ExpressionNode::Block(n) => show_block(n),
        ExpressionNode::Unary(n) => format!(
            "UnaryExpressionNode{{operator:{},expression:{},}}",
            show_token(n.operator()),
            show_expression(n.expression())
        ),
        ExpressionNode::Binary(n) => format!(
            "BinaryExpressionNode{{operator:{},left:{},right:{},}}",
            show_token(n.operator()),
            show_expression(n.left()),
            show_expression(n.right())
        ),
        ExpressionNode::Index(n) => format!(
            "IndexExpressionNode{{array:{},index:{},}}",
            show_expression(n.array()),
            show_expression(n.index())
        ),
        ExpressionNode::Call(n) => format!(
            "CallExpressionNode{{function:{},arguments:{},}}",
            show_expression(n.function()),
            show_expressions(n.arguments())
        ),
        ExpressionNode::If(n) => format!(
            "IfExpressionNode{{condition:{},if_value:{},else_value:{},}}",
            show_expression(n.condition()),
            show_block(n.if_value()),
            match n.else_value() {
                None => "None".to_string(),
                Some(b) => format!("Some({},)", show_block(b)),
            }
        ),
    }
}

fn show_statement(s: &StatementNode) -> String {
    match s {
        StatementNode::Let(n) => format!(
            "LetStatementNode{{identifier:{},expression:{},}}",
            show_identifier(n.identifier()),
            show_expression(n.expression())
        ),
        StatementNode::Return(n) => format!(
            "ReturnStatementNode{{expression:{},}}",
            match n.expression() {
                None => "None".to_string(),
                Some(e) => format!("Some({},)", show_expression(e)),
            }
        ),
        StatementNode::Expression(n) => format!(
            "ExpressionStatementNode{{expression:{},}}",
            show_expression(n.expression())
        ),
    }
}

// Shows a tree as `{:#?}` does, without whitespace.
fn show_root(root: &RootNode) -> String {
    format!("RootNode{{statements:{},}}", show_statements(root.statements()))
}

fn strip(s: &str) -> String {
    s.split_whitespace().collect::<Vec<&str>>().join("")
}

fn test(input: &str, expected: &str) {
    let mut parser = Parser::new(get_tokens(input).unwrap());
    let root = parser.parse();
    if root.is_err() {
        println!("{:#?}", root);
    }
    assert!(root.is_ok());
    let root = root.unwrap();
    println!("{:#?}", root);
    assert_eq!(strip(expected), strip(&show_root(&root)));
}

fn test_error(input: &str, expected: &str) {
    let mut parser = Parser::new(get_tokens(input).unwrap());
    let root = parser.parse();
    if root.is_ok() {
        println!("{:#?}", root.as_ref().unwrap());
    }
    assert!(root.is_err());
    match root {
        Ok(_) => unreachable!(),
        Err(e) => assert_eq!(e, ParseError::Error(expected.to_string())),
    }
}

#[test]
fn test_empty_input() {
    let input = r#""#;
    let expected = r#"
            RootNode {
                statements: [],
            }
        "#;
    test(input, expected);
}

#[test]
fn test_single_statement() {
    let input = r#"
            3
        "#;
    let expected = r#"
            RootNode {
                statements: [
                    ExpressionStatementNode {
                        expression: IntegerLiteralNode {
                            token: Int(
                                3,
                            ),
                        },
                    },
                ],
            }
        "#;
    test(input, expected);
}

#[test]
fn test_two_statements() {
    let input = r#"
            3; ; 4
        "#;
    let expected = r#"
            RootNode {
                statements: [
                    ExpressionStatementNode {
                        expression: IntegerLiteralNode {
                            token: Int(
                                3,
                            ),
                        },
                    },
                    ExpressionStatementNode {
                        expression: IntegerLiteralNode {
                            token: Int(
                                4,
                            ),
                        },
                    },
                ],
            }
        "#;
    test(input, expected);
}

#[test]
fn test_error_propagation_01() {
    let input = r#"
            let
        "#;
    let expected = "identifier missing or reserved keyword used after `let`";
    test_error(input, expected);
}

#[test]
fn test_error_propagation_02() {
    let input = r#"
            3 +
        "#;
    let expected = "unexpected eof in the middle of a statement";
    test_error(input, expected);
}

#[test]
fn test_block_expression_01() {
    let input = r#"
            {} { 3 } { 3; 3 + 4; }
        "#;
    let expected = r#"
            RootNode {
                statements: [
                    ExpressionStatementNode {
                        expression: BlockExpressionNode {
                            statements: [],
                        },
                    },
                    ExpressionStatementNode {
                        expression: BlockExpressionNode {
                            statements: [
                                ExpressionStatementNode {
                                    expression: IntegerLiteralNode {
                                        token: Int(
                                            3,
                                        ),
                                    },
                                },
                            ],
                        },
                    },
                    ExpressionStatementNode {
                        expression: BlockExpressionNode {
                            statements: [
                                ExpressionStatementNode {
                                    expression: IntegerLiteralNode {
                                        token: Int(
                                            3,
                                        ),
                                    },
                                },
                                ExpressionStatementNode {
                                    expression: BinaryExpressionNode {
                                        operator: Plus,
                                        left: IntegerLiteralNode {
                                            token: Int(
                                                3,
                                            ),
                                        },
                                        right: IntegerLiteralNode {
                                            token: Int(
                                                4,
                                            ),
                                        },
                                    },
                                },
                            ],
                        },
                    },
                ],
            }
        "#;
    test(input, expected);
}

#[test]
fn test_let_statement_01() {
    let input = r#"
            let a = 1;
        "#;
    let expected = r#"
            RootNode {
                statements: [
                    LetStatementNode {
                        identifier: IdentifierNode {
                            token: Ident(
                                "a",
                            ),
                        },
                        expression: IntegerLiteralNode {
                            token: Int(
                                1,
                            ),
                        },
                    },
                ],
            }
        "#;
    test(input, expected);
}

#[test]
fn test_let_statement_02() {
    let input = r#"
            let = 1;
        "#;
    let expected = "identifier missing or reserved keyword used after `let`";
    test_error(input, expected);

    let input = r#"
            let a * 1;
        "#;
    let expected = "`=` missing in `let`";
    test_error(input, expected);

    let input = r#"
            let a = ;
        "#;
    let expected = "unexpected start of expression: Semicolon";
    test_error(input, expected);

    let input = r#"
            let a = 3
        "#;
    let expected = "`;` missing in `let`";
    test_error(input, expected);
}

#[test]
fn test_return_statement_01() {
    let input = r#"
            return;
            return 3;
        "#;
    let expected = r#"
            RootNode {
                statements: [
                    ReturnStatementNode {
                        expression: None,
                    },
                    ReturnStatementNode {
                        expression: Some(
                            IntegerLiteralNode {
                                token: Int(
                                    3,
                                ),
                            },
                        ),
                    },
                ],
            }
        "#;
    test(input, expected);
}

#[test]
fn test_return_statement_02() {
    let input = r#"
            return 3
        "#;
    let expected = "`;` missing in `return`";
    test_error(input, expected);
}

#[test]
fn test_expression_statement_01() {
    let input = r#"
            3; 4
        "#;
    let expected = r#"
            RootNode {
                statements: [
                    ExpressionStatementNode {
                        expression: IntegerLiteralNode {
                            token: Int(
                                3,
                            ),
                        },
                    },
                    ExpressionStatementNode {
                        expression: IntegerLiteralNode {
                            token: Int(
                                4,
                            ),
                        },
                    },
                ],
            }
        "#;
    test(input, expected);
}

#[test]
fn test_expression_01() {
    let input = r#"
            1 + 2 * 3; 1 * 2 + 3;
        "#;
    let expected = r#"
            RootNode {
                statements: [
                    ExpressionStatementNode {
                        expression: BinaryExpressionNode {
                            operator: Plus,
                            left: IntegerLiteralNode {
                                token: Int(
                                    1,
                                ),
                            },
                            right: BinaryExpressionNode {
                                operator: Asterisk,
                                left: IntegerLiteralNode {
                                    token: Int(
                                        2,
                                    ),
                                },
                                right: IntegerLiteralNode {
                                    token: Int(
                                        3,
                                    ),
                                },
                            },
                        },
                    },
                    ExpressionStatementNode {
                        expression: BinaryExpressionNode {
                            operator: Plus,
                            left: BinaryExpressionNode {
                                operator: Asterisk,
                                left: IntegerLiteralNode {
                                    token: Int(
                                        1,
                                    ),
                                },
                                right: IntegerLiteralNode {
                                    token: Int(
                                        2,
                                    ),
                                },
                            },
                            right: IntegerLiteralNode {
                                token: Int(
                                    3,
                                ),
                            },
                        },
                    },
                ],
            }
        "#;
    test(input, expected);
}

#[test]
fn test_grouped_expression_01() {
    let input = r#"
            3 * (1 + 2)
        "#;
    let expected = r#"
            RootNode {
                statements: [
                    ExpressionStatementNode {
                        expression: BinaryExpressionNode {
                            operator: Asterisk,
                            left: IntegerLiteralNode {
                                token: Int(
                                    3,
                                ),
                            },
                            right: BinaryExpressionNode {
                                operator: Plus,
                                left: IntegerLiteralNode {
                                    token: Int(
                                        1,
                                    ),
                                },
                                right: IntegerLiteralNode {
                                    token: Int(
                                        2,
                                    ),
                                },
                            },
                        },
                    },
                ],
            }
        "#;
    test(input, expected);
}

#[test]
fn test_grouped_expression_02() {
    let input = r#"
            (3 + 4
        "#;
    let expected = "`)` missing in grouped expression";
    test_error(input, expected);
}

#[test]
fn test_identifier_01() {
    let input = r#"
            a
        "#;
    let expected = r#"
            RootNode {
                statements: [
                    ExpressionStatementNode {
                        expression: IdentifierNode {
                            token: Ident(
                                "a",
                            ),
                        },
                    },
                ],
            }
        "#;
    test(input, expected);
}

#[test]
fn test_integer_literal_01() {
    let input = r#"
            -1; 0
        "#;
    let expected = r#"
            RootNode {
                statements: [
                    ExpressionStatementNode {
                        expression: UnaryExpressionNode {
                            operator: Minus,
                            expression: IntegerLiteralNode {
                                token: Int(
                                    1,
                                ),
                            },
                        },
                    },
                    ExpressionStatementNode {
                        expression: IntegerLiteralNode {
                            token: Int(
                                0,
                            ),
                        },
                    },
                ],
            }
        "#;
    test(input, expected);
}

#[test]
fn test_float_literal_01() {
    let input = r#"
            -1.; .0; 3.14
        "#;
    let expected = r#"
            RootNode {
                statements: [
                    ExpressionStatementNode {
                        expression: UnaryExpressionNode {
                            operator: Minus,
                            expression: FloatLiteralNode {
                                token: Float(
                                    1.0,
                                ),
                            },
                        },
                    },
                    ExpressionStatementNode {
                        expression: FloatLiteralNode {
                            token: Float(
                                0.0,
                            ),
                        },
                    },
                    ExpressionStatementNode {
                        expression: FloatLiteralNode {
                            token: Float(
                                3.14,
                            ),
                        },
                    },
                ],
            }
        "#;
    test(input, expected);
}

#[test]
fn test_boolean_literal_01() {
    let input = r#"
            true; false;
        "#;
    let expected = r#"
            RootNode {
                statements: [
                    ExpressionStatementNode {
                        expression: BooleanLiteralNode {
                            token: True,
                        },
                    },
                    ExpressionStatementNode {
                        expression: BooleanLiteralNode {
                            token: False,
                        },
                    },
                ],
            }
        "#;
    test(input, expected);
}

#[test]
fn test_character_literal_01() {
    let input = r#"
            'a' '\0'
        "#;
    let expected = r#"
            RootNode {
                statements: [
                    ExpressionStatementNode {
                        expression: CharacterLiteralNode {
                            token: Char(
                                'a',
                            ),
                        },
                    },
                    ExpressionStatementNode {
                        expression: CharacterLiteralNode {
                            token: Char(
                                '\0',
                            ),
                        },
                    },
                ],
            }
        "#;
    test(input, expected);
}

#[test]
fn test_string_literal_01() {
    let input = r#"
            "" "abc\ndef"
        "#;
    let expected = r#"
            RootNode {
                statements: [
                    ExpressionStatementNode {
                        expression: StringLiteralNode {
                            token: String(
                                "",
                            ),
                        },
                    },
                    ExpressionStatementNode {
                        expression: StringLiteralNode {
                            token: String(
                                "abc\ndef",
                            ),
                        },
                    },
                ],
            }
        "#;
    test(input, expected);
}

#[test]
fn test_array_literal_01() {
    let input = r#"
            []; [a]; [a,]; [a, b]; [a, b, c]
        "#;
    let expected = r#"
            RootNode {
                statements: [
                    ExpressionStatementNode {
                        expression: ArrayLiteralNode {
                            elements: [],
                        },
                    },
                    ExpressionStatementNode {
                        expression: ArrayLiteralNode {
                            elements: [
                                IdentifierNode {
                                    token: Ident(
                                        "a",
                                    ),
                                },
                            ],
                        },
                    },
                    ExpressionStatementNode {
                        expression: ArrayLiteralNode {
                            elements: [
                                IdentifierNode {
                                    token: Ident(
                                        "a",
                                    ),
                                },
                            ],
                        },
                    },
                    ExpressionStatementNode {
                        expression: ArrayLiteralNode {
                            elements: [
                                IdentifierNode {
                                    token: Ident(
                                        "a",
                                    ),
                                },
                                IdentifierNode {
                                    token: Ident(
                                        "b",
                                    ),
                                },
                            ],
                        },
                    },
                    ExpressionStatementNode {
                        expression: ArrayLiteralNode {
                            elements: [
                                IdentifierNode {
                                    token: Ident(
                                        "a",
                                    ),
                                },
                                IdentifierNode {
                                    token: Ident(
                                        "b",
                                    ),
                                },
                                IdentifierNode {
                                    token: Ident(
                                        "c",
                                    ),
                                },
                            ],
                        },
                    },
                ],
            }
        "#;
    test(input, expected);
}

#[test]
fn test_array_literal_02() {
    let input = r#"
            [1 2 3]
        "#;
    let expected = "`,` expected but not found in array literal";
    test_error(input, expected);

    let input = r#"
            [,]
        "#;
    let expected = "unexpected start of expression: Comma";
    test_error(input, expected);

    let input = r#"
            [a,,b]
        "#;
    let expected = "unexpected start of expression: Comma";
    test_error(input, expected);
}

#[test]
fn test_unary_expression_01() {
    let input = r#"
            !3
        "#;
    let expected = r#"
            RootNode {
                statements: [
                    ExpressionStatementNode {
                        expression: UnaryExpressionNode {
                            operator: Invert,
                            expression: IntegerLiteralNode {
                                token: Int(
                                    3,
                                ),
                            },
                        },
                    },
                ],
            }
        "#;
    test(input, expected);
}

#[test]
fn test_binary_expression_01() {
    let input = r#"
            1 + 2
        "#;
    let expected = r#"
            RootNode {
                statements: [
                    ExpressionStatementNode {
                        expression: BinaryExpressionNode {
                            operator: Plus,
                            left: IntegerLiteralNode {
                                token: Int(
                                    1,
                                ),
                            },
                            right: IntegerLiteralNode {
                                token: Int(
                                    2,
                                ),
                            },
                        },
                    },
                ],
            }
        "#;
    test(input, expected);
}

#[test]
fn test_index_expression_01() {
    let input = r#"
            a[0]; [1, 2, 3][1]
        "#;
    let expected = r#"
            RootNode {
                statements: [
                    ExpressionStatementNode {
                        expression: IndexExpressionNode {
                            array: IdentifierNode {
                                token: Ident(
                                    "a",
                                ),
                            },
                            index: IntegerLiteralNode {
                                token: Int(
                                    0,
                                ),
                            },
                        },
                    },
                    ExpressionStatementNode {
                        expression: IndexExpressionNode {
                            array: ArrayLiteralNode {
                                elements: [
                                    IntegerLiteralNode {
                                        token: Int(
                                            1,
                                        ),
                                    },
                                    IntegerLiteralNode {
                                        token: Int(
                                            2,
                                        ),
                                    },
                                    IntegerLiteralNode {
                                        token: Int(
                                            3,
                                        ),
                                    },
                                ],
                            },
                            index: IntegerLiteralNode {
                                token: Int(
                                    1,
                                ),
                            },
                        },
                    },
                ],
            }
        "#;
    test(input, expected);
}

#[test]
fn test_index_expression_02() {
    let input = r#"
            a[]
        "#;
    let expected = "empty index in array index expression";
    test_error(input, expected);

    let input = r#"
            a[3 + 2
        "#;
    let expected = "`]` missing in array index expression";
    test_error(input, expected);
}

#[test]
fn test_call_expression_01() {
    let input = r#"
            f(); f(a); f(a,); f(a, b); f(a, b, c)
        "#;
    let expected = r#"
            RootNode {
                statements: [
                    ExpressionStatementNode {
                        expression: CallExpressionNode {
                            function: IdentifierNode {
                                token: Ident(
                                    "f",
                                ),
                            },
                            arguments: [],
                        },
                    },
                    ExpressionStatementNode {
                        expression: CallExpressionNode {
                            function: IdentifierNode {
                                token: Ident(
                                    "f",
                                ),
                            },
                            arguments: [
                                IdentifierNode {
                                    token: Ident(
                                        "a",
                                    ),
                                },
                            ],
                        },
                    },
                    ExpressionStatementNode {
                        expression: CallExpressionNode {
                            function: IdentifierNode {
                                token: Ident(
                                    "f",
                                ),
                            },
                            arguments: [
                                IdentifierNode {
                                    token: Ident(
                                        "a",
                                    ),
                                },
                            ],
                        },
                    },
                    ExpressionStatementNode {
                        expression: CallExpressionNode {
                            function: IdentifierNode {
                                token: Ident(
                                    "f",
                                ),
                            },
                            arguments: [
                                IdentifierNode {
                                    token: Ident(
                                        "a",
                                    ),
                                },
                                IdentifierNode {
                                    token: Ident(
                                        "b",
                                    ),
                                },
                            ],
                        },
                    },
                    ExpressionStatementNode {
                        expression: CallExpressionNode {
                            function: IdentifierNode {
                                token: Ident(
                                    "f",
                                ),
                            },
                            arguments: [
                                IdentifierNode {
                                    token: Ident(
                                        "a",
                                    ),
                                },
                                IdentifierNode {
                                    token: Ident(
                                        "b",
                                    ),
                                },
                                IdentifierNode {
                                    token: Ident(
                                        "c",
                                    ),
                                },
                            ],
                        },
                    },
                ],
            }
        "#;
    test(input, expected);
}

#[test]
fn test_call_expression_02() {
    let input = r#"
            f(1 2 3)
        "#;
    let expected = "`,` expected but not found in argument list";
    test_error(input, expected);

    let input = r#"
            f(,)
        "#;
    let expected = "unexpected start of expression: Comma";
    test_error(input, expected);

    let input = r#"
            f(a,,b)
        "#;
    let expected = "unexpected start of expression: Comma";
    test_error(input, expected);
}

#[test]
fn test_if_expression_01() {
    let input = r#"
            if (x) { y };
            if (x) { y; z; } else { w }
        "#;
    let expected = r#"
            RootNode {
                statements: [
                    ExpressionStatementNode {
                        expression: IfExpressionNode {
                            condition: IdentifierNode {
                                token: Ident(
                                    "x",
                                ),
                            },
                            if_value: BlockExpressionNode {
                                statements: [
                                    ExpressionStatementNode {
                                        expression: IdentifierNode {
                                            token: Ident(
                                                "y",
                                            ),
                                        },
                                    },
                                ],
                            },
                            else_value: None,
                        },
                    },
                    ExpressionStatementNode {
                        expression: IfExpressionNode {
                            condition: IdentifierNode {
                                token: Ident(
                                    "x",
                                ),
                            },
                            if_value: BlockExpressionNode {
                                statements: [
                                    ExpressionStatementNode {
                                        expression: IdentifierNode {
                                            token: Ident(
                                                "y",
                                            ),
                                        },
                                    },
                                    ExpressionStatementNode {
                                        expression: IdentifierNode {
                                            token: Ident(
                                                "z",
                                            ),
                                        },
                                    },
                                ],
                            },
                            else_value: Some(
                                BlockExpressionNode {
                                    statements: [
                                        ExpressionStatementNode {
                                            expression: IdentifierNode {
                                                token: Ident(
                                                    "w",
                                                ),
                                            },
                                        },
                                    ],
                                },
                            ),
                        },
                    },
                ],
            }
        "#;
    test(input, expected);
}

#[test]
fn test_if_expression_02() {
    let input = r#"
            if true { 3 }
        "#;
    let expected = "`(` missing in `if` condition";
    test_error(input, expected);

    let input = r#"
            if (true { 3 }
        "#;
    let expected = "`)` missing in `if` condition";
    test_error(input, expected);

    let input = r#"
            if (true) 3 }
        "#;
    let expected = "`{` missing in `if` block";
    test_error(input, expected);

    let input = r#"
            if (true) { 3
        "#;
    let expected = "unexpected eof in the middle of a statement";
    test_error(input, expected);

    let input = r#"
            if (true) { 3 } else 4
        "#;
    let expected = "`{` missing in `else` block";
    test_error(input, expected);

    let input = r#"
            if (true) { 3 } else { 4
        "#;
    let expected = "unexpected eof in the middle of a statement";
    test_error(input, expected);
}

#[test]
fn test_function_literal_01() {
    let input = r#"
            fn() { }; fn(a) { 1 }; fn(a,) { 1; 2 }; fn(a, b) { 1; 2; }; fn(a, b, c) { }
        "#;
    let expected = r#"
            RootNode {
                statements: [
                    ExpressionStatementNode {
                        expression: FunctionLiteralNode {
                            parameters: [],
                            body: BlockExpressionNode {
                                statements: [],
                            },
                        },
                    },
                    ExpressionStatementNode {
                        expression: FunctionLiteralNode {
                            parameters: [
                                IdentifierNode {
                                    token: Ident(
                                        "a",
                                    ),
                                },
                            ],
                            body: BlockExpressionNode {
                                statements: [
                                    ExpressionStatementNode {
                                        expression: IntegerLiteralNode {
                                            token: Int(
                                                1,
                                            ),
                                        },
                                    },
                                ],
                            },
                        },
                    },
                    ExpressionStatementNode {
                        expression: FunctionLiteralNode {
                            parameters: [
                                IdentifierNode {
                                    token: Ident(
                                        "a",
                                    ),
                                },
                            ],
                            body: BlockExpressionNode {
                                statements: [
                                    ExpressionStatementNode {
                                        expression: IntegerLiteralNode {
                                            token: Int(
                                                1,
                                            ),
                                        },
                                    },
                                    ExpressionStatementNode {
                                        expression: IntegerLiteralNode {
                                            token: Int(
                                                2,
                                            ),
                                        },
                                    },
                                ],
                            },
                        },
                    },
                    ExpressionStatementNode {
                        expression: FunctionLiteralNode {
                            parameters: [
                                IdentifierNode {
                                    token: Ident(
                                        "a",
                                    ),
                                },
                                IdentifierNode {
                                    token: Ident(
                                        "b",
                                    ),
                                },
                            ],
                            body: BlockExpressionNode {
                                statements: [
                                    ExpressionStatementNode {
                                        expression: IntegerLiteralNode {
                                            token: Int(
                                                1,
                                            ),
                                        },
                                    },
                                    ExpressionStatementNode {
                                        expression: IntegerLiteralNode {
                                            token: Int(
                                                2,
                                            ),
                                        },
                                    },
                                ],
                            },
                        },
                    },
                    ExpressionStatementNode {
                        expression: FunctionLiteralNode {
                            parameters: [
                                IdentifierNode {
                                    token: Ident(
                                        "a",
                                    ),
                                },
                                IdentifierNode {
                                    token: Ident(
                                        "b",
                                    ),
                                },
                                IdentifierNode {
                                    token: Ident(
                                        "c",
                                    ),
                                },
                            ],
                            body: BlockExpressionNode {
                                statements: [],
                            },
                        },
                    },
                ],
            }
        "#;
    test(input, expected);
}

#[test]
fn test_function_literal_02() {
    let input = r#"
            fn (a b c) { 1 }
        "#;
    let expected = "`,` expected but not found in parameter list";
    test_error(input, expected);

    let input = r#"
            fn (,) { 1 }
        "#;
    let expected = "expected identifier but found `Comma` in function parameter list";
    test_error(input, expected);

    let input = r#"
            fn (a,,b) { 1 }
        "#;
    let expected = "expected identifier but found `Comma` in function parameter list";
    test_error(input, expected);

    let input = r#"
            fn (1, 2, 3) { 1 }
        "#;
    let expected = "expected identifier but found `Int(1)` in function parameter list";
    test_error(input, expected);

    let input = r#"
            fn a, b, c) { 1 }
        "#;
    let expected = "`(` missing in function parameter list";
    test_error(input, expected);

    let input = r#"
            fn (a, b, c { 1 }
        "#;
    let expected = "`,` expected but not found in parameter list";
    test_error(input, expected);

    let input = r#"
            fn (a, b, c) 1
        "#;
    let expected = "function body missing";
    test_error(input, expected);
}

#[test]
fn test_precedence_01() {
    let input = r#"
            0 || 1 && 2 + -f() * 4 == 5;
        "#;
    let expected = r#"
            RootNode {
                statements: [
                    ExpressionStatementNode {
                        expression: BinaryExpressionNode {
                            operator: Or,
                            left: IntegerLiteralNode {
                                token: Int(
                                    0,
                                ),
                            },
                            right: BinaryExpressionNode {
                                operator: And,
                                left: IntegerLiteralNode {
                                    token: Int(
                                        1,
                                    ),
                                },
                                right: BinaryExpressionNode {
                                    operator: Eq,
                                    left: BinaryExpressionNode {
                                        operator: Plus,
                                        left: IntegerLiteralNode {
                                            token: Int(
                                                2,
                                            ),
                                        },
                                        right: BinaryExpressionNode {
                                            operator: Asterisk,
                                            left: UnaryExpressionNode {
                                                operator: Minus,
                                                expression: CallExpressionNode {
                                                    function: IdentifierNode {
                                                        token: Ident(
                                                            "f",
                                                        ),
                                                    },
                                                    arguments: [],
                                                },
                                            },
                                            right: IntegerLiteralNode {
                                                token: Int(
                                                    4,
                                                ),
                                            },
                                        },
                                    },
                                    right: IntegerLiteralNode {
                                        token: Int(
                                            5,
                                        ),
                                    },
                                },
                            },
                        },
                    },
                ],
            }
        "#;
    test(input, expected);
}

#[test]
fn test_precedence_02() {
    let input = r#"
            0 || 1 && 2 - !a[3] % 4 < 5;
        "#;
    let expected = r#"
            RootNode {
                statements: [
                    ExpressionStatementNode {
                        expression: BinaryExpressionNode {
                            operator: Or,
                            left: IntegerLiteralNode {
                                token: Int(
                                    0,
                                ),
                            },
                            right: BinaryExpressionNode {
                                operator: And,
                                left: IntegerLiteralNode {
                                    token: Int(
                                        1,
                                    ),
                                },
                                right: BinaryExpressionNode {
                                    operator: Lt,
                                    left: BinaryExpressionNode {
                                        operator: Minus,
                                        left: IntegerLiteralNode {
                                            token: Int(
                                                2,
                                            ),
                                        },
                                        right: BinaryExpressionNode {
                                            operator: Percent,
                                            left: UnaryExpressionNode {
                                                operator: Invert,
                                                expression: IndexExpressionNode {
                                                    array: IdentifierNode {
                                                        token: Ident(
                                                            "a",
                                                        ),
                                                    },
                                                    index: IntegerLiteralNode {
                                                        token: Int(
                                                            3,
                                                        ),
                                                    },
                                                },
                                            },
                                            right: IntegerLiteralNode {
                                                token: Int(
                                                    4,
                                                ),
                                            },
                                        },
                                    },
                                    right: IntegerLiteralNode {
                                        token: Int(
                                            5,
                                        ),
                                    },
                                },
                            },
                        },
                    },
                ],
            }
        "#;
    test(input, expected);
}
