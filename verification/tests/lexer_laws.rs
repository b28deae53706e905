use monkey_lang::lexer::{get_tokens, Lexer};
use monkey_lang::token::Token;

#[test]
fn eof_comes_again_and_again() {
    for input in ["", "   ", "\t\n\r\u{c} ", "1", "let a = 1;"] {
        let mut lexer = Lexer::new(input);
        let mut steps = 0;
        loop {
            let t = lexer.get_next_token().unwrap();
            steps += 1;
            assert!(steps <= input.chars().count() + 1);
            if t == Token::Eof {
                break;
            }
        }
        for _ in 0..5 {
            assert_eq!(lexer.get_next_token(), Ok(Token::Eof));
        }
    }
}

#[test]
fn every_input_gives_tokens_or_an_error() {
    let inputs = [
        "",
        "1 + 2",
        "let add=fn(x,y){x+y;};",
        "\"unfinished",
        "'x",
        "@",
        "a # b",
        "1.2.3",
        "&",
        "|x",
        "あ",
        "\"あ\" 'い' 1.5 x_1",
        "99999999999999999999",
    ];
    for input in inputs {
        match get_tokens(input) {
            Ok(tokens) => {
                assert_eq!(tokens.last(), Some(&Token::Eof));
                assert!(tokens[..tokens.len() - 1].iter().all(|t| *t != Token::Eof));
                assert!(tokens.len() <= input.chars().count() + 1);
            }
            Err(e) => assert!(!e.is_empty()),
        }
    }
}

#[test]
fn get_tokens_gives_the_tokens_and_one_eof() {
    assert_eq!(get_tokens(""), Ok(vec![Token::Eof]));
    assert_eq!(
        get_tokens("let a = 10;"),
        Ok(vec![
            Token::Let,
            Token::Ident("a".to_string()),
            Token::Assign,
            Token::Int(10),
            Token::Semicolon,
            Token::Eof,
        ])
    );
    assert_eq!(
        get_tokens("a**b*c"),
        Ok(vec![
            Token::Ident("a".to_string()),
            Token::Power,
            Token::Ident("b".to_string()),
            Token::Asterisk,
            Token::Ident("c".to_string()),
            Token::Eof,
        ])
    );
}

#[test]
fn get_tokens_gives_the_first_error() {
    assert_eq!(get_tokens("1 . 1.2.3"), Err("isolated `.` found".to_string()));
    assert_eq!(
        get_tokens("1 1.2.3 ."),
        Err("two or more dots found in a number literal".to_string())
    );
    assert_eq!(get_tokens("a | b"), Err("`||` expected but not found".to_string()));
    assert_eq!(get_tokens("a &"), Err("`&&` expected but not found".to_string()));
    assert_eq!(get_tokens("\"a\\qb\""), Err("unknown escape sequence found".to_string()));
    assert_eq!(
        get_tokens("99999999999999999999"),
        Err("number too large to fit in target type".to_string())
    );
}

#[test]
fn a_character_that_starts_no_token_is_an_error() {
    assert_eq!(get_tokens("@"), Err("unexpected character `@`".to_string()));
    assert_eq!(get_tokens("1 # 2"), Err("unexpected character `#`".to_string()));
    assert_eq!(get_tokens("あ"), Err("unexpected character `あ`".to_string()));
    let mut lexer = Lexer::new("?1");
    assert_eq!(lexer.get_next_token(), Err("unexpected character `?`".to_string()));
    assert_eq!(lexer.get_next_token(), Ok(Token::Int(1)));
    assert_eq!(lexer.get_next_token(), Ok(Token::Eof));
}

#[test]
fn every_escape_is_resolved() {
    assert_eq!(
        get_tokens(r#""\\ \' \" \0 \n \r \t""#),
        Ok(vec![Token::String("\\ ' \" \0 \n \r \t".to_string()), Token::Eof])
    );
    assert_eq!(
        get_tokens(r#"'\\' '\'' '\"' '\0' '\n' '\r' '\t'"#),
        Ok(vec![
            Token::Char('\\'),
            Token::Char('\''),
            Token::Char('"'),
            Token::Char('\0'),
            Token::Char('\n'),
            Token::Char('\r'),
            Token::Char('\t'),
            Token::Eof,
        ])
    );
}

#[test]
fn two_characters_make_one_operator_where_they_can() {
    assert_eq!(
        get_tokens("=== !== *** >== <== =! <>"),
        Ok(vec![
            Token::Eq,
            Token::Assign,
            Token::NotEq,
            Token::Assign,
            Token::Power,
            Token::Asterisk,
            Token::GtEq,
            Token::Assign,
            Token::LtEq,
            Token::Assign,
            Token::Assign,
            Token::Invert,
            Token::Lt,
            Token::Gt,
            Token::Eof,
        ])
    );
}

#[test]
fn whitespace_is_ascii_whitespace() {
    assert_eq!(get_tokens(" \t\n\r\u{c}1"), Ok(vec![Token::Int(1), Token::Eof]));
    assert_eq!(get_tokens("\u{b}"), Err("unexpected character `\u{b}`".to_string()));
}

#[test]
fn an_error_leaves_the_lexer_behind_what_it_read() {
    let mut lexer = Lexer::new("'' 1");
    assert_eq!(lexer.get_next_token(), Err("character literal is empty".to_string()));
    assert_eq!(lexer.get_next_token(), Err("character literal can contain only one character".to_string()));
    assert_eq!(lexer.get_next_token(), Ok(Token::Int(1)));

    let mut lexer = Lexer::new("'ab' 1");
    assert_eq!(
        lexer.get_next_token(),
        Err("character literal can contain only one character".to_string())
    );
    assert_eq!(lexer.get_next_token(), Ok(Token::Ident("b".to_string())));
}
