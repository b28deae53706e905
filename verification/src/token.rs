use crate::text::{
    char_debug, char_debug_text, concat3, decimal_text, digit_value, drop_back, int_to_string,
    str_chars, str_debug, str_debug_text, str_equals, string_from_chars,
};
use crate::util::{identifier_char, is_ascii_decimal, is_ascii_digit, number_char};
use vstd::prelude::*;
use vstd::string::StringExecFns;

verus! {

/// What sort of token a token is, without its payload.
#[derive(Debug, Clone, Copy, PartialEq, Eq, Structural)]
pub enum TokenKind {
    Eof,
    Ident,
    Int,
    Float,
    String,
    Char,
    Assign,
    Plus,
    Minus,
    Asterisk,
    Slash,
    Percent,
    Power,
    Invert,
    Eq,
    NotEq,
    Lt,
    Gt,
    LtEq,
    GtEq,
    And,
    Or,
    Comma,
    Semicolon,
    Lparen,
    Rparen,
    Lbrace,
    Rbrace,
    Lbracket,
    Rbracket,
    Function,
    Let,
    Return,
    True,
    False,
    If,
    Else,
}

/// A token of the language. A float literal carries its text as written.
#[derive(Debug, PartialEq)]
pub enum Token {
    Eof,
    Ident(String),
    Int(i64),
    Float(String),
    String(String),
    Char(char),
    Assign,
    Plus,
    Minus,
    Asterisk,
    Slash,
    Percent,
    Power,
    Invert,
    Eq,
    NotEq,
    Lt,
    Gt,
    LtEq,
    GtEq,
    And,
    Or,
    Comma,
    Semicolon,
    Lparen,
    Rparen,
    Lbrace,
    Rbrace,
    Lbracket,
    Rbracket,
    Function,
    Let,
    Return,
    True,
    False,
    If,
    Else,
}

/// The mathematical model of a token: its kind and its payload. The fields
/// that a kind does not use are empty, zero and NUL.
pub ghost struct TokenView {
    pub kind: TokenKind,
    pub text: Seq<char>,
    pub number: i64,
    pub character: char,
}

/// A token without payload.
pub open spec fn plain_token(kind: TokenKind) -> TokenView {
    TokenView { kind, text: Seq::empty(), number: 0, character: '\0' }
}

/// A token whose payload is text: an identifier, a float or a string literal.
pub open spec fn text_token(kind: TokenKind, text: Seq<char>) -> TokenView {
    TokenView { kind, text, number: 0, character: '\0' }
}

pub open spec fn int_token(number: i64) -> TokenView {
    TokenView { kind: TokenKind::Int, text: Seq::empty(), number, character: '\0' }
}

pub open spec fn char_token(character: char) -> TokenView {
    TokenView { kind: TokenKind::Char, text: Seq::empty(), number: 0, character }
}

impl View for Token {
    type V = TokenView;

    open spec fn view(&self) -> TokenView {
        match self {
            Token::Eof => plain_token(TokenKind::Eof),
            Token::Ident(s) => text_token(TokenKind::Ident, s@),
            Token::Int(i) => int_token(*i),
            Token::Float(s) => text_token(TokenKind::Float, s@),
            Token::String(s) => text_token(TokenKind::String, s@),
            Token::Char(c) => char_token(*c),
            Token::Assign => plain_token(TokenKind::Assign),
            Token::Plus => plain_token(TokenKind::Plus),
            Token::Minus => plain_token(TokenKind::Minus),
            Token::Asterisk => plain_token(TokenKind::Asterisk),
            Token::Slash => plain_token(TokenKind::Slash),
            Token::Percent => plain_token(TokenKind::Percent),
            Token::Power => plain_token(TokenKind::Power),
            Token::Invert => plain_token(TokenKind::Invert),
            Token::Eq => plain_token(TokenKind::Eq),
            Token::NotEq => plain_token(TokenKind::NotEq),
            Token::Lt => plain_token(TokenKind::Lt),
            Token::Gt => plain_token(TokenKind::Gt),
            Token::LtEq => plain_token(TokenKind::LtEq),
            Token::GtEq => plain_token(TokenKind::GtEq),
            Token::And => plain_token(TokenKind::And),
            Token::Or => plain_token(TokenKind::Or),
            Token::Comma => plain_token(TokenKind::Comma),
            Token::Semicolon => plain_token(TokenKind::Semicolon),
            Token::Lparen => plain_token(TokenKind::Lparen),
            Token::Rparen => plain_token(TokenKind::Rparen),
            Token::Lbrace => plain_token(TokenKind::Lbrace),
            Token::Rbrace => plain_token(TokenKind::Rbrace),
            Token::Lbracket => plain_token(TokenKind::Lbracket),
            Token::Rbracket => plain_token(TokenKind::Rbracket),
            Token::Function => plain_token(TokenKind::Function),
            Token::Let => plain_token(TokenKind::Let),
            Token::Return => plain_token(TokenKind::Return),
            Token::True => plain_token(TokenKind::True),
            Token::False => plain_token(TokenKind::False),
            Token::If => plain_token(TokenKind::If),
            Token::Else => plain_token(TokenKind::Else),
        }
    }
}

impl Clone for Token {
    fn clone(&self) -> (r: Self)
        ensures
            r@ == self@,
    {
        match self {
            Token::Eof => Token::Eof,
            Token::Ident(s) => Token::Ident(s.clone()),
            Token::Int(i) => Token::Int(*i),
            Token::Float(s) => Token::Float(s.clone()),
            Token::String(s) => Token::String(s.clone()),
            Token::Char(c) => Token::Char(*c),
            Token::Assign => Token::Assign,
            Token::Plus => Token::Plus,
            Token::Minus => Token::Minus,
            Token::Asterisk => Token::Asterisk,
            Token::Slash => Token::Slash,
            Token::Percent => Token::Percent,
            Token::Power => Token::Power,
            Token::Invert => Token::Invert,
            Token::Eq => Token::Eq,
            Token::NotEq => Token::NotEq,
            Token::Lt => Token::Lt,
            Token::Gt => Token::Gt,
            Token::LtEq => Token::LtEq,
            Token::GtEq => Token::GtEq,
            Token::And => Token::And,
            Token::Or => Token::Or,
            Token::Comma => Token::Comma,
            Token::Semicolon => Token::Semicolon,
            Token::Lparen => Token::Lparen,
            Token::Rparen => Token::Rparen,
            Token::Lbrace => Token::Lbrace,
            Token::Rbrace => Token::Rbrace,
            Token::Lbracket => Token::Lbracket,
            Token::Rbracket => Token::Rbracket,
            Token::Function => Token::Function,
            Token::Let => Token::Let,
            Token::Return => Token::Return,
            Token::True => Token::True,
            Token::False => Token::False,
            Token::If => Token::If,
            Token::Else => Token::Else,
        }
    }
}

impl Token {
    /// The token's kind.
    pub fn kind(&self) -> (k: TokenKind)
        ensures
            k == self@.kind,
    {
        match self {
            Token::Eof => TokenKind::Eof,
            Token::Ident(_) => TokenKind::Ident,
            Token::Int(_) => TokenKind::Int,
            Token::Float(_) => TokenKind::Float,
            Token::String(_) => TokenKind::String,
            Token::Char(_) => TokenKind::Char,
            Token::Assign => TokenKind::Assign,
            Token::Plus => TokenKind::Plus,
            Token::Minus => TokenKind::Minus,
            Token::Asterisk => TokenKind::Asterisk,
            Token::Slash => TokenKind::Slash,
            Token::Percent => TokenKind::Percent,
            Token::Power => TokenKind::Power,
            Token::Invert => TokenKind::Invert,
            Token::Eq => TokenKind::Eq,
            Token::NotEq => TokenKind::NotEq,
            Token::Lt => TokenKind::Lt,
            Token::Gt => TokenKind::Gt,
            Token::LtEq => TokenKind::LtEq,
            Token::GtEq => TokenKind::GtEq,
            Token::And => TokenKind::And,
            Token::Or => TokenKind::Or,
            Token::Comma => TokenKind::Comma,
            Token::Semicolon => TokenKind::Semicolon,
            Token::Lparen => TokenKind::Lparen,
            Token::Rparen => TokenKind::Rparen,
            Token::Lbrace => TokenKind::Lbrace,
            Token::Rbrace => TokenKind::Rbrace,
            Token::Lbracket => TokenKind::Lbracket,
            Token::Rbracket => TokenKind::Rbracket,
            Token::Function => TokenKind::Function,
            Token::Let => TokenKind::Let,
            Token::Return => TokenKind::Return,
            Token::True => TokenKind::True,
            Token::False => TokenKind::False,
            Token::If => TokenKind::If,
            Token::Else => TokenKind::Else,
        }
    }
}

/// The name under which `{:?}` shows a kind.
pub open spec fn kind_name(kind: TokenKind) -> Seq<char> {
    match kind {
        TokenKind::Eof => "Eof"@,
        TokenKind::Ident => "Ident"@,
        TokenKind::Int => "Int"@,
        TokenKind::Float => "Float"@,
        TokenKind::String => "String"@,
        TokenKind::Char => "Char"@,
        TokenKind::Assign => "Assign"@,
        TokenKind::Plus => "Plus"@,
        TokenKind::Minus => "Minus"@,
        TokenKind::Asterisk => "Asterisk"@,
        TokenKind::Slash => "Slash"@,
        TokenKind::Percent => "Percent"@,
        TokenKind::Power => "Power"@,
        TokenKind::Invert => "Invert"@,
        TokenKind::Eq => "Eq"@,
        TokenKind::NotEq => "NotEq"@,
        TokenKind::Lt => "Lt"@,
        TokenKind::Gt => "Gt"@,
        TokenKind::LtEq => "LtEq"@,
        TokenKind::GtEq => "GtEq"@,
        TokenKind::And => "And"@,
        TokenKind::Or => "Or"@,
        TokenKind::Comma => "Comma"@,
        TokenKind::Semicolon => "Semicolon"@,
        TokenKind::Lparen => "Lparen"@,
        TokenKind::Rparen => "Rparen"@,
        TokenKind::Lbrace => "Lbrace"@,
        TokenKind::Rbrace => "Rbrace"@,
        TokenKind::Lbracket => "Lbracket"@,
        TokenKind::Rbracket => "Rbracket"@,
        TokenKind::Function => "Function"@,
        TokenKind::Let => "Let"@,
        TokenKind::Return => "Return"@,
        TokenKind::True => "True"@,
        TokenKind::False => "False"@,
        TokenKind::If => "If"@,
        TokenKind::Else => "Else"@,
    }
}

/// What `{:?}` shows for a token: the kind's name and, in brackets, the
/// payload. A float literal shows its text as written.
pub open spec fn token_debug_text(t: TokenView) -> Seq<char> {
    match t.kind {
        TokenKind::Ident => "Ident("@ + str_debug_text(t.text) + ")"@,
        TokenKind::String => "String("@ + str_debug_text(t.text) + ")"@,
        TokenKind::Float => "Float("@ + t.text + ")"@,
        TokenKind::Int => "Int("@ + decimal_text(t.number as int) + ")"@,
        TokenKind::Char => "Char("@ + char_debug_text(t.character) + ")"@,
        kind => kind_name(kind),
    }
}

/// The token kind that a fixed piece of source text stands for: an operator,
/// a punctuation mark or a keyword.
pub open spec fn fixed_lexeme(s: Seq<char>) -> Option<TokenKind> {
    if s == "="@ {
        Some(TokenKind::Assign)
    }     else if s == "+"@ {
        Some(TokenKind::Plus)
    }     else if s == "-"@ {
        Some(TokenKind::Minus)
    }     else if s == "*"@ {
        Some(TokenKind::Asterisk)
    }     else if s == "/"@ {
        Some(TokenKind::Slash)
    }     else if s == "%"@ {
        Some(TokenKind::Percent)
    }     else if s == "**"@ {
        Some(TokenKind::Power)
    }     else if s == "!"@ {
        Some(TokenKind::Invert)
    }     else if s == "=="@ {
        Some(TokenKind::Eq)
    }     else if s == "!="@ {
        Some(TokenKind::NotEq)
    }     else if s == "<"@ {
        Some(TokenKind::Lt)
    }     else if s == ">"@ {
        Some(TokenKind::Gt)
    }     else if s == "<="@ {
        Some(TokenKind::LtEq)
    }     else if s == ">="@ {
        Some(TokenKind::GtEq)
    }     else if s == "&&"@ {
        Some(TokenKind::And)
    }     else if s == "||"@ {
        Some(TokenKind::Or)
    }     else if s == ","@ {
        Some(TokenKind::Comma)
    }     else if s == ";"@ {
        Some(TokenKind::Semicolon)
    }     else if s == "("@ {
        Some(TokenKind::Lparen)
    }     else if s == ")"@ {
        Some(TokenKind::Rparen)
    }     else if s == "{"@ {
        Some(TokenKind::Lbrace)
    }     else if s == "}"@ {
        Some(TokenKind::Rbrace)
    }     else if s == "["@ {
        Some(TokenKind::Lbracket)
    }     else if s == "]"@ {
        Some(TokenKind::Rbracket)
    }     else if s == "fn"@ {
        Some(TokenKind::Function)
    }     else if s == "let"@ {
        Some(TokenKind::Let)
    }     else if s == "return"@ {
        Some(TokenKind::Return)
    }     else if s == "true"@ {
        Some(TokenKind::True)
    }     else if s == "false"@ {
        Some(TokenKind::False)
    }     else if s == "if"@ {
        Some(TokenKind::If)
    }     else if s == "else"@ {
        Some(TokenKind::Else)
    } else {
        None
    }
}

/// How many decimal digits stand at index `i` of `s` and after it, without a gap.
pub open spec fn digit_run(s: Seq<char>, i: int) -> int
    decreases s.len() - i,
{
    if 0 <= i < s.len() && is_ascii_decimal(s[i]) {
        1 + digit_run(s, i + 1)
    } else {
        0
    }
}

/// Whether an exponent stands at index `j` of `s` and ends it: `e` or `E`,
/// an optional sign, and at least one digit.
pub open spec fn float_exponent(s: Seq<char>, j: int) -> bool {
    let k = if j + 1 < s.len() && (s[j + 1] == '+' || s[j + 1] == '-') {
        j + 2
    } else {
        j + 1
    };
    &&& 0 <= j < s.len()
    &&& (s[j] == 'e' || s[j] == 'E')
    &&& k < s.len()
    &&& k + digit_run(s, k) == s.len()
}

/// Whether `s` is a float literal with a dot: digits, a dot, digits, with at
/// least one digit in all, and an optional exponent.
pub open spec fn float_literal(s: Seq<char>) -> bool {
    let i = digit_run(s, 0);
    let f = digit_run(s, i + 1);
    let j = i + 1 + f;
    &&& i < s.len()
    &&& s[i] == '.'
    &&& i + f >= 1
    &&& (j == s.len() || float_exponent(s, j))
}

/// Why a run of characters is no 64-bit integer.
pub enum IntegerError {
    InvalidDigit,
    TooLarge,
}

/// Reads `s` from index `i` on as decimal digits that continue the number
/// `acc`, from left to right: the first character that is no digit, or the
/// first digit with which the number leaves the 64-bit range, ends it.
pub open spec fn parse_digits(s: Seq<char>, i: int, acc: int) -> Result<int, IntegerError>
    decreases s.len() - i,
{
    if i < 0 || i >= s.len() {
        Ok(acc)
    } else if !is_ascii_decimal(s[i]) {
        Err(IntegerError::InvalidDigit)
    } else if acc * 10 + digit_value(s[i]) > i64::MAX {
        Err(IntegerError::TooLarge)
    } else {
        parse_digits(s, i + 1, acc * 10 + digit_value(s[i]))
    }
}

/// The token for a piece of text that starts with a digit or a dot.
pub open spec fn number_token(s: Seq<char>) -> Result<TokenView, Seq<char>> {
    if s.contains('.') {
        if float_literal(s) {
            Ok(text_token(TokenKind::Float, s))
        } else {
            Err("invalid float literal"@)
        }
    } else {
        match parse_digits(s, 0, 0) {
            Ok(v) => Ok(int_token(v as i64)),
            Err(IntegerError::InvalidDigit) => Err("invalid digit found in string"@),
            Err(IntegerError::TooLarge) => Err("number too large to fit in target type"@),
        }
    }
}

/// What stands between the first and the last character of `s`.
pub open spec fn inner_text(s: Seq<char>) -> Seq<char> {
    if s.len() >= 2 {
        s.subrange(1, s.len() - 1)
    } else {
        Seq::empty()
    }
}

/// The pieces of text that `lookup_token` classifies: the fixed ones, a
/// character between apostrophes, text that starts with a double quote, with
/// a digit or a dot, or with an identifier character.
pub open spec fn is_lexeme(s: Seq<char>) -> bool {
    &&& s.len() > 0
    &&& (fixed_lexeme(s) is Some || (s[0] == '\'' && s.len() >= 2) || s[0] == '"' || number_char(
        s[0],
    ) || identifier_char(s[0]))
}

/// The token that a lexeme stands for. A character literal is given by the
/// character after the apostrophe, a string literal by what stands between
/// its first and last character (escapes are resolved before).
pub open spec fn lookup_token_spec(s: Seq<char>) -> Result<TokenView, Seq<char>> {
    match fixed_lexeme(s) {
        Some(kind) => Ok(plain_token(kind)),
        None => if s[0] == '\'' {
            Ok(char_token(s[1]))
        } else if s[0] == '"' {
            Ok(text_token(TokenKind::String, inner_text(s)))
        } else if number_char(s[0]) {
            number_token(s)
        } else {
            Ok(text_token(TokenKind::Ident, s))
        },
    }
}

/// The models of the tokens of a sequence.
pub open spec fn token_views(tokens: Seq<Token>) -> Seq<TokenView> {
    tokens.map_values(|t: Token| t@)
}

/// The model of a result that holds a token or a message.
pub open spec fn token_result_view(r: Result<Token, String>) -> Result<TokenView, Seq<char>> {
    match r {
        Ok(t) => Ok(t@),
        Err(e) => Err(e@),
    }
}

fn kind_name_str(kind: TokenKind) -> (name: &'static str)
    ensures
        name@ == kind_name(kind),
{
    match kind {
        TokenKind::Eof => "Eof",
        TokenKind::Ident => "Ident",
        TokenKind::Int => "Int",
        TokenKind::Float => "Float",
        TokenKind::String => "String",
        TokenKind::Char => "Char",
        TokenKind::Assign => "Assign",
        TokenKind::Plus => "Plus",
        TokenKind::Minus => "Minus",
        TokenKind::Asterisk => "Asterisk",
        TokenKind::Slash => "Slash",
        TokenKind::Percent => "Percent",
        TokenKind::Power => "Power",
        TokenKind::Invert => "Invert",
        TokenKind::Eq => "Eq",
        TokenKind::NotEq => "NotEq",
        TokenKind::Lt => "Lt",
        TokenKind::Gt => "Gt",
        TokenKind::LtEq => "LtEq",
        TokenKind::GtEq => "GtEq",
        TokenKind::And => "And",
        TokenKind::Or => "Or",
        TokenKind::Comma => "Comma",
        TokenKind::Semicolon => "Semicolon",
        TokenKind::Lparen => "Lparen",
        TokenKind::Rparen => "Rparen",
        TokenKind::Lbrace => "Lbrace",
        TokenKind::Rbrace => "Rbrace",
        TokenKind::Lbracket => "Lbracket",
        TokenKind::Rbracket => "Rbracket",
        TokenKind::Function => "Function",
        TokenKind::Let => "Let",
        TokenKind::Return => "Return",
        TokenKind::True => "True",
        TokenKind::False => "False",
        TokenKind::If => "If",
        TokenKind::Else => "Else",
    }
}

fn lookup_fixed(sequence: &str) -> (r: Option<Token>)
    ensures
        match r {
            Some(t) => fixed_lexeme(sequence@) == Some(t@.kind) && t@ == plain_token(t@.kind),
            None => fixed_lexeme(sequence@) is None,
        },
{
    if str_equals(sequence, "=") {
        Some(Token::Assign)
    }     else if str_equals(sequence, "+") {
        Some(Token::Plus)
    }     else if str_equals(sequence, "-") {
        Some(Token::Minus)
    }     else if str_equals(sequence, "*") {
        Some(Token::Asterisk)
    }     else if str_equals(sequence, "/") {
        Some(Token::Slash)
    }     else if str_equals(sequence, "%") {
        Some(Token::Percent)
    }     else if str_equals(sequence, "**") {
        Some(Token::Power)
    }     else if str_equals(sequence, "!") {
        Some(Token::Invert)
    }     else if str_equals(sequence, "==") {
        Some(Token::Eq)
    }     else if str_equals(sequence, "!=") {
        Some(Token::NotEq)
    }     else if str_equals(sequence, "<") {
        Some(Token::Lt)
    }     else if str_equals(sequence, ">") {
        Some(Token::Gt)
    }     else if str_equals(sequence, "<=") {
        Some(Token::LtEq)
    }     else if str_equals(sequence, ">=") {
        Some(Token::GtEq)
    }     else if str_equals(sequence, "&&") {
        Some(Token::And)
    }     else if str_equals(sequence, "||") {
        Some(Token::Or)
    }     else if str_equals(sequence, ",") {
        Some(Token::Comma)
    }     else if str_equals(sequence, ";") {
        Some(Token::Semicolon)
    }     else if str_equals(sequence, "(") {
        Some(Token::Lparen)
    }     else if str_equals(sequence, ")") {
        Some(Token::Rparen)
    }     else if str_equals(sequence, "{") {
        Some(Token::Lbrace)
    }     else if str_equals(sequence, "}") {
        Some(Token::Rbrace)
    }     else if str_equals(sequence, "[") {
        Some(Token::Lbracket)
    }     else if str_equals(sequence, "]") {
        Some(Token::Rbracket)
    }     else if str_equals(sequence, "fn") {
        Some(Token::Function)
    }     else if str_equals(sequence, "let") {
        Some(Token::Let)
    }     else if str_equals(sequence, "return") {
        Some(Token::Return)
    }     else if str_equals(sequence, "true") {
        Some(Token::True)
    }     else if str_equals(sequence, "false") {
        Some(Token::False)
    }     else if str_equals(sequence, "if") {
        Some(Token::If)
    }     else if str_equals(sequence, "else") {
        Some(Token::Else)
    } else {
        None
    }
}

fn count_digits(chars: &Vec<char>, start: usize) -> (n: usize)
    requires
        start <= chars.len(),
    ensures
        n == digit_run(chars@, start as int),
        start + n <= chars.len(),
{
    let mut i: usize = start;
    while i < chars.len() && is_ascii_digit(chars[i])
        invariant
            start <= i <= chars.len(),
            digit_run(chars@, start as int) == (i - start) + digit_run(chars@, i as int),
        decreases chars.len() - i,
    {
        i = i + 1;
    }
    i - start
}

fn has_exponent(chars: &Vec<char>, j: usize) -> (b: bool)
    requires
        j < chars.len(),
    ensures
        b == float_exponent(chars@, j as int),
{
    if chars[j] != 'e' && chars[j] != 'E' {
        return false;
    }
    let k: usize = if j + 1 < chars.len() && (chars[j + 1] == '+' || chars[j + 1] == '-') {
        j + 2
    } else {
        j + 1
    };
    if k >= chars.len() {
        return false;
    }
    let n = count_digits(chars, k);
    k + n == chars.len()
}

fn is_float_literal(chars: &Vec<char>) -> (b: bool)
    ensures
        b == float_literal(chars@),
{
    let i = count_digits(chars, 0);
    if i >= chars.len() || chars[i] != '.' {
        return false;
    }
    let f = count_digits(chars, i + 1);
    let j = i + 1 + f;
    if i + f < 1 {
        return false;
    }
    j == chars.len() || has_exponent(chars, j)
}

fn has_dot(chars: &Vec<char>) -> (b: bool)
    ensures
        b == chars@.contains('.'),
{
    let mut i: usize = 0;
    while i < chars.len()
        invariant
            i <= chars.len(),
            forall|k: int| 0 <= k < i ==> chars@[k] != '.',
        decreases chars.len() - i,
    {
        if chars[i] == '.' {
            return true;
        }
        i = i + 1;
    }
    false
}

fn digit_of(c: char) -> (d: i64)
    requires
        is_ascii_decimal(c),
    ensures
        d == digit_value(c),
        0 <= d <= 9,
{
    (c as u32 - '0' as u32) as i64
}

fn parse_integer(chars: &Vec<char>) -> (r: Result<i64, IntegerError>)
    ensures
        match r {
            Ok(v) => parse_digits(chars@, 0, 0) == Ok::<int, IntegerError>(v as int),
            Err(e) => parse_digits(chars@, 0, 0) == Err::<int, IntegerError>(e),
        },
{
    let mut acc: i64 = 0;
    let mut i: usize = 0;
    while i < chars.len()
        invariant
            i <= chars.len(),
            0 <= acc,
            parse_digits(chars@, 0, 0) == parse_digits(chars@, i as int, acc as int),
        decreases chars.len() - i,
    {
        let c = chars[i];
        if !is_ascii_digit(c) {
            return Err(IntegerError::InvalidDigit);
        }
        let d = digit_of(c);
        if acc > (i64::MAX - d) / 10 {
            return Err(IntegerError::TooLarge);
        }
        acc = acc * 10 + d;
        i = i + 1;
    }
    Ok(acc)
}

fn lookup_number(chars: &Vec<char>) -> (r: Result<Token, String>)
    ensures
        token_result_view(r) == number_token(chars@),
{
    if has_dot(chars) {
        if is_float_literal(chars) {
            Ok(Token::Float(string_from_chars(chars)))
        } else {
            Err(String::from_str("invalid float literal"))
        }
    } else {
        match parse_integer(chars) {
            Ok(v) => Ok(Token::Int(v)),
            Err(IntegerError::InvalidDigit) => Err(String::from_str("invalid digit found in string")),
            Err(IntegerError::TooLarge) => Err(
                String::from_str("number too large to fit in target type"),
            ),
        }
    }
}

/// Classifies a lexeme: a piece of source text that makes up one token. In a
/// string literal the escapes are resolved already and the quotes still
/// stand round it.
pub fn lookup_token(sequence: &str) -> (r: Result<Token, String>)
    requires
        is_lexeme(sequence@),
    ensures
        token_result_view(r) == lookup_token_spec(sequence@),
{
    match lookup_fixed(sequence) {
        Some(t) => Ok(t),
        None => {
            let chars = str_chars(sequence);
            let first_char = chars[0];
            if first_char == '\'' {
                Ok(Token::Char(chars[1]))
            } else if first_char == '"' {
                let mut l = chars;
                l.remove(0);
                let inner = drop_back(l, 1);
                assert(inner@ =~= inner_text(sequence@));
                Ok(Token::String(string_from_chars(&inner)))
            } else if is_ascii_digit(first_char) || first_char == '.' {
                lookup_number(&chars)
            } else {
                Ok(Token::Ident(string_from_chars(&chars)))
            }
        },
    }
}

impl Token {
    /// The text that `{:?}` shows for the token.
    pub fn debug_string(&self) -> (s: String)
        ensures
            s@ == token_debug_text(self@),
    {
        match self {
            Token::Ident(name) => {
                let inner = str_debug(name.as_str());
                concat3("Ident(", inner.as_str(), ")")
            },
            Token::String(text) => {
                let inner = str_debug(text.as_str());
                concat3("String(", inner.as_str(), ")")
            },
            Token::Float(text) => concat3("Float(", text.as_str(), ")"),
            Token::Int(i) => {
                let inner = int_to_string(*i);
                concat3("Int(", inner.as_str(), ")")
            },
            Token::Char(c) => {
                let inner = char_debug(*c);
                concat3("Char(", inner.as_str(), ")")
            },
            _ => String::from_str(kind_name_str(self.kind())),
        }
    }
}

/// The keyword that a word is, if it is one.
pub open spec fn keyword(s: Seq<char>) -> Option<TokenKind> {
    if s == "fn"@ {
        Some(TokenKind::Function)
    } else if s == "let"@ {
        Some(TokenKind::Let)
    } else if s == "return"@ {
        Some(TokenKind::Return)
    } else if s == "true"@ {
        Some(TokenKind::True)
    } else if s == "false"@ {
        Some(TokenKind::False)
    } else if s == "if"@ {
        Some(TokenKind::If)
    } else if s == "else"@ {
        Some(TokenKind::Else)
    } else {
        None
    }
}

/// The number that decimal digits stand for.
pub open spec fn decimal_value(s: Seq<char>) -> nat
    decreases s.len(),
{
    if s.len() == 0 {
        0
    } else {
        (decimal_value(s.drop_last()) * 10 + digit_value(s.last())) as nat
    }
}

/// Whether every character of `s` is a decimal digit.
pub open spec fn all_digits(s: Seq<char>) -> bool {
    forall|k: int| 0 <= k < s.len() ==> is_ascii_decimal(#[trigger] s[k])
}

/// The first character tells the fixed lexemes apart from the rest: none
/// starts with a digit, a dot, a quote or an apostrophe, and those that
/// start with a letter are the keywords.
pub proof fn fixed_lexemes_by_first_character(s: Seq<char>)
    requires
        s.len() > 0,
    ensures
        (number_char(s[0]) || s[0] == '"' || s[0] == '\'') ==> fixed_lexeme(s) is None,
        identifier_char(s[0]) ==> fixed_lexeme(s) == keyword(s),
{
    reveal_strlit("=");
    reveal_strlit("+");
    reveal_strlit("-");
    reveal_strlit("*");
    reveal_strlit("/");
    reveal_strlit("%");
    reveal_strlit("**");
    reveal_strlit("!");
    reveal_strlit("==");
    reveal_strlit("!=");
    reveal_strlit("<");
    reveal_strlit(">");
    reveal_strlit("<=");
    reveal_strlit(">=");
    reveal_strlit("&&");
    reveal_strlit("||");
    reveal_strlit(",");
    reveal_strlit(";");
    reveal_strlit("(");
    reveal_strlit(")");
    reveal_strlit("{");
    reveal_strlit("}");
    reveal_strlit("[");
    reveal_strlit("]");
    reveal_strlit("fn");
    reveal_strlit("let");
    reveal_strlit("return");
    reveal_strlit("true");
    reveal_strlit("false");
    reveal_strlit("if");
    reveal_strlit("else");
}

/// A word that starts with a letter or `_` is a keyword or an identifier.
pub proof fn word_is_keyword_or_identifier(s: Seq<char>)
    requires
        s.len() > 0,
        identifier_char(s[0]),
        !number_char(s[0]),
    ensures
        lookup_token_spec(s) == Ok::<TokenView, Seq<char>>(
            match keyword(s) {
                Some(kind) => plain_token(kind),
                None => text_token(TokenKind::Ident, s),
            },
        ),
{
    fixed_lexemes_by_first_character(s);
}

/// Digits that are read from the left give the number they stand for, as
/// long as it fits in 64 bits.
pub proof fn digits_give_their_value(s: Seq<char>, i: int)
    requires
        all_digits(s),
        0 <= i <= s.len(),
        decimal_value(s.take(i)) <= i64::MAX,
    ensures
        parse_digits(s, i, decimal_value(s.take(i)) as int) == if decimal_value(s) <= i64::MAX {
            Ok::<int, IntegerError>(decimal_value(s) as int)
        } else {
            Err::<int, IntegerError>(IntegerError::TooLarge)
        },
    decreases s.len() - i,
{
    if i < s.len() {
        assert(s.take(i + 1).drop_last() =~= s.take(i));
        if decimal_value(s.take(i + 1)) <= i64::MAX {
            digits_give_their_value(s, i + 1);
        } else {
            prefix_value_is_no_greater(s, i + 1);
        }
    } else {
        assert(s.take(i) =~= s);
    }
}

/// The number that the first digits stand for is no greater than the number
/// that all of them stand for.
pub proof fn prefix_value_is_no_greater(s: Seq<char>, i: int)
    requires
        all_digits(s),
        0 <= i <= s.len(),
    ensures
        decimal_value(s.take(i)) <= decimal_value(s),
    decreases s.len() - i,
{
    if i < s.len() {
        assert(s.take(i + 1).drop_last() =~= s.take(i));
        prefix_value_is_no_greater(s, i + 1);
    } else {
        assert(s.take(i) =~= s);
    }
}

/// Digits without a dot are an integer, where the number they stand for
/// fits in 64 bits.
pub proof fn digits_are_an_integer(s: Seq<char>)
    requires
        s.len() > 0,
        all_digits(s),
    ensures
        lookup_token_spec(s) == if decimal_value(s) <= i64::MAX {
            Ok::<TokenView, Seq<char>>(int_token(decimal_value(s) as i64))
        } else {
            Err::<TokenView, Seq<char>>("number too large to fit in target type"@)
        },
{
    fixed_lexemes_by_first_character(s);
    digits_give_their_value(s, 0);
}

/// From index `i` up to `e` there are digits only.
pub open spec fn digits_between(s: Seq<char>, i: int, e: int) -> bool {
    forall|k: int| i <= k < e ==> is_ascii_decimal(#[trigger] s[k])
}

/// Where digits stand from `i` up to `e` and no digit stands at `e`, the
/// run of digits at `i` is `e - i` long.
pub proof fn digit_run_between(s: Seq<char>, i: int, e: int)
    requires
        0 <= i <= e <= s.len(),
        digits_between(s, i, e),
        e < s.len() ==> !is_ascii_decimal(s[e]),
    ensures
        digit_run(s, i) == e - i,
    decreases e - i,
{
    if i < e {
        digit_run_between(s, i + 1, e);
    }
}

/// Digits with one dot among them, before them or after them are a float.
pub proof fn digits_with_a_dot_are_a_float(s: Seq<char>, d: int)
    requires
        s.len() >= 2,
        0 <= d < s.len(),
        s[d] == '.',
        digits_between(s, 0, d),
        digits_between(s, d + 1, s.len() as int),
    ensures
        lookup_token_spec(s) == Ok::<TokenView, Seq<char>>(text_token(TokenKind::Float, s)),
{
    fixed_lexemes_by_first_character(s);
    digit_run_between(s, 0, d);
    digit_run_between(s, d + 1, s.len() as int);
}

} // verus!
