use crate::text::{concat3, str_chars, string_from_chars};
use crate::token::{
    char_token, decimal_value, digits_are_an_integer, digits_between, digits_with_a_dot_are_a_float,
    int_token, keyword, lookup_token, lookup_token_spec, plain_token, text_token, token_result_view,
    token_views, word_is_keyword_or_identifier, Token, TokenKind, TokenView,
};
use crate::util::{
    escaped_character, identifier_char, is_ascii_decimal, is_ascii_whitespace, is_digit,
    is_identifier, number_char, parse_escaped_character, whitespace_char,
};
use vstd::prelude::*;
use vstd::string::StringExecFns;

verus! {

pub type LexerResult<T> = Result<T, String>;

/// What one step of the lexer gives: a token or a message, and the index in
/// the input at which the next step starts.
pub ghost struct Scan {
    pub result: Result<TokenView, Seq<char>>,
    pub end: int,
}

/// The first index from `i` on at which no whitespace stands.
pub open spec fn skip_whitespace(s: Seq<char>, i: int) -> int
    decreases s.len() - i,
{
    if 0 <= i < s.len() && whitespace_char(s[i]) {
        skip_whitespace(s, i + 1)
    } else {
        i
    }
}

/// The first index from `i` on at which no digit and no dot stands.
pub open spec fn number_end(s: Seq<char>, i: int) -> int
    decreases s.len() - i,
{
    if 0 <= i < s.len() && number_char(s[i]) {
        number_end(s, i + 1)
    } else {
        i
    }
}

/// The first index from `i` on at which no identifier character stands.
pub open spec fn identifier_end(s: Seq<char>, i: int) -> int
    decreases s.len() - i,
{
    if 0 <= i < s.len() && identifier_char(s[i]) {
        identifier_end(s, i + 1)
    } else {
        i
    }
}

/// How many dots stand in `s` from index `i` up to, not including, `e`.
pub open spec fn dot_count(s: Seq<char>, i: int, e: int) -> nat
    decreases e - i,
{
    if e <= i || e > s.len() || i < 0 {
        0
    } else {
        dot_count(s, i, e - 1) + if s[e - 1] == '.' {
            1nat
        } else {
            0nat
        }
    }
}

/// A number literal that starts at `i`: the longest run of digits and dots.
/// Two dots or more, and a dot alone, are errors. A run with one dot is a
/// float, which keeps its text. A run without dot is an integer, where the
/// number fits in 64 bits.
pub open spec fn scan_number(s: Seq<char>, i: int) -> Scan {
    let e = number_end(s, i);
    let run = s.subrange(i, e);
    let dots = dot_count(s, i, e);
    Scan {
        result: if dots >= 2 {
            Err("two or more dots found in a number literal"@)
        } else if run == seq!['.'] {
            Err("isolated `.` found"@)
        } else if dots == 1 {
            Ok(text_token(TokenKind::Float, run))
        } else if decimal_value(run) <= i64::MAX {
            Ok(int_token(decimal_value(run) as i64))
        } else {
            Err("number too large to fit in target type"@)
        },
        end: e,
    }
}

/// An identifier or keyword that starts at `i`: the longest run of
/// identifier characters, a keyword where it is one.
pub open spec fn scan_identifier(s: Seq<char>, i: int) -> Scan {
    let e = identifier_end(s, i);
    let run = s.subrange(i, e);
    Scan {
        result: Ok(
            match keyword(run) {
                Some(kind) => plain_token(kind),
                None => text_token(TokenKind::Ident, run),
            },
        ),
        end: e,
    }
}

/// The inside of a string literal from index `i` on, after the characters
/// `acc` that were read already: up to the closing quote, with each escape
/// replaced by the character it stands for.
pub open spec fn scan_string(s: Seq<char>, i: int, acc: Seq<char>) -> Scan
    decreases s.len() - i,
{
    if i < 0 || i >= s.len() {
        Scan { result: Err("unexpected end of a string literal"@), end: s.len() as int }
    } else if s[i] == '"' {
        Scan { result: Ok(text_token(TokenKind::String, acc)), end: i + 1 }
    } else if s[i] == '\\' {
        if i + 1 >= s.len() {
            Scan { result: Err("unexpected end of a string literal"@), end: s.len() as int }
        } else {
            match escaped_character(s[i + 1]) {
                None => Scan { result: Err("unknown escape sequence found"@), end: i + 2 },
                Some(c) => scan_string(s, i + 2, acc.push(c)),
            }
        }
    } else {
        scan_string(s, i + 1, acc.push(s[i]))
    }
}

/// What follows the one character of a character literal, at index `j`: the
/// closing apostrophe.
pub open spec fn scan_character_close(s: Seq<char>, j: int, c: char) -> Scan {
    if j >= s.len() {
        Scan { result: Err("unexpected end of a character literal"@), end: j }
    } else if s[j] != '\'' {
        Scan { result: Err("character literal can contain only one character"@), end: j }
    } else {
        Scan { result: Ok(char_token(c)), end: j + 1 }
    }
}

/// A character literal whose apostrophe stands at `i`: one character, plain
/// or escaped, between two apostrophes.
pub open spec fn scan_character(s: Seq<char>, i: int) -> Scan {
    if i + 1 >= s.len() {
        Scan { result: Err("unexpected end of a character literal"@), end: i + 1 }
    } else if s[i + 1] == '\'' {
        Scan { result: Err("character literal is empty"@), end: i + 1 }
    } else if s[i + 1] == '\\' {
        if i + 2 >= s.len() {
            Scan { result: Err("unexpected end of a character literal"@), end: i + 2 }
        } else {
            match escaped_character(s[i + 2]) {
                None => Scan { result: Err("unknown escape sequence found"@), end: i + 3 },
                Some(c) => scan_character_close(s, i + 3, c),
            }
        }
    } else {
        scan_character_close(s, i + 2, s[i + 1])
    }
}

/// An operator that is one character, or two where `second` follows it.
pub open spec fn scan_pair(s: Seq<char>, i: int, second: char, one: TokenKind, two: TokenKind) -> Scan {
    if i + 1 < s.len() && s[i + 1] == second {
        Scan { result: Ok(plain_token(two)), end: i + 2 }
    } else {
        Scan { result: Ok(plain_token(one)), end: i + 1 }
    }
}

/// An operator that needs its character twice: `&&` or `||`.
pub open spec fn scan_double(s: Seq<char>, i: int, kind: TokenKind, message: Seq<char>) -> Scan {
    if i + 1 >= s.len() {
        Scan { result: Err(message), end: i + 1 }
    } else if s[i + 1] != s[i] {
        Scan { result: Err(message), end: i + 2 }
    } else {
        Scan { result: Ok(plain_token(kind)), end: i + 2 }
    }
}

/// The message for a character with which no token starts.
pub open spec fn unexpected_character(c: char) -> Seq<char> {
    "unexpected character `"@ + seq![c] + "`"@
}

/// An operator or a punctuation mark at index `i`.
pub open spec fn scan_operator(s: Seq<char>, i: int) -> Scan {
    let c = s[i];
    if c == '=' {
        scan_pair(s, i, '=', TokenKind::Assign, TokenKind::Eq)
    } else if c == '!' {
        scan_pair(s, i, '=', TokenKind::Invert, TokenKind::NotEq)
    } else if c == '*' {
        scan_pair(s, i, '*', TokenKind::Asterisk, TokenKind::Power)
    } else if c == '>' {
        scan_pair(s, i, '=', TokenKind::Gt, TokenKind::GtEq)
    } else if c == '<' {
        scan_pair(s, i, '=', TokenKind::Lt, TokenKind::LtEq)
    } else if c == '&' {
        scan_double(s, i, TokenKind::And, "`&&` expected but not found"@)
    } else if c == '|' {
        scan_double(s, i, TokenKind::Or, "`||` expected but not found"@)
    } else {
        Scan {
            result: if c == '+' {
                Ok(plain_token(TokenKind::Plus))
            } else if c == '-' {
                Ok(plain_token(TokenKind::Minus))
            } else if c == '/' {
                Ok(plain_token(TokenKind::Slash))
            } else if c == '%' {
                Ok(plain_token(TokenKind::Percent))
            } else if c == ',' {
                Ok(plain_token(TokenKind::Comma))
            } else if c == ';' {
                Ok(plain_token(TokenKind::Semicolon))
            } else if c == '(' {
                Ok(plain_token(TokenKind::Lparen))
            } else if c == ')' {
                Ok(plain_token(TokenKind::Rparen))
            } else if c == '{' {
                Ok(plain_token(TokenKind::Lbrace))
            } else if c == '}' {
                Ok(plain_token(TokenKind::Rbrace))
            } else if c == '[' {
                Ok(plain_token(TokenKind::Lbracket))
            } else if c == ']' {
                Ok(plain_token(TokenKind::Rbracket))
            } else {
                Err(unexpected_character(c))
            },
            end: i + 1,
        }
    }
}

/// One step of the lexer on the input `s` from index `start`: whitespace is
/// skipped, then the first character decides what is read. At the end of the
/// input the token is `Eof`.
pub open spec fn scan_token(s: Seq<char>, start: int) -> Scan {
    let i = skip_whitespace(s, start);
    if i >= s.len() {
        Scan { result: Ok(plain_token(TokenKind::Eof)), end: i }
    } else if number_char(s[i]) {
        scan_number(s, i)
    } else if identifier_char(s[i]) {
        scan_identifier(s, i)
    } else if s[i] == '"' {
        scan_string(s, i + 1, Seq::empty())
    } else if s[i] == '\'' {
        scan_character(s, i)
    } else {
        scan_operator(s, i)
    }
}

/// The lexer: the characters of the input, which never change, and the index
/// of the next one to read.
pub struct Lexer {
    chars: Vec<char>,
    position: usize,
}

impl Lexer {
    /// The input, as characters.
    pub closed spec fn input(&self) -> Seq<char> {
        self.chars@
    }

    /// The index of the next character to read.
    pub closed spec fn position(&self) -> int {
        self.position as int
    }

    /// The position lies within the input.
    #[verifier::type_invariant]
    spec fn position_in_input(self) -> bool {
        self.position <= self.chars.len()
    }

    pub fn new(input: &str) -> (lexer: Self)
        ensures
            lexer.input() == input@,
            lexer.position() == 0,
    {
        Lexer { chars: str_chars(input), position: 0 }
    }

    fn read_identifier(&mut self) -> (r: String)
        ensures
            final(self).input() == old(self).input(),
            final(self).position() == identifier_end(old(self).input(), old(self).position()),
            r@ == old(self).input().subrange(old(self).position(), final(self).position()),
    {
        proof {
            use_type_invariant(&*self);
        }
        let mut l: Vec<char> = Vec::new();
        let start: usize = self.position;
        let mut position: usize = self.position;
        while position < self.chars.len() && is_identifier(self.chars[position])
            invariant
                start <= position <= self.chars.len(),
                identifier_end(self.chars@, start as int) == identifier_end(
                    self.chars@,
                    position as int,
                ),
                l@ == self.chars@.subrange(start as int, position as int),
            decreases self.chars.len() - position,
        {
            l.push(self.chars[position]);
            position = position + 1;
        }
        self.position = position;
        string_from_chars(&l)
    }

    fn read_number(&mut self) -> (r: LexerResult<String>)
        ensures
            final(self).input() == old(self).input(),
            final(self).position() == number_end(old(self).input(), old(self).position()),
            ({
                let s = old(self).input();
                let i = old(self).position();
                let e = final(self).position();
                match r {
                    Ok(l) => dot_count(s, i, e) < 2 && s.subrange(i, e) != seq!['.'] && l@
                        == s.subrange(i, e),
                    Err(m) => m@ == scan_number(s, i).result->Err_0 && (dot_count(s, i, e) >= 2
                        || s.subrange(i, e) == seq!['.']),
                }
            }),
    {
        proof {
            use_type_invariant(&*self);
        }
        let mut l: Vec<char> = Vec::new();
        let mut dots: usize = 0;
        let start: usize = self.position;
        let mut position: usize = self.position;
        while position < self.chars.len() && is_digit(self.chars[position])
            invariant
                start <= position <= self.chars.len(),
                number_end(self.chars@, start as int) == number_end(self.chars@, position as int),
                l@ == self.chars@.subrange(start as int, position as int),
                dots == dot_count(self.chars@, start as int, position as int),
                dots <= position - start,
            decreases self.chars.len() - position,
        {
            let c = self.chars[position];
            if c == '.' {
                dots = dots + 1;
            }
            l.push(c);
            position = position + 1;
        }
        self.position = position;
        if dots >= 2 {
            return Err(String::from_str("two or more dots found in a number literal"));
        } else if l.len() == 1 && l[0] == '.' {
            assert(l@ =~= seq!['.']);
            return Err(String::from_str("isolated `.` found"));
        }
        Ok(string_from_chars(&l))
    }

    /// Reads a string literal whose opening quote stands at the position, and
    /// gives its characters with the escapes resolved.
    fn read_string(&mut self) -> (r: LexerResult<String>)
        requires
            old(self).position() < old(self).input().len(),
        ensures
            final(self).input() == old(self).input(),
            ({
                let scan = scan_string(old(self).input(), old(self).position() + 1, Seq::empty());
                &&& final(self).position() == scan.end
                &&& match r {
                    Ok(l) => scan.result == Ok::<TokenView, Seq<char>>(
                        text_token(TokenKind::String, l@),
                    ),
                    Err(m) => scan.result == Err::<TokenView, Seq<char>>(m@),
                }
            }),
    {
        proof {
            use_type_invariant(&*self);
        }
        let mut l: Vec<char> = Vec::new();
        let start: usize = self.position + 1;
        let mut position: usize = start;
        let mut outcome: Option<LexerResult<String>> = None;
        while outcome.is_none()
            invariant
                start <= position <= self.chars.len(),
                match outcome {
                    None => scan_string(self.chars@, start as int, Seq::empty()) == scan_string(
                        self.chars@,
                        position as int,
                        l@,
                    ),
                    Some(r) => {
                        let scan = scan_string(self.chars@, start as int, Seq::empty());
                        &&& position == scan.end
                        &&& match r {
                            Ok(l) => scan.result == Ok::<TokenView, Seq<char>>(
                                text_token(TokenKind::String, l@),
                            ),
                            Err(m) => scan.result == Err::<TokenView, Seq<char>>(m@),
                        }
                    },
                },
            decreases self.chars.len() - position + if outcome is None { 1int } else { 0int },
        {
            if position >= self.chars.len() {
                outcome = Some(Err(String::from_str("unexpected end of a string literal")));
            } else {
                let next = self.chars[position];
                position = position + 1;
                if next == '"' {
                    outcome = Some(Ok(string_from_chars(&l)));
                } else if next == '\\' {
                    if position >= self.chars.len() {
                        outcome = Some(Err(String::from_str("unexpected end of a string literal")));
                    } else {
                        let escaped = self.chars[position];
                        position = position + 1;
                        match parse_escaped_character(escaped) {
                            None => {
                                outcome = Some(
                                    Err(String::from_str("unknown escape sequence found")),
                                );
                            },
                            Some(c) => {
                                l.push(c);
                            },
                        }
                    }
                } else {
                    l.push(next);
                }
            }
        }
        self.position = position;
        outcome.unwrap()
    }

    /// Reads a character literal whose apostrophe stands at the position.
    fn read_character(&mut self) -> (r: LexerResult<char>)
        requires
            old(self).position() < old(self).input().len(),
        ensures
            final(self).input() == old(self).input(),
            ({
                let scan = scan_character(old(self).input(), old(self).position());
                &&& final(self).position() == scan.end
                &&& match r {
                    Ok(c) => scan.result == Ok::<TokenView, Seq<char>>(char_token(c)),
                    Err(m) => scan.result == Err::<TokenView, Seq<char>>(m@),
                }
            }),
    {
        proof {
            use_type_invariant(&*self);
        }
        self.position = self.position + 1;
        if self.position >= self.chars.len() {
            return Err(String::from_str("unexpected end of a character literal"));
        } else if self.chars[self.position] == '\'' {
            return Err(String::from_str("character literal is empty"));
        }
        let first = self.chars[self.position];
        self.position = self.position + 1;
        let c = if first == '\\' {
            if self.position >= self.chars.len() {
                return Err(String::from_str("unexpected end of a character literal"));
            }
            let escaped = self.chars[self.position];
            self.position = self.position + 1;
            match parse_escaped_character(escaped) {
                None => {
                    return Err(String::from_str("unknown escape sequence found"));
                },
                Some(c) => c,
            }
        } else {
            first
        };
        if self.position >= self.chars.len() {
            return Err(String::from_str("unexpected end of a character literal"));
        } else if self.chars[self.position] != '\'' {
            return Err(String::from_str("character literal can contain only one character"));
        }
        self.position = self.position + 1;
        Ok(c)
    }

    /// Reads an operator that is one character, or two where `second` follows.
    fn read_pair(&mut self, second: char, one: Token, two: Token) -> (r: Token)
        requires
            old(self).position() < old(self).input().len(),
            one@ == plain_token(one@.kind),
            two@ == plain_token(two@.kind),
        ensures
            final(self).input() == old(self).input(),
            ({
                let scan = scan_pair(
                    old(self).input(),
                    old(self).position(),
                    second,
                    one@.kind,
                    two@.kind,
                );
                final(self).position() == scan.end && scan.result == Ok::<TokenView, Seq<char>>(r@)
            }),
    {
        proof {
            use_type_invariant(&*self);
        }
        self.position = self.position + 1;
        if self.position < self.chars.len() && self.chars[self.position] == second {
            self.position = self.position + 1;
            two
        } else {
            one
        }
    }

    /// Reads an operator that needs its character twice.
    fn read_double(&mut self, token: Token, message: &str) -> (r: LexerResult<Token>)
        requires
            old(self).position() < old(self).input().len(),
            token@ == plain_token(token@.kind),
        ensures
            final(self).input() == old(self).input(),
            ({
                let scan = scan_double(
                    old(self).input(),
                    old(self).position(),
                    token@.kind,
                    message@,
                );
                final(self).position() == scan.end && token_result_view(r) == scan.result
            }),
    {
        proof {
            use_type_invariant(&*self);
        }
        let cur = self.chars[self.position];
        self.position = self.position + 1;
        if self.position >= self.chars.len() {
            return Err(String::from_str(message));
        }
        let next = self.chars[self.position];
        self.position = self.position + 1;
        if next != cur {
            return Err(String::from_str(message));
        }
        Ok(token)
    }

    /// Reads an operator or a punctuation mark at the position.
    fn read_operator(&mut self) -> (r: LexerResult<Token>)
        requires
            old(self).position() < old(self).input().len(),
        ensures
            final(self).input() == old(self).input(),
            ({
                let scan = scan_operator(old(self).input(), old(self).position());
                final(self).position() == scan.end && token_result_view(r) == scan.result
            }),
    {
        proof {
            use_type_invariant(&*self);
        }
        let c = self.chars[self.position];
        match c {
            '=' => Ok(self.read_pair('=', Token::Assign, Token::Eq)),
            '!' => Ok(self.read_pair('=', Token::Invert, Token::NotEq)),
            '*' => Ok(self.read_pair('*', Token::Asterisk, Token::Power)),
            '>' => Ok(self.read_pair('=', Token::Gt, Token::GtEq)),
            '<' => Ok(self.read_pair('=', Token::Lt, Token::LtEq)),
            '&' => self.read_double(Token::And, "`&&` expected but not found"),
            '|' => self.read_double(Token::Or, "`||` expected but not found"),
            _ => {
                self.position = self.position + 1;
                match c {
                    '+' => Ok(Token::Plus),
                    '-' => Ok(Token::Minus),
                    '/' => Ok(Token::Slash),
                    '%' => Ok(Token::Percent),
                    ',' => Ok(Token::Comma),
                    ';' => Ok(Token::Semicolon),
                    '(' => Ok(Token::Lparen),
                    ')' => Ok(Token::Rparen),
                    '{' => Ok(Token::Lbrace),
                    '}' => Ok(Token::Rbrace),
                    '[' => Ok(Token::Lbracket),
                    ']' => Ok(Token::Rbracket),
                    _ => {
                        let mut one: Vec<char> = Vec::new();
                        one.push(c);
                        let shown = string_from_chars(&one);
                        Err(concat3("unexpected character `", shown.as_str(), "`"))
                    },
                }
            },
        }
    }

    /// Skips whitespace and reads the next token. The input is never
    /// changed; the position moves past what was read, also where the result
    /// is an error. At the end of the input the token is `Eof`, again and
    /// again.
    pub fn get_next_token(&mut self) -> (r: LexerResult<Token>)
        ensures
            final(self).input() == old(self).input(),
            token_result_view(r) == scan_token(old(self).input(), old(self).position()).result,
            final(self).position() == scan_token(old(self).input(), old(self).position()).end,
    {
        proof {
            use_type_invariant(&*self);
        }
        let start: usize = self.position;
        let mut position: usize = self.position;
        while position < self.chars.len() && is_ascii_whitespace(self.chars[position])
            invariant
                start <= position <= self.chars.len(),
                skip_whitespace(self.chars@, start as int) == skip_whitespace(
                    self.chars@,
                    position as int,
                ),
            decreases self.chars.len() - position,
        {
            position = position + 1;
        }
        self.position = position;
        if self.position >= self.chars.len() {
            return Ok(Token::Eof);
        }
        let ghost i = self.position as int;
        let c = self.chars[self.position];
        if is_digit(c) {
            let sequence = self.read_number()?;
            proof {
                lemma_run_not_empty(self.chars@, i);
                lemma_number_run(self.chars@, i, number_end(self.chars@, i));
            }
            lookup_token(sequence.as_str())
        } else if is_identifier(c) {
            let sequence = self.read_identifier();
            proof {
                lemma_run_not_empty(self.chars@, i);
                word_is_keyword_or_identifier(sequence@);
            }
            lookup_token(sequence.as_str())
        } else if c == '"' {
            Ok(Token::String(self.read_string()?))
        } else if c == '\'' {
            Ok(Token::Char(self.read_character()?))
        } else {
            self.read_operator()
        }
    }
}

/// The characters of a number run are digits and dots. A run with one dot
/// is a float, a run without is an integer.
proof fn lemma_number_run(s: Seq<char>, i: int, e: int)
    requires
        0 <= i < s.len(),
        number_char(s[i]),
        e == number_end(s, i),
    ensures
        ({
            let run = s.subrange(i, e);
            &&& dot_count(s, i, e) == 0 ==> lookup_token_spec(run) == if decimal_value(run)
                <= i64::MAX {
                Ok::<TokenView, Seq<char>>(int_token(decimal_value(run) as i64))
            } else {
                Err::<TokenView, Seq<char>>("number too large to fit in target type"@)
            }
            &&& dot_count(s, i, e) == 1 && run != seq!['.'] ==> lookup_token_spec(run) == Ok::<
                TokenView,
                Seq<char>,
            >(text_token(TokenKind::Float, run))
        }),
{
    lemma_run_not_empty(s, i);
    lemma_run_holds_number_chars(s, i, i);
    let run = s.subrange(i, e);
    lemma_dots(s, i, e);
    if dot_count(s, i, e) == 0 {
        digits_are_an_integer(run);
    } else if dot_count(s, i, e) == 1 && run != seq!['.'] {
        let d = choose|d: int| i <= d < e && s[d] == '.' && digits_between(s, i, d)
            && digits_between(s, d + 1, e);
        if run.len() == 1 {
            assert(run =~= seq!['.']);
        }
        digits_with_a_dot_are_a_float(run, d - i);
    }
}

/// Every character of a number run is a digit or a dot.
proof fn lemma_run_holds_number_chars(s: Seq<char>, i: int, j: int)
    requires
        0 <= i <= j <= s.len(),
        number_end(s, i) == number_end(s, j),
        forall|k: int| i <= k < j ==> number_char(#[trigger] s[k]),
    ensures
        forall|k: int| i <= k < number_end(s, i) ==> number_char(#[trigger] s[k]),
    decreases s.len() - j,
{
    if j < s.len() && number_char(s[j]) {
        lemma_run_holds_number_chars(s, i, j + 1);
    }
}

/// Among digits and dots, no dot means digits only, and one dot means
/// digits before it and after it.
proof fn lemma_dots(s: Seq<char>, i: int, e: int)
    requires
        0 <= i <= e <= s.len(),
        forall|k: int| i <= k < e ==> number_char(#[trigger] s[k]),
    ensures
        dot_count(s, i, e) == 0 ==> digits_between(s, i, e),
        dot_count(s, i, e) == 1 ==> exists|d: int|
            i <= d < e && s[d] == '.' && digits_between(s, i, d) && digits_between(s, d + 1, e),
    decreases e - i,
{
    if i < e {
        lemma_dots(s, i, e - 1);
    }
}

/// The runs lie within the input, and a run that starts on a character of
/// its kind holds that character.
pub proof fn lemma_run_not_empty(s: Seq<char>, i: int)
    requires
        0 <= i <= s.len(),
    ensures
        i <= number_end(s, i) <= s.len(),
        i <= identifier_end(s, i) <= s.len(),
        i <= skip_whitespace(s, i) <= s.len(),
        i < s.len() && number_char(s[i]) ==> number_end(s, i) > i,
        i < s.len() && identifier_char(s[i]) ==> identifier_end(s, i) > i,
        skip_whitespace(s, i) < s.len() ==> !whitespace_char(s[skip_whitespace(s, i)]),
    decreases s.len() - i,
{
    if i < s.len() {
        lemma_run_not_empty(s, i + 1);
    }
}

/// Reading a string literal ends after where it began, within the input.
pub proof fn lemma_scan_string_end(s: Seq<char>, i: int, acc: Seq<char>)
    requires
        0 <= i <= s.len(),
    ensures
        i <= scan_string(s, i, acc).end <= s.len(),
        scan_string(s, i, acc).result matches Ok(t) ==> t.kind == TokenKind::String,
    decreases s.len() - i,
{
    if i < s.len() && s[i] != '"' {
        if s[i] != '\\' {
            lemma_scan_string_end(s, i + 1, acc.push(s[i]));
        } else if i + 1 < s.len() && escaped_character(s[i + 1]) is Some {
            lemma_scan_string_end(s, i + 2, acc.push(escaped_character(s[i + 1])->0));
        }
    }
}

/// Every step of the lexer ends within the input and not before where it
/// began. A step that gives a token other than `Eof` moves forward, so only
/// finitely many such steps can follow one another; a step that gives `Eof`
/// ends at the end of the input.
pub proof fn scan_token_progress(s: Seq<char>, start: int)
    requires
        0 <= start <= s.len(),
    ensures
        start <= scan_token(s, start).end <= s.len(),
        scan_token(s, start).result matches Ok(t) ==> (if t.kind == TokenKind::Eof {
            t == plain_token(TokenKind::Eof) && scan_token(s, start).end == s.len()
        } else {
            scan_token(s, start).end > start
        }),
{
    lemma_run_not_empty(s, start);
    let i = skip_whitespace(s, start);
    if i < s.len() {
        lemma_run_not_empty(s, i);
        lemma_scan_string_end(s, i + 1, Seq::empty());
    }
}

/// At the end of the input the lexer gives `Eof` and stays there: once
/// `Eof` has come, it comes again however often the lexer is asked.
pub proof fn scan_token_at_end(s: Seq<char>)
    ensures
        scan_token(s, s.len() as int) == (Scan {
            result: Ok(plain_token(TokenKind::Eof)),
            end: s.len() as int,
        }),
{
}

/// A result with `prefix` put in front of the tokens it holds.
pub open spec fn prepend_tokens(
    prefix: Seq<TokenView>,
    r: Result<Seq<TokenView>, Seq<char>>,
) -> Result<Seq<TokenView>, Seq<char>> {
    match r {
        Ok(rest) => Ok(prefix + rest),
        Err(m) => Err(m),
    }
}

/// The tokens of the input `s` from index `start` on, up to and including
/// the first `Eof`; or the first error message.
pub open spec fn scan_all(s: Seq<char>, start: int) -> Result<Seq<TokenView>, Seq<char>>
    decreases s.len() - start,
{
    let scan = scan_token(s, start);
    match scan.result {
        Err(m) => Err(m),
        Ok(t) => if t.kind == TokenKind::Eof || start < 0 || start > s.len() {
            Ok(seq![t])
        } else {
            proof {
                scan_token_progress(s, start);
            }
            prepend_tokens(seq![t], scan_all(s, scan.end))
        },
    }
}

/// Where the whole input can be read, the tokens end with `Eof` and hold no
/// other `Eof`.
pub proof fn scan_all_ends_with_eof(s: Seq<char>, start: int)
    requires
        0 <= start <= s.len(),
    ensures
        scan_all(s, start) matches Ok(tokens) ==> {
            &&& tokens.len() > 0
            &&& tokens.last() == plain_token(TokenKind::Eof)
            &&& forall|i: int| 0 <= i < tokens.len() - 1 ==> (#[trigger] tokens[i]).kind
                != TokenKind::Eof
        },
    decreases s.len() - start,
{
    let scan = scan_token(s, start);
    scan_token_progress(s, start);
    if let Ok(t) = scan.result {
        if t.kind != TokenKind::Eof {
            scan_all_ends_with_eof(s, scan.end);
            if let Ok(rest) = scan_all(s, scan.end) {
                let tokens = seq![t] + rest;
            }
        }
    }
}

/// The model of a result that holds tokens or a message.
pub open spec fn tokens_result_view(r: LexerResult<Vec<Token>>) -> Result<
    Seq<TokenView>,
    Seq<char>,
> {
    match r {
        Ok(v) => Ok(token_views(v@)),
        Err(m) => Err(m@),
    }
}

/// Reads the whole of `s`: its tokens with one `Eof` at the end, or the
/// message of the first error.
pub fn get_tokens(s: &str) -> (r: LexerResult<Vec<Token>>)
    ensures
        tokens_result_view(r) == scan_all(s@, 0),
{
    let mut lexer = Lexer::new(s);
    let mut v: Vec<Token> = Vec::new();
    let mut done = false;
    while !done
        invariant
            lexer.input() == s@,
            0 <= lexer.position() <= s@.len(),
            !done ==> scan_all(s@, 0) == prepend_tokens(
                token_views(v@),
                scan_all(s@, lexer.position()),
            ),
            done ==> scan_all(s@, 0) == Ok::<Seq<TokenView>, Seq<char>>(token_views(v@)),
        decreases s@.len() - lexer.position() + if done { 0int } else { 1int },
    {
        let ghost position = lexer.position();
        let ghost before = token_views(v@);
        proof {
            scan_token_progress(s@, position);
        }
        let token = lexer.get_next_token()?;
        if let Token::Eof = token {
            done = true;
        }
        v.push(token);
        proof {
            let t = scan_token(s@, position).result->Ok_0;
            assert(token_views(v@) =~= before + seq![t]);
            if let Ok(rest) = scan_all(s@, lexer.position()) {
                assert(before + (seq![t] + rest) =~= (before + seq![t]) + rest);
            }
        }
    }
    Ok(v)
}

} // verus!
