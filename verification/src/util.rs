use vstd::prelude::*;

verus! {

/// ASCII letters.
pub open spec fn is_ascii_letter(c: char) -> bool {
    ('a' <= c && c <= 'z') || ('A' <= c && c <= 'Z')
}

/// ASCII decimal digits.
pub open spec fn is_ascii_decimal(c: char) -> bool {
    '0' <= c && c <= '9'
}

/// The characters an identifier is made of: ASCII letters, ASCII digits and `_`.
pub open spec fn identifier_char(c: char) -> bool {
    is_ascii_letter(c) || is_ascii_decimal(c) || c == '_'
}

/// The characters a number literal is made of: ASCII digits and `.`.
pub open spec fn number_char(c: char) -> bool {
    is_ascii_decimal(c) || c == '.'
}

/// ASCII whitespace: space, tab, line feed, form feed and carriage return.
pub open spec fn whitespace_char(c: char) -> bool {
    c == ' ' || c == '\t' || c == '\n' || c == '\x0C' || c == '\r'
}

/// The character that `\c` stands for inside a literal, if `c` names an escape.
pub open spec fn escaped_character(c: char) -> Option<char> {
    if c == '\\' {
        Some('\\')
    } else if c == '\'' {
        Some('\'')
    } else if c == '"' {
        Some('"')
    } else if c == '0' {
        Some('\0')
    } else if c == 'n' {
        Some('\n')
    } else if c == 'r' {
        Some('\r')
    } else if c == 't' {
        Some('\t')
    } else {
        None
    }
}

pub fn is_ascii_alphabetic(c: char) -> (b: bool)
    ensures
        b == is_ascii_letter(c),
{
    ('a' <= c && c <= 'z') || ('A' <= c && c <= 'Z')
}

pub fn is_ascii_digit(c: char) -> (b: bool)
    ensures
        b == is_ascii_decimal(c),
{
    '0' <= c && c <= '9'
}

pub fn is_ascii_whitespace(c: char) -> (b: bool)
    ensures
        b == whitespace_char(c),
{
    c == ' ' || c == '\t' || c == '\n' || c == '\x0C' || c == '\r'
}

pub fn is_identifier(c: char) -> (b: bool)
    ensures
        b == identifier_char(c),
{
    is_ascii_alphabetic(c) || is_ascii_digit(c) || (c == '_')
}

pub fn is_digit(c: char) -> (b: bool)
    ensures
        b == number_char(c),
{
    is_ascii_digit(c) || (c == '.')
}

/// An escaped character is written `\n`: this takes the `n` and gives the
/// character meant, or `None` where the letter names no escape.
pub fn parse_escaped_character(c: char) -> (r: Option<char>)
    ensures
        r == escaped_character(c),
{
    match c {
        '\\' => Some('\\'),
        '\'' => Some('\''),
        '"' => Some('"'),
        '0' => Some('\0'),
        'n' => Some('\n'),
        'r' => Some('\r'),
        't' => Some('\t'),
        _ => None,
    }
}

} // verus!
