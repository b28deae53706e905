use itertools::Itertools;
use std::rc::Rc;
use vstd::prelude::*;
use vstd::string::StringExecFns;

verus! {

/// A name for the text that `Debug` for `str` writes: the string between
/// double quotes, with its special characters escaped. Nothing is assumed of
/// it but that it depends on the characters of the string alone.
pub uninterp spec fn str_debug_text(s: Seq<char>) -> Seq<char>;

/// A name for the text that `Debug` for `char` writes: the character
/// between apostrophes, escaped where it is special. Nothing is assumed of
/// it but that it depends on the character alone.
pub uninterp spec fn char_debug_text(c: char) -> Seq<char>;

/// Calls `Itertools::collect_vec` on the characters of a string. Assumed,
/// not proved: it gives the characters of the string, in order.
#[verifier::external_body]
pub(crate) fn str_chars(s: &str) -> (v: Vec<char>)
    ensures
        v@ == s@,
{
    s.chars().collect_vec()
}

/// Calls `Itertools::dropping_back` on the items of a vector. Assumed, not
/// proved: it drops the last `n` items, and all of them where there are
/// fewer than `n`, and keeps the others in order.
#[verifier::external_body]
pub(crate) fn drop_back(v: Vec<char>, n: usize) -> (r: Vec<char>)
    ensures
        r@ == v@.take(if v@.len() >= n { v@.len() - n } else { 0 }),
{
    v.into_iter().dropping_back(n).collect()
}

/// Collects the characters of a vector into a `String`. Assumed, not
/// proved: the string holds those characters, in order.
#[verifier::external_body]
pub(crate) fn string_from_chars(v: &Vec<char>) -> (s: String)
    ensures
        s@ == v@,
{
    v.iter().collect()
}

/// Calls `==` on string slices. Assumed, not proved: it tells whether the
/// two hold the same characters.
#[verifier::external_body]
pub(crate) fn str_equals(a: &str, b: &str) -> (r: bool)
    ensures
        r == (a@ == b@),
{
    a == b
}

/// Calls `Rc::clone`. Assumed, not proved: the new pointer shares the
/// allocation, so it holds the same value.
#[verifier::external_body]
pub(crate) fn rc_clone<T>(r: &Rc<T>) -> (res: Rc<T>)
    ensures
        res == *r,
{
    Rc::clone(r)
}

/// Formats a string slice with `{:?}`, that is by `Debug` for `str`.
/// Assumed, not proved: the text is a function of the characters. What it
/// is goes by the name `str_debug_text`.
#[verifier::external_body]
pub(crate) fn str_debug(s: &str) -> (r: String)
    ensures
        r@ == str_debug_text(s@),
{
    format!("{:?}", s)
}

/// Formats a character with `{:?}`, that is by `Debug` for `char`.
/// Assumed, not proved: the text is a function of the character. What it is
/// goes by the name `char_debug_text`.
#[verifier::external_body]
pub(crate) fn char_debug(c: char) -> (r: String)
    ensures
        r@ == char_debug_text(c),
{
    format!("{:?}", c)
}

/// The decimal digit for a number below ten.
pub open spec fn digit_char(d: int) -> char {
    if d == 0 {
        '0'
    } else if d == 1 {
        '1'
    } else if d == 2 {
        '2'
    } else if d == 3 {
        '3'
    } else if d == 4 {
        '4'
    } else if d == 5 {
        '5'
    } else if d == 6 {
        '6'
    } else if d == 7 {
        '7'
    } else if d == 8 {
        '8'
    } else {
        '9'
    }
}

/// The number that a decimal digit stands for.
pub open spec fn digit_value(c: char) -> int {
    c as int - '0' as int
}

/// A natural number in decimal, without leading zeros.
pub open spec fn natural_text(n: nat) -> Seq<char>
    decreases n,
{
    if n < 10 {
        seq![digit_char(n as int)]
    } else {
        natural_text(n / 10).push(digit_char((n % 10) as int))
    }
}

/// An integer in decimal, with `-` in front where it is negative.
pub open spec fn decimal_text(i: int) -> Seq<char> {
    if i < 0 {
        seq!['-'] + natural_text((-i) as nat)
    } else {
        natural_text(i as nat)
    }
}

fn digit(d: u64) -> (c: char)
    requires
        d < 10,
    ensures
        c == digit_char(d as int),
{
    if d == 0 {
        '0'
    } else if d == 1 {
        '1'
    } else if d == 2 {
        '2'
    } else if d == 3 {
        '3'
    } else if d == 4 {
        '4'
    } else if d == 5 {
        '5'
    } else if d == 6 {
        '6'
    } else if d == 7 {
        '7'
    } else if d == 8 {
        '8'
    } else {
        '9'
    }
}

/// Appends the decimal digits of `n` to `out`.
fn push_natural(out: &mut Vec<char>, n: u64)
    ensures
        final(out)@ == old(out)@ + natural_text(n as nat),
    decreases n,
{
    if n < 10 {
        out.push(digit(n));
    } else {
        push_natural(out, n / 10);
        out.push(digit(n % 10));
    }
}

/// The decimal text of an integer, as `i64`'s `Display` writes it.
pub fn int_to_string(i: i64) -> (s: String)
    ensures
        s@ == decimal_text(i as int),
{
    let mut out: Vec<char> = Vec::new();
    if i < 0 {
        out.push('-');
        let magnitude: u64 = if i == i64::MIN {
            9223372036854775808u64
        } else {
            (-i) as u64
        };
        push_natural(&mut out, magnitude);
    } else {
        push_natural(&mut out, i as u64);
    }
    string_from_chars(&out)
}

/// Text made of three parts.
pub fn concat3(a: &str, b: &str, c: &str) -> (s: String)
    ensures
        s@ == a@ + b@ + c@,
{
    let mut s = String::from_str(a);
    s.append(b);
    s.append(c);
    s
}

/// The texts of a list of strings.
pub open spec fn strings_view(strings: Seq<String>) -> Seq<Seq<char>> {
    strings.map_values(|s: String| s@)
}

/// Each of the texts of `parts` with `separator` in front of it, in a row.
pub open spec fn separated_texts(parts: Seq<Seq<char>>, separator: Seq<char>) -> Seq<char>
    decreases parts.len(),
{
    if parts.len() == 0 {
        Seq::empty()
    } else {
        separator + parts.first() + separated_texts(parts.drop_first(), separator)
    }
}

/// The texts of `parts` in a row, with `separator` between each two: the
/// first text, then each of the others with the separator in front of it.
pub open spec fn join_texts(parts: Seq<Seq<char>>, separator: Seq<char>) -> Seq<char> {
    if parts.len() == 0 {
        Seq::empty()
    } else {
        parts.first() + separated_texts(parts.drop_first(), separator)
    }
}

/// Calls `Itertools::join` on the strings of a vector. Assumed, not proved:
/// it gives the first string, then each of the others with the separator in
/// front of it, and the empty string where there is none.
#[verifier::external_body]
pub(crate) fn join_with(parts: &Vec<String>, separator: &str) -> (r: String)
    ensures
        r@ == join_texts(strings_view(parts@), separator@),
{
    parts.iter().join(separator)
}

/// Whether `a` comes before `b` in the order of the dictionary, character
/// by character: a text comes after each of its beginnings.
pub open spec fn text_less(a: Seq<char>, b: Seq<char>) -> bool
    decreases a.len(),
{
    if b.len() == 0 {
        false
    } else if a.len() == 0 {
        true
    } else if a[0] != b[0] {
        a[0] < b[0]
    } else {
        text_less(a.drop_first(), b.drop_first())
    }
}

/// Calls `<` on string slices. Assumed, not proved: it is the order of the
/// dictionary by code points, which is the order of the bytes.
#[verifier::external_body]
pub(crate) fn str_less(a: &str, b: &str) -> (r: bool)
    ensures
        r == text_less(a@, b@),
{
    a < b
}

/// The product of `exponent` factors `base`, each product cut to 64 bits.
pub open spec fn wrapping_power(base: i64, exponent: nat) -> i64
    decreases exponent,
{
    if exponent == 0 {
        1
    } else {
        base.wrapping_mul(wrapping_power(base, (exponent - 1) as nat))
    }
}

/// Calls `i64::wrapping_pow`. Assumed, not proved: it gives the power,
/// wrapped round at the bounds of `i64`.
#[verifier::external_body]
pub(crate) fn wrapping_pow(base: i64, exponent: u32) -> (r: i64)
    ensures
        r == wrapping_power(base, exponent as nat),
{
    base.wrapping_pow(exponent)
}

} // verus!
