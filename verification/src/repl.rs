use crate::ast::{well_formed_statements, Node, RootNode};
use crate::environment::Environment;
use crate::evaluator::{eval_root_spec, Evaluator};
use crate::host::Host;
use crate::lexer::{get_tokens, scan_all, scan_all_ends_with_eof};
use crate::object::{display_text, Outcome};
use crate::parser::{parse_program_spec, ParseErrorView, Parser};
use crate::text::{join_texts, join_with, str_chars, strings_view};
use crate::token::{token_debug_text, token_views, Token, TokenView};
use vstd::prelude::*;
use vstd::string::StringExecFns;

verus! {

/// The characters that count as whitespace at the ends of a line: those
/// with the Unicode property `White_Space`.
pub open spec fn unicode_whitespace(c: char) -> bool {
    ('\u{9}' <= c && c <= '\u{d}') || c == ' ' || c == '\u{85}' || c == '\u{a0}' || c
        == '\u{1680}' || ('\u{2000}' <= c && c <= '\u{200a}') || c == '\u{2028}' || c
        == '\u{2029}' || c == '\u{202f}' || c == '\u{205f}' || c == '\u{3000}'
}

/// A line is blank where it holds nothing but whitespace.
pub open spec fn blank(line: Seq<char>) -> bool {
    forall|i: int| 0 <= i < line.len() ==> unicode_whitespace(#[trigger] line[i])
}

/// The tokens of a line as the prompt shows them: in square brackets, with
/// `, ` between each two.
pub open spec fn tokens_text(tokens: Seq<TokenView>) -> Seq<char> {
    "["@ + join_texts(tokens.map_values(|t: TokenView| token_debug_text(t)), ", "@) + "]"@
}

/// What the prompt makes of a line.
pub enum Reading {
    /// The line is blank: there is nothing to answer.
    Blank,
    /// The line cannot be read as tokens: the message.
    Unreadable(String),
    /// The tokens of the line, as text, and the program that they make or
    /// the text of the error for which they make none.
    Read(String, Result<RootNode, String>),
}

fn is_whitespace(c: char) -> (b: bool)
    ensures
        b == unicode_whitespace(c),
{
    ('\u{9}' <= c && c <= '\u{d}') || c == ' ' || c == '\u{85}' || c == '\u{a0}' || c
        == '\u{1680}' || ('\u{2000}' <= c && c <= '\u{200a}') || c == '\u{2028}' || c
        == '\u{2029}' || c == '\u{202f}' || c == '\u{205f}' || c == '\u{3000}'
}

/// Whether a line holds nothing but whitespace.
pub fn is_blank(line: &str) -> (b: bool)
    ensures
        b == blank(line@),
{
    let chars = str_chars(line);
    let mut i: usize = 0;
    while i < chars.len()
        invariant
            i <= chars.len(),
            chars@ == line@,
            forall|k: int| 0 <= k < i ==> unicode_whitespace(#[trigger] chars@[k]),
        decreases chars.len() - i,
    {
        if !is_whitespace(chars[i]) {
            return false;
        }
        i = i + 1;
    }
    true
}

/// The tokens as the prompt shows them.
pub fn show_tokens(tokens: &Vec<Token>) -> (s: String)
    ensures
        s@ == tokens_text(token_views(tokens@)),
{
    let mut shown: Vec<String> = Vec::new();
    let mut i: usize = 0;
    while i < tokens.len()
        invariant
            i <= tokens.len(),
            shown@.len() == i,
            forall|k: int| 0 <= k < i ==> (#[trigger] shown@[k])@ == token_debug_text(tokens@[k]@),
        decreases tokens.len() - i,
    {
        shown.push(tokens[i].debug_string());
        i = i + 1;
    }
    assert(strings_view(shown@) =~= token_views(tokens@).map_values(
        |t: TokenView| token_debug_text(t),
    ));
    let inner = join_with(&shown, ", ");
    let mut s = String::from_str("[");
    s.append(inner.as_str());
    s.append("]");
    s
}

/// Whether a reading is what a line calls for.
pub open spec fn reading_matches(reading: Reading, line: Seq<char>) -> bool {
    if blank(line) {
        reading is Blank
    } else {
        match scan_all(line, 0) {
            Err(m) => reading matches Reading::Unreadable(e) && e@ == m,
            Ok(tokens) => reading matches Reading::Read(shown, program) && shown@ == tokens_text(
                tokens,
            ) && match parse_program_spec(tokens, 0, Seq::empty()).result {
                Err(ParseErrorView::Error(m)) => program matches Err(e) && e@ == m,
                Err(ParseErrorView::Eof) => program matches Err(e) && e@ == "eof"@,
                Ok(statements) => program matches Ok(root) && root@ == statements
                    && well_formed_statements(root@),
            },
        }
    }
}

/// Reads a line: as nothing where it is blank, else as tokens and, where
/// the tokens make one, as a program.
pub fn read(line: &str) -> (reading: Reading)
    ensures
        reading_matches(reading, line@),
{
    if is_blank(line) {
        return Reading::Blank;
    }
    let tokens = match get_tokens(line) {
        Err(e) => {
            return Reading::Unreadable(e);
        },
        Ok(v) => v,
    };
    let shown = show_tokens(&tokens);
    proof {
        scan_all_ends_with_eof(line@, 0);
    }
    let mut parser = Parser::new(tokens);
    match parser.parse() {
        Err(e) => Reading::Read(shown, Err(e.to_string())),
        Ok(root) => Reading::Read(shown, Ok(root)),
    }
}

/// Whether an answer is the one that the model of evaluation gives: the
/// text that shows the value, or the message of the error.
pub open spec fn answer_matches(answer: Result<String, String>, expected: Outcome) -> bool {
    match expected {
        Outcome::Value(v) => answer matches Ok(t) && (display_text(v) matches Some(d) ==> t@ == d),
        Outcome::Error(m) => answer matches Err(e) && e@ == m,
        Outcome::Floating => true,
    }
}

/// Evaluates a program in the environment of the session and gives the
/// text of the answer. Bindings that the program makes stay in the
/// environment, also where a later statement fails.
pub fn evaluate<H: Host>(
    evaluator: &Evaluator,
    program: RootNode,
    env: &mut Environment,
    host: &mut H,
) -> (answer: Result<String, String>)
    ensures
        ({
            let step = eval_root_spec(program@, old(env)@, evaluator.call_depth());
            answer_matches(answer, step.outcome) && (!(step.outcome is Floating) ==> final(env)@
                == step.env)
        }),
{
    match evaluator.eval(&Node::Root(program), env, host) {
        Ok(o) => Ok(o.to_string(&*host)),
        Err(e) => Err(e),
    }
}

} // verus!
