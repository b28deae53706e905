use monkey_lang::ast::Node;
use monkey_lang::environment::Environment;
use monkey_lang::evaluator::{EvalResult, Evaluator};
use monkey_lang::host::{Arithmetic, Comparison, Host};
use monkey_lang::lexer::get_tokens;
use monkey_lang::object::Object;
use monkey_lang::parser::Parser;

struct Silent;

impl Host for Silent {
    fn print(&mut self, _text: &str) {}

    fn eprint(&mut self, _text: &str) {}

    fn exit(&mut self, _code: i64) {}

    fn float_parse(&self, literal: &str) -> u64 {
        literal.parse::<f64>().unwrap().to_bits()
    }

    fn float_display(&self, bits: u64) -> String {
        format!("{}", f64::from_bits(bits))
    }

    fn float_negate(&self, bits: u64) -> u64 {
        (-f64::from_bits(bits)).to_bits()
    }

    fn float_arithmetic(&self, _operation: Arithmetic, left: u64, _right: u64) -> u64 {
        left
    }

    fn float_compare(&self, _comparison: Comparison, left: u64, right: u64) -> bool {
        left == right
    }

    fn float_to_int(&self, bits: u64) -> i64 {
        f64::from_bits(bits) as i64
    }

    fn float_from_int(&self, value: i64) -> u64 {
        (value as f64).to_bits()
    }
}

fn run(s: &str) -> EvalResult {
    let root = Parser::new(get_tokens(s).unwrap()).parse().unwrap();
    let mut env = Environment::new(None);
    Evaluator::new().eval(&Node::Root(root), &mut env, &mut Silent)
}

#[test]
fn endless_recursion_is_an_error() {
    let r = run("let f = fn(x) { if (x == 0 - 1) { return 0; } return f(x + 1); }; f(0)");
    assert_eq!(r.err(), Some("call depth limit exceeded".to_string()));
}

#[test]
fn recursion_below_the_limit_succeeds() {
    let r = run("let f = fn(x) { if (x == 0) { return 0; } return 1 + f(x - 1); }; f(150)");
    match &*r.unwrap() {
        Object::Int(i) => assert_eq!(i.value(), 150),
        _ => panic!("not an integer"),
    }
}

#[test]
fn recursion_through_nested_blocks_succeeds() {
    let r = run(
        "let f = fn(x) { if (x == 0) { return 0; } else { if (true) { { [1 + f(x - 1)][0] } } } }; f(150)",
    );
    match &*r.unwrap() {
        Object::Int(i) => assert_eq!(i.value(), 150),
        _ => panic!("not an integer"),
    }
}
