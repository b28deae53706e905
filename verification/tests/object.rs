use monkey_lang::ast::{BlockExpressionNode, IdentifierNode};
use monkey_lang::environment::Environment;
use monkey_lang::host::{Arithmetic, Comparison, Host};
use monkey_lang::object::{
    Array, Bool, BuiltinFunction, BuiltinKind, Char, Float, Function, FunctionBase, Indexable, Int,
    Null, Object, ReturnValue, Str,
};
use monkey_lang::token::Token;
use std::rc::Rc;

// A host that keeps what is printed and computes floats as the machine does.
struct Machine {
    out: Vec<String>,
    err: Vec<String>,
    exit: Vec<i64>,
}

impl Machine {
    fn new() -> Self {
        Machine { out: vec![], err: vec![], exit: vec![] }
    }
}

impl Host for Machine {
    fn print(&mut self, text: &str) {
        self.out.push(text.to_string());
    }

    fn eprint(&mut self, text: &str) {
        self.err.push(text.to_string());
    }

    fn exit(&mut self, code: i64) {
        self.exit.push(code);
    }

    fn float_parse(&self, literal: &str) -> u64 {
        literal.parse::<f64>().unwrap().to_bits()
    }

    fn float_display(&self, bits: u64) -> String {
        format!("{}", f64::from_bits(bits))
    }

    fn float_negate(&self, bits: u64) -> u64 {
        (-f64::from_bits(bits)).to_bits()
    }

    fn float_arithmetic(&self, operation: Arithmetic, left: u64, right: u64) -> u64 {
        let (l, r) = (f64::from_bits(left), f64::from_bits(right));
        match operation {
            Arithmetic::Add => l + r,
            Arithmetic::Subtract => l - r,
            Arithmetic::Multiply => l * r,
            Arithmetic::Divide => l / r,
            Arithmetic::Remainder => l % r,
            Arithmetic::Power => l.powf(r),
        }
        .to_bits()
    }

    fn float_compare(&self, comparison: Comparison, left: u64, right: u64) -> bool {
        let (l, r) = (f64::from_bits(left), f64::from_bits(right));
        match comparison {
            Comparison::Equal => l == r,
            Comparison::NotEqual => l != r,
            Comparison::Less => l < r,
            Comparison::Greater => l > r,
            Comparison::LessOrEqual => l <= r,
            Comparison::GreaterOrEqual => l >= r,
        }
    }

    fn float_to_int(&self, bits: u64) -> i64 {
        f64::from_bits(bits) as i64
    }

    fn float_from_int(&self, value: i64) -> u64 {
        (value as f64).to_bits()
    }
}

fn parameter(name: &str) -> IdentifierNode {
    IdentifierNode::new(Token::Ident(name.to_string()))
}

#[test]
fn the_plain_objects_keep_their_value() {
    assert_eq!(Int::new(-3).value(), -3);
    assert_eq!(Int::new(i64::MAX).value(), i64::MAX);
    assert_eq!(Bool::new(true).value(), true);
    assert_eq!(Bool::new(false).value(), false);
    assert_eq!(Char::new('あ').value(), 'あ');
    assert_eq!(Float::new(1.5f64.to_bits()).value(), 1.5f64.to_bits());
    assert_eq!(f64::from_bits(Float::new((-0.0f64).to_bits()).value()).to_bits(), (-0.0f64).to_bits());
}

#[test]
fn a_string_keeps_its_text_and_counts_its_characters() {
    let s = Str::new(Rc::new("こんにちは".to_string()));
    assert_eq!(s.value(), "こんにちは");
    assert_eq!(s.len(), 5);
    let s = Str::new(Rc::new(String::new()));
    assert_eq!(s.value(), "");
    assert_eq!(s.len(), 0);
    let s = Str::new(Rc::new("abc".to_string()));
    assert_eq!(s.len(), 3);
}

#[test]
fn an_array_keeps_its_elements() {
    let a = Array::new(vec![
        Rc::new(Object::Int(Int::new(1))),
        Rc::new(Object::Bool(Bool::new(true))),
    ]);
    assert_eq!(a.len(), 2);
    assert_eq!(a.elements().len(), 2);
    assert!(matches!(&*a.elements()[0], Object::Int(i) if i.value() == 1));
    assert!(matches!(&*a.elements()[1], Object::Bool(b) if b.value()));
    assert_eq!(Array::new(vec![]).len(), 0);
}

#[test]
fn a_return_value_keeps_what_it_wraps() {
    let r = ReturnValue::new(Rc::new(Object::Int(Int::new(7))));
    assert!(matches!(&**r.value(), Object::Int(i) if i.value() == 7));
}

#[test]
fn a_function_keeps_parameters_body_and_environment() {
    let mut env = Environment::new(None);
    env.set("a".to_string(), Rc::new(Object::Int(Int::new(1))));
    let f = Function::new(
        Rc::new(vec![parameter("x"), parameter("y")]),
        Rc::new(BlockExpressionNode::new(vec![])),
        env,
    );
    assert_eq!(f.num_parameter(), 2);
    assert_eq!(f.parameters()[0].get_name(), "x");
    assert_eq!(f.parameters()[1].get_name(), "y");
    assert_eq!(f.body().statements().len(), 0);
    assert!(f.env().get("a").is_some());
    assert!(f.env().get("x").is_none());
}

#[test]
fn a_built_in_function_keeps_parameters_and_kind() {
    let f = BuiltinFunction::new(Rc::new(vec![parameter("l"), parameter("v")]), BuiltinKind::Append);
    assert_eq!(f.kind(), BuiltinKind::Append);
    assert_eq!(f.num_parameter(), 2);
    assert_eq!(f.parameters()[1].get_name(), "v");
}

#[test]
fn to_string_shows_every_kind() {
    let m = Machine::new();
    assert_eq!(Object::Null(Null::new()).to_string(&m), "null");
    assert_eq!(Object::Int(Int::new(0)).to_string(&m), "0");
    assert_eq!(Object::Int(Int::new(-42)).to_string(&m), "-42");
    assert_eq!(Object::Int(Int::new(i64::MIN)).to_string(&m), "-9223372036854775808");
    assert_eq!(Object::Int(Int::new(i64::MAX)).to_string(&m), "9223372036854775807");
    assert_eq!(Object::Int(Int::new(1000)).to_string(&m), "1000");
    assert_eq!(Object::Float(Float::new(3.5f64.to_bits())).to_string(&m), "3.5");
    assert_eq!(Object::Bool(Bool::new(true)).to_string(&m), "true");
    assert_eq!(Object::Bool(Bool::new(false)).to_string(&m), "false");
    assert_eq!(Object::Char(Char::new('い')).to_string(&m), "い");
    assert_eq!(Object::Str(Str::new(Rc::new("a\"b".to_string()))).to_string(&m), "a\"b");
    assert_eq!(Object::Array(Array::new(vec![])).to_string(&m), "[]");
    assert_eq!(
        Object::Array(Array::new(vec![Rc::new(Object::Int(Int::new(1)))])).to_string(&m),
        "[1]"
    );
    assert_eq!(
        Object::Array(Array::new(vec![
            Rc::new(Object::Int(Int::new(1))),
            Rc::new(Object::Array(Array::new(vec![
                Rc::new(Object::Str(Str::new(Rc::new("x".to_string())))),
                Rc::new(Object::Null(Null::new())),
            ]))),
            Rc::new(Object::Float(Float::new(0.25f64.to_bits()))),
        ]))
        .to_string(&m),
        "[1, [x, null], 0.25]"
    );
    assert_eq!(
        Object::ReturnValue(ReturnValue::new(Rc::new(Object::Int(Int::new(1))))).to_string(&m),
        "return"
    );
    assert_eq!(
        Object::Function(Function::new(
            Rc::new(vec![]),
            Rc::new(BlockExpressionNode::new(vec![])),
            Environment::new(None)
        ))
        .to_string(&m),
        "function"
    );
    assert_eq!(
        Object::BuiltinFunction(BuiltinFunction::new(Rc::new(vec![]), BuiltinKind::Len)).to_string(&m),
        "built-in function"
    );
}

#[test]
fn integers_are_shown_as_the_machine_shows_them() {
    let m = Machine::new();
    for i in [0, 1, -1, 9, 10, 11, 99, 100, -100, 12345678901234, i64::MIN, i64::MAX, i64::MIN + 1] {
        assert_eq!(Object::Int(Int::new(i)).to_string(&m), i.to_string());
    }
}
