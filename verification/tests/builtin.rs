use monkey_lang::ast::Node;
use monkey_lang::builtin::{Builtin, PI_BITS};
use monkey_lang::environment::Environment;
use monkey_lang::evaluator::{EvalResult, Evaluator};
use monkey_lang::host::{Arithmetic, Comparison, Host};
use monkey_lang::lexer::get_tokens;
use monkey_lang::object::{BuiltinKind, FunctionBase, Int, Object};
use monkey_lang::parser::Parser;
use std::rc::Rc;

// A host that keeps what is printed and computes floats as the machine does.
struct Machine {
    out: Vec<String>,
    err: Vec<String>,
    exit: Vec<i64>,
}

impl Machine {
    fn new() -> Self {
        Machine { out: vec![], err: vec![], exit: vec![] }
    }
}

impl Host for Machine {
    fn print(&mut self, text: &str) {
        self.out.push(text.to_string());
    }

    fn eprint(&mut self, text: &str) {
        self.err.push(text.to_string());
    }

    fn exit(&mut self, code: i64) {
        self.exit.push(code);
    }

    fn float_parse(&self, literal: &str) -> u64 {
        literal.parse::<f64>().unwrap().to_bits()
    }

    fn float_display(&self, bits: u64) -> String {
        format!("{}", f64::from_bits(bits))
    }

    fn float_negate(&self, bits: u64) -> u64 {
        (-f64::from_bits(bits)).to_bits()
    }

    fn float_arithmetic(&self, operation: Arithmetic, left: u64, right: u64) -> u64 {
        let (l, r) = (f64::from_bits(left), f64::from_bits(right));
        match operation {
            Arithmetic::Add => l + r,
            Arithmetic::Subtract => l - r,
            Arithmetic::Multiply => l * r,
            Arithmetic::Divide => l / r,
            Arithmetic::Remainder => l % r,
            Arithmetic::Power => l.powf(r),
        }
        .to_bits()
    }

    fn float_compare(&self, comparison: Comparison, left: u64, right: u64) -> bool {
        let (l, r) = (f64::from_bits(left), f64::from_bits(right));
        match comparison {
            Comparison::Equal => l == r,
            Comparison::NotEqual => l != r,
            Comparison::Less => l < r,
            Comparison::Greater => l > r,
            Comparison::LessOrEqual => l <= r,
            Comparison::GreaterOrEqual => l >= r,
        }
    }

    fn float_to_int(&self, bits: u64) -> i64 {
        f64::from_bits(bits) as i64
    }

    fn float_from_int(&self, value: i64) -> u64 {
        (value as f64).to_bits()
    }
}

fn run_with(s: &str, env: &mut Environment, machine: &mut Machine) -> EvalResult {
    let tokens = get_tokens(s).unwrap();
    let root = Parser::new(tokens).parse().unwrap();
    Evaluator::new().eval(&Node::Root(root), env, machine)
}

fn run(s: &str) -> EvalResult {
    run_with(s, &mut Environment::new(None), &mut Machine::new())
}

fn shown(s: &str) -> String {
    match run(s) {
        Ok(o) => o.to_string(&Machine::new()),
        Err(e) => format!("error: {}", e),
    }
}

#[test]
fn the_table_holds_ten_names() {
    let builtin = Builtin::new();
    let functions = [
        ("print", BuiltinKind::Print, vec!["o"]),
        ("eprint", BuiltinKind::Eprint, vec!["o"]),
        ("exit", BuiltinKind::Exit, vec!["i"]),
        ("len", BuiltinKind::Len, vec!["l"]),
        ("append", BuiltinKind::Append, vec!["l", "v"]),
        ("bool", BuiltinKind::Bool, vec!["v"]),
        ("str", BuiltinKind::Str, vec!["v"]),
        ("int", BuiltinKind::Int, vec!["v"]),
        ("float", BuiltinKind::Float, vec!["v"]),
    ];
    for (name, kind, parameters) in functions {
        match &*builtin.lookup_builtin_identifier(name).unwrap() {
            Object::BuiltinFunction(f) => {
                assert_eq!(f.kind(), kind);
                assert_eq!(f.num_parameter(), parameters.len());
                let names: Vec<&str> = f.parameters().iter().map(|p| p.get_name()).collect();
                assert_eq!(names, parameters);
            }
            _ => panic!("not a built-in function"),
        }
    }
    match &*builtin.lookup_builtin_identifier("pi").unwrap() {
        Object::Float(f) => assert_eq!(f64::from_bits(f.value()), std::f64::consts::PI),
        _ => panic!("not a float"),
    }
    for name in ["", "Print", "pie", "length", "a", "println"] {
        assert!(builtin.lookup_builtin_identifier(name).is_none());
    }
    assert!(Builtin::default().lookup_builtin_identifier("len").is_some());
}

#[test]
fn pi_is_the_float_nearest_to_pi() {
    assert_eq!(PI_BITS, std::f64::consts::PI.to_bits());
    assert_eq!(shown("pi"), "3.141592653589793");
}

#[test]
fn print_hands_the_text_to_the_host() {
    let mut machine = Machine::new();
    let mut env = Environment::new(None);
    let r = run_with(
        r#" print(1); print("a b"); print('c'); print([1, "x", ['y', true]]); print(1.5); print(print); eprint(fn(){}); print(if (false) {1}); "#,
        &mut env,
        &mut machine,
    );
    assert!(matches!(&*r.unwrap(), Object::Null(_)));
    assert_eq!(
        machine.out,
        vec!["1", "a b", "c", "[1, x, [y, true]]", "1.5", "built-in function", "null"]
    );
    assert_eq!(machine.err, vec!["function"]);
}

#[test]
fn exit_hands_the_code_to_the_host() {
    let mut machine = Machine::new();
    let mut env = Environment::new(None);
    let r = run_with(" exit(3) ", &mut env, &mut machine);
    assert!(matches!(&*r.unwrap(), Object::Null(_)));
    assert_eq!(machine.exit, vec![3]);
    assert_eq!(shown(" exit(1.5) "), "error: argument type mismatch");
    assert_eq!(shown(r#" exit("0") "#), "error: argument type mismatch");
}

#[test]
fn len_counts_characters_and_elements() {
    assert_eq!(shown(r#" len("") "#), "0");
    assert_eq!(shown(r#" len("hello") "#), "5");
    assert_eq!(shown(r#" len("あいう") "#), "3");
    assert_eq!(shown(" len([]) "), "0");
    assert_eq!(shown(" len([1, [2, 3]]) "), "2");
    assert_eq!(shown(" len(1) "), "error: argument type mismatch");
    assert_eq!(shown(" len('a') "), "error: argument type mismatch");
    assert_eq!(shown(" len(len) "), "error: argument type mismatch");
}

#[test]
fn append_gives_a_new_array() {
    assert_eq!(shown(" append([], 1) "), "[1]");
    assert_eq!(shown(" append([1, 2], [3]) "), "[1, 2, [3]]");
    assert_eq!(shown(" let a = [1, 2]; let b = append(a, 3); [a, b] "), "[[1, 2], [1, 2, 3]]");
    assert_eq!(shown(r#" append("ab", 'c') "#), "error: argument type mismatch");
    assert_eq!(shown(" append(1, 2) "), "error: argument type mismatch");
}

#[test]
fn the_casts_take_what_they_can_convert() {
    assert_eq!(shown(" bool(0) "), "false");
    assert_eq!(shown(" bool(-1) "), "true");
    assert_eq!(shown(" bool(0.0) "), "false");
    assert_eq!(shown(" bool(0.1) "), "true");
    assert_eq!(shown(r#" bool("") "#), "false");
    assert_eq!(shown(r#" bool(" ") "#), "true");
    assert_eq!(shown(" bool([]) "), "false");
    assert_eq!(shown(" bool([[]]) "), "true");
    assert_eq!(shown(" bool(true) "), "error: argument type mismatch");
    assert_eq!(shown(" bool('a') "), "error: argument type mismatch");
    assert_eq!(shown(" str('あ') "), "あ");
    assert_eq!(shown(" len(str('あ')) "), "1");
    assert_eq!(shown(r#" str("a") "#), "error: argument type mismatch");
    assert_eq!(shown(" str(1) "), "error: argument type mismatch");
    assert_eq!(shown(" int(1.9) "), "1");
    assert_eq!(shown(" int(-1.9) "), "-1");
    assert_eq!(shown(" int(1) "), "error: argument type mismatch");
    assert_eq!(shown(r#" int("1") "#), "error: argument type mismatch");
    assert_eq!(shown(" float(3) "), "3");
    assert_eq!(shown(" float(3) + 0.5 "), "3.5");
    assert_eq!(shown(" float(3.0) "), "error: argument type mismatch");
}

#[test]
fn a_built_in_function_counts_its_arguments() {
    assert_eq!(shown(" len() "), "error: argument number mismatch");
    assert_eq!(shown(" len([], []) "), "error: argument number mismatch");
    assert_eq!(shown(" append([]) "), "error: argument number mismatch");
    assert_eq!(shown(" pi() "), "error: `pi` is not a function");
}

#[test]
fn a_built_in_function_reads_its_arguments_from_the_environment() {
    let builtin = Builtin::new();
    let len = builtin.lookup_builtin_identifier("len").unwrap();
    let f = match &*len {
        Object::BuiltinFunction(f) => f,
        _ => panic!("not a built-in function"),
    };
    let mut env = Environment::new(None);
    let mut machine = Machine::new();
    assert_eq!(f.call(&env, &mut machine).err(), Some("argument type mismatch".to_string()));
    env.set("l".to_string(), Rc::new(Object::Int(Int::new(1))));
    assert_eq!(f.call(&env, &mut machine).err(), Some("argument type mismatch".to_string()));
    let mut inner = Environment::new(Some(Rc::new(env)));
    inner.set(
        "l".to_string(),
        Evaluator::new()
            .eval(
                &Node::Root(Parser::new(get_tokens("[1, 2, 3]").unwrap()).parse().unwrap()),
                &mut Environment::new(None),
                &mut machine,
            )
            .unwrap(),
    );
    match &*f.call(&inner, &mut machine).unwrap() {
        Object::Int(i) => assert_eq!(i.value(), 3),
        _ => panic!("not an integer"),
    }
}
