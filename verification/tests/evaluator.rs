use monkey_lang::ast::{ExpressionNode, Node, StatementNode};
use monkey_lang::environment::Environment;
use monkey_lang::evaluator::{EvalResult, Evaluator};
use monkey_lang::host::{Arithmetic, Comparison, Host};
use monkey_lang::lexer::Lexer;
use monkey_lang::object::{FunctionBase, Object};
use monkey_lang::parser::Parser;
use monkey_lang::token::Token;
use std::rc::Rc;

// A host that keeps what is printed and computes floats as the machine does.
struct Machine {
    out: Vec<String>,
    err: Vec<String>,
    exit: Vec<i64>,
}

impl Machine {
    fn new() -> Self {
        Machine { out: vec![], err: vec![], exit: vec![] }
    }
}

impl Host for Machine {
    fn print(&mut self, text: &str) {
        self.out.push(text.to_string());
    }

    fn eprint(&mut self, text: &str) {
        self.err.push(text.to_string());
    }

    fn exit(&mut self, code: i64) {
        self.exit.push(code);
    }

    fn float_parse(&self, literal: &str) -> u64 {
        literal.parse::<f64>().unwrap().to_bits()
    }

    fn float_display(&self, bits: u64) -> String {
        format!("{}", f64::from_bits(bits))
    }

    fn float_negate(&self, bits: u64) -> u64 {
        (-f64::from_bits(bits)).to_bits()
    }

    fn float_arithmetic(&self, operation: Arithmetic, left: u64, right: u64) -> u64 {
        let (l, r) = (f64::from_bits(left), f64::from_bits(right));
        match operation {
            Arithmetic::Add => l + r,
            Arithmetic::Subtract => l - r,
            Arithmetic::Multiply => l * r,
            Arithmetic::Divide => l / r,
            Arithmetic::Remainder => l % r,
            Arithmetic::Power => l.powf(r),
        }
        .to_bits()
    }

    fn float_compare(&self, comparison: Comparison, left: u64, right: u64) -> bool {
        let (l, r) = (f64::from_bits(left), f64::from_bits(right));
        match comparison {
            Comparison::Equal => l == r,
            Comparison::NotEqual => l != r,
            Comparison::Less => l < r,
            Comparison::Greater => l > r,
            Comparison::LessOrEqual => l <= r,
            Comparison::GreaterOrEqual => l >= r,
        }
    }

    fn float_to_int(&self, bits: u64) -> i64 {
        f64::from_bits(bits) as i64
    }

    fn float_from_int(&self, value: i64) -> u64 {
        (value as f64).to_bits()
    }
}

fn __eval(s: &str) -> EvalResult {
    let mut lexer = Lexer::new(s);
    let mut v = Vec::new();
    loop {
        let token = lexer.get_next_token().unwrap();
        if token == Token::Eof {
            break;
        }
        v.push(token);
    }
    v.push(Token::Eof);
    let root = Parser::new(v).parse();
    assert!(root.is_ok());
    let mut env = Environment::new(None);
    let evaluator = Evaluator::new();
    evaluator.eval(&Node::Root(root.unwrap()), &mut env, &mut Machine::new())
}

fn read_and_eval(s: &str) -> Rc<Object> {
    let r = __eval(s);
    match r {
        Ok(a) => a,
        Err(ref b) => {
            assert!(r.is_ok(), "{}", b);
            unreachable!();
        }
    }
}

fn assert_error(s: &str, error_message: &str) {
    let r = __eval(s);
    if let Ok(ref e) = r {
        println!("{}", e.to_string(&Machine::new()));
        assert!(r.is_err());
    }
    if let Err(e) = r {
        println!("{}", e);
        assert!(e.contains(error_message));
    }
}

fn assert_integer(s: &str, v: i64) {
    let o = read_and_eval(s);
    match &*o {
        Object::Int(o) => assert_eq!(v, o.value()),
        _ => panic!("not an integer"),
    }
}

fn assert_float(s: &str, v: f64) {
    let o = read_and_eval(s);
    match &*o {
        Object::Float(o) => assert!((v - f64::from_bits(o.value())).abs() < 1e-6),
        _ => panic!("not a float"),
    }
}

fn assert_boolean(s: &str, v: bool) {
    let o = read_and_eval(s);
    match &*o {
        Object::Bool(o) => assert_eq!(v, o.value()),
        _ => panic!("not a boolean"),
    }
}

fn assert_character(s: &str, v: char) {
    let o = read_and_eval(s);
    match &*o {
        Object::Char(o) => assert_eq!(v, o.value()),
        _ => panic!("not a character"),
    }
}

fn assert_string(s: &str, v: &str) {
    let o = read_and_eval(s);
    match &*o {
        Object::Str(o) => assert_eq!(v, o.value()),
        _ => panic!("not a string"),
    }
}

fn assert_array(s: &str, v: &Vec<i64>) {
    let o = read_and_eval(s);
    let o = match &*o {
        Object::Array(o) => o,
        _ => panic!("not an array"),
    };
    assert_eq!(v.len(), o.elements().len());
    for i in 0..v.len() {
        match &*o.elements()[i] {
            Object::Int(e) => assert_eq!(e.value(), v[i]),
            _ => panic!("not an integer"),
        }
    }
}

fn assert_null(s: &str) {
    let o = read_and_eval(s);
    assert!(matches!(&*o, Object::Null(_)));
}

#[test]
fn test01() {
    assert_integer(r#" 5 "#, 5);
    assert_boolean(r#" true "#, true);
    assert_boolean(r#" false "#, false);

    assert_boolean(r#" !true "#, false);
    assert_boolean(r#" !false "#, true);
    assert_boolean(r#" !!true "#, true);
    assert_boolean(r#" !!false "#, false);
    assert_error(r#" !0 "#, "operand of unary `!` is not a boolean");
    assert_error(r#" !!0 "#, "operand of unary `!` is not a boolean");
    assert_error(r#" !1 "#, "operand of unary `!` is not a boolean");
    assert_error(r#" !!1 "#, "operand of unary `!` is not a boolean");
    assert_error(r#" !0.0 "#, "operand of unary `!` is not a boolean");
    assert_error(r#" !3.14 "#, "operand of unary `!` is not a boolean");
    assert_error(r#" !"" "#, "operand of unary `!` is not a boolean");
    assert_error(r#" !"あ" "#, "operand of unary `!` is not a boolean");
    assert_error(r#" ![] "#, "operand of unary `!` is not a boolean");
    assert_error(r#" ![1, 2] "#, "operand of unary `!` is not a boolean");

    assert_integer(r#" -5 "#, -5);
    assert_integer(r#" --5 "#, 5);
    assert_float(r#" -3.14 "#, -3.14);

    assert_integer(r#" 2 + 3 "#, 5);
    assert_integer(r#" 2 - 3 "#, -1);
    assert_integer(r#" 2 * 3 "#, 6);
    assert_integer(r#" 2 / 3 "#, 0);
    assert_integer(r#" 4 / 3 "#, 1);
    assert_integer(r#" 2 + 3 * 4"#, 14);
    assert_integer(r#" (2 + 3) * 4"#, 20);
    assert_float(r#" 3.14 + 1.0 "#, 4.14);
    assert_float(r#" 3.14 - 1.0 "#, 2.14);
    assert_float(r#" 3.14 * 2.0 "#, 6.28);
    assert_float(r#" 3.14 / 2.0 "#, 1.57);
    assert_string(r#" "hello" + "world" "#, "helloworld");
    assert_array(r#" [1, 2] + [] "#, &vec![1, 2]);
    assert_array(r#" [1, 2] + [3] "#, &vec![1, 2, 3]);

    assert_boolean(r#" true == false "#, false);
    assert_boolean(r#" true == true "#, true);
    assert_boolean(r#" true != false "#, true);
    assert_boolean(r#" false != false "#, false);
    assert_boolean(r#" 1 == 0 "#, false);
    assert_boolean(r#" 1 == 1 "#, true);
    assert_boolean(r#" 1 != 0 "#, true);
    assert_boolean(r#" 0 != 0 "#, false);
    assert_boolean(r#" 0 != 0 "#, false);
    assert_boolean(r#" 1 > 0 "#, true);
    assert_boolean(r#" 0 > 0 "#, false);
    assert_boolean(r#" -1 > 0 "#, false);
    assert_boolean(r#" 1 < 0 "#, false);
    assert_boolean(r#" 0 < 0 "#, false);
    assert_boolean(r#" -1 < 0 "#, true);
    assert_boolean(r#" 3.14 == 3.14 "#, true);
    assert_boolean(r#" 3.14 == 3.15 "#, false);
    assert_boolean(r#" 3.14 != 3.14 "#, false);
    assert_boolean(r#" 3.14 != 3.15 "#, true);
    assert_boolean(r#" 'a' == 'a' "#, true);
    assert_boolean(r#" 'a' != 'a' "#, false);
    assert_boolean(r#" 'a' == 'b' "#, false);
    assert_boolean(r#" 'a' != 'b' "#, true);
    assert_boolean(r#" "hello" == "hello" "#, true);
    assert_boolean(r#" "hello" != "hello" "#, false);
    assert_boolean(r#" "hello" == "world" "#, false);
    assert_boolean(r#" "hello" != "world" "#, true);
    assert_boolean(r#" 3.2 < 3.1 "#, false);
    assert_boolean(r#" 3.2 < 3.2 "#, false);
    assert_boolean(r#" 3.2 < 3.3 "#, true);
    assert_boolean(r#" 3.1 > 3.2 "#, false);
    assert_boolean(r#" 3.2 > 3.2 "#, false);
    assert_boolean(r#" 3.3 > 3.2 "#, true);
    assert_boolean(r#" 'b' < 'a' "#, false);
    assert_boolean(r#" 'b' < 'b' "#, false);
    assert_boolean(r#" 'b' < 'c' "#, true);
    assert_boolean(r#" 'a' > 'b' "#, false);
    assert_boolean(r#" 'b' > 'b' "#, false);
    assert_boolean(r#" 'c' > 'b' "#, true);
    assert_boolean(r#" "xb" < "xa" "#, false);
    assert_boolean(r#" "xb" < "xb" "#, false);
    assert_boolean(r#" "xb" < "xc" "#, true);
    assert_boolean(r#" "xa" > "xb" "#, false);
    assert_boolean(r#" "xb" > "xb" "#, false);
    assert_boolean(r#" "xc" > "xb" "#, true);
    assert_boolean(r#" 3.2 <= 3.1 "#, false);
    assert_boolean(r#" 3.2 <= 3.2 "#, true);
    assert_boolean(r#" 3.2 <= 3.3 "#, true);
    assert_boolean(r#" 3.1 >= 3.2 "#, false);
    assert_boolean(r#" 3.2 >= 3.2 "#, true);
    assert_boolean(r#" 3.3 >= 3.2 "#, true);
    assert_boolean(r#" 'b' <= 'a' "#, false);
    assert_boolean(r#" 'b' <= 'b' "#, true);
    assert_boolean(r#" 'b' <= 'c' "#, true);
    assert_boolean(r#" 'a' >= 'b' "#, false);
    assert_boolean(r#" 'b' >= 'b' "#, true);
    assert_boolean(r#" 'c' >= 'b' "#, true);
    assert_boolean(r#" "xb" <= "xa" "#, false);
    assert_boolean(r#" "xb" <= "xb" "#, true);
    assert_boolean(r#" "xb" <= "xc" "#, true);
    assert_boolean(r#" "xa" >= "xb" "#, false);
    assert_boolean(r#" "xb" >= "xb" "#, true);
    assert_boolean(r#" "xc" >= "xb" "#, true);
}

#[test]
fn test02() {
    assert_integer(r#" 5 % 3 "#, 2);
    assert_float(r#" 5.0 % 3.0 "#, 2.0);
    assert_error(r#" 1 % 0 "#, "zero division");
    assert_error(r#" 1.0 % 0.0 "#, "zero division");

    assert_integer(r#" 2**3 "#, 8);
    assert_float(r#" 2.0**3.0 "#, 8.0);
    assert_error(r#" 2**-1 "#, "negative exponent");
    assert_float(r#" 2.0**-1.0 "#, 0.5);

    assert_boolean(r#" true || true "#, true);
    assert_boolean(r#" true || false "#, true);
    assert_boolean(r#" false || true "#, true);
    assert_boolean(r#" false || false "#, false);
    assert_error(r#" false || 0 "#, "not a boolean");

    assert_boolean(r#" true && true "#, true);
    assert_boolean(r#" true && false "#, false);
    assert_boolean(r#" false && true "#, false);
    assert_boolean(r#" false && false "#, false);
    assert_error(r#" false && 0 "#, "not a boolean");
}

#[test]
fn test03() {
    assert_integer(r#" if (true) { 10 } "#, 10);
    assert_null(r#" if (false) { 10 } "#);
    assert_boolean(r#" if (true) { false } "#, false);
    assert_integer(r#" if (false) { 10 } else { 20 }"#, 20);
    assert_error(r#" if (true) { let a = 3; } a"#, "not defined");
}

#[test]
fn test04() {
    assert_null(r#" return; 15"#);
    assert_integer(r#" return 10; 15"#, 10);
    assert_integer(r#" 5; return 2 * 5; 15"#, 10);
    assert_boolean(r#" return true; false"#, true);
    assert_integer(
        r#" if (10 > 1) {
                    if (10 > 1) {
                        return 10;
                    }
                    return 1;
                } "#,
        10,
    );
}

#[test]
fn test05() {
    assert_integer(r#" let a = 5; a; "#, 5);
    assert_integer(r#" let a = 5 * 5; a; "#, 25);
    assert_integer(r#" let a = 1; let b = a * 2; a + b "#, 3);
    assert_float(r#" let a = { let b = 3.14; b * 2.0 }; a "#, 6.28);
    assert_error(r#" let a = { let b = 3.14; b * 2.0 }; b "#, "not defined");
    assert_error(r#" let a = 1; b "#, "not defined");
    assert_error(r#" let a = 1; let a = 2; "#, "already");
    assert_integer(
        r#" {
                    let a = 1;
                    {
                        let a = 2;
                        a
                    }
                }
             "#,
        2,
    );
    assert_integer(
        r#" {
                    let a = 1;
                    {
                        let a = 2;
                        a
                    }
                    a
                }
             "#,
        1,
    );
}

#[test]
fn test06() {
    let s = r#"
            fn () { x + 2; }
        "#;
    let o = read_and_eval(s);

    let f = match &*o {
        Object::Function(f) => f,
        _ => panic!("not a function"),
    };

    assert_eq!(0, f.parameters().len());

    assert_eq!(1, f.body().statements().len());
    let s = match &f.body().statements()[0] {
        StatementNode::Expression(s) => s,
        _ => panic!("not an expression statement"),
    };

    let s = match s.expression() {
        ExpressionNode::Binary(s) => s,
        _ => panic!("not a binary expression"),
    };

    assert_eq!(s.operator(), &Token::Plus);

    let left = match s.left() {
        ExpressionNode::Identifier(n) => n,
        _ => panic!("not an identifier"),
    };
    assert_eq!(left.get_name(), "x");

    let right = match s.right() {
        ExpressionNode::IntegerLiteral(n) => n,
        _ => panic!("not an integer literal"),
    };
    assert_eq!(right.get_value(), 2);
}

#[test]
fn test07() {
    assert_integer(r#" let f = fn(x) { x; }; f(5) "#, 5);
    assert_integer(r#" let f = fn(x, y) { x + y }; f(1, 2) "#, 3);
    assert_integer(r#" fn() { return 3; }() "#, 3);
    assert_integer(r#" let a = 3; let f = fn() { a }; f() "#, 3);
    assert_integer(
        r#" let f = fn() { return 3; 4 }; let a = f(); f(); return 100; "#,
        100,
    );
    assert_integer(
        r#" let f = fn(x) { fn(y) { x + y } }; let g = f(1); g(2) "#,
        3,
    );
    assert_integer(
        r#"
                let f = fn(x) { fn(y) { fn(z) { x + y + z } } }; let g = f(1); let h = g(2); h(3)
            "#,
        6,
    );
    assert_integer(
        r#" let f = fn(g) { g(10) }; let g = fn(x) { x * 10 }; f(g) "#,
        100,
    );
    assert_integer(
        r#" let factorial = fn(x) { if (x == 0) { return 1; } return x * factorial(x - 1); }; factorial(4) "#,
        24,
    );
    assert_error(r#" let f = 3; f(3) "#, "not a function");
    assert_error(r#" g(3) "#, "not defined");
    assert_error(r#" let f = fn(x) { x; }; f(5, 10) "#, "number mismatch");
    assert_error(r#" 1(3) "#, "can be called");
}

#[test]
fn test08() {
    assert_float(r#" pi "#, 3.141592653589793);

    assert_integer(r#" len("hello") "#, 5);
    assert_integer(r#" len("あいう") "#, 3);
    assert_integer(r#" len([]) "#, 0);
    assert_integer(r#" len([1, 2,]) "#, 2);

    assert_array(r#" let a = [1, 2]; let b = append(a, 3); a "#, &vec![1, 2]);
    assert_array(
        r#" let a = [1, 2]; let b = append(a, 3); b "#,
        &vec![1, 2, 3],
    );

    assert_boolean(r#" bool("") "#, false);
    assert_boolean(r#" bool("hello") "#, true);
    assert_boolean(r#" bool(0) "#, false);
    assert_boolean(r#" bool(1) "#, true);
    assert_boolean(r#" bool(0.0) "#, false);
    assert_boolean(r#" bool(1.1) "#, true);
    assert_boolean(r#" bool([]) "#, false);
    assert_boolean(r#" bool([1, 2]) "#, true);

    assert_string(r#" str('あ') "#, "あ");

    assert_integer(r#" int(3.1) "#, 3);
    assert_integer(r#" int(3.8) "#, 3);
    assert_integer(r#" int(-3.1) "#, -3);
    assert_integer(r#" int(-3.8) "#, -3);

    assert_float(r#" float(3) "#, 3.0);
}

#[test]
fn test09() {
    assert_array(r#" [] "#, &vec![]);
    assert_array(r#" [1] "#, &vec![1]);
    assert_array(r#" [1, 2 * 3] "#, &vec![1, 6]);
    assert_character(r#"let a = ['a', 'b', 'c']; a[0]"#, 'a');
    assert_error(r#" b[0] "#, "not defined");
    assert_error(r#" let b = 3; b[0] "#, "not an array");
    assert_error(
        r#" 3.14[0] "#,
        "only identifier, array literal or string literal can be indexed",
    );
    assert_character(r#" ['a', 'b', 'c'][0] "#, 'a');
    assert_error(r#" [][3.14] "#, "non-integer");
    assert_error(r#" [][-1] "#, "negative");
    assert_error(r#" [0, 1][100] "#, "out of bounds");

    assert_character(r#" let a = "abc"; a[0] "#, 'a');
    assert_character(r#" "あいうえお"[1] "#, 'い');
}
