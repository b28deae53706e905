use crate::ast::{names_view, IdentifierNode};
use crate::environment::{Environment, EnvironmentView};
use crate::evaluator::EvalResult;
use crate::host::{Comparison, Host};
use crate::object::{
    lemma_value_view, outcome_matches, values_view, Array, Bool, BuiltinFunction, BuiltinKind,
    Float, Indexable, Int, Null, Object, Outcome, Str, ValueView,
};
use crate::text::{rc_clone, str_equals, string_from_chars};
use crate::token::Token;
use std::rc::Rc;
use vstd::prelude::*;
use vstd::string::StringExecFns;

verus! {

/// The built-in functions, by their names.
pub open spec fn builtin_functions() -> Map<Seq<char>, ValueView> {
    Map::<Seq<char>, ValueView>::empty().insert(
        "print"@,
        ValueView::Builtin(seq!["o"@], BuiltinKind::Print),
    ).insert("eprint"@, ValueView::Builtin(seq!["o"@], BuiltinKind::Eprint)).insert(
        "exit"@,
        ValueView::Builtin(seq!["i"@], BuiltinKind::Exit),
    ).insert("len"@, ValueView::Builtin(seq!["l"@], BuiltinKind::Len)).insert(
        "append"@,
        ValueView::Builtin(seq!["l"@, "v"@], BuiltinKind::Append),
    ).insert("bool"@, ValueView::Builtin(seq!["v"@], BuiltinKind::Bool)).insert(
        "str"@,
        ValueView::Builtin(seq!["v"@], BuiltinKind::Str),
    ).insert("int"@, ValueView::Builtin(seq!["v"@], BuiltinKind::Int)).insert(
        "float"@,
        ValueView::Builtin(seq!["v"@], BuiltinKind::Float),
    )
}

/// The built-in identifiers: the nine functions and the number pi.
pub open spec fn builtin_table() -> Map<Seq<char>, ValueView> {
    builtin_functions().insert("pi"@, ValueView::Float)
}

/// The value of a built-in identifier, if `name` is one.
pub open spec fn builtin_value(name: Seq<char>) -> Option<ValueView> {
    if builtin_table().contains_key(name) {
        Some(builtin_table()[name])
    } else {
        None
    }
}

/// The result for arguments of a kind that a built-in function does not take.
pub open spec fn type_mismatch() -> Outcome {
    Outcome::Error("argument type mismatch"@)
}

/// What a built-in function gives in an environment that binds its
/// parameters. `print`, `eprint` and `exit` give null; what they do
/// besides is the host's matter.
pub open spec fn builtin_call_spec(kind: BuiltinKind, env: EnvironmentView) -> Outcome {
    match kind {
        BuiltinKind::Print => match env.lookup("o"@) {
            Some(_) => Outcome::Value(ValueView::Null),
            None => type_mismatch(),
        },
        BuiltinKind::Eprint => match env.lookup("o"@) {
            Some(_) => Outcome::Value(ValueView::Null),
            None => type_mismatch(),
        },
        BuiltinKind::Exit => match env.lookup("i"@) {
            Some(ValueView::Int(_)) => Outcome::Value(ValueView::Null),
            _ => type_mismatch(),
        },
        BuiltinKind::Len => match env.lookup("l"@) {
            Some(ValueView::Str(s)) => Outcome::Value(ValueView::Int(s.len() as i64)),
            Some(ValueView::Array(a)) => Outcome::Value(ValueView::Int(a.len() as i64)),
            _ => type_mismatch(),
        },
        BuiltinKind::Append => match (env.lookup("l"@), env.lookup("v"@)) {
            (Some(ValueView::Array(a)), Some(v)) => Outcome::Value(ValueView::Array(a.push(v))),
            _ => type_mismatch(),
        },
        BuiltinKind::Bool => match env.lookup("v"@) {
            Some(ValueView::Int(i)) => Outcome::Value(ValueView::Bool(i != 0)),
            Some(ValueView::Float) => Outcome::Floating,
            Some(ValueView::Str(s)) => Outcome::Value(ValueView::Bool(s.len() != 0)),
            Some(ValueView::Array(a)) => Outcome::Value(ValueView::Bool(a.len() != 0)),
            _ => type_mismatch(),
        },
        BuiltinKind::Str => match env.lookup("v"@) {
            Some(ValueView::Char(c)) => Outcome::Value(ValueView::Str(seq![c])),
            _ => type_mismatch(),
        },
        BuiltinKind::Int => match env.lookup("v"@) {
            Some(ValueView::Float) => Outcome::Floating,
            _ => type_mismatch(),
        },
        BuiltinKind::Float => match env.lookup("v"@) {
            Some(ValueView::Int(_)) => Outcome::Value(ValueView::Float),
            _ => type_mismatch(),
        },
    }
}

/// The binary representation of the 64-bit float nearest to pi.
pub const PI_BITS: u64 = 0x400921FB54442D18;

fn null_value() -> (r: EvalResult)
    ensures
        r matches Ok(v) && v@ == ValueView::Null,
{
    Ok(Rc::new(Object::Null(Null::new())))
}

fn mismatch() -> (r: EvalResult)
    ensures
        r matches Err(e) && e@ == "argument type mismatch"@,
{
    Err(String::from_str("argument type mismatch"))
}

fn length_value(n: usize) -> (r: EvalResult)
    ensures
        r matches Ok(v) && v@ == ValueView::Int(n as i64),
{
    Ok(Rc::new(Object::Int(Int::new(#[verifier::truncate] (n as i64)))))
}

fn truth_value(b: bool) -> (r: EvalResult)
    ensures
        r matches Ok(v) && v@ == ValueView::Bool(b),
{
    Ok(Rc::new(Object::Bool(Bool::new(b))))
}

impl BuiltinFunction {
    /// Runs the function in an environment that binds its parameters.
    pub fn call<H: Host>(&self, env: &Environment, host: &mut H) -> (r: EvalResult)
        ensures
            self@ matches ValueView::Builtin(_, kind) && outcome_matches(
                r,
                builtin_call_spec(kind, env@),
            ),
            self@ matches ValueView::Builtin(_, kind) && (builtin_call_spec(kind, env@) is Floating
                ==> match r {
                Ok(v) => (kind == BuiltinKind::Bool && v@ is Bool) || (kind == BuiltinKind::Int
                    && v@ is Int),
                Err(_) => false,
            }),
    {
        match self.kind {
            BuiltinKind::Print => match env.get("o") {
                Some(o) => {
                    let text = o.to_string(&*host);
                    host.print(text.as_str());
                    null_value()
                },
                None => mismatch(),
            },
            BuiltinKind::Eprint => match env.get("o") {
                Some(o) => {
                    let text = o.to_string(&*host);
                    host.eprint(text.as_str());
                    null_value()
                },
                None => mismatch(),
            },
            BuiltinKind::Exit => match env.get("i") {
                Some(i) => {
                    proof {
                        lemma_value_view(&**i);
                    }
                    match &**i {
                        Object::Int(i) => {
                            host.exit(i.value());
                            null_value()
                        },
                        _ => mismatch(),
                    }
                },
                None => mismatch(),
            },
            BuiltinKind::Len => match env.get("l") {
                Some(l) => {
                    proof {
                        lemma_value_view(&**l);
                    }
                    match &**l {
                        Object::Str(s) => length_value(s.len()),
                        Object::Array(s) => length_value(s.len()),
                        _ => mismatch(),
                    }
                },
                None => mismatch(),
            },
            BuiltinKind::Append => match env.get("l") {
                Some(l) => {
                    proof {
                        lemma_value_view(&**l);
                    }
                    match &**l {
                        Object::Array(a) => match env.get("v") {
                            Some(v) => {
                                let mut elements: Vec<Rc<Object>> = Vec::new();
                                let mut i: usize = 0;
                                while i < a.elements.len()
                                    invariant
                                        i <= a.elements.len(),
                                        elements@.len() == i,
                                        forall|k: int|
                                            0 <= k < i ==> (#[trigger] elements@[k])@ == a@[k],
                                    decreases a.elements.len() - i,
                                {
                                    elements.push(rc_clone(&a.elements[i]));
                                    i = i + 1;
                                }
                                elements.push(rc_clone(v));
                                assert(values_view(elements@) =~= a@.push(v@));
                                let appended = Object::Array(Array::new(elements));
                                proof {
                                    lemma_value_view(&appended);
                                }
                                Ok(Rc::new(appended))
                            },
                            None => mismatch(),
                        },
                        _ => mismatch(),
                    }
                },
                None => mismatch(),
            },
            //cast functions
            BuiltinKind::Bool => match env.get("v") {
                Some(v) => {
                    proof {
                        lemma_value_view(&**v);
                    }
                    match &**v {
                        Object::Int(v) => truth_value(v.value() != 0),
                        Object::Float(v) => truth_value(
                            host.float_compare(
                                Comparison::NotEqual,
                                v.value(),
                                host.float_from_int(0),
                            ),
                        ),
                        Object::Str(v) => truth_value(v.len() != 0),
                        Object::Array(v) => truth_value(v.len() != 0),
                        _ => mismatch(),
                    }
                },
                None => mismatch(),
            },
            BuiltinKind::Str => match env.get("v") {
                Some(v) => {
                    proof {
                        lemma_value_view(&**v);
                    }
                    match &**v {
                        Object::Char(c) => {
                            let mut one: Vec<char> = Vec::new();
                            one.push(c.value());
                            Ok(Rc::new(Object::Str(Str::new(Rc::new(string_from_chars(&one))))))
                        },
                        _ => mismatch(),
                    }
                },
                None => mismatch(),
            },
            BuiltinKind::Int => match env.get("v") {
                Some(v) => {
                    proof {
                        lemma_value_view(&**v);
                    }
                    match &**v {
                        Object::Float(v) => Ok(
                            Rc::new(Object::Int(Int::new(host.float_to_int(v.value())))),
                        ),
                        _ => mismatch(),
                    }
                },
                None => mismatch(),
            },
            BuiltinKind::Float => match env.get("v") {
                Some(v) => {
                    proof {
                        lemma_value_view(&**v);
                    }
                    match &**v {
                        Object::Int(v) => Ok(
                            Rc::new(Object::Float(Float::new(host.float_from_int(v.value())))),
                        ),
                        _ => mismatch(),
                    }
                },
                None => mismatch(),
            },
        }
    }
}

/// The table of the built-in identifiers. It is filled once and never
/// changed.
pub struct Builtin {
    functions: Environment,
    pi: Rc<Object>,
}

impl View for Builtin {
    type V = Map<Seq<char>, ValueView>;

    /// The table, as a map from names to values.
    closed spec fn view(&self) -> Map<Seq<char>, ValueView> {
        self.functions@.scopes[0].insert("pi"@, self.pi@)
    }
}

impl Builtin {
    #[verifier::type_invariant]
    spec fn holds_the_table(self) -> bool {
        &&& self.functions@.scopes == seq![builtin_functions()]
        &&& self.pi.float_bits() == Some(PI_BITS)
    }

    /// The 64 bits of the float that the table holds under `pi`.
    pub closed spec fn pi_bits(&self) -> Option<u64> {
        self.pi.float_bits()
    }

    /// The table of the nine built-in functions and of `pi`, the float
    /// whose bits are `PI_BITS`.
    pub fn new() -> (builtin: Self)
        ensures
            builtin@ == builtin_table(),
            builtin.pi_bits() == Some(PI_BITS),
    {
        initialize_builtin()
    }

    /// The value of the built-in identifier `s`, if it is one. The float
    /// `pi` is the one whose bits are `PI_BITS`.
    pub fn lookup_builtin_identifier(&self, s: &str) -> (r: Option<Rc<Object>>)
        ensures
            match r {
                Some(v) => builtin_value(s@) == Some(v@),
                None => builtin_value(s@) is None,
            },
            s@ == "pi"@ ==> (r matches Some(v) && v.float_bits() == Some(PI_BITS)
                && v.float_bits() == self.pi_bits()),
    {
        proof {
            use_type_invariant(self);
            reveal_with_fuel(crate::environment::lookup_from, 2);
            lemma_value_view(&*self.pi);
        }
        if str_equals(s, "pi") {
            return Some(rc_clone(&self.pi));
        }
        match self.functions.get(s) {
            Some(v) => Some(rc_clone(v)),
            None => None,
        }
    }
}

impl Default for Builtin {
    fn default() -> (builtin: Self)
        ensures
            builtin@ == builtin_table(),
            builtin.pi_bits() == Some(PI_BITS),
    {
        Self::new()
    }
}

fn parameter(name: &str) -> (r: IdentifierNode)
    ensures
        r@ == name@,
{
    IdentifierNode::new(Token::Ident(String::from_str(name)))
}

fn function(kind: BuiltinKind, first: &str, second: Option<&str>) -> (r: Rc<Object>)
    ensures
        r@ == ValueView::Builtin(
            match second {
                None => seq![first@],
                Some(s) => seq![first@, s@],
            },
            kind,
        ),
{
    let mut parameters: Vec<IdentifierNode> = Vec::new();
    parameters.push(parameter(first));
    match second {
        None => {
            assert(names_view(parameters@) =~= seq![first@]);
        },
        Some(s) => {
            parameters.push(parameter(s));
            assert(names_view(parameters@) =~= seq![first@, s@]);
        },
    }
    Rc::new(Object::BuiltinFunction(BuiltinFunction::new(Rc::new(parameters), kind)))
}

//Never embed this function in `Builtin::new()`; it'll increase the indent level by one to decrease readability.
fn initialize_builtin() -> (builtin: Builtin)
    ensures
        builtin@ == builtin_table(),
        builtin.pi_bits() == Some(PI_BITS),
{
    let mut table = Environment::new(None);

    table.set(String::from_str("print"), function(BuiltinKind::Print, "o", None));
    table.set(String::from_str("eprint"), function(BuiltinKind::Eprint, "o", None));
    table.set(String::from_str("exit"), function(BuiltinKind::Exit, "i", None));
    table.set(String::from_str("len"), function(BuiltinKind::Len, "l", None));
    table.set(String::from_str("append"), function(BuiltinKind::Append, "l", Some("v")));
    table.set(String::from_str("bool"), function(BuiltinKind::Bool, "v", None));
    table.set(String::from_str("str"), function(BuiltinKind::Str, "v", None));
    table.set(String::from_str("int"), function(BuiltinKind::Int, "v", None));
    table.set(String::from_str("float"), function(BuiltinKind::Float, "v", None));
    let pi = Rc::new(Object::Float(Float::new(PI_BITS)));

    assert(table@.scopes =~= seq![builtin_functions()]);
    Builtin { functions: table, pi }
}

} // verus!
