use crate::ast::{names_view, BlockExpressionNode, IdentifierNode, StatementView};
use crate::environment::{environment_view, Environment, EnvironmentView};
use crate::host::Host;
use crate::text::{
    decimal_text, int_to_string, join_texts, join_with, string_from_chars, strings_view,
};
use std::rc::Rc;
use vstd::prelude::*;
use vstd::string::{StrSliceExecFns, StringExecFns};

verus! {

/// The built-in functions.
#[derive(Debug, Clone, Copy, PartialEq, Eq, Structural)]
pub enum BuiltinKind {
    Print,
    Eprint,
    Exit,
    Len,
    Append,
    Bool,
    Str,
    Int,
    Float,
}

/// The mathematical model of a value. A float is modelled without its
/// number: which float a value holds is the host's matter.
pub ghost enum ValueView {
    Null,
    Int(i64),
    Float,
    Bool(bool),
    Char(char),
    Str(Seq<char>),
    Array(Seq<ValueView>),
    /// The marker of a pending `return`, with the value to return.
    Return(Box<ValueView>),
    /// A closure: the parameters' names, the statements of the body, and
    /// the environment in which the function literal was evaluated.
    Function(Seq<Seq<char>>, Seq<StatementView>, EnvironmentView),
    Builtin(Seq<Seq<char>>, BuiltinKind),
}

/// A value of any kind.
pub enum Object {
    Null(Null),
    Int(Int),
    Float(Float),
    Bool(Bool),
    Char(Char),
    Str(Str),
    Array(Array),
    ReturnValue(ReturnValue),
    Function(Function),
    BuiltinFunction(BuiltinFunction),
}

pub struct Null {}

pub struct Int {
    pub(crate) value: i64,
}

/// A float, held as the 64 bits of its binary representation.
pub struct Float {
    pub(crate) bits: u64,
}

pub struct Bool {
    pub(crate) value: bool,
}

pub struct Char {
    pub(crate) value: char,
}

/// A string. Its length in characters is kept beside it.
pub struct Str {
    value: Rc<String>,
    length: usize,
}

pub struct Array {
    pub(crate) elements: Vec<Rc<Object>>,
}

pub struct ReturnValue {
    pub(crate) value: Rc<Object>,
}

pub struct Function {
    pub(crate) parameters: Rc<Vec<IdentifierNode>>,
    pub(crate) body: Rc<BlockExpressionNode>,
    pub(crate) env: Environment,
}

pub struct BuiltinFunction {
    pub(crate) parameters: Rc<Vec<IdentifierNode>>,
    pub(crate) kind: BuiltinKind,
}

/// The model of a value.
pub open(crate) spec fn value_view(v: Object) -> ValueView
    decreases v, 0nat,
{
    match v {
        Object::Null(_) => ValueView::Null,
        Object::Int(i) => ValueView::Int(i.value),
        Object::Float(_) => ValueView::Float,
        Object::Bool(b) => ValueView::Bool(b.value),
        Object::Char(c) => ValueView::Char(c.value),
        Object::Str(s) => ValueView::Str(s@),
        Object::Array(a) => ValueView::Array(
            Seq::new(
                a.elements@.len(),
                |i: int|
                    if 0 <= i < a.elements@.len() {
                        value_view(*a.elements@[i])
                    } else {
                        arbitrary()
                    },
            ),
        ),
        Object::ReturnValue(r) => ValueView::Return(Box::new(value_view(*r.value))),
        Object::Function(f) => ValueView::Function(
            names_view(f.parameters@),
            f.body@,
            environment_view(f.env),
        ),
        Object::BuiltinFunction(b) => ValueView::Builtin(names_view(b.parameters@), b.kind),
    }
}

impl View for Object {
    type V = ValueView;

    open(crate) spec fn view(&self) -> ValueView {
        value_view(*self)
    }
}

impl Object {
    /// The 64 bits of a float; nothing for another value.
    pub open(crate) spec fn float_bits(&self) -> Option<u64> {
        match self {
            Object::Float(f) => Some(f.bits),
            _ => None,
        }
    }
}

/// The models of a list of values.
pub open(crate) spec fn values_view(values: Seq<Rc<Object>>) -> Seq<ValueView> {
    Seq::new(values.len(), |i: int| values[i]@)
}

impl View for Str {
    type V = Seq<char>;

    closed spec fn view(&self) -> Seq<char> {
        self.value@
    }
}

impl Str {
    #[verifier::type_invariant]
    spec fn length_is_kept(self) -> bool {
        self.length == self.value@.len()
    }

    pub fn new(value: Rc<String>) -> (s: Self)
        ensures
            s@ == value@,
    {
        let length = value.as_str().unicode_len();
        Self { value, length }
    }

    pub fn value(&self) -> (r: &str)
        ensures
            r@ == self@,
    {
        self.value.as_str()
    }

}

/// What can be indexed: strings and arrays.
#[allow(clippy::len_without_is_empty)]
pub trait Indexable {
    /// The number of items: the characters of a string, the elements of an
    /// array.
    spec fn length(&self) -> nat;

    fn len(&self) -> (n: usize)
        ensures
            n == self.length(),
    ;
}

impl Indexable for Str {
    open spec fn length(&self) -> nat {
        self@.len()
    }

    fn len(&self) -> (n: usize) {
        proof {
            use_type_invariant(self);
        }
        self.length
    }
}

/// What a value's model says in terms of the models of its parts.
pub(crate) proof fn lemma_value_view(v: &Object)
    ensures
        match *v {
            Object::Null(_) => v@ == ValueView::Null,
            Object::Int(i) => v@ == ValueView::Int(i@),
            Object::Float(_) => v@ == ValueView::Float,
            Object::Bool(b) => v@ == ValueView::Bool(b@),
            Object::Char(c) => v@ == ValueView::Char(c@),
            Object::Str(s) => v@ == ValueView::Str(s@),
            Object::Array(a) => v@ == ValueView::Array(a@) && a@ == values_view(a.elements@),
            Object::ReturnValue(r) => v@ == ValueView::Return(Box::new(r@)) && r@ == r.value@,
            Object::Function(f) => v@ == f@ && v@ == ValueView::Function(
                names_view(f.parameters@),
                f.body@,
                f.env@,
            ),
            Object::BuiltinFunction(b) => v@ == b@ && v@ == ValueView::Builtin(
                names_view(b.parameters@),
                b.kind,
            ),
        },
{
    match *v {
        Object::Array(a) => {
            assert(v@->Array_0 =~= values_view(a.elements@));
        },
        _ => {},
    }
}

impl Null {
    #[allow(clippy::new_without_default)]
    pub fn new() -> Self {
        Self {  }
    }
}

impl View for Int {
    type V = i64;

    open(crate) spec fn view(&self) -> i64 {
        self.value
    }
}

impl Int {
    pub fn new(value: i64) -> (r: Self)
        ensures
            r@ == value,
    {
        Self { value }
    }

    pub fn value(&self) -> (r: i64)
        ensures
            r == self@,
    {
        self.value
    }
}

impl View for Float {
    type V = u64;

    /// The 64 bits of the float.
    open(crate) spec fn view(&self) -> u64 {
        self.bits
    }
}

impl Float {
    /// The float with the given binary representation.
    pub fn new(bits: u64) -> (r: Self)
        ensures
            r@ == bits,
    {
        Self { bits }
    }

    /// The binary representation of the float.
    pub fn value(&self) -> (r: u64)
        ensures
            r == self@,
    {
        self.bits
    }
}

impl View for Bool {
    type V = bool;

    open(crate) spec fn view(&self) -> bool {
        self.value
    }
}

impl Bool {
    pub fn new(value: bool) -> (r: Self)
        ensures
            r@ == value,
    {
        Self { value }
    }

    pub fn value(&self) -> (r: bool)
        ensures
            r == self@,
    {
        self.value
    }
}

impl View for Char {
    type V = char;

    open(crate) spec fn view(&self) -> char {
        self.value
    }
}

impl Char {
    pub fn new(value: char) -> (r: Self)
        ensures
            r@ == value,
    {
        Self { value }
    }

    pub fn value(&self) -> (r: char)
        ensures
            r == self@,
    {
        self.value
    }
}

impl View for Array {
    type V = Seq<ValueView>;

    open(crate) spec fn view(&self) -> Seq<ValueView> {
        values_view(self.elements@)
    }
}

impl Array {
    pub fn new(elements: Vec<Rc<Object>>) -> (r: Self)
        ensures
            r@ == values_view(elements@),
    {
        Self { elements }
    }

    pub fn elements(&self) -> (r: &Vec<Rc<Object>>)
        ensures
            values_view(r@) == self@,
    {
        &self.elements
    }

}

impl Indexable for Array {
    open spec fn length(&self) -> nat {
        self@.len()
    }

    fn len(&self) -> (n: usize) {
        self.elements.len()
    }
}

impl View for ReturnValue {
    type V = ValueView;

    /// The model of the value to return.
    open(crate) spec fn view(&self) -> ValueView {
        self.value@
    }
}

impl ReturnValue {
    pub fn new(value: Rc<Object>) -> (r: Self)
        ensures
            r@ == value@,
    {
        Self { value }
    }

    pub fn value(&self) -> (r: &Rc<Object>)
        ensures
            r@ == self@,
    {
        &self.value
    }
}

impl View for Function {
    type V = ValueView;

    open(crate) spec fn view(&self) -> ValueView {
        ValueView::Function(names_view(self.parameters@), self.body@, self.env@)
    }
}

impl Function {
    pub fn new(
        parameters: Rc<Vec<IdentifierNode>>,
        body: Rc<BlockExpressionNode>,
        env: Environment,
    ) -> (r: Self)
        ensures
            r@ == ValueView::Function(names_view(parameters@), body@, env@),
    {
        Self { parameters, body, env }
    }

    pub fn body(&self) -> (r: &BlockExpressionNode)
        ensures
            self@ matches ValueView::Function(_, body, _) && r@ == body,
    {
        &*self.body
    }

    pub fn env(&self) -> (r: &Environment)
        ensures
            self@ matches ValueView::Function(_, _, env) && r@ == env,
    {
        &self.env
    }

}

/// The parameters of a function, closure or built-in.
pub open spec fn parameters_of(f: ValueView) -> Seq<Seq<char>> {
    match f {
        ValueView::Function(parameters, _, _) => parameters,
        ValueView::Builtin(parameters, _) => parameters,
        _ => Seq::empty(),
    }
}

/// What can be called: closures and built-in functions.
pub trait FunctionBase {
    /// The names of the parameters.
    spec fn parameter_names(&self) -> Seq<Seq<char>>;

    fn num_parameter(&self) -> (n: usize)
        ensures
            n == self.parameter_names().len(),
    ;

    fn parameters(&self) -> (r: &Vec<IdentifierNode>)
        ensures
            names_view(r@) == self.parameter_names(),
    ;
}

impl FunctionBase for Function {
    open spec fn parameter_names(&self) -> Seq<Seq<char>> {
        parameters_of(self@)
    }

    fn num_parameter(&self) -> (n: usize) {
        self.parameters.len()
    }

    fn parameters(&self) -> (r: &Vec<IdentifierNode>) {
        &*self.parameters
    }
}

impl View for BuiltinFunction {
    type V = ValueView;

    open(crate) spec fn view(&self) -> ValueView {
        ValueView::Builtin(names_view(self.parameters@), self.kind)
    }
}

impl BuiltinFunction {
    /// The built-in function `kind`, which reads its arguments under the
    /// names `parameters`.
    pub fn new(parameters: Rc<Vec<IdentifierNode>>, kind: BuiltinKind) -> (r: Self)
        ensures
            r@ == ValueView::Builtin(names_view(parameters@), kind),
    {
        Self { parameters, kind }
    }

    pub fn kind(&self) -> (k: BuiltinKind)
        ensures
            self@ matches ValueView::Builtin(_, kind) && k == kind,
    {
        self.kind
    }

}

impl FunctionBase for BuiltinFunction {
    open spec fn parameter_names(&self) -> Seq<Seq<char>> {
        parameters_of(self@)
    }

    fn num_parameter(&self) -> (n: usize) {
        self.parameters.len()
    }

    fn parameters(&self) -> (r: &Vec<IdentifierNode>) {
        &*self.parameters
    }
}

/// The texts that show the values of a list, where each of them has one.
pub open spec fn display_texts(values: Seq<ValueView>) -> Seq<Seq<char>>
    decreases values, 0nat,
{
    Seq::new(
        values.len(),
        |i: int|
            if 0 <= i < values.len() {
                match display_text(values[i]) {
                    Some(t) => t,
                    None => Seq::empty(),
                }
            } else {
                Seq::empty()
            },
    )
}

/// Whether a value holds a float, itself or in an array.
pub open spec fn holds_float(v: ValueView) -> bool
    decreases v,
{
    match v {
        ValueView::Float => true,
        ValueView::Array(elements) => exists|i: int|
            0 <= i < elements.len() && holds_float(#[trigger] elements[i]),
        _ => false,
    }
}

/// The text that shows a value. A value that holds a float has none here:
/// how a float is shown is the host's matter.
pub open spec fn display_text(v: ValueView) -> Option<Seq<char>>
    decreases v, 1nat,
{
    if holds_float(v) {
        None
    } else {
        Some(
            match v {
                ValueView::Null => "null"@,
                ValueView::Int(i) => decimal_text(i as int),
                ValueView::Float => Seq::empty(),
                ValueView::Bool(b) => if b {
                    "true"@
                } else {
                    "false"@
                },
                ValueView::Char(c) => seq![c],
                ValueView::Str(s) => s,
                ValueView::Array(elements) => "["@ + join_texts(display_texts(elements), ", "@)
                    + "]"@,
                ValueView::Return(_) => "return"@,
                ValueView::Function(_, _, _) => "function"@,
                ValueView::Builtin(_, _) => "built-in function"@,
            },
        )
    }
}

impl Object {
    /// The text that shows the value: what `print` writes and what the
    /// prompt answers. Floats are shown by the host.
    pub fn to_string<H: Host>(&self, host: &H) -> (s: String)
        ensures
            display_text(self@) matches Some(t) ==> s@ == t,
        decreases self@,
    {
        proof {
            lemma_value_view(self);
        }
        match self {
            Object::Null(_) => String::from_str("null"),
            Object::Int(i) => int_to_string(i.value),
            Object::Float(f) => host.float_display(f.bits),
            Object::Bool(b) => if b.value {
                String::from_str("true")
            } else {
                String::from_str("false")
            },
            Object::Char(c) => {
                let mut one: Vec<char> = Vec::new();
                one.push(c.value);
                string_from_chars(&one)
            },
            Object::Str(s) => String::from_str(s.value()),
            Object::Array(a) => {
                let mut parts: Vec<String> = Vec::new();
                let mut i: usize = 0;
                while i < a.elements.len()
                    invariant
                        i <= a.elements.len(),
                        parts@.len() == i,
                        self@ == ValueView::Array(a@),
                        a@ == values_view(a.elements@),
                        forall|k: int|
                            0 <= k < i ==> (display_text(#[trigger] a@[k]) matches Some(t)
                                ==> parts@[k]@ == t),
                    decreases a.elements.len() - i,
                {
                    assert(a.elements@[i as int]@ == self@->Array_0[i as int]);
                    let part = a.elements[i].to_string(host);
                    parts.push(part);
                    i = i + 1;
                }
                let inner = join_with(&parts, ", ");
                let mut s = String::from_str("[");
                s.append(inner.as_str());
                s.append("]");
                proof {
                    if display_text(self@) is Some {
                        assert(strings_view(parts@) =~= display_texts(a@));
                    }
                }
                s
            },
            Object::ReturnValue(_) => String::from_str("return"),
            Object::Function(_) => String::from_str("function"),
            Object::BuiltinFunction(_) => String::from_str("built-in function"),
        }
    }
}

/// What evaluating something comes to, as far as the model says: a value, an
/// error message, or `Floating` where the arithmetic of floats decides
/// between values or between a value and an error. On `Floating` the model
/// says nothing more.
pub ghost enum Outcome {
    Value(ValueView),
    Error(Seq<char>),
    Floating,
}

/// Whether a result is the one that the model gives.
pub open spec fn outcome_matches(r: Result<Rc<Object>, String>, expected: Outcome) -> bool {
    match expected {
        Outcome::Value(v) => r matches Ok(x) && x@ == v,
        Outcome::Error(m) => r matches Err(e) && e@ == m,
        Outcome::Floating => true,
    }
}

} // verus!
