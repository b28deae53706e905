use crate::evaluator::EvalResult;
use crate::host::{Arithmetic, Comparison, Host};
use crate::object::{
    lemma_value_view, outcome_matches, values_view, Array, Bool, Float, Int, Object, Outcome, Str,
    ValueView,
};
use crate::text::{rc_clone, str_equals, str_less, text_less, wrapping_pow, wrapping_power};
use std::rc::Rc;
use vstd::prelude::*;
use vstd::string::StringExecFns;

verus! {

/// `-` in front of a value: the negative of an integer, cut to 64 bits, or
/// of a float.
pub open spec fn unary_minus_spec(v: ValueView) -> Outcome {
    match v {
        ValueView::Int(i) => Outcome::Value(ValueView::Int(0i64.wrapping_sub(i))),
        ValueView::Float => Outcome::Value(ValueView::Float),
        _ => Outcome::Error("operand of unary `-` is not a number"@),
    }
}

/// `!` in front of a value: the opposite of a boolean.
pub open spec fn unary_invert_spec(v: ValueView) -> Outcome {
    match v {
        ValueView::Bool(b) => Outcome::Value(ValueView::Bool(!b)),
        _ => Outcome::Error("operand of unary `!` is not a boolean"@),
    }
}

/// The quotient of two integers, rounded towards zero and cut to 64 bits.
pub open spec fn wrapping_quotient(a: i64, b: i64) -> i64 {
    match a.checked_div(b) {
        Some(q) => q,
        None => i64::MIN,
    }
}

/// The remainder of two integers, with the sign of the first.
pub open spec fn wrapping_remainder(a: i64, b: i64) -> i64 {
    match a.checked_rem(b) {
        Some(r) => r,
        None => 0,
    }
}

/// What an arithmetic operator gives for two integers. Sums, differences,
/// products and powers are cut to 64 bits; the exponent of a power is cut
/// to 32 bits.
pub open spec fn integer_arithmetic(operation: Arithmetic, a: i64, b: i64) -> Outcome {
    match operation {
        Arithmetic::Add => Outcome::Value(ValueView::Int(a.wrapping_add(b))),
        Arithmetic::Subtract => Outcome::Value(ValueView::Int(a.wrapping_sub(b))),
        Arithmetic::Multiply => Outcome::Value(ValueView::Int(a.wrapping_mul(b))),
        Arithmetic::Divide => if b == 0 {
            Outcome::Error("zero division"@)
        } else {
            Outcome::Value(ValueView::Int(wrapping_quotient(a, b)))
        },
        Arithmetic::Remainder => if b == 0 {
            Outcome::Error("zero division in `%`"@)
        } else {
            Outcome::Value(ValueView::Int(wrapping_remainder(a, b)))
        },
        Arithmetic::Power => if b < 0 {
            Outcome::Error("negative exponent in <int>**<int> operation"@)
        } else {
            Outcome::Value(ValueView::Int(wrapping_power(a, (b as u32) as nat)))
        },
    }
}

/// What an arithmetic operator gives for two floats: a float, but for a
/// division or a remainder, where a divisor of zero is an error.
pub open spec fn float_arithmetic(operation: Arithmetic) -> Outcome {
    match operation {
        Arithmetic::Divide => Outcome::Floating,
        Arithmetic::Remainder => Outcome::Floating,
        _ => Outcome::Value(ValueView::Float),
    }
}

/// The message for operands that an arithmetic operator does not take.
pub open spec fn arithmetic_message(operation: Arithmetic) -> Seq<char> {
    match operation {
        Arithmetic::Add => "operand of binary `+` is not a number, a string nor an array"@,
        Arithmetic::Subtract => "operand of binary `-` is not a number"@,
        Arithmetic::Multiply => "operand of binary `*` is not a number"@,
        Arithmetic::Divide => "operand of binary `/` is not a number"@,
        Arithmetic::Remainder => "operand of binary `%` is not a number"@,
        Arithmetic::Power => "operand of binary `**` is not a number"@,
    }
}

/// What an arithmetic operator gives for two values. Both have to be of one
/// kind: two integers or two floats, and for `+` also two strings or two
/// arrays, which are put one after the other.
pub open spec fn arithmetic_spec(operation: Arithmetic, left: ValueView, right: ValueView) -> Outcome {
    match (left, right) {
        (ValueView::Int(a), ValueView::Int(b)) => integer_arithmetic(operation, a, b),
        (ValueView::Float, ValueView::Float) => float_arithmetic(operation),
        (ValueView::Str(a), ValueView::Str(b)) => if operation == Arithmetic::Add {
            Outcome::Value(ValueView::Str(a + b))
        } else {
            Outcome::Error(arithmetic_message(operation))
        },
        (ValueView::Array(a), ValueView::Array(b)) => if operation == Arithmetic::Add {
            Outcome::Value(ValueView::Array(a + b))
        } else {
            Outcome::Error(arithmetic_message(operation))
        },
        _ => Outcome::Error(arithmetic_message(operation)),
    }
}

/// Whether a comparison holds of two things of which the first is less
/// than the second, or equal to it, or neither.
pub open spec fn comparison_holds(comparison: Comparison, less: bool, equal: bool) -> bool {
    match comparison {
        Comparison::Equal => equal,
        Comparison::NotEqual => !equal,
        Comparison::Less => less,
        Comparison::Greater => !less && !equal,
        Comparison::LessOrEqual => less || equal,
        Comparison::GreaterOrEqual => !less,
    }
}

/// The message for operands that a comparison does not take.
pub open spec fn comparison_message(comparison: Comparison) -> Seq<char> {
    match comparison {
        Comparison::Equal => "unsupported operand type for binary `==`"@,
        Comparison::NotEqual => "unsupported operand type for binary `!=`"@,
        Comparison::Less => "unsupported operand type for binary `<`"@,
        Comparison::Greater => "unsupported operand type for binary `>`"@,
        Comparison::LessOrEqual => "unsupported operand type for binary `<=`"@,
        Comparison::GreaterOrEqual => "unsupported operand type for binary `>=`"@,
    }
}

/// What a comparison gives for two values. Both have to be of one kind:
/// integers, floats, characters (by code point) or strings (in the order of
/// the dictionary); `==` and `!=` also take two booleans.
pub open spec fn comparison_spec(comparison: Comparison, left: ValueView, right: ValueView) -> Outcome {
    match (left, right) {
        (ValueView::Int(a), ValueView::Int(b)) => Outcome::Value(
            ValueView::Bool(comparison_holds(comparison, a < b, a == b)),
        ),
        (ValueView::Float, ValueView::Float) => Outcome::Floating,
        (ValueView::Bool(a), ValueView::Bool(b)) => if comparison == Comparison::Equal
            || comparison == Comparison::NotEqual {
            Outcome::Value(ValueView::Bool(comparison_holds(comparison, false, a == b)))
        } else {
            Outcome::Error(comparison_message(comparison))
        },
        (ValueView::Char(a), ValueView::Char(b)) => Outcome::Value(
            ValueView::Bool(comparison_holds(comparison, a < b, a == b)),
        ),
        (ValueView::Str(a), ValueView::Str(b)) => Outcome::Value(
            ValueView::Bool(comparison_holds(comparison, text_less(a, b), a == b)),
        ),
        _ => Outcome::Error(comparison_message(comparison)),
    }
}

/// `&&` of two values, which have to be booleans.
pub open spec fn binary_and_spec(left: ValueView, right: ValueView) -> Outcome {
    match (left, right) {
        (ValueView::Bool(a), ValueView::Bool(b)) => Outcome::Value(ValueView::Bool(a && b)),
        _ => Outcome::Error("operand of binary `&&` is not a boolean"@),
    }
}

/// `||` of two values, which have to be booleans.
pub open spec fn binary_or_spec(left: ValueView, right: ValueView) -> Outcome {
    match (left, right) {
        (ValueView::Bool(a), ValueView::Bool(b)) => Outcome::Value(ValueView::Bool(a || b)),
        _ => Outcome::Error("operand of binary `||` is not a boolean"@),
    }
}

/// Whether both values are floats.
pub open spec fn both_floats(left: ValueView, right: ValueView) -> bool {
    left is Float && right is Float
}

fn int_value(value: i64) -> (r: EvalResult)
    ensures
        r matches Ok(v) && v@ == ValueView::Int(value),
{
    Ok(Rc::new(Object::Int(Int::new(value))))
}

fn float_value(bits: u64) -> (r: EvalResult)
    ensures
        r matches Ok(v) && v@ == ValueView::Float && v.float_bits() == Some(bits),
{
    Ok(Rc::new(Object::Float(Float::new(bits))))
}

fn bool_value(value: bool) -> (r: EvalResult)
    ensures
        r matches Ok(v) && v@ == ValueView::Bool(value),
{
    Ok(Rc::new(Object::Bool(Bool::new(value))))
}

fn failure(message: &str) -> (r: EvalResult)
    ensures
        r matches Err(e) && e@ == message@,
{
    Err(String::from_str(message))
}

pub fn unary_minus<H: Host>(o: &Object, host: &H) -> (r: EvalResult)
    ensures
        outcome_matches(r, unary_minus_spec(o@)),
{
    match o {
        Object::Int(i) => int_value(0i64.wrapping_sub(i.value())),
        Object::Float(f) => float_value(host.float_negate(f.value())),
        _ => failure("operand of unary `-` is not a number"),
    }
}

pub fn unary_invert(o: &Object) -> (r: EvalResult)
    ensures
        outcome_matches(r, unary_invert_spec(o@)),
{
    match o {
        Object::Bool(b) => bool_value(!b.value()),
        _ => failure("operand of unary `!` is not a boolean"),
    }
}

fn arithmetic_failure(operation: Arithmetic) -> (r: EvalResult)
    ensures
        r matches Err(e) && e@ == arithmetic_message(operation),
{
    match operation {
        Arithmetic::Add => failure(
            "operand of binary `+` is not a number, a string nor an array",
        ),
        Arithmetic::Subtract => failure("operand of binary `-` is not a number"),
        Arithmetic::Multiply => failure("operand of binary `*` is not a number"),
        Arithmetic::Divide => failure("operand of binary `/` is not a number"),
        Arithmetic::Remainder => failure("operand of binary `%` is not a number"),
        Arithmetic::Power => failure("operand of binary `**` is not a number"),
    }
}

fn integers(operation: Arithmetic, a: i64, b: i64) -> (r: EvalResult)
    ensures
        outcome_matches(r, integer_arithmetic(operation, a, b)),
{
    match operation {
        Arithmetic::Add => int_value(a.wrapping_add(b)),
        Arithmetic::Subtract => int_value(a.wrapping_sub(b)),
        Arithmetic::Multiply => int_value(a.wrapping_mul(b)),
        Arithmetic::Divide => {
            if b == 0 {
                return failure("zero division");
            }
            match a.checked_div(b) {
                Some(q) => int_value(q),
                None => int_value(i64::MIN),
            }
        },
        Arithmetic::Remainder => {
            if b == 0 {
                return failure("zero division in `%`");
            }
            match a.checked_rem(b) {
                Some(q) => int_value(q),
                None => int_value(0),
            }
        },
        Arithmetic::Power => {
            if b < 0 {
                return failure("negative exponent in <int>**<int> operation");
            }
            int_value(wrapping_pow(a, #[verifier::truncate] (b as u32)))
        },
    }
}

fn floats<H: Host>(operation: Arithmetic, a: u64, b: u64, host: &H) -> (r: EvalResult)
    ensures
        outcome_matches(r, float_arithmetic(operation)),
        match r {
            Ok(v) => v@ is Float,
            Err(e) => (operation == Arithmetic::Divide && e@ == "zero division"@) || (operation
                == Arithmetic::Remainder && e@ == "zero division in `%`"@),
        },
{
    match operation {
        Arithmetic::Divide => {
            if host.float_compare(Comparison::Equal, b, host.float_from_int(0)) {
                return failure("zero division");
            }
        },
        Arithmetic::Remainder => {
            if host.float_compare(Comparison::Equal, b, host.float_from_int(0)) {
                return failure("zero division in `%`");
            }
        },
        _ => {},
    }
    float_value(host.float_arithmetic(operation, a, b))
}

fn concat_arrays(a: &Array, b: &Array) -> (r: EvalResult)
    ensures
        r matches Ok(v) && v@ == ValueView::Array(a@ + b@),
{
    let mut elements: Vec<Rc<Object>> = Vec::new();
    let mut i: usize = 0;
    while i < a.elements.len()
        invariant
            i <= a.elements.len(),
            elements@.len() == i,
            forall|k: int| 0 <= k < i ==> (#[trigger] elements@[k])@ == a@[k],
        decreases a.elements.len() - i,
    {
        elements.push(rc_clone(&a.elements[i]));
        i = i + 1;
    }
    let mut j: usize = 0;
    while j < b.elements.len()
        invariant
            j <= b.elements.len(),
            elements@.len() == a@.len() + j,
            forall|k: int| 0 <= k < a@.len() ==> (#[trigger] elements@[k])@ == a@[k],
            forall|k: int| 0 <= k < j ==> (#[trigger] elements@[a@.len() + k])@ == b@[k],
        decreases b.elements.len() - j,
    {
        elements.push(rc_clone(&b.elements[j]));
        j = j + 1;
    }
    proof {
        assert forall|k: int| 0 <= k < elements@.len() implies values_view(elements@)[k] == (a@
            + b@)[k] by {
            if k >= a@.len() {
                assert(elements@[a@.len() + (k - a@.len())]@ == b@[k - a@.len()]);
            }
        }
        assert(values_view(elements@) =~= a@ + b@);
    }
    let v = Object::Array(Array::new(elements));
    proof {
        lemma_value_view(&v);
    }
    Ok(Rc::new(v))
}

fn arithmetic<H: Host>(operation: Arithmetic, left: &Object, right: &Object, host: &H) -> (r:
    EvalResult)
    ensures
        outcome_matches(r, arithmetic_spec(operation, left@, right@)),
        both_floats(left@, right@) ==> match r {
            Ok(v) => v@ is Float,
            Err(e) => (operation == Arithmetic::Divide && e@ == "zero division"@) || (operation
                == Arithmetic::Remainder && e@ == "zero division in `%`"@),
        },
{
    proof {
        lemma_value_view(left);
        lemma_value_view(right);
    }
    match (left, right) {
        (Object::Int(a), Object::Int(b)) => integers(operation, a.value(), b.value()),
        (Object::Float(a), Object::Float(b)) => floats(operation, a.value(), b.value(), host),
        (Object::Str(a), Object::Str(b)) => {
            if operation == Arithmetic::Add {
                let s = String::from_str(a.value()).concat(b.value());
                Ok(Rc::new(Object::Str(Str::new(Rc::new(s)))))
            } else {
                arithmetic_failure(operation)
            }
        },
        (Object::Array(a), Object::Array(b)) => {
            if operation == Arithmetic::Add {
                concat_arrays(a, b)
            } else {
                arithmetic_failure(operation)
            }
        },
        _ => arithmetic_failure(operation),
    }
}

pub fn binary_plus<H: Host>(left: &Object, right: &Object, host: &H) -> (r: EvalResult)
    ensures
        outcome_matches(r, arithmetic_spec(Arithmetic::Add, left@, right@)),
        both_floats(left@, right@) ==> (r matches Ok(v) && v@ is Float),
{
    arithmetic(Arithmetic::Add, left, right, host)
}

pub fn binary_minus<H: Host>(left: &Object, right: &Object, host: &H) -> (r: EvalResult)
    ensures
        outcome_matches(r, arithmetic_spec(Arithmetic::Subtract, left@, right@)),
        both_floats(left@, right@) ==> (r matches Ok(v) && v@ is Float),
{
    arithmetic(Arithmetic::Subtract, left, right, host)
}

pub fn binary_asterisk<H: Host>(left: &Object, right: &Object, host: &H) -> (r: EvalResult)
    ensures
        outcome_matches(r, arithmetic_spec(Arithmetic::Multiply, left@, right@)),
        both_floats(left@, right@) ==> (r matches Ok(v) && v@ is Float),
{
    arithmetic(Arithmetic::Multiply, left, right, host)
}

pub fn binary_slash<H: Host>(left: &Object, right: &Object, host: &H) -> (r: EvalResult)
    ensures
        outcome_matches(r, arithmetic_spec(Arithmetic::Divide, left@, right@)),
        both_floats(left@, right@) ==> match r {
            Ok(v) => v@ is Float,
            Err(e) => e@ == "zero division"@,
        },
{
    arithmetic(Arithmetic::Divide, left, right, host)
}

pub fn binary_percent<H: Host>(left: &Object, right: &Object, host: &H) -> (r: EvalResult)
    ensures
        outcome_matches(r, arithmetic_spec(Arithmetic::Remainder, left@, right@)),
        both_floats(left@, right@) ==> match r {
            Ok(v) => v@ is Float,
            Err(e) => e@ == "zero division in `%`"@,
        },
{
    arithmetic(Arithmetic::Remainder, left, right, host)
}

pub fn binary_power<H: Host>(left: &Object, right: &Object, host: &H) -> (r: EvalResult)
    ensures
        outcome_matches(r, arithmetic_spec(Arithmetic::Power, left@, right@)),
        both_floats(left@, right@) ==> (r matches Ok(v) && v@ is Float),
{
    arithmetic(Arithmetic::Power, left, right, host)
}

fn decide(comparison: Comparison, less: bool, equal: bool) -> (r: EvalResult)
    ensures
        r matches Ok(v) && v@ == ValueView::Bool(comparison_holds(comparison, less, equal)),
{
    bool_value(
        match comparison {
            Comparison::Equal => equal,
            Comparison::NotEqual => !equal,
            Comparison::Less => less,
            Comparison::Greater => !less && !equal,
            Comparison::LessOrEqual => less || equal,
            Comparison::GreaterOrEqual => !less,
        },
    )
}

fn comparison_failure(comparison: Comparison) -> (r: EvalResult)
    ensures
        r matches Err(e) && e@ == comparison_message(comparison),
{
    match comparison {
        Comparison::Equal => failure("unsupported operand type for binary `==`"),
        Comparison::NotEqual => failure("unsupported operand type for binary `!=`"),
        Comparison::Less => failure("unsupported operand type for binary `<`"),
        Comparison::Greater => failure("unsupported operand type for binary `>`"),
        Comparison::LessOrEqual => failure("unsupported operand type for binary `<=`"),
        Comparison::GreaterOrEqual => failure("unsupported operand type for binary `>=`"),
    }
}

fn compare<H: Host>(comparison: Comparison, left: &Object, right: &Object, host: &H) -> (r:
    EvalResult)
    ensures
        outcome_matches(r, comparison_spec(comparison, left@, right@)),
        both_floats(left@, right@) ==> (r matches Ok(v) && v@ is Bool),
{
    proof {
        lemma_value_view(left);
        lemma_value_view(right);
    }
    match (left, right) {
        (Object::Int(a), Object::Int(b)) => decide(
            comparison,
            a.value() < b.value(),
            a.value() == b.value(),
        ),
        (Object::Float(a), Object::Float(b)) => bool_value(
            host.float_compare(comparison, a.value(), b.value()),
        ),
        (Object::Bool(a), Object::Bool(b)) => {
            if comparison == Comparison::Equal || comparison == Comparison::NotEqual {
                decide(comparison, false, a.value() == b.value())
            } else {
                comparison_failure(comparison)
            }
        },
        (Object::Char(a), Object::Char(b)) => decide(
            comparison,
            a.value() < b.value(),
            a.value() == b.value(),
        ),
        (Object::Str(a), Object::Str(b)) => decide(
            comparison,
            str_less(a.value(), b.value()),
            str_equals(a.value(), b.value()),
        ),
        _ => comparison_failure(comparison),
    }
}

pub fn binary_eq<H: Host>(left: &Object, right: &Object, host: &H) -> (r: EvalResult)
    ensures
        outcome_matches(r, comparison_spec(Comparison::Equal, left@, right@)),
        both_floats(left@, right@) ==> (r matches Ok(v) && v@ is Bool),
{
    compare(Comparison::Equal, left, right, host)
}

pub fn binary_noteq<H: Host>(left: &Object, right: &Object, host: &H) -> (r: EvalResult)
    ensures
        outcome_matches(r, comparison_spec(Comparison::NotEqual, left@, right@)),
        both_floats(left@, right@) ==> (r matches Ok(v) && v@ is Bool),
{
    compare(Comparison::NotEqual, left, right, host)
}

pub fn binary_lt<H: Host>(left: &Object, right: &Object, host: &H) -> (r: EvalResult)
    ensures
        outcome_matches(r, comparison_spec(Comparison::Less, left@, right@)),
        both_floats(left@, right@) ==> (r matches Ok(v) && v@ is Bool),
{
    compare(Comparison::Less, left, right, host)
}

pub fn binary_gt<H: Host>(left: &Object, right: &Object, host: &H) -> (r: EvalResult)
    ensures
        outcome_matches(r, comparison_spec(Comparison::Greater, left@, right@)),
        both_floats(left@, right@) ==> (r matches Ok(v) && v@ is Bool),
{
    compare(Comparison::Greater, left, right, host)
}

pub fn binary_lteq<H: Host>(left: &Object, right: &Object, host: &H) -> (r: EvalResult)
    ensures
        outcome_matches(r, comparison_spec(Comparison::LessOrEqual, left@, right@)),
        both_floats(left@, right@) ==> (r matches Ok(v) && v@ is Bool),
{
    compare(Comparison::LessOrEqual, left, right, host)
}

pub fn binary_gteq<H: Host>(left: &Object, right: &Object, host: &H) -> (r: EvalResult)
    ensures
        outcome_matches(r, comparison_spec(Comparison::GreaterOrEqual, left@, right@)),
        both_floats(left@, right@) ==> (r matches Ok(v) && v@ is Bool),
{
    compare(Comparison::GreaterOrEqual, left, right, host)
}

pub fn binary_and(left: &Object, right: &Object) -> (r: EvalResult)
    ensures
        outcome_matches(r, binary_and_spec(left@, right@)),
{
    match (left, right) {
        (Object::Bool(a), Object::Bool(b)) => bool_value(a.value() && b.value()),
        _ => failure("operand of binary `&&` is not a boolean"),
    }
}

pub fn binary_or(left: &Object, right: &Object) -> (r: EvalResult)
    ensures
        outcome_matches(r, binary_or_spec(left@, right@)),
{
    match (left, right) {
        (Object::Bool(a), Object::Bool(b)) => bool_value(a.value() || b.value()),
        _ => failure("operand of binary `||` is not a boolean"),
    }
}

} // verus!
