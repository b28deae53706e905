use vstd::prelude::*;

verus! {

/// The arithmetic operators that take two numbers.
#[derive(Debug, Clone, Copy, PartialEq, Eq, Structural)]
pub enum Arithmetic {
    Add,
    Subtract,
    Multiply,
    Divide,
    Remainder,
    Power,
}

/// The comparison operators.
#[derive(Debug, Clone, Copy, PartialEq, Eq, Structural)]
pub enum Comparison {
    Equal,
    NotEqual,
    Less,
    Greater,
    LessOrEqual,
    GreaterOrEqual,
}

/// What the interpreter takes from the program that embeds it: the console,
/// the end of the process, and the arithmetic of 64-bit floats. A float
/// travels as the 64 bits of its binary representation; the interpreter
/// never looks into them.
pub trait Host {
    /// Writes a line to the standard output.
    fn print(&mut self, text: &str);

    /// Writes a line to the standard error.
    fn eprint(&mut self, text: &str);

    /// Ends the process with the given code, cut to the width that the
    /// host takes. Where an implementation returns, evaluation goes on and
    /// the call gives null.
    fn exit(&mut self, code: i64);

    /// The float that a literal stands for. The literal holds a dot and at
    /// least one digit.
    fn float_parse(&self, literal: &str) -> u64;

    /// The text that shows a float.
    fn float_display(&self, bits: u64) -> String;

    fn float_negate(&self, bits: u64) -> u64;

    fn float_arithmetic(&self, operation: Arithmetic, left: u64, right: u64) -> u64;

    fn float_compare(&self, comparison: Comparison, left: u64, right: u64) -> bool;

    /// The integer part of a float.
    fn float_to_int(&self, bits: u64) -> i64;

    /// The float nearest to an integer.
    fn float_from_int(&self, value: i64) -> u64;
}

} // verus!
