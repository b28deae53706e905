//! A tree-walking interpreter for a small, dynamically typed language in
//! which everything is an expression.
//!
//! Source text goes through three stages. The [`lexer`] turns characters
//! into tokens, the [`parser`] turns tokens into a syntax tree by operator
//! precedence, and the [`evaluator`] walks the tree in an environment of
//! nested scopes. Functions are closures, `return` unwinds to the call that
//! is running, and a table of built-in identifiers is always in reach.
//!
//! Each stage comes with a mathematical model of what it computes, and the
//! code is proved to agree with the model. The console and the arithmetic
//! of floats are not part of the library: the program that embeds it
//! supplies them as a [`host::Host`].

pub mod ast;
pub mod builtin;
pub mod environment;
pub mod evaluator;
pub mod host;
pub mod laws;
pub mod lexer;
pub mod object;
pub mod operator;
pub mod parser;
pub mod repl;
pub mod text;
pub mod token;
pub mod util;
