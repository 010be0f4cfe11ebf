//! A filter language for traces of a simulated distributed system: a
//! parser from query text to an expression tree, and an evaluator that
//! decides whether an event matches an expression.

pub mod expr;
pub mod field;
pub mod laws;
pub mod lex;
pub mod parse;
pub mod value;
