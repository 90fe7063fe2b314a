//! Compiles a field description of a structured message into one
//! destructuring binding: a pattern tree and the expression tree that
//! computes the values the pattern takes apart.

pub mod message;
pub mod tree;
pub mod names;
pub mod emit;
pub mod bind;
pub mod laws;
