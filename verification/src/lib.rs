//! A tree-walking interpreter for the Eye language: a lexer, a parser and
//! an evaluator over a shared data model. Every function states what it
//! computes as a contract over mathematical models of its data, and
//! is verified against it.

pub mod interpreter;
pub mod lexer;
pub mod parser;
pub mod pipeline;
pub mod types;
