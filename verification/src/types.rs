//! The data model shared by the lexer, the parser and the evaluator.

pub mod ast;
pub mod binary_operator;
pub mod error;
pub mod options;
pub mod primitive_value;
pub mod render;
pub mod symbol_store;
pub mod text;
pub mod token;
