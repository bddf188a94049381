//! The parser: from tokens to a program, by precedence climbing.

pub mod grammar;
pub mod laws;
pub mod parser;
pub mod shape;

pub use self::parser::build_program;
