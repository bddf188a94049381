//! The lexer: from source text to tokens.

pub mod lexer;
pub mod pattern;
pub mod rules;

pub use self::lexer::tokenize;
