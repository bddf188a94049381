//! The evaluator: runs a syntax tree against a symbol environment.

pub mod errors;
pub mod interpreter;
pub mod report;
pub mod semantics;

pub use self::interpreter::interpret;
pub use self::interpreter::run_body_and_return;
pub use self::interpreter::value_from_ast;
