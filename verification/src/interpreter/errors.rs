//! The runtime errors that the evaluator raises, each with its message.

use vstd::prelude::*;
use vstd::string::*;
use crate::interpreter::semantics::arity_message;
use crate::interpreter::semantics::depth_message;
use crate::interpreter::semantics::nested_program_message;
use crate::interpreter::semantics::no_argument_message;
use crate::interpreter::semantics::no_return_message;
use crate::interpreter::semantics::no_symbol_value_message;
use crate::interpreter::semantics::no_value_message;
use crate::interpreter::semantics::undefined_function_message;
use crate::interpreter::semantics::undefined_symbol_message;
use crate::types::ast::AST;
use crate::types::error::RuntimeError;
use crate::types::render::render_ast;
use crate::types::text::quote;
use crate::types::text::u128_to_string;

verus! {

/// The error for a symbol that is read as a statement and is not bound.
pub fn undefined_symbol(identifier: &String) -> (error: RuntimeError)
    ensures
        error@ == undefined_symbol_message(identifier@),
{
    let mut message = String::from_str("Tried to access undefined symbol: ");
    message.append(identifier.as_str());
    RuntimeError { message }
}

/// The error for a symbol that is read as an operand and is not bound.
pub fn no_symbol_value(identifier: &String) -> (error: RuntimeError)
    ensures
        error@ == no_symbol_value_message(identifier@),
{
    let mut message = String::from_str("Could not get value from Symbol: ");
    let quoted = quote(identifier.as_str());
    message.append(quoted.as_str());
    RuntimeError { message }
}

/// The error for a call that yields nothing where a value is needed.
pub fn no_return(identifier: &String) -> (error: RuntimeError)
    ensures
        error@ == no_return_message(identifier@),
{
    let mut message = String::from_str("Function ");
    message.append(identifier.as_str());
    message.append(" didn't return value");
    RuntimeError { message }
}

/// The error for a node that has no value where one is needed.
pub fn no_value(ast: &AST) -> (error: RuntimeError)
    ensures
        error@ == no_value_message(ast@),
{
    let mut message = String::from_str("Value of AST could not be determined ");
    let rendered = render_ast(ast);
    message.append(rendered.as_str());
    RuntimeError { message }
}

/// The error for a call of an identifier that is not bound.
pub fn undefined_function(identifier: &String) -> (error: RuntimeError)
    ensures
        error@ == undefined_function_message(identifier@),
{
    let mut message = String::from_str("Symbol ");
    message.append(identifier.as_str());
    message.append(" does not exist.");
    RuntimeError { message }
}

/// The error for an argument that yields nothing.
pub fn no_argument(argument: &AST) -> (error: RuntimeError)
    ensures
        error@ == no_argument_message(argument@),
{
    let mut message = String::from_str("Could not evaluate arguemnt ");
    let rendered = render_ast(argument);
    message.append(rendered.as_str());
    RuntimeError { message }
}

/// The error for a call with the wrong number of arguments.
pub fn wrong_arity(identifier: &String, expected: usize, given: usize) -> (error: RuntimeError)
    ensures
        error@ == arity_message(identifier@, expected as nat, given as nat),
{
    let mut message = String::from_str("Function ");
    message.append(identifier.as_str());
    message.append(" expects ");
    let expected_text = u128_to_string(expected as u128);
    message.append(expected_text.as_str());
    message.append(" arguments but got ");
    let given_text = u128_to_string(given as u128);
    message.append(given_text.as_str());
    RuntimeError { message }
}

/// The error for calls nested deeper than the budget allows.
pub fn too_deep(identifier: &String) -> (error: RuntimeError)
    ensures
        error@ == depth_message(identifier@),
{
    let mut message = String::from_str("Call depth exceeded in ");
    message.append(identifier.as_str());
    RuntimeError { message }
}

/// The error for a program node inside a program.
pub fn nested_program() -> (error: RuntimeError)
    ensures
        error@ == nested_program_message(),
{
    RuntimeError { message: String::from_str("Found program in AST.") }
}

} // verus!
