//! The whole pipeline: from source text to tokens, from tokens to a
//! program, and from the program to a run.

use vstd::prelude::*;
use crate::interpreter::interpreter::interpret;
use crate::interpreter::report::Report;
use crate::interpreter::report::report_is;
use crate::interpreter::semantics::run_program;
use crate::lexer::lexer::Position;
use crate::lexer::lexer::scan;
use crate::lexer::rules::lex;
use crate::lexer::rules::scan_text;
use crate::parser::grammar::parse_program;
use crate::parser::parser::build_program;
use crate::types::error::ParseError;
use crate::types::options::Options;
use crate::types::primitive_value::ValueView;
use crate::types::symbol_store::create_symbol_store;

verus! {

/// How far a source text got.
pub enum Outcome {
    /// Some character starts no lexeme; the cursor stands on it.
    Unlexed(Position),
    /// The tokens are no program.
    Unparsed(ParseError),
    /// The program ran.
    Ran(Report),
}

/// Whether `outcome` is how far `source` gets with calls nested at most
/// `depth` deep: nothing runs unless all of it is lexed and parsed, and
/// what runs starts from the empty environment.
pub open spec fn outcome_is(outcome: Outcome, source: Seq<char>, depth: nat) -> bool {
    match lex(source) {
        None => {
            &&& outcome matches Outcome::Unlexed(position)
            &&& position.text@ == source
            &&& position.index == scan_text(source).1
            &&& position.index < source.len()
        },
        Some(tokens) => match parse_program(tokens) {
            Err(error) => outcome == Outcome::Unparsed(error),
            Ok(tree) => {
                &&& outcome matches Outcome::Ran(report)
                &&& report_is(
                    report,
                    run_program(tree->program, Map::<Seq<char>, ValueView>::empty(), depth),
                )
            },
        },
    }
}

/// Lexes, parses and runs `source_text`.
pub fn run_source(source_text: String, options: &Options) -> (outcome: Outcome)
    ensures
        outcome_is(outcome, source_text@, options.call_depth as nat),
{
    let (tokens, stopped) = scan(source_text);
    if stopped.has_chars_left() {
        return Outcome::Unlexed(stopped);
    }
    match build_program(tokens) {
        Err(error) => Outcome::Unparsed(error),
        Ok(program) => Outcome::Ran(interpret(program, create_symbol_store(), options)),
    }
}

} // verus!
