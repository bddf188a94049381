//! What parsing means: the grammar as mathematical functions from a token
//! sequence and a cursor to a tree and the cursor behind it.
//!
//! The cursor never passes the last token: a token is consumed only while
//! another one follows it. Every function is given a cursor inside the
//! sequence and, where it succeeds, leaves one there, not further back.
//! The definitions ask for this of each intermediate result before they
//! go on, which makes it evident that they terminate; that the answer is
//! always yes is proved with the shape of the results.

use vstd::prelude::*;
use crate::types::ast::AstView;
use crate::types::ast::IfView;
use crate::types::binary_operator::BinaryOperator;
use crate::types::error::ParseError;
use crate::types::primitive_value::wrapping_difference;
use crate::types::token::TokenView;

verus! {

/// A parsed value and the cursor behind it, or the reason there is none.
pub type Parsed<T> = Result<(T, int), ParseError>;

/// Whether a token follows the one at `pos`.
pub open spec fn has_next(tokens: Seq<TokenView>, pos: int) -> bool {
    pos + 1 < tokens.len()
}

/// Whether the token at `pos` is `token` and another token follows it.
pub open spec fn is_tok(tokens: Seq<TokenView>, pos: int, token: TokenView) -> bool {
    has_next(tokens, pos) && tokens[pos] == token
}

/// The cursor after an optional `token` at `pos`.
pub open spec fn skip(tokens: Seq<TokenView>, pos: int, token: TokenView) -> int {
    if is_tok(tokens, pos, token) {
        pos + 1
    } else {
        pos
    }
}

/// Whether a cursor that was at `from` is now at `to`, further on and
/// still inside the sequence.
pub open spec fn moved(tokens: Seq<TokenView>, from: int, to: int) -> bool {
    from < to < tokens.len()
}

/// Whether a cursor that was at `from` is now at `to`, not further back
/// and still inside the sequence.
pub open spec fn kept(tokens: Seq<TokenView>, from: int, to: int) -> bool {
    from <= to < tokens.len()
}

/// Folds the binary operators that follow `left` and bind tighter than
/// `bound` into `left`, from left to right. The right operand of an
/// operator takes in only what binds tighter than the operator itself, so
/// operators that bind equally tight group to the left.
pub open spec fn maybe_binary(tokens: Seq<TokenView>, pos: int, left: AstView, bound: nat)
    -> Parsed<AstView>
    decreases tokens.len() - pos, 0nat,
{
    match tokens[pos] {
        TokenView::Operator(operator) if pos < tokens.len() && operator.precedence() > bound => {
            if !has_next(tokens, pos) {
                Err(ParseError::UnexpectedEnd)
            } else {
                match parse_operand(tokens, pos + 1, operator.precedence()) {
                    Ok((right, after)) if moved(tokens, pos, after) => maybe_binary(
                        tokens,
                        after,
                        AstView::binary(operator, left, right),
                        bound,
                    ),
                    Ok(_) => Err(ParseError::UnexpectedEnd),
                    Err(error) => Err(error),
                }
            }
        },
        _ => Ok((left, pos)),
    }
}

/// An operand: a primary, extended by the binary operators that follow it
/// and bind tighter than `bound`. A semicolon stands alone; where no token
/// follows the one at `pos`, the result is the end-of-input node and the
/// cursor stays.
pub open spec fn parse_operand(tokens: Seq<TokenView>, pos: int, bound: nat) -> Parsed<AstView>
    decreases tokens.len() - pos, 1nat,
{
    if !has_next(tokens, pos) {
        Ok((AstView::EOF, pos))
    } else if tokens[pos] == TokenView::Semicolon {
        Ok((AstView::Semicolon, pos + 1))
    } else {
        match parse_primary(tokens, pos) {
            Ok((left, after)) if moved(tokens, pos, after) => maybe_binary(
                tokens,
                after,
                left,
                bound,
            ),
            Ok(_) => Err(ParseError::UnexpectedEnd),
            Err(error) => Err(error),
        }
    }
}

/// One statement or expression: an operand that takes in every binary
/// operator that binds tighter than assignment.
pub open spec fn parse_atom(tokens: Seq<TokenView>, pos: int) -> Parsed<AstView>
    decreases tokens.len() - pos, 2nat,
{
    parse_operand(tokens, pos, 0)
}

/// The primary that starts at `pos`, where a token follows the one at
/// `pos`.
pub open spec fn parse_primary(tokens: Seq<TokenView>, pos: int) -> Parsed<AstView>
    decreases tokens.len() - pos, 0nat,
{
    if !has_next(tokens, pos) {
        Err(ParseError::UnexpectedEnd)
    } else {
        match tokens[pos] {
            TokenView::Return => match parse_atom(tokens, pos + 1) {
                Ok((value, after)) => Ok((AstView::Return { value: Box::new(value) }, after)),
                Err(error) => Err(error),
            },
            TokenView::Number(value) => Ok((AstView::Number { value }, pos + 1)),
            TokenView::Bool(value) => Ok((AstView::Bool { value }, pos + 1)),
            TokenView::Str(value) => Ok((AstView::Str { value }, pos + 1)),
            TokenView::Symbol(identifier) => if is_tok(tokens, pos + 1, TokenView::LParen) {
                parse_call(tokens, pos + 2, identifier)
            } else {
                Ok((AstView::Symbol { identifier }, pos + 1))
            },
            TokenView::Print => match parse_atom(tokens, pos + 1) {
                Ok((value, after)) => Ok((AstView::Print { value: Box::new(value) }, after)),
                Err(error) => Err(error),
            },
            TokenView::Define => parse_define(tokens, pos + 1),
            TokenView::If => parse_if(tokens, pos + 1),
            TokenView::Do => parse_do(tokens, pos + 1),
            TokenView::Run => parse_run(tokens, pos + 1),
            TokenView::Throw => match tokens[pos + 1] {
                TokenView::Str(message) => if has_next(tokens, pos + 1) {
                    Ok((AstView::Throw { message }, pos + 2))
                } else {
                    Err(ParseError::UnexpectedEnd)
                },
                _ => Err(ParseError::MissingMessage),
            },
            TokenView::Operator(BinaryOperator::Subtract) => match tokens[pos + 1] {
                TokenView::Number(value) => if has_next(tokens, pos + 1) {
                    Ok((AstView::Number { value: wrapping_difference(0, value) }, pos + 2))
                } else {
                    Err(ParseError::UnexpectedEnd)
                },
                _ => Err(ParseError::UnsupportedPrefix),
            },
            TokenView::Operator(_) => Err(ParseError::UnsupportedPrefix),
            _ => Err(ParseError::UnexpectedToken),
        }
    }
}

/// The arguments of a call up to the closing parenthesis, after `items`.
pub open spec fn parse_args_from(tokens: Seq<TokenView>, pos: int, items: Seq<AstView>) -> Parsed<
    Seq<AstView>,
>
    decreases tokens.len() - pos, 3nat,
{
    if is_tok(tokens, pos, TokenView::RParen) {
        Ok((items, pos + 1))
    } else if !has_next(tokens, pos) {
        Err(ParseError::UnexpectedEnd)
    } else {
        match parse_atom(tokens, pos) {
            Ok((item, after)) if moved(tokens, pos, after) => parse_args_from(
                tokens,
                skip(tokens, after, TokenView::Comma),
                items.push(item),
            ),
            Ok(_) => Err(ParseError::UnexpectedEnd),
            Err(error) => Err(error),
        }
    }
}

/// A parenthesised, comma-separated list of arguments; the opening
/// parenthesis may already have been consumed.
pub open spec fn parse_call_args(tokens: Seq<TokenView>, pos: int) -> Parsed<Seq<AstView>>
    decreases tokens.len() - pos, 4nat,
{
    parse_args_from(tokens, pos, Seq::empty())
}

/// A call of `identifier`: its arguments up to the closing parenthesis.
pub open spec fn parse_call(tokens: Seq<TokenView>, pos: int, identifier: Seq<char>) -> Parsed<
    AstView,
>
    decreases tokens.len() - pos, 5nat,
{
    match parse_call_args(tokens, skip(tokens, pos, TokenView::LParen)) {
        Ok((args, after)) => Ok((AstView::Call { identifier, args }, after)),
        Err(error) => Err(error),
    }
}

/// `run name` or `run name given ( args )`.
pub open spec fn parse_run(tokens: Seq<TokenView>, pos: int) -> Parsed<AstView>
    decreases tokens.len() - pos, 0nat,
{
    match tokens[pos] {
        TokenView::Symbol(identifier) => if !has_next(tokens, pos) {
            Err(ParseError::UnexpectedEnd)
        } else if is_tok(tokens, pos + 1, TokenView::Given) {
            match parse_call_args(tokens, skip(tokens, pos + 2, TokenView::LParen)) {
                Ok((args, after)) => Ok((AstView::Call { identifier, args }, after)),
                Err(error) => Err(error),
            }
        } else {
            Ok((AstView::Call { identifier, args: Seq::empty() }, pos + 1))
        },
        _ => Err(ParseError::MissingName),
    }
}

/// The nodes of a block up to the closing brace, after `items`.
pub open spec fn parse_block_from(tokens: Seq<TokenView>, pos: int, items: Seq<AstView>) -> Parsed<
    Seq<AstView>,
>
    decreases tokens.len() - pos, 3nat,
{
    if tokens[pos] == TokenView::RBrace {
        Ok((items, skip(tokens, pos, TokenView::RBrace)))
    } else if !has_next(tokens, pos) {
        Err(ParseError::UnexpectedEnd)
    } else {
        match parse_atom(tokens, pos) {
            Ok((item, after)) if moved(tokens, pos, after) => parse_block_from(
                tokens,
                after,
                items.push(item),
            ),
            Ok(_) => Err(ParseError::UnexpectedEnd),
            Err(error) => Err(error),
        }
    }
}

/// A block: `{`, nodes, `}`.
pub open spec fn parse_proc_body(tokens: Seq<TokenView>, pos: int) -> Parsed<Seq<AstView>>
    decreases tokens.len() - pos, 4nat,
{
    if tokens[pos] != TokenView::LBrace {
        Err(ParseError::MissingBrace)
    } else if !has_next(tokens, pos) {
        Err(ParseError::UnexpectedEnd)
    } else {
        parse_block_from(tokens, pos + 1, Seq::empty())
    }
}

/// The parameter names up to the first token that is no name, after
/// `names`; a closing parenthesis behind them is consumed.
pub open spec fn parse_params_from(tokens: Seq<TokenView>, pos: int, names: Seq<Seq<char>>)
    -> Parsed<Seq<Seq<char>>>
    decreases tokens.len() - pos,
{
    match tokens[pos] {
        TokenView::Symbol(name) if pos < tokens.len() => if !has_next(tokens, pos) {
            Err(ParseError::UnexpectedEnd)
        } else {
            parse_params_from(tokens, skip(tokens, pos + 1, TokenView::Comma), names.push(name))
        },
        _ => Ok((names, skip(tokens, pos, TokenView::RParen))),
    }
}

/// The parameter list of a procedure: `given ( name, .. )`, or nothing.
pub open spec fn parse_func_args(tokens: Seq<TokenView>, pos: int) -> Parsed<Seq<Seq<char>>> {
    if is_tok(tokens, pos, TokenView::Given) {
        parse_params_from(tokens, skip(tokens, pos + 1, TokenView::LParen), Seq::empty())
    } else {
        Ok((Seq::empty(), pos))
    }
}

/// A procedure definition from its block on: the block, then the
/// parameter list.
pub open spec fn parse_proc(tokens: Seq<TokenView>, pos: int, identifier: Seq<char>) -> Parsed<
    AstView,
>
    decreases tokens.len() - pos, 5nat,
{
    match parse_proc_body(tokens, pos) {
        Ok((body, after_body)) => match parse_func_args(tokens, after_body) {
            Ok((args, after)) => Ok((AstView::Proc { identifier, args, body }, after)),
            Err(error) => Err(error),
        },
        Err(error) => Err(error),
    }
}

/// A variable definition from its value on.
pub open spec fn parse_set(tokens: Seq<TokenView>, pos: int, identifier: Seq<char>) -> Parsed<
    AstView,
>
    decreases tokens.len() - pos, 3nat,
{
    match parse_atom(tokens, pos) {
        Ok((value, after)) => Ok((AstView::Assign { identifier, value: Box::new(value) }, after)),
        Err(error) => Err(error),
    }
}

/// `name to be { .. }`, a procedure, or `name to be value`, a variable.
pub open spec fn parse_define(tokens: Seq<TokenView>, pos: int) -> Parsed<AstView>
    decreases tokens.len() - pos, 0nat,
{
    match tokens[pos] {
        TokenView::Symbol(identifier) => if !has_next(tokens, pos) {
            Err(ParseError::UnexpectedEnd)
        } else if !is_tok(tokens, pos + 1, TokenView::ToBe) {
            Err(ParseError::MissingToBe)
        } else if tokens[pos + 2] == TokenView::LBrace {
            parse_proc(tokens, pos + 2, identifier)
        } else {
            parse_set(tokens, pos + 2, identifier)
        },
        _ => Err(ParseError::MissingName),
    }
}

/// A counted loop from its count on: the count, an optional name for the
/// index, and the block.
pub open spec fn parse_do(tokens: Seq<TokenView>, pos: int) -> Parsed<AstView>
    decreases tokens.len() - pos, 5nat,
{
    match parse_atom(tokens, pos) {
        Ok((count, after_count)) if kept(tokens, pos, after_count) => match tokens[after_count] {
            TokenView::Symbol(name) => if !has_next(tokens, after_count) {
                Err(ParseError::UnexpectedEnd)
            } else {
                match parse_proc_body(tokens, after_count + 1) {
                    Ok((body, after)) => Ok((AstView::counted(count, Some(name), body), after)),
                    Err(error) => Err(error),
                }
            },
            _ => match parse_proc_body(tokens, after_count) {
                Ok((body, after)) => Ok((AstView::counted(count, None, body), after)),
                Err(error) => Err(error),
            },
        },
        Ok(_) => Err(ParseError::UnexpectedEnd),
        Err(error) => Err(error),
    }
}

/// The `else if` branches from `pos` on, after `branches`. The flag says
/// whether the branches ended at an `else` that a block follows.
pub open spec fn parse_elifs_from(tokens: Seq<TokenView>, pos: int, branches: Seq<IfView>)
    -> Parsed<(Seq<IfView>, bool)>
    decreases tokens.len() - pos, 0nat,
{
    if !is_tok(tokens, pos, TokenView::Else) {
        Ok(((branches, false), pos))
    } else if is_tok(tokens, pos + 1, TokenView::LBrace) {
        Ok(((branches, true), pos + 1))
    } else if tokens[pos + 1] != TokenView::If {
        Err(ParseError::MissingIf)
    } else if !has_next(tokens, pos + 1) {
        Err(ParseError::UnexpectedEnd)
    } else {
        match parse_atom(tokens, pos + 2) {
            Ok((conditional, after_condition)) if moved(tokens, pos, after_condition) => {
                match parse_proc_body(tokens, after_condition) {
                    Ok((body, after)) if moved(tokens, pos, after) => parse_elifs_from(
                        tokens,
                        after,
                        branches.push(IfView { conditional: Box::new(conditional), body }),
                    ),
                    Ok(_) => Err(ParseError::UnexpectedEnd),
                    Err(error) => Err(error),
                }
            },
            Ok(_) => Err(ParseError::UnexpectedEnd),
            Err(error) => Err(error),
        }
    }
}

/// The `else if` branches of a conditional: none where no `else` follows.
/// The flag says whether an `else` with a block is still to come.
pub open spec fn parse_elif(tokens: Seq<TokenView>, pos: int) -> Parsed<
    (Option<Seq<IfView>>, bool),
>
    decreases tokens.len() - pos, 1nat,
{
    if is_tok(tokens, pos, TokenView::Else) {
        match parse_elifs_from(tokens, pos, Seq::empty()) {
            Ok(((branches, block_follows), after)) => Ok(((Some(branches), block_follows), after)),
            Err(error) => Err(error),
        }
    } else {
        Ok(((None, false), pos))
    }
}

/// The `else` block of a conditional, where one follows.
pub open spec fn parse_el(tokens: Seq<TokenView>, pos: int, block_follows: bool) -> Parsed<
    Option<Seq<AstView>>,
>
    decreases tokens.len() - pos, 5nat,
{
    if block_follows {
        match parse_proc_body(tokens, pos) {
            Ok((block, after)) => Ok((Some(block), after)),
            Err(error) => Err(error),
        }
    } else {
        Ok((None, pos))
    }
}

/// A conditional from its condition on: the condition and its block, the
/// `else if` branches, and the `else` block.
pub open spec fn parse_if(tokens: Seq<TokenView>, pos: int) -> Parsed<AstView>
    decreases tokens.len() - pos, 6nat,
{
    match parse_atom(tokens, pos) {
        Ok((conditional, after_condition)) if kept(tokens, pos, after_condition) => {
            match parse_proc_body(tokens, after_condition) {
                Ok((body, after_body)) if kept(tokens, pos, after_body) => {
                    match parse_elif(tokens, after_body) {
                        Ok(((elifs, block_follows), after_elifs)) if kept(
                            tokens,
                            pos,
                            after_elifs,
                        ) => {
                            match parse_el(tokens, after_elifs, block_follows) {
                                Ok((el, after)) => Ok(
                                    (
                                        AstView::conditional(
                                            IfView { conditional: Box::new(conditional), body },
                                            elifs,
                                            el,
                                        ),
                                        after,
                                    ),
                                ),
                                Err(error) => Err(error),
                            }
                        },
                        Ok(_) => Err(ParseError::UnexpectedEnd),
                        Err(error) => Err(error),
                    }
                },
                Ok(_) => Err(ParseError::UnexpectedEnd),
                Err(error) => Err(error),
            }
        },
        Ok(_) => Err(ParseError::UnexpectedEnd),
        Err(error) => Err(error),
    }
}

/// The statements of a program from `pos` on, after `items`: a statement
/// and an optional semicolon, as long as a token follows the cursor.
pub open spec fn parse_items_from(tokens: Seq<TokenView>, pos: int, items: Seq<AstView>) -> Result<
    AstView,
    ParseError,
>
    decreases tokens.len() - pos,
{
    if !has_next(tokens, pos) {
        Ok(AstView::Program { program: items })
    } else {
        match parse_atom(tokens, pos) {
            Ok((item, after)) if moved(tokens, pos, after) => parse_items_from(
                tokens,
                skip(tokens, after, TokenView::Semicolon),
                items.push(item),
            ),
            Ok(_) => Err(ParseError::UnexpectedEnd),
            Err(error) => Err(error),
        }
    }
}

/// The program that a token sequence stands for.
pub open spec fn parse_program(tokens: Seq<TokenView>) -> Result<AstView, ParseError> {
    parse_items_from(tokens, 0, Seq::empty())
}

} // verus!
