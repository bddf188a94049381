//! The shape of what the grammar yields: the cursor only moves forward and
//! stays inside the tokens, and no program node stands inside a tree.

use vstd::prelude::*;
use crate::parser::grammar::Parsed;
use crate::parser::grammar::has_next;
use crate::parser::grammar::is_tok;
use crate::parser::grammar::kept;
use crate::parser::grammar::maybe_binary;
use crate::parser::grammar::moved;
use crate::parser::grammar::parse_args_from;
use crate::parser::grammar::parse_atom;
use crate::parser::grammar::parse_block_from;
use crate::parser::grammar::parse_call;
use crate::parser::grammar::parse_call_args;
use crate::parser::grammar::parse_define;
use crate::parser::grammar::parse_do;
use crate::parser::grammar::parse_el;
use crate::parser::grammar::parse_elif;
use crate::parser::grammar::parse_elifs_from;
use crate::parser::grammar::parse_func_args;
use crate::parser::grammar::parse_if;
use crate::parser::grammar::parse_items_from;
use crate::parser::grammar::parse_operand;
use crate::parser::grammar::parse_params_from;
use crate::parser::grammar::parse_primary;
use crate::parser::grammar::parse_proc;
use crate::parser::grammar::parse_proc_body;
use crate::parser::grammar::parse_program;
use crate::parser::grammar::parse_run;
use crate::parser::grammar::parse_set;
use crate::parser::grammar::skip;
use crate::types::ast::AstView;
use crate::types::ast::IfView;
use crate::types::token::TokenView;

verus! {

/// Whether no node of `block` is or holds a program node.
pub open spec fn block_is_plain(block: Seq<AstView>) -> bool
    decreases block,
{
    forall|i: int| 0 <= i < block.len() ==> is_plain(#[trigger] block[i])
}

/// Whether neither the condition nor the block of `branch` holds a
/// program node.
pub open spec fn branch_is_plain(branch: IfView) -> bool
    decreases branch,
{
    is_plain(*branch.conditional) && block_is_plain(branch.body)
}

/// Whether no branch of `branches` holds a program node.
pub open spec fn branches_are_plain(branches: Seq<IfView>) -> bool
    decreases branches,
{
    forall|i: int| 0 <= i < branches.len() ==> branch_is_plain(#[trigger] branches[i])
}

/// Whether `ast` is no program node and holds none.
pub open spec fn is_plain(ast: AstView) -> bool
    decreases ast,
{
    match ast {
        AstView::Program { .. } => false,
        AstView::Binary { left, right, .. } => is_plain(*left) && is_plain(*right),
        AstView::Assign { value, .. } => is_plain(*value),
        AstView::Proc { body, .. } => block_is_plain(body),
        AstView::Call { args, .. } => block_is_plain(args),
        AstView::Return { value } => is_plain(*value),
        AstView::Print { value } => is_plain(*value),
        AstView::If { this, elifs, el } => {
            &&& branch_is_plain(this)
            &&& match elifs {
                Some(branches) => branches_are_plain(branches),
                None => true,
            }
            &&& match el {
                Some(block) => block_is_plain(block),
                None => true,
            }
        },
        AstView::Do { count, body, .. } => is_plain(*count) && block_is_plain(body),
        _ => true,
    }
}

/// Whether a result of parsing from `pos` is in shape: where it is a tree,
/// the tree holds no program node and the cursor is where it was or
/// further on, inside the tokens.
pub open spec fn tree_in_shape(tokens: Seq<TokenView>, pos: int, result: Parsed<AstView>) -> bool {
    match result {
        Ok((tree, after)) => kept(tokens, pos, after) && is_plain(tree),
        Err(_) => true,
    }
}

/// Whether a result of parsing a block from `pos` is in shape.
pub open spec fn block_in_shape(tokens: Seq<TokenView>, pos: int, result: Parsed<Seq<AstView>>)
    -> bool {
    match result {
        Ok((block, after)) => kept(tokens, pos, after) && block_is_plain(block),
        Err(_) => true,
    }
}

/// Whether a result of parsing names from `pos` leaves the cursor where it
/// was or further on, inside the tokens.
pub open spec fn names_in_shape(
    tokens: Seq<TokenView>,
    pos: int,
    result: Parsed<Seq<Seq<char>>>,
) -> bool {
    match result {
        Ok((_, after)) => kept(tokens, pos, after),
        Err(_) => true,
    }
}

proof fn lemma_maybe_binary(tokens: Seq<TokenView>, pos: int, left: AstView, bound: nat)
    requires
        0 <= pos < tokens.len(),
        is_plain(left),
    ensures
        tree_in_shape(tokens, pos, maybe_binary(tokens, pos, left, bound)),
    decreases tokens.len() - pos, 0nat,
{
    match tokens[pos] {
        TokenView::Operator(operator) => {
            if operator.precedence() > bound && has_next(tokens, pos) {
                lemma_operand(tokens, pos + 1, operator.precedence());
                match parse_operand(tokens, pos + 1, operator.precedence()) {
                    Ok((right, after)) => {
                        if moved(tokens, pos, after) {
                            lemma_maybe_binary(
                                tokens,
                                after,
                                AstView::binary(operator, left, right),
                                bound,
                            );
                        }
                    },
                    Err(_) => {},
                }
            }
        },
        _ => {},
    }
}

proof fn lemma_operand(tokens: Seq<TokenView>, pos: int, bound: nat)
    requires
        0 <= pos < tokens.len(),
    ensures
        tree_in_shape(tokens, pos, parse_operand(tokens, pos, bound)),
        parse_operand(tokens, pos, bound) matches Ok((_, after)) ==> has_next(tokens, pos)
            ==> moved(tokens, pos, after),
    decreases tokens.len() - pos, 1nat,
{
    if has_next(tokens, pos) && tokens[pos] != TokenView::Semicolon {
        lemma_primary(tokens, pos);
        match parse_primary(tokens, pos) {
            Ok((left, after)) => {
                if moved(tokens, pos, after) {
                    lemma_maybe_binary(tokens, after, left, bound);
                }
            },
            Err(_) => {},
        }
    }
}

proof fn lemma_atom(tokens: Seq<TokenView>, pos: int)
    requires
        0 <= pos < tokens.len(),
    ensures
        tree_in_shape(tokens, pos, parse_atom(tokens, pos)),
        parse_atom(tokens, pos) matches Ok((_, after)) ==> has_next(tokens, pos) ==> moved(
            tokens,
            pos,
            after,
        ),
    decreases tokens.len() - pos, 2nat,
{
    lemma_operand(tokens, pos, 0);
}

proof fn lemma_primary(tokens: Seq<TokenView>, pos: int)
    requires
        0 <= pos < tokens.len(),
    ensures
        tree_in_shape(tokens, pos, parse_primary(tokens, pos)),
        parse_primary(tokens, pos) matches Ok((_, after)) ==> moved(tokens, pos, after),
    decreases tokens.len() - pos, 0nat,
{
    if has_next(tokens, pos) {
        match tokens[pos] {
            TokenView::Return => {
                lemma_atom(tokens, pos + 1);
            },
            TokenView::Symbol(identifier) => {
                if is_tok(tokens, pos + 1, TokenView::LParen) {
                    lemma_call(tokens, pos + 2, identifier);
                }
            },
            TokenView::Print => {
                lemma_atom(tokens, pos + 1);
            },
            TokenView::Define => {
                lemma_define(tokens, pos + 1);
            },
            TokenView::If => {
                lemma_if(tokens, pos + 1);
            },
            TokenView::Do => {
                lemma_do(tokens, pos + 1);
            },
            TokenView::Run => {
                lemma_run(tokens, pos + 1);
            },
            _ => {},
        }
    }
}

proof fn lemma_args_from(tokens: Seq<TokenView>, pos: int, items: Seq<AstView>)
    requires
        0 <= pos < tokens.len(),
        block_is_plain(items),
    ensures
        block_in_shape(tokens, pos, parse_args_from(tokens, pos, items)),
    decreases tokens.len() - pos, 3nat,
{
    if !is_tok(tokens, pos, TokenView::RParen) && has_next(tokens, pos) {
        lemma_atom(tokens, pos);
        match parse_atom(tokens, pos) {
            Ok((item, after)) => {
                if moved(tokens, pos, after) {
                    lemma_args_from(
                        tokens,
                        skip(tokens, after, TokenView::Comma),
                        items.push(item),
                    );
                }
            },
            Err(_) => {},
        }
    }
}

proof fn lemma_call_args(tokens: Seq<TokenView>, pos: int)
    requires
        0 <= pos < tokens.len(),
    ensures
        block_in_shape(tokens, pos, parse_call_args(tokens, pos)),
    decreases tokens.len() - pos, 4nat,
{
    lemma_args_from(tokens, pos, Seq::empty());
}

proof fn lemma_call(tokens: Seq<TokenView>, pos: int, identifier: Seq<char>)
    requires
        0 <= pos < tokens.len(),
    ensures
        tree_in_shape(tokens, pos, parse_call(tokens, pos, identifier)),
    decreases tokens.len() - pos, 5nat,
{
    lemma_call_args(tokens, skip(tokens, pos, TokenView::LParen));
}

proof fn lemma_run(tokens: Seq<TokenView>, pos: int)
    requires
        0 <= pos < tokens.len(),
    ensures
        tree_in_shape(tokens, pos, parse_run(tokens, pos)),
    decreases tokens.len() - pos, 0nat,
{
    if has_next(tokens, pos) && is_tok(tokens, pos + 1, TokenView::Given) {
        lemma_call_args(tokens, skip(tokens, pos + 2, TokenView::LParen));
    }
    assert(block_is_plain(Seq::<AstView>::empty()));
}

proof fn lemma_block_from(tokens: Seq<TokenView>, pos: int, items: Seq<AstView>)
    requires
        0 <= pos < tokens.len(),
        block_is_plain(items),
    ensures
        block_in_shape(tokens, pos, parse_block_from(tokens, pos, items)),
    decreases tokens.len() - pos, 3nat,
{
    if tokens[pos] != TokenView::RBrace && has_next(tokens, pos) {
        lemma_atom(tokens, pos);
        match parse_atom(tokens, pos) {
            Ok((item, after)) => {
                if moved(tokens, pos, after) {
                    lemma_block_from(tokens, after, items.push(item));
                }
            },
            Err(_) => {},
        }
    }
}

proof fn lemma_proc_body(tokens: Seq<TokenView>, pos: int)
    requires
        0 <= pos < tokens.len(),
    ensures
        block_in_shape(tokens, pos, parse_proc_body(tokens, pos)),
    decreases tokens.len() - pos, 4nat,
{
    if tokens[pos] == TokenView::LBrace && has_next(tokens, pos) {
        lemma_block_from(tokens, pos + 1, Seq::empty());
    }
}

proof fn lemma_params_from(tokens: Seq<TokenView>, pos: int, names: Seq<Seq<char>>)
    requires
        0 <= pos < tokens.len(),
    ensures
        names_in_shape(tokens, pos, parse_params_from(tokens, pos, names)),
    decreases tokens.len() - pos,
{
    match tokens[pos] {
        TokenView::Symbol(name) => {
            if has_next(tokens, pos) {
                lemma_params_from(
                    tokens,
                    skip(tokens, pos + 1, TokenView::Comma),
                    names.push(name),
                );
            }
        },
        _ => {},
    }
}

proof fn lemma_func_args(tokens: Seq<TokenView>, pos: int)
    requires
        0 <= pos < tokens.len(),
    ensures
        names_in_shape(tokens, pos, parse_func_args(tokens, pos)),
{
    if is_tok(tokens, pos, TokenView::Given) {
        lemma_params_from(tokens, skip(tokens, pos + 1, TokenView::LParen), Seq::empty());
    }
}

proof fn lemma_proc(tokens: Seq<TokenView>, pos: int, identifier: Seq<char>)
    requires
        0 <= pos < tokens.len(),
    ensures
        tree_in_shape(tokens, pos, parse_proc(tokens, pos, identifier)),
    decreases tokens.len() - pos, 5nat,
{
    lemma_proc_body(tokens, pos);
    match parse_proc_body(tokens, pos) {
        Ok((_, after_body)) => {
            lemma_func_args(tokens, after_body);
        },
        Err(_) => {},
    }
}

proof fn lemma_set(tokens: Seq<TokenView>, pos: int, identifier: Seq<char>)
    requires
        0 <= pos < tokens.len(),
    ensures
        tree_in_shape(tokens, pos, parse_set(tokens, pos, identifier)),
    decreases tokens.len() - pos, 3nat,
{
    lemma_atom(tokens, pos);
}

proof fn lemma_define(tokens: Seq<TokenView>, pos: int)
    requires
        0 <= pos < tokens.len(),
    ensures
        tree_in_shape(tokens, pos, parse_define(tokens, pos)),
    decreases tokens.len() - pos, 0nat,
{
    match tokens[pos] {
        TokenView::Symbol(identifier) => {
            if has_next(tokens, pos) && is_tok(tokens, pos + 1, TokenView::ToBe) {
                if tokens[pos + 2] == TokenView::LBrace {
                    lemma_proc(tokens, pos + 2, identifier);
                } else {
                    lemma_set(tokens, pos + 2, identifier);
                }
            }
        },
        _ => {},
    }
}

proof fn lemma_do(tokens: Seq<TokenView>, pos: int)
    requires
        0 <= pos < tokens.len(),
    ensures
        tree_in_shape(tokens, pos, parse_do(tokens, pos)),
    decreases tokens.len() - pos, 5nat,
{
    lemma_atom(tokens, pos);
    match parse_atom(tokens, pos) {
        Ok((_, after_count)) => {
            if kept(tokens, pos, after_count) {
                match tokens[after_count] {
                    TokenView::Symbol(_) => {
                        if has_next(tokens, after_count) {
                            lemma_proc_body(tokens, after_count + 1);
                        }
                    },
                    _ => {
                        lemma_proc_body(tokens, after_count);
                    },
                }
            }
        },
        Err(_) => {},
    }
}

/// Whether a result of parsing `else if` branches from `pos` is in shape.
pub open spec fn branches_in_shape(
    tokens: Seq<TokenView>,
    pos: int,
    result: Parsed<(Seq<IfView>, bool)>,
) -> bool {
    match result {
        Ok(((branches, block_follows), after)) => {
            &&& kept(tokens, pos, after)
            &&& branches_are_plain(branches)
            &&& block_follows ==> tokens[after] == TokenView::LBrace
        },
        Err(_) => true,
    }
}

proof fn lemma_elifs_from(tokens: Seq<TokenView>, pos: int, branches: Seq<IfView>)
    requires
        0 <= pos < tokens.len(),
        branches_are_plain(branches),
    ensures
        branches_in_shape(tokens, pos, parse_elifs_from(tokens, pos, branches)),
    decreases tokens.len() - pos, 0nat,
{
    if is_tok(tokens, pos, TokenView::Else) && !is_tok(tokens, pos + 1, TokenView::LBrace)
        && tokens[pos + 1] == TokenView::If && has_next(tokens, pos + 1) {
        lemma_atom(tokens, pos + 2);
        match parse_atom(tokens, pos + 2) {
            Ok((conditional, after_condition)) => {
                if moved(tokens, pos, after_condition) {
                    lemma_proc_body(tokens, after_condition);
                    match parse_proc_body(tokens, after_condition) {
                        Ok((body, after)) => {
                            if moved(tokens, pos, after) {
                                lemma_elifs_from(
                                    tokens,
                                    after,
                                    branches.push(
                                        IfView { conditional: Box::new(conditional), body },
                                    ),
                                );
                            }
                        },
                        Err(_) => {},
                    }
                }
            },
            Err(_) => {},
        }
    }
}

proof fn lemma_if(tokens: Seq<TokenView>, pos: int)
    requires
        0 <= pos < tokens.len(),
    ensures
        tree_in_shape(tokens, pos, parse_if(tokens, pos)),
    decreases tokens.len() - pos, 6nat,
{
    lemma_atom(tokens, pos);
    match parse_atom(tokens, pos) {
        Ok((conditional, after_condition)) => {
            if kept(tokens, pos, after_condition) {
                lemma_proc_body(tokens, after_condition);
                match parse_proc_body(tokens, after_condition) {
                    Ok((body, after_body)) => {
                        if kept(tokens, pos, after_body) {
                            if is_tok(tokens, after_body, TokenView::Else) {
                                lemma_elifs_from(tokens, after_body, Seq::empty());
                            }
                            match parse_elif(tokens, after_body) {
                                Ok(((elifs, block_follows), after_elifs)) => {
                                    if kept(tokens, pos, after_elifs) {
                                        if block_follows {
                                            lemma_proc_body(tokens, after_elifs);
                                        }
                                        match parse_el(tokens, after_elifs, block_follows) {
                                            Ok((el, _)) => {
                                                let this = IfView {
                                                    conditional: Box::new(conditional),
                                                    body,
                                                };
                                                assert(branch_is_plain(this));
                                                assert(is_plain(
                                                    AstView::conditional(this, elifs, el),
                                                ));
                                            },
                                            Err(_) => {},
                                        }
                                    }
                                },
                                Err(_) => {},
                            }
                        }
                    },
                    Err(_) => {},
                }
            }
        },
        Err(_) => {},
    }
}

/// Every statement moves the cursor: where a token follows the one at
/// `pos`, a statement parsed from `pos` leaves the cursor further on and
/// inside the tokens, and its tree holds no program node.
pub proof fn lemma_statement_in_shape(tokens: Seq<TokenView>, pos: int)
    requires
        0 <= pos < tokens.len(),
    ensures
        match parse_atom(tokens, pos) {
            Ok((tree, after)) => {
                &&& is_plain(tree)
                &&& kept(tokens, pos, after)
                &&& has_next(tokens, pos) ==> moved(tokens, pos, after)
            },
            Err(_) => true,
        },
{
    lemma_atom(tokens, pos);
}

proof fn lemma_items_from(tokens: Seq<TokenView>, pos: int, items: Seq<AstView>)
    requires
        0 <= pos,
        block_is_plain(items),
    ensures
        match parse_items_from(tokens, pos, items) {
            Ok(tree) => tree is Program && block_is_plain(tree->program),
            Err(_) => true,
        },
    decreases tokens.len() - pos,
{
    if has_next(tokens, pos) {
        lemma_atom(tokens, pos);
        match parse_atom(tokens, pos) {
            Ok((item, after)) => {
                if moved(tokens, pos, after) {
                    lemma_items_from(
                        tokens,
                        skip(tokens, after, TokenView::Semicolon),
                        items.push(item),
                    );
                }
            },
            Err(_) => {},
        }
    }
}

/// What the grammar yields for a token sequence is a program node, and
/// no program node stands inside it.
pub proof fn lemma_program_in_shape(tokens: Seq<TokenView>)
    ensures
        match parse_program(tokens) {
            Ok(tree) => tree is Program && block_is_plain(tree->program),
            Err(_) => true,
        },
{
    lemma_items_from(tokens, 0, Seq::empty());
}

} // verus!
