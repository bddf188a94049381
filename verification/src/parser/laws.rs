//! How the grammar groups chains of binary operators.

use vstd::prelude::*;
use crate::parser::grammar::maybe_binary;
use crate::parser::grammar::parse_atom;
use crate::parser::grammar::parse_items_from;
use crate::parser::grammar::parse_operand;
use crate::parser::grammar::parse_primary;
use crate::parser::grammar::parse_program;
use crate::parser::grammar::skip;
use crate::types::ast::AstView;
use crate::types::binary_operator::BinaryOperator;
use crate::types::error::ParseError;
use crate::types::token::TokenView;

verus! {

/// Whether `token` is an operator that an expression takes in: one that
/// binds tighter than assignment.
pub open spec fn binds(token: TokenView) -> bool {
    token matches TokenView::Operator(operator) && operator.precedence() > 0
}

/// The node of the number literal `value`.
pub open spec fn number(value: i32) -> AstView {
    AstView::Number { value }
}

/// Whether the five tokens from `pos` on are `a op1 b op2 c`, three
/// number literals with an operator between each two.
pub open spec fn is_chain(
    tokens: Seq<TokenView>,
    pos: int,
    a: i32,
    op1: BinaryOperator,
    b: i32,
    op2: BinaryOperator,
    c: i32,
) -> bool {
    &&& 0 <= pos
    &&& pos + 4 < tokens.len()
    &&& tokens[pos] == TokenView::Number(a)
    &&& tokens[pos + 1] == TokenView::Operator(op1)
    &&& tokens[pos + 2] == TokenView::Number(b)
    &&& tokens[pos + 3] == TokenView::Operator(op2)
    &&& tokens[pos + 4] == TokenView::Number(c)
}

/// Nothing is folded into `left` where the token under the cursor is no
/// operator that binds tighter than assignment.
proof fn lemma_no_tail(tokens: Seq<TokenView>, pos: int, left: AstView, bound: nat)
    requires
        0 <= pos < tokens.len(),
        !binds(tokens[pos]),
    ensures
        maybe_binary(tokens, pos, left, bound) == Ok::<(AstView, int), ParseError>((left, pos)),
{
}

/// A number literal that is followed by a token is a primary of its own.
proof fn lemma_number(tokens: Seq<TokenView>, pos: int, value: i32)
    requires
        0 <= pos,
        pos + 1 < tokens.len(),
        tokens[pos] == TokenView::Number(value),
    ensures
        parse_primary(tokens, pos) == Ok::<(AstView, int), ParseError>((number(value), pos + 1)),
{
}

/// Precedence: in `a op1 b op2 c`, where `op2` binds tighter than `op1`
/// and `op1` tighter than assignment, `op2` takes its operands first: the
/// chain is `a op1 (b op2 c)`. The chain is followed by a token that is
/// no operator taken into an expression.
pub proof fn lemma_precedence(
    tokens: Seq<TokenView>,
    pos: int,
    a: i32,
    op1: BinaryOperator,
    b: i32,
    op2: BinaryOperator,
    c: i32,
)
    requires
        is_chain(tokens, pos, a, op1, b, op2, c),
        pos + 5 < tokens.len(),
        !binds(tokens[pos + 5]),
        0 < op1.precedence() < op2.precedence(),
    ensures
        parse_atom(tokens, pos) == Ok::<(AstView, int), ParseError>(
            (AstView::binary(op1, number(a), AstView::binary(op2, number(b), number(c))), pos + 5),
        ),
{
    let inner = AstView::binary(op2, number(b), number(c));
    let outer = AstView::binary(op1, number(a), inner);
    // the last literal is the right operand of the second operator
    lemma_number(tokens, pos + 4, c);
    lemma_no_tail(tokens, pos + 5, number(c), op2.precedence());
    assert(parse_operand(tokens, pos + 4, op2.precedence()) == Ok::<(AstView, int), ParseError>(
        (number(c), pos + 5),
    ));
    // the second operator binds tighter than the first, so the first operator's
    // right operand takes it in
    lemma_no_tail(tokens, pos + 5, inner, op1.precedence());
    assert(maybe_binary(tokens, pos + 3, number(b), op1.precedence()) == Ok::<
        (AstView, int),
        ParseError,
    >((inner, pos + 5)));
    lemma_number(tokens, pos + 2, b);
    assert(parse_operand(tokens, pos + 2, op1.precedence()) == Ok::<(AstView, int), ParseError>(
        (inner, pos + 5),
    ));
    // the first operator takes the whole of it
    lemma_no_tail(tokens, pos + 5, outer, 0);
    assert(maybe_binary(tokens, pos + 1, number(a), 0) == Ok::<(AstView, int), ParseError>(
        (outer, pos + 5),
    ));
    lemma_number(tokens, pos, a);
    assert(parse_operand(tokens, pos, 0) == Ok::<(AstView, int), ParseError>((outer, pos + 5)));
}

/// Grouping to the left: in `a op1 b op2 c`, where `op2` binds no tighter
/// than `op1` and both bind tighter than assignment, `op1` takes its
/// operands first: the chain is `(a op1 b) op2 c`. The chain is followed
/// by a token that is no operator taken into an expression.
pub proof fn lemma_groups_left(
    tokens: Seq<TokenView>,
    pos: int,
    a: i32,
    op1: BinaryOperator,
    b: i32,
    op2: BinaryOperator,
    c: i32,
)
    requires
        is_chain(tokens, pos, a, op1, b, op2, c),
        pos + 5 < tokens.len(),
        !binds(tokens[pos + 5]),
        0 < op2.precedence() <= op1.precedence(),
    ensures
        parse_atom(tokens, pos) == Ok::<(AstView, int), ParseError>(
            (AstView::binary(op2, AstView::binary(op1, number(a), number(b)), number(c)), pos + 5),
        ),
{
    let inner = AstView::binary(op1, number(a), number(b));
    let outer = AstView::binary(op2, inner, number(c));
    // the second operator binds no tighter than the first, so the first
    // operator's right operand ends before it
    lemma_number(tokens, pos + 2, b);
    assert(maybe_binary(tokens, pos + 3, number(b), op1.precedence()) == Ok::<
        (AstView, int),
        ParseError,
    >((number(b), pos + 3)));
    assert(parse_operand(tokens, pos + 2, op1.precedence()) == Ok::<(AstView, int), ParseError>(
        (number(b), pos + 3),
    ));
    // the last literal is the right operand of the second operator
    lemma_number(tokens, pos + 4, c);
    lemma_no_tail(tokens, pos + 5, number(c), op2.precedence());
    assert(parse_operand(tokens, pos + 4, op2.precedence()) == Ok::<(AstView, int), ParseError>(
        (number(c), pos + 5),
    ));
    // the second operator takes what the first one made
    lemma_no_tail(tokens, pos + 5, outer, 0);
    assert(maybe_binary(tokens, pos + 3, inner, 0) == Ok::<(AstView, int), ParseError>(
        (outer, pos + 5),
    ));
    assert(maybe_binary(tokens, pos + 1, number(a), 0) == Ok::<(AstView, int), ParseError>(
        (outer, pos + 5),
    ));
    lemma_number(tokens, pos, a);
    assert(parse_operand(tokens, pos, 0) == Ok::<(AstView, int), ParseError>((outer, pos + 5)));
}

/// Left-associativity: operators that bind equally tight, and tighter
/// than assignment, group to the left: `a op1 b op2 c` is
/// `(a op1 b) op2 c`. The chain is followed by a token that is no
/// operator taken into an expression.
pub proof fn lemma_left_associativity(
    tokens: Seq<TokenView>,
    pos: int,
    a: i32,
    op1: BinaryOperator,
    b: i32,
    op2: BinaryOperator,
    c: i32,
)
    requires
        is_chain(tokens, pos, a, op1, b, op2, c),
        pos + 5 < tokens.len(),
        !binds(tokens[pos + 5]),
        op1.precedence() == op2.precedence(),
        op1.precedence() > 0,
    ensures
        parse_atom(tokens, pos) == Ok::<(AstView, int), ParseError>(
            (AstView::binary(op2, AstView::binary(op1, number(a), number(b)), number(c)), pos + 5),
        ),
{
    lemma_groups_left(tokens, pos, a, op1, b, op2, c);
}

/// The statement `a op1 b op2 c ;` as a sequence of tokens.
pub open spec fn chain_statement(a: i32, op1: BinaryOperator, b: i32, op2: BinaryOperator, c: i32)
    -> Seq<TokenView> {
    seq![
        TokenView::Number(a),
        TokenView::Operator(op1),
        TokenView::Number(b),
        TokenView::Operator(op2),
        TokenView::Number(c),
        TokenView::Semicolon,
    ]
}

/// The program of the one statement `tree`.
pub open spec fn program_of(tree: AstView) -> Result<AstView, ParseError> {
    Ok(AstView::Program { program: seq![tree] })
}

/// A chain statement whose chain parses to `tree` is the program of `tree`.
proof fn lemma_chain_statement(
    a: i32,
    op1: BinaryOperator,
    b: i32,
    op2: BinaryOperator,
    c: i32,
    tree: AstView,
)
    requires
        parse_atom(chain_statement(a, op1, b, op2, c), 0) == Ok::<(AstView, int), ParseError>(
            (tree, 5),
        ),
    ensures
        parse_program(chain_statement(a, op1, b, op2, c)) == program_of(tree),
{
    let tokens = chain_statement(a, op1, b, op2, c);
    assert(skip(tokens, 5, TokenView::Semicolon) == 5);
    assert(Seq::<AstView>::empty().push(tree) =~= seq![tree]);
    assert(parse_items_from(tokens, 5, seq![tree]) == Ok::<AstView, ParseError>(
        AstView::Program { program: seq![tree] },
    ));
}

/// Precedence, for a whole program: the statement `a op1 b op2 c ;`,
/// where `op2` binds tighter than `op1` and `op1` tighter than assignment,
/// is the program of the one expression `a op1 (b op2 c)`.
pub proof fn lemma_precedence_statement(
    a: i32,
    op1: BinaryOperator,
    b: i32,
    op2: BinaryOperator,
    c: i32,
)
    requires
        0 < op1.precedence() < op2.precedence(),
    ensures
        parse_program(chain_statement(a, op1, b, op2, c)) == program_of(
            AstView::binary(op1, number(a), AstView::binary(op2, number(b), number(c))),
        ),
{
    let tree = AstView::binary(op1, number(a), AstView::binary(op2, number(b), number(c)));
    lemma_precedence(chain_statement(a, op1, b, op2, c), 0, a, op1, b, op2, c);
    lemma_chain_statement(a, op1, b, op2, c, tree);
}

/// Left-associativity, for a whole program: the statement
/// `a op1 b op2 c ;`, where `op1` and `op2` bind equally tight and tighter
/// than assignment, is the program of the one expression
/// `(a op1 b) op2 c`.
pub proof fn lemma_left_associativity_statement(
    a: i32,
    op1: BinaryOperator,
    b: i32,
    op2: BinaryOperator,
    c: i32,
)
    requires
        op1.precedence() == op2.precedence(),
        op1.precedence() > 0,
    ensures
        parse_program(chain_statement(a, op1, b, op2, c)) == program_of(
            AstView::binary(op2, AstView::binary(op1, number(a), number(b)), number(c)),
        ),
{
    let tree = AstView::binary(op2, AstView::binary(op1, number(a), number(b)), number(c));
    lemma_left_associativity(chain_statement(a, op1, b, op2, c), 0, a, op1, b, op2, c);
    lemma_chain_statement(a, op1, b, op2, c, tree);
}

} // verus!
