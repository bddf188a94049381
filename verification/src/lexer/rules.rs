//! What lexing means: the rules that say which lexeme stands at the start
//! of a text, and the scan of a whole text by them.

use vstd::prelude::*;
use crate::lexer::pattern::COMMENT_PATTERN;
use crate::lexer::pattern::NUMBER_PATTERN;
use crate::lexer::pattern::STRING_PATTERN;
use crate::lexer::pattern::SYMBOL_PATTERN;
use crate::lexer::pattern::TYPE_PATTERN;
use crate::lexer::pattern::regex_find;
use crate::types::binary_operator::BinaryOperator;
use crate::types::token::TokenView;

verus! {

/// What one step of the lexer consumes: `length` characters, which stand
/// for `token`, or for nothing where they are a comment or white space.
pub struct LexemeView {
    pub token: Option<TokenView>,
    pub length: nat,
}

/// The lexeme of `length` characters that stand for `token`.
pub open spec fn emit(token: TokenView, length: nat) -> Option<LexemeView> {
    Some(LexemeView { token: Some(token), length })
}

/// The token of a punctuation or operator character.
pub open spec fn punctuation(c: char) -> Option<TokenView> {
    if c == '+' {
        Some(TokenView::Operator(BinaryOperator::Add))
    } else if c == '-' {
        Some(TokenView::Operator(BinaryOperator::Subtract))
    } else if c == '*' {
        Some(TokenView::Operator(BinaryOperator::Multiply))
    } else if c == '/' {
        Some(TokenView::Operator(BinaryOperator::Divide))
    } else if c == ';' {
        Some(TokenView::Semicolon)
    } else if c == '}' {
        Some(TokenView::RBrace)
    } else if c == '{' {
        Some(TokenView::LBrace)
    } else if c == '(' {
        Some(TokenView::LParen)
    } else if c == ')' {
        Some(TokenView::RParen)
    } else if c == ',' {
        Some(TokenView::Comma)
    } else if c == '=' {
        Some(TokenView::Operator(BinaryOperator::Assign))
    } else {
        None
    }
}

/// Whether `c` is a space, a newline or a tab.
pub open spec fn is_space(c: char) -> bool {
    c == ' ' || c == '\n' || c == '\t'
}

/// The keyword that `rest` starts with, if any. A keyword is recognised
/// wherever the text starts with it, whatever follows.
pub open spec fn keyword_lexeme(rest: Seq<char>) -> Option<LexemeView> {
    if "throw"@.is_prefix_of(rest) {
        emit(TokenView::Throw, 5)
    } else if "do"@.is_prefix_of(rest) {
        emit(TokenView::Do, 2)
    } else if "times"@.is_prefix_of(rest) {
        emit(TokenView::Times, 5)
    } else if "run"@.is_prefix_of(rest) {
        emit(TokenView::Run, 3)
    } else if "given"@.is_prefix_of(rest) {
        emit(TokenView::Given, 5)
    } else if "return"@.is_prefix_of(rest) {
        emit(TokenView::Return, 6)
    } else if "true"@.is_prefix_of(rest) {
        emit(TokenView::Bool(true), 4)
    } else if "false"@.is_prefix_of(rest) {
        emit(TokenView::Bool(false), 5)
    } else if "print"@.is_prefix_of(rest) {
        emit(TokenView::Print, 5)
    } else if "define"@.is_prefix_of(rest) {
        emit(TokenView::Define, 6)
    } else if "if"@.is_prefix_of(rest) {
        emit(TokenView::If, 2)
    } else if "else"@.is_prefix_of(rest) {
        emit(TokenView::Else, 4)
    } else if "with"@.is_prefix_of(rest) {
        emit(TokenView::ToBe, 4)
    } else if "to be"@.is_prefix_of(rest) {
        emit(TokenView::ToBe, 5)
    } else {
        None
    }
}

/// The lexeme that the fixed rules find at the start of `rest`: the
/// two-character operators, then punctuation, then white space, then the
/// keywords.
pub open spec fn fixed_lexeme(rest: Seq<char>) -> Option<LexemeView> {
    if rest.len() == 0 {
        None
    } else if "is"@.is_prefix_of(rest) {
        emit(TokenView::Operator(BinaryOperator::IsEq), 2)
    } else if "!="@.is_prefix_of(rest) {
        emit(TokenView::Operator(BinaryOperator::IsNEq), 2)
    } else if punctuation(rest[0]) is Some {
        emit(punctuation(rest[0])->Some_0, 1)
    } else if is_space(rest[0]) {
        Some(LexemeView { token: None, length: 1 })
    } else {
        keyword_lexeme(rest)
    }
}

/// The value of the decimal digit `c`.
pub open spec fn digit_value(c: char) -> int {
    c as int - '0' as int
}

/// Whether `c` is one of the digits `0` to `9`.
pub open spec fn is_digit(c: char) -> bool {
    '0' <= c <= '9'
}

/// Whether `digits` is one or more of the digits `0` to `9`.
pub open spec fn is_digits(digits: Seq<char>) -> bool {
    digits.len() > 0 && forall|i: int| 0 <= i < digits.len() ==> is_digit(#[trigger] digits[i])
}

/// The number that the decimal digits `digits` stand for.
pub open spec fn digits_value(digits: Seq<char>) -> int
    decreases digits.len(),
{
    if digits.len() == 0 {
        0
    } else {
        digits_value(digits.drop_last()) * 10 + digit_value(digits.last())
    }
}

/// The number that a numeral stands for: decimal digits with an optional
/// minus sign before them. `None` where `text` is no numeral.
pub open spec fn numeral_value(text: Seq<char>) -> Option<int> {
    if text.len() > 0 && text[0] == '-' {
        if is_digits(text.skip(1)) {
            Some(-digits_value(text.skip(1)))
        } else {
            None
        }
    } else if is_digits(text) {
        Some(digits_value(text))
    } else {
        None
    }
}

/// The number token of the matched text `matched`: `None` where it is no
/// numeral or its value is no signed 32-bit integer.
pub open spec fn number_lexeme(matched: Seq<char>) -> Option<LexemeView> {
    match numeral_value(matched) {
        Some(value) if i32::MIN <= value <= i32::MAX => emit(
            TokenView::Number(value as i32),
            matched.len(),
        ),
        _ => None,
    }
}

/// The lexeme of a comment with the text `matched`: its characters stand
/// for nothing.
pub open spec fn comment_lexeme(matched: Seq<char>) -> Option<LexemeView> {
    if matched.len() == 0 {
        None
    } else {
        Some(LexemeView { token: None, length: matched.len() })
    }
}

/// The symbol token of the matched text `matched`.
pub open spec fn symbol_lexeme(matched: Seq<char>) -> Option<LexemeView> {
    if matched.len() == 0 {
        None
    } else {
        emit(TokenView::Symbol(matched), matched.len())
    }
}

/// The type token of the matched text `matched`: the text without the
/// colon and the space that it starts with.
pub open spec fn type_lexeme(matched: Seq<char>) -> Option<LexemeView> {
    if matched.len() < 2 {
        None
    } else {
        emit(TokenView::Type(matched.skip(2)), matched.len())
    }
}

/// The string token of the matched text `matched`: the text without the
/// quotes around it.
pub open spec fn string_lexeme(matched: Seq<char>) -> Option<LexemeView> {
    if matched.len() < 2 {
        None
    } else {
        emit(TokenView::Str(matched.subrange(1, matched.len() - 1)), matched.len())
    }
}

/// The lexeme at the start of `rest`, by the first rule that applies: a
/// comment, a fixed lexeme, a number, a symbol, a type annotation, a
/// string. `None` where no rule applies.
pub open spec fn lexeme_at(rest: Seq<char>) -> Option<LexemeView> {
    match regex_find(COMMENT_PATTERN@, rest) {
        Some(matched) => comment_lexeme(matched),
        None => match fixed_lexeme(rest) {
            Some(lexeme) => Some(lexeme),
            None => match regex_find(NUMBER_PATTERN@, rest) {
                Some(matched) => number_lexeme(matched),
                None => match regex_find(SYMBOL_PATTERN@, rest) {
                    Some(matched) => symbol_lexeme(matched),
                    None => match regex_find(TYPE_PATTERN@, rest) {
                        Some(matched) => type_lexeme(matched),
                        None => match regex_find(STRING_PATTERN@, rest) {
                            Some(matched) => string_lexeme(matched),
                            None => None,
                        },
                    },
                },
            },
        },
    }
}

/// Scans `source` from the character at `index` on, after `tokens`: the
/// tokens up to the first character that starts no lexeme, and the index
/// of that character, or the length of `source` where there is none.
pub open spec fn scan_from(source: Seq<char>, index: int, tokens: Seq<TokenView>) -> (
    Seq<TokenView>,
    int,
)
    decreases source.len() - index,
{
    if index < 0 || index >= source.len() {
        (tokens, index)
    } else {
        match lexeme_at(source.skip(index)) {
            Some(lexeme) if 0 < lexeme.length <= source.len() - index => scan_from(
                source,
                index + lexeme.length,
                match lexeme.token {
                    Some(token) => tokens.push(token),
                    None => tokens,
                },
            ),
            _ => (tokens, index),
        }
    }
}

/// The tokens of the part of `source` that can be lexed, and where that
/// part ends.
pub open spec fn scan_text(source: Seq<char>) -> (Seq<TokenView>, int) {
    scan_from(source, 0, Seq::empty())
}

/// The tokens of `source`; `None` where some character starts no lexeme.
pub open spec fn lex(source: Seq<char>) -> Option<Seq<TokenView>> {
    if scan_text(source).1 >= source.len() {
        Some(scan_text(source).0)
    } else {
        None
    }
}

} // verus!
