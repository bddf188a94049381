//! Tokens: what the lexer produces and the parser consumes.

use vstd::prelude::*;
use vstd::string::*;
use crate::types::binary_operator::BinaryOperator;
use crate::types::text::i32_to_string;
use crate::types::text::decimal_int;
use crate::types::text::bool_to_string;
use crate::types::text::bool_text;

verus! {

/// A lexical token.
#[derive(Debug)]
pub enum Token {
    Symbol(String),
    Type(String),
    Str(String),
    Number(i32),
    Bool(bool),
    Operator(BinaryOperator),
    LParen,
    RParen,
    LBrace,
    RBrace,
    Comma,
    Return,
    Print,
    If,
    Else,
    Do,
    Times,
    Throw,
    Given,
    Define,
    Semicolon,
    ToBe,
    Run,
}

/// The mathematical value of a [`Token`]: payload strings are sequences of
/// characters.
pub enum TokenView {
    Symbol(Seq<char>),
    Type(Seq<char>),
    Str(Seq<char>),
    Number(i32),
    Bool(bool),
    Operator(BinaryOperator),
    LParen,
    RParen,
    LBrace,
    RBrace,
    Comma,
    Return,
    Print,
    If,
    Else,
    Do,
    Times,
    Throw,
    Given,
    Define,
    Semicolon,
    ToBe,
    Run,
}

impl View for Token {
    type V = TokenView;

    open spec fn view(&self) -> TokenView {
        match self {
            Token::Symbol(name) => TokenView::Symbol(name@),
            Token::Type(name) => TokenView::Type(name@),
            Token::Str(value) => TokenView::Str(value@),
            Token::Number(value) => TokenView::Number(*value),
            Token::Bool(value) => TokenView::Bool(*value),
            Token::Operator(operator) => TokenView::Operator(*operator),
            Token::LParen => TokenView::LParen,
            Token::RParen => TokenView::RParen,
            Token::LBrace => TokenView::LBrace,
            Token::RBrace => TokenView::RBrace,
            Token::Comma => TokenView::Comma,
            Token::Return => TokenView::Return,
            Token::Print => TokenView::Print,
            Token::If => TokenView::If,
            Token::Else => TokenView::Else,
            Token::Do => TokenView::Do,
            Token::Times => TokenView::Times,
            Token::Throw => TokenView::Throw,
            Token::Given => TokenView::Given,
            Token::Define => TokenView::Define,
            Token::Semicolon => TokenView::Semicolon,
            Token::ToBe => TokenView::ToBe,
            Token::Run => TokenView::Run,
        }
    }
}

/// The tokens of `tokens`, each as its mathematical value.
pub open spec fn tokens_view(tokens: Seq<Token>) -> Seq<TokenView> {
    Seq::new(tokens.len(), |i: int| tokens[i]@)
}

impl TokenView {
    /// The name of the token's kind.
    pub open spec fn kind_name(self) -> Seq<char> {
        match self {
            TokenView::Symbol(_) => "Symbol"@,
            TokenView::Bool(_) => "Bool"@,
            TokenView::Number(_) => "Number"@,
            TokenView::Type(_) => "Type"@,
            TokenView::Str(_) => "Str"@,
            TokenView::Operator(_) => "Operator"@,
            TokenView::Return => "Return"@,
            TokenView::Comma => "Comma"@,
            TokenView::LBrace => "{"@,
            TokenView::RBrace => "}"@,
            TokenView::LParen => "("@,
            TokenView::RParen => ")"@,
            TokenView::Semicolon => ";"@,
            TokenView::Print => "Print"@,
            TokenView::If => "If"@,
            TokenView::Else => "Else"@,
            TokenView::Do => "Do"@,
            TokenView::Throw => "Throw"@,
            TokenView::Given => "Given"@,
            TokenView::Define => "Define"@,
            TokenView::ToBe => "ToBe"@,
            TokenView::Run => "Run"@,
            TokenView::Times => "Times"@,
        }
    }

    /// The token's payload as text; empty for a token without payload.
    pub open spec fn payload_text(self) -> Seq<char> {
        match self {
            TokenView::Symbol(name) => name,
            TokenView::Type(name) => name,
            TokenView::Number(value) => decimal_int(value as int),
            TokenView::Operator(operator) => operator.symbol(),
            TokenView::Bool(value) => bool_text(value),
            TokenView::Str(value) => value,
            _ => Seq::empty(),
        }
    }
}

impl Token {
    /// The token itself, paired with its payload rendered as text.
    pub fn tuple(&self) -> (pair: (&Token, String))
        ensures
            pair.0 == self,
            pair.1@ == self@.payload_text(),
    {
        match self {
            Token::Symbol(value) => (self, value.clone()),
            Token::Type(value) => (self, value.clone()),
            Token::Number(value) => (self, i32_to_string(*value)),
            Token::Operator(value) => (self, value.to_string()),
            Token::Bool(value) => (self, bool_to_string(*value)),
            Token::Str(value) => (self, value.clone()),
            _ => (self, String::new()),
        }
    }

    /// The name of the token's kind.
    pub fn to_string(&self) -> (name: String)
        ensures
            name@ == self@.kind_name(),
    {
        let name: &str = match self {
            Token::Symbol(_) => "Symbol",
            Token::Bool(_) => "Bool",
            Token::Number(_) => "Number",
            Token::Type(_) => "Type",
            Token::Str(_) => "Str",
            Token::Operator(_) => "Operator",
            Token::Return => "Return",
            Token::Comma => "Comma",
            Token::LBrace => "{",
            Token::RBrace => "}",
            Token::LParen => "(",
            Token::RParen => ")",
            Token::Semicolon => ";",
            Token::Print => "Print",
            Token::If => "If",
            Token::Else => "Else",
            Token::Do => "Do",
            Token::Throw => "Throw",
            Token::Given => "Given",
            Token::Define => "Define",
            Token::ToBe => "ToBe",
            Token::Run => "Run",
            Token::Times => "Times",
        };
        String::from_str(name)
    }
}

impl Clone for Token {
    fn clone(&self) -> (copy: Token)
        ensures
            copy@ == self@,
    {
        match self {
            Token::Symbol(name) => Token::Symbol(name.clone()),
            Token::Type(name) => Token::Type(name.clone()),
            Token::Str(value) => Token::Str(value.clone()),
            Token::Number(value) => Token::Number(*value),
            Token::Bool(value) => Token::Bool(*value),
            Token::Operator(operator) => Token::Operator(*operator),
            Token::LParen => Token::LParen,
            Token::RParen => Token::RParen,
            Token::LBrace => Token::LBrace,
            Token::RBrace => Token::RBrace,
            Token::Comma => Token::Comma,
            Token::Return => Token::Return,
            Token::Print => Token::Print,
            Token::If => Token::If,
            Token::Else => Token::Else,
            Token::Do => Token::Do,
            Token::Times => Token::Times,
            Token::Throw => Token::Throw,
            Token::Given => Token::Given,
            Token::Define => Token::Define,
            Token::Semicolon => Token::Semicolon,
            Token::ToBe => Token::ToBe,
            Token::Run => Token::Run,
        }
    }
}

impl PartialEq for Token {
    fn eq(&self, other: &Token) -> (equal: bool) {
        match (self, other) {
            (Token::Symbol(a), Token::Symbol(b)) => *a == *b,
            (Token::Type(a), Token::Type(b)) => *a == *b,
            (Token::Str(a), Token::Str(b)) => *a == *b,
            (Token::Number(a), Token::Number(b)) => *a == *b,
            (Token::Bool(a), Token::Bool(b)) => *a == *b,
            (Token::Operator(a), Token::Operator(b)) => *a == *b,
            (Token::LParen, Token::LParen) => true,
            (Token::RParen, Token::RParen) => true,
            (Token::LBrace, Token::LBrace) => true,
            (Token::RBrace, Token::RBrace) => true,
            (Token::Comma, Token::Comma) => true,
            (Token::Return, Token::Return) => true,
            (Token::Print, Token::Print) => true,
            (Token::If, Token::If) => true,
            (Token::Else, Token::Else) => true,
            (Token::Do, Token::Do) => true,
            (Token::Times, Token::Times) => true,
            (Token::Throw, Token::Throw) => true,
            (Token::Given, Token::Given) => true,
            (Token::Define, Token::Define) => true,
            (Token::Semicolon, Token::Semicolon) => true,
            (Token::ToBe, Token::ToBe) => true,
            (Token::Run, Token::Run) => true,
            _ => false,
        }
    }
}

impl vstd::std_specs::cmp::PartialEqSpecImpl for Token {
    open spec fn obeys_eq_spec() -> bool {
        true
    }

    open spec fn eq_spec(&self, other: &Token) -> bool {
        self@ == other@
    }
}

impl Eq for Token {

}

} // verus!
