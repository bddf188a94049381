//! Binary operators and their precedence.

use vstd::prelude::*;
use vstd::string::*;

verus! {

/// A binary operator of the language.
#[derive(Copy, Clone, PartialEq, Eq, Debug, Structural)]
pub enum BinaryOperator {
    Add,
    Subtract,
    Divide,
    Multiply,
    Assign,
    IsEq,
    IsNEq,
}

impl BinaryOperator {
    /// How tightly the operator binds: a larger number binds tighter.
    pub open spec fn precedence(self) -> nat {
        match self {
            BinaryOperator::Assign => 0,
            BinaryOperator::IsNEq | BinaryOperator::IsEq => 1,
            BinaryOperator::Add | BinaryOperator::Subtract => 10,
            BinaryOperator::Multiply | BinaryOperator::Divide => 20,
        }
    }

    /// The text the operator is rendered as in diagnostics.
    pub open spec fn symbol(self) -> Seq<char> {
        match self {
            BinaryOperator::Add => "+"@,
            BinaryOperator::Subtract => "-"@,
            BinaryOperator::Multiply => "*"@,
            BinaryOperator::Divide => "/"@,
            BinaryOperator::Assign => "="@,
            BinaryOperator::IsEq => "=="@,
            BinaryOperator::IsNEq => "!="@,
        }
    }

    pub fn get_precedence(&self) -> (precedence: u8)
        ensures
            precedence as nat == self.precedence(),
    {
        match self {
            BinaryOperator::Assign => 0,
            BinaryOperator::IsNEq | BinaryOperator::IsEq => 1,
            BinaryOperator::Add | BinaryOperator::Subtract => 10,
            BinaryOperator::Multiply | BinaryOperator::Divide => 20,
        }
    }

    pub fn to_string(&self) -> (text: String)
        ensures
            text@ == self.symbol(),
    {
        let text: &str = match self {
            BinaryOperator::Add => "+",
            BinaryOperator::Subtract => "-",
            BinaryOperator::Multiply => "*",
            BinaryOperator::Divide => "/",
            BinaryOperator::Assign => "=",
            BinaryOperator::IsEq => "==",
            BinaryOperator::IsNEq => "!=",
        };
        String::from_str(text)
    }
}

} // verus!
