//! Runtime values and the operators defined on them.

use vstd::prelude::*;
use vstd::string::*;
use crate::types::ast::FunctionBody;
use crate::types::ast::FunctionView;
use crate::types::error::NotImplemented;
use crate::types::render::block_text;
use crate::types::render::names_text;
use crate::types::render::render_block;
use crate::types::render::render_names;
use crate::types::text::bool_text;
use crate::types::text::bool_to_string;
use crate::types::text::decimal_int;
use crate::types::text::i32_to_string;

verus! {

/// A runtime value.
#[derive(Debug, PartialEq, Eq)]
pub enum PrimitiveValue {
    Str(String),
    Num(i32),
    Bool(bool),
    Function(FunctionBody),
}

/// The mathematical value of a [`PrimitiveValue`].
pub enum ValueView {
    Str(Seq<char>),
    Num(i32),
    Bool(bool),
    Function(FunctionView),
}

impl View for PrimitiveValue {
    type V = ValueView;

    open spec fn view(&self) -> ValueView {
        match self {
            PrimitiveValue::Str(text) => ValueView::Str(text@),
            PrimitiveValue::Num(number) => ValueView::Num(*number),
            PrimitiveValue::Bool(truth) => ValueView::Bool(*truth),
            PrimitiveValue::Function(function) => ValueView::Function(function@),
        }
    }
}

/// The sum of two 32-bit integers, wrapped around on overflow.
pub open spec fn wrapping_sum(a: i32, b: i32) -> i32 {
    if a + b > i32::MAX {
        (a + b - 0x1_0000_0000) as i32
    } else if a + b < i32::MIN {
        (a + b + 0x1_0000_0000) as i32
    } else {
        (a + b) as i32
    }
}

/// The difference of two 32-bit integers, wrapped around on overflow.
pub open spec fn wrapping_difference(a: i32, b: i32) -> i32 {
    if a - b > i32::MAX {
        (a - b - 0x1_0000_0000) as i32
    } else if a - b < i32::MIN {
        (a - b + 0x1_0000_0000) as i32
    } else {
        (a - b) as i32
    }
}

/// The two's-complement 32-bit integer congruent to `n` modulo 2^32.
pub open spec fn wrap_i32(n: int) -> i32 {
    let low = n % 0x1_0000_0000;
    if low > i32::MAX {
        (low - 0x1_0000_0000) as i32
    } else {
        low as i32
    }
}

/// The product of two 32-bit integers, wrapped around on overflow.
pub open spec fn wrapping_product(a: i32, b: i32) -> i32 {
    wrap_i32(a * b)
}

impl ValueView {
    /// What the value prints as.
    pub open spec fn text(self) -> Seq<char> {
        match self {
            ValueView::Bool(truth) => bool_text(truth),
            ValueView::Str(text) => text,
            ValueView::Num(number) => decimal_int(number as int),
            ValueView::Function(function) => "("@ + names_text(function.args) + "):{"@
                + block_text(function.body) + "}"@,
        }
    }

    /// The error that an operator undefined on `self` and `other` reports.
    pub open spec fn undefined_with(self, other: ValueView) -> (Seq<char>, Seq<char>) {
        (self.text(), other.text())
    }

    /// `self + other`: integer addition or string concatenation.
    pub open spec fn sum(self, other: ValueView) -> Result<ValueView, (Seq<char>, Seq<char>)> {
        match (self, other) {
            (ValueView::Str(a), ValueView::Str(b)) => Ok(ValueView::Str(a + b)),
            (ValueView::Num(a), ValueView::Num(b)) => Ok(ValueView::Num(wrapping_sum(a, b))),
            _ => Err(self.undefined_with(other)),
        }
    }

    /// `self - other` on integers.
    pub open spec fn difference(self, other: ValueView) -> Result<
        ValueView,
        (Seq<char>, Seq<char>),
    > {
        match (self, other) {
            (ValueView::Num(a), ValueView::Num(b)) => Ok(
                ValueView::Num(wrapping_difference(a, b)),
            ),
            _ => Err(self.undefined_with(other)),
        }
    }

    /// `self * other` on integers.
    pub open spec fn product(self, other: ValueView) -> Result<ValueView, (Seq<char>, Seq<char>)> {
        match (self, other) {
            (ValueView::Num(a), ValueView::Num(b)) => Ok(ValueView::Num(wrapping_product(a, b))),
            _ => Err(self.undefined_with(other)),
        }
    }

    /// Whether `self` and `other` are the same integer, truth value or string.
    pub open spec fn equality(self, other: ValueView) -> Result<ValueView, (Seq<char>, Seq<char>)> {
        match (self, other) {
            (ValueView::Num(a), ValueView::Num(b)) => Ok(ValueView::Bool(a == b)),
            (ValueView::Bool(a), ValueView::Bool(b)) => Ok(ValueView::Bool(a == b)),
            (ValueView::Str(a), ValueView::Str(b)) => Ok(ValueView::Bool(a == b)),
            _ => Err(self.undefined_with(other)),
        }
    }

    /// Logical negation; anything but a truth value negates to `false`.
    pub open spec fn negation(self) -> ValueView {
        match self {
            ValueView::Bool(truth) => ValueView::Bool(!truth),
            _ => ValueView::Bool(false),
        }
    }
}

/// Equality is defined on two integers, two truth values and two strings
/// and on nothing else: across kinds it is an error, never `false`.
pub proof fn lemma_equality_needs_same_kind(left: ValueView, right: ValueView)
    requires
        !(left is Num && right is Num),
        !(left is Bool && right is Bool),
        !(left is Str && right is Str),
    ensures
        left.equality(right) == Err::<ValueView, (Seq<char>, Seq<char>)>(
            left.undefined_with(right),
        ),
{
}

/// Whether an operator result is the value or the error that `model` names.
pub open spec fn operator_result_is(
    result: Result<PrimitiveValue, NotImplemented>,
    model: Result<ValueView, (Seq<char>, Seq<char>)>,
) -> bool {
    match (result, model) {
        (Ok(value), Ok(expected)) => value@ == expected,
        (Err(error), Err(expected)) => error@ == expected,
        _ => false,
    }
}

impl Clone for PrimitiveValue {
    fn clone(&self) -> (copy: PrimitiveValue)
        ensures
            copy@ == self@,
    {
        match self {
            PrimitiveValue::Str(text) => PrimitiveValue::Str(text.clone()),
            PrimitiveValue::Num(number) => PrimitiveValue::Num(*number),
            PrimitiveValue::Bool(truth) => PrimitiveValue::Bool(*truth),
            PrimitiveValue::Function(function) => PrimitiveValue::Function(function.clone()),
        }
    }
}

impl PrimitiveValue {
    /// What the value prints as.
    pub fn to_string(&self) -> (text: String)
        ensures
            text@ == self@.text(),
    {
        match self {
            PrimitiveValue::Bool(truth) => bool_to_string(*truth),
            PrimitiveValue::Str(text) => text.clone(),
            PrimitiveValue::Num(number) => i32_to_string(*number),
            PrimitiveValue::Function(function) => {
                let mut text = String::from_str("(");
                let args = render_names(&function.args);
                text.append(args.as_str());
                text.append("):{");
                let body = render_block(&function.body);
                text.append(body.as_str());
                text.append("}");
                text
            },
        }
    }

    pub fn add(self, other: PrimitiveValue) -> (result: Result<PrimitiveValue, NotImplemented>)
        ensures
            operator_result_is(result, self@.sum(other@)),
    {
        let err_val = NotImplemented::from(&self, &other);
        match self {
            PrimitiveValue::Str(a) => match other {
                PrimitiveValue::Str(b) => Ok(PrimitiveValue::Str(a.concat(b.as_str()))),
                _ => Err(err_val),
            },
            PrimitiveValue::Num(a) => match other {
                PrimitiveValue::Num(b) => Ok(PrimitiveValue::Num(a.wrapping_add(b))),
                _ => Err(err_val),
            },
            _ => Err(err_val),
        }
    }

    pub fn subtract(self, other: PrimitiveValue) -> (result: Result<PrimitiveValue, NotImplemented>)
        ensures
            operator_result_is(result, self@.difference(other@)),
    {
        let err_val = NotImplemented::from(&self, &other);
        match self {
            PrimitiveValue::Num(a) => match other {
                PrimitiveValue::Num(b) => Ok(PrimitiveValue::Num(a.wrapping_sub(b))),
                _ => Err(err_val),
            },
            _ => Err(err_val),
        }
    }

    pub fn multiply(self, other: PrimitiveValue) -> (result: Result<PrimitiveValue, NotImplemented>)
        ensures
            operator_result_is(result, self@.product(other@)),
    {
        let err_val = NotImplemented::from(&self, &other);
        match self {
            PrimitiveValue::Num(a) => match other {
                PrimitiveValue::Num(b) => Ok(PrimitiveValue::Num(a.wrapping_mul(b))),
                _ => Err(err_val),
            },
            _ => Err(err_val),
        }
    }

    pub fn is_equal(self, other: PrimitiveValue) -> (result: Result<PrimitiveValue, NotImplemented>)
        ensures
            operator_result_is(result, self@.equality(other@)),
    {
        let err_val = NotImplemented::from(&self, &other);
        match self {
            PrimitiveValue::Num(a) => match other {
                PrimitiveValue::Num(b) => Ok(PrimitiveValue::Bool(a == b)),
                _ => Err(err_val),
            },
            PrimitiveValue::Bool(a) => match other {
                PrimitiveValue::Bool(b) => Ok(PrimitiveValue::Bool(a == b)),
                _ => Err(err_val),
            },
            PrimitiveValue::Str(a) => match other {
                PrimitiveValue::Str(b) => Ok(PrimitiveValue::Bool(a == b)),
                _ => Err(err_val),
            },
            _ => Err(err_val),
        }
    }

    /// Asserts that the value is the truth value `false`: a call is
    /// accepted only where it is proved to be.
    pub fn assert_false(&self)
        requires
            self@ == ValueView::Bool(false),
    {
        let holds = PrimitiveValue::check(core::ops::Not::not(self.clone()));
        assert(holds);
    }

    /// Asserts that the value is the truth value `true`: a call is
    /// accepted only where it is proved to be.
    pub fn assert_true(&self)
        requires
            self@ == ValueView::Bool(true),
    {
        let holds = PrimitiveValue::check(self.clone());
        assert(holds);
    }

    /// Whether `a` is the truth value `true`.
    pub fn check(a: PrimitiveValue) -> (holds: bool)
        ensures
            holds == (a@ == ValueView::Bool(true)),
    {
        if let PrimitiveValue::Bool(result) = a {
            result
        } else {
            false
        }
    }
}

impl vstd::std_specs::ops::NotSpecImpl for PrimitiveValue {
    open spec fn obeys_not_spec() -> bool {
        true
    }

    open spec fn not_req(self) -> bool {
        true
    }

    open spec fn not_spec(self) -> PrimitiveValue {
        match self {
            PrimitiveValue::Bool(truth) => PrimitiveValue::Bool(!truth),
            _ => PrimitiveValue::Bool(false),
        }
    }
}

impl core::ops::Not for PrimitiveValue {
    type Output = PrimitiveValue;

    fn not(self) -> (negated: PrimitiveValue)
        ensures
            negated@ == self@.negation(),
    {
        if let PrimitiveValue::Bool(val) = self {
            PrimitiveValue::Bool(!val)
        } else {
            PrimitiveValue::Bool(false)
        }
    }
}

} // verus!
