//! The lexer proper: a cursor over the source text and the functions that
//! turn what stands under it into tokens.

use vstd::prelude::*;
use vstd::string::*;
use crate::lexer::pattern::COMMENT_PATTERN;
use crate::lexer::pattern::NUMBER_PATTERN;
use crate::lexer::pattern::STRING_PATTERN;
use crate::lexer::pattern::SYMBOL_PATTERN;
use crate::lexer::pattern::TYPE_PATTERN;
use crate::lexer::pattern::find;
use crate::lexer::pattern::regex_find;
use crate::lexer::rules::LexemeView;
use crate::lexer::rules::comment_lexeme;
use crate::lexer::rules::digit_value;
use crate::lexer::rules::digits_value;
use crate::lexer::rules::fixed_lexeme;
use crate::lexer::rules::is_digit;
use crate::lexer::rules::is_digits;
use crate::lexer::rules::is_space;
use crate::lexer::rules::keyword_lexeme;
use crate::lexer::rules::lex;
use crate::lexer::rules::lexeme_at;
use crate::lexer::rules::number_lexeme;
use crate::lexer::rules::punctuation;
use crate::lexer::rules::scan_from;
use crate::lexer::rules::scan_text;
use crate::lexer::rules::string_lexeme;
use crate::lexer::rules::symbol_lexeme;
use crate::lexer::rules::type_lexeme;
use crate::types::binary_operator::BinaryOperator;
use crate::types::error::TokenError;
use crate::types::token::Token;
use crate::types::token::TokenView;
use crate::types::token::tokens_view;

verus! {

/// What one step of the lexer consumes: `length` characters, which stand
/// for `token`, or for nothing where they are a comment or white space.
pub struct Lexeme {
    pub token: Option<Token>,
    pub length: usize,
}

impl View for Lexeme {
    type V = LexemeView;

    open spec fn view(&self) -> LexemeView {
        LexemeView {
            token: match self.token {
                Some(token) => Some(token@),
                None => None,
            },
            length: self.length as nat,
        }
    }
}

/// The mathematical value of an optional lexeme.
pub open spec fn optional_lexeme_view(lexeme: Option<Lexeme>) -> Option<LexemeView> {
    match lexeme {
        Some(lexeme) => Some(lexeme@),
        None => None,
    }
}

/// Whether `result` is the token sequence, or the failure, that `model`
/// names.
pub open spec fn lexed_is(result: Result<Vec<Token>, TokenError>, model: Option<Seq<TokenView>>)
    -> bool {
    match result {
        Ok(tokens) => model == Some(tokens_view(tokens@)),
        Err(_) => model is None,
    }
}

/// Whether `text`, of `length` characters, starts with `prefix`.
pub fn has_prefix(text: &str, length: usize, prefix: &str) -> (found: bool)
    requires
        length == text@.len(),
    ensures
        found == prefix@.is_prefix_of(text@),
{
    let n: usize = prefix.unicode_len();
    if n > length {
        return false;
    }
    let mut i: usize = 0;
    while i < n
        invariant
            i <= n,
            n == prefix@.len(),
            n <= text@.len(),
            forall|j: int| 0 <= j < i ==> text@[j] == prefix@[j],
        decreases n - i,
    {
        if text.get_char(i) != prefix.get_char(i) {
            return false;
        }
        i += 1;
    }
    assert(prefix@ =~= text@.subrange(0, prefix@.len() as int));
    true
}

/// The token of a punctuation or operator character.
pub fn punctuation_token(c: char) -> (token: Option<Token>)
    ensures
        match token {
            Some(token) => punctuation(c) == Some(token@),
            None => punctuation(c) is None,
        },
{
    match c {
        '+' => Some(Token::Operator(BinaryOperator::Add)),
        '-' => Some(Token::Operator(BinaryOperator::Subtract)),
        '*' => Some(Token::Operator(BinaryOperator::Multiply)),
        '/' => Some(Token::Operator(BinaryOperator::Divide)),
        ';' => Some(Token::Semicolon),
        '}' => Some(Token::RBrace),
        '{' => Some(Token::LBrace),
        '(' => Some(Token::LParen),
        ')' => Some(Token::RParen),
        ',' => Some(Token::Comma),
        '=' => Some(Token::Operator(BinaryOperator::Assign)),
        _ => None,
    }
}

/// The cursor of the lexer: the source text and the index of the next
/// character to look at.
pub struct Position {
    pub index: usize,
    pub text: String,
}

impl Position {
    /// The text from the cursor on.
    pub open spec fn rest(&self) -> Seq<char> {
        self.text@.skip(self.index as int)
    }

    /// Moves the cursor over `n` characters.
    pub fn increment(&mut self, n: usize)
        requires
            old(self).index + n <= usize::MAX,
        ensures
            final(self).index == old(self).index + n,
            final(self).text == old(self).text,
    {
        self.index = self.index + n;
    }

    /// The text from the cursor on.
    pub fn next(&self) -> (rest: &str)
        requires
            self.index <= self.text@.len(),
        ensures
            rest@ == self.rest(),
    {
        let length: usize = self.text.as_str().unicode_len();
        self.text.as_str().substring_char(self.index, length)
    }

    /// Whether the cursor is before the end of the text.
    pub fn has_chars_left(&self) -> (left: bool)
        ensures
            left == (self.index < self.text@.len()),
    {
        self.text.as_str().unicode_len() > self.index
    }

    /// Whether the character under the cursor is `c`.
    pub fn current_char_is(&self, c: char) -> (same: bool)
        ensures
            same == (self.current_char_value() == c),
    {
        self.current_char() == c
    }

    /// Whether the character under the cursor is a space, a newline or a
    /// tab.
    pub fn is_whitespace(&self) -> (space: bool)
        ensures
            space == is_space(self.current_char_value()),
    {
        self.current_char_is(' ') || self.current_char_is('\n') || self.current_char_is('\t')
    }

    /// The character under the cursor; the null character at the end of
    /// the text.
    pub open spec fn current_char_value(&self) -> char {
        if self.index < self.text@.len() {
            self.text@[self.index as int]
        } else {
            '\0'
        }
    }

    /// The character under the cursor; the null character at the end of
    /// the text.
    pub fn current_char(&self) -> (c: char)
        ensures
            c == self.current_char_value(),
    {
        if self.has_chars_left() {
            self.text.as_str().get_char(self.index)
        } else {
            '\0'
        }
    }

    /// The first match of the regular expression `pattern` in the text
    /// from the cursor on.
    pub fn re_find(&self, pattern: &str) -> (found: Option<String>)
        requires
            self.index <= self.text@.len(),
        ensures
            match found {
                Some(part) => regex_find(pattern@, self.rest()) == Some(part@),
                None => regex_find(pattern@, self.rest()) is None,
            },
    {
        find(pattern, self.next())
    }

    /// Whether the text from the cursor on starts with `s`.
    pub fn is_keyword(&self, s: &str) -> (found: bool)
        requires
            self.index <= self.text@.len(),
        ensures
            found == s@.is_prefix_of(self.rest()),
    {
        let rest = self.next();
        has_prefix(rest, rest.unicode_len(), s)
    }

    /// The keyword under the cursor.
    pub fn keyword(&self) -> (lexeme: Option<Lexeme>)
        requires
            self.index <= self.text@.len(),
        ensures
            optional_lexeme_view(lexeme) == keyword_lexeme(self.rest()),
    {
        if self.is_keyword("throw") {
            Some(Lexeme { token: Some(Token::Throw), length: 5 })
        } else if self.is_keyword("do") {
            Some(Lexeme { token: Some(Token::Do), length: 2 })
        } else if self.is_keyword("times") {
            Some(Lexeme { token: Some(Token::Times), length: 5 })
        } else if self.is_keyword("run") {
            Some(Lexeme { token: Some(Token::Run), length: 3 })
        } else if self.is_keyword("given") {
            Some(Lexeme { token: Some(Token::Given), length: 5 })
        } else if self.is_keyword("return") {
            Some(Lexeme { token: Some(Token::Return), length: 6 })
        } else if self.is_keyword("true") {
            Some(Lexeme { token: Some(Token::Bool(true)), length: 4 })
        } else if self.is_keyword("false") {
            Some(Lexeme { token: Some(Token::Bool(false)), length: 5 })
        } else if self.is_keyword("print") {
            Some(Lexeme { token: Some(Token::Print), length: 5 })
        } else if self.is_keyword("define") {
            Some(Lexeme { token: Some(Token::Define), length: 6 })
        } else if self.is_keyword("if") {
            Some(Lexeme { token: Some(Token::If), length: 2 })
        } else if self.is_keyword("else") {
            Some(Lexeme { token: Some(Token::Else), length: 4 })
        } else if self.is_keyword("with") {
            Some(Lexeme { token: Some(Token::ToBe), length: 4 })
        } else if self.is_keyword("to be") {
            Some(Lexeme { token: Some(Token::ToBe), length: 5 })
        } else {
            None
        }
    }

    /// The lexeme that the fixed rules find under the cursor: the
    /// two-character operators, then punctuation, then white space, then
    /// the keywords.
    pub fn fixed(&self) -> (lexeme: Option<Lexeme>)
        requires
            self.index <= self.text@.len(),
        ensures
            optional_lexeme_view(lexeme) == fixed_lexeme(self.rest()),
    {
        if !self.has_chars_left() {
            return None;
        }
        if self.is_keyword("is") {
            return Some(Lexeme { token: Some(Token::Operator(BinaryOperator::IsEq)), length: 2 });
        }
        if self.is_keyword("!=") {
            return Some(Lexeme { token: Some(Token::Operator(BinaryOperator::IsNEq)), length: 2 });
        }
        match punctuation_token(self.current_char()) {
            Some(token) => {
                return Some(Lexeme { token: Some(token), length: 1 });
            },
            None => {},
        }
        if self.is_whitespace() {
            return Some(Lexeme { token: None, length: 1 });
        }
        self.keyword()
    }

    /// The lexeme under the cursor, by the first rule that applies.
    pub fn lexeme(&self) -> (lexeme: Option<Lexeme>)
        requires
            self.index <= self.text@.len(),
        ensures
            optional_lexeme_view(lexeme) == lexeme_at(self.rest()),
    {
        match self.re_find(COMMENT_PATTERN) {
            Some(matched) => {
                return comment_skip(matched.as_str());
            },
            None => {},
        }
        match self.fixed() {
            Some(lexeme) => {
                return Some(lexeme);
            },
            None => {},
        }
        match self.re_find(NUMBER_PATTERN) {
            Some(matched) => {
                return number_token(matched.as_str());
            },
            None => {},
        }
        match self.re_find(SYMBOL_PATTERN) {
            Some(matched) => {
                return symbol_token(matched.as_str());
            },
            None => {},
        }
        match self.re_find(TYPE_PATTERN) {
            Some(matched) => {
                return type_token(matched.as_str());
            },
            None => {},
        }
        match self.re_find(STRING_PATTERN) {
            Some(matched) => string_token(matched.as_str()),
            None => None,
        }
    }
}

/// The digits of a numeral are worth at least as much as the digits
/// before its last one.
proof fn lemma_digits_value_grows(digits: Seq<char>, k: int)
    requires
        0 <= k <= digits.len(),
        forall|i: int| 0 <= i < digits.len() ==> is_digit(#[trigger] digits[i]),
    ensures
        0 <= digits_value(digits.take(k)) <= digits_value(digits),
    decreases digits.len() - k,
{
    if k == digits.len() {
        assert(digits.take(k) =~= digits);
        lemma_digits_value_positive(digits);
    } else {
        lemma_digits_value_grows(digits, k + 1);
        assert(digits.take(k + 1).drop_last() =~= digits.take(k));
        lemma_digits_value_positive(digits.take(k));
    }
}

/// A numeral is worth no less than zero.
proof fn lemma_digits_value_positive(digits: Seq<char>)
    requires
        forall|i: int| 0 <= i < digits.len() ==> is_digit(#[trigger] digits[i]),
    ensures
        0 <= digits_value(digits),
    decreases digits.len(),
{
    if digits.len() > 0 {
        lemma_digits_value_positive(digits.drop_last());
    }
}

/// The value of the decimal digit `c`, if it is one.
pub fn digit_of(c: char) -> (value: Option<i64>)
    ensures
        match value {
            Some(value) => is_digit(c) && value == digit_value(c),
            None => !is_digit(c),
        },
{
    if c == '0' {
        Some(0)
    } else if c == '1' {
        Some(1)
    } else if c == '2' {
        Some(2)
    } else if c == '3' {
        Some(3)
    } else if c == '4' {
        Some(4)
    } else if c == '5' {
        Some(5)
    } else if c == '6' {
        Some(6)
    } else if c == '7' {
        Some(7)
    } else if c == '8' {
        Some(8)
    } else if c == '9' {
        Some(9)
    } else {
        None
    }
}

/// The number token of the text that the number pattern matched.
#[verifier::loop_isolation(false)]
pub fn number_token(matched: &str) -> (lexeme: Option<Lexeme>)
    ensures
        optional_lexeme_view(lexeme) == number_lexeme(matched@),
{
    let length: usize = matched.unicode_len();
    let negative: bool = length > 0 && matched.get_char(0) == '-';
    let first: usize = if negative {
        1
    } else {
        0
    };
    let ghost digits = matched@.skip(first as int);
    proof {
        if !negative {
            assert(digits =~= matched@);
        }
    }
    if first >= length {
        return None;
    }
    let mut value: i64 = 0;
    let mut i: usize = first;
    assert(digits.take(0) =~= Seq::<char>::empty());
    while i < length
        invariant
            first <= i <= length,
            length == matched@.len(),
            digits == matched@.skip(first as int),
            forall|j: int| 0 <= j < i - first ==> is_digit(#[trigger] digits[j]),
            value == digits_value(digits.take(i - first)),
            0 <= value <= 2147483648,
        decreases length - i,
    {
        let c: char = matched.get_char(i);
        assert(digits[i - first] == c);
        let digit: i64 = match digit_of(c) {
            Some(digit) => digit,
            None => {
                assert(!is_digits(digits));
                return None;
            },
        };
        proof {
            let longer = digits.take(i - first + 1);
            assert(longer.drop_last() =~= digits.take(i - first));
            assert(longer.last() == c);
            assert(digits_value(longer) == digits_value(longer.drop_last()) * 10 + digit_value(
                longer.last(),
            ));
        }
        value = value * 10 + digit;
        i += 1;
        if value > 2147483648 {
            proof {
                if is_digits(digits) {
                    lemma_digits_value_grows(digits, i - first);
                }
            }
            return None;
        }
    }
    assert(digits.take(length - first) =~= digits);
    assert(is_digits(digits));
    if negative {
        Some(Lexeme { token: Some(Token::Number((0 - value) as i32)), length })
    } else if value > 2147483647 {
        None
    } else {
        Some(Lexeme { token: Some(Token::Number(value as i32)), length })
    }
}

/// The lexeme of the text that the comment pattern matched.
pub fn comment_skip(matched: &str) -> (lexeme: Option<Lexeme>)
    ensures
        optional_lexeme_view(lexeme) == comment_lexeme(matched@),
{
    let length: usize = matched.unicode_len();
    if length == 0 {
        None
    } else {
        Some(Lexeme { token: None, length })
    }
}

/// The symbol token of the text that the symbol pattern matched.
pub fn symbol_token(matched: &str) -> (lexeme: Option<Lexeme>)
    ensures
        optional_lexeme_view(lexeme) == symbol_lexeme(matched@),
{
    let length: usize = matched.unicode_len();
    if length == 0 {
        None
    } else {
        Some(Lexeme { token: Some(Token::Symbol(String::from_str(matched))), length })
    }
}

/// The type token of the text that the type pattern matched.
pub fn type_token(matched: &str) -> (lexeme: Option<Lexeme>)
    ensures
        optional_lexeme_view(lexeme) == type_lexeme(matched@),
{
    let length: usize = matched.unicode_len();
    if length < 2 {
        None
    } else {
        let name = matched.substring_char(2, length);
        assert(name@ =~= matched@.skip(2));
        Some(Lexeme { token: Some(Token::Type(String::from_str(name))), length })
    }
}

/// The string token of the text that the string pattern matched.
pub fn string_token(matched: &str) -> (lexeme: Option<Lexeme>)
    ensures
        optional_lexeme_view(lexeme) == string_lexeme(matched@),
{
    let length: usize = matched.unicode_len();
    if length < 2 {
        None
    } else {
        let value = matched.substring_char(1, length - 1);
        Some(Lexeme { token: Some(Token::Str(String::from_str(value))), length })
    }
}

/// Lexes `source_text` as far as it goes: the tokens found, and the cursor
/// where lexing ended, which is at the end of the text where all of it
/// was lexed and on the first character that starts no lexeme otherwise.
#[verifier::loop_isolation(false)]
pub fn scan(source_text: String) -> (found: (Vec<Token>, Position))
    ensures
        tokens_view(found.0@) == scan_text(source_text@).0,
        found.1.index == scan_text(source_text@).1,
        found.1.text == source_text,
        found.1.index <= source_text@.len(),
{
    let mut tokens: Vec<Token> = Vec::new();
    let mut data = Position { index: 0, text: source_text };
    let total: usize = data.text.as_str().unicode_len();
    assert(tokens_view(tokens@) =~= Seq::empty());
    while data.has_chars_left()
        invariant
            data.text == source_text,
            total == source_text@.len(),
            data.index <= total,
            scan_from(source_text@, data.index as int, tokens_view(tokens@)) == scan_text(
                source_text@,
            ),
        decreases total - data.index,
    {
        let found = match data.lexeme() {
            Some(found) => found,
            None => {
                return (tokens, data);
            },
        };
        if found.length == 0 || found.length > total - data.index {
            return (tokens, data);
        }
        data.increment(found.length);
        match found.token {
            Some(token) => {
                let ghost before = tokens_view(tokens@);
                let ghost added = token@;
                tokens.push(token);
                assert(tokens_view(tokens@) =~= before.push(added));
            },
            None => {},
        }
    }
    (tokens, data)
}

/// The tokens of `source_text`, or the failure to find them.
pub fn tokenize(source_text: String) -> (result: Result<Vec<Token>, TokenError>)
    ensures
        lexed_is(result, lex(source_text@)),
{
    let (tokens, stopped) = scan(source_text);
    if stopped.has_chars_left() {
        Err(TokenError)
    } else {
        Ok(tokens)
    }
}

} // verus!
