//! The parser proper: a cursor over the tokens and one function per
//! construct, each proved to compute what the grammar says.

use vstd::prelude::*;
use crate::parser::grammar;
use crate::parser::grammar::Parsed;
use crate::parser::grammar::kept;
use crate::parser::grammar::moved;
use crate::parser::shape::block_is_plain;
use crate::parser::shape::lemma_program_in_shape;
use crate::types::ast::AST;
use crate::types::ast::AstView;
use crate::types::ast::If;
use crate::types::ast::IfView;
use crate::types::ast::block_view;
use crate::types::ast::ifs_view;
use crate::types::ast::names_view;
use crate::types::ast::optional_block_view;
use crate::types::ast::optional_ifs_view;
use crate::types::binary_operator::BinaryOperator;
use crate::types::error::ParseError;
use crate::types::token::Token;
use crate::types::token::TokenView;
use crate::types::token::tokens_view;

verus! {

/// Whether `result`, with the cursor left at `cursor`, is the tree that
/// `model` names.
pub open spec fn parsed_ast(result: Result<AST, ParseError>, cursor: usize, model: Parsed<AstView>)
    -> bool {
    match result {
        Ok(ast) => model == Ok::<(AstView, int), ParseError>((ast@, cursor as int)),
        Err(error) => model == Err::<(AstView, int), ParseError>(error),
    }
}

/// Whether `result`, with the cursor left at `cursor`, is the block that
/// `model` names.
pub open spec fn parsed_block(
    result: Result<Vec<Box<AST>>, ParseError>,
    cursor: usize,
    model: Parsed<Seq<AstView>>,
) -> bool {
    match result {
        Ok(block) => model == Ok::<(Seq<AstView>, int), ParseError>(
            (block_view(block@), cursor as int),
        ),
        Err(error) => model == Err::<(Seq<AstView>, int), ParseError>(error),
    }
}

/// Whether `result`, with the cursor left at `cursor`, is the list of
/// names that `model` names.
pub open spec fn parsed_names(
    result: Result<Vec<String>, ParseError>,
    cursor: usize,
    model: Parsed<Seq<Seq<char>>>,
) -> bool {
    match result {
        Ok(names) => model == Ok::<(Seq<Seq<char>>, int), ParseError>(
            (names_view(names@), cursor as int),
        ),
        Err(error) => model == Err::<(Seq<Seq<char>>, int), ParseError>(error),
    }
}

/// Whether `result`, with the cursor left at `cursor`, is the list of
/// branches and the flag that `model` names.
pub open spec fn parsed_elifs(
    result: Result<(Option<Vec<If>>, bool), ParseError>,
    cursor: usize,
    model: Parsed<(Option<Seq<IfView>>, bool)>,
) -> bool {
    match result {
        Ok((elifs, block_follows)) => model == Ok::<
            ((Option<Seq<IfView>>, bool), int),
            ParseError,
        >(((optional_ifs_view(elifs), block_follows), cursor as int)),
        Err(error) => model == Err::<((Option<Seq<IfView>>, bool), int), ParseError>(error),
    }
}

/// Whether `result`, with the cursor left at `cursor`, is the optional
/// block that `model` names.
pub open spec fn parsed_el(
    result: Result<Option<Vec<Box<AST>>>, ParseError>,
    cursor: usize,
    model: Parsed<Option<Seq<AstView>>>,
) -> bool {
    match result {
        Ok(el) => model == Ok::<(Option<Seq<AstView>>, int), ParseError>(
            (optional_block_view(el), cursor as int),
        ),
        Err(error) => model == Err::<(Option<Seq<AstView>>, int), ParseError>(error),
    }
}

/// Whether `result` is the program that `model` names.
pub open spec fn parsed_program(result: Result<AST, ParseError>, model: Result<AstView, ParseError>)
    -> bool {
    match result {
        Ok(ast) => model == Ok::<AstView, ParseError>(ast@),
        Err(error) => model == Err::<AstView, ParseError>(error),
    }
}

/// The tokens and the cursor into them.
pub struct ParseState {
    pub tokens: Vec<Token>,
    pub curr_index: usize,
}

impl ParseState {
    /// The tokens as mathematical values.
    pub open spec fn model(&self) -> Seq<TokenView> {
        tokens_view(self.tokens@)
    }

    /// The cursor as a mathematical integer.
    pub open spec fn cursor(&self) -> int {
        self.curr_index as int
    }

    /// Whether the cursor is on a token.
    pub open spec fn inside(&self) -> bool {
        self.curr_index < self.tokens.len()
    }

    /// Moves the cursor to the next token.
    pub fn next(&mut self)
        requires
            grammar::has_next(old(self).model(), old(self).cursor()),
        ensures
            final(self).tokens == old(self).tokens,
            final(self).cursor() == old(self).cursor() + 1,
            final(self).inside(),
    {
        assert(self.model().len() == self.tokens.len());
        self.curr_index = self.curr_index + 1;
    }

    /// Whether a token follows the one under the cursor.
    pub fn has_next(&self) -> (follows: bool)
        ensures
            follows == grammar::has_next(self.model(), self.cursor()),
    {
        self.curr_index < self.tokens.len() && self.tokens.len() - self.curr_index > 1
    }

    /// The token under the cursor.
    pub fn current(&self) -> (token: &Token)
        requires
            self.inside(),
        ensures
            token@ == self.model()[self.cursor()],
    {
        &self.tokens[self.curr_index]
    }

    /// Whether the token under the cursor is `token` and another follows.
    pub fn is_tok(&self, token: &Token) -> (found: bool)
        ensures
            found == grammar::is_tok(self.model(), self.cursor(), token@),
    {
        if self.has_next() {
            return *self.current() == *token;
        }
        false
    }

    /// Moves the cursor over `token` if it is there and another follows.
    pub fn skip(&mut self, token: &Token)
        ensures
            final(self).tokens == old(self).tokens,
            final(self).cursor() == grammar::skip(old(self).model(), old(self).cursor(), token@),
            old(self).inside() ==> final(self).inside(),
    {
        if self.is_tok(token) {
            self.next();
        }
    }

    /// Whether the token under the cursor is an operator.
    pub fn is_op(&self) -> (found: bool)
        requires
            self.inside(),
        ensures
            found == (self.model()[self.cursor()] is Operator),
    {
        match self.current() {
            Token::Operator(_) => true,
            _ => false,
        }
    }

    /// Folds the binary operators that follow `left` and bind tighter than
    /// `precedence` into `left`, from left to right.
    pub fn maybe_binary(&mut self, left: AST, precedence: u8) -> (result: Result<AST, ParseError>)
        requires
            old(self).inside(),
        ensures
            final(self).tokens == old(self).tokens,
            parsed_ast(
                result,
                final(self).curr_index,
                grammar::maybe_binary(
                    old(self).model(),
                    old(self).cursor(),
                    left@,
                    precedence as nat,
                ),
            ),
            result is Ok ==> kept(old(self).model(), old(self).cursor(), final(self).cursor()),
        decreases old(self).tokens.len() - old(self).curr_index, 0nat,
    {
        if self.is_op() {
            if let Token::Operator(operator_token) = self.current() {
                let operator: BinaryOperator = *operator_token;
                let new_precedence: u8 = operator.get_precedence();
                if new_precedence > precedence {
                    if !self.has_next() {
                        return Err(ParseError::UnexpectedEnd);
                    }
                    self.next();
                    let right = match self.parse_operand(new_precedence) {
                        Ok(right) => right,
                        Err(error) => {
                            return Err(error);
                        },
                    };
                    return self.maybe_binary(
                        AST::Binary { operator, left: Box::new(left), right: Box::new(right) },
                        precedence,
                    );
                }
            }
        }
        Ok(left)
    }

    /// An operand: a primary, extended by the binary operators that follow
    /// it and bind tighter than `precedence`.
    pub fn parse_operand(&mut self, precedence: u8) -> (result: Result<AST, ParseError>)
        requires
            old(self).inside(),
        ensures
            final(self).tokens == old(self).tokens,
            parsed_ast(
                result,
                final(self).curr_index,
                grammar::parse_operand(old(self).model(), old(self).cursor(), precedence as nat),
            ),
            result is Ok ==> kept(old(self).model(), old(self).cursor(), final(self).cursor()),
            result is Ok && grammar::has_next(old(self).model(), old(self).cursor()) ==> moved(
                old(self).model(),
                old(self).cursor(),
                final(self).cursor(),
            ),
        decreases old(self).tokens.len() - old(self).curr_index, 1nat,
    {
        if !self.has_next() {
            return Ok(AST::EOF);
        }
        if let Token::Semicolon = self.current() {
            self.next();
            return Ok(AST::Semicolon);
        }
        match self.parse_primary() {
            Ok(left) => self.maybe_binary(left, precedence),
            Err(error) => Err(error),
        }
    }

    /// One statement or expression.
    pub fn parse_atom(&mut self) -> (result: Result<AST, ParseError>)
        requires
            old(self).inside(),
        ensures
            final(self).tokens == old(self).tokens,
            parsed_ast(
                result,
                final(self).curr_index,
                grammar::parse_atom(old(self).model(), old(self).cursor()),
            ),
            result is Ok ==> kept(old(self).model(), old(self).cursor(), final(self).cursor()),
            result is Ok && grammar::has_next(old(self).model(), old(self).cursor()) ==> moved(
                old(self).model(),
                old(self).cursor(),
                final(self).cursor(),
            ),
        decreases old(self).tokens.len() - old(self).curr_index, 2nat,
    {
        self.parse_operand(0)
    }

    /// The primary under the cursor.
    pub fn parse_primary(&mut self) -> (result: Result<AST, ParseError>)
        requires
            grammar::has_next(old(self).model(), old(self).cursor()),
        ensures
            final(self).tokens == old(self).tokens,
            parsed_ast(
                result,
                final(self).curr_index,
                grammar::parse_primary(old(self).model(), old(self).cursor()),
            ),
            result is Ok ==> moved(old(self).model(), old(self).cursor(), final(self).cursor()),
        decreases old(self).tokens.len() - old(self).curr_index, 0nat,
    {
        match self.current() {
            Token::Return => {
                self.next();
                match self.parse_atom() {
                    Ok(value) => Ok(AST::Return { value: Box::new(value) }),
                    Err(error) => Err(error),
                }
            },
            Token::Number(val) => {
                let value: i32 = *val;
                self.next();
                Ok(AST::Number { value })
            },
            Token::Bool(val) => {
                let value: bool = *val;
                self.next();
                Ok(AST::Bool { value })
            },
            Token::Str(value) => {
                let value = value.clone();
                self.next();
                Ok(AST::Str { value })
            },
            Token::Symbol(symbol) => {
                let identifier = symbol.clone();
                self.next();
                if self.is_tok(&Token::LParen) {
                    self.next();
                    self.parse_call(identifier)
                } else {
                    Ok(AST::Symbol { identifier })
                }
            },
            Token::Print => {
                self.next();
                match self.parse_atom() {
                    Ok(value) => Ok(AST::Print { value: Box::new(value) }),
                    Err(error) => Err(error),
                }
            },
            Token::Define => {
                self.next();
                self.parse_define()
            },
            Token::If => {
                self.next();
                self.parse_if()
            },
            Token::Do => {
                self.next();
                self.parse_do()
            },
            Token::Run => {
                self.next();
                self.parse_run()
            },
            Token::Throw => {
                self.next();
                if let Token::Str(message) = self.current() {
                    let message = message.clone();
                    if !self.has_next() {
                        return Err(ParseError::UnexpectedEnd);
                    }
                    self.next();
                    Ok(AST::Throw { message })
                } else {
                    Err(ParseError::MissingMessage)
                }
            },
            Token::Operator(operator) => {
                if *operator == BinaryOperator::Subtract {
                    self.next();
                    if let Token::Number(num) = self.current() {
                        let value: i32 = 0i32.wrapping_sub(*num);
                        if !self.has_next() {
                            return Err(ParseError::UnexpectedEnd);
                        }
                        self.next();
                        return Ok(AST::Number { value });
                    }
                }
                Err(ParseError::UnsupportedPrefix)
            },
            _ => Err(ParseError::UnexpectedToken),
        }
    }

    /// `run name` or `run name given ( args )`.
    pub fn parse_run(&mut self) -> (result: Result<AST, ParseError>)
        requires
            old(self).inside(),
        ensures
            final(self).tokens == old(self).tokens,
            parsed_ast(
                result,
                final(self).curr_index,
                grammar::parse_run(old(self).model(), old(self).cursor()),
            ),
            result is Ok ==> kept(old(self).model(), old(self).cursor(), final(self).cursor()),
        decreases old(self).tokens.len() - old(self).curr_index, 0nat,
    {
        if let Token::Symbol(symbol) = self.current() {
            let identifier = symbol.clone();
            if !self.has_next() {
                return Err(ParseError::UnexpectedEnd);
            }
            self.next();
            let mut args: Vec<Box<AST>> = Vec::new();
            assert(block_view(args@) =~= Seq::empty());
            if self.is_tok(&Token::Given) {
                self.next();
                self.skip(&Token::LParen);
                args = match self.parse_call_args() {
                    Ok(args) => args,
                    Err(error) => {
                        return Err(error);
                    },
                };
            }
            Ok(AST::Call { identifier, args })
        } else {
            Err(ParseError::MissingName)
        }
    }

    /// `name to be { .. }` or `name to be value`.
    pub fn parse_define(&mut self) -> (result: Result<AST, ParseError>)
        requires
            old(self).inside(),
        ensures
            final(self).tokens == old(self).tokens,
            parsed_ast(
                result,
                final(self).curr_index,
                grammar::parse_define(old(self).model(), old(self).cursor()),
            ),
            result is Ok ==> kept(old(self).model(), old(self).cursor(), final(self).cursor()),
        decreases old(self).tokens.len() - old(self).curr_index, 0nat,
    {
        if let Token::Symbol(symbol) = self.current() {
            let identifier = symbol.clone();
            if !self.has_next() {
                return Err(ParseError::UnexpectedEnd);
            }
            self.next();
            if !self.is_tok(&Token::ToBe) {
                return Err(ParseError::MissingToBe);
            }
            self.next();
            match self.current() {
                Token::LBrace => self.parse_proc(identifier),
                _ => self.parse_set(identifier),
            }
        } else {
            Err(ParseError::MissingName)
        }
    }

    /// A counted loop from its count on.
    pub fn parse_do(&mut self) -> (result: Result<AST, ParseError>)
        requires
            old(self).inside(),
        ensures
            final(self).tokens == old(self).tokens,
            parsed_ast(
                result,
                final(self).curr_index,
                grammar::parse_do(old(self).model(), old(self).cursor()),
            ),
            result is Ok ==> kept(old(self).model(), old(self).cursor(), final(self).cursor()),
        decreases old(self).tokens.len() - old(self).curr_index, 5nat,
    {
        let count = match self.parse_atom() {
            Ok(count) => count,
            Err(error) => {
                return Err(error);
            },
        };
        let mut identifier_value: Option<String> = None;
        if let Token::Symbol(identifier) = self.current() {
            let name = identifier.clone();
            if !self.has_next() {
                return Err(ParseError::UnexpectedEnd);
            }
            self.next();
            identifier_value = Some(name);
        }
        match self.parse_proc_body() {
            Ok(body) => Ok(AST::Do { count: Box::new(count), identifier: identifier_value, body }),
            Err(error) => Err(error),
        }
    }

    /// A conditional from its condition on.
    pub fn parse_if(&mut self) -> (result: Result<AST, ParseError>)
        requires
            old(self).inside(),
        ensures
            final(self).tokens == old(self).tokens,
            parsed_ast(
                result,
                final(self).curr_index,
                grammar::parse_if(old(self).model(), old(self).cursor()),
            ),
            result is Ok ==> kept(old(self).model(), old(self).cursor(), final(self).cursor()),
        decreases old(self).tokens.len() - old(self).curr_index, 6nat,
    {
        let conditional = match self.parse_atom() {
            Ok(conditional) => conditional,
            Err(error) => {
                return Err(error);
            },
        };
        let body = match self.parse_proc_body() {
            Ok(body) => body,
            Err(error) => {
                return Err(error);
            },
        };
        let (elifs, block_follows) = match self.parse_elif() {
            Ok(found) => found,
            Err(error) => {
                return Err(error);
            },
        };
        let el = match self.parse_el(block_follows) {
            Ok(el) => el,
            Err(error) => {
                return Err(error);
            },
        };
        let this = If { conditional: Box::new(conditional), body };
        assert(this@ == (IfView { conditional: Box::new(conditional@), body: block_view(body@) }));
        Ok(AST::If { this, elifs, el })
    }

    /// The `else if` branches of a conditional, and whether an `else` with
    /// a block is still to come.
    #[verifier::loop_isolation(false)]
    pub fn parse_elif(&mut self) -> (result: Result<(Option<Vec<If>>, bool), ParseError>)
        requires
            old(self).inside(),
        ensures
            final(self).tokens == old(self).tokens,
            parsed_elifs(
                result,
                final(self).curr_index,
                grammar::parse_elif(old(self).model(), old(self).cursor()),
            ),
            result is Ok ==> kept(old(self).model(), old(self).cursor(), final(self).cursor()),
        decreases old(self).tokens.len() - old(self).curr_index, 1nat,
    {
        let mut elifs: Vec<If> = Vec::new();
        if !self.is_tok(&Token::Else) {
            return Ok((None, false));
        }
        let ghost goal = grammar::parse_elifs_from(self.model(), self.cursor(), Seq::empty());
        assert(ifs_view(elifs@) =~= Seq::empty());
        while self.is_tok(&Token::Else)
            invariant
                self.tokens == old(self).tokens,
                self.inside(),
                old(self).cursor() <= self.cursor(),
                grammar::parse_elifs_from(self.model(), self.cursor(), ifs_view(elifs@)) == goal,
            decreases self.tokens.len() - self.curr_index,
        {
            self.skip(&Token::Else);
            if self.is_tok(&Token::LBrace) {
                return Ok((Some(elifs), true));
            }
            if !(*self.current() == Token::If) {
                return Err(ParseError::MissingIf);
            }
            if !self.has_next() {
                return Err(ParseError::UnexpectedEnd);
            }
            self.next();
            let conditional = match self.parse_atom() {
                Ok(conditional) => conditional,
                Err(error) => {
                    return Err(error);
                },
            };
            let body = match self.parse_proc_body() {
                Ok(body) => body,
                Err(error) => {
                    return Err(error);
                },
            };
            let ghost before = ifs_view(elifs@);
            let branch = If { conditional: Box::new(conditional), body };
            let ghost added = branch@;
            elifs.push(branch);
            assert(ifs_view(elifs@) =~= before.push(added));
        }
        Ok((Some(elifs), false))
    }

    /// The `else` block of a conditional, where one follows.
    pub fn parse_el(&mut self, block_follows: bool) -> (result: Result<
        Option<Vec<Box<AST>>>,
        ParseError,
    >)
        requires
            old(self).inside(),
        ensures
            final(self).tokens == old(self).tokens,
            parsed_el(
                result,
                final(self).curr_index,
                grammar::parse_el(old(self).model(), old(self).cursor(), block_follows),
            ),
            result is Ok ==> kept(old(self).model(), old(self).cursor(), final(self).cursor()),
        decreases old(self).tokens.len() - old(self).curr_index, 5nat,
    {
        if block_follows {
            match self.parse_proc_body() {
                Ok(block) => Ok(Some(block)),
                Err(error) => Err(error),
            }
        } else {
            Ok(None)
        }
    }

    /// A variable definition from its value on.
    pub fn parse_set(&mut self, symbol: String) -> (result: Result<AST, ParseError>)
        requires
            old(self).inside(),
        ensures
            final(self).tokens == old(self).tokens,
            parsed_ast(
                result,
                final(self).curr_index,
                grammar::parse_set(old(self).model(), old(self).cursor(), symbol@),
            ),
            result is Ok ==> kept(old(self).model(), old(self).cursor(), final(self).cursor()),
        decreases old(self).tokens.len() - old(self).curr_index, 3nat,
    {
        match self.parse_atom() {
            Ok(value) => Ok(AST::Assign { identifier: symbol, value: Box::new(value) }),
            Err(error) => Err(error),
        }
    }

    /// A call of `symbol`: its arguments up to the closing parenthesis.
    pub fn parse_call(&mut self, symbol: String) -> (result: Result<AST, ParseError>)
        requires
            old(self).inside(),
        ensures
            final(self).tokens == old(self).tokens,
            parsed_ast(
                result,
                final(self).curr_index,
                grammar::parse_call(old(self).model(), old(self).cursor(), symbol@),
            ),
            result is Ok ==> kept(old(self).model(), old(self).cursor(), final(self).cursor()),
        decreases old(self).tokens.len() - old(self).curr_index, 5nat,
    {
        self.skip(&Token::LParen);
        match self.parse_call_args() {
            Ok(args) => Ok(AST::Call { identifier: symbol, args }),
            Err(error) => Err(error),
        }
    }

    /// A comma-separated list of arguments up to the closing parenthesis.
    #[verifier::loop_isolation(false)]
    pub fn parse_call_args(&mut self) -> (result: Result<Vec<Box<AST>>, ParseError>)
        requires
            old(self).inside(),
        ensures
            final(self).tokens == old(self).tokens,
            parsed_block(
                result,
                final(self).curr_index,
                grammar::parse_call_args(old(self).model(), old(self).cursor()),
            ),
            result is Ok ==> kept(old(self).model(), old(self).cursor(), final(self).cursor()),
        decreases old(self).tokens.len() - old(self).curr_index, 4nat,
    {
        let mut asts: Vec<Box<AST>> = Vec::new();
        let ghost goal = grammar::parse_call_args(self.model(), self.cursor());
        assert(block_view(asts@) =~= Seq::empty());
        while !self.is_tok(&Token::RParen)
            invariant
                self.tokens == old(self).tokens,
                self.inside(),
                old(self).cursor() <= self.cursor(),
                grammar::parse_args_from(self.model(), self.cursor(), block_view(asts@)) == goal,
            decreases self.tokens.len() - self.curr_index,
        {
            if !self.has_next() {
                return Err(ParseError::UnexpectedEnd);
            }
            let item = match self.parse_atom() {
                Ok(item) => item,
                Err(error) => {
                    return Err(error);
                },
            };
            let ghost before = block_view(asts@);
            let ghost added = item@;
            asts.push(Box::new(item));
            assert(block_view(asts@) =~= before.push(added));
            self.skip(&Token::Comma);
        }
        self.skip(&Token::RParen);
        Ok(asts)
    }

    /// The parameter list of a procedure: `given ( name, .. )`, or nothing.
    #[verifier::loop_isolation(false)]
    pub fn parse_func_args(&mut self) -> (result: Result<Vec<String>, ParseError>)
        requires
            old(self).inside(),
        ensures
            final(self).tokens == old(self).tokens,
            parsed_names(
                result,
                final(self).curr_index,
                grammar::parse_func_args(old(self).model(), old(self).cursor()),
            ),
            result is Ok ==> kept(old(self).model(), old(self).cursor(), final(self).cursor()),
    {
        let mut names: Vec<String> = Vec::new();
        assert(names_view(names@) =~= Seq::empty());
        if self.is_tok(&Token::Given) {
            self.next();
            self.skip(&Token::LParen);
            let ghost goal = grammar::parse_params_from(self.model(), self.cursor(), Seq::empty());
            loop
                invariant
                    self.tokens == old(self).tokens,
                    self.inside(),
                    old(self).cursor() <= self.cursor(),
                    grammar::parse_params_from(self.model(), self.cursor(), names_view(names@))
                        == goal,
                decreases self.tokens.len() - self.curr_index,
            {
                if let Token::Symbol(symbol) = self.current() {
                    let name = symbol.clone();
                    if !self.has_next() {
                        return Err(ParseError::UnexpectedEnd);
                    }
                    self.next();
                    let ghost before = names_view(names@);
                    let ghost added = name@;
                    names.push(name);
                    assert(names_view(names@) =~= before.push(added));
                    self.skip(&Token::Comma);
                } else {
                    break ;
                }
            }
            self.skip(&Token::RParen);
        }
        Ok(names)
    }

    /// A procedure definition from its block on.
    pub fn parse_proc(&mut self, symbol: String) -> (result: Result<AST, ParseError>)
        requires
            old(self).inside(),
        ensures
            final(self).tokens == old(self).tokens,
            parsed_ast(
                result,
                final(self).curr_index,
                grammar::parse_proc(old(self).model(), old(self).cursor(), symbol@),
            ),
            result is Ok ==> kept(old(self).model(), old(self).cursor(), final(self).cursor()),
        decreases old(self).tokens.len() - old(self).curr_index, 5nat,
    {
        let body = match self.parse_proc_body() {
            Ok(body) => body,
            Err(error) => {
                return Err(error);
            },
        };
        match self.parse_func_args() {
            Ok(args) => Ok(AST::Proc { identifier: symbol, args, body }),
            Err(error) => Err(error),
        }
    }

    /// A block: `{`, nodes, `}`.
    #[verifier::loop_isolation(false)]
    pub fn parse_proc_body(&mut self) -> (result: Result<Vec<Box<AST>>, ParseError>)
        requires
            old(self).inside(),
        ensures
            final(self).tokens == old(self).tokens,
            parsed_block(
                result,
                final(self).curr_index,
                grammar::parse_proc_body(old(self).model(), old(self).cursor()),
            ),
            result is Ok ==> kept(old(self).model(), old(self).cursor(), final(self).cursor()),
        decreases old(self).tokens.len() - old(self).curr_index, 4nat,
    {
        let mut proc_body: Vec<Box<AST>> = Vec::new();
        if !(*self.current() == Token::LBrace) {
            return Err(ParseError::MissingBrace);
        }
        if !self.has_next() {
            return Err(ParseError::UnexpectedEnd);
        }
        self.next();
        let ghost goal = grammar::parse_block_from(self.model(), self.cursor(), Seq::empty());
        assert(block_view(proc_body@) =~= Seq::empty());
        while !(*self.current() == Token::RBrace)
            invariant
                self.tokens == old(self).tokens,
                self.inside(),
                old(self).cursor() < self.cursor(),
                grammar::parse_block_from(self.model(), self.cursor(), block_view(proc_body@))
                    == goal,
            decreases self.tokens.len() - self.curr_index,
        {
            if !self.has_next() {
                return Err(ParseError::UnexpectedEnd);
            }
            let item = match self.parse_atom() {
                Ok(item) => item,
                Err(error) => {
                    return Err(error);
                },
            };
            let ghost before = block_view(proc_body@);
            let ghost added = item@;
            proc_body.push(Box::new(item));
            assert(block_view(proc_body@) =~= before.push(added));
        }
        self.skip(&Token::RBrace);
        Ok(proc_body)
    }
}

/// The program that `tokens` stand for, or the reason they stand for none.
/// A program is a program node that holds no other program node.
#[verifier::loop_isolation(false)]
pub fn build_program(tokens: Vec<Token>) -> (result: Result<AST, ParseError>)
    ensures
        parsed_program(result, grammar::parse_program(tokens_view(tokens@))),
        match result {
            Ok(program) => program@ is Program && block_is_plain(program@->program),
            Err(_) => true,
        },
{
    proof {
        lemma_program_in_shape(tokens_view(tokens@));
    }
    let mut prog: Vec<Box<AST>> = Vec::new();
    let mut parse_state = ParseState { tokens, curr_index: 0 };
    let ghost goal = grammar::parse_program(parse_state.model());
    assert(block_view(prog@) =~= Seq::empty());
    while parse_state.has_next()
        invariant
            parse_state.tokens == tokens,
            grammar::parse_items_from(
                parse_state.model(),
                parse_state.cursor(),
                block_view(prog@),
            ) == goal,
        decreases parse_state.tokens.len() - parse_state.curr_index,
    {
        let item = match parse_state.parse_atom() {
            Ok(item) => item,
            Err(error) => {
                return Err(error);
            },
        };
        let ghost before = block_view(prog@);
        let ghost added = item@;
        prog.push(Box::new(item));
        assert(block_view(prog@) =~= before.push(added));
        parse_state.skip(&Token::Semicolon);
    }
    Ok(AST::Program { program: prog })
}

} // verus!
