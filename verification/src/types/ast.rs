//! The abstract syntax tree and its mathematical model.

use vstd::prelude::*;
use crate::types::binary_operator::BinaryOperator;

verus! {

/// An ordered sequence of owned nodes.
pub type Block = Vec<Box<AST>>;

/// The body of a procedure together with its positional parameter names.
#[derive(Debug, PartialEq, Eq)]
pub struct FunctionBody {
    pub body: Block,
    pub args: Vec<String>,
}

/// A condition and the block it guards.
#[derive(Debug, PartialEq, Eq)]
pub struct If {
    pub conditional: Box<AST>,
    pub body: Block,
}

/// A node of the syntax tree.
#[allow(inconsistent_fields)]
#[derive(Debug, PartialEq, Eq)]
pub enum AST {
    Symbol { identifier: String },
    Number { value: i32 },
    Str { value: String },
    Bool { value: bool },
    Binary { operator: BinaryOperator, left: Box<AST>, right: Box<AST> },
    Assign { identifier: String, value: Box<AST> },
    Proc { identifier: String, args: Vec<String>, body: Block },
    Call { identifier: String, args: Block },
    Return { value: Box<AST> },
    If { this: If, elifs: Option<Vec<If>>, el: Option<Block> },
    Print { value: Box<AST> },
    Program { program: Block },
    Do { count: Box<AST>, identifier: Option<String>, body: Block },
    Throw { message: String },
    EOF,
    Semicolon,
}

/// The mathematical value of an [`If`].
pub struct IfView {
    pub conditional: Box<AstView>,
    pub body: Seq<AstView>,
}

/// The mathematical value of an [`AST`]: strings are sequences of
/// characters and blocks are sequences of nodes.
#[allow(inconsistent_fields)]
pub enum AstView {
    Symbol { identifier: Seq<char> },
    Number { value: i32 },
    Str { value: Seq<char> },
    Bool { value: bool },
    Binary { operator: BinaryOperator, left: Box<AstView>, right: Box<AstView> },
    Assign { identifier: Seq<char>, value: Box<AstView> },
    Proc { identifier: Seq<char>, args: Seq<Seq<char>>, body: Seq<AstView> },
    Call { identifier: Seq<char>, args: Seq<AstView> },
    Return { value: Box<AstView> },
    If { this: IfView, elifs: Option<Seq<IfView>>, el: Option<Seq<AstView>> },
    Print { value: Box<AstView> },
    Program { program: Seq<AstView> },
    Do { count: Box<AstView>, identifier: Option<Seq<char>>, body: Seq<AstView> },
    Throw { message: Seq<char> },
    EOF,
    Semicolon,
}

impl AstView {
    /// The binary node of `operator` over `left` and `right`.
    pub open spec fn binary(operator: BinaryOperator, left: AstView, right: AstView) -> AstView {
        AstView::Binary { operator, left: Box::new(left), right: Box::new(right) }
    }

    /// The call of `identifier` with `args`.
    pub open spec fn call(identifier: Seq<char>, args: Seq<AstView>) -> AstView {
        AstView::Call { identifier, args }
    }

    /// The conditional of `this`, the `else if` branches and the `else` block.
    pub open spec fn conditional(
        this: IfView,
        elifs: Option<Seq<IfView>>,
        el: Option<Seq<AstView>>,
    ) -> AstView {
        AstView::If { this, elifs, el }
    }

    /// The counted loop of `count` rounds over `body`.
    pub open spec fn counted(count: AstView, identifier: Option<Seq<char>>, body: Seq<AstView>)
        -> AstView {
        AstView::Do { count: Box::new(count), identifier, body }
    }
}

/// The mathematical value of a [`FunctionBody`].
pub struct FunctionView {
    pub body: Seq<AstView>,
    pub args: Seq<Seq<char>>,
}

/// The names in `names`, each as a sequence of characters.
pub open spec fn names_view(names: Seq<String>) -> Seq<Seq<char>> {
    Seq::new(names.len(), |i: int| names[i]@)
}

/// The nodes of `block`, each as its mathematical value.
pub open spec fn block_view(block: Seq<Box<AST>>) -> Seq<AstView>
    decreases block,
{
    Seq::new(
        block.len(),
        |i: int|
            if 0 <= i < block.len() {
                ast_view(*block[i])
            } else {
                arbitrary()
            },
    )
}

/// The mathematical value of a condition and its block.
pub open spec fn if_view(branch: If) -> IfView
    decreases branch,
{
    IfView { conditional: Box::new(ast_view(*branch.conditional)), body: block_view(branch.body@) }
}

/// The branches of `branches`, each as its mathematical value.
pub open spec fn ifs_view(branches: Seq<If>) -> Seq<IfView>
    decreases branches,
{
    Seq::new(
        branches.len(),
        |i: int|
            if 0 <= i < branches.len() {
                if_view(branches[i])
            } else {
                arbitrary()
            },
    )
}

/// The mathematical value of an optional list of branches.
pub open spec fn optional_ifs_view(elifs: Option<Vec<If>>) -> Option<Seq<IfView>> {
    match elifs {
        Some(elifs) => Some(ifs_view(elifs@)),
        None => None,
    }
}

/// The mathematical value of an optional block.
pub open spec fn optional_block_view(block: Option<Vec<Box<AST>>>) -> Option<Seq<AstView>> {
    match block {
        Some(block) => Some(block_view(block@)),
        None => None,
    }
}

/// The mathematical value of an optional name.
pub open spec fn optional_name_view(name: Option<String>) -> Option<Seq<char>> {
    match name {
        Some(name) => Some(name@),
        None => None,
    }
}

/// The mathematical value of a node.
pub open spec fn ast_view(ast: AST) -> AstView
    decreases ast,
{
    match ast {
        AST::Symbol { identifier } => AstView::Symbol { identifier: identifier@ },
        AST::Number { value } => AstView::Number { value },
        AST::Str { value } => AstView::Str { value: value@ },
        AST::Bool { value } => AstView::Bool { value },
        AST::Binary { operator, left, right } => AstView::Binary {
            operator,
            left: Box::new(ast_view(*left)),
            right: Box::new(ast_view(*right)),
        },
        AST::Assign { identifier, value } => AstView::Assign {
            identifier: identifier@,
            value: Box::new(ast_view(*value)),
        },
        AST::Proc { identifier, args, body } => AstView::Proc {
            identifier: identifier@,
            args: names_view(args@),
            body: block_view(body@),
        },
        AST::Call { identifier, args } => AstView::Call {
            identifier: identifier@,
            args: block_view(args@),
        },
        AST::Return { value } => AstView::Return { value: Box::new(ast_view(*value)) },
        AST::If { this, elifs, el } => AstView::If {
            this: if_view(this),
            elifs: match elifs {
                Some(branches) => Some(ifs_view(branches@)),
                None => None,
            },
            el: match el {
                Some(block) => Some(block_view(block@)),
                None => None,
            },
        },
        AST::Print { value } => AstView::Print { value: Box::new(ast_view(*value)) },
        AST::Program { program } => AstView::Program { program: block_view(program@) },
        AST::Do { count, identifier, body } => AstView::Do {
            count: Box::new(ast_view(*count)),
            identifier: match identifier {
                Some(name) => Some(name@),
                None => None,
            },
            body: block_view(body@),
        },
        AST::Throw { message } => AstView::Throw { message: message@ },
        AST::EOF => AstView::EOF,
        AST::Semicolon => AstView::Semicolon,
    }
}

impl View for AST {
    type V = AstView;

    open spec fn view(&self) -> AstView {
        ast_view(*self)
    }
}

impl View for If {
    type V = IfView;

    open spec fn view(&self) -> IfView {
        if_view(*self)
    }
}

impl View for FunctionBody {
    type V = FunctionView;

    open spec fn view(&self) -> FunctionView {
        FunctionView { body: block_view(self.body@), args: names_view(self.args@) }
    }
}

/// A copy of `names` with the same names in the same order.
pub fn clone_names(names: &Vec<String>) -> (copy: Vec<String>)
    ensures
        names_view(copy@) == names_view(names@),
{
    let mut copy: Vec<String> = Vec::new();
    let mut i: usize = 0;
    while i < names.len()
        invariant
            i <= names.len(),
            copy.len() == i,
            forall|j: int| 0 <= j < i ==> copy[j]@ == names[j]@,
        decreases names.len() - i,
    {
        copy.push(names[i].clone());
        i += 1;
    }
    assert(names_view(copy@) =~= names_view(names@));
    copy
}

/// A deep copy of `block`.
pub fn clone_block(block: &Vec<Box<AST>>) -> (copy: Vec<Box<AST>>)
    ensures
        block_view(copy@) == block_view(block@),
    decreases block,
{
    let mut copy: Vec<Box<AST>> = Vec::new();
    let mut i: usize = 0;
    while i < block.len()
        invariant
            i <= block.len(),
            copy.len() == i,
            forall|j: int| 0 <= j < i ==> ast_view(*copy[j]) == ast_view(*block[j]),
        decreases block.len() - i,
    {
        let node = clone_ast(&block[i]);
        copy.push(Box::new(node));
        i += 1;
    }
    assert(block_view(copy@) =~= block_view(block@));
    copy
}

/// A deep copy of a condition and its block.
pub fn clone_if(branch: &If) -> (copy: If)
    ensures
        copy@ == branch@,
    decreases branch,
{
    If { conditional: Box::new(clone_ast(&branch.conditional)), body: clone_block(&branch.body) }
}

/// A deep copy of `branches`.
pub fn clone_ifs(branches: &Vec<If>) -> (copy: Vec<If>)
    ensures
        ifs_view(copy@) == ifs_view(branches@),
    decreases branches,
{
    let mut copy: Vec<If> = Vec::new();
    let mut i: usize = 0;
    while i < branches.len()
        invariant
            i <= branches.len(),
            copy.len() == i,
            forall|j: int| 0 <= j < i ==> if_view(copy[j]) == if_view(branches[j]),
        decreases branches.len() - i,
    {
        copy.push(clone_if(&branches[i]));
        i += 1;
    }
    assert(ifs_view(copy@) =~= ifs_view(branches@));
    copy
}

/// A deep copy of a node.
pub fn clone_ast(ast: &AST) -> (copy: AST)
    ensures
        copy@ == ast@,
    decreases ast,
{
    match ast {
        AST::Symbol { identifier } => AST::Symbol { identifier: identifier.clone() },
        AST::Number { value } => AST::Number { value: *value },
        AST::Str { value } => AST::Str { value: value.clone() },
        AST::Bool { value } => AST::Bool { value: *value },
        AST::Binary { operator, left, right } => AST::Binary {
            operator: *operator,
            left: Box::new(clone_ast(left)),
            right: Box::new(clone_ast(right)),
        },
        AST::Assign { identifier, value } => AST::Assign {
            identifier: identifier.clone(),
            value: Box::new(clone_ast(value)),
        },
        AST::Proc { identifier, args, body } => AST::Proc {
            identifier: identifier.clone(),
            args: clone_names(args),
            body: clone_block(body),
        },
        AST::Call { identifier, args } => AST::Call {
            identifier: identifier.clone(),
            args: clone_block(args),
        },
        AST::Return { value } => AST::Return { value: Box::new(clone_ast(value)) },
        AST::If { this, elifs, el } => AST::If {
            this: clone_if(this),
            elifs: match elifs {
                Some(branches) => Some(clone_ifs(branches)),
                None => None,
            },
            el: match el {
                Some(block) => Some(clone_block(block)),
                None => None,
            },
        },
        AST::Print { value } => AST::Print { value: Box::new(clone_ast(value)) },
        AST::Program { program } => AST::Program { program: clone_block(program) },
        AST::Do { count, identifier, body } => AST::Do {
            count: Box::new(clone_ast(count)),
            identifier: match identifier {
                Some(name) => Some(name.clone()),
                None => None,
            },
            body: clone_block(body),
        },
        AST::Throw { message } => AST::Throw { message: message.clone() },
        AST::EOF => AST::EOF,
        AST::Semicolon => AST::Semicolon,
    }
}

impl Clone for AST {
    fn clone(&self) -> (copy: AST)
        ensures
            copy@ == self@,
    {
        clone_ast(self)
    }
}

impl Clone for If {
    fn clone(&self) -> (copy: If)
        ensures
            copy@ == self@,
    {
        clone_if(self)
    }
}

impl Clone for FunctionBody {
    fn clone(&self) -> (copy: FunctionBody)
        ensures
            copy@ == self@,
    {
        FunctionBody { body: clone_block(&self.body), args: clone_names(&self.args) }
    }
}

} // verus!
