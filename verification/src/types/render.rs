//! Diagnostic renderings of syntax trees.

use vstd::prelude::*;
use vstd::string::*;
use crate::types::ast::AST;
use crate::types::ast::AstView;
use crate::types::ast::If;
use crate::types::ast::IfView;
use crate::types::ast::block_view;
use crate::types::ast::ifs_view;
use crate::types::ast::names_view;
use crate::types::text::bool_text;
use crate::types::text::bool_to_string;
use crate::types::text::decimal_int;
use crate::types::text::i32_to_string;
use crate::types::text::quote;
use crate::types::text::quoted_text;

verus! {

/// The first `n` names of `names`, each quoted, separated by `, `.
pub open spec fn names_items_text(names: Seq<Seq<char>>, n: nat) -> Seq<char>
    decreases n,
{
    if n == 0 || n > names.len() {
        Seq::empty()
    } else if n == 1 {
        quoted_text(names[0])
    } else {
        names_items_text(names, (n - 1) as nat) + ", "@ + quoted_text(names[n - 1])
    }
}

/// A list of names: `["a", "b"]`.
pub open spec fn names_text(names: Seq<Seq<char>>) -> Seq<char> {
    "["@ + names_items_text(names, names.len()) + "]"@
}

/// An optional name: `Some("a")` or `None`.
pub open spec fn optional_name_text(name: Option<Seq<char>>) -> Seq<char> {
    match name {
        Some(name) => "Some("@ + quoted_text(name) + ")"@,
        None => "None"@,
    }
}

/// The first `n` nodes of `block`, separated by `, `.
pub open spec fn block_items_text(block: Seq<AstView>, n: nat) -> Seq<char>
    decreases block, n,
{
    if n == 0 || n > block.len() {
        Seq::empty()
    } else if n == 1 {
        ast_text(block[0])
    } else {
        block_items_text(block, (n - 1) as nat) + ", "@ + ast_text(block[n - 1])
    }
}

/// A block: its nodes between square brackets, separated by `, `.
pub open spec fn block_text(block: Seq<AstView>) -> Seq<char>
    decreases block, block.len() + 1,
{
    "["@ + block_items_text(block, block.len()) + "]"@
}

/// A condition and its block: `If { conditional: c, body: [..] }`.
pub open spec fn if_text(branch: IfView) -> Seq<char>
    decreases branch,
{
    "If { conditional: "@ + ast_text(*branch.conditional) + ", body: "@ + block_text(branch.body)
        + " }"@
}

/// The first `n` branches of `branches`, separated by `, `.
pub open spec fn ifs_items_text(branches: Seq<IfView>, n: nat) -> Seq<char>
    decreases branches, n,
{
    if n == 0 || n > branches.len() {
        Seq::empty()
    } else if n == 1 {
        if_text(branches[0])
    } else {
        ifs_items_text(branches, (n - 1) as nat) + ", "@ + if_text(branches[n - 1])
    }
}

/// A list of branches between square brackets, separated by `, `.
pub open spec fn ifs_text(branches: Seq<IfView>) -> Seq<char>
    decreases branches, branches.len() + 1,
{
    "["@ + ifs_items_text(branches, branches.len()) + "]"@
}

/// The `else if` branches of a conditional: `Some([..])` or `None`.
pub open spec fn optional_ifs_text(branches: Option<Seq<IfView>>) -> Seq<char>
    decreases branches,
{
    match branches {
        Some(branches) => "Some("@ + ifs_text(branches) + ")"@,
        None => "None"@,
    }
}

/// The `else` block of a conditional: `Some([..])` or `None`.
pub open spec fn optional_block_text(block: Option<Seq<AstView>>) -> Seq<char>
    decreases block,
{
    match block {
        Some(block) => "Some("@ + block_text(block) + ")"@,
        None => "None"@,
    }
}

/// The diagnostic rendering of a node.
pub open spec fn ast_text(ast: AstView) -> Seq<char>
    decreases ast, 0nat,
{
    match ast {
        AstView::Number { value } => "Number("@ + decimal_int(value as int) + ")"@,
        AstView::Str { value } => "String("@ + value + ")"@,
        AstView::Bool { value } => "Bool("@ + bool_text(value) + ")"@,
        AstView::Symbol { identifier } => "Symbol ("@ + identifier + ")"@,
        AstView::Semicolon => ";"@,
        AstView::EOF => "EOF"@,
        AstView::Assign { identifier, value } => "Assign "@ + identifier + " = "@ + ast_text(
            *value,
        ),
        AstView::Print { value } => "Print "@ + ast_text(*value),
        AstView::Throw { message } => "Throw "@ + message,
        AstView::Binary { operator, left, right } => "Binary "@ + ast_text(*left) + " "@
            + operator.symbol() + " "@ + ast_text(*right),
        AstView::Program { program } => "Program: "@ + block_text(program),
        AstView::Call { identifier, args } => "Call "@ + identifier + "("@ + block_text(args)
            + ")"@,
        AstView::If { this, elifs, el } => "If "@ + if_text(this) + " "@ + optional_ifs_text(elifs)
            + " "@ + optional_block_text(el),
        AstView::Return { value } => "Return <"@ + ast_text(*value) + ">"@,
        AstView::Proc { identifier, args, body } => "Proc "@ + identifier + " "@ + block_text(body)
            + "("@ + names_text(args) + ")"@,
        AstView::Do { count, identifier, body } => "Do "@ + ast_text(*count) + ":"@
            + optional_name_text(identifier) + " "@ + block_text(body),
    }
}

/// The rendering of a list of names.
pub fn render_names(names: &Vec<String>) -> (text: String)
    ensures
        text@ == names_text(names_view(names@)),
{
    let ghost model = names_view(names@);
    let mut items = String::new();
    let mut i: usize = 0;
    while i < names.len()
        invariant
            i <= names.len(),
            model == names_view(names@),
            items@ == names_items_text(model, i as nat),
        decreases names.len() - i,
    {
        if i > 0 {
            items.append(", ");
        }
        let quoted = quote(names[i].as_str());
        items.append(quoted.as_str());
        i += 1;
        assert(items@ =~= names_items_text(model, i as nat));
    }
    let mut text = String::from_str("[");
    text.append(items.as_str());
    text.append("]");
    text
}

/// The rendering of an optional name.
pub fn render_optional_name(name: &Option<String>) -> (text: String)
    ensures
        text@ == optional_name_text(
            match *name {
                Some(name) => Some(name@),
                None => None,
            },
        ),
{
    match name {
        Some(name) => {
            let mut text = String::from_str("Some(");
            let quoted = quote(name.as_str());
            text.append(quoted.as_str());
            text.append(")");
            text
        },
        None => String::from_str("None"),
    }
}

/// The rendering of a block.
pub fn render_block(block: &Vec<Box<AST>>) -> (text: String)
    ensures
        text@ == block_text(block_view(block@)),
    decreases block,
{
    let ghost model = block_view(block@);
    let mut items = String::new();
    let mut i: usize = 0;
    while i < block.len()
        invariant
            i <= block.len(),
            model == block_view(block@),
            items@ == block_items_text(model, i as nat),
        decreases block.len() - i,
    {
        if i > 0 {
            items.append(", ");
        }
        let item = render_ast(&block[i]);
        items.append(item.as_str());
        i += 1;
        assert(items@ =~= block_items_text(model, i as nat));
    }
    let mut text = String::from_str("[");
    text.append(items.as_str());
    text.append("]");
    text
}

/// The rendering of a condition and its block.
pub fn render_if(branch: &If) -> (text: String)
    ensures
        text@ == if_text(branch@),
    decreases branch,
{
    let mut text = String::from_str("If { conditional: ");
    let conditional = render_ast(&branch.conditional);
    text.append(conditional.as_str());
    text.append(", body: ");
    let body = render_block(&branch.body);
    text.append(body.as_str());
    text.append(" }");
    text
}

/// The rendering of a list of branches.
pub fn render_ifs(branches: &Vec<If>) -> (text: String)
    ensures
        text@ == ifs_text(ifs_view(branches@)),
    decreases branches,
{
    let ghost model = ifs_view(branches@);
    let mut items = String::new();
    let mut i: usize = 0;
    while i < branches.len()
        invariant
            i <= branches.len(),
            model == ifs_view(branches@),
            items@ == ifs_items_text(model, i as nat),
        decreases branches.len() - i,
    {
        if i > 0 {
            items.append(", ");
        }
        let item = render_if(&branches[i]);
        items.append(item.as_str());
        i += 1;
        assert(items@ =~= ifs_items_text(model, i as nat));
    }
    let mut text = String::from_str("[");
    text.append(items.as_str());
    text.append("]");
    text
}

/// The rendering of the `else if` branches of a conditional.
pub fn render_optional_ifs(branches: &Option<Vec<If>>) -> (text: String)
    ensures
        text@ == optional_ifs_text(
            match *branches {
                Some(branches) => Some(ifs_view(branches@)),
                None => None,
            },
        ),
    decreases branches,
{
    match branches {
        Some(branches) => {
            let mut text = String::from_str("Some(");
            let list = render_ifs(branches);
            text.append(list.as_str());
            text.append(")");
            text
        },
        None => String::from_str("None"),
    }
}

/// The rendering of the `else` block of a conditional.
pub fn render_optional_block(block: &Option<Vec<Box<AST>>>) -> (text: String)
    ensures
        text@ == optional_block_text(
            match *block {
                Some(block) => Some(block_view(block@)),
                None => None,
            },
        ),
    decreases block,
{
    match block {
        Some(block) => {
            let mut text = String::from_str("Some(");
            let list = render_block(block);
            text.append(list.as_str());
            text.append(")");
            text
        },
        None => String::from_str("None"),
    }
}

/// The diagnostic rendering of a node.
pub fn render_ast(ast: &AST) -> (text: String)
    ensures
        text@ == ast_text(ast@),
    decreases ast,
{
    match ast {
        AST::Number { value } => {
            let mut text = String::from_str("Number(");
            let number = i32_to_string(*value);
            text.append(number.as_str());
            text.append(")");
            text
        },
        AST::Str { value } => {
            let mut text = String::from_str("String(");
            text.append(value.as_str());
            text.append(")");
            text
        },
        AST::Bool { value } => {
            let mut text = String::from_str("Bool(");
            let truth = bool_to_string(*value);
            text.append(truth.as_str());
            text.append(")");
            text
        },
        AST::Symbol { identifier } => {
            let mut text = String::from_str("Symbol (");
            text.append(identifier.as_str());
            text.append(")");
            text
        },
        AST::Semicolon => String::from_str(";"),
        AST::EOF => String::from_str("EOF"),
        AST::Assign { identifier, value } => {
            let mut text = String::from_str("Assign ");
            text.append(identifier.as_str());
            text.append(" = ");
            let value = render_ast(value);
            text.append(value.as_str());
            text
        },
        AST::Print { value } => {
            let mut text = String::from_str("Print ");
            let value = render_ast(value);
            text.append(value.as_str());
            text
        },
        AST::Throw { message } => {
            let mut text = String::from_str("Throw ");
            text.append(message.as_str());
            text
        },
        AST::Binary { operator, left, right } => {
            let mut text = String::from_str("Binary ");
            let left = render_ast(left);
            text.append(left.as_str());
            text.append(" ");
            let symbol = operator.to_string();
            text.append(symbol.as_str());
            text.append(" ");
            let right = render_ast(right);
            text.append(right.as_str());
            text
        },
        AST::Program { program } => {
            let mut text = String::from_str("Program: ");
            let program = render_block(program);
            text.append(program.as_str());
            text
        },
        AST::Call { identifier, args } => {
            let mut text = String::from_str("Call ");
            text.append(identifier.as_str());
            text.append("(");
            let args = render_block(args);
            text.append(args.as_str());
            text.append(")");
            text
        },
        AST::If { this, elifs, el } => {
            let mut text = String::from_str("If ");
            let this = render_if(this);
            text.append(this.as_str());
            text.append(" ");
            let elifs = render_optional_ifs(elifs);
            text.append(elifs.as_str());
            text.append(" ");
            let el = render_optional_block(el);
            text.append(el.as_str());
            text
        },
        AST::Return { value } => {
            let mut text = String::from_str("Return <");
            let value = render_ast(value);
            text.append(value.as_str());
            text.append(">");
            text
        },
        AST::Proc { identifier, args, body } => {
            let mut text = String::from_str("Proc ");
            text.append(identifier.as_str());
            text.append(" ");
            let body = render_block(body);
            text.append(body.as_str());
            text.append("(");
            let args = render_names(args);
            text.append(args.as_str());
            text.append(")");
            text
        },
        AST::Do { count, identifier, body } => {
            let mut text = String::from_str("Do ");
            let count = render_ast(count);
            text.append(count.as_str());
            text.append(":");
            let identifier = render_optional_name(identifier);
            text.append(identifier.as_str());
            text.append(" ");
            let body = render_block(body);
            text.append(body.as_str());
            text
        },
    }
}

impl AST {
    /// The diagnostic rendering of the node.
    pub fn to_string(&self) -> (text: String)
        ensures
            text@ == ast_text(self@),
    {
        render_ast(self)
    }
}

} // verus!
