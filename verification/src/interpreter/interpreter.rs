//! The evaluator proper: each function is proved to compute what the
//! semantics say.

use vstd::prelude::*;
use vstd::string::*;
use crate::interpreter::errors::nested_program;
use crate::interpreter::errors::no_argument;
use crate::interpreter::errors::no_return;
use crate::interpreter::errors::no_symbol_value;
use crate::interpreter::errors::no_value;
use crate::interpreter::errors::too_deep;
use crate::interpreter::errors::undefined_function;
use crate::interpreter::errors::undefined_symbol;
use crate::interpreter::errors::wrong_arity;
use crate::interpreter::report::Report;
use crate::interpreter::report::printed_view;
use crate::interpreter::report::report_is;
use crate::interpreter::semantics::Flow;
use crate::interpreter::semantics::Printed;
use crate::interpreter::semantics::Step;
use crate::interpreter::semantics::ValueStep;
use crate::interpreter::semantics::apply_operator;
use crate::interpreter::semantics::eval;
use crate::interpreter::semantics::eval_args;
use crate::interpreter::semantics::eval_binary;
use crate::interpreter::semantics::eval_body;
use crate::interpreter::semantics::eval_do;
use crate::interpreter::semantics::eval_elifs;
use crate::interpreter::semantics::eval_value;
use crate::interpreter::semantics::lemma_eval_body_prefix;
use crate::interpreter::semantics::run_program;
use crate::types::ast::AST;
use crate::types::ast::AstView;
use crate::types::ast::FunctionBody;
use crate::types::ast::If;
use crate::types::ast::block_view;
use crate::types::ast::clone_block;
use crate::types::ast::clone_names;
use crate::types::ast::ifs_view;
use crate::types::ast::names_view;
use crate::types::ast::optional_block_view;
use crate::types::ast::optional_ifs_view;
use crate::types::ast::optional_name_view;
use crate::types::binary_operator::BinaryOperator;
use crate::types::error::NotImplemented;
use crate::types::error::RuntimeError;
use crate::types::options::Options;
use crate::types::primitive_value::PrimitiveValue;
use crate::types::primitive_value::ValueView;
use crate::types::symbol_store::SymbolStore;

verus! {

/// The mathematical value of what a statement yielded.
pub open spec fn flow_view(result: Result<Option<PrimitiveValue>, RuntimeError>) -> Flow {
    match result {
        Ok(Some(value)) => Ok(Some(value@)),
        Ok(None) => Ok(None),
        Err(error) => Err(error@),
    }
}

/// The mathematical value of what an expression evaluated to.
pub open spec fn value_flow_view(result: Result<PrimitiveValue, RuntimeError>) -> Result<
    ValueView,
    Seq<char>,
> {
    match result {
        Ok(value) => Ok(value@),
        Err(error) => Err(error@),
    }
}

/// Whether a run that started with `before` printed and ended with
/// `result`, the environment `env` and `after` printed is the run that
/// `step` describes.
pub open spec fn run_is(
    result: Result<Option<PrimitiveValue>, RuntimeError>,
    env: Map<Seq<char>, ValueView>,
    before: Printed,
    after: Printed,
    step: Step,
) -> bool {
    &&& flow_view(result) == step.flow
    &&& env == step.env
    &&& after == before + step.printed
}

/// Whether an evaluation that started with `before` printed and ended
/// with `result` and `after` printed is the one that `step` describes.
pub open spec fn value_is(
    result: Result<PrimitiveValue, RuntimeError>,
    before: Printed,
    after: Printed,
    step: ValueStep,
) -> bool {
    &&& value_flow_view(result) == step.flow
    &&& after == before + step.printed
}

/// `left operator right` on values.
pub fn apply_operator_to(operator: BinaryOperator, left: PrimitiveValue, right: PrimitiveValue)
    -> (result: Result<PrimitiveValue, RuntimeError>)
    ensures
        value_flow_view(result) == apply_operator(operator, left@, right@),
{
    let applied = match operator {
        BinaryOperator::Add => left.add(right),
        BinaryOperator::Subtract => left.subtract(right),
        BinaryOperator::Multiply => left.multiply(right),
        BinaryOperator::IsEq => left.is_equal(right),
        _ => Err(NotImplemented::from(&left, &right)),
    };
    match applied {
        Ok(value) => Ok(value),
        Err(error) => Err(RuntimeError::from(error)),
    }
}

/// Evaluates both operands, the left one first, and applies `operator`.
fn apply_binary_operator(
    left: &AST,
    right: &AST,
    operator: BinaryOperator,
    symbols: &mut SymbolStore,
    output: &mut Vec<Option<PrimitiveValue>>,
    depth: usize,
) -> (result: Result<PrimitiveValue, RuntimeError>)
    ensures
        value_is(
            result,
            printed_view(old(output)@),
            printed_view(final(output)@),
            eval_binary(AstView::binary(operator, left@, right@), old(symbols)@, depth as nat),
        ),
        final(symbols)@ == old(symbols)@,
    decreases depth, AstView::binary(operator, left@, right@), 0nat, 0nat,
{
    let ghost start = printed_view(output@);
    let ghost first = eval_value(left@, symbols@, depth as nat);
    let ghost second = eval_value(right@, symbols@, depth as nat);
    let left_value = match value_at(left, symbols, output, depth) {
        Ok(value) => value,
        Err(error) => {
            return Err(error);
        },
    };
    let right_value = match value_at(right, symbols, output, depth) {
        Ok(value) => value,
        Err(error) => {
            assert(printed_view(output@) =~= start + (first.printed + second.printed));
            return Err(error);
        },
    };
    assert(printed_view(output@) =~= start + (first.printed + second.printed));
    apply_operator_to(operator, left_value, right_value)
}

/// The value of a node that is expected to be a value.
fn value_at(
    ast: &AST,
    symbols: &mut SymbolStore,
    output: &mut Vec<Option<PrimitiveValue>>,
    depth: usize,
) -> (result: Result<PrimitiveValue, RuntimeError>)
    ensures
        value_is(
            result,
            printed_view(old(output)@),
            printed_view(final(output)@),
            eval_value(ast@, old(symbols)@, depth as nat),
        ),
        final(symbols)@ == old(symbols)@,
    decreases depth, ast@, 2nat, 0nat,
{
    let ghost start = printed_view(output@);
    assert(start =~= start + Seq::<Option<ValueView>>::empty());
    match ast {
        AST::Number { value } => Ok(PrimitiveValue::Num(*value)),
        AST::Bool { value } => Ok(PrimitiveValue::Bool(*value)),
        AST::Str { value } => Ok(PrimitiveValue::Str(value.clone())),
        AST::Binary { left, right, operator } => apply_binary_operator(
            left,
            right,
            *operator,
            symbols,
            output,
            depth,
        ),
        AST::Call { identifier, args: _ } => {
            match run_ast(ast, symbols, output, depth) {
                Ok(Some(value)) => Ok(value),
                Ok(None) => Err(no_return(identifier)),
                Err(error) => Err(error),
            }
        },
        AST::Symbol { identifier } => {
            match symbols.get(identifier) {
                Some(value) => Ok(value.clone()),
                None => Err(no_symbol_value(identifier)),
            }
        },
        _ => Err(no_value(ast)),
    }
}

/// Runs the nodes of `body` in order, with early return.
#[verifier::loop_isolation(false)]
fn run_body(
    body: &Vec<Box<AST>>,
    symbols: &mut SymbolStore,
    output: &mut Vec<Option<PrimitiveValue>>,
    depth: usize,
) -> (result: Result<Option<PrimitiveValue>, RuntimeError>)
    ensures
        run_is(
            result,
            final(symbols)@,
            printed_view(old(output)@),
            printed_view(final(output)@),
            eval_body(block_view(body@), 0, old(symbols)@, depth as nat, Seq::empty()),
        ),
    decreases depth, block_view(body@), 0nat, body.len(),
{
    let ghost nodes = block_view(body@);
    let ghost start = printed_view(output@);
    let ghost goal = eval_body(nodes, 0, symbols@, depth as nat, Seq::empty());
    let ghost mut printed: Printed = Seq::empty();
    assert(start =~= start + printed);
    let mut i: usize = 0;
    while i < body.len()
        invariant
            i <= body.len(),
            printed_view(output@) == start + printed,
            eval_body(nodes, i as nat, symbols@, depth as nat, printed) == goal,
        decreases body.len() - i,
    {
        let ghost step = eval(nodes[i as int], symbols@, depth as nat);
        let node: &AST = &body[i];
        let result = run_ast(node, symbols, output, depth);
        assert(printed_view(output@) =~= start + (printed + step.printed));
        match node {
            AST::Return { value: _ } => {
                return result;
            },
            AST::Do { count: _, body: _, identifier: _ } | AST::If { this: _, elifs: _, el: _ } => {
                match result {
                    Ok(None) => {},
                    _ => {
                        return result;
                    },
                }
            },
            _ => {
                match result {
                    Ok(_) => {},
                    Err(error) => {
                        return Err(error);
                    },
                }
            },
        }
        proof {
            printed = printed + step.printed;
        }
        i += 1;
    }
    Ok(None)
}

/// Runs a call of `identifier` with the arguments `args`.
#[verifier::loop_isolation(false)]
fn run_call(
    identifier: &String,
    args: &Vec<Box<AST>>,
    symbols: &mut SymbolStore,
    output: &mut Vec<Option<PrimitiveValue>>,
    depth: usize,
) -> (result: Result<Option<PrimitiveValue>, RuntimeError>)
    ensures
        run_is(
            result,
            final(symbols)@,
            printed_view(old(output)@),
            printed_view(final(output)@),
            eval(AstView::call(identifier@, block_view(args@)), old(symbols)@, depth as nat),
        ),
    decreases depth, AstView::call(identifier@, block_view(args@)), 0nat, 0nat,
{
    let ghost start = printed_view(output@);
    let ghost env = symbols@;
    let ghost nodes = block_view(args@);
    assert(start =~= start + Seq::<Option<ValueView>>::empty());
    match symbols.get(identifier) {
        None => Err(undefined_function(identifier)),
        Some(PrimitiveValue::Function(function)) => {
            if args.len() != function.args.len() {
                return Err(wrong_arity(identifier, function.args.len(), args.len()));
            }
            if depth == 0 {
                return Err(too_deep(identifier));
            }
            let ghost params = names_view(function.args@);
            let ghost goal = eval_args(nodes, params, 0, env, env, depth as nat, Seq::empty());
            let ghost mut printed: Printed = Seq::empty();
            let mut scope = symbols.clone();
            let mut i: usize = 0;
            while i < args.len()
                invariant
                    i <= args.len(),
                    symbols@ == env,
                    printed_view(output@) == start + printed,
                    eval_args(nodes, params, i as nat, env, scope@, depth as nat, printed) == goal,
                decreases args.len() - i,
            {
                let ghost step = eval(nodes[i as int], env, depth as nat);
                let mut caller = symbols.clone();
                let result = run_ast(&args[i], &mut caller, output, depth);
                assert(printed_view(output@) =~= start + (printed + step.printed));
                match result {
                    Err(error) => {
                        return Err(error);
                    },
                    Ok(None) => {
                        return Err(no_argument(&args[i]));
                    },
                    Ok(Some(value)) => {
                        scope.insert(function.args[i].clone(), value);
                    },
                }
                proof {
                    printed = printed + step.printed;
                }
                i += 1;
            }
            let ghost callee = block_view(function.body@);
            let result = run_body(&function.body, &mut scope, output, depth - 1);
            proof {
                lemma_eval_body_prefix(callee, 0, goal.0->Ok_0, (depth - 1) as nat, printed);
                let plain = eval_body(callee, 0, goal.0->Ok_0, (depth - 1) as nat, Seq::empty());
                assert(printed_view(output@) =~= start + (printed + plain.printed));
            }
            result
        },
        Some(_) => Ok(None),
    }
}

/// Runs one node.
fn run_ast(
    ast: &AST,
    symbols: &mut SymbolStore,
    output: &mut Vec<Option<PrimitiveValue>>,
    depth: usize,
) -> (result: Result<Option<PrimitiveValue>, RuntimeError>)
    ensures
        run_is(
            result,
            final(symbols)@,
            printed_view(old(output)@),
            printed_view(final(output)@),
            eval(ast@, old(symbols)@, depth as nat),
        ),
    decreases depth, ast@, 1nat, 0nat,
{
    let ghost start = printed_view(output@);
    match ast {
        AST::Number { value } => {
            assert(start =~= start + Seq::<Option<ValueView>>::empty());
            Ok(Some(PrimitiveValue::Num(*value)))
        },
        AST::Bool { value } => {
            assert(start =~= start + Seq::<Option<ValueView>>::empty());
            Ok(Some(PrimitiveValue::Bool(*value)))
        },
        AST::Str { value } => {
            assert(start =~= start + Seq::<Option<ValueView>>::empty());
            Ok(Some(PrimitiveValue::Str(value.clone())))
        },
        AST::Binary { operator, left, right } => {
            match apply_binary_operator(left, right, *operator, symbols, output, depth) {
                Ok(value) => Ok(Some(value)),
                Err(error) => Err(error),
            }
        },
        AST::Proc { identifier, body, args } => {
            symbols.insert(
                identifier.clone(),
                PrimitiveValue::Function(
                    FunctionBody { body: clone_block(body), args: clone_names(args) },
                ),
            );
            assert(start =~= start + Seq::<Option<ValueView>>::empty());
            Ok(None)
        },
        AST::Call { identifier, args } => run_call(identifier, args, symbols, output, depth),
        AST::Return { value } => run_ast(value, symbols, output, depth),
        AST::Semicolon => {
            assert(start =~= start + Seq::<Option<ValueView>>::empty());
            Ok(None)
        },
        AST::Assign { identifier, value } => {
            match run_ast(value, symbols, output, depth) {
                Ok(Some(symbol_value)) => {
                    symbols.insert(identifier.clone(), symbol_value);
                    Ok(None)
                },
                Ok(None) => Ok(None),
                Err(error) => Err(error),
            }
        },
        AST::Print { value } => {
            match run_ast(value, symbols, output, depth) {
                Ok(value) => {
                    let ghost before = printed_view(output@);
                    output.push(value);
                    assert(printed_view(output@) =~= before.push(
                        match value {
                            Some(value) => Some(value@),
                            None => None,
                        },
                    ));
                    Ok(None)
                },
                Err(error) => Err(error),
            }
        },
        AST::Symbol { identifier } => {
            assert(start =~= start + Seq::<Option<ValueView>>::empty());
            match symbols.get(identifier) {
                Some(value) => Ok(Some(value.clone())),
                None => Err(undefined_symbol(identifier)),
            }
        },
        AST::If { this, elifs, el } => run_if(this, elifs, el, symbols, output, depth),
        AST::Do { count, body, identifier } => run_do(
            count,
            identifier,
            body,
            symbols,
            output,
            depth,
        ),
        AST::Throw { message } => {
            assert(start =~= start + Seq::<Option<ValueView>>::empty());
            Err(RuntimeError { message: message.clone() })
        },
        AST::EOF => {
            assert(start =~= start + Seq::<Option<ValueView>>::empty());
            Ok(None)
        },
        AST::Program { program: _ } => {
            assert(start =~= start + Seq::<Option<ValueView>>::empty());
            Err(nested_program())
        },
    }
}

/// Runs a conditional: the first branch whose condition is `true`, or the
/// `else` block; each condition and each block in a scope of its own.
#[verifier::loop_isolation(false)]
fn run_if(
    this: &If,
    elifs: &Option<Vec<If>>,
    el: &Option<Vec<Box<AST>>>,
    symbols: &mut SymbolStore,
    output: &mut Vec<Option<PrimitiveValue>>,
    depth: usize,
) -> (result: Result<Option<PrimitiveValue>, RuntimeError>)
    ensures
        run_is(
            result,
            final(symbols)@,
            printed_view(old(output)@),
            printed_view(final(output)@),
            eval(
                AstView::conditional(this@, optional_ifs_view(*elifs), optional_block_view(*el)),
                old(symbols)@,
                depth as nat,
            ),
        ),
    decreases
            depth,
            AstView::conditional(this@, optional_ifs_view(*elifs), optional_block_view(*el)),
            0nat,
            0nat,
{
    let ghost start = printed_view(output@);
    let ghost env = symbols@;
    let ghost condition = eval(*this@.conditional, env, depth as nat);
    let mut scope = symbols.clone();
    match run_ast(&this.conditional, &mut scope, output, depth) {
        Err(error) => Err(error),
        Ok(Some(PrimitiveValue::Bool(true))) => {
            let mut scope = symbols.clone();
            let result = run_body(&this.body, &mut scope, output, depth);
            proof {
                lemma_eval_body_prefix(this@.body, 0, env, depth as nat, condition.printed);
                let plain = eval_body(this@.body, 0, env, depth as nat, Seq::empty());
                assert(printed_view(output@) =~= start + (condition.printed + plain.printed));
            }
            result
        },
        Ok(Some(PrimitiveValue::Bool(false))) => {
            let ghost goal = match optional_ifs_view(*elifs) {
                Some(branches) => eval_elifs(branches, 0, env, depth as nat, condition.printed),
                None => (None, condition.printed),
            };
            let ghost mut printed: Printed = condition.printed;
            match elifs {
                Some(branches) => {
                    let ghost models = ifs_view(branches@);
                    let mut j: usize = 0;
                    while j < branches.len()
                        invariant
                            j <= branches.len(),
                            symbols@ == env,
                            printed_view(output@) == start + printed,
                            eval_elifs(models, j as nat, env, depth as nat, printed) == goal,
                        decreases branches.len() - j,
                    {
                        let ghost tested = eval(*models[j as int].conditional, env, depth as nat);
                        let mut scope = symbols.clone();
                        let result = run_ast(&branches[j].conditional, &mut scope, output, depth);
                        assert(printed_view(output@) =~= start + (printed + tested.printed));
                        match result {
                            Err(error) => {
                                return Err(error);
                            },
                            Ok(Some(PrimitiveValue::Bool(true))) => {
                                let mut scope = symbols.clone();
                                let result = run_body(&branches[j].body, &mut scope, output, depth);
                                proof {
                                    lemma_eval_body_prefix(
                                        models[j as int].body,
                                        0,
                                        env,
                                        depth as nat,
                                        printed + tested.printed,
                                    );
                                    let plain = eval_body(
                                        models[j as int].body,
                                        0,
                                        env,
                                        depth as nat,
                                        Seq::empty(),
                                    );
                                    assert(printed_view(output@) =~= start + ((printed
                                        + tested.printed) + plain.printed));
                                }
                                return result;
                            },
                            _ => {},
                        }
                        proof {
                            printed = printed + tested.printed;
                        }
                        j += 1;
                    }
                },
                None => {},
            }
            match el {
                Some(block) => {
                    let mut scope = symbols.clone();
                    let result = run_body(block, &mut scope, output, depth);
                    proof {
                        lemma_eval_body_prefix(block_view(block@), 0, env, depth as nat, printed);
                        let plain = eval_body(
                            block_view(block@),
                            0,
                            env,
                            depth as nat,
                            Seq::empty(),
                        );
                        assert(printed_view(output@) =~= start + (printed + plain.printed));
                    }
                    result
                },
                None => Ok(None),
            }
        },
        _ => Ok(None),
    }
}

/// Runs a counted loop in a scope of its own.
#[verifier::loop_isolation(false)]
fn run_do(
    count: &AST,
    identifier: &Option<String>,
    body: &Vec<Box<AST>>,
    symbols: &mut SymbolStore,
    output: &mut Vec<Option<PrimitiveValue>>,
    depth: usize,
) -> (result: Result<Option<PrimitiveValue>, RuntimeError>)
    ensures
        run_is(
            result,
            final(symbols)@,
            printed_view(old(output)@),
            printed_view(final(output)@),
            eval(
                AstView::counted(count@, optional_name_view(*identifier), block_view(body@)),
                old(symbols)@,
                depth as nat,
            ),
        ),
    decreases
            depth,
            AstView::counted(count@, optional_name_view(*identifier), block_view(body@)),
            0nat,
            0nat,
{
    let ghost start = printed_view(output@);
    let ghost env = symbols@;
    let ghost nodes = block_view(body@);
    let ghost name = optional_name_view(*identifier);
    let ghost counted = eval_value(count@, env, depth as nat);
    let mut scope = symbols.clone();
    match value_at(count, &mut scope, output, depth) {
        Ok(PrimitiveValue::Num(rounds)) => {
            let ghost goal = eval_do(
                nodes,
                name,
                0,
                rounds as int,
                env,
                depth as nat,
                counted.printed,
            );
            let ghost mut printed: Printed = counted.printed;
            let mut scope = symbols.clone();
            let mut i: i32 = 0;
            while i < rounds
                invariant
                    0 <= i,
                    symbols@ == env,
                    printed_view(output@) == start + printed,
                    eval_do(nodes, name, i as int, rounds as int, scope@, depth as nat, printed)
                        == goal,
                decreases rounds - i,
            {
                match identifier {
                    Some(identifier_value) => {
                        scope.insert(identifier_value.clone(), PrimitiveValue::Num(i));
                    },
                    None => {},
                }
                let ghost bound = scope@;
                let result = run_body(body, &mut scope, output, depth);
                proof {
                    lemma_eval_body_prefix(nodes, 0, bound, depth as nat, printed);
                    let plain = eval_body(nodes, 0, bound, depth as nat, Seq::empty());
                    assert(printed_view(output@) =~= start + (printed + plain.printed));
                    printed = printed + plain.printed;
                }
                match result {
                    Ok(None) => {},
                    _ => {
                        return result;
                    },
                }
                i += 1;
            }
            Ok(None)
        },
        _ => Ok(None),
    }
}

/// The value of a node that is expected to be a value: a literal, a bound
/// symbol, a binary expression, or a call that returns something. What
/// the evaluation prints is appended to `output`; the environment is left
/// as it was.
pub fn value_from_ast(
    ast: AST,
    symbols: &mut SymbolStore,
    options: &Options,
    output: &mut Vec<Option<PrimitiveValue>>,
) -> (result: Result<PrimitiveValue, RuntimeError>)
    ensures
        value_is(
            result,
            printed_view(old(output)@),
            printed_view(final(output)@),
            eval_value(ast@, old(symbols)@, options.call_depth as nat),
        ),
        final(symbols)@ == old(symbols)@,
{
    value_at(&ast, symbols, output, options.call_depth)
}

/// Runs the nodes of `body` in order and yields what the block returns,
/// if it returns anything. What the block prints is appended to `output`.
pub fn run_body_and_return(
    body: Vec<Box<AST>>,
    symbols: &mut SymbolStore,
    options: &Options,
    output: &mut Vec<Option<PrimitiveValue>>,
) -> (result: Result<Option<PrimitiveValue>, RuntimeError>)
    ensures
        run_is(
            result,
            final(symbols)@,
            printed_view(old(output)@),
            printed_view(final(output)@),
            run_program(block_view(body@), old(symbols)@, options.call_depth as nat),
        ),
{
    run_body(&body, symbols, output, options.call_depth)
}

/// Runs the program `root_program` in the environment `symbols` and
/// reports what it printed and how it ended.
pub fn interpret(root_program: AST, symbols: SymbolStore, options: &Options) -> (report: Report)
    requires
        root_program@ is Program,
    ensures
        report_is(
            report,
            run_program(root_program@->program, symbols@, options.call_depth as nat),
        ),
{
    let ghost env = symbols@;
    let mut symbols = symbols;
    let mut printed: Vec<Option<PrimitiveValue>> = Vec::new();
    assert(printed_view(printed@) =~= Seq::empty());
    match root_program {
        AST::Program { program } => {
            let result = run_body(&program, &mut symbols, &mut printed, options.call_depth);
            assert(printed_view(printed@) =~= run_program(
                block_view(program@),
                env,
                options.call_depth as nat,
            ).printed);
            match result {
                Err(error) => Report { printed, error: Some(error) },
                Ok(_) => Report { printed, error: None },
            }
        },
        _ => Report { printed, error: None },
    }
}

} // verus!
