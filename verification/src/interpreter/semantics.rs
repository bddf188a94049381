//! What evaluation means: the language's semantics as mathematical
//! functions from a node, an environment and a call-depth budget to a
//! result, an environment and the values printed on the way.

use vstd::prelude::*;
use crate::types::ast::AstView;
use crate::types::ast::FunctionView;
use crate::types::ast::IfView;
use crate::types::binary_operator::BinaryOperator;
use crate::types::error::not_implemented_message;
use crate::types::primitive_value::ValueView;
use crate::types::render::ast_text;
use crate::types::text::decimal_nat;
use crate::types::text::quoted_text;

verus! {

/// An environment: the values bound to identifiers.
pub type Env = Map<Seq<char>, ValueView>;

/// What a statement yields: a value, nothing, or the message of a runtime
/// error.
pub type Flow = Result<Option<ValueView>, Seq<char>>;

/// What was printed: each item is a value, or `None` for a `print` of
/// nothing.
pub type Printed = Seq<Option<ValueView>>;

/// The outcome of running a node: what it yields, the environment it
/// leaves, and what it printed.
pub struct Step {
    pub flow: Flow,
    pub env: Env,
    pub printed: Printed,
}

/// The outcome of evaluating a node for its value: the value or an error
/// message, and what was printed on the way. The environment is untouched.
pub struct ValueStep {
    pub flow: Result<ValueView, Seq<char>>,
    pub printed: Printed,
}

impl Step {
    /// Nothing yielded, nothing printed.
    pub open spec fn nothing(env: Env) -> Step {
        Step { flow: Ok(None), env, printed: Seq::empty() }
    }

    /// `value` yielded, nothing printed.
    pub open spec fn value(value: ValueView, env: Env) -> Step {
        Step { flow: Ok(Some(value)), env, printed: Seq::empty() }
    }

    /// A runtime error with `message`, nothing printed.
    pub open spec fn fail(message: Seq<char>, env: Env) -> Step {
        Step { flow: Err(message), env, printed: Seq::empty() }
    }

    /// This outcome, preceded by what was printed `earlier`.
    pub open spec fn after(self, earlier: Printed) -> Step {
        Step { flow: self.flow, env: self.env, printed: earlier + self.printed }
    }

    /// This outcome of a nested scope, seen from the enclosing scope: the
    /// enclosing environment `env` is left as it was.
    pub open spec fn leaving_scope(self, env: Env) -> Step {
        Step { flow: self.flow, env, printed: self.printed }
    }
}

/// The message for a symbol that is read as a statement and is not bound.
pub open spec fn undefined_symbol_message(identifier: Seq<char>) -> Seq<char> {
    "Tried to access undefined symbol: "@ + identifier
}

/// The message for a symbol that is read as an operand and is not bound.
pub open spec fn no_symbol_value_message(identifier: Seq<char>) -> Seq<char> {
    "Could not get value from Symbol: "@ + quoted_text(identifier)
}

/// The message for a call that yields nothing where a value is needed.
pub open spec fn no_return_message(identifier: Seq<char>) -> Seq<char> {
    "Function "@ + identifier + " didn't return value"@
}

/// The message for a node that has no value where one is needed.
pub open spec fn no_value_message(ast: AstView) -> Seq<char> {
    "Value of AST could not be determined "@ + ast_text(ast)
}

/// The message for a call of an identifier that is not bound.
pub open spec fn undefined_function_message(identifier: Seq<char>) -> Seq<char> {
    "Symbol "@ + identifier + " does not exist."@
}

/// The message for an argument that yields nothing.
pub open spec fn no_argument_message(argument: AstView) -> Seq<char> {
    "Could not evaluate arguemnt "@ + ast_text(argument)
}

/// The message for a call with the wrong number of arguments.
pub open spec fn arity_message(identifier: Seq<char>, expected: nat, given: nat) -> Seq<char> {
    "Function "@ + identifier + " expects "@ + decimal_nat(expected) + " arguments but got "@
        + decimal_nat(given)
}

/// The message for calls nested deeper than the budget allows.
pub open spec fn depth_message(identifier: Seq<char>) -> Seq<char> {
    "Call depth exceeded in "@ + identifier
}

/// The message for a program node inside a program.
pub open spec fn nested_program_message() -> Seq<char> {
    "Found program in AST."@
}

/// An operator result in which an undefined operator has become the
/// message of a runtime error.
pub open spec fn operator_flow(result: Result<ValueView, (Seq<char>, Seq<char>)>) -> Result<
    ValueView,
    Seq<char>,
> {
    match result {
        Ok(value) => Ok(value),
        Err(error) => Err(not_implemented_message(error)),
    }
}

/// `left operator right` on values. Addition, subtraction, multiplication
/// and equality are defined as far as the operand kinds allow; the other
/// operators are defined on no operands.
pub open spec fn apply_operator(operator: BinaryOperator, left: ValueView, right: ValueView)
    -> Result<ValueView, Seq<char>> {
    match operator {
        BinaryOperator::Add => operator_flow(left.sum(right)),
        BinaryOperator::Subtract => operator_flow(left.difference(right)),
        BinaryOperator::Multiply => operator_flow(left.product(right)),
        BinaryOperator::IsEq => operator_flow(left.equality(right)),
        _ => Err(not_implemented_message(left.undefined_with(right))),
    }
}

/// Applies `operator` to the values of the operands of a binary node,
/// the left operand evaluated first.
pub open spec fn eval_binary(node: AstView, env: Env, depth: nat) -> ValueStep
    decreases depth, node, 0nat, 0nat,
{
    match node {
        AstView::Binary { operator, left, right } => {
            let first = eval_value(*left, env, depth);
            match first.flow {
                Err(_) => first,
                Ok(left_value) => {
                    let second = eval_value(*right, env, depth);
                    let printed = first.printed + second.printed;
                    match second.flow {
                        Err(message) => ValueStep { flow: Err(message), printed },
                        Ok(right_value) => ValueStep {
                            flow: apply_operator(operator, left_value, right_value),
                            printed,
                        },
                    }
                },
            }
        },
        _ => ValueStep { flow: Err(no_value_message(node)), printed: Seq::empty() },
    }
}

/// The value of a node that is expected to be a value: a literal, a bound
/// symbol, a binary expression or a call that returns something.
pub open spec fn eval_value(ast: AstView, env: Env, depth: nat) -> ValueStep
    decreases depth, ast, 2nat, 0nat,
{
    match ast {
        AstView::Number { value } => ValueStep {
            flow: Ok(ValueView::Num(value)),
            printed: Seq::empty(),
        },
        AstView::Bool { value } => ValueStep {
            flow: Ok(ValueView::Bool(value)),
            printed: Seq::empty(),
        },
        AstView::Str { value } => ValueStep {
            flow: Ok(ValueView::Str(value)),
            printed: Seq::empty(),
        },
        AstView::Binary { .. } => eval_binary(ast, env, depth),
        AstView::Call { identifier, .. } => {
            let step = eval(ast, env, depth);
            match step.flow {
                Ok(Some(value)) => ValueStep { flow: Ok(value), printed: step.printed },
                Ok(None) => ValueStep {
                    flow: Err(no_return_message(identifier)),
                    printed: step.printed,
                },
                Err(message) => ValueStep { flow: Err(message), printed: step.printed },
            }
        },
        AstView::Symbol { identifier } => if env.contains_key(identifier) {
            ValueStep { flow: Ok(env[identifier]), printed: Seq::empty() }
        } else {
            ValueStep { flow: Err(no_symbol_value_message(identifier)), printed: Seq::empty() }
        },
        _ => ValueStep { flow: Err(no_value_message(ast)), printed: Seq::empty() },
    }
}

/// Runs the nodes of `body` from index `from` on, in order, with early
/// return: a `return` ends the block with what it yields, an `if` or a
/// `do` ends it when it yields a value, and an error ends it at once.
/// `printed` is what the nodes before `from` printed.
pub open spec fn eval_body(body: Seq<AstView>, from: nat, env: Env, depth: nat, printed: Printed)
    -> Step
    decreases depth, body, 0nat, body.len() - from,
{
    if from >= body.len() {
        Step { flow: Ok(None), env, printed }
    } else {
        let step = eval(body[from as int], env, depth);
        let ends = match body[from as int] {
            AstView::Return { .. } => true,
            AstView::Do { .. } | AstView::If { .. } => step.flow matches Ok(Some(_)),
            _ => false,
        };
        if ends || step.flow is Err {
            step.after(printed)
        } else {
            eval_body(body, from + 1, step.env, depth, printed + step.printed)
        }
    }
}

/// Binds the parameters from index `i` on to the values of the arguments,
/// each argument evaluated in the caller's environment `env`, and yields
/// the environment of the call, or the error that an argument raised.
/// `scope` holds the bindings made so far and `printed` what the arguments
/// before `i` printed.
pub open spec fn eval_args(
    args: Seq<AstView>,
    params: Seq<Seq<char>>,
    i: nat,
    env: Env,
    scope: Env,
    depth: nat,
    printed: Printed,
) -> (Result<Env, Seq<char>>, Printed)
    decreases depth, args, 0nat, args.len() - i,
{
    if i >= args.len() {
        (Ok(scope), printed)
    } else {
        let step = eval(args[i as int], env, depth);
        match step.flow {
            Err(message) => (Err(message), printed + step.printed),
            Ok(None) => (Err(no_argument_message(args[i as int])), printed + step.printed),
            Ok(Some(value)) => eval_args(
                args,
                params,
                i + 1,
                env,
                scope.insert(params[i as int], value),
                depth,
                printed + step.printed,
            ),
        }
    }
}

/// Tries the `else if` branches from index `j` on, in order: the first
/// whose condition is `true` runs its block, in a scope of its own. The
/// first component is `None` when no branch runs or fails; the second is
/// all that was printed, `printed` from the branches before `j` included.
pub open spec fn eval_elifs(elifs: Seq<IfView>, j: nat, env: Env, depth: nat, printed: Printed)
    -> (Option<Flow>, Printed)
    decreases depth, elifs, 0nat, elifs.len() - j,
{
    if j >= elifs.len() {
        (None, printed)
    } else {
        let condition = eval(*elifs[j as int].conditional, env, depth);
        match condition.flow {
            Err(message) => (Some(Err(message)), printed + condition.printed),
            Ok(Some(ValueView::Bool(true))) => {
                let step = eval_body(
                    elifs[j as int].body,
                    0,
                    env,
                    depth,
                    printed + condition.printed,
                );
                (Some(step.flow), step.printed)
            },
            _ => eval_elifs(elifs, j + 1, env, depth, printed + condition.printed),
        }
    }
}

/// Runs the block of a counted loop for the indices from `i` up to `count`,
/// in one environment `scope` that lasts for the whole loop. A block that
/// yields a value, or fails, ends the loop. `printed` is what the rounds
/// before `i` printed.
pub open spec fn eval_do(
    body: Seq<AstView>,
    identifier: Option<Seq<char>>,
    i: int,
    count: int,
    scope: Env,
    depth: nat,
    printed: Printed,
) -> Step
    decreases depth, body, 1nat, count - i,
{
    if i >= count {
        Step { flow: Ok(None), env: scope, printed }
    } else {
        let bound = match identifier {
            Some(name) => scope.insert(name, ValueView::Num(i as i32)),
            None => scope,
        };
        let step = eval_body(body, 0, bound, depth, printed);
        match step.flow {
            Ok(None) => eval_do(body, identifier, i + 1, count, step.env, depth, step.printed),
            _ => step,
        }
    }
}

/// Runs one node.
pub open spec fn eval(ast: AstView, env: Env, depth: nat) -> Step
    decreases depth, ast, 1nat, 0nat,
{
    match ast {
        AstView::Number { value } => Step::value(ValueView::Num(value), env),
        AstView::Bool { value } => Step::value(ValueView::Bool(value), env),
        AstView::Str { value } => Step::value(ValueView::Str(value), env),
        AstView::Binary { .. } => {
            let result = eval_binary(ast, env, depth);
            Step {
                flow: match result.flow {
                    Ok(value) => Ok(Some(value)),
                    Err(message) => Err(message),
                },
                env,
                printed: result.printed,
            }
        },
        AstView::Proc { identifier, args, body } => Step::nothing(
            env.insert(identifier, ValueView::Function(FunctionView { body, args })),
        ),
        AstView::Call { identifier, args } => {
            if !env.contains_key(identifier) {
                Step::fail(undefined_function_message(identifier), env)
            } else {
                match env[identifier] {
                    ValueView::Function(function) => {
                        if args.len() != function.args.len() {
                            Step::fail(
                                arity_message(identifier, function.args.len(), args.len()),
                                env,
                            )
                        } else if depth == 0 {
                            Step::fail(depth_message(identifier), env)
                        } else {
                            let bound = eval_args(
                                args,
                                function.args,
                                0,
                                env,
                                env,
                                depth,
                                Seq::empty(),
                            );
                            match bound.0 {
                                Err(message) => Step {
                                    flow: Err(message),
                                    env,
                                    printed: bound.1,
                                },
                                Ok(scope) => eval_body(
                                    function.body,
                                    0,
                                    scope,
                                    (depth - 1) as nat,
                                    bound.1,
                                ).leaving_scope(env),
                            }
                        }
                    },
                    _ => Step::nothing(env),
                }
            }
        },
        AstView::Return { value } => eval(*value, env, depth),
        AstView::Semicolon => Step::nothing(env),
        AstView::Assign { identifier, value } => {
            let step = eval(*value, env, depth);
            match step.flow {
                Ok(Some(value)) => Step {
                    flow: Ok(None),
                    env: step.env.insert(identifier, value),
                    printed: step.printed,
                },
                Ok(None) => step,
                Err(_) => step,
            }
        },
        AstView::Print { value } => {
            let step = eval(*value, env, depth);
            match step.flow {
                Ok(value) => Step {
                    flow: Ok(None),
                    env: step.env,
                    printed: step.printed.push(value),
                },
                Err(_) => step,
            }
        },
        AstView::Symbol { identifier } => if env.contains_key(identifier) {
            Step::value(env[identifier], env)
        } else {
            Step::fail(undefined_symbol_message(identifier), env)
        },
        AstView::If { this, elifs, el } => {
            let condition = eval(*this.conditional, env, depth);
            match condition.flow {
                Err(message) => Step { flow: Err(message), env, printed: condition.printed },
                Ok(Some(ValueView::Bool(true))) => eval_body(
                    this.body,
                    0,
                    env,
                    depth,
                    condition.printed,
                ).leaving_scope(env),
                Ok(Some(ValueView::Bool(false))) => {
                    let tried = match elifs {
                        Some(elifs) => eval_elifs(elifs, 0, env, depth, condition.printed),
                        None => (None, condition.printed),
                    };
                    match tried.0 {
                        Some(flow) => Step { flow, env, printed: tried.1 },
                        None => match el {
                            Some(el) => eval_body(el, 0, env, depth, tried.1).leaving_scope(env),
                            None => Step { flow: Ok(None), env, printed: tried.1 },
                        },
                    }
                },
                _ => Step { flow: Ok(None), env, printed: condition.printed },
            }
        },
        AstView::Do { count, identifier, body } => {
            let counted = eval_value(*count, env, depth);
            match counted.flow {
                Ok(ValueView::Num(count)) => eval_do(
                    body,
                    identifier,
                    0,
                    count as int,
                    env,
                    depth,
                    counted.printed,
                ).leaving_scope(env),
                _ => Step { flow: Ok(None), env, printed: counted.printed },
            }
        },
        AstView::Throw { message } => Step::fail(message, env),
        AstView::EOF => Step::nothing(env),
        AstView::Program { .. } => Step::fail(nested_program_message(), env),
    }
}

/// Runs a program: its statements in order, from nothing printed.
pub open spec fn run_program(program: Seq<AstView>, env: Env, depth: nat) -> Step {
    eval_body(program, 0, env, depth, Seq::empty())
}

/// A conditional, a counted loop and a call run in scopes of their own:
/// whatever they bind or rebind inside, the environment they were run in
/// is afterwards what it was before.
pub proof fn lemma_scope_isolation(ast: AstView, env: Env, depth: nat)
    requires
        ast is If || ast is Do || ast is Call,
    ensures
        eval(ast, env, depth).env == env,
{
}

/// What a block prints after `printed` is `printed` followed by what it
/// prints after nothing; its result and environment do not depend on
/// `printed`.
pub proof fn lemma_eval_body_prefix(
    body: Seq<AstView>,
    from: nat,
    env: Env,
    depth: nat,
    printed: Printed,
)
    ensures
        eval_body(body, from, env, depth, printed) == eval_body(
            body,
            from,
            env,
            depth,
            Seq::empty(),
        ).after(printed),
    decreases body.len() - from,
{
    let plain = eval_body(body, from, env, depth, Seq::empty());
    if from >= body.len() {
        assert(printed =~= printed + Seq::<Option<ValueView>>::empty());
    } else {
        let step = eval(body[from as int], env, depth);
        let ends = match body[from as int] {
            AstView::Return { .. } => true,
            AstView::Do { .. } | AstView::If { .. } => step.flow matches Ok(Some(_)),
            _ => false,
        };
        if ends || step.flow is Err {
            assert(step.printed =~= Seq::<Option<ValueView>>::empty() + step.printed);
        } else {
            lemma_eval_body_prefix(body, from + 1, step.env, depth, printed + step.printed);
            lemma_eval_body_prefix(
                body,
                from + 1,
                step.env,
                depth,
                Seq::<Option<ValueView>>::empty() + step.printed,
            );
            let rest = eval_body(body, from + 1, step.env, depth, Seq::empty());
            assert((printed + step.printed) + rest.printed =~= printed + ((Seq::<
                Option<ValueView>,
            >::empty() + step.printed) + rest.printed));
        }
    }
}

} // verus!
