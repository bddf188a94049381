use eye_lang::interpreter::interpret;
use eye_lang::interpreter::interpreter::apply_operator_to;
use eye_lang::interpreter::report::printed_line;
use eye_lang::interpreter::report::Report;
use eye_lang::interpreter::run_body_and_return;
use eye_lang::interpreter::value_from_ast;
use eye_lang::types::ast::FunctionBody;
use eye_lang::types::ast::If;
use eye_lang::types::ast::AST;
use eye_lang::types::binary_operator::BinaryOperator;
use eye_lang::types::error::RuntimeError;
use eye_lang::types::options::Options;
use eye_lang::types::primitive_value::PrimitiveValue;
use eye_lang::types::symbol_store::create_symbol_store;
use eye_lang::types::symbol_store::SymbolStore;

fn number(value: i32) -> Box<AST> {
    Box::from(AST::Number { value })
}

fn boolean(value: bool) -> Box<AST> {
    Box::from(AST::Bool { value })
}

fn text(value: &str) -> Box<AST> {
    Box::from(AST::Str { value: value.to_string() })
}

fn symbol(name: &str) -> Box<AST> {
    Box::from(AST::Symbol { identifier: name.to_string() })
}

fn binary(operator: BinaryOperator, left: Box<AST>, right: Box<AST>) -> Box<AST> {
    Box::from(AST::Binary { operator, left, right })
}

fn assign(name: &str, value: Box<AST>) -> Box<AST> {
    Box::from(AST::Assign { identifier: name.to_string(), value })
}

fn print(value: Box<AST>) -> Box<AST> {
    Box::from(AST::Print { value })
}

fn ret(value: Box<AST>) -> Box<AST> {
    Box::from(AST::Return { value })
}

fn call(name: &str, args: Vec<Box<AST>>) -> Box<AST> {
    Box::from(AST::Call { identifier: name.to_string(), args })
}

fn procedure(name: &str, args: Vec<&str>, body: Vec<Box<AST>>) -> Box<AST> {
    Box::from(AST::Proc {
        identifier: name.to_string(),
        args: args.into_iter().map(|arg| arg.to_string()).collect(),
        body,
    })
}

fn conditional(
    condition: Box<AST>,
    body: Vec<Box<AST>>,
    elifs: Option<Vec<(Box<AST>, Vec<Box<AST>>)>>,
    el: Option<Vec<Box<AST>>>,
) -> Box<AST> {
    Box::from(AST::If {
        this: If { conditional: condition, body },
        elifs: elifs.map(|branches| {
            branches
                .into_iter()
                .map(|(conditional, body)| If { conditional, body })
                .collect()
        }),
        el,
    })
}

fn counted(count: Box<AST>, name: Option<&str>, body: Vec<Box<AST>>) -> Box<AST> {
    Box::from(AST::Do { count, identifier: name.map(|name| name.to_string()), body })
}

fn error(message: &str) -> RuntimeError {
    RuntimeError { message: message.to_string() }
}

/// Runs `body` in a fresh environment: what it yields, the environment it
/// leaves, and what it printed.
fn run(
    body: Vec<Box<AST>>,
) -> (Result<Option<PrimitiveValue>, RuntimeError>, SymbolStore, Vec<Option<PrimitiveValue>>) {
    let mut symbols = create_symbol_store();
    let mut output = Vec::new();
    let result = run_body_and_return(body, &mut symbols, &Options::debug(), &mut output);
    (result, symbols, output)
}

fn bound(symbols: &SymbolStore, name: &str) -> Option<PrimitiveValue> {
    symbols.get(&name.to_string()).cloned()
}

#[test]
fn run_operator_on_numbers() {
    // we have to return the value to read it
    let program = vec![Box::from(AST::Return {
        value: Box::from(AST::Binary {
            operator: BinaryOperator::Add,
            right: Box::from(AST::Binary {
                operator: BinaryOperator::Multiply,
                left: Box::from(AST::Number { value: 20 }),
                right: Box::from(AST::Number { value: 2 }),
            }),
            left: Box::from(AST::Number { value: 10 }),
        }),
    })];

    let mut symbols = create_symbol_store();
    let mut output = Vec::new();
    let result = run_body_and_return(program, &mut symbols, &Options::debug(), &mut output)
        .unwrap()
        .unwrap();

    if let PrimitiveValue::Num(result) = result {
        assert_eq!(result, 50);
    }
    assert_eq!(result, PrimitiveValue::Num(50));
    assert!(output.is_empty());
}

#[test]
fn arithmetic_precedence_scenario() {
    let tree = binary(
        BinaryOperator::Add,
        number(10),
        binary(BinaryOperator::Multiply, number(20), number(1)),
    );
    let (result, _, output) = run(vec![ret(tree)]);
    assert_eq!(result, Ok(Some(PrimitiveValue::Num(30))));
    assert!(output.is_empty());
}

#[test]
fn a_block_without_return_yields_nothing() {
    let (result, symbols, output) =
        run(vec![number(1), assign("x", number(2)), Box::from(AST::Semicolon)]);
    assert_eq!(result, Ok(None));
    assert_eq!(bound(&symbols, "x"), Some(PrimitiveValue::Num(2)));
    assert!(output.is_empty());
}

#[test]
fn return_ends_the_block() {
    let (result, symbols, output) = run(vec![
        print(number(1)),
        ret(number(2)),
        print(number(3)),
        assign("late", number(4)),
    ]);
    assert_eq!(result, Ok(Some(PrimitiveValue::Num(2))));
    assert_eq!(output, vec![Some(PrimitiveValue::Num(1))]);
    assert_eq!(bound(&symbols, "late"), None);
}

#[test]
fn return_of_nothing_ends_the_block_too() {
    let (result, _, output) = run(vec![ret(Box::from(AST::Semicolon)), print(number(3))]);
    assert_eq!(result, Ok(None));
    assert!(output.is_empty());
}

#[test]
fn print_shows_values_and_nothing() {
    let (result, _, output) = run(vec![
        print(number(-1)),
        print(text("hi")),
        print(boolean(true)),
        print(Box::from(AST::Semicolon)),
    ]);
    assert_eq!(result, Ok(None));
    assert_eq!(
        output,
        vec![
            Some(PrimitiveValue::Num(-1)),
            Some(PrimitiveValue::Str("hi".to_string())),
            Some(PrimitiveValue::Bool(true)),
            None,
        ]
    );
    let lines: Vec<String> = output.iter().map(printed_line).collect();
    assert_eq!(lines, vec!["-1", "hi", "true", "''"]);
}

#[test]
fn equality_print_scenario() {
    let (_, _, output) = run(vec![print(binary(BinaryOperator::IsEq, number(10), number(20)))]);
    assert_eq!(output, vec![Some(PrimitiveValue::Bool(false))]);
    assert_eq!(printed_line(&output[0]), "false");
}

#[test]
fn assignment_overwrites() {
    let (_, symbols, _) = run(vec![
        assign("x", number(1)),
        assign("x", binary(BinaryOperator::Add, symbol("x"), number(1))),
        assign("y", Box::from(AST::Semicolon)),
    ]);
    assert_eq!(bound(&symbols, "x"), Some(PrimitiveValue::Num(2)));
    assert_eq!(bound(&symbols, "y"), None);
}

#[test]
fn undefined_symbol_scenario() {
    let (result, _, output) = run(vec![print(symbol("x"))]);
    assert_eq!(result, Err(error("Tried to access undefined symbol: x")));
    assert!(output.is_empty());
}

#[test]
fn an_unbound_operand_has_a_message_of_its_own() {
    let (result, _, _) = run(vec![binary(BinaryOperator::Add, symbol("x"), number(1))]);
    assert_eq!(result, Err(error("Could not get value from Symbol: \"x\"")));
    let (result, _, _) = run(vec![binary(BinaryOperator::Add, symbol("a\"b"), number(1))]);
    assert_eq!(result, Err(error("Could not get value from Symbol: \"a\\\"b\"")));
}

#[test]
fn operands_must_be_values() {
    let (result, _, _) = run(vec![binary(BinaryOperator::Add, print(number(1)), number(1))]);
    assert_eq!(
        result,
        Err(error("Value of AST could not be determined Print Number(1)"))
    );
    let nested = conditional(
        boolean(true),
        vec![number(1)],
        Some(vec![(symbol("c"), vec![])]),
        Some(vec![text("e")]),
    );
    let (result, _, _) = run(vec![binary(BinaryOperator::Add, nested, number(1))]);
    assert_eq!(
        result,
        Err(error(
            "Value of AST could not be determined If If { conditional: Bool(true), body: \
             [Number(1)] } Some([If { conditional: Symbol (c), body: [] }]) Some([String(e)])"
        ))
    );
}

#[test]
fn the_left_operand_comes_first() {
    let (result, _, _) = run(vec![binary(BinaryOperator::Add, symbol("l"), symbol("r"))]);
    assert_eq!(result, Err(error("Could not get value from Symbol: \"l\"")));
}

#[test]
fn undefined_operators_are_runtime_errors() {
    let (result, _, _) = run(vec![binary(BinaryOperator::Add, number(1), boolean(true))]);
    assert_eq!(result, Err(error("Operator not implemented for 1 and true.")));
    let (result, _, _) = run(vec![binary(BinaryOperator::IsEq, number(1), text("1"))]);
    assert_eq!(result, Err(error("Operator not implemented for 1 and 1.")));
    for operator in [BinaryOperator::Divide, BinaryOperator::IsNEq, BinaryOperator::Assign] {
        let (result, _, _) = run(vec![binary(operator, number(6), number(3))]);
        assert_eq!(result, Err(error("Operator not implemented for 6 and 3.")));
    }
}

#[test]
fn operators_on_values() {
    assert_eq!(
        apply_operator_to(BinaryOperator::Subtract, PrimitiveValue::Num(3), PrimitiveValue::Num(5)),
        Ok(PrimitiveValue::Num(-2))
    );
    assert_eq!(
        apply_operator_to(
            BinaryOperator::Add,
            PrimitiveValue::Str("a".to_string()),
            PrimitiveValue::Str("b".to_string())
        ),
        Ok(PrimitiveValue::Str("ab".to_string()))
    );
    assert_eq!(
        apply_operator_to(
            BinaryOperator::IsEq,
            PrimitiveValue::Str("a".to_string()),
            PrimitiveValue::Str("a".to_string())
        ),
        Ok(PrimitiveValue::Bool(true))
    );
    assert_eq!(
        apply_operator_to(BinaryOperator::Divide, PrimitiveValue::Num(1), PrimitiveValue::Num(0)),
        Err(error("Operator not implemented for 1 and 0."))
    );
}

#[test]
fn throw_raises_its_message() {
    let (result, _, output) = run(vec![
        print(number(1)),
        Box::from(AST::Throw { message: "boom".to_string() }),
        print(number(2)),
    ]);
    assert_eq!(result, Err(error("boom")));
    assert_eq!(output, vec![Some(PrimitiveValue::Num(1))]);
}

#[test]
fn a_nested_program_is_an_error() {
    let (result, _, _) = run(vec![Box::from(AST::Program { program: vec![] })]);
    assert_eq!(result, Err(error("Found program in AST.")));
}

#[test]
fn a_procedure_is_a_value() {
    let (result, symbols, _) = run(vec![procedure("f", vec!["a"], vec![ret(symbol("a"))])]);
    assert_eq!(result, Ok(None));
    assert_eq!(
        bound(&symbols, "f"),
        Some(PrimitiveValue::Function(FunctionBody {
            body: vec![ret(symbol("a"))],
            args: vec!["a".to_string()],
        }))
    );
}

#[test]
fn calls_bind_arguments_in_order() {
    let (result, _, output) = run(vec![
        procedure(
            "sub",
            vec!["a", "b"],
            vec![ret(binary(BinaryOperator::Subtract, symbol("a"), symbol("b")))],
        ),
        ret(call("sub", vec![number(10), number(3)])),
    ]);
    assert_eq!(result, Ok(Some(PrimitiveValue::Num(7))));
    assert!(output.is_empty());
}

#[test]
fn arguments_are_evaluated_left_to_right_before_the_body() {
    let (result, _, output) = run(vec![
        procedure("show", vec!["n"], vec![print(symbol("n")), ret(symbol("n"))]),
        procedure("both", vec!["a", "b"], vec![print(text("body"))]),
        call("both", vec![call("show", vec![number(1)]), call("show", vec![number(2)])]),
    ]);
    assert_eq!(result, Ok(None));
    assert_eq!(
        output,
        vec![
            Some(PrimitiveValue::Num(1)),
            Some(PrimitiveValue::Num(2)),
            Some(PrimitiveValue::Str("body".to_string())),
        ]
    );
}

#[test]
fn call_errors() {
    let (result, _, _) = run(vec![call("nowhere", vec![])]);
    assert_eq!(result, Err(error("Symbol nowhere does not exist.")));

    let (result, _, _) = run(vec![
        procedure("f", vec!["a", "b"], vec![]),
        call("f", vec![number(1)]),
    ]);
    assert_eq!(result, Err(error("Function f expects 2 arguments but got 1")));

    let (result, _, _) = run(vec![
        procedure("f", vec!["a"], vec![]),
        call("f", vec![print(number(1))]),
    ]);
    assert_eq!(result, Err(error("Could not evaluate arguemnt Print Number(1)")));

    let (result, _, _) = run(vec![
        procedure("f", vec![], vec![]),
        binary(BinaryOperator::Add, call("f", vec![]), number(1)),
    ]);
    assert_eq!(result, Err(error("Function f didn't return value")));
}

#[test]
fn calling_what_is_no_procedure_yields_nothing() {
    let (result, _, output) = run(vec![assign("x", number(1)), ret(call("x", vec![]))]);
    assert_eq!(result, Ok(None));
    assert!(output.is_empty());
}

#[test]
fn calls_nest_only_so_deep() {
    let body = vec![
        procedure("down", vec![], vec![ret(call("down", vec![]))]),
        ret(call("down", vec![])),
    ];
    let mut symbols = create_symbol_store();
    let mut output = Vec::new();
    let options = Options { debug: false, call_depth: 5 };
    let result = run_body_and_return(body, &mut symbols, &options, &mut output);
    assert_eq!(result, Err(error("Call depth exceeded in down")));
}

#[test]
fn a_call_at_the_depth_limit_still_runs() {
    let body = || {
        vec![
            procedure("one", vec![], vec![ret(number(1))]),
            procedure("two", vec![], vec![ret(call("one", vec![]))]),
            ret(call("two", vec![])),
        ]
    };
    let mut output = Vec::new();
    let enough = Options { debug: false, call_depth: 2 };
    assert_eq!(
        run_body_and_return(body(), &mut create_symbol_store(), &enough, &mut output),
        Ok(Some(PrimitiveValue::Num(1)))
    );
    let short = Options { debug: false, call_depth: 1 };
    assert_eq!(
        run_body_and_return(body(), &mut create_symbol_store(), &short, &mut output),
        Err(error("Call depth exceeded in one"))
    );
    let none = Options { debug: false, call_depth: 0 };
    assert_eq!(
        run_body_and_return(body(), &mut create_symbol_store(), &none, &mut output),
        Err(error("Call depth exceeded in two"))
    );
}

#[test]
fn a_call_leaves_the_callers_environment_alone() {
    let (result, symbols, _) = run(vec![
        assign("x", number(1)),
        procedure(
            "f",
            vec!["p"],
            vec![assign("x", number(2)), assign("inner", number(3)), ret(symbol("x"))],
        ),
        ret(call("f", vec![number(9)])),
    ]);
    assert_eq!(result, Ok(Some(PrimitiveValue::Num(2))));
    assert_eq!(bound(&symbols, "x"), Some(PrimitiveValue::Num(1)));
    assert_eq!(bound(&symbols, "inner"), None);
    assert_eq!(bound(&symbols, "p"), None);
}

#[test]
fn a_conditional_leaves_the_environment_alone() {
    let (result, symbols, _) = run(vec![
        assign("x", number(1)),
        conditional(
            boolean(true),
            vec![assign("x", number(2)), assign("inner", number(3))],
            None,
            None,
        ),
    ]);
    assert_eq!(result, Ok(None));
    assert_eq!(bound(&symbols, "x"), Some(PrimitiveValue::Num(1)));
    assert_eq!(bound(&symbols, "inner"), None);
}

#[test]
fn a_loop_leaves_the_environment_alone() {
    let (result, symbols, _) = run(vec![
        assign("x", number(1)),
        counted(number(3), Some("i"), vec![assign("x", symbol("i"))]),
    ]);
    assert_eq!(result, Ok(None));
    assert_eq!(bound(&symbols, "x"), Some(PrimitiveValue::Num(1)));
    assert_eq!(bound(&symbols, "i"), None);
}

#[test]
fn conditionals_take_the_first_true_branch() {
    let choose = |n: i32| {
        run(vec![
            assign("n", number(n)),
            conditional(
                binary(BinaryOperator::IsEq, symbol("n"), number(0)),
                vec![ret(text("zero"))],
                Some(vec![
                    (binary(BinaryOperator::IsEq, symbol("n"), number(1)), vec![ret(text("one"))]),
                    (number(5), vec![ret(text("never"))]),
                    (binary(BinaryOperator::IsEq, symbol("n"), number(2)), vec![ret(text("two"))]),
                ]),
                Some(vec![ret(text("many"))]),
            ),
            ret(text("after")),
        ])
        .0
    };
    assert_eq!(choose(0), Ok(Some(PrimitiveValue::Str("zero".to_string()))));
    assert_eq!(choose(1), Ok(Some(PrimitiveValue::Str("one".to_string()))));
    assert_eq!(choose(2), Ok(Some(PrimitiveValue::Str("two".to_string()))));
    assert_eq!(choose(3), Ok(Some(PrimitiveValue::Str("many".to_string()))));
}

#[test]
fn a_conditional_without_a_truth_value_does_nothing() {
    let (result, _, output) = run(vec![
        conditional(number(1), vec![print(text("then"))], None, Some(vec![print(text("else"))])),
        conditional(
            Box::from(AST::Semicolon),
            vec![print(text("then"))],
            None,
            Some(vec![print(text("else"))]),
        ),
    ]);
    assert_eq!(result, Ok(None));
    assert!(output.is_empty());
}

#[test]
fn a_false_conditional_without_else_does_nothing() {
    let (result, _, output) = run(vec![
        conditional(boolean(false), vec![print(text("then"))], None, None),
        conditional(boolean(false), vec![print(text("then"))], Some(vec![]), None),
    ]);
    assert_eq!(result, Ok(None));
    assert!(output.is_empty());
}

#[test]
fn a_conditional_that_yields_nothing_lets_the_block_go_on() {
    let (result, _, output) = run(vec![
        conditional(boolean(true), vec![print(text("then"))], None, None),
        ret(number(1)),
    ]);
    assert_eq!(result, Ok(Some(PrimitiveValue::Num(1))));
    assert_eq!(output, vec![Some(PrimitiveValue::Str("then".to_string()))]);
}

#[test]
fn errors_in_conditions_are_raised() {
    let (result, _, _) = run(vec![conditional(symbol("c"), vec![], None, None)]);
    assert_eq!(result, Err(error("Tried to access undefined symbol: c")));
    let (result, _, _) = run(vec![conditional(
        boolean(false),
        vec![],
        Some(vec![(symbol("d"), vec![])]),
        None,
    )]);
    assert_eq!(result, Err(error("Tried to access undefined symbol: d")));
}

#[test]
fn loops_count_from_zero() {
    let (result, _, output) = run(vec![counted(number(3), Some("i"), vec![print(symbol("i"))])]);
    assert_eq!(result, Ok(None));
    assert_eq!(
        output,
        vec![
            Some(PrimitiveValue::Num(0)),
            Some(PrimitiveValue::Num(1)),
            Some(PrimitiveValue::Num(2)),
        ]
    );
}

#[test]
fn a_loop_keeps_its_environment_between_rounds() {
    let (result, _, output) = run(vec![
        assign("sum", number(0)),
        counted(
            number(4),
            Some("i"),
            vec![
                assign("sum", binary(BinaryOperator::Add, symbol("sum"), symbol("i"))),
                print(symbol("sum")),
            ],
        ),
    ]);
    assert_eq!(result, Ok(None));
    assert_eq!(
        output,
        vec![
            Some(PrimitiveValue::Num(0)),
            Some(PrimitiveValue::Num(1)),
            Some(PrimitiveValue::Num(3)),
            Some(PrimitiveValue::Num(6)),
        ]
    );
}

#[test]
fn a_loop_ends_when_its_block_returns() {
    let (result, _, output) = run(vec![
        counted(
            number(10),
            Some("i"),
            vec![
                print(symbol("i")),
                conditional(
                    binary(BinaryOperator::IsEq, symbol("i"), number(1)),
                    vec![ret(text("found"))],
                    None,
                    None,
                ),
            ],
        ),
        print(text("unreached")),
    ]);
    assert_eq!(result, Ok(Some(PrimitiveValue::Str("found".to_string()))));
    assert_eq!(output, vec![Some(PrimitiveValue::Num(0)), Some(PrimitiveValue::Num(1))]);
}

#[test]
fn loops_that_do_not_run() {
    let (result, _, output) = run(vec![
        counted(number(0), None, vec![print(number(1))]),
        counted(number(-3), None, vec![print(number(1))]),
        counted(text("3"), None, vec![print(number(1))]),
        counted(symbol("unbound"), None, vec![print(number(1))]),
    ]);
    assert_eq!(result, Ok(None));
    assert!(output.is_empty());
}

#[test]
fn an_error_inside_a_loop_is_raised() {
    let (result, _, output) = run(vec![counted(
        number(3),
        Some("i"),
        vec![print(symbol("i")), Box::from(AST::Throw { message: "stop".to_string() })],
    )]);
    assert_eq!(result, Err(error("stop")));
    assert_eq!(output, vec![Some(PrimitiveValue::Num(0))]);
}

#[test]
fn values_of_nodes() {
    let mut symbols = create_symbol_store();
    symbols.insert("x".to_string(), PrimitiveValue::Num(4));
    let mut output = Vec::new();
    let options = Options::default();
    assert_eq!(
        value_from_ast(AST::Number { value: 3 }, &mut symbols, &options, &mut output),
        Ok(PrimitiveValue::Num(3))
    );
    assert_eq!(
        value_from_ast(AST::Bool { value: true }, &mut symbols, &options, &mut output),
        Ok(PrimitiveValue::Bool(true))
    );
    assert_eq!(
        value_from_ast(AST::Str { value: "s".to_string() }, &mut symbols, &options, &mut output),
        Ok(PrimitiveValue::Str("s".to_string()))
    );
    assert_eq!(
        value_from_ast(*symbol("x"), &mut symbols, &options, &mut output),
        Ok(PrimitiveValue::Num(4))
    );
    assert_eq!(
        value_from_ast(
            *binary(BinaryOperator::Multiply, symbol("x"), number(5)),
            &mut symbols,
            &options,
            &mut output
        ),
        Ok(PrimitiveValue::Num(20))
    );
    assert_eq!(
        value_from_ast(AST::Semicolon, &mut symbols, &options, &mut output),
        Err(error("Value of AST could not be determined ;"))
    );
    assert_eq!(
        value_from_ast(AST::EOF, &mut symbols, &options, &mut output),
        Err(error("Value of AST could not be determined EOF"))
    );
    assert!(output.is_empty());
}

#[test]
fn interpret_reports_what_was_printed() {
    let program = AST::Program {
        program: vec![
            print(number(1)),
            print(Box::from(AST::EOF)),
            ret(number(5)),
            print(number(2)),
        ],
    };
    let report = interpret(program, create_symbol_store(), &Options::default());
    assert_eq!(
        report,
        Report { printed: vec![Some(PrimitiveValue::Num(1)), None], error: None }
    );
    assert_eq!(report.last_line(0), "Done in 0ms");
    assert_eq!(report.last_line(1234), "Done in 1234ms");
    assert_eq!(
        report.last_line(u128::MAX),
        "Done in 340282366920938463463374607431768211455ms"
    );
}

#[test]
fn interpret_reports_the_error() {
    let program = AST::Program { program: vec![print(number(1)), print(symbol("x"))] };
    let report = interpret(program, create_symbol_store(), &Options::default());
    assert_eq!(
        report,
        Report {
            printed: vec![Some(PrimitiveValue::Num(1))],
            error: Some(error("Tried to access undefined symbol: x")),
        }
    );
    assert_eq!(
        report.last_line(7),
        "Runtime Error! Tried to access undefined symbol: x"
    );
}

#[test]
fn interpret_starts_from_the_given_environment() {
    let mut symbols = create_symbol_store();
    symbols.insert("x".to_string(), PrimitiveValue::Num(41));
    let program = AST::Program {
        program: vec![print(binary(BinaryOperator::Add, symbol("x"), number(1)))],
    };
    let report = interpret(program, symbols, &Options::default());
    assert_eq!(report.printed, vec![Some(PrimitiveValue::Num(42))]);
    assert_eq!(report.error, None);
}

#[test]
fn the_two_settings() {
    assert!(Options::debug().debug);
    assert!(!Options::default().debug);
    assert_eq!(Options::debug().call_depth, Options::default().call_depth);
    assert_eq!(Options::default().call_depth, usize::MAX);
}
