use eye_lang::types::ast::FunctionBody;
use eye_lang::types::ast::AST;
use eye_lang::types::error::NotImplemented;
use eye_lang::types::error::RuntimeError;
use eye_lang::types::primitive_value::PrimitiveValue;

/// Fails unless `value` is the truth value `true`, then makes the
/// library's own assertion of it.
fn is_true(value: PrimitiveValue) {
    assert_eq!(value, PrimitiveValue::Bool(true));
    value.assert_true();
}

/// Fails unless `value` is the truth value `false`, then makes the
/// library's own assertion of it.
fn is_false(value: PrimitiveValue) {
    assert_eq!(value, PrimitiveValue::Bool(false));
    value.assert_false();
}

#[test]
fn can_add() {
    // numbers
    let a = PrimitiveValue::Num(5);
    let b = PrimitiveValue::Num(2);
    let result = a.add(b).unwrap();
    if let PrimitiveValue::Num(val) = result {
        assert_eq!(val, 7);
    }

    // strings
    let a = PrimitiveValue::Str("abc".to_string());
    let b = PrimitiveValue::Str("def".to_string());
    let result = a.add(b).unwrap();
    if let PrimitiveValue::Str(val) = result {
        assert_eq!(val, "abcdef".to_string());
    }
}

#[test]
fn can_not_add() {
    let a = PrimitiveValue::Bool(true);
    let b = PrimitiveValue::Bool(false);
    assert!(a.add(b).is_err());
}

#[test]
fn can_multiply() {
    let a = PrimitiveValue::Num(2);
    let b = PrimitiveValue::Num(4);
    let result = a.multiply(b).unwrap();
    if let PrimitiveValue::Num(val) = result {
        assert_eq!(val, 8);
    }
}

#[test]
fn can_not_multiply() {
    let a = PrimitiveValue::Num(2);
    let b = PrimitiveValue::Bool(true);
    assert!(a.multiply(b).is_err());
}

#[test]
fn is_eq() {
    let a = PrimitiveValue::Num(2);
    let b = PrimitiveValue::Num(3);
    is_false(a.clone().is_equal(b.clone()).unwrap());
    is_true(a.clone().is_equal(a.clone()).unwrap());

    let a = PrimitiveValue::Str("a".to_string());
    let b = PrimitiveValue::Str("b".to_string());
    is_false(a.is_equal(b).unwrap());

    let a = PrimitiveValue::Bool(true);
    let b = PrimitiveValue::Bool(false);
    is_false(a.is_equal(b).unwrap());
}

#[test]
fn not() {
    is_true(!PrimitiveValue::Bool(false));
}

#[test]
fn add_gives_exact_values() {
    assert_eq!(
        PrimitiveValue::Num(5).add(PrimitiveValue::Num(2)),
        Ok(PrimitiveValue::Num(7))
    );
    assert_eq!(
        PrimitiveValue::Str("abc".to_string()).add(PrimitiveValue::Str("def".to_string())),
        Ok(PrimitiveValue::Str("abcdef".to_string()))
    );
    assert_eq!(
        PrimitiveValue::Str(String::new()).add(PrimitiveValue::Str(String::new())),
        Ok(PrimitiveValue::Str(String::new()))
    );
}

#[test]
fn subtract_gives_exact_values() {
    assert_eq!(
        PrimitiveValue::Num(5).subtract(PrimitiveValue::Num(7)),
        Ok(PrimitiveValue::Num(-2))
    );
    assert!(PrimitiveValue::Str("a".to_string())
        .subtract(PrimitiveValue::Str("b".to_string()))
        .is_err());
}

#[test]
fn arithmetic_wraps_around() {
    assert_eq!(
        PrimitiveValue::Num(i32::MAX).add(PrimitiveValue::Num(1)),
        Ok(PrimitiveValue::Num(i32::MIN))
    );
    assert_eq!(
        PrimitiveValue::Num(i32::MIN).subtract(PrimitiveValue::Num(1)),
        Ok(PrimitiveValue::Num(i32::MAX))
    );
    assert_eq!(
        PrimitiveValue::Num(65536).multiply(PrimitiveValue::Num(65536)),
        Ok(PrimitiveValue::Num(0))
    );
    assert_eq!(
        PrimitiveValue::Num(i32::MAX).multiply(PrimitiveValue::Num(2)),
        Ok(PrimitiveValue::Num(-2))
    );
}

#[test]
fn equality_across_kinds_is_an_error() {
    let mixed = PrimitiveValue::Num(1).is_equal(PrimitiveValue::Bool(true));
    assert_eq!(
        mixed,
        Err(NotImplemented { a: "1".to_string(), b: "true".to_string() })
    );
    assert!(PrimitiveValue::Str("1".to_string())
        .is_equal(PrimitiveValue::Num(1))
        .is_err());
    assert!(PrimitiveValue::Bool(false)
        .is_equal(PrimitiveValue::Str("false".to_string()))
        .is_err());
}

#[test]
fn equality_of_functions_is_an_error() {
    let function = || PrimitiveValue::Function(FunctionBody { body: vec![], args: vec![] });
    assert!(function().is_equal(function()).is_err());
}

#[test]
fn every_operator_answers_on_every_pair_of_kinds() {
    let samples = || {
        vec![
            PrimitiveValue::Num(3),
            PrimitiveValue::Bool(true),
            PrimitiveValue::Str("s".to_string()),
            PrimitiveValue::Function(FunctionBody { body: vec![], args: vec![] }),
        ]
    };
    for a in samples() {
        for b in samples() {
            let both_numbers =
                matches!(a, PrimitiveValue::Num(_)) && matches!(b, PrimitiveValue::Num(_));
            let both_strings =
                matches!(a, PrimitiveValue::Str(_)) && matches!(b, PrimitiveValue::Str(_));
            let both_bools =
                matches!(a, PrimitiveValue::Bool(_)) && matches!(b, PrimitiveValue::Bool(_));
            assert_eq!(a.clone().add(b.clone()).is_ok(), both_numbers || both_strings);
            assert_eq!(a.clone().subtract(b.clone()).is_ok(), both_numbers);
            assert_eq!(a.clone().multiply(b.clone()).is_ok(), both_numbers);
            assert_eq!(
                a.clone().is_equal(b.clone()).is_ok(),
                both_numbers || both_strings || both_bools
            );
        }
    }
}

#[test]
fn negation_is_tolerant() {
    assert_eq!(!PrimitiveValue::Bool(true), PrimitiveValue::Bool(false));
    assert_eq!(!PrimitiveValue::Bool(false), PrimitiveValue::Bool(true));
    assert_eq!(!PrimitiveValue::Num(1), PrimitiveValue::Bool(false));
    assert_eq!(!PrimitiveValue::Str("x".to_string()), PrimitiveValue::Bool(false));
}

#[test]
fn checks_want_a_truth_value() {
    assert!(PrimitiveValue::check(PrimitiveValue::Bool(true)));
    assert!(!PrimitiveValue::check(PrimitiveValue::Bool(false)));
    assert!(!PrimitiveValue::check(PrimitiveValue::Num(1)));
    assert!(!PrimitiveValue::check(PrimitiveValue::Str("true".to_string())));
    assert!(!PrimitiveValue::check(!PrimitiveValue::Num(0)));
}

#[test]
fn values_render_as_they_print() {
    assert_eq!(PrimitiveValue::Num(-17).to_string(), "-17");
    assert_eq!(PrimitiveValue::Num(0).to_string(), "0");
    assert_eq!(PrimitiveValue::Num(i32::MIN).to_string(), "-2147483648");
    assert_eq!(PrimitiveValue::Num(i32::MAX).to_string(), "2147483647");
    assert_eq!(PrimitiveValue::Bool(true).to_string(), "true");
    assert_eq!(PrimitiveValue::Bool(false).to_string(), "false");
    assert_eq!(PrimitiveValue::Str("raw \"text\"".to_string()).to_string(), "raw \"text\"");
}

#[test]
fn functions_render_with_arguments_and_body() {
    let function = PrimitiveValue::Function(FunctionBody {
        body: vec![
            Box::new(AST::Return { value: Box::new(AST::Symbol { identifier: "n".to_string() }) }),
            Box::new(AST::Semicolon),
        ],
        args: vec!["n".to_string(), "say \"hi\"".to_string()],
    });
    assert_eq!(
        function.to_string(),
        "([\"n\", \"say \\\"hi\\\"\"]):{[Return <Symbol (n)>, ;]}"
    );
}

#[test]
fn undefined_operator_becomes_a_runtime_error() {
    let error = NotImplemented::from(&PrimitiveValue::Num(1), &PrimitiveValue::Bool(false));
    assert_eq!(error, NotImplemented { a: "1".to_string(), b: "false".to_string() });
    let runtime = RuntimeError::from(error);
    assert_eq!(runtime.message, "Operator not implemented for 1 and false.");
    assert_eq!(
        runtime.report(),
        "Runtime Error! Operator not implemented for 1 and false."
    );
}
