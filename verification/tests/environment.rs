use eye_lang::types::ast::clone_ast;
use eye_lang::types::ast::FunctionBody;
use eye_lang::types::ast::If;
use eye_lang::types::ast::AST;
use eye_lang::types::binary_operator::BinaryOperator;
use eye_lang::types::primitive_value::PrimitiveValue;
use eye_lang::types::symbol_store::create_symbol_store;
use eye_lang::types::symbol_store::SymbolStore;
use eye_lang::types::token::Token;

#[test]
fn a_fresh_store_is_empty() {
    let store = create_symbol_store();
    assert!(!store.contains_key(&"x".to_string()));
    assert_eq!(store.get(&"x".to_string()), None);
    assert_eq!(SymbolStore::new().get(&String::new()), None);
}

#[test]
fn insert_then_get() {
    let mut store = create_symbol_store();
    store.insert("x".to_string(), PrimitiveValue::Num(1));
    store.insert("y".to_string(), PrimitiveValue::Bool(true));
    assert_eq!(store.get(&"x".to_string()), Some(&PrimitiveValue::Num(1)));
    assert_eq!(store.get(&"y".to_string()), Some(&PrimitiveValue::Bool(true)));
    assert!(store.contains_key(&"y".to_string()));
    assert!(!store.contains_key(&"z".to_string()));
}

#[test]
fn insert_overwrites() {
    let mut store = create_symbol_store();
    store.insert("x".to_string(), PrimitiveValue::Num(1));
    store.insert("y".to_string(), PrimitiveValue::Num(2));
    store.insert("x".to_string(), PrimitiveValue::Str("new".to_string()));
    assert_eq!(
        store.get(&"x".to_string()),
        Some(&PrimitiveValue::Str("new".to_string()))
    );
    assert_eq!(store.get(&"y".to_string()), Some(&PrimitiveValue::Num(2)));
}

#[test]
fn a_clone_is_independent() {
    let mut store = create_symbol_store();
    store.insert("x".to_string(), PrimitiveValue::Num(1));
    let mut copy = store.clone();
    copy.insert("x".to_string(), PrimitiveValue::Num(2));
    copy.insert("y".to_string(), PrimitiveValue::Num(3));
    assert_eq!(store.get(&"x".to_string()), Some(&PrimitiveValue::Num(1)));
    assert_eq!(store.get(&"y".to_string()), None);
    assert_eq!(copy.get(&"x".to_string()), Some(&PrimitiveValue::Num(2)));
}

fn every_node() -> AST {
    let leaf = || Box::new(AST::Number { value: 1 });
    AST::Program {
        program: vec![
            Box::new(AST::Symbol { identifier: "s".to_string() }),
            Box::new(AST::Str { value: "t".to_string() }),
            Box::new(AST::Bool { value: false }),
            Box::new(AST::Binary {
                operator: BinaryOperator::IsNEq,
                left: leaf(),
                right: leaf(),
            }),
            Box::new(AST::Assign { identifier: "a".to_string(), value: leaf() }),
            Box::new(AST::Proc {
                identifier: "p".to_string(),
                args: vec!["x".to_string(), "y".to_string()],
                body: vec![leaf(), Box::new(AST::Semicolon)],
            }),
            Box::new(AST::Call { identifier: "p".to_string(), args: vec![leaf(), leaf()] }),
            Box::new(AST::Return { value: leaf() }),
            Box::new(AST::If {
                this: If { conditional: leaf(), body: vec![leaf()] },
                elifs: Some(vec![
                    If { conditional: leaf(), body: vec![] },
                    If { conditional: leaf(), body: vec![leaf()] },
                ]),
                el: Some(vec![leaf()]),
            }),
            Box::new(AST::If {
                this: If { conditional: leaf(), body: vec![] },
                elifs: None,
                el: None,
            }),
            Box::new(AST::Print { value: leaf() }),
            Box::new(AST::Do {
                count: leaf(),
                identifier: Some("i".to_string()),
                body: vec![leaf()],
            }),
            Box::new(AST::Do { count: leaf(), identifier: None, body: vec![] }),
            Box::new(AST::Throw { message: "m".to_string() }),
            Box::new(AST::EOF),
        ],
    }
}

#[test]
fn a_cloned_tree_is_equal() {
    let tree = every_node();
    assert_eq!(tree.clone(), tree);
    assert_eq!(clone_ast(&tree), tree);
    let function = PrimitiveValue::Function(FunctionBody {
        body: vec![Box::new(every_node())],
        args: vec!["a".to_string()],
    });
    assert_eq!(function.clone(), function);
}

#[test]
fn every_node_renders() {
    assert_eq!(
        every_node().to_string(),
        "Program: [Symbol (s), String(t), Bool(false), Binary Number(1) != Number(1), \
         Assign a = Number(1), Proc p [Number(1), ;]([\"x\", \"y\"]), \
         Call p([Number(1), Number(1)]), Return <Number(1)>, \
         If If { conditional: Number(1), body: [Number(1)] } \
         Some([If { conditional: Number(1), body: [] }, \
         If { conditional: Number(1), body: [Number(1)] }]) Some([Number(1)]), \
         If If { conditional: Number(1), body: [] } None None, \
         Print Number(1), Do Number(1):Some(\"i\") [Number(1)], Do Number(1):None [], \
         Throw m, EOF]"
    );
}

#[test]
fn operators_have_precedences_and_symbols() {
    let table = [
        (BinaryOperator::Assign, 0, "="),
        (BinaryOperator::IsEq, 1, "=="),
        (BinaryOperator::IsNEq, 1, "!="),
        (BinaryOperator::Add, 10, "+"),
        (BinaryOperator::Subtract, 10, "-"),
        (BinaryOperator::Multiply, 20, "*"),
        (BinaryOperator::Divide, 20, "/"),
    ];
    for (operator, precedence, symbol) in table {
        assert_eq!(operator.get_precedence(), precedence);
        assert_eq!(operator.to_string(), symbol);
    }
}

#[test]
fn tokens_compare_by_kind_and_payload() {
    assert_eq!(Token::Symbol("a".to_string()), Token::Symbol("a".to_string()));
    assert_ne!(Token::Symbol("a".to_string()), Token::Symbol("b".to_string()));
    assert_ne!(Token::Symbol("a".to_string()), Token::Str("a".to_string()));
    assert_ne!(Token::Symbol("a".to_string()), Token::Type("a".to_string()));
    assert_eq!(Token::Number(1), Token::Number(1));
    assert_ne!(Token::Number(1), Token::Number(2));
    assert_ne!(Token::Bool(true), Token::Bool(false));
    assert_ne!(
        Token::Operator(BinaryOperator::Add),
        Token::Operator(BinaryOperator::Subtract)
    );
    assert_eq!(Token::LParen, Token::LParen);
    assert_ne!(Token::LParen, Token::RParen);
    assert_eq!(Token::ToBe.clone(), Token::ToBe);
    assert_eq!(Token::Str("s".to_string()).clone(), Token::Str("s".to_string()));
}

#[test]
fn tokens_pair_with_their_payload() {
    let token = Token::Symbol("name".to_string());
    assert_eq!(token.tuple(), (&token, "name".to_string()));
    assert_eq!(Token::Type("Int".to_string()).tuple().1, "Int");
    assert_eq!(Token::Str("s".to_string()).tuple().1, "s");
    assert_eq!(Token::Number(-5).tuple().1, "-5");
    assert_eq!(Token::Bool(true).tuple().1, "true");
    assert_eq!(Token::Operator(BinaryOperator::IsEq).tuple().1, "==");
    assert_eq!(Token::Semicolon.tuple().1, "");
}

#[test]
fn tokens_name_their_kind() {
    assert_eq!(Token::Symbol("x".to_string()).to_string(), "Symbol");
    assert_eq!(Token::Number(1).to_string(), "Number");
    assert_eq!(Token::LBrace.to_string(), "{");
    assert_eq!(Token::RBrace.to_string(), "}");
    assert_eq!(Token::LParen.to_string(), "(");
    assert_eq!(Token::RParen.to_string(), ")");
    assert_eq!(Token::Semicolon.to_string(), ";");
    assert_eq!(Token::ToBe.to_string(), "ToBe");
    assert_eq!(Token::Times.to_string(), "Times");
}
