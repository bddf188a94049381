use eye_lang::lexer::lexer::has_prefix;
use eye_lang::lexer::lexer::number_token;
use eye_lang::lexer::lexer::scan;
use eye_lang::lexer::lexer::string_token;
use eye_lang::lexer::lexer::symbol_token;
use eye_lang::lexer::lexer::type_token;
use eye_lang::lexer::lexer::Position;
use eye_lang::lexer::tokenize;
use eye_lang::types::binary_operator::BinaryOperator;
use eye_lang::types::error::TokenError;
use eye_lang::types::token::Token;

#[test]
fn neg_numbers() {
    let program = "-1;".to_string();
    let tokens = tokenize(program).unwrap();
    assert_eq!(
        tokens,
        vec![
            Token::Operator(BinaryOperator::Subtract),
            Token::Number(1),
            Token::Semicolon
        ]
    )
}

#[test]
fn add_numbers() {
    let program = "10 + 20 * 1;".to_string();
    let tokens = tokenize(program).unwrap();
    assert_eq!(
        tokens,
        vec![
            Token::Number(10),
            Token::Operator(BinaryOperator::Add),
            Token::Number(20),
            Token::Operator(BinaryOperator::Multiply),
            Token::Number(1),
            Token::Semicolon
        ]
    )
}

#[test]
fn def_proc() {
    let program = "define a to be {return false;}".to_string();
    let tokens = tokenize(program).unwrap();
    assert_eq!(
        tokens,
        vec![
            Token::Define,
            Token::Symbol("a".to_string()),
            Token::ToBe,
            Token::LBrace,
            Token::Return,
            Token::Bool(false),
            Token::Semicolon,
            Token::RBrace,
        ]
    )
}

#[test]
fn def_proc_with_spaces() {
    let tokens = tokenize("define a to be { return false; }".to_string()).unwrap();
    assert_eq!(
        tokens,
        vec![
            Token::Define,
            Token::Symbol("a".to_string()),
            Token::ToBe,
            Token::LBrace,
            Token::Return,
            Token::Bool(false),
            Token::Semicolon,
            Token::RBrace,
        ]
    )
}

#[test]
fn lexing_is_repeatable() {
    let source = "define x to be 3; // three\nprint x is 3;";
    let first = tokenize(source.to_string());
    let second = tokenize(source.to_string());
    assert!(first.is_ok());
    assert_eq!(first, second);
}

#[test]
fn empty_source_has_no_tokens() {
    assert_eq!(tokenize(String::new()), Ok(vec![]));
    assert_eq!(tokenize(" \n\t ".to_string()), Ok(vec![]));
}

#[test]
fn comments_run_to_the_end_of_the_line() {
    assert_eq!(
        tokenize("1 // one; two\n2".to_string()),
        Ok(vec![Token::Number(1), Token::Number(2)])
    );
    assert_eq!(tokenize("// nothing but this".to_string()), Ok(vec![]));
    assert_eq!(
        tokenize("8 / 2".to_string()),
        Ok(vec![
            Token::Number(8),
            Token::Operator(BinaryOperator::Divide),
            Token::Number(2)
        ])
    );
}

#[test]
fn punctuation_and_operators() {
    assert_eq!(
        tokenize("+-*/;}{(),= is !=".to_string()),
        Ok(vec![
            Token::Operator(BinaryOperator::Add),
            Token::Operator(BinaryOperator::Subtract),
            Token::Operator(BinaryOperator::Multiply),
            Token::Operator(BinaryOperator::Divide),
            Token::Semicolon,
            Token::RBrace,
            Token::LBrace,
            Token::LParen,
            Token::RParen,
            Token::Comma,
            Token::Operator(BinaryOperator::Assign),
            Token::Operator(BinaryOperator::IsEq),
            Token::Operator(BinaryOperator::IsNEq),
        ])
    );
}

#[test]
fn every_keyword() {
    assert_eq!(
        tokenize(
            "throw do times run given return true false print define if else with to be"
                .to_string()
        ),
        Ok(vec![
            Token::Throw,
            Token::Do,
            Token::Times,
            Token::Run,
            Token::Given,
            Token::Return,
            Token::Bool(true),
            Token::Bool(false),
            Token::Print,
            Token::Define,
            Token::If,
            Token::Else,
            Token::ToBe,
            Token::ToBe,
        ])
    );
}

#[test]
fn keywords_need_no_boundary() {
    assert_eq!(
        tokenize("ifthen".to_string()),
        Ok(vec![Token::If, Token::Symbol("then".to_string())])
    );
    assert_eq!(
        tokenize("island".to_string()),
        Ok(vec![
            Token::Operator(BinaryOperator::IsEq),
            Token::Symbol("land".to_string())
        ])
    );
}

#[test]
fn symbols_types_and_strings() {
    assert_eq!(
        tokenize("count_2: Int \"two words\"".to_string()),
        Ok(vec![
            Token::Symbol("count_2".to_string()),
            Token::Type("Int".to_string()),
            Token::Str("two words".to_string()),
        ])
    );
    assert_eq!(
        tokenize("\"\"".to_string()),
        Ok(vec![Token::Str(String::new())])
    );
}

#[test]
fn a_minus_is_always_an_operator() {
    assert_eq!(
        tokenize("n-1".to_string()),
        Ok(vec![
            Token::Symbol("n".to_string()),
            Token::Operator(BinaryOperator::Subtract),
            Token::Number(1)
        ])
    );
}

#[test]
fn what_is_no_token_is_refused() {
    assert_eq!(tokenize("#".to_string()), Err(TokenError));
    assert_eq!(tokenize("1 @ 2".to_string()), Err(TokenError));
    assert_eq!(tokenize("\"open".to_string()), Err(TokenError));
    assert_eq!(tokenize("_x".to_string()), Err(TokenError));
    assert_eq!(tokenize(":Int".to_string()), Err(TokenError));
}

#[test]
fn numbers_must_fit_in_32_bits() {
    assert_eq!(
        tokenize("2147483647".to_string()),
        Ok(vec![Token::Number(2147483647)])
    );
    assert_eq!(tokenize("2147483648".to_string()), Err(TokenError));
    assert_eq!(tokenize("99999999999999999999999".to_string()), Err(TokenError));
    assert_eq!(tokenize("007".to_string()), Ok(vec![Token::Number(7)]));
}

#[test]
fn digits_of_other_scripts_are_no_numbers() {
    assert_eq!(tokenize("\u{0663}".to_string()), Err(TokenError));
}

#[test]
fn text_beyond_ascii_counts_by_characters() {
    assert_eq!(
        tokenize("\"h\u{00e9}\" x".to_string()),
        Ok(vec![
            Token::Str("h\u{00e9}".to_string()),
            Token::Symbol("x".to_string())
        ])
    );
    assert_eq!(
        tokenize("// caf\u{00e9}\nx".to_string()),
        Ok(vec![Token::Symbol("x".to_string())])
    );
}

#[test]
fn number_token_reads_numerals() {
    let token = |text: &str| number_token(text).map(|lexeme| (lexeme.token, lexeme.length));
    assert_eq!(token("42"), Some((Some(Token::Number(42)), 2)));
    assert_eq!(token("-42"), Some((Some(Token::Number(-42)), 3)));
    assert_eq!(token("-2147483648"), Some((Some(Token::Number(i32::MIN)), 11)));
    assert_eq!(token("-2147483649"), None);
    assert_eq!(token("2147483648"), None);
    assert_eq!(token("0"), Some((Some(Token::Number(0)), 1)));
    assert_eq!(token(""), None);
    assert_eq!(token("-"), None);
    assert_eq!(token("12a"), None);
    assert_eq!(token("+1"), None);
    assert_eq!(token("\u{0663}"), None);
}

#[test]
fn matched_text_becomes_a_token() {
    let token = |found: Option<eye_lang::lexer::lexer::Lexeme>| {
        found.map(|lexeme| (lexeme.token, lexeme.length))
    };
    assert_eq!(
        token(symbol_token("abc")),
        Some((Some(Token::Symbol("abc".to_string())), 3))
    );
    assert_eq!(token(symbol_token("")), None);
    assert_eq!(
        token(type_token(": Int")),
        Some((Some(Token::Type("Int".to_string())), 5))
    );
    assert_eq!(token(type_token(":")), None);
    assert_eq!(
        token(string_token("\"hi\"")),
        Some((Some(Token::Str("hi".to_string())), 4))
    );
    assert_eq!(token(string_token("\"")), None);
}

#[test]
fn fixed_rules_come_in_order() {
    let token = |text: &str| {
        Position { index: 0, text: text.to_string() }
            .fixed()
            .map(|lexeme| (lexeme.token, lexeme.length))
    };
    assert_eq!(token(""), None);
    assert_eq!(
        token("is x"),
        Some((Some(Token::Operator(BinaryOperator::IsEq)), 2))
    );
    assert_eq!(token(" x"), Some((None, 1)));
    assert_eq!(token("\tx"), Some((None, 1)));
    assert_eq!(token("\nx"), Some((None, 1)));
    assert_eq!(token("to be"), Some((Some(Token::ToBe), 5)));
    assert_eq!(token("to"), None);
    assert_eq!(token("x"), None);
    assert_eq!(token("9"), None);
}

#[test]
fn one_lexeme_at_a_time() {
    let token = |text: &str| {
        Position { index: 0, text: text.to_string() }
            .lexeme()
            .map(|lexeme| (lexeme.token, lexeme.length))
    };
    assert_eq!(token("// c\nx"), Some((None, 4)));
    assert_eq!(token("12+3"), Some((Some(Token::Number(12)), 2)));
    assert_eq!(
        token("name(1)"),
        Some((Some(Token::Symbol("name".to_string())), 4))
    );
    assert_eq!(token("?"), None);
}

#[test]
fn prefixes() {
    assert!(has_prefix("print x", 7, "print"));
    assert!(has_prefix("print", 5, "print"));
    assert!(!has_prefix("prin", 4, "print"));
    assert!(!has_prefix("sprint", 6, "print"));
    assert!(has_prefix("anything", 8, ""));
}

#[test]
fn the_cursor_moves_by_characters() {
    let mut position = Position { index: 0, text: "h\u{00e9}llo w".to_string() };
    assert!(position.has_chars_left());
    assert_eq!(position.current_char(), 'h');
    position.increment(1);
    assert_eq!(position.current_char(), '\u{00e9}');
    assert!(position.current_char_is('\u{00e9}'));
    position.increment(4);
    assert_eq!(position.index, 5);
    assert!(position.is_whitespace());
    assert_eq!(position.next(), " w");
    assert!(position.is_keyword(" w"));
    assert!(!position.is_keyword("w"));
    assert_eq!(position.re_find("w"), Some("w".to_string()));
    assert_eq!(position.re_find("z"), None);
    assert_eq!(position.re_find("("), None);
    position.increment(2);
    assert!(!position.has_chars_left());
    assert_eq!(position.current_char(), '\0');
    assert!(!position.is_whitespace());
    assert_eq!(position.next(), "");
}

#[test]
fn keywords_under_the_cursor() {
    let at = |text: &str, index: usize| {
        Position { index, text: text.to_string() }
            .keyword()
            .map(|lexeme| (lexeme.token, lexeme.length))
    };
    assert_eq!(at("x run", 2), Some((Some(Token::Run), 3)));
    assert_eq!(at("x run", 0), None);
    assert_eq!(at("return", 0), Some((Some(Token::Return), 6)));
    assert_eq!(at("with", 0), Some((Some(Token::ToBe), 4)));
    assert_eq!(at("with", 4), None);
}

#[test]
fn scanning_stops_at_what_is_no_token() {
    let (tokens, stopped) = scan("print 1 \u{00a7} 2".to_string());
    assert_eq!(tokens, vec![Token::Print, Token::Number(1)]);
    assert_eq!(stopped.index, 8);
    assert_eq!(stopped.next(), "\u{00a7} 2");
    assert!(stopped.has_chars_left());

    let (tokens, stopped) = scan("print 1;".to_string());
    assert_eq!(tokens, vec![Token::Print, Token::Number(1), Token::Semicolon]);
    assert_eq!(stopped.index, 8);
    assert!(!stopped.has_chars_left());
}
