use lox_scanner::tokenizer::{LoxError, Scanner, Token, TokenType};

fn scan(source: &str) -> Scanner {
    let mut scanner = Scanner::new(source.to_string());
    scanner.scan_tokens();
    scanner
}

fn token_lines(scanner: &Scanner) -> Vec<String> {
    scanner.tokens().iter().map(|t| t.to_string()).collect()
}

#[test]
fn empty_source_yields_only_eof() {
    let scanner = scan("");
    assert_eq!(token_lines(&scanner), vec!["EOF  null".to_string()]);
    assert!(!scanner.has_errors());
}

#[test]
fn paren_plus_paren() {
    let scanner = scan("(+)");
    assert_eq!(
        token_lines(&scanner),
        vec![
            "LEFT_PAREN ( null".to_string(),
            "PLUS + null".to_string(),
            "RIGHT_PAREN ) null".to_string(),
            "EOF  null".to_string(),
        ]
    );
    assert!(!scanner.has_errors());
}

#[test]
fn bang_with_unknown_character() {
    let scanner = scan("(!@)");
    let kinds: Vec<TokenType> = scanner.tokens().iter().map(|t| t.token_type).collect();
    assert_eq!(
        kinds,
        vec![
            TokenType::LeftParen,
            TokenType::Bang,
            TokenType::RightParen,
            TokenType::Eof,
        ]
    );
    assert!(scanner.has_errors());
    let errors = scanner.errors().as_ref().unwrap();
    assert_eq!(errors.len(), 1);
    assert_eq!(errors[0].line, 1);
    assert_eq!(errors[0].message, "Unexpected character: @");
}

#[test]
fn equal_equal_is_one_token() {
    let scanner = scan("==");
    assert_eq!(
        token_lines(&scanner),
        vec!["EQUAL_EQUAL == null".to_string(), "EOF  null".to_string()]
    );
    assert!(!scanner.has_errors());
}

#[test]
fn each_single_character_token() {
    let cases = [
        ("(", TokenType::LeftParen, "LEFT_PAREN ( null"),
        (")", TokenType::RightParen, "RIGHT_PAREN ) null"),
        ("{", TokenType::LeftBrace, "LEFT_BRACE { null"),
        ("}", TokenType::RightBrace, "RIGHT_BRACE } null"),
        (",", TokenType::Comma, "COMMA , null"),
        (".", TokenType::Dot, "DOT . null"),
        ("-", TokenType::Minus, "MINUS - null"),
        ("+", TokenType::Plus, "PLUS + null"),
        (";", TokenType::Semicolon, "SEMICOLON ; null"),
        ("*", TokenType::Star, "STAR * null"),
    ];
    for (source, kind, line) in cases {
        let scanner = scan(source);
        assert!(!scanner.has_errors());
        let tokens = scanner.tokens();
        assert_eq!(tokens.len(), 2);
        assert_eq!(tokens[0].token_type, kind);
        assert_eq!(tokens[0].lexeme, source);
        assert_eq!(tokens[0].line, 1);
        assert_eq!(tokens[0].to_string(), line);
        assert_eq!(tokens[1].token_type, TokenType::Eof);
    }
}

#[test]
fn each_two_character_operator() {
    let cases = [
        ("==", TokenType::EqualEqual, "EQUAL_EQUAL == null"),
        ("!=", TokenType::BangEqual, "BANG_EQUAL != null"),
        ("<=", TokenType::LessEqual, "LESS_EQUAL <= null"),
        (">=", TokenType::GreaterEqual, "GREATER_EQUAL >= null"),
    ];
    for (source, kind, line) in cases {
        let scanner = scan(source);
        assert!(!scanner.has_errors());
        let tokens = scanner.tokens();
        assert_eq!(tokens.len(), 2);
        assert_eq!(tokens[0].token_type, kind);
        assert_eq!(tokens[0].lexeme, source);
        assert_eq!(tokens[0].to_string(), line);
        assert_eq!(tokens[1].token_type, TokenType::Eof);
    }
}

#[test]
fn lookahead_does_not_consume_on_mismatch() {
    let scanner = scan("=+");
    let kinds: Vec<TokenType> = scanner.tokens().iter().map(|t| t.token_type).collect();
    assert_eq!(kinds, vec![TokenType::Equal, TokenType::Plus, TokenType::Eof]);
    assert_eq!(scanner.tokens()[0].lexeme, "=");
    assert!(!scanner.has_errors());
}

#[test]
fn each_operator_alone_at_end_of_input() {
    let cases = [
        ("=", TokenType::Equal),
        ("!", TokenType::Bang),
        ("<", TokenType::Less),
        (">", TokenType::Greater),
    ];
    for (source, kind) in cases {
        let scanner = scan(source);
        assert!(!scanner.has_errors());
        let tokens = scanner.tokens();
        assert_eq!(tokens.len(), 2);
        assert_eq!(tokens[0].token_type, kind);
        assert_eq!(tokens[0].lexeme, source);
    }
}

#[test]
fn each_operator_before_another_character() {
    let cases = [
        ("!*", TokenType::Bang, TokenType::Star),
        ("<.", TokenType::Less, TokenType::Dot),
        (">,", TokenType::Greater, TokenType::Comma),
    ];
    for (source, first, second) in cases {
        let scanner = scan(source);
        assert!(!scanner.has_errors());
        let kinds: Vec<TokenType> = scanner.tokens().iter().map(|t| t.token_type).collect();
        assert_eq!(kinds, vec![first, second, TokenType::Eof]);
    }
}

#[test]
fn unknown_character_gives_one_error_and_no_token() {
    let scanner = scan("#");
    let kinds: Vec<TokenType> = scanner.tokens().iter().map(|t| t.token_type).collect();
    assert_eq!(kinds, vec![TokenType::Eof]);
    assert!(scanner.has_errors());
    let errors = scanner.errors().as_ref().unwrap();
    assert_eq!(errors.len(), 1);
    assert_eq!(errors[0].line, 1);
    assert_eq!(errors[0].message, "Unexpected character: #");
}

#[test]
fn consecutive_unknown_characters_each_get_an_error() {
    let scanner = scan("#@$");
    let kinds: Vec<TokenType> = scanner.tokens().iter().map(|t| t.token_type).collect();
    assert_eq!(kinds, vec![TokenType::Eof]);
    let errors = scanner.errors().as_ref().unwrap();
    assert_eq!(errors.len(), 3);
    assert_eq!(errors[0].message, "Unexpected character: #");
    assert_eq!(errors[1].message, "Unexpected character: @");
    assert_eq!(errors[2].message, "Unexpected character: $");
}

#[test]
fn scanning_continues_after_an_unknown_character() {
    let scanner = scan("(#)");
    let kinds: Vec<TokenType> = scanner.tokens().iter().map(|t| t.token_type).collect();
    assert_eq!(
        kinds,
        vec![TokenType::LeftParen, TokenType::RightParen, TokenType::Eof]
    );
    let errors = scanner.errors().as_ref().unwrap();
    assert_eq!(errors.len(), 1);
}

#[test]
fn newline_advances_the_line_counter() {
    let scanner = scan("(\n@");
    let tokens = scanner.tokens();
    assert_eq!(tokens[0].token_type, TokenType::LeftParen);
    assert_eq!(tokens[0].line, 1);
    assert_eq!(tokens[1].token_type, TokenType::Eof);
    assert_eq!(tokens[1].line, 2);
    let errors = scanner.errors().as_ref().unwrap();
    assert_eq!(errors.len(), 1);
    assert_eq!(errors[0].line, 2);
    assert_eq!(errors[0].message, "Unexpected character: @");
}

#[test]
fn whitespace_is_skipped_without_error() {
    let scanner = scan(" ( ) \t* \r");
    let kinds: Vec<TokenType> = scanner.tokens().iter().map(|t| t.token_type).collect();
    assert_eq!(
        kinds,
        vec![
            TokenType::LeftParen,
            TokenType::RightParen,
            TokenType::Star,
            TokenType::Eof,
        ]
    );
    assert!(!scanner.has_errors());
}

#[test]
fn fresh_scanners_agree_on_the_same_source() {
    let first = scan("(!=.#\n<>=");
    let second = scan("(!=.#\n<>=");
    assert_eq!(token_lines(&first), token_lines(&second));
    let first_errors: Vec<(usize, String)> = first
        .errors()
        .as_ref()
        .unwrap()
        .iter()
        .map(|e| (e.line, e.message.clone()))
        .collect();
    let second_errors: Vec<(usize, String)> = second
        .errors()
        .as_ref()
        .unwrap()
        .iter()
        .map(|e| (e.line, e.message.clone()))
        .collect();
    assert_eq!(first_errors, second_errors);
}

#[test]
fn has_errors_is_false_before_a_scan() {
    let scanner = Scanner::new("@@@".to_string());
    assert!(!scanner.has_errors());
    assert!(scanner.tokens().is_empty());
    assert!(scanner.errors().is_none());
}

#[test]
fn token_new_keeps_its_parts() {
    let token = Token::new(TokenType::Star, "*".to_string(), None, 7);
    assert_eq!(token.token_type, TokenType::Star);
    assert_eq!(token.lexeme, "*");
    assert_eq!(token.literal, None);
    assert_eq!(token.line, 7);
}

#[test]
fn token_to_string_renders_a_present_literal() {
    let token = Token::new(
        TokenType::Star,
        "*".to_string(),
        Some("value".to_string()),
        1,
    );
    assert_eq!(token.to_string(), "STAR * value");
}

#[test]
fn eof_token_renders_with_an_empty_lexeme_field() {
    let token = Token::new(TokenType::Eof, "".to_string(), None, 3);
    assert_eq!(token.to_string(), "EOF  null");
}

#[test]
fn lox_error_new_keeps_its_parts() {
    let error = LoxError::new(4, "Unexpected character: ^".to_string());
    assert_eq!(error.line, 4);
    assert_eq!(error.message, "Unexpected character: ^");
}
