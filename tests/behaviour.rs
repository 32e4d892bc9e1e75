use rustylox::{scan_tokens, Decimal, Token, TokenKind};

fn eof(line: usize) -> Token<'static> {
    Token::Eof { lexeme: "", literal: None, line }
}

#[test]
fn empty_source_gives_only_eof() {
    assert_eq!(scan_tokens("").unwrap(), vec![eof(1)]);
}

#[test]
fn token_list_ends_with_one_eof() {
    let tokens = scan_tokens("var x = 1;\nprint x;").unwrap();
    assert_eq!(tokens.last(), Some(&eof(2)));
    let eofs = tokens.iter().filter(|t| matches!(t, Token::Eof { .. })).count();
    assert_eq!(eofs, 1);
}

#[test]
fn lines_never_decrease_and_lexemes_stand_in_order() {
    let source = "fun f(a) {\n  return a >= 1.5; // done\n}\n\"x\ny\" z";
    let tokens = scan_tokens(source).unwrap();
    let lines: Vec<usize> = tokens.iter().map(|t| t.line()).collect();
    assert!(lines.windows(2).all(|w| w[0] <= w[1]));
    let mut from = 0;
    for t in &tokens[..tokens.len() - 1] {
        let lexeme = t.lexeme();
        let at = source[from..].find(lexeme).unwrap() + from;
        assert!(at >= from);
        from = at + lexeme.len();
    }
    assert_eq!(tokens.last().unwrap().line(), 5);
}

#[test]
fn lexemes_and_discarded_text_rebuild_the_source() {
    let source = "a+b // sum\n\t(c)\r\n";
    let tokens = scan_tokens(source).unwrap();
    let lexemes: Vec<&str> = tokens.iter().map(|t| t.lexeme()).collect();
    assert_eq!(lexemes, vec!["a", "+", "b", "(", "c", ")", ""]);
    let rebuilt = format!(
        "{}{}{}{}{}{}{}{}{}",
        lexemes[0], lexemes[1], lexemes[2], " // sum\n\t", lexemes[3], lexemes[4], lexemes[5], "\r\n", lexemes[6]
    );
    assert_eq!(rebuilt, source);
}

#[test]
fn invalid_float_with_dot_at_end_reports_line() {
    let errors = scan_tokens("123.").unwrap_err();
    assert_eq!(errors, vec!["Invalid float on line 1  - last char is a .".to_string()]);
}

#[test]
fn string_over_a_newline_moves_the_line() {
    let tokens = scan_tokens("\"ab\ncd\" x").unwrap();
    assert_eq!(
        tokens,
        vec![
            Token::String { lexeme: "\"ab\ncd\"", literal: Some("ab\ncd"), line: 2 },
            Token::Identifier { lexeme: "x", literal: None, line: 2 },
            eof(2),
        ]
    );
}

#[test]
fn bang_and_bang_equal() {
    assert_eq!(
        scan_tokens("!=").unwrap(),
        vec![Token::BangEqual { lexeme: "!=", literal: None, line: 1 }, eof(1)]
    );
    assert_eq!(scan_tokens("!").unwrap(), vec![Token::Bang { lexeme: "!", literal: None, line: 1 }, eof(1)]);
    assert_eq!(scan_tokens("! ").unwrap(), vec![Token::Bang { lexeme: "!", literal: None, line: 1 }, eof(1)]);
}

#[test]
fn comment_gives_no_token() {
    assert_eq!(
        scan_tokens("// comment\n123").unwrap(),
        vec![Token::Integer { lexeme: "123", literal: Some(123), line: 2 }, eof(2)]
    );
}

#[test]
fn every_bad_character_is_reported_in_order() {
    let errors = scan_tokens("@1#").unwrap_err();
    assert_eq!(
        errors,
        vec![
            "Unexpected character '@' on line 1".to_string(),
            "Unexpected character '#' on line 1".to_string(),
        ]
    );
}

#[test]
fn non_ascii_letter_is_unexpected() {
    let errors = scan_tokens("\n\n\nx = é;").unwrap_err();
    assert_eq!(errors, vec!["Unexpected character 'é' on line 4".to_string()]);
}

#[test]
fn diagnostic_lines_above_nine() {
    let source = format!("{}$", "\n".repeat(11));
    assert_eq!(scan_tokens(&source).unwrap_err(), vec!["Unexpected character '$' on line 12".to_string()]);
}

#[test]
fn largest_integer_and_overflow() {
    assert_eq!(
        scan_tokens("9223372036854775807").unwrap()[0],
        Token::Integer { lexeme: "9223372036854775807", literal: Some(i64::MAX), line: 1 }
    );
    assert_eq!(
        scan_tokens("9223372036854775808").unwrap_err(),
        vec!["Invalid integer on line 1".to_string()]
    );
}

#[test]
fn float_with_two_dots_is_invalid() {
    assert_eq!(scan_tokens("1.2.3").unwrap_err(), vec!["Invalid float on line 1".to_string()]);
    assert_eq!(scan_tokens("1..2").unwrap_err(), vec!["Invalid float on line 1".to_string()]);
}

#[test]
fn unterminated_string_reports_last_line() {
    assert_eq!(
        scan_tokens("\"ab\ncd").unwrap_err(),
        vec!["Unterminated string on line 2".to_string()]
    );
}

#[test]
fn errors_win_over_tokens() {
    let errors = scan_tokens("var a = 1;\nvar b = 2.;\n@").unwrap_err();
    assert_eq!(
        errors,
        vec![
            "Invalid float on line 2  - last char is a .".to_string(),
            "Unexpected character '@' on line 3".to_string(),
        ]
    );
}

#[test]
fn punctuation_and_operators() {
    let tokens = scan_tokens("(){},.-+;*/ = == < <= > >=").unwrap();
    let kinds: Vec<TokenKind> = tokens.iter().map(|t| t.kind()).collect();
    assert_eq!(
        kinds,
        vec![
            TokenKind::LeftParen,
            TokenKind::RightParen,
            TokenKind::LeftBrace,
            TokenKind::RightBrace,
            TokenKind::Comma,
            TokenKind::Dot,
            TokenKind::Minus,
            TokenKind::Plus,
            TokenKind::Semicolon,
            TokenKind::Star,
            TokenKind::Slash,
            TokenKind::Equal,
            TokenKind::EqualEqual,
            TokenKind::Less,
            TokenKind::LessEqual,
            TokenKind::Greater,
            TokenKind::GreaterEqual,
            TokenKind::Eof,
        ]
    );
}

#[test]
fn keywords_and_identifiers() {
    let tokens =
        scan_tokens("and class else false for fun if nil or print return super this true var while andy x1 If").unwrap();
    let kinds: Vec<TokenKind> = tokens.iter().map(|t| t.kind()).collect();
    assert_eq!(
        kinds,
        vec![
            TokenKind::And,
            TokenKind::Class,
            TokenKind::Else,
            TokenKind::False,
            TokenKind::For,
            TokenKind::Fun,
            TokenKind::If,
            TokenKind::Nil,
            TokenKind::Or,
            TokenKind::Print,
            TokenKind::Return,
            TokenKind::Super,
            TokenKind::This,
            TokenKind::True,
            TokenKind::Var,
            TokenKind::While,
            TokenKind::Identifier,
            TokenKind::Identifier,
            TokenKind::Identifier,
            TokenKind::Eof,
        ]
    );
    assert_eq!(tokens[16], Token::Identifier { lexeme: "andy", literal: None, line: 1 });
}

#[test]
fn number_then_dot_method_is_an_error() {
    assert!(scan_tokens("123.abs").is_err());
}

#[test]
fn float_literal_parts() {
    assert_eq!(
        scan_tokens("0.5").unwrap()[0],
        Token::Float { lexeme: "0.5", literal: Some(Decimal { whole: "0", fraction: "5" }), line: 1 }
    );
}

#[test]
fn string_with_non_ascii_text() {
    assert_eq!(
        scan_tokens("\"héllo\" ;").unwrap(),
        vec![
            Token::String { lexeme: "\"héllo\"", literal: Some("héllo"), line: 1 },
            Token::Semicolon { lexeme: ";", literal: None, line: 1 },
            eof(1),
        ]
    );
}
