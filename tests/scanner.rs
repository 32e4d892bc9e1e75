use rustylox::{scan_tokens, Decimal, Token};

fn decimal_value(d: &Decimal) -> f64 {
    format!("{}.{}", d.whole, d.fraction).parse::<f64>().unwrap()
}

#[test]
fn simple_integer() {
    let source = "123";
    let tokens = scan_tokens(source).unwrap();
    assert_eq!(tokens.len(), 2);
    assert_eq!(
        tokens[0],
        Token::Integer {
            lexeme: "123",
            literal: Some(123),
            line: 1,
        }
    );
}

#[test]
fn leading_zeros_integer() {
    let source = "007";
    let tokens = scan_tokens(source).unwrap();
    assert_eq!(tokens.len(), 2);
    assert_eq!(
        tokens[0],
        Token::Integer {
            lexeme: "007",
            literal: Some(7),
            line: 1,
        }
    );
}

#[test]
fn test_simple_float() {
    let source = "123.456";
    let tokens = scan_tokens(source).unwrap();
    assert_eq!(tokens.len(), 2);
    assert_eq!(
        tokens[0],
        Token::Float {
            lexeme: "123.456",
            literal: Some(Decimal { whole: "123", fraction: "456" }),
            line: 1,
        }
    );
    match &tokens[0] {
        Token::Float { literal: Some(d), .. } => assert_eq!(decimal_value(d), 123.456),
        other => panic!("expected a float, got {:?}", other),
    }
}

#[test]
fn handles_invalid_float_gracefully() {
    let source = "123.45.67";
    let result = scan_tokens(source);
    assert!(result.is_err());
    let errors = result.err().unwrap();
    assert!(!errors.is_empty());
    assert!(errors[0].contains("Invalid float on line 1"));
}

#[test]
fn fails_to_parse_float_with_dot_at_end() {
    let source = "123.";
    let result = scan_tokens(source);
    assert!(result.is_err());
    let errors = result.err().unwrap();
    assert!(!errors.is_empty());
    assert!(errors[0].contains("Invalid float on line 1  - last char is a ."));
}

#[test]
fn parses_terminated_strings_correctly() {
    let source = "\"This is a string.\"";
    let tokens = scan_tokens(source).unwrap();
    assert_eq!(tokens.len(), 2);
    assert_eq!(
        tokens[0],
        Token::String {
            lexeme: "\"This is a string.\"",
            literal: Some("This is a string."),
            line: 1,
        }
    );
}

#[test]
fn reports_unterminated_strings() {
    let source = "\"This string has no end";
    let result = scan_tokens(source);
    assert!(result.is_err());
    let errors = result.err().unwrap();
    assert!(!errors.is_empty());
    assert!(errors[0].contains("Unterminated string"));
}

#[test]
fn handles_strings_with_newlines() {
    let source = "\"This is a string\nwith a newline.\"";
    let tokens = scan_tokens(source).unwrap();
    assert_eq!(tokens.len(), 2);
    assert_eq!(
        tokens[0],
        Token::String {
            lexeme: "\"This is a string\nwith a newline.\"",
            literal: Some("This is a string\nwith a newline."),
            line: 2,
        }
    );
}
