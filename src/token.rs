//! Tokens, and what each says as mathematical values.
use vstd::prelude::*;

verus! {

/// The category of a token, without its lexeme, literal or line.
#[derive(Clone, Copy, Debug, PartialEq, Eq, Structural)]
pub enum TokenKind {
    // Single-character tokens.
    LeftParen,
    RightParen,
    LeftBrace,
    RightBrace,
    Comma,
    Dot,
    Minus,
    Plus,
    Semicolon,
    Slash,
    Star,

    // One or two character tokens.
    Bang,
    BangEqual,
    Equal,
    EqualEqual,
    Greater,
    GreaterEqual,
    Less,
    LessEqual,

    // Literals.
    String,
    Integer,
    Float,

    // Identifiers and keywords.
    Identifier,
    And,
    Class,
    Else,
    False,
    Fun,
    For,
    If,
    Nil,
    Or,
    Print,
    Return,
    Super,
    This,
    True,
    Var,
    While,

    // End of input.
    Eof,
}

/// The decoded value of a `Float` token: the digits before and after its
/// decimal point, as they stand in the source.
#[derive(Clone, Copy, Debug, PartialEq)]
pub struct Decimal<'a> {
    pub whole: &'a str,
    pub fraction: &'a str,
}

/// A token: its lexeme is a slice of the scanned source, `line` is the 1-based
/// line on which the scanner finished reading it.
#[derive(Debug, PartialEq)]
#[allow(inconsistent_fields)]
pub enum Token<'a> {
    // Single-character tokens.
    LeftParen { lexeme: &'a str, literal: Option<&'a str>, line: usize },
    RightParen { lexeme: &'a str, literal: Option<&'a str>, line: usize },
    LeftBrace { lexeme: &'a str, literal: Option<&'a str>, line: usize },
    RightBrace { lexeme: &'a str, literal: Option<&'a str>, line: usize },
    Comma { lexeme: &'a str, literal: Option<&'a str>, line: usize },
    Dot { lexeme: &'a str, literal: Option<&'a str>, line: usize },
    Minus { lexeme: &'a str, literal: Option<&'a str>, line: usize },
    Plus { lexeme: &'a str, literal: Option<&'a str>, line: usize },
    Semicolon { lexeme: &'a str, literal: Option<&'a str>, line: usize },
    Slash { lexeme: &'a str, literal: Option<&'a str>, line: usize },
    Star { lexeme: &'a str, literal: Option<&'a str>, line: usize },

    // One or two character tokens.
    Bang { lexeme: &'a str, literal: Option<&'a str>, line: usize },
    BangEqual { lexeme: &'a str, literal: Option<&'a str>, line: usize },
    Equal { lexeme: &'a str, literal: Option<&'a str>, line: usize },
    EqualEqual { lexeme: &'a str, literal: Option<&'a str>, line: usize },
    Greater { lexeme: &'a str, literal: Option<&'a str>, line: usize },
    GreaterEqual { lexeme: &'a str, literal: Option<&'a str>, line: usize },
    Less { lexeme: &'a str, literal: Option<&'a str>, line: usize },
    LessEqual { lexeme: &'a str, literal: Option<&'a str>, line: usize },

    // Literals.
    String { lexeme: &'a str, literal: Option<&'a str>, line: usize },
    Integer { lexeme: &'a str, literal: Option<i64>, line: usize },
    Float { lexeme: &'a str, literal: Option<Decimal<'a>>, line: usize },

    // Identifiers and keywords.
    Identifier { lexeme: &'a str, literal: Option<&'a str>, line: usize },
    And { lexeme: &'a str, literal: Option<&'a str>, line: usize },
    Class { lexeme: &'a str, literal: Option<&'a str>, line: usize },
    Else { lexeme: &'a str, literal: Option<&'a str>, line: usize },
    False { lexeme: &'a str, literal: Option<&'a str>, line: usize },
    Fun { lexeme: &'a str, literal: Option<&'a str>, line: usize },
    For { lexeme: &'a str, literal: Option<&'a str>, line: usize },
    If { lexeme: &'a str, literal: Option<&'a str>, line: usize },
    Nil { lexeme: &'a str, literal: Option<&'a str>, line: usize },
    Or { lexeme: &'a str, literal: Option<&'a str>, line: usize },
    Print { lexeme: &'a str, literal: Option<&'a str>, line: usize },
    Return { lexeme: &'a str, literal: Option<&'a str>, line: usize },
    Super { lexeme: &'a str, literal: Option<&'a str>, line: usize },
    This { lexeme: &'a str, literal: Option<&'a str>, line: usize },
    True { lexeme: &'a str, literal: Option<&'a str>, line: usize },
    Var { lexeme: &'a str, literal: Option<&'a str>, line: usize },
    While { lexeme: &'a str, literal: Option<&'a str>, line: usize },

    // End of input.
    Eof { lexeme: &'a str, literal: Option<&'a str>, line: usize },
}

/// The decoded value of a token, as a mathematical value.
pub enum LiteralView {
    Absent,
    Text(Seq<char>),
    Int(int),
    Decimal(Seq<char>, Seq<char>),
}

/// What a token says, as mathematical values.
pub struct TokenView {
    pub kind: TokenKind,
    pub lexeme: Seq<char>,
    pub literal: LiteralView,
    pub line: nat,
}

pub open spec fn text_literal(literal: Option<&str>) -> LiteralView {
    match literal {
        Some(t) => LiteralView::Text(t@),
        None => LiteralView::Absent,
    }
}

pub open spec fn text_view(kind: TokenKind, lexeme: &str, literal: Option<&str>, line: usize) -> TokenView {
    TokenView { kind, lexeme: lexeme@, literal: text_literal(literal), line: line as nat }
}

impl<'a> View for Token<'a> {
    type V = TokenView;

    open spec fn view(&self) -> TokenView {
        match *self {
            Token::LeftParen { lexeme, literal, line } => text_view(TokenKind::LeftParen, lexeme, literal, line),
            Token::RightParen { lexeme, literal, line } => text_view(TokenKind::RightParen, lexeme, literal, line),
            Token::LeftBrace { lexeme, literal, line } => text_view(TokenKind::LeftBrace, lexeme, literal, line),
            Token::RightBrace { lexeme, literal, line } => text_view(TokenKind::RightBrace, lexeme, literal, line),
            Token::Comma { lexeme, literal, line } => text_view(TokenKind::Comma, lexeme, literal, line),
            Token::Dot { lexeme, literal, line } => text_view(TokenKind::Dot, lexeme, literal, line),
            Token::Minus { lexeme, literal, line } => text_view(TokenKind::Minus, lexeme, literal, line),
            Token::Plus { lexeme, literal, line } => text_view(TokenKind::Plus, lexeme, literal, line),
            Token::Semicolon { lexeme, literal, line } => text_view(TokenKind::Semicolon, lexeme, literal, line),
            Token::Slash { lexeme, literal, line } => text_view(TokenKind::Slash, lexeme, literal, line),
            Token::Star { lexeme, literal, line } => text_view(TokenKind::Star, lexeme, literal, line),
            Token::Bang { lexeme, literal, line } => text_view(TokenKind::Bang, lexeme, literal, line),
            Token::BangEqual { lexeme, literal, line } => text_view(TokenKind::BangEqual, lexeme, literal, line),
            Token::Equal { lexeme, literal, line } => text_view(TokenKind::Equal, lexeme, literal, line),
            Token::EqualEqual { lexeme, literal, line } => text_view(TokenKind::EqualEqual, lexeme, literal, line),
            Token::Greater { lexeme, literal, line } => text_view(TokenKind::Greater, lexeme, literal, line),
            Token::GreaterEqual { lexeme, literal, line } => text_view(TokenKind::GreaterEqual, lexeme, literal, line),
            Token::Less { lexeme, literal, line } => text_view(TokenKind::Less, lexeme, literal, line),
            Token::LessEqual { lexeme, literal, line } => text_view(TokenKind::LessEqual, lexeme, literal, line),
            Token::String { lexeme, literal, line } => text_view(TokenKind::String, lexeme, literal, line),
            Token::Integer { lexeme, literal, line } => TokenView {
                kind: TokenKind::Integer,
                lexeme: lexeme@,
                literal: match literal {
                    Some(v) => LiteralView::Int(v as int),
                    None => LiteralView::Absent,
                },
                line: line as nat,
            },
            Token::Float { lexeme, literal, line } => TokenView {
                kind: TokenKind::Float,
                lexeme: lexeme@,
                literal: match literal {
                    Some(d) => LiteralView::Decimal(d.whole@, d.fraction@),
                    None => LiteralView::Absent,
                },
                line: line as nat,
            },
            Token::Identifier { lexeme, literal, line } => text_view(TokenKind::Identifier, lexeme, literal, line),
            Token::And { lexeme, literal, line } => text_view(TokenKind::And, lexeme, literal, line),
            Token::Class { lexeme, literal, line } => text_view(TokenKind::Class, lexeme, literal, line),
            Token::Else { lexeme, literal, line } => text_view(TokenKind::Else, lexeme, literal, line),
            Token::False { lexeme, literal, line } => text_view(TokenKind::False, lexeme, literal, line),
            Token::Fun { lexeme, literal, line } => text_view(TokenKind::Fun, lexeme, literal, line),
            Token::For { lexeme, literal, line } => text_view(TokenKind::For, lexeme, literal, line),
            Token::If { lexeme, literal, line } => text_view(TokenKind::If, lexeme, literal, line),
            Token::Nil { lexeme, literal, line } => text_view(TokenKind::Nil, lexeme, literal, line),
            Token::Or { lexeme, literal, line } => text_view(TokenKind::Or, lexeme, literal, line),
            Token::Print { lexeme, literal, line } => text_view(TokenKind::Print, lexeme, literal, line),
            Token::Return { lexeme, literal, line } => text_view(TokenKind::Return, lexeme, literal, line),
            Token::Super { lexeme, literal, line } => text_view(TokenKind::Super, lexeme, literal, line),
            Token::This { lexeme, literal, line } => text_view(TokenKind::This, lexeme, literal, line),
            Token::True { lexeme, literal, line } => text_view(TokenKind::True, lexeme, literal, line),
            Token::Var { lexeme, literal, line } => text_view(TokenKind::Var, lexeme, literal, line),
            Token::While { lexeme, literal, line } => text_view(TokenKind::While, lexeme, literal, line),
            Token::Eof { lexeme, literal, line } => text_view(TokenKind::Eof, lexeme, literal, line),
        }
    }
}

impl<'a> Token<'a> {
    pub fn kind(&self) -> (k: TokenKind)
        ensures
            k == self@.kind,
    {
        match self {
            Token::LeftParen { .. } => TokenKind::LeftParen,
            Token::RightParen { .. } => TokenKind::RightParen,
            Token::LeftBrace { .. } => TokenKind::LeftBrace,
            Token::RightBrace { .. } => TokenKind::RightBrace,
            Token::Comma { .. } => TokenKind::Comma,
            Token::Dot { .. } => TokenKind::Dot,
            Token::Minus { .. } => TokenKind::Minus,
            Token::Plus { .. } => TokenKind::Plus,
            Token::Semicolon { .. } => TokenKind::Semicolon,
            Token::Slash { .. } => TokenKind::Slash,
            Token::Star { .. } => TokenKind::Star,
            Token::Bang { .. } => TokenKind::Bang,
            Token::BangEqual { .. } => TokenKind::BangEqual,
            Token::Equal { .. } => TokenKind::Equal,
            Token::EqualEqual { .. } => TokenKind::EqualEqual,
            Token::Greater { .. } => TokenKind::Greater,
            Token::GreaterEqual { .. } => TokenKind::GreaterEqual,
            Token::Less { .. } => TokenKind::Less,
            Token::LessEqual { .. } => TokenKind::LessEqual,
            Token::String { .. } => TokenKind::String,
            Token::Integer { .. } => TokenKind::Integer,
            Token::Float { .. } => TokenKind::Float,
            Token::Identifier { .. } => TokenKind::Identifier,
            Token::And { .. } => TokenKind::And,
            Token::Class { .. } => TokenKind::Class,
            Token::Else { .. } => TokenKind::Else,
            Token::False { .. } => TokenKind::False,
            Token::Fun { .. } => TokenKind::Fun,
            Token::For { .. } => TokenKind::For,
            Token::If { .. } => TokenKind::If,
            Token::Nil { .. } => TokenKind::Nil,
            Token::Or { .. } => TokenKind::Or,
            Token::Print { .. } => TokenKind::Print,
            Token::Return { .. } => TokenKind::Return,
            Token::Super { .. } => TokenKind::Super,
            Token::This { .. } => TokenKind::This,
            Token::True { .. } => TokenKind::True,
            Token::Var { .. } => TokenKind::Var,
            Token::While { .. } => TokenKind::While,
            Token::Eof { .. } => TokenKind::Eof,
        }
    }

    pub fn lexeme(&self) -> (r: &'a str)
        ensures
            r@ == self@.lexeme,
    {
        match *self {
            Token::LeftParen { lexeme, .. }
            | Token::RightParen { lexeme, .. }
            | Token::LeftBrace { lexeme, .. }
            | Token::RightBrace { lexeme, .. }
            | Token::Comma { lexeme, .. }
            | Token::Dot { lexeme, .. }
            | Token::Minus { lexeme, .. }
            | Token::Plus { lexeme, .. }
            | Token::Semicolon { lexeme, .. }
            | Token::Slash { lexeme, .. }
            | Token::Star { lexeme, .. }
            | Token::Bang { lexeme, .. }
            | Token::BangEqual { lexeme, .. }
            | Token::Equal { lexeme, .. }
            | Token::EqualEqual { lexeme, .. }
            | Token::Greater { lexeme, .. }
            | Token::GreaterEqual { lexeme, .. }
            | Token::Less { lexeme, .. }
            | Token::LessEqual { lexeme, .. }
            | Token::String { lexeme, .. }
            | Token::Integer { lexeme, .. }
            | Token::Float { lexeme, .. }
            | Token::Identifier { lexeme, .. }
            | Token::And { lexeme, .. }
            | Token::Class { lexeme, .. }
            | Token::Else { lexeme, .. }
            | Token::False { lexeme, .. }
            | Token::Fun { lexeme, .. }
            | Token::For { lexeme, .. }
            | Token::If { lexeme, .. }
            | Token::Nil { lexeme, .. }
            | Token::Or { lexeme, .. }
            | Token::Print { lexeme, .. }
            | Token::Return { lexeme, .. }
            | Token::Super { lexeme, .. }
            | Token::This { lexeme, .. }
            | Token::True { lexeme, .. }
            | Token::Var { lexeme, .. }
            | Token::While { lexeme, .. }
            | Token::Eof { lexeme, .. } => lexeme,
        }
    }

    pub fn line(&self) -> (r: usize)
        ensures
            r == self@.line,
    {
        match *self {
            Token::LeftParen { line, .. }
            | Token::RightParen { line, .. }
            | Token::LeftBrace { line, .. }
            | Token::RightBrace { line, .. }
            | Token::Comma { line, .. }
            | Token::Dot { line, .. }
            | Token::Minus { line, .. }
            | Token::Plus { line, .. }
            | Token::Semicolon { line, .. }
            | Token::Slash { line, .. }
            | Token::Star { line, .. }
            | Token::Bang { line, .. }
            | Token::BangEqual { line, .. }
            | Token::Equal { line, .. }
            | Token::EqualEqual { line, .. }
            | Token::Greater { line, .. }
            | Token::GreaterEqual { line, .. }
            | Token::Less { line, .. }
            | Token::LessEqual { line, .. }
            | Token::String { line, .. }
            | Token::Integer { line, .. }
            | Token::Float { line, .. }
            | Token::Identifier { line, .. }
            | Token::And { line, .. }
            | Token::Class { line, .. }
            | Token::Else { line, .. }
            | Token::False { line, .. }
            | Token::Fun { line, .. }
            | Token::For { line, .. }
            | Token::If { line, .. }
            | Token::Nil { line, .. }
            | Token::Or { line, .. }
            | Token::Print { line, .. }
            | Token::Return { line, .. }
            | Token::Super { line, .. }
            | Token::This { line, .. }
            | Token::True { line, .. }
            | Token::Var { line, .. }
            | Token::While { line, .. }
            | Token::Eof { line, .. } => line,
        }
    }
}

/// A token of the given kind with no literal.
pub fn plain_token<'a>(kind: TokenKind, lexeme: &'a str, line: usize) -> (t: Token<'a>)
    ensures
        t@ == (TokenView { kind, lexeme: lexeme@, literal: LiteralView::Absent, line: line as nat }),
{
    match kind {
        TokenKind::LeftParen => Token::LeftParen { lexeme, literal: None, line },
        TokenKind::RightParen => Token::RightParen { lexeme, literal: None, line },
        TokenKind::LeftBrace => Token::LeftBrace { lexeme, literal: None, line },
        TokenKind::RightBrace => Token::RightBrace { lexeme, literal: None, line },
        TokenKind::Comma => Token::Comma { lexeme, literal: None, line },
        TokenKind::Dot => Token::Dot { lexeme, literal: None, line },
        TokenKind::Minus => Token::Minus { lexeme, literal: None, line },
        TokenKind::Plus => Token::Plus { lexeme, literal: None, line },
        TokenKind::Semicolon => Token::Semicolon { lexeme, literal: None, line },
        TokenKind::Slash => Token::Slash { lexeme, literal: None, line },
        TokenKind::Star => Token::Star { lexeme, literal: None, line },
        TokenKind::Bang => Token::Bang { lexeme, literal: None, line },
        TokenKind::BangEqual => Token::BangEqual { lexeme, literal: None, line },
        TokenKind::Equal => Token::Equal { lexeme, literal: None, line },
        TokenKind::EqualEqual => Token::EqualEqual { lexeme, literal: None, line },
        TokenKind::Greater => Token::Greater { lexeme, literal: None, line },
        TokenKind::GreaterEqual => Token::GreaterEqual { lexeme, literal: None, line },
        TokenKind::Less => Token::Less { lexeme, literal: None, line },
        TokenKind::LessEqual => Token::LessEqual { lexeme, literal: None, line },
        TokenKind::String => Token::String { lexeme, literal: None, line },
        TokenKind::Integer => Token::Integer { lexeme, literal: None, line },
        TokenKind::Float => Token::Float { lexeme, literal: None, line },
        TokenKind::Identifier => Token::Identifier { lexeme, literal: None, line },
        TokenKind::And => Token::And { lexeme, literal: None, line },
        TokenKind::Class => Token::Class { lexeme, literal: None, line },
        TokenKind::Else => Token::Else { lexeme, literal: None, line },
        TokenKind::False => Token::False { lexeme, literal: None, line },
        TokenKind::Fun => Token::Fun { lexeme, literal: None, line },
        TokenKind::For => Token::For { lexeme, literal: None, line },
        TokenKind::If => Token::If { lexeme, literal: None, line },
        TokenKind::Nil => Token::Nil { lexeme, literal: None, line },
        TokenKind::Or => Token::Or { lexeme, literal: None, line },
        TokenKind::Print => Token::Print { lexeme, literal: None, line },
        TokenKind::Return => Token::Return { lexeme, literal: None, line },
        TokenKind::Super => Token::Super { lexeme, literal: None, line },
        TokenKind::This => Token::This { lexeme, literal: None, line },
        TokenKind::True => Token::True { lexeme, literal: None, line },
        TokenKind::Var => Token::Var { lexeme, literal: None, line },
        TokenKind::While => Token::While { lexeme, literal: None, line },
        TokenKind::Eof => Token::Eof { lexeme, literal: None, line },
    }
}

} // verus!
