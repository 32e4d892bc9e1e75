//! What the scanner does, as mathematical functions of the source's
//! characters: the source is cut into pieces, each of which gives a token, a
//! diagnostic, or nothing.
use vstd::prelude::*;
use crate::token::{LiteralView, TokenKind, TokenView};

verus! {

/// The classes of characters that the scanner reads in runs.
#[derive(Clone, Copy, Debug, PartialEq, Eq, Structural)]
pub enum CharClass {
    Digit,
    NumberChar,
    WordChar,
    NotNewline,
    NotQuote,
}

pub open spec fn is_digit(c: char) -> bool {
    '0' <= c && c <= '9'
}

pub open spec fn is_alpha(c: char) -> bool {
    ('a' <= c && c <= 'z') || ('A' <= c && c <= 'Z')
}

pub open spec fn is_blank(c: char) -> bool {
    c == ' ' || c == '\r' || c == '\t'
}

pub open spec fn in_class(class: CharClass, c: char) -> bool {
    match class {
        CharClass::Digit => is_digit(c),
        CharClass::NumberChar => is_digit(c) || c == '.',
        CharClass::WordChar => is_digit(c) || is_alpha(c),
        CharClass::NotNewline => c != '\n',
        CharClass::NotQuote => c != '"',
    }
}

/// The end of the longest run of `class` characters of `s` that starts at `i`.
pub open spec fn run_end(s: Seq<char>, i: nat, class: CharClass) -> nat
    decreases s.len() - i,
{
    if i < s.len() && in_class(class, s[i as int]) {
        run_end(s, i + 1, class)
    } else {
        i
    }
}

/// How many times `c` occurs in `t`.
pub open spec fn count(t: Seq<char>, c: char) -> nat
    decreases t.len(),
{
    if t.len() == 0 {
        0
    } else {
        count(t.drop_last(), c) + if t.last() == c { 1nat } else { 0nat }
    }
}

/// The value of a run of decimal digits.
pub open spec fn digits_value(t: Seq<char>) -> nat
    decreases t.len(),
{
    if t.len() == 0 {
        0
    } else {
        digits_value(t.drop_last()) * 10 + (t.last() as nat - '0' as nat) as nat
    }
}

pub open spec fn single_kind(c: char) -> Option<TokenKind> {
    match c {
        '(' => Some(TokenKind::LeftParen),
        ')' => Some(TokenKind::RightParen),
        '{' => Some(TokenKind::LeftBrace),
        '}' => Some(TokenKind::RightBrace),
        ',' => Some(TokenKind::Comma),
        '.' => Some(TokenKind::Dot),
        '-' => Some(TokenKind::Minus),
        '+' => Some(TokenKind::Plus),
        ';' => Some(TokenKind::Semicolon),
        '*' => Some(TokenKind::Star),
        _ => None,
    }
}

/// For `! = < >`: the kind alone, and the kind when `=` follows.
pub open spec fn operator_kinds(c: char) -> Option<(TokenKind, TokenKind)> {
    match c {
        '!' => Some((TokenKind::Bang, TokenKind::BangEqual)),
        '=' => Some((TokenKind::Equal, TokenKind::EqualEqual)),
        '<' => Some((TokenKind::Less, TokenKind::LessEqual)),
        '>' => Some((TokenKind::Greater, TokenKind::GreaterEqual)),
        _ => None,
    }
}

pub open spec fn keyword(w: Seq<char>) -> Option<TokenKind> {
    if w == seq!['a', 'n', 'd'] {
        Some(TokenKind::And)
    } else if w == seq!['c', 'l', 'a', 's', 's'] {
        Some(TokenKind::Class)
    } else if w == seq!['e', 'l', 's', 'e'] {
        Some(TokenKind::Else)
    } else if w == seq!['f', 'a', 'l', 's', 'e'] {
        Some(TokenKind::False)
    } else if w == seq!['f', 'o', 'r'] {
        Some(TokenKind::For)
    } else if w == seq!['f', 'u', 'n'] {
        Some(TokenKind::Fun)
    } else if w == seq!['i', 'f'] {
        Some(TokenKind::If)
    } else if w == seq!['n', 'i', 'l'] {
        Some(TokenKind::Nil)
    } else if w == seq!['o', 'r'] {
        Some(TokenKind::Or)
    } else if w == seq!['p', 'r', 'i', 'n', 't'] {
        Some(TokenKind::Print)
    } else if w == seq!['r', 'e', 't', 'u', 'r', 'n'] {
        Some(TokenKind::Return)
    } else if w == seq!['s', 'u', 'p', 'e', 'r'] {
        Some(TokenKind::Super)
    } else if w == seq!['t', 'h', 'i', 's'] {
        Some(TokenKind::This)
    } else if w == seq!['t', 'r', 'u', 'e'] {
        Some(TokenKind::True)
    } else if w == seq!['v', 'a', 'r'] {
        Some(TokenKind::Var)
    } else if w == seq!['w', 'h', 'i', 'l', 'e'] {
        Some(TokenKind::While)
    } else {
        None
    }
}

/// The errors that the scanner reports.
#[derive(Clone, Copy, Debug, PartialEq, Eq, Structural)]
pub enum Fault {
    UnexpectedCharacter(char),
    UnterminatedString,
    FloatEndsWithDot,
    MalformedFloat,
    IntegerOverflow,
}

/// What the scanner does with a piece of the source.
pub enum Outcome {
    Emit(TokenKind),
    Discard,
    Reject(Fault),
}

/// One dispatch of the scanner: it read `start..end` and left the line
/// counter at `line`.
pub struct Piece {
    pub outcome: Outcome,
    pub start: nat,
    pub end: nat,
    pub line: nat,
}

pub open spec fn piece(outcome: Outcome, start: nat, end: nat, line: nat) -> Piece {
    Piece { outcome, start, end, line }
}

/// A string literal opened at `pos`. It runs to the next quote, newlines
/// included, with no escapes; its token carries the line of the closing
/// quote, the line the scanner is on when the token is complete.
pub open spec fn string_piece(s: Seq<char>, pos: nat, line: nat) -> Piece {
    let close = run_end(s, pos + 1, CharClass::NotQuote);
    if close < s.len() {
        let line_after = line + count(s.subrange(pos + 1int, close as int), '\n');
        piece(Outcome::Emit(TokenKind::String), pos, close + 1, line_after)
    } else {
        let line_after = line + count(s.subrange(pos + 1int, s.len() as int), '\n');
        piece(Outcome::Reject(Fault::UnterminatedString), pos, close, line_after)
    }
}

/// A numeric literal opened at `pos`: the whole run of digits and dots, which
/// must be digits alone (an integer that fits in `i64`), or digits, one dot
/// and digits (a float). A dot that no digit follows is an error, so `123.`
/// never reads as an integer and a `Dot`.
pub open spec fn number_piece(s: Seq<char>, pos: nat, line: nat) -> Piece {
    let end = run_end(s, pos, CharClass::NumberChar);
    let dot = run_end(s, pos, CharClass::Digit);
    let outcome = if dot == end {
        if digits_value(s.subrange(pos as int, end as int)) <= i64::MAX {
            Outcome::Emit(TokenKind::Integer)
        } else {
            Outcome::Reject(Fault::IntegerOverflow)
        }
    } else if s[end - 1] == '.' {
        Outcome::Reject(Fault::FloatEndsWithDot)
    } else if run_end(s, dot + 1, CharClass::Digit) == end {
        Outcome::Emit(TokenKind::Float)
    } else {
        Outcome::Reject(Fault::MalformedFloat)
    };
    piece(outcome, pos, end, line)
}

/// An identifier or keyword opened at `pos`.
pub open spec fn word_piece(s: Seq<char>, pos: nat, line: nat) -> Piece {
    let end = run_end(s, pos, CharClass::WordChar);
    let kind = match keyword(s.subrange(pos as int, end as int)) {
        Some(k) => k,
        None => TokenKind::Identifier,
    };
    piece(Outcome::Emit(kind), pos, end, line)
}

/// What the scanner does at position `pos` of `s` with the line counter at `line`.
pub open spec fn piece_at(s: Seq<char>, pos: nat, line: nat) -> Piece
    recommends
        pos < s.len(),
{
    let c = s[pos as int];
    let next_is = |d: char| pos + 1 < s.len() && s[pos + 1int] == d;
    if let Some(k) = single_kind(c) {
        piece(Outcome::Emit(k), pos, pos + 1, line)
    } else if let Some((one, two)) = operator_kinds(c) {
        if next_is('=') {
            piece(Outcome::Emit(two), pos, pos + 2, line)
        } else {
            piece(Outcome::Emit(one), pos, pos + 1, line)
        }
    } else if c == '/' {
        if next_is('/') {
            piece(Outcome::Discard, pos, run_end(s, pos, CharClass::NotNewline), line)
        } else {
            piece(Outcome::Emit(TokenKind::Slash), pos, pos + 1, line)
        }
    } else if is_blank(c) {
        piece(Outcome::Discard, pos, pos + 1, line)
    } else if c == '\n' {
        piece(Outcome::Discard, pos, pos + 1, line + 1)
    } else if c == '"' {
        string_piece(s, pos, line)
    } else if is_digit(c) {
        number_piece(s, pos, line)
    } else if is_alpha(c) {
        word_piece(s, pos, line)
    } else {
        piece(Outcome::Reject(Fault::UnexpectedCharacter(c)), pos, pos + 1, line)
    }
}

pub proof fn lemma_run_end(s: Seq<char>, i: nat, class: CharClass)
    requires
        i <= s.len(),
    ensures
        i <= run_end(s, i, class) <= s.len(),
        run_end(s, i, class) == s.len() || !in_class(class, s[run_end(s, i, class) as int]),
        forall|k: int| i <= k < run_end(s, i, class) ==> in_class(class, #[trigger] s[k]),
    decreases s.len() - i,
{
    if i < s.len() && in_class(class, s[i as int]) {
        lemma_run_end(s, i + 1, class);
    }
}

pub proof fn lemma_piece_advances(s: Seq<char>, pos: nat, line: nat)
    requires
        pos < s.len(),
    ensures
        piece_at(s, pos, line).start == pos,
        pos < piece_at(s, pos, line).end <= s.len(),
        line <= piece_at(s, pos, line).line,
{
    lemma_run_end(s, pos, CharClass::NotNewline);
    lemma_run_end(s, pos, CharClass::NumberChar);
    lemma_run_end(s, pos, CharClass::WordChar);
    lemma_run_end(s, pos + 1, CharClass::NotQuote);
}

/// The pieces of `s` from `pos` on, and the line counter at the end.
pub open spec fn scan_from(s: Seq<char>, pos: nat, line: nat) -> (Seq<Piece>, nat)
    decreases s.len() - pos,
    via scan_from_decreases
{
    if pos < s.len() {
        let p = piece_at(s, pos, line);
        let rest = scan_from(s, p.end, p.line);
        (seq![p] + rest.0, rest.1)
    } else {
        (seq![], line)
    }
}

#[via_fn]
proof fn scan_from_decreases(s: Seq<char>, pos: nat, line: nat) {
    if pos < s.len() {
        lemma_piece_advances(s, pos, line);
    }
}

/// The pieces of a whole source.
pub open spec fn pieces(s: Seq<char>) -> Seq<Piece> {
    scan_from(s, 0, 1).0
}

/// The line counter once the whole source is read.
pub open spec fn last_line(s: Seq<char>) -> nat {
    scan_from(s, 0, 1).1
}

/// The pieces that become tokens, in order.
pub open spec fn kept(ps: Seq<Piece>) -> Seq<Piece>
    decreases ps.len(),
{
    if ps.len() == 0 {
        seq![]
    } else if ps.last().outcome is Emit {
        kept(ps.drop_last()).push(ps.last())
    } else {
        kept(ps.drop_last())
    }
}

/// The faults of the pieces that become diagnostics, each with its line, in order.
pub open spec fn faults(ps: Seq<Piece>) -> Seq<(Fault, nat)>
    decreases ps.len(),
{
    if ps.len() == 0 {
        seq![]
    } else {
        match ps.last().outcome {
            Outcome::Reject(f) => faults(ps.drop_last()).push((f, ps.last().line)),
            _ => faults(ps.drop_last()),
        }
    }
}

/// The token that an emitting piece stands for.
pub open spec fn token_of(s: Seq<char>, p: Piece) -> TokenView {
    let kind = match p.outcome {
        Outcome::Emit(k) => k,
        _ => TokenKind::Eof,
    };
    let lexeme = s.subrange(p.start as int, p.end as int);
    let literal = match kind {
        TokenKind::String => LiteralView::Text(s.subrange(p.start + 1int, p.end - 1int)),
        TokenKind::Integer => LiteralView::Int(digits_value(lexeme) as int),
        TokenKind::Float => {
            let dot = run_end(s, p.start, CharClass::Digit);
            LiteralView::Decimal(s.subrange(p.start as int, dot as int), s.subrange(dot + 1int, p.end as int))
        },
        _ => LiteralView::Absent,
    };
    TokenView { kind, lexeme, literal, line: p.line }
}

/// The tokens of `s`, ending with `Eof`.
pub open spec fn tokens_of(s: Seq<char>) -> Seq<TokenView> {
    let body = kept(pieces(s)).map_values(|p: Piece| token_of(s, p));
    let eof = TokenView { kind: TokenKind::Eof, lexeme: seq![], literal: LiteralView::Absent, line: last_line(s) };
    body.push(eof)
}

} // verus!
