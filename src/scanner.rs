//! The scanner: one forward pass over the source that dispatches on each
//! character, collecting tokens and diagnostics.
use vstd::prelude::*;
use crate::chars::char_vec;
use crate::lex::{count_newlines, keyword_kind, parse_digits, run_end_exec};
use crate::model::{
    faults, is_digit, kept, last_line, lemma_piece_advances, lemma_run_end, number_piece, operator_kinds,
    piece_at, pieces, scan_from, single_kind, string_piece, token_of, tokens_of, word_piece, CharClass, Fault,
    Outcome, Piece,
};
use crate::text::{diagnostics, message, message_text};
use crate::token::{plain_token, Decimal, Token, TokenKind, TokenView};

verus! {

/// What a sequence of tokens says.
pub open spec fn views<'a>(ts: Seq<Token<'a>>) -> Seq<TokenView> {
    ts.map_values(|t: Token<'a>| t@)
}

/// The texts of a sequence of diagnostics.
pub open spec fn texts(ms: Seq<String>) -> Seq<Seq<char>> {
    ms.map_values(|m: String| m@)
}

/// The token list and the diagnostic list after the scanner has handled piece `p`.
pub open spec fn applied<'a>(
    s: Seq<char>,
    p: Piece,
    tokens_before: Seq<Token<'a>>,
    tokens_after: Seq<Token<'a>>,
    errors_before: Seq<String>,
    errors_after: Seq<String>,
) -> bool {
    match p.outcome {
        Outcome::Emit(_) => views(tokens_after) == views(tokens_before).push(token_of(s, p))
            && errors_after == errors_before,
        Outcome::Reject(f) => tokens_after == tokens_before
            && texts(errors_after) == texts(errors_before).push(message(f, p.line)),
        Outcome::Discard => tokens_after == tokens_before && errors_after == errors_before,
    }
}

fn emit<'a>(tokens: &mut Vec<Token<'a>>, t: Token<'a>)
    ensures
        views(final(tokens)@) == views(old(tokens)@).push(t@),
{
    tokens.push(t);
    assert(views(tokens@) =~= views(old(tokens)@).push(t@));
}

fn report(errors: &mut Vec<String>, fault: Fault, line: usize)
    ensures
        texts(final(errors)@) == texts(old(errors)@).push(message(fault, line as nat)),
{
    let m = message_text(fault, line);
    errors.push(m);
    assert(texts(errors@) =~= texts(old(errors)@).push(message(fault, line as nat)));
}

fn single_kind_of(c: char) -> (r: Option<TokenKind>)
    ensures
        r == single_kind(c),
{
    match c {
        '(' => Some(TokenKind::LeftParen),
        ')' => Some(TokenKind::RightParen),
        '{' => Some(TokenKind::LeftBrace),
        '}' => Some(TokenKind::RightBrace),
        ',' => Some(TokenKind::Comma),
        '.' => Some(TokenKind::Dot),
        '-' => Some(TokenKind::Minus),
        '+' => Some(TokenKind::Plus),
        ';' => Some(TokenKind::Semicolon),
        '*' => Some(TokenKind::Star),
        _ => None,
    }
}

fn operator_kinds_of(c: char) -> (r: Option<(TokenKind, TokenKind)>)
    ensures
        r == operator_kinds(c),
{
    match c {
        '!' => Some((TokenKind::Bang, TokenKind::BangEqual)),
        '=' => Some((TokenKind::Equal, TokenKind::EqualEqual)),
        '<' => Some((TokenKind::Less, TokenKind::LessEqual)),
        '>' => Some((TokenKind::Greater, TokenKind::GreaterEqual)),
        _ => None,
    }
}

/// Scans the string literal whose opening quote is at `pos`.
fn scan_string<'a>(
    source: &'a str,
    chars: &Vec<char>,
    pos: usize,
    line: usize,
    tokens: &mut Vec<Token<'a>>,
    errors: &mut Vec<String>,
) -> (r: (usize, usize))
    requires
        chars@ == source@,
        pos < chars.len(),
        line <= pos + 1,
    ensures
        r.0 == string_piece(chars@, pos as nat, line as nat).end,
        r.1 == string_piece(chars@, pos as nat, line as nat).line,
        r.1 <= r.0 + 1,
        applied(chars@, string_piece(chars@, pos as nat, line as nat), old(tokens)@, final(tokens)@, old(errors)@, final(errors)@),
{
    proof {
        lemma_run_end(chars@, pos as nat + 1, CharClass::NotQuote);
    }
    let close = run_end_exec(chars, pos + 1, CharClass::NotQuote);
    if close < chars.len() {
        let line_after = line + count_newlines(chars, pos + 1, close);
        let t = Token::String {
            lexeme: source.substring_char(pos, close + 1),
            literal: Some(source.substring_char(pos + 1, close)),
            line: line_after,
        };
        emit(tokens, t);
        (close + 1, line_after)
    } else {
        let line_after = line + count_newlines(chars, pos + 1, chars.len());
        report(errors, Fault::UnterminatedString, line_after);
        (close, line_after)
    }
}

/// Scans the numeric literal whose first digit is at `pos`.
fn scan_number<'a>(
    source: &'a str,
    chars: &Vec<char>,
    pos: usize,
    line: usize,
    tokens: &mut Vec<Token<'a>>,
    errors: &mut Vec<String>,
) -> (r: (usize, usize))
    requires
        chars@ == source@,
        pos < chars.len(),
        is_digit(chars@[pos as int]),
    ensures
        r.0 == number_piece(chars@, pos as nat, line as nat).end,
        r.1 == number_piece(chars@, pos as nat, line as nat).line,
        applied(chars@, number_piece(chars@, pos as nat, line as nat), old(tokens)@, final(tokens)@, old(errors)@, final(errors)@),
{
    proof {
        lemma_run_end(chars@, pos as nat, CharClass::NumberChar);
        lemma_run_end(chars@, pos as nat, CharClass::Digit);
    }
    let end = run_end_exec(chars, pos, CharClass::NumberChar);
    let dot = run_end_exec(chars, pos, CharClass::Digit);
    let lexeme = source.substring_char(pos, end);
    if dot == end {
        match parse_digits(chars, pos, end) {
            Some(v) => emit(tokens, Token::Integer { lexeme, literal: Some(v), line }),
            None => report(errors, Fault::IntegerOverflow, line),
        }
    } else if chars[end - 1] == '.' {
        report(errors, Fault::FloatEndsWithDot, line);
    } else if run_end_exec(chars, dot + 1, CharClass::Digit) == end {
        let literal = Decimal {
            whole: source.substring_char(pos, dot),
            fraction: source.substring_char(dot + 1, end),
        };
        emit(tokens, Token::Float { lexeme, literal: Some(literal), line });
    } else {
        report(errors, Fault::MalformedFloat, line);
    }
    (end, line)
}

/// Scans the identifier or keyword whose first letter is at `pos`.
fn scan_word<'a>(source: &'a str, chars: &Vec<char>, pos: usize, line: usize, tokens: &mut Vec<Token<'a>>) -> (r: usize)
    requires
        chars@ == source@,
        pos < chars.len(),
    ensures
        r == word_piece(chars@, pos as nat, line as nat).end,
        word_piece(chars@, pos as nat, line as nat).outcome is Emit,
        views(final(tokens)@) == views(old(tokens)@).push(token_of(chars@, word_piece(chars@, pos as nat, line as nat))),
{
    proof {
        lemma_run_end(chars@, pos as nat, CharClass::WordChar);
    }
    let end = run_end_exec(chars, pos, CharClass::WordChar);
    let kind = match keyword_kind(chars, pos, end) {
        Some(k) => k,
        None => TokenKind::Identifier,
    };
    emit(tokens, plain_token(kind, source.substring_char(pos, end), line));
    end
}

/// Handles the source at `pos`: emits a token, reports a diagnostic or
/// discards what it reads; returns where it stopped and the line counter.
fn scan_piece<'a>(
    source: &'a str,
    chars: &Vec<char>,
    pos: usize,
    line: usize,
    tokens: &mut Vec<Token<'a>>,
    errors: &mut Vec<String>,
) -> (r: (usize, usize))
    requires
        chars@ == source@,
        pos < chars.len() < usize::MAX,
        line <= pos + 1,
    ensures
        r.0 == piece_at(chars@, pos as nat, line as nat).end,
        r.1 == piece_at(chars@, pos as nat, line as nat).line,
        r.1 <= r.0 + 1,
        applied(chars@, piece_at(chars@, pos as nat, line as nat), old(tokens)@, final(tokens)@, old(errors)@, final(errors)@),
{
    proof {
        lemma_run_end(chars@, pos as nat, CharClass::NotNewline);
        lemma_run_end(chars@, pos as nat, CharClass::WordChar);
        lemma_piece_advances(chars@, pos as nat, line as nat);
    }
    let c = chars[pos];
    let next_is_equal = pos + 1 < chars.len() && chars[pos + 1] == '=';
    if let Some(k) = single_kind_of(c) {
        emit(tokens, plain_token(k, source.substring_char(pos, pos + 1), line));
        (pos + 1, line)
    } else if let Some((one, two)) = operator_kinds_of(c) {
        if next_is_equal {
            emit(tokens, plain_token(two, source.substring_char(pos, pos + 2), line));
            (pos + 2, line)
        } else {
            emit(tokens, plain_token(one, source.substring_char(pos, pos + 1), line));
            (pos + 1, line)
        }
    } else if c == '/' {
        if pos + 1 < chars.len() && chars[pos + 1] == '/' {
            (run_end_exec(chars, pos, CharClass::NotNewline), line)
        } else {
            emit(tokens, plain_token(TokenKind::Slash, source.substring_char(pos, pos + 1), line));
            (pos + 1, line)
        }
    } else if c == ' ' || c == '\r' || c == '\t' {
        (pos + 1, line)
    } else if c == '\n' {
        (pos + 1, line + 1)
    } else if c == '"' {
        scan_string(source, chars, pos, line, tokens, errors)
    } else if '0' <= c && c <= '9' {
        scan_number(source, chars, pos, line, tokens, errors)
    } else if ('a' <= c && c <= 'z') || ('A' <= c && c <= 'Z') {
        (scan_word(source, chars, pos, line, tokens), line)
    } else {
        report(errors, Fault::UnexpectedCharacter(c), line);
        (pos + 1, line)
    }
}

/// Scans `source` into its tokens, ending with `Eof`, or into the diagnostics
/// of every error found in it, in order.
pub fn scan_tokens<'a>(source: &'a str) -> (r: Result<Vec<Token<'a>>, Vec<String>>)
    requires
        source@.len() < usize::MAX,
    ensures
        r is Ok <==> faults(pieces(source@)).len() == 0,
        r matches Ok(tokens) ==> views(tokens@) == tokens_of(source@),
        r matches Ok(tokens) ==> tokens.len() > 0 && tokens@.last()@.kind == TokenKind::Eof
            && tokens@.last()@.lexeme.len() == 0,
        r matches Err(errors) ==> texts(errors@) == diagnostics(source@) && errors.len() > 0,
{
    let chars = char_vec(source);
    let n = chars.len();
    let ghost s = chars@;
    let mut tokens: Vec<Token<'a>> = Vec::new();
    let mut errors: Vec<String> = Vec::new();
    let mut pos: usize = 0;
    let mut line: usize = 1;
    let ghost mut done: Seq<Piece> = seq![];
    while pos < n
        invariant
            s == chars@,
            s == source@,
            n == s.len() < usize::MAX,
            pos <= n,
            1 <= line <= pos + 1,
            done + scan_from(s, pos as nat, line as nat).0 == pieces(s),
            scan_from(s, pos as nat, line as nat).1 == last_line(s),
            views(tokens@) == kept(done).map_values(|p: Piece| token_of(s, p)),
            texts(errors@) == faults(done).map_values(|d: (Fault, nat)| message(d.0, d.1)),
        decreases n - pos,
    {
        let ghost p = piece_at(s, pos as nat, line as nat);
        let (end, line_after) = scan_piece(source, &chars, pos, line, &mut tokens, &mut errors);
        proof {
            lemma_piece_advances(s, pos as nat, line as nat);
            let rest = scan_from(s, end as nat, line_after as nat);
            assert(scan_from(s, pos as nat, line as nat).0 == seq![p] + rest.0);
            assert(done + (seq![p] + rest.0) =~= done.push(p) + rest.0);
            assert(done.push(p).drop_last() =~= done);
            assert(views(tokens@) =~= kept(done.push(p)).map_values(|p: Piece| token_of(s, p)));
            assert(texts(errors@) =~= faults(done.push(p)).map_values(|d: (Fault, nat)| message(d.0, d.1)));
            done = done.push(p);
        }
        pos = end;
        line = line_after;
    }
    assert(done =~= pieces(s));
    let eof = plain_token(TokenKind::Eof, source.substring_char(n, n), line);
    assert(s.subrange(n as int, n as int) =~= Seq::<char>::empty());
    emit(&mut tokens, eof);
    assert(views(tokens@) =~= tokens_of(s));
    assert(tokens@.last()@ == views(tokens@).last());
    if errors.len() > 0 {
        Err(errors)
    } else {
        Ok(tokens)
    }
}

} // verus!
