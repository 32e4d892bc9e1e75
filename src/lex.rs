//! Runs of characters, digit values and keywords, read from the source's characters.
use vstd::prelude::*;
use crate::model::{count, digits_value, in_class, is_digit, keyword, run_end, CharClass};
use crate::token::TokenKind;

verus! {

pub fn in_class_exec(class: CharClass, c: char) -> (r: bool)
    ensures
        r == in_class(class, c),
{
    match class {
        CharClass::Digit => '0' <= c && c <= '9',
        CharClass::NumberChar => ('0' <= c && c <= '9') || c == '.',
        CharClass::WordChar => ('0' <= c && c <= '9') || ('a' <= c && c <= 'z') || ('A' <= c && c <= 'Z'),
        CharClass::NotNewline => c != '\n',
        CharClass::NotQuote => c != '"',
    }
}

/// The end of the longest run of `class` characters that starts at `i`.
pub fn run_end_exec(chars: &Vec<char>, i: usize, class: CharClass) -> (r: usize)
    requires
        i <= chars.len(),
    ensures
        r == run_end(chars@, i as nat, class),
{
    let mut j = i;
    while j < chars.len() && in_class_exec(class, chars[j])
        invariant
            i <= j <= chars.len(),
            run_end(chars@, j as nat, class) == run_end(chars@, i as nat, class),
        decreases chars.len() - j,
    {
        j = j + 1;
    }
    j
}

/// The number of newlines in `chars[from..to]`.
pub fn count_newlines(chars: &Vec<char>, from: usize, to: usize) -> (r: usize)
    requires
        from <= to <= chars.len(),
    ensures
        r == count(chars@.subrange(from as int, to as int), '\n'),
        r <= to - from,
{
    let mut n: usize = 0;
    let mut i = from;
    while i < to
        invariant
            from <= i <= to <= chars.len(),
            n == count(chars@.subrange(from as int, i as int), '\n'),
            n <= i - from,
        decreases to - i,
    {
        assert(chars@.subrange(from as int, i + 1).drop_last() =~= chars@.subrange(from as int, i as int));
        if chars[i] == '\n' {
            n = n + 1;
        }
        i = i + 1;
    }
    n
}

proof fn lemma_prefix_value(s: Seq<char>, from: int, i: int, to: int)
    requires
        0 <= from <= i <= to <= s.len(),
    ensures
        digits_value(s.subrange(from, i)) <= digits_value(s.subrange(from, to)),
    decreases to - i,
{
    if i < to {
        lemma_prefix_value(s, from, i, to - 1);
        assert(s.subrange(from, to).drop_last() =~= s.subrange(from, to - 1));
    }
}

/// The value of the digits `chars[from..to]`, or `None` where it exceeds `i64::MAX`.
pub fn parse_digits(chars: &Vec<char>, from: usize, to: usize) -> (r: Option<i64>)
    requires
        from <= to <= chars.len(),
        forall|k: int| from <= k < to ==> is_digit(#[trigger] chars@[k]),
    ensures
        match r {
            Some(v) => 0 <= v && v as nat == digits_value(chars@.subrange(from as int, to as int)),
            None => digits_value(chars@.subrange(from as int, to as int)) > i64::MAX,
        },
{
    let mut v: i64 = 0;
    let mut i = from;
    while i < to
        invariant
            from <= i <= to <= chars.len(),
            forall|k: int| from <= k < to ==> is_digit(#[trigger] chars@[k]),
            0 <= v,
            v as nat == digits_value(chars@.subrange(from as int, i as int)),
        decreases to - i,
    {
        let ghost s = chars@;
        assert(s.subrange(from as int, i + 1).drop_last() =~= s.subrange(from as int, i as int));
        let d = (chars[i] as u32 - '0' as u32) as i64;
        assert(is_digit(s[i as int]));
        let next = match v.checked_mul(10) {
            Some(m) => m.checked_add(d),
            None => None,
        };
        match next {
            Some(n) => {
                v = n;
            },
            None => {
                proof {
                    lemma_prefix_value(s, from as int, i + 1, to as int);
                }
                return None;
            },
        }
        i = i + 1;
    }
    Some(v)
}

/// Whether `chars[from..to]` spells `word`.
fn span_is(chars: &Vec<char>, from: usize, to: usize, word: &[char]) -> (r: bool)
    requires
        from <= to <= chars.len(),
    ensures
        r == (chars@.subrange(from as int, to as int) == word@),
{
    if to - from != word.len() {
        return false;
    }
    let mut i: usize = 0;
    while i < word.len()
        invariant
            from <= to <= chars.len(),
            to - from == word@.len(),
            i <= word@.len(),
            forall|k: int| 0 <= k < i ==> chars@[from + k] == word@[k],
        decreases word.len() - i,
    {
        if chars[from + i] != word[i] {
            assert(chars@.subrange(from as int, to as int)[i as int] != word@[i as int]);
            return false;
        }
        i = i + 1;
    }
    assert(chars@.subrange(from as int, to as int) =~= word@);
    true
}

/// The keyword that `chars[from..to]` spells, if any.
pub fn keyword_kind(chars: &Vec<char>, from: usize, to: usize) -> (r: Option<TokenKind>)
    requires
        from <= to <= chars.len(),
    ensures
        r == keyword(chars@.subrange(from as int, to as int)),
{
    if span_is(chars, from, to, &['a', 'n', 'd']) {
        Some(TokenKind::And)
    } else if span_is(chars, from, to, &['c', 'l', 'a', 's', 's']) {
        Some(TokenKind::Class)
    } else if span_is(chars, from, to, &['e', 'l', 's', 'e']) {
        Some(TokenKind::Else)
    } else if span_is(chars, from, to, &['f', 'a', 'l', 's', 'e']) {
        Some(TokenKind::False)
    } else if span_is(chars, from, to, &['f', 'o', 'r']) {
        Some(TokenKind::For)
    } else if span_is(chars, from, to, &['f', 'u', 'n']) {
        Some(TokenKind::Fun)
    } else if span_is(chars, from, to, &['i', 'f']) {
        Some(TokenKind::If)
    } else if span_is(chars, from, to, &['n', 'i', 'l']) {
        Some(TokenKind::Nil)
    } else if span_is(chars, from, to, &['o', 'r']) {
        Some(TokenKind::Or)
    } else if span_is(chars, from, to, &['p', 'r', 'i', 'n', 't']) {
        Some(TokenKind::Print)
    } else if span_is(chars, from, to, &['r', 'e', 't', 'u', 'r', 'n']) {
        Some(TokenKind::Return)
    } else if span_is(chars, from, to, &['s', 'u', 'p', 'e', 'r']) {
        Some(TokenKind::Super)
    } else if span_is(chars, from, to, &['t', 'h', 'i', 's']) {
        Some(TokenKind::This)
    } else if span_is(chars, from, to, &['t', 'r', 'u', 'e']) {
        Some(TokenKind::True)
    } else if span_is(chars, from, to, &['v', 'a', 'r']) {
        Some(TokenKind::Var)
    } else if span_is(chars, from, to, &['w', 'h', 'i', 'l', 'e']) {
        Some(TokenKind::While)
    } else {
        None
    }
}

} // verus!
