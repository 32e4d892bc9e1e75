//! Laws that hold of the scan of every source.
use vstd::prelude::*;
use crate::model::{
    faults, last_line, is_blank, kept, lemma_piece_advances, lemma_run_end, piece_at, pieces, scan_from, tokens_of,
    CharClass, Outcome, Piece,
};
use crate::token::TokenView;

verus! {

/// Where each token starts in the source, in order; `Eof` starts at the end.
pub open spec fn token_starts(s: Seq<char>) -> Seq<int> {
    kept(pieces(s)).map_values(|p: Piece| p.start as int).push(s.len() as int)
}

/// What the scanner discards: one blank, one newline, or a comment, which is
/// `//` and the rest of its line without the newline.
pub open spec fn is_trivia(t: Seq<char>) -> bool {
    (t.len() == 1 && (is_blank(t[0]) || t[0] == '\n'))
        || (t.len() >= 2 && t[0] == '/' && t[1] == '/' && forall|k: int| 0 <= k < t.len() ==> t[k] != '\n')
}

/// The source text that piece `p` read.
pub open spec fn text_of(s: Seq<char>, p: Piece) -> Seq<char> {
    s.subrange(p.start as int, p.end as int)
}

/// The texts of the pieces, one after another.
pub open spec fn spelled(s: Seq<char>, ps: Seq<Piece>) -> Seq<char>
    decreases ps.len(),
{
    if ps.len() == 0 {
        seq![]
    } else {
        text_of(s, ps[0]) + spelled(s, ps.drop_first())
    }
}

/// The pieces lie in order inside `from..s.len()`, each ends where the next
/// starts, and lines go up from `line` to `last`.
pub open spec fn well_laid(s: Seq<char>, ps: Seq<Piece>, from: nat, line: nat, last: nat) -> bool {
    &&& forall|i: int| 0 <= i < ps.len() ==> from <= #[trigger] ps[i].start < ps[i].end <= s.len()
    &&& forall|i: int| 0 <= i < ps.len() ==> line <= #[trigger] ps[i].line <= last
    &&& forall|i: int| 0 <= i < ps.len() - 1 ==> #[trigger] ps[i].end == ps[i + 1].start
    &&& forall|i: int, j: int| 0 <= i < j < ps.len() ==> ps[i].line <= ps[j].line
    &&& forall|i: int| 0 <= i < ps.len() ==> (#[trigger] ps[i].outcome is Discard ==> is_trivia(text_of(s, ps[i])))
    &&& spelled(s, ps) == s.subrange(from as int, s.len() as int)
}

proof fn lemma_discard_is_trivia(s: Seq<char>, pos: nat, line: nat)
    requires
        pos < s.len(),
    ensures
        piece_at(s, pos, line).outcome is Discard ==> is_trivia(text_of(s, piece_at(s, pos, line))),
{
    lemma_run_end(s, pos, CharClass::NotNewline);
    let p = piece_at(s, pos, line);
    if p.outcome is Discard {
        let t = text_of(s, p);
        assert forall|k: int| 0 <= k < t.len() implies t[k] == s[pos + k] by {}
    }
}

proof fn lemma_scan_laid(s: Seq<char>, pos: nat, line: nat)
    requires
        pos <= s.len(),
    ensures
        well_laid(s, scan_from(s, pos, line).0, pos, line, scan_from(s, pos, line).1),
        line <= scan_from(s, pos, line).1,
    decreases s.len() - pos,
{
    let ps = scan_from(s, pos, line).0;
    let last = scan_from(s, pos, line).1;
    if pos < s.len() {
        let p = piece_at(s, pos, line);
        lemma_piece_advances(s, pos, line);
        lemma_discard_is_trivia(s, pos, line);
        lemma_scan_laid(s, p.end, p.line);
        let rest = scan_from(s, p.end, p.line).0;
        assert(ps == seq![p] + rest);
        assert(ps.drop_first() =~= rest);
        assert forall|i: int| 0 <= i < ps.len() implies pos <= #[trigger] ps[i].start < ps[i].end <= s.len() by {
            if i > 0 {
                assert(ps[i] == rest[i - 1]);
            }
        }
        assert forall|i: int| 0 <= i < ps.len() implies line <= #[trigger] ps[i].line <= last by {
            if i > 0 {
                assert(ps[i] == rest[i - 1]);
            }
        }
        assert forall|i: int| 0 <= i < ps.len() - 1 implies #[trigger] ps[i].end == ps[i + 1].start by {
            if i > 0 {
                assert(ps[i] == rest[i - 1]);
            }
            assert(ps[i + 1] == rest[i]);
        }
        assert forall|i: int, j: int| 0 <= i < j < ps.len() implies ps[i].line <= ps[j].line by {
            assert(ps[j] == rest[j - 1]);
            if i > 0 {
                assert(ps[i] == rest[i - 1]);
            }
        }
        assert forall|i: int| 0 <= i < ps.len() implies (#[trigger] ps[i].outcome is Discard ==> is_trivia(text_of(s, ps[i]))) by {
            if i > 0 {
                assert(ps[i] == rest[i - 1]);
            }
        }
        assert(s.subrange(pos as int, s.len() as int) =~= text_of(s, p) + s.subrange(p.end as int, s.len() as int));
    } else {
        assert(s.subrange(pos as int, s.len() as int) =~= Seq::<char>::empty());
    }
}

/// Starts strictly increase and lines never decrease along `ps`.
pub open spec fn ordered(ps: Seq<Piece>) -> bool {
    forall|i: int, j: int| 0 <= i < j < ps.len() ==> ps[i].start < ps[j].start && ps[i].line <= ps[j].line
}

/// The pieces that `kept` selects are pieces of `ps`, in the same order.
proof fn lemma_kept_ordered(ps: Seq<Piece>)
    requires
        ordered(ps),
    ensures
        forall|i: int| 0 <= i < kept(ps).len() ==> ps.contains(#[trigger] kept(ps)[i]),
        ordered(kept(ps)),
    decreases ps.len(),
{
    if ps.len() > 0 {
        let init = ps.drop_last();
        lemma_kept_ordered(init);
        let k = kept(ps);
        let ki = kept(init);
        assert forall|i: int| 0 <= i < ki.len() implies ps.contains(#[trigger] ki[i]) by {
            let m = choose|m: int| 0 <= m < init.len() && init[m] == ki[i];
            assert(ps[m] == ki[i]);
        }
        if ps.last().outcome is Emit {
            assert(k == ki.push(ps.last()));
            assert forall|i: int, j: int| 0 <= i < j < k.len() implies k[i].start < k[j].start && k[i].line <= k[j].line by {
                if j == k.len() - 1 {
                    let m = choose|m: int| 0 <= m < init.len() && init[m] == ki[i];
                    assert(ps[m] == k[i]);
                }
            }
            assert forall|i: int| 0 <= i < k.len() implies ps.contains(#[trigger] k[i]) by {
                if i < ki.len() {
                    assert(ps.contains(ki[i]));
                } else {
                    assert(ps[ps.len() - 1] == k[i]);
                }
            }
        }
    }
}

proof fn lemma_laid_ordered(s: Seq<char>, ps: Seq<Piece>, from: nat, line: nat, last: nat)
    requires
        well_laid(s, ps, from, line, last),
    ensures
        ordered(ps),
{
    assert forall|i: int, j: int| 0 <= i < j < ps.len() implies ps[i].start < ps[j].start && ps[i].line <= ps[j].line by {
        lemma_starts_increase(s, ps, from, line, last, i, j);
    }
}

proof fn lemma_starts_increase(s: Seq<char>, ps: Seq<Piece>, from: nat, line: nat, last: nat, i: int, j: int)
    requires
        well_laid(s, ps, from, line, last),
        0 <= i < j < ps.len(),
    ensures
        ps[i].end <= ps[j].start,
    decreases j - i,
{
    if j > i + 1 {
        lemma_starts_increase(s, ps, from, line, last, i, j - 1);
        assert(ps[j - 1].end == ps[j].start);
    }
}

proof fn lemma_no_faults(ps: Seq<Piece>)
    requires
        faults(ps).len() == 0,
    ensures
        forall|i: int| 0 <= i < ps.len() ==> !(#[trigger] ps[i].outcome is Reject),
    decreases ps.len(),
{
    if ps.len() > 0 {
        lemma_no_faults(ps.drop_last());
        assert forall|i: int| 0 <= i < ps.len() implies !(#[trigger] ps[i].outcome is Reject) by {
            if i < ps.len() - 1 {
                assert(ps[i] == ps.drop_last()[i]);
            }
        }
    }
}

/// For every source, the tokens come in strictly increasing order of where
/// they start (`Eof` at the end of the source), each token's lexeme is the
/// text at its start, and lines never decrease along the tokens.
pub proof fn lemma_tokens_in_order(s: Seq<char>)
    ensures
        token_starts(s).len() == tokens_of(s).len(),
        forall|i: int, j: int| 0 <= i < j < token_starts(s).len() ==> token_starts(s)[i] < token_starts(s)[j],
        forall|i: int, j: int| 0 <= i < j < tokens_of(s).len() ==> tokens_of(s)[i].line <= tokens_of(s)[j].line,
        forall|i: int| 0 <= i < tokens_of(s).len() ==> #[trigger] tokens_of(s)[i].lexeme == s.subrange(
            token_starts(s)[i],
            token_starts(s)[i] + tokens_of(s)[i].lexeme.len(),
        ),
{
    let ps = pieces(s);
    let last = last_line(s);
    let k = kept(ps);
    let starts = token_starts(s);
    let toks = tokens_of(s);
    lemma_scan_laid(s, 0, 1);
    lemma_laid_ordered(s, ps, 0, 1, last);
    lemma_kept_ordered(ps);
    assert forall|i: int| 0 <= i < k.len() implies #[trigger] k[i].start < k[i].end <= s.len() && k[i].line <= last by {
        assert(ps.contains(k[i]));
    }
    assert forall|i: int, j: int| 0 <= i < j < starts.len() implies starts[i] < starts[j] by {
        assert(starts[i] == k[i].start);
    }
    assert forall|i: int, j: int| 0 <= i < j < toks.len() implies toks[i].line <= toks[j].line by {
        assert(toks[i].line == k[i].line);
    }
    assert forall|i: int| 0 <= i < toks.len() implies #[trigger] toks[i].lexeme == s.subrange(
        starts[i],
        starts[i] + toks[i].lexeme.len(),
    ) by {
        if i < k.len() {
            assert(k[i].start < k[i].end <= s.len());
        } else {
            assert(s.subrange(s.len() as int, s.len() as int) =~= toks[i].lexeme);
        }
    }
}

/// Where scanning reports no diagnostic, each piece of the source that the
/// scanner reads either gives a token, whose lexeme is the piece's text, or is
/// discarded whitespace, newline or comment; and the texts of the pieces, in
/// order, give back the source exactly.
pub proof fn lemma_round_trip(s: Seq<char>)
    requires
        faults(pieces(s)).len() == 0,
    ensures
        spelled(s, pieces(s)) == s,
        forall|i: int| 0 <= i < pieces(s).len() ==> (#[trigger] pieces(s)[i]).outcome is Emit || (
        pieces(s)[i].outcome is Discard && is_trivia(text_of(s, pieces(s)[i]))),
        kept(pieces(s)).map_values(|p: Piece| text_of(s, p)) == tokens_of(s).drop_last().map_values(
            |t: TokenView| t.lexeme,
        ),
{
    let ps = pieces(s);
    lemma_scan_laid(s, 0, 1);
    lemma_no_faults(ps);
    assert(s.subrange(0, s.len() as int) =~= s);
    assert forall|i: int| 0 <= i < ps.len() implies (#[trigger] ps[i]).outcome is Emit || (ps[i].outcome is Discard
        && is_trivia(text_of(s, ps[i]))) by {
        assert(!(ps[i].outcome is Reject));
        assert(ps[i].outcome is Discard ==> is_trivia(text_of(s, ps[i])));
    }
    assert(kept(ps).map_values(|p: Piece| text_of(s, p)) =~= tokens_of(s).drop_last().map_values(
        |t: TokenView| t.lexeme,
    ));
}

} // verus!
