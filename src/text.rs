//! The texts of diagnostics.
use vstd::prelude::*;
use crate::model::{faults, pieces, Fault};

verus! {

pub open spec fn digit_char(d: nat) -> char {
    if d == 0 { '0' }
    else if d == 1 { '1' }
    else if d == 2 { '2' }
    else if d == 3 { '3' }
    else if d == 4 { '4' }
    else if d == 5 { '5' }
    else if d == 6 { '6' }
    else if d == 7 { '7' }
    else if d == 8 { '8' }
    else { '9' }
}

/// The decimal spelling of `n`, without leading zeros.
pub open spec fn decimal(n: nat) -> Seq<char>
    decreases n,
{
    if n < 10 {
        seq![digit_char(n)]
    } else {
        decimal(n / 10).push(digit_char(n % 10))
    }
}

/// The text of a diagnostic reported on `line`.
pub open spec fn message(fault: Fault, line: nat) -> Seq<char> {
    match fault {
        Fault::UnexpectedCharacter(c) => "Unexpected character '"@ + seq![c] + "' on line "@ + decimal(line),
        Fault::UnterminatedString => "Unterminated string on line "@ + decimal(line),
        Fault::FloatEndsWithDot => "Invalid float on line "@ + decimal(line) + "  - last char is a ."@,
        Fault::MalformedFloat => "Invalid float on line "@ + decimal(line),
        Fault::IntegerOverflow => "Invalid integer on line "@ + decimal(line),
    }
}

/// The diagnostics of `s`, in order.
pub open spec fn diagnostics(s: Seq<char>) -> Seq<Seq<char>> {
    faults(pieces(s)).map_values(|d: (Fault, nat)| message(d.0, d.1))
}

/// Relies on `String::push`, which appends one character.
#[verifier::external_body]
fn push_char(text: &mut String, c: char)
    ensures
        final(text)@ == old(text)@.push(c),
{
    text.push(c)
}

fn digit_of(d: usize) -> (c: char)
    requires
        d < 10,
    ensures
        c == digit_char(d as nat),
{
    if d == 0 { '0' }
    else if d == 1 { '1' }
    else if d == 2 { '2' }
    else if d == 3 { '3' }
    else if d == 4 { '4' }
    else if d == 5 { '5' }
    else if d == 6 { '6' }
    else if d == 7 { '7' }
    else if d == 8 { '8' }
    else { '9' }
}

/// Appends the decimal spelling of `n` to `text`.
pub fn push_decimal(text: &mut String, n: usize)
    ensures
        final(text)@ == old(text)@ + decimal(n as nat),
    decreases n,
{
    if n >= 10 {
        push_decimal(text, n / 10);
    }
    push_char(text, digit_of(n % 10));
    assert(final(text)@ =~= old(text)@ + decimal(n as nat));
}

/// The text of a diagnostic reported on `line`.
pub fn message_text(fault: Fault, line: usize) -> (m: String)
    ensures
        m@ == message(fault, line as nat),
{
    let mut m = match fault {
        Fault::UnexpectedCharacter(c) => {
            let mut m = String::from_str("Unexpected character '");
            push_char(&mut m, c);
            m.append("' on line ");
            m
        },
        Fault::UnterminatedString => String::from_str("Unterminated string on line "),
        Fault::FloatEndsWithDot | Fault::MalformedFloat => String::from_str("Invalid float on line "),
        Fault::IntegerOverflow => String::from_str("Invalid integer on line "),
    };
    push_decimal(&mut m, line);
    if let Fault::FloatEndsWithDot = fault {
        m.append("  - last char is a .");
    }
    assert(m@ =~= message(fault, line as nat));
    m
}

} // verus!
