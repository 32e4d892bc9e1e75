//! The source as a vector of characters.
use vstd::prelude::*;

verus! {

/// The characters of `source`, in order, so that the scanner can look at any
/// position in constant time.
pub fn char_vec(source: &str) -> (r: Vec<char>)
    ensures
        r@ == source@,
{
    let mut v: Vec<char> = Vec::new();
    for c in it: source.chars()
        invariant
            v@ == it.seq().take(it.index() as int),
            it.seq() == source@,
    {
        v.push(c);
    }
    v
}

} // verus!
