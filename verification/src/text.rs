//! Blank-input detection: a submitted label is ignored when it is empty or
//! consists of white space only, which is exactly when trimming it would
//! leave the empty string.

use vstd::prelude::*;

verus! {

/// What `char::is_whitespace` returns for a character: whether it has the
/// Unicode `White_Space` property.
pub uninterp spec fn is_space(c: char) -> bool;

/// A string is blank when every character in it is white space; in
/// particular the empty string is blank. Trimming a blank string leaves
/// nothing.
pub open spec fn is_blank(s: Seq<char>) -> bool {
    forall|i: int| 0 <= i < s.len() ==> is_space(#[trigger] s[i])
}

/// Relies on `char::is_whitespace`: the result depends on the character
/// alone, true exactly for characters with the Unicode `White_Space`
/// property.
#[verifier::external_body]
fn whitespace(c: char) -> (r: bool)
    ensures
        r == is_space(c),
{
    c.is_whitespace()
}

/// Whether `s` is empty or made of white space only.
pub fn str_is_blank(s: &str) -> (r: bool)
    ensures
        r == is_blank(s@),
{
    let n = s.unicode_len();
    let mut i: usize = 0;
    while i < n
        invariant
            n == s@.len(),
            i <= n,
            forall|j: int| 0 <= j < i ==> is_space(#[trigger] s@[j]),
        decreases n - i,
    {
        if !whitespace(s.get_char(i)) {
            return false;
        }
        i = i + 1;
    }
    true
}

} // verus!
