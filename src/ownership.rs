//! Borrowing: functions that read through references and return borrowed data.
use vstd::prelude::*;
use vstd::string::*;
use vstd::utf8::encode_utf8;

verus! {

/// Number of bytes `s` takes in UTF-8, which is what `len` counts
/// (the bytes of a string in memory always fit in a `usize`).
pub open spec fn byte_len(s: Seq<char>) -> usize {
    encode_utf8(s).len() as usize
}

/// Length of a borrowed string, in bytes.
pub fn calculate_length(s: &String) -> (r: usize)
    ensures
        r == byte_len(s@),
{
    s.as_str().len()
}

/// The longer of two strings by byte length; the second one on a tie.
pub fn longest<'a>(s1: &'a str, s2: &'a str) -> (r: &'a str)
    ensures
        r@ == if byte_len(s1@) > byte_len(s2@) {
            s1@
        } else {
            s2@
        },
{
    if s1.len() > s2.len() {
        s1
    } else {
        s2
    }
}

/// Appends `suffix` to the text behind a mutable borrow.
pub fn extend_text(text: &mut String, suffix: &str)
    ensures
        final(text)@ == old(text)@ + suffix@,
{
    text.append(suffix);
}

} // verus!
