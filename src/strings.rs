//! Growing strings, searching them, and splitting them into words.
use vstd::prelude::*;
use vstd::string::*;

verus! {

/// Whether `pat` occurs in `text` as a contiguous run of characters.
pub open spec fn occurs_in(pat: Seq<char>, text: Seq<char>) -> bool {
    exists|i: int| 0 <= i <= text.len() - pat.len() && #[trigger] text.subrange(i, i + pat.len()) == pat
}

/// The whitespace-separated words of `s`, as `str::split_whitespace` yields them.
pub uninterp spec fn whitespace_words(s: Seq<char>) -> Seq<Seq<char>>;

/// Relies on `str::contains` with a `&str` pattern: true when the pattern
/// matches a sub-slice of the string.
#[verifier::external_body]
fn str_contains(text: &str, pat: &str) -> (r: bool)
    ensures
        r == occurs_in(pat@, text@),
{
    text.contains(pat)
}

/// Relies on `str::split_whitespace`: the words depend on the text alone, and
/// an empty text has none.
#[verifier::external_body]
fn split_words(s: &str) -> (r: Vec<String>)
    ensures
        r@.map_values(|w: String| w@) == whitespace_words(s@),
        s@.len() == 0 ==> r@.len() == 0,
{
    s.split_whitespace().map(|w| w.to_string()).collect()
}

/// Whether `word` occurs in `text`.
pub fn mentions(text: &str, word: &str) -> (r: bool)
    ensures
        r == occurs_in(word@, text@),
{
    str_contains(text, word)
}

/// The words of `sentence`, split at runs of whitespace.
pub fn words(sentence: &str) -> (r: Vec<String>)
    ensures
        r@.map_values(|w: String| w@) == whitespace_words(sentence@),
{
    split_words(sentence)
}

/// `first`, one space, then `second`.
pub fn join_with_space(first: &str, second: &str) -> (r: String)
    ensures
        r@ == first@ + " "@ + second@,
{
    let mut s = String::from_str(first);
    s.append(" ");
    s.append(second);
    s
}

/// `left` followed by `right`, consuming `left`.
pub fn concatenate(left: String, right: &String) -> (r: String)
    ensures
        r@ == left@ + right@,
{
    left.concat(right.as_str())
}

} // verus!
