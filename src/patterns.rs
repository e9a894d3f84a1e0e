//! Finding words by regular expression, through the regex crate.
use vstd::prelude::*;
use vstd::string::*;

verus! {

#[verifier::external_type_specification]
#[verifier::external_body]
pub struct ExRegex(regex::Regex);

#[verifier::external_type_specification]
#[verifier::external_body]
pub struct ExRegexError(regex::Error);

/// Whether the regex crate compiles `pattern` under its default settings.
pub uninterp spec fn compiles(pattern: Seq<char>) -> bool;

/// The successive non-overlapping matches of `pattern` in `text`, as the
/// regex crate finds them.
pub uninterp spec fn matches_in(pattern: Seq<char>, text: Seq<char>) -> Seq<Seq<char>>;

/// Relies on `regex::Regex::new`: it succeeds exactly on the patterns that
/// compile, which depends on the pattern alone.
#[verifier::external_body]
fn compile(pattern: &str) -> (r: Result<regex::Regex, regex::Error>)
    ensures
        r is Ok <==> compiles(pattern@),
{
    regex::Regex::new(pattern)
}

/// Why a pattern could not be used.
pub enum PatternError {
    /// The regex crate refused the pattern (bad syntax, or too large).
    Rejected,
}

/// A compiled regular expression together with its source text.
pub struct Pattern {
    source: String,
    re: regex::Regex,
}

/// Relies on `regex::Regex::find_iter` (with `Match::as_str`): the texts of the
/// successive non-overlapping matches. A `Pattern`'s `re` is always compiled
/// from its `source`.
#[verifier::external_body]
fn find_all(p: &Pattern, text: &str) -> (r: Vec<String>)
    ensures
        r@.map_values(|s: String| s@) == matches_in(p.source@, text@),
{
    p.re.find_iter(text).map(|m| m.as_str().to_string()).collect()
}

impl Pattern {
    /// The text the pattern was compiled from.
    pub closed spec fn spec_source(&self) -> Seq<char> {
        self.source@
    }

    /// Compiles `source`.
    pub fn new(source: &str) -> (r: Result<Pattern, PatternError>)
        ensures
            r is Ok <==> compiles(source@),
            r matches Ok(p) ==> p.spec_source() == source@,
    {
        match compile(source) {
            Ok(re) => Ok(Pattern { source: String::from_str(source), re }),
            Err(_) => Err(PatternError::Rejected),
        }
    }

    /// The texts of the successive non-overlapping matches in `text`.
    pub fn find_iter(&self, text: &str) -> (r: Vec<String>)
        ensures
            r@.map_values(|s: String| s@) == matches_in(self.spec_source(), text@),
    {
        find_all(self, text)
    }
}

/// The pattern of a word of exactly five word characters.
pub open spec fn five_letter_word() -> Seq<char> {
    "\\b\\w{5}\\b"@
}

/// The words of exactly five word characters in `text`, in order; `None`
/// only if the regex crate refuses the pattern.
pub fn five_letter_words(text: &str) -> (r: Option<Vec<String>>)
    ensures
        r is Some <==> compiles(five_letter_word()),
        r matches Some(v) ==> v@.map_values(|s: String| s@) == matches_in(five_letter_word(), text@),
{
    match Pattern::new("\\b\\w{5}\\b") {
        Ok(p) => Some(p.find_iter(text)),
        Err(_) => None,
    }
}

} // verus!
