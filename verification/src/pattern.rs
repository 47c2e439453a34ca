//! Regular expressions, matched by the `regex` crate.

use vstd::prelude::*;

use crate::text::contains;

verus! {

/// `regex::Error`, which says why a pattern did not compile. Nothing is
/// known of what it holds.
#[verifier::external_type_specification]
#[verifier::external_body]
pub struct ExRegexError(regex::Error);

/// Whether `regex::Regex::new` takes `pattern` for a regular expression: the
/// pattern is well formed and what it compiles to stays within the limits
/// that `Regex::new` sets, which are constants of the `regex` crate.
pub uninterp spec fn regex_compiles(pattern: Seq<char>) -> bool;

/// Whether the regular expression `pattern` has a match somewhere in
/// `haystack`.
pub uninterp spec fn regex_is_match(pattern: Seq<char>, haystack: Seq<char>) -> bool;

/// `c` is a character that stands for itself in a regular expression and has
/// no other meaning there: an ASCII letter or digit, or `=`. None of them is
/// among the characters that `regex_syntax::is_meta_character` lists.
pub open spec fn is_literal_char(c: char) -> bool {
    ('a' <= c && c <= 'z') || ('A' <= c && c <= 'Z') || ('0' <= c && c <= '9') || c == '='
}

/// Every character of `pattern` stands for itself, so that the pattern
/// matches its own text and nothing else.
pub open spec fn is_literal(pattern: Seq<char>) -> bool {
    forall|i: int| 0 <= i < pattern.len() ==> is_literal_char(#[trigger] pattern[i])
}

/// The length in bytes of the leftmost match of the regular expression
/// `pattern` in `haystack`; `None` where it has no match.
pub uninterp spec fn regex_match_len(pattern: Seq<char>, haystack: Seq<char>) -> Option<usize>;

/// Compiles `pattern` with `regex::Regex::new` and asks `Regex::is_match`
/// whether it matches somewhere in `haystack`. Whether the pattern compiles
/// is the pattern's matter alone, and the call fails exactly where it does
/// not; of a pattern that does, the answer is what the expression and the
/// haystack determine. A pattern of letters, digits and
/// `=` alone has no operator in it and, case being told apart, matches where
/// its own text stands: then the answer is whether the pattern stands
/// somewhere in the haystack.
#[verifier::external_body]
pub(crate) fn is_match(pattern: &str, haystack: &str) -> (r: Result<bool, regex::Error>)
    ensures
        r is Ok <==> regex_compiles(pattern@),
        r matches Ok(b) ==> b == regex_is_match(pattern@, haystack@),
        r matches Ok(b) ==> (is_literal(pattern@) ==> b == contains(haystack@, pattern@)),
{
    match regex::Regex::new(pattern) {
        Ok(compiled) => Ok(compiled.is_match(haystack)),
        Err(refusal) => Err(refusal),
    }
}

/// Compiles `pattern` with `regex::Regex::new`, searches `haystack` with
/// `Regex::captures` and gives the length in bytes of the whole match, the
/// group of index 0, which every match has; `None` where nothing matches.
/// Whether the pattern compiles is the pattern's matter alone, and the call
/// fails exactly where it does not; of a pattern that does, the answer is
/// what the expression and the haystack determine.
#[verifier::external_body]
pub(crate) fn match_len(pattern: &str, haystack: &str) -> (r: Result<Option<usize>, regex::Error>)
    ensures
        r is Ok <==> regex_compiles(pattern@),
        r matches Ok(n) ==> n == regex_match_len(pattern@, haystack@),
{
    match regex::Regex::new(pattern) {
        Ok(compiled) => match compiled.captures(haystack) {
            Some(found) => Ok(Some(found[0].len())),
            None => Ok(None),
        },
        Err(refusal) => Err(refusal),
    }
}

} // verus!
