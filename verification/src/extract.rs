//! Picking the URL out of a pasted text.

use vstd::prelude::*;
use crate::text::{has_substring, text_of};

verus! {

/// What counts as a URL in a pasted text, whatever the case of its letters:
/// at a word boundary, `http://` or `https://`, `ftp://` or `www.` followed by
/// at least one character, or a dotted name, a dot, two or more letters and a
/// slash, followed by any number of characters. The characters that follow are
/// anything but white space, angle brackets and double quotes.
pub const URL_PATTERN: &'static str =
    "(?i)\\b(https?://[^\\s<>\"]+|ftp://[^\\s<>\"]+|www\\.[^\\s<>\"]+|[a-z0-9.-]+\\.[a-z]{2,}/[^\\s<>\"]*)";

/// The leftmost match of the regular expression `pattern` in `haystack`, as
/// the `regex` crate finds it; `None` where nothing matches, and where the
/// crate does not accept the pattern.
pub uninterp spec fn regex_first_match(pattern: Seq<char>, haystack: Seq<char>) -> Option<
    Seq<char>,
>;

/// Compiles `pattern` with `regex::Regex::new` and searches `haystack` with
/// `Regex::find`. The contract names what comes back, and claims of it only
/// what `Match::as_str` documents: a match is a piece of the haystack.
/// Neither call panics; a pattern that does not compile gives `None`.
#[verifier::external_body]
fn first_match(pattern: &str, haystack: &str) -> (found: Option<String>)
    ensures
        text_of(found) == regex_first_match(pattern@, haystack@),
        found matches Some(piece) ==> has_substring(haystack@, piece@),
{
    match regex::Regex::new(pattern) {
        Ok(re) => match re.find(haystack) {
            Some(m) => Some(m.as_str().to_string()),
            None => None,
        },
        Err(_) => None,
    }
}

/// The first URL in `text`, if there is one: the leftmost match of
/// `URL_PATTERN`, which is a piece of `text`.
pub fn extract_url(text: &str) -> (url: Option<String>)
    ensures
        text_of(url) == regex_first_match(URL_PATTERN@, text@),
        url matches Some(piece) ==> has_substring(text@, piece@),
{
    first_match(URL_PATTERN, text)
}

} // verus!
