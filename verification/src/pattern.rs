//! Matching of texts against regular expressions.

use regex::Regex;
use vstd::prelude::*;

use crate::devices::opt_view;

verus! {

/// The text that the first capture group of the regular expression
/// `pattern` takes in the leftmost match within `text`; `None` where
/// `pattern` is no regular expression, where it matches nowhere in `text`,
/// or where its first group takes no part in the match.
pub uninterp spec fn first_capture(pattern: Seq<char>, text: Seq<char>) -> Option<Seq<char>>;

/// Compiles `pattern` with `regex::Regex::new`, searches `text` with
/// `Regex::captures` and returns what `Captures::get(1)` holds, as a string
/// of its own. Nothing is claimed of the result but that it is the one that
/// `first_capture` names for these two arguments.
#[verifier::external_body]
pub(crate) fn capture_first(pattern: &str, text: &str) -> (r: Option<String>)
    ensures
        opt_view(r) == first_capture(pattern@, text@),
{
    match Regex::new(pattern) {
        Ok(re) => match re.captures(text) {
            Some(caps) => match caps.get(1) {
                Some(m) => Some(String::from(m.as_str())),
                None => None,
            },
            None => None,
        },
        Err(_) => None,
    }
}

} // verus!
