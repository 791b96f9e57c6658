//! The regular-expression content scan behind ecosystem detection. Whether a
//! pattern matches a text is a function of the two strings alone; the result
//! is given a name here and every contract speaks through that name.

use vstd::prelude::*;

verus! {

pub uninterp spec fn regex_found(pattern: Seq<char>, text: Seq<char>) -> bool;

/// Relies on regex::Regex::new and regex::Regex::is_match: compiling a
/// pattern and asking whether it matches somewhere in a text is deterministic
/// in the pattern and the text alone. A pattern that does not compile matches
/// no text.
#[verifier::external_body]
pub fn regex_is_match(pattern: &str, text: &str) -> (r: bool)
    ensures
        r == regex_found(pattern@, text@),
{
    match regex::Regex::new(pattern) {
        Ok(re) => re.is_match(text),
        Err(_) => false,
    }
}

} // verus!
