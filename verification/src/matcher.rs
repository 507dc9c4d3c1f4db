//! Matching request paths against location rules.

pub mod laws;
pub mod location;

pub use location::LocationMatcher;

use vstd::prelude::*;
use crate::text::{strip_prefix, stripped};

verus! {

/// The marker that asks for a regular expression.
pub const REGEX_WORD: &'static str = "~";

/// The marker that asks for a literal prefix.
pub const START_WORD: &'static str = "^";

/// The marker that asks for a literal suffix.
pub const END_WORD: &'static str = "$";

/// The rest of `location` after `keyword`, where `location` begins with `keyword`;
/// nothing otherwise.
pub fn replace_match_keyword(location: &str, keyword: &str) -> (rest: Option<String>)
    ensures
        match rest {
            Some(r) => stripped(location@, keyword@) == Some(r@),
            None => stripped(location@, keyword@) is None,
        },
{
    match strip_prefix(location, keyword) {
        Some(rest) => Some(rest.to_owned()),
        None => None,
    }
}

} // verus!
