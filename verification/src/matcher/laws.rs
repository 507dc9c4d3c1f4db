//! What holds of every location rule.
//!
//! Each statement is over [`selected`], which says what
//! [`LocationMatcher::new`](crate::matcher::LocationMatcher::new) builds, and
//! [`Strategy::matches`], which says what
//! [`LocationMatcher::is_match`](crate::matcher::LocationMatcher::is_match) answers.

use vstd::prelude::*;
use crate::config::depth::{brace_depth, MAX_GLOB_DEPTH};
use crate::config::extend::regex_outcome;
use crate::engine::{
    backslash_escapes, expression_new, glob_is_match, glob_matcher, glob_new, glob_regex,
    regex_is_match, regex_new,
};
use crate::matcher::location::{glob_strategy, selected, Strategy};
use crate::matcher::{END_WORD, REGEX_WORD, START_WORD};
use crate::text::stripped;

verus! {

/// Each marker is the one character it is written as.
pub proof fn lemma_markers()
    ensures
        REGEX_WORD@ == seq!['~'],
        START_WORD@ == seq!['^'],
        END_WORD@ == seq!['$'],
{
    reveal_strlit("~");
    reveal_strlit("^");
    reveal_strlit("$");
    assert(REGEX_WORD@ =~= seq!['~']);
    assert(START_WORD@ =~= seq!['^']);
    assert(END_WORD@ =~= seq!['$']);
}

/// Taking a one-character marker from the front of a string gives what follows the first
/// character when that character is the marker, and nothing otherwise.
proof fn lemma_stripped_marker(marker: char, location: Seq<char>)
    ensures
        stripped(location, seq![marker]) == if location.len() > 0 && location[0] == marker {
            Some(location.skip(1))
        } else {
            None
        },
{
    let word = seq![marker];
    if location.len() > 0 && location[0] == marker {
        assert(word =~= location.subrange(0, 1));
    } else if location.len() > 0 {
        assert(word[0] != location.subrange(0, 1)[0]);
    }
}

/// A location that begins with `~` is matched by searching the path, anywhere in it, for
/// the expression compiled from what follows the `~`.
pub proof fn lemma_regex_location(pattern: Seq<char>, path: Seq<char>)
    ensures
        regex_new(pattern) matches Ok(re) ==> (selected(seq!['~'] + pattern) matches Ok(s) && s
            == Strategy::Regex(re) && s.matches(path) == regex_is_match(re, path)),
{
    lemma_markers();
    let location = seq!['~'] + pattern;
    lemma_stripped_marker('~', location);
    assert(location.skip(1) =~= pattern);
}

/// A location `^` followed by `literal` matches exactly the paths that start with
/// `literal`.
pub proof fn lemma_prefix_location(literal: Seq<char>, path: Seq<char>)
    ensures
        selected(seq!['^'] + literal) matches Ok(s) && s == Strategy::Prefix(literal)
            && s.matches(path) == literal.is_prefix_of(path),
{
    lemma_markers();
    let location = seq!['^'] + literal;
    lemma_stripped_marker('~', location);
    lemma_stripped_marker('^', location);
    assert(location.skip(1) =~= literal);
}

/// A location `$` followed by `literal` matches exactly the paths that end with
/// `literal`.
pub proof fn lemma_suffix_location(literal: Seq<char>, path: Seq<char>)
    ensures
        selected(seq!['$'] + literal) matches Ok(s) && s == Strategy::Suffix(literal)
            && s.matches(path) == literal.is_suffix_of(path),
{
    lemma_markers();
    let location = seq!['$'] + literal;
    lemma_stripped_marker('~', location);
    lemma_stripped_marker('^', location);
    lemma_stripped_marker('$', location);
    assert(location.skip(1) =~= literal);
}

/// Whether a location begins with one of the three markers.
pub open spec fn has_marker(location: Seq<char>) -> bool {
    location.len() > 0 && (location[0] == '~' || location[0] == '^' || location[0] == '$')
}

/// Whether a matcher can be made of `location` as a glob: globset parses it, and the
/// engine builds the expression globset wrote for it.
pub open spec fn glob_builds(location: Seq<char>) -> bool {
    glob_new(location) matches Ok(glob) && expression_new(glob_regex(glob)) is Ok
}

/// A location without a marker is compiled, whole, as a glob, and matches exactly the
/// paths that the glob's matcher accepts, wherever a matcher can be made of it. The
/// braces must not be nested deeper than the library hands to globset.
pub proof fn lemma_glob_location(location: Seq<char>, path: Seq<char>)
    requires
        !has_marker(location),
        brace_depth(location, backslash_escapes()) <= MAX_GLOB_DEPTH,
        glob_builds(location),
    ensures
        glob_new(location) matches Ok(glob) && selected(location) matches Ok(s) && s
            == Strategy::Glob(glob_matcher(glob)) && s.matches(path) == glob_is_match(
            glob_matcher(glob),
            path,
        ),
{
    lemma_markers();
    lemma_stripped_marker('~', location);
    lemma_stripped_marker('^', location);
    lemma_stripped_marker('$', location);
}

/// Two matchers built from the same location agree on every path.
pub proof fn lemma_same_location_same_answers(
    location: Seq<char>,
    first: Strategy,
    second: Strategy,
    path: Seq<char>,
)
    requires
        selected(location) matches Ok(s) && s == first,
        selected(location) matches Ok(s) && s == second,
    ensures
        first.matches(path) == second.matches(path),
{
}

/// A rejected pattern is never given to another strategy: a location that begins with
/// `~` fails whenever the expression after the `~` does not compile, and a location
/// without a marker fails whenever no matcher can be made of it as a glob, or its braces
/// are nested deeper than the library hands to globset. No other location fails.
pub proof fn lemma_rejected_pattern_fails(location: Seq<char>)
    ensures
        selected(location) is Err <==> if location.len() > 0 && location[0] == '~' {
            regex_new(location.skip(1)) is Err
        } else {
            !has_marker(location) && (brace_depth(location, backslash_escapes())
                > MAX_GLOB_DEPTH || !glob_builds(location))
        },
        selected(location) matches Err(e) ==> if location.len() > 0 && location[0] == '~' {
            regex_outcome(location.skip(1)) matches Err(cause) && cause == e
        } else {
            glob_strategy(location) matches Err(cause) && cause == e
        },
{
    lemma_markers();
    lemma_stripped_marker('~', location);
    lemma_stripped_marker('^', location);
    lemma_stripped_marker('$', location);
}

} // verus!
