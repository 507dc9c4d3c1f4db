//! One compiled location rule.

use vstd::prelude::*;
use crate::config::error::{seen, ConfigError, ConfigErrorView, Target};
use crate::config::extend::{glob_outcome, regex_outcome, Force};
use crate::engine::{
    build_expression, clone_glob_matcher, clone_regex, compile_glob, expression_new,
    glob_expression, glob_is_match, glob_matcher, glob_matches, glob_regex, regex_error_message,
    regex_error_text, regex_is_match, regex_matches,
};
use crate::matcher::{replace_match_keyword, END_WORD, REGEX_WORD, START_WORD};
use crate::text::{ends_with, starts_with, stripped};

verus! {

/// A location rule, compiled: exactly one of four ways to test a path.
#[derive(Debug)]
pub struct LocationMatcher(MatchMode);

#[derive(Debug)]
enum MatchMode {
    Glob(globset::GlobMatcher),
    Regex(regex::Regex),
    Start(String),
    End(String),
}

/// What a [`LocationMatcher`] holds, as a value to reason about.
pub enum Strategy {
    /// A compiled glob.
    Glob(globset::GlobMatcher),
    /// A compiled regular expression, searched for anywhere in the path.
    Regex(regex::Regex),
    /// A literal the path must start with.
    Prefix(Seq<char>),
    /// A literal the path must end with.
    Suffix(Seq<char>),
}

impl Strategy {
    /// Whether a path satisfies the strategy.
    pub open spec fn matches(self, path: Seq<char>) -> bool {
        match self {
            Strategy::Glob(matcher) => glob_is_match(matcher, path),
            Strategy::Regex(re) => regex_is_match(re, path),
            Strategy::Prefix(literal) => literal.is_prefix_of(path),
            Strategy::Suffix(literal) => literal.is_suffix_of(path),
        }
    }
}

/// What compiling `location`, whole, as a glob comes to: the matcher of the parsed glob;
/// the error of [`glob_outcome`], where it does not parse; or, where no matcher can be
/// built because the engine turns down the expression globset wrote for the glob, the
/// error that names `location` and the engine's complaint.
pub open spec fn glob_strategy(location: Seq<char>) -> Result<Strategy, ConfigErrorView> {
    match glob_outcome(location) {
        Ok(glob) => match expression_new(glob_regex(glob)) {
            Ok(_) => Ok(Strategy::Glob(glob_matcher(glob))),
            Err(e) => Err(
                ConfigErrorView {
                    input: location,
                    target: Target::Glob,
                    cause: regex_error_text(e),
                },
            ),
        },
        Err(e) => Err(e),
    }
}

/// The strategy a location string selects, or the error its pattern is rejected with.
///
/// The markers are tried in a fixed order: regular expression, prefix, suffix. The first
/// that the string begins with decides, and what follows it is the pattern or literal.
/// A string that begins with none of them is a glob as a whole.
pub open spec fn selected(location: Seq<char>) -> Result<Strategy, ConfigErrorView> {
    match stripped(location, REGEX_WORD@) {
        Some(pattern) => match regex_outcome(pattern) {
            Ok(re) => Ok(Strategy::Regex(re)),
            Err(e) => Err(e),
        },
        None => match stripped(location, START_WORD@) {
            Some(literal) => Ok(Strategy::Prefix(literal)),
            None => match stripped(location, END_WORD@) {
                Some(literal) => Ok(Strategy::Suffix(literal)),
                None => glob_strategy(location),
            },
        },
    }
}

/// A construction result with both sides taken as plain values.
pub open spec fn built(outcome: Result<LocationMatcher, ConfigError>) -> Result<
    Strategy,
    ConfigErrorView,
> {
    match outcome {
        Ok(matcher) => Ok(matcher@),
        Err(error) => Err(error@),
    }
}

impl View for LocationMatcher {
    type V = Strategy;

    closed spec fn view(&self) -> Strategy {
        match self.0 {
            MatchMode::Glob(matcher) => Strategy::Glob(matcher),
            MatchMode::Regex(re) => Strategy::Regex(re),
            MatchMode::Start(literal) => Strategy::Prefix(literal@),
            MatchMode::End(literal) => Strategy::Suffix(literal@),
        }
    }
}

impl Clone for LocationMatcher {
    /// A copy that holds the same strategy, and so gives the same answer on every path.
    fn clone(&self) -> (copy: LocationMatcher)
        ensures
            copy@ == self@,
    {
        match &self.0 {
            MatchMode::Glob(glob) => LocationMatcher(MatchMode::Glob(clone_glob_matcher(glob))),
            MatchMode::Regex(reg) => LocationMatcher(MatchMode::Regex(clone_regex(reg))),
            MatchMode::Start(s) => LocationMatcher(MatchMode::Start(s.clone())),
            MatchMode::End(s) => LocationMatcher(MatchMode::End(s.clone())),
        }
    }
}

impl LocationMatcher {
    /// Compiles a location string into the strategy it selects.
    ///
    /// Fails exactly when the string selects a regular expression or a glob and the
    /// pattern is rejected; it never falls back to another strategy. A regular expression
    /// is rejected by its engine. A glob is rejected by globset where it is malformed,
    /// and by the engine where it is too deeply nested or too large for a matcher to be
    /// built: globset would panic there, so the glob's expression is tried on the
    /// engine first.
    pub fn new(location: &str) -> (outcome: Result<LocationMatcher, ConfigError>)
        ensures
            built(outcome) == selected(location@),
    {
        // Regex
        if let Some(raw) = replace_match_keyword(location, REGEX_WORD) {
            return match raw.as_str().to_regex() {
                Ok(reg) => Ok(LocationMatcher(MatchMode::Regex(reg))),
                Err(e) => Err(e),
            };
        }
        // Start
        if let Some(raw) = replace_match_keyword(location, START_WORD) {
            return Ok(LocationMatcher(MatchMode::Start(raw)));
        }
        // End
        if let Some(raw) = replace_match_keyword(location, END_WORD) {
            return Ok(LocationMatcher(MatchMode::End(raw)));
        }
        // Glob
        match location.to_glob() {
            Ok(glob) => match build_expression(glob_expression(&glob)) {
                Ok(_) => Ok(LocationMatcher(MatchMode::Glob(compile_glob(&glob)))),
                Err(e) => Err(ConfigError::new(location, Target::Glob, regex_error_message(&e))),
            },
            Err(e) => Err(e),
        }
    }

    /// Whether the rule applies to `path`.
    pub fn is_match(&self, path: &str) -> (found: bool)
        ensures
            found == self@.matches(path@),
    {
        match &self.0 {
            MatchMode::Glob(glob) => glob_matches(glob, path),
            MatchMode::Regex(reg) => regex_matches(reg, path),
            MatchMode::Start(s) => starts_with(path, s.as_str()),
            MatchMode::End(s) => ends_with(path, s.as_str()),
        }
    }
}

} // verus!
