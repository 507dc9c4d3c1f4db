//! The two pattern engines the matcher compiles with: `regex` and `globset`.
//!
//! Nothing in this module is proved. Each outside function the library calls
//! gets a name for what it returns, and a contract that says that the call
//! returns what the name stands for. Where a call can panic or run out of
//! stack, a `requires` leaves out the arguments on which it does. The
//! library's own contracts are stated over these names.

use vstd::prelude::*;
use crate::config::depth::{brace_depth, MAX_GLOB_DEPTH};
use crate::path::path_is_separator;

verus! {

#[verifier::external_type_specification]
#[verifier::external_body]
pub struct ExRegex(regex::Regex);

#[verifier::external_type_specification]
#[verifier::external_body]
pub struct ExRegexError(regex::Error);

#[verifier::external_type_specification]
#[verifier::external_body]
pub struct ExBytesRegex(regex::bytes::Regex);

#[verifier::external_type_specification]
#[verifier::external_body]
pub struct ExGlob(globset::Glob);

#[verifier::external_type_specification]
#[verifier::external_body]
pub struct ExGlobMatcher(globset::GlobMatcher);

#[verifier::external_type_specification]
#[verifier::external_body]
pub struct ExGlobError(globset::Error);

/// What `regex::Regex::new` returns for a pattern: the compiled expression, or the
/// reason the pattern was turned down.
pub uninterp spec fn regex_new(pattern: Seq<char>) -> Result<regex::Regex, regex::Error>;

/// What `regex::Regex::is_match` returns: whether the expression finds a match anywhere
/// in the haystack.
pub uninterp spec fn regex_is_match(re: regex::Regex, haystack: Seq<char>) -> bool;

/// The text that `regex::Error` displays as.
pub uninterp spec fn regex_error_text(error: regex::Error) -> Seq<char>;

/// What `globset::Glob::new` returns for a pattern: the parsed glob, or the reason the
/// pattern was turned down.
pub uninterp spec fn glob_new(pattern: Seq<char>) -> Result<globset::Glob, globset::Error>;

/// Whether `\` escapes in a glob. globset's default options let it do so on the platforms
/// where `std::path::is_separator` does not take `\` for a separator.
pub open spec fn backslash_escapes() -> bool {
    !path_is_separator('\\')
}

/// What `globset::Glob::glob` returns: the text a glob was parsed from.
pub uninterp spec fn glob_text(glob: globset::Glob) -> Seq<char>;

/// What `globset::Glob::regex` returns: the expression that globset wrote for a glob.
pub uninterp spec fn glob_regex(glob: globset::Glob) -> Seq<char>;

/// What `regex::bytes::RegexBuilder` builds from an expression when a dot is to match a
/// line break too and every other option is left as it is: the compiled expression, or
/// the reason it was turned down.
pub uninterp spec fn expression_new(expression: Seq<char>) -> Result<
    regex::bytes::Regex,
    regex::Error,
>;

/// The matcher that `globset::Glob::compile_matcher` builds from a parsed glob.
pub uninterp spec fn glob_matcher(glob: globset::Glob) -> globset::GlobMatcher;

/// What `globset::GlobMatcher::is_match` returns for a path given as text.
pub uninterp spec fn glob_is_match(matcher: globset::GlobMatcher, path: Seq<char>) -> bool;

/// The text that `globset::Error` displays as.
pub uninterp spec fn glob_error_text(error: globset::Error) -> Seq<char>;

/// Calls `regex::Regex::new`, which compiles a pattern with the crate's default options.
/// It reports a pattern it cannot compile as an error; it does not panic. The contract
/// only gives the outcome its name.
#[verifier::external_body]
pub(crate) fn compile_regex(pattern: &str) -> (compiled: Result<regex::Regex, regex::Error>)
    ensures
        compiled == regex_new(pattern@),
{
    regex::Regex::new(pattern)
}

/// Calls `regex::Regex::is_match`, which searches the whole haystack, from its start, for
/// any match of the expression. The contract only gives the answer its name.
#[verifier::external_body]
pub(crate) fn regex_matches(re: &regex::Regex, haystack: &str) -> (found: bool)
    ensures
        found == regex_is_match(*re, haystack@),
{
    re.is_match(haystack)
}

/// Calls `globset::Glob::new`, which parses a glob with the crate's default options and
/// reports a malformed one as an error. The contract gives the outcome its name, and
/// says that a parsed glob keeps the text it was parsed from: `Glob::new` stores a copy of
/// its argument, and `Glob::glob` hands that copy out.
///
/// `Glob::new` writes the expression of a glob by recursion, one call for each level of
/// `{..}`, and nothing in it bounds the levels: only the stack does. The `requires`
/// bounds them; [`crate::config::depth`] measures them as globset's parser finds them.
#[verifier::external_body]
pub(crate) fn parse_glob(pattern: &str) -> (parsed: Result<globset::Glob, globset::Error>)
    requires
        brace_depth(pattern@, backslash_escapes()) <= MAX_GLOB_DEPTH,
    ensures
        parsed == glob_new(pattern@),
        parsed matches Ok(glob) ==> glob_text(glob) == pattern@,
{
    globset::Glob::new(pattern)
}

/// Calls `globset::Glob::regex`, which hands out the expression that parsing wrote for the
/// glob. The contract only gives the text its name.
#[verifier::external_body]
pub(crate) fn glob_expression(glob: &globset::Glob) -> (expression: &str)
    ensures
        expression@ == glob_regex(*glob),
{
    glob.regex()
}

/// Builds an expression with `regex::bytes::RegexBuilder`, with a dot matching a line
/// break too and every other option left as it is. The builder reports an expression it
/// cannot compile as an error; it does not panic. The contract only gives the outcome
/// its name.
#[verifier::external_body]
pub(crate) fn build_expression(expression: &str) -> (built: Result<
    regex::bytes::Regex,
    regex::Error,
>)
    ensures
        built == expression_new(expression@),
{
    regex::bytes::RegexBuilder::new(expression).dot_matches_new_line(true).build()
}

/// Calls `globset::Glob::compile_matcher`, which compiles the glob's expression into the
/// glob's matcher, and panics when that fails. The contract only gives the matcher its
/// name.
///
/// The `requires` leaves out the globs on which it fails: those whose expression
/// [`build_expression`] cannot build either. globset and `regex::bytes::RegexBuilder`
/// hand the expression to the same builder of `regex-automata`, both without UTF-8
/// checks, with a dot that matches a line break, with the nesting limit of 250 and with
/// the size limit of 10 MiB for the compiled expression. They differ in the memory they
/// give the lazy automaton, which the builder does without when it cannot be had. The
/// bound on the braces is there for the copy of the glob that the matcher keeps, made by
/// recursion as the expression is.
#[verifier::external_body]
pub(crate) fn compile_glob(glob: &globset::Glob) -> (matcher: globset::GlobMatcher)
    requires
        brace_depth(glob_text(*glob), backslash_escapes()) <= MAX_GLOB_DEPTH,
        expression_new(glob_regex(*glob)) is Ok,
    ensures
        matcher == glob_matcher(*glob),
{
    glob.compile_matcher()
}

/// Calls `globset::GlobMatcher::is_match` with the path as a string slice. The contract
/// only gives the answer its name.
#[verifier::external_body]
pub(crate) fn glob_matches(matcher: &globset::GlobMatcher, path: &str) -> (found: bool)
    ensures
        found == glob_is_match(*matcher, path@),
{
    matcher.is_match(path)
}

/// Clones a compiled expression. `regex::Regex` derives `Clone` over its compiled program
/// and its pattern text, so the copy searches as the expression it was made from.
#[verifier::external_body]
pub(crate) fn clone_regex(re: &regex::Regex) -> (copy: regex::Regex)
    ensures
        copy == *re,
{
    re.clone()
}

/// Clones a glob matcher. `globset::GlobMatcher` derives `Clone` over its glob and its
/// compiled expression, so the copy answers as the matcher it was made from.
#[verifier::external_body]
pub(crate) fn clone_glob_matcher(matcher: &globset::GlobMatcher) -> (copy: globset::GlobMatcher)
    ensures
        copy == *matcher,
{
    matcher.clone()
}

/// Renders a `regex::Error` through its `Display` impl. The contract only gives the text
/// its name.
#[verifier::external_body]
pub(crate) fn regex_error_message(error: &regex::Error) -> (text: String)
    ensures
        text@ == regex_error_text(*error),
{
    error.to_string()
}

/// Renders a `globset::Error` through its `Display` impl. The contract only gives the
/// text its name.
#[verifier::external_body]
pub(crate) fn glob_error_message(error: &globset::Error) -> (text: String)
    ensures
        text@ == glob_error_text(*error),
{
    error.to_string()
}

} // verus!
