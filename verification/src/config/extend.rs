//! Conversions on configuration strings.

use vstd::prelude::*;
use crate::config::error::{seen, ConfigError, ConfigErrorView, Target};
use crate::config::depth::{
    brace_depth, depth_cause, glob_depth, spec_depth_cause, MAX_GLOB_DEPTH,
};
use crate::engine::{
    backslash_escapes, compile_regex, glob_error_message, glob_error_text, glob_new, glob_text,
    parse_glob, regex_error_message, regex_error_text, regex_new,
};
use crate::path::{
    extension, is_absolute, is_separator, join,
    path_extension, path_from, path_is_absolute, path_join,
    path_of, path_text, to_str,
};

verus! {

/// What converting `text` to a glob comes to: the parsed glob, or the error that names
/// `text` and globset's complaint. A glob whose braces are nested deeper than
/// [`MAX_GLOB_DEPTH`] is not shown to globset, and the error says so.
pub open spec fn glob_outcome(text: Seq<char>) -> Result<globset::Glob, ConfigErrorView> {
    if brace_depth(text, backslash_escapes()) > MAX_GLOB_DEPTH {
        Err(ConfigErrorView { input: text, target: Target::Glob, cause: spec_depth_cause() })
    } else {
        match glob_new(text) {
            Ok(glob) => Ok(glob),
            Err(e) => Err(
                ConfigErrorView { input: text, target: Target::Glob, cause: glob_error_text(e) },
            ),
        }
    }
}

/// What converting `text` to a regular expression comes to: the compiled expression, or
/// the error that names `text` and the regex compiler's complaint.
pub open spec fn regex_outcome(text: Seq<char>) -> Result<regex::Regex, ConfigErrorView> {
    match regex_new(text) {
        Ok(re) => Ok(re),
        Err(e) => Err(
            ConfigErrorView { input: text, target: Target::Regex, cause: regex_error_text(e) },
        ),
    }
}

/// The extension of a path as text: empty where the path has none, and nothing where the
/// extension is not valid Unicode.
pub open spec fn extension_text(path: &std::path::PathBuf) -> Option<Seq<char>> {
    match path_extension(path) {
        Some(ext) => path_text(ext),
        None => Some(Seq::empty()),
    }
}

/// The extension of a path, as text.
pub trait PathExtension {
    /// The extension; the empty string where there is none.
    fn get_extension(&self) -> Option<&str>;
}

impl PathExtension for std::path::PathBuf {
    fn get_extension(&self) -> (ext: Option<&str>)
        ensures
            match ext {
                Some(text) => extension_text(self) == Some(text@),
                None => extension_text(self) is None,
            },
    {
        match extension(self) {
            Some(ext) => to_str(ext),
            None => {
                proof {
                    reveal_strlit("");
                    assert(""@ =~= Seq::<char>::empty());
                }
                Some("")
            },
        }
    }
}

/// The path that a configured string stands for under `root`: the string's own path
/// where that is absolute, and `root` joined with the string otherwise.
pub open spec fn absolute(text: Seq<char>, root: &std::path::Path) -> std::path::PathBuf {
    if path_is_absolute(path_of(text)) {
        path_of(text)
    } else {
        path_join(root, text)
    }
}

/// A configured path, made independent of the current directory.
pub trait AbsolutePath {
    /// The path this value stands for, taken relative to `root` unless it is absolute.
    fn absolute_path(&self, root: &std::path::Path) -> std::path::PathBuf;
}

impl AbsolutePath for String {
    fn absolute_path(&self, root: &std::path::Path) -> (path: std::path::PathBuf)
        ensures
            path == absolute(self@, root),
    {
        let path = path_from(self.as_str());
        if is_absolute(&path) {
            path
        } else {
            join(root, self.as_str())
        }
    }
}

/// Conversion of configuration text to the typed value it stands for.
pub trait Force {
    /// Parses the text as a glob pattern. A glob whose braces are nested too deep for
    /// globset's recursion is turned down before it is parsed: see
    /// [`crate::config::depth`].
    fn to_glob(&self) -> Result<globset::Glob, ConfigError>;

    /// Compiles the text as a regular expression.
    fn to_regex(&self) -> Result<regex::Regex, ConfigError>;
}

impl Force for &str {
    fn to_glob(&self) -> (outcome: Result<globset::Glob, ConfigError>)
        ensures
            seen(outcome) == glob_outcome(self@),
            outcome matches Ok(glob) ==> glob_text(glob) == self@,
    {
        let escapes = !is_separator('\\');
        if glob_depth(self, escapes) > MAX_GLOB_DEPTH {
            return Err(ConfigError::new(self, Target::Glob, depth_cause().to_owned()));
        }
        match parse_glob(self) {
            Ok(glob) => Ok(glob),
            Err(e) => Err(ConfigError::new(self, Target::Glob, glob_error_message(&e))),
        }
    }

    fn to_regex(&self) -> (outcome: Result<regex::Regex, ConfigError>)
        ensures
            seen(outcome) == regex_outcome(self@),
    {
        match compile_regex(self) {
            Ok(re) => Ok(re),
            Err(e) => Err(ConfigError::new(self, Target::Regex, regex_error_message(&e))),
        }
    }
}

} // verus!
