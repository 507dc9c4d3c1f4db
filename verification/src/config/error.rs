//! The one way configuration text can fail: it does not parse to what it was meant to be.

use vstd::prelude::*;

verus! {

/// What a piece of configuration text was meant to become.
#[derive(Clone, Copy, Debug, PartialEq, Eq, Structural)]
pub enum Target {
    Glob,
    Regex,
}

impl Target {
    /// The words a diagnostic uses for this target.
    pub open spec fn spec_label(self) -> Seq<char> {
        match self {
            Target::Glob => "glob matcher"@,
            Target::Regex => "regular expression"@,
        }
    }

    /// The words a diagnostic uses for this target.
    pub fn label(self) -> (words: &'static str)
        ensures
            words@ == self.spec_label(),
    {
        match self {
            Target::Glob => "glob matcher",
            Target::Regex => "regular expression",
        }
    }
}

/// A piece of configuration text that was rejected, with what it was meant to become and
/// what the parser said about it.
#[derive(Debug)]
pub struct ConfigError {
    pub input: String,
    pub target: Target,
    pub cause: String,
}

/// A [`ConfigError`] as plain values.
pub struct ConfigErrorView {
    pub input: Seq<char>,
    pub target: Target,
    pub cause: Seq<char>,
}

/// The diagnostic for text that did not parse: "Cannot parse `<input>` to <target>:
/// <cause>".
pub open spec fn spec_diagnostic(input: Seq<char>, target: Seq<char>, cause: Seq<char>) -> Seq<
    char,
> {
    "Cannot parse `"@ + input + "` to "@ + target + ": "@ + cause
}

/// The diagnostic for text that did not parse, with the target in words.
pub fn diagnostic(input: &str, target: &str, cause: &str) -> (text: String)
    ensures
        text@ == spec_diagnostic(input@, target@, cause@),
{
    let mut text = "Cannot parse `".to_owned();
    text.append(input);
    text.append("` to ");
    text.append(target);
    text.append(": ");
    text.append(cause);
    text
}

impl ConfigErrorView {
    /// The diagnostic for this error.
    pub open spec fn message(self) -> Seq<char> {
        spec_diagnostic(self.input, self.target.spec_label(), self.cause)
    }
}

impl View for ConfigError {
    type V = ConfigErrorView;

    open spec fn view(&self) -> ConfigErrorView {
        ConfigErrorView { input: self.input@, target: self.target, cause: self.cause@ }
    }
}

impl Clone for ConfigError {
    fn clone(&self) -> (copy: ConfigError)
        ensures
            copy@ == self@,
    {
        ConfigError { input: self.input.clone(), target: self.target, cause: self.cause.clone() }
    }
}

impl ConfigError {
    /// Records that `input` did not parse to `target`, for the reason given in `cause`.
    pub fn new(input: &str, target: Target, cause: String) -> (error: ConfigError)
        ensures
            error@.input == input@,
            error@.target == target,
            error@.cause == cause@,
    {
        ConfigError { input: input.to_owned(), target, cause }
    }

    /// The diagnostic for this error.
    pub fn message(&self) -> (text: String)
        ensures
            text@ == self@.message(),
    {
        diagnostic(self.input.as_str(), self.target.label(), self.cause.as_str())
    }
}

/// A result with its error taken as plain values.
pub open spec fn seen<T>(outcome: Result<T, ConfigError>) -> Result<T, ConfigErrorView> {
    match outcome {
        Ok(value) => Ok(value),
        Err(error) => Err(error@),
    }
}

} // verus!
