//! Request-path location matching with machine-checked contracts.
//!
//! A location rule is written as one string. A leading `~` asks for a regular
//! expression, a leading `^` for a literal prefix, a leading `$` for a literal
//! suffix; anything else is a glob pattern. [`matcher::LocationMatcher`]
//! compiles such a string once and then answers, for any request path,
//! whether the rule applies.
//!
//! A pattern that cannot be compiled is reported as a
//! [`config::ConfigError`]; nothing here panics or ends the process. That
//! includes a glob that globset parses but cannot make a matcher of, which
//! the library finds out by trying the glob's expression on the engine
//! first, and a glob whose braces are nested too deep for globset's
//! recursion: see [`config::depth`].

pub mod config;
pub mod engine;
pub mod matcher;
pub mod path;
pub mod text;
