use location_matcher::config::ConfigError;
use location_matcher::matcher::{
    replace_match_keyword, LocationMatcher, END_WORD, REGEX_WORD, START_WORD,
};

fn matcher(location: &str) -> LocationMatcher {
    LocationMatcher::new(location).unwrap()
}

fn rejected(location: &str) -> ConfigError {
    LocationMatcher::new(location).unwrap_err()
}

#[test]
fn create() {}

#[test]
fn start() {
    let matcher = LocationMatcher::new("^/test/").unwrap();
    assert!(matcher.is_match("/test/a"));
    assert!(matcher.is_match("/test/a/b"));
}

#[test]
fn end() {
    let matcher = LocationMatcher::new("$.png").unwrap();
    assert!(matcher.is_match("/test/a.png"));
    assert!(matcher.is_match("/test/a/b.png"));
}

#[test]
fn regex() {
    let matcher = LocationMatcher::new(r"~/test/.*").unwrap();
    assert!(matcher.is_match("/test/a"));
    assert!(matcher.is_match("/test/a/b"));
}

#[test]
fn glob() {
    let matcher = LocationMatcher::new("/test/*").unwrap();
    assert!(matcher.is_match("/test/a"));
    assert!(matcher.is_match("/test/a/b"));
}

#[test]
fn markers_are_single_characters() {
    assert_eq!(REGEX_WORD, "~");
    assert_eq!(START_WORD, "^");
    assert_eq!(END_WORD, "$");
}

#[test]
fn keyword_is_taken_from_the_front() {
    assert_eq!(replace_match_keyword("~/test/.*", "~"), Some("/test/.*".to_string()));
    assert_eq!(replace_match_keyword("^/test/", "^"), Some("/test/".to_string()));
    assert_eq!(replace_match_keyword("$.png", "$"), Some(".png".to_string()));
}

#[test]
fn keyword_elsewhere_is_not_taken() {
    assert_eq!(replace_match_keyword("/a~b", "~"), None);
    assert_eq!(replace_match_keyword("/test/^", "^"), None);
    assert_eq!(replace_match_keyword("", "$"), None);
    assert_eq!(replace_match_keyword("^", "~"), None);
}

#[test]
fn keyword_alone_leaves_nothing() {
    assert_eq!(replace_match_keyword("~", "~"), Some(String::new()));
    assert_eq!(replace_match_keyword("abc", ""), Some("abc".to_string()));
    assert_eq!(replace_match_keyword("", ""), Some(String::new()));
}

#[test]
fn keyword_of_several_bytes() {
    assert_eq!(replace_match_keyword("é/x", "é"), Some("/x".to_string()));
    assert_eq!(replace_match_keyword("e/x", "é"), None);
    assert_eq!(replace_match_keyword("=>rest", "=>"), Some("rest".to_string()));
    assert_eq!(replace_match_keyword("=", "=>"), None);
}

#[test]
fn start_rejects_other_prefixes() {
    let m = matcher("^/test/");
    assert!(!m.is_match("/other"));
    assert!(!m.is_match("/test"));
    assert!(!m.is_match("a/test/"));
    assert!(!m.is_match(""));
    assert!(m.is_match("/test/"));
}

#[test]
fn end_rejects_other_suffixes() {
    let m = matcher("$.png");
    assert!(!m.is_match("/test/a.jpg"));
    assert!(!m.is_match("/test/a.png/"));
    assert!(!m.is_match("png"));
    assert!(!m.is_match(""));
    assert!(m.is_match(".png"));
}

#[test]
fn start_and_end_are_literal() {
    let m = matcher("^/a.*");
    assert!(m.is_match("/a.*b"));
    assert!(!m.is_match("/abc"));
    let m = matcher("$*.png");
    assert!(m.is_match("/x*.png"));
    assert!(!m.is_match("/x.png"));
}

#[test]
fn empty_literal_matches_every_path() {
    let m = matcher("^");
    assert!(m.is_match(""));
    assert!(m.is_match("/anything"));
    let m = matcher("$");
    assert!(m.is_match(""));
    assert!(m.is_match("/anything"));
}

#[test]
fn literals_of_several_bytes() {
    let m = matcher("^/caf\u{e9}");
    assert!(m.is_match("/caf\u{e9}/menu"));
    assert!(!m.is_match("/cafe/menu"));
    let m = matcher("$\u{e9}");
    assert!(m.is_match("/caf\u{e9}"));
    // U+00E9 ends with the byte 0xA9, as U+0069 U+00A9 does not, and as U+1069 does.
    assert!(!m.is_match("/caf\u{a9}"));
    let m = matcher("$\u{a9}");
    assert!(m.is_match("/x\u{a9}"));
    assert!(!m.is_match("/x\u{e9}"));
}

#[test]
fn regex_search_is_unanchored() {
    let m = matcher("~b+");
    assert!(m.is_match("abc"));
    assert!(m.is_match("b"));
    assert!(m.is_match("/a/bbb"));
    assert!(!m.is_match("/a/c"));
    let m = matcher("~/test/.*");
    assert!(m.is_match("/prefix/test/a"));
}

#[test]
fn regex_anchors_are_the_pattern_s_own() {
    let m = matcher("~^/test/");
    assert!(m.is_match("/test/a"));
    assert!(!m.is_match("/a/test/"));
    let m = matcher(r"~\.png$");
    assert!(m.is_match("/a.png"));
    assert!(!m.is_match("/a.png.txt"));
}

#[test]
fn first_marker_decides() {
    // `~` before `^`: a regular expression anchored at the start.
    let m = matcher("~^a");
    assert!(m.is_match("ab"));
    assert!(!m.is_match("^a"));
    // `^` first: the `~` is part of the literal.
    let m = matcher("^~a");
    assert!(m.is_match("~ab"));
    assert!(!m.is_match("ab"));
    // `$` first: the `^` is part of the literal.
    let m = matcher("$^a");
    assert!(m.is_match("b^a"));
    assert!(!m.is_match("a"));
    // `^` first: the `$` is part of the literal.
    let m = matcher("^$a");
    assert!(m.is_match("$ab"));
    assert!(!m.is_match("b$a"));
}

#[test]
fn marker_must_lead() {
    // None of these starts with a marker: each is a glob as a whole.
    let m = matcher("/a~b");
    assert!(m.is_match("/a~b"));
    assert!(!m.is_match("b"));
    let m = matcher("/a$");
    assert!(m.is_match("/a$"));
    assert!(!m.is_match("/a"));
    let m = matcher(" ^/a");
    assert!(m.is_match(" ^/a"));
    assert!(!m.is_match("/a"));
}

#[test]
fn glob_wildcards() {
    let m = matcher("/test/*.png");
    assert!(m.is_match("/test/a.png"));
    assert!(m.is_match("/test/a/b.png"));
    assert!(!m.is_match("/test/a.jpg"));
    assert!(!m.is_match("/other/a.png"));
    let m = matcher("/test/?");
    assert!(m.is_match("/test/a"));
    assert!(!m.is_match("/test/ab"));
    assert!(!m.is_match("/test/"));
    let m = matcher("/**/b");
    assert!(m.is_match("/a/b"));
    assert!(m.is_match("/a/c/b"));
    assert!(!m.is_match("/a/c"));
    let m = matcher("/[a-c]x");
    assert!(m.is_match("/ax"));
    assert!(m.is_match("/cx"));
    assert!(!m.is_match("/dx"));
    let m = matcher("/[!a-c]x");
    assert!(m.is_match("/dx"));
    assert!(!m.is_match("/bx"));
}

#[test]
fn glob_matches_the_whole_path() {
    let m = matcher("/test");
    assert!(m.is_match("/test"));
    assert!(!m.is_match("/test/a"));
    assert!(!m.is_match("/a/test"));
    let m = matcher("");
    assert!(m.is_match(""));
    assert!(!m.is_match("/"));
}

#[test]
fn glob_agrees_with_globset() {
    let patterns = ["/test/*", "*.{png,jpg}", "/a/**/z", "/[x-z]?", "literal"];
    let paths =
        ["/test/a", "/test/a/b", "x.png", "/q/x.jpg", "/a/z", "/a/b/c/z", "/y1", "literal", ""];
    for pattern in patterns {
        let ours = matcher(pattern);
        let theirs = globset::Glob::new(pattern).unwrap().compile_matcher();
        for path in paths {
            assert_eq!(ours.is_match(path), theirs.is_match(path), "{pattern} on {path}");
        }
    }
}

#[test]
fn regex_agrees_with_regex() {
    let patterns = ["/test/.*", "^/a$", r"\d+", "(?i)png$", ""];
    let paths = ["/test/a", "/x/test/", "/a", "/a/b", "/img/7", "/x.PNG", ""];
    for pattern in patterns {
        let ours = matcher(&format!("~{pattern}"));
        let theirs = regex::Regex::new(pattern).unwrap();
        for path in paths {
            assert_eq!(ours.is_match(path), theirs.is_match(path), "{pattern} on {path}");
        }
    }
}

#[test]
fn same_location_same_answers() {
    let locations = ["~/test/.*", "^/test/", "$.png", "/test/*", "", "^", "~"];
    let paths = ["/test/a", "/test/a.png", "/other", "", ".png", "/test/"];
    for location in locations {
        let first = matcher(location);
        let second = matcher(location);
        for path in paths {
            assert_eq!(first.is_match(path), second.is_match(path), "{location} on {path}");
        }
    }
}

#[test]
fn clone_gives_the_same_answers() {
    let locations = ["~/test/.*", "^/test/", "$.png", "/test/*"];
    let paths = ["/test/a", "/test/a.png", "/other", ""];
    for location in locations {
        let first = matcher(location);
        let copy = first.clone();
        for path in paths {
            assert_eq!(first.is_match(path), copy.is_match(path), "{location} on {path}");
        }
    }
}

#[test]
fn invalid_regex_is_rejected() {
    let error = rejected("~(");
    assert_eq!(error.input, "(");
    assert_eq!(error.target, location_matcher::config::Target::Regex);
    assert_eq!(error.cause, regex::Regex::new("(").unwrap_err().to_string());
    assert!(LocationMatcher::new("~[a-").is_err());
    assert!(LocationMatcher::new(r"~\").is_err());
    assert!(LocationMatcher::new("~a{2,1}").is_err());
}

#[test]
fn invalid_glob_is_rejected() {
    let error = rejected("/[a");
    assert_eq!(error.input, "/[a");
    assert_eq!(error.target, location_matcher::config::Target::Glob);
    assert_eq!(error.cause, globset::Glob::new("/[a").unwrap_err().to_string());
    assert!(LocationMatcher::new("/{a,b").is_err());
    assert!(LocationMatcher::new("/[z-a]").is_err());
}

#[test]
fn rejected_pattern_is_not_tried_as_another_strategy() {
    // As a glob, `~(` would parse; as a literal, `(` would do. Neither is tried.
    assert!(globset::Glob::new("~(").is_ok());
    assert!(LocationMatcher::new("~(").is_err());
    // As a prefix or suffix, `[a` would do; without a marker it is a glob, and a bad one.
    assert!(LocationMatcher::new("^[a").is_ok());
    assert!(LocationMatcher::new("$[a").is_ok());
    assert!(LocationMatcher::new("[a").is_err());
}

#[test]
fn literal_strategies_never_fail() {
    for location in ["^(", "^[a", "^{", "$(", "$[a", "$\\", "^", "$"] {
        assert!(LocationMatcher::new(location).is_ok(), "{location}");
    }
}

#[test]
fn rejection_names_input_and_cause() {
    let error = rejected("~(");
    let cause = regex::Regex::new("(").unwrap_err().to_string();
    assert_eq!(error.message(), format!("Cannot parse `(` to regular expression: {cause}"));
    let error = rejected("/[a");
    let cause = globset::Glob::new("/[a").unwrap_err().to_string();
    assert_eq!(error.message(), format!("Cannot parse `/[a` to glob matcher: {cause}"));
}

fn shared_between_threads<T: Send + Sync>(_: &T) {}

#[test]
fn matcher_can_be_shared() {
    shared_between_threads(&matcher("~/test/.*"));
    shared_between_threads(&matcher("/test/*"));
}

#[test]
fn scenarios_with_their_misses() {
    let m = matcher("^/test/");
    assert!(m.is_match("/test/a"));
    assert!(m.is_match("/test/a/b"));
    assert!(!m.is_match("/other"));
    let m = matcher("$.png");
    assert!(m.is_match("/test/a.png"));
    assert!(m.is_match("/test/a/b.png"));
    assert!(!m.is_match("/test/a.jpg"));
    let m = matcher("~/test/.*");
    assert!(m.is_match("/test/a"));
    assert!(m.is_match("/test/a/b"));
    let m = matcher("/test/*");
    assert!(m.is_match("/test/a"));
    assert!(m.is_match("/test/a/b"));
}
