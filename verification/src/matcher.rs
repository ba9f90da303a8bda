//! The exclusion matcher: an optional pattern, compiled once at startup,
//! against which candidate paths are tested.
//!
//! Pattern compilation and matching are done by the `regex` crate behind
//! trusted wrappers; everything around them — the optional-pattern
//! handling, the error mapping — is verified.

use vstd::prelude::*;

use crate::errors::ConfigError;

verus! {

/// Whether `pattern` is accepted by the regex compiler: valid syntax and
/// within the compiler's default size limit.  A function of the pattern
/// text alone.
pub uninterp spec fn regex_accepted(pattern: Seq<char>) -> bool;

/// Whether the regular expression `pattern` matches anywhere inside
/// `text`.  A function of the two texts alone.
pub uninterp spec fn regex_matches(pattern: Seq<char>, text: Seq<char>) -> bool;

#[verifier::external_type_specification]
#[verifier::external_body]
pub struct ExRegex(regex::Regex);

#[verifier::external_type_specification]
#[verifier::external_body]
pub struct ExRegexError(regex::Error);

/// A compiled pattern together with its source text.
///
/// Representation invariant, maintained by this module alone (the fields
/// are private and only `build` constructs a value): `regex` is the
/// compiled form of `pattern`.  The trusted contract of `is_match` relies
/// on it.
#[derive(Debug)]
struct PatternMatcher {
    regex: regex::Regex,
    pattern: String,
}

impl PatternMatcher {
    spec fn pattern_view(self) -> Seq<char> {
        self.pattern@
    }

    /// Relies on `regex::Regex::new`: compilation succeeds exactly when the
    /// pattern is accepted, and the result matches as the pattern reads.
    #[verifier::external_body]
    fn build(pattern: &str) -> (r: Result<PatternMatcher, regex::Error>)
        ensures
            r is Ok <==> regex_accepted(pattern@),
            r matches Ok(m) ==> m.pattern_view() == pattern@,
    {
        match regex::Regex::new(pattern) {
            Ok(regex) => Ok(PatternMatcher { regex, pattern: pattern.to_string() }),
            Err(e) => Err(e),
        }
    }

    /// Relies on `regex::Regex::is_match`: true exactly when the pattern
    /// matches anywhere inside `text`, a function of pattern and text
    /// alone.
    #[verifier::external_body]
    fn is_match(&self, text: &str) -> (r: bool)
        ensures
            r == regex_matches(self.pattern_view(), text@),
    {
        self.regex.is_match(text)
    }
}

/// Relies on the `Display` impl of `regex::Error` for the compiler's
/// diagnostic text.  Nothing is claimed of the text.
#[verifier::external_body]
fn regex_error_text(e: &regex::Error) -> String {
    format!("{}", e)
}

/// The compiled exclusion rule.  Absence of a pattern is a distinct state,
/// meaning "exclude nothing"; it is carried here rather than threaded
/// through callers as a special case.
#[derive(Debug)]
pub struct CompiledMatcher {
    inner: Option<PatternMatcher>,
}

impl CompiledMatcher {
    /// The pattern this matcher was compiled from, where one exists.
    pub closed spec fn pattern_view(self) -> Option<Seq<char>> {
        match self.inner {
            None => None,
            Some(m) => Some(m.pattern_view()),
        }
    }

    /// Whether `path` is excluded: false when no pattern is configured,
    /// otherwise whether the pattern matches anywhere in `path`.
    pub open spec fn excludes(self, path: Seq<char>) -> bool {
        match self.pattern_view() {
            None => false,
            Some(pattern) => regex_matches(pattern, path),
        }
    }

    /// Compile an optional exclusion pattern.
    ///
    /// No pattern yields the no-op matcher.  A pattern the compiler
    /// rejects yields `ConfigError::InvalidPattern` carrying the pattern
    /// text and the compiler's diagnostic — startup fails fast, before any
    /// watching begins.
    pub fn compile(pattern: Option<String>) -> (r: Result<CompiledMatcher, ConfigError>)
        ensures
            pattern is None ==> (r matches Ok(m) && m.pattern_view() is None),
            pattern matches Some(p) ==> {
                &&& r is Ok <==> regex_accepted(p@)
                &&& r matches Ok(m) ==> m.pattern_view() == Some(p@)
                &&& r matches Err(e) ==> e matches ConfigError::InvalidPattern {
                    pattern: q, ..
                } && q@ == p@
            },
    {
        match pattern {
            None => Ok(CompiledMatcher { inner: None }),
            Some(p) => match PatternMatcher::build(p.as_str()) {
                Ok(m) => Ok(CompiledMatcher { inner: Some(m) }),
                Err(e) => {
                    let diagnostic = regex_error_text(&e);
                    Err(ConfigError::InvalidPattern { pattern: p, diagnostic })
                },
            },
        }
    }

    /// Test a candidate path against the rule.
    pub fn matches(&self, path: &str) -> (r: bool)
        ensures
            r == self.excludes(path@),
    {
        match &self.inner {
            None => false,
            Some(m) => m.is_match(path),
        }
    }
}

} // verus!
