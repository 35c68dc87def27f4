//! The boundary to the external pattern-matching engine: compiling a
//! fragment's canonical text into an engine-native matcher, and testing text
//! against it.

use vstd::prelude::*;
use crate::humanregex::Fragment;
use crate::humanregex::serialize;

verus! {

#[verifier::external_type_specification]
#[verifier::external_body]
pub struct ExRegex(regex::Regex);

#[verifier::external_type_specification]
#[verifier::external_body]
pub struct ExRegexError(regex::Error);

/// Whether the external engine accepts a pattern text as valid syntax. The
/// engine's answer depends on the pattern text alone.
pub uninterp spec fn pattern_accepted(pattern: Seq<char>) -> bool;

/// The pattern text a compiled matcher holds: `regex::Regex` stores the text
/// it was compiled from, and `regex::Regex::as_str` returns it.
pub uninterp spec fn pattern_of(re: regex::Regex) -> Seq<char>;

/// Whether a pattern matches anywhere in a text. The engine's answer depends
/// on the pattern text and the searched text alone.
pub uninterp spec fn pattern_matches(pattern: Seq<char>, text: Seq<char>) -> bool;

/// Relies on `regex::Regex::new`: compiling succeeds or fails depending on
/// the pattern text alone, and the compiled matcher keeps that text.
pub assume_specification[ regex::Regex::new ](re: &str) -> (r: Result<
    regex::Regex,
    regex::Error,
>)
    ensures
        r is Ok <==> pattern_accepted(re@),
        r matches Ok(compiled) ==> pattern_of(compiled) == re@,
;

/// Relies on `regex::Regex::is_match`: whether a match exists anywhere in the
/// haystack depends on the compiled pattern and the haystack alone.
pub assume_specification[ regex::Regex::is_match ](re: &regex::Regex, haystack: &str) -> (r: bool)
    ensures
        r == pattern_matches(pattern_of(*re), haystack@),
;

/// Relies on the `Display` implementation of `regex::Error` for the engine's
/// own description of a compile failure.
#[verifier::external_body]
fn engine_error_message(e: &regex::Error) -> (r: String) {
    e.to_string()
}

/// Compile a pattern text and test `text` against it, surfacing a compile
/// failure tagged with the offending pattern. The pattern is re-parsed from
/// scratch on every call; callers who match repeatedly should compile once
/// and keep the matcher.
pub fn match_text(pattern: &str, text: &str) -> (r: Result<bool, crate::humanregex::PatternError>)
    ensures
        r is Ok <==> pattern_accepted(pattern@),
        r matches Ok(b) ==> b == pattern_matches(pattern@, text@),
        r matches Err(e) ==> (e matches crate::humanregex::PatternError::Engine { pattern: p, .. } && p@ == pattern@),
{
    match regex::Regex::new(pattern) {
        Ok(compiled) => Ok(compiled.is_match(text)),
        Err(e) => {
            let message = engine_error_message(&e);
            Err(crate::humanregex::PatternError::Engine { pattern: String::from_str(pattern), message })
        },
    }
}

impl Fragment {
    /// Compile this fragment's canonical text with the external engine,
    /// surfacing a compile failure tagged with the offending text.
    pub fn to_regex(&self) -> (r: Result<regex::Regex, crate::humanregex::PatternError>)
        ensures
            r is Ok <==> pattern_accepted(self.canon()),
            r matches Ok(compiled) ==> pattern_of(compiled) == self.canon(),
            r matches Err(e) ==> (e matches crate::humanregex::PatternError::Engine { pattern: p, .. } && p@
                == self.canon()),
    {
        let text = serialize(self);
        match regex::Regex::new(text.as_str()) {
            Ok(compiled) => Ok(compiled),
            Err(e) => {
                let message = engine_error_message(&e);
                Err(crate::humanregex::PatternError::Engine { pattern: text, message })
            },
        }
    }

    /// Whether this fragment matches anywhere in `text`. The canonical text
    /// is compiled from scratch on every call.
    pub fn is_match(&self, text: &str) -> (r: Result<bool, crate::humanregex::PatternError>)
        ensures
            r is Ok <==> pattern_accepted(self.canon()),
            r matches Ok(b) ==> b == pattern_matches(self.canon(), text@),
            r matches Err(e) ==> (e matches crate::humanregex::PatternError::Engine { pattern: p, .. } && p@
                == self.canon()),
    {
        let pattern = serialize(self);
        match_text(pattern.as_str(), text)
    }
}

} // verus!
