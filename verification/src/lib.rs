//! Build regular-expression text out of semantically named building blocks
//! instead of writing raw pattern syntax by hand.
//!
//! The heart of the crate is the [`Fragment`] algebra: five kinds of pattern
//! fragment, each with a canonical serialization, composed by explicit
//! concatenation and transformed by a kind-aware negation rule.

use vstd::prelude::*;

pub mod ascii;
pub mod capturing;
pub mod emptymatches;
pub mod engine;
pub mod flags;
pub mod humanregex;
pub mod logical;
pub mod repetitions;
pub mod shorthand;

pub use ascii::alphabetic;
pub use ascii::alphanumeric;
pub use ascii::ascii;
pub use ascii::blank;
pub use ascii::control;
pub use ascii::graphical;
pub use ascii::hexdigit;
pub use ascii::lowercase;
pub use ascii::non_alphabetic;
pub use ascii::non_alphanumeric;
pub use ascii::non_ascii;
pub use ascii::non_blank;
pub use ascii::non_control;
pub use ascii::non_graphical;
pub use ascii::non_hexdigit;
pub use ascii::non_lowercase;
pub use ascii::non_printable;
pub use ascii::non_punctuation;
pub use ascii::non_uppercase;
pub use ascii::printable;
pub use ascii::punctuation;
pub use ascii::uppercase;
pub use capturing::capture;
pub use capturing::named_capture;
pub use emptymatches::beginning;
pub use emptymatches::beginning_of_text;
pub use emptymatches::end;
pub use emptymatches::end_of_text;
pub use emptymatches::non_word_boundary;
pub use emptymatches::word_boundary;
pub use flags::case_insensitive;
pub use flags::disable_unicode;
pub use flags::dot_matches_newline_too;
pub use flags::multi_line_mode;
pub use humanregex::Fragment;
pub use humanregex::PatternError;
pub use humanregex::PosixName;
pub use humanregex::StandardToken;
pub use humanregex::concatenate;
pub use humanregex::serialize;
pub use logical::and;
pub use logical::or;
pub use logical::subtract;
pub use repetitions::at_least;
pub use repetitions::between;
pub use repetitions::exactly;
pub use repetitions::one_or_more;
pub use repetitions::zero_or_more;
pub use repetitions::zero_or_one;
pub use shorthand::any;
pub use shorthand::begin;
pub use shorthand::digit;
pub use shorthand::direct_regex;
pub use shorthand::non_digit;
pub use shorthand::non_whitespace;
pub use shorthand::non_word;
pub use shorthand::text;
pub use shorthand::whitespace;
pub use shorthand::word;

verus! {

/// A builder that accumulates a regex string piece by piece.
pub struct HumanRegex {
    /// The regex text assembled so far.
    pub regex_string: String,
}

impl HumanRegex {
    /// Start a builder with an empty regex string.
    pub fn new() -> (r: Self)
        ensures
            r.regex_string@ == Seq::<char>::empty(),
    {
        HumanRegex { regex_string: String::new() }
    }

    /// Append a match for exactly `n` of the target text, which is enclosed
    /// in a non-capturing group so the count binds to all of it.
    pub fn exactly(&self, n: u8, target: &str) -> (r: Self)
        ensures
            r.regex_string@ == self.regex_string@ + humanregex::noncapturing_group(target@)
                + "{"@ + repetitions::dec_rep(n as nat) + "}"@,
    {
        let mut s = clone_string(&self.regex_string);
        s.append("(?:");
        s.append(target);
        s.append(")");
        s.append("{");
        repetitions::append_dec(&mut s, n);
        s.append("}");
        proof {
            assert(s@ =~= self.regex_string@ + humanregex::noncapturing_group(target@) + "{"@
                + repetitions::dec_rep(n as nat) + "}"@);
        }
        HumanRegex { regex_string: s }
    }

    /// Append a match for the given text exactly, escaping every character
    /// with special meaning in the pattern syntax.
    pub fn text(&self, literal: &str) -> (r: Self)
        ensures
            r.regex_string@ == self.regex_string@ + humanregex::escape_text(literal@),
    {
        let mut s = clone_string(&self.regex_string);
        humanregex::append_escaped(&mut s, literal);
        HumanRegex { regex_string: s }
    }

    /// Append the beginning-of-text anchor.
    pub fn begin(&self) -> (r: Self)
        ensures
            r.regex_string@ == self.regex_string@ + "^"@,
    {
        let mut s = clone_string(&self.regex_string);
        s.append("^");
        HumanRegex { regex_string: s }
    }

    /// Append the end-of-text anchor.
    pub fn end(&self) -> (r: Self)
        ensures
            r.regex_string@ == self.regex_string@ + "$"@,
    {
        let mut s = clone_string(&self.regex_string);
        s.append("$");
        HumanRegex { regex_string: s }
    }

    /// Start a builder directly from a regex string, inserted verbatim.
    pub fn from_regex_string(regex_string: &str) -> (r: Self)
        ensures
            r.regex_string@ == regex_string@,
    {
        HumanRegex { regex_string: String::from_str(regex_string) }
    }

    /// The current state of the constructed regex string.
    pub fn get_regex_string(&self) -> (r: &String)
        ensures
            r@ == self.regex_string@,
    {
        &self.regex_string
    }

    /// Whether the constructed regex matches anywhere in the given text. The
    /// regex string is compiled from scratch on every call; a compile failure
    /// is surfaced tagged with the offending string.
    pub fn is_match(&self, string_to_match: &str) -> (r: Result<bool, PatternError>)
        ensures
            r is Ok <==> engine::pattern_accepted(self.regex_string@),
            r matches Ok(b) ==> b == engine::pattern_matches(self.regex_string@,
                string_to_match@),
            r matches Err(e) ==> (e matches PatternError::Engine { pattern: p, .. } && p@
                == self.regex_string@),
    {
        engine::match_text(self.regex_string.as_str(), string_to_match)
    }
}

impl Default for HumanRegex {
    /// A builder with an empty regex string.
    fn default() -> (r: Self)
        ensures
            r.regex_string@ == Seq::<char>::empty(),
    {
        HumanRegex::new()
    }
}

/// A copy of a string with the same characters.
fn clone_string(s: &String) -> (r: String)
    ensures
        r@ == s@,
{
    String::from_str(s.as_str())
}

} // verus!
