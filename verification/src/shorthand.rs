//! The primitive factories: shorthand classes, text anchors, the literal-text
//! constructor, and the raw passthrough constructor.

use vstd::prelude::*;
use crate::humanregex::Fragment;
use crate::humanregex::StandardToken;

verus! {

/// Match any character except a line terminator.
pub fn any() -> (r: Fragment)
    ensures
        r is GenericChain,
        r.canon() == "."@,
{
    Fragment::GenericChain(String::from_str("."))
}

/// Match any digit, 0 through 9.
pub fn digit() -> (r: Fragment)
    ensures
        r == Fragment::StandardClass(StandardToken::Digit),
{
    Fragment::StandardClass(StandardToken::Digit)
}

/// Match anything but a digit.
pub fn non_digit() -> (r: Fragment)
    ensures
        r == Fragment::StandardClass(StandardToken::NonDigit),
{
    Fragment::StandardClass(StandardToken::NonDigit)
}

/// Match any word character: alphanumeric characters plus underscore.
pub fn word() -> (r: Fragment)
    ensures
        r == Fragment::StandardClass(StandardToken::Word),
{
    Fragment::StandardClass(StandardToken::Word)
}

/// Match anything but a word character.
pub fn non_word() -> (r: Fragment)
    ensures
        r == Fragment::StandardClass(StandardToken::NonWord),
{
    Fragment::StandardClass(StandardToken::NonWord)
}

/// Match any whitespace character.
pub fn whitespace() -> (r: Fragment)
    ensures
        r == Fragment::StandardClass(StandardToken::Whitespace),
{
    Fragment::StandardClass(StandardToken::Whitespace)
}

/// Match anything but a whitespace character.
pub fn non_whitespace() -> (r: Fragment)
    ensures
        r == Fragment::StandardClass(StandardToken::NonWhitespace),
{
    Fragment::StandardClass(StandardToken::NonWhitespace)
}

/// Match the beginning of the text.
pub fn begin() -> (r: Fragment)
    ensures
        r is GenericChain,
        r.canon() == "^"@,
{
    Fragment::GenericChain(String::from_str("^"))
}

/// Match the end of the text.
pub fn end() -> (r: Fragment)
    ensures
        r is GenericChain,
        r.canon() == "$"@,
{
    Fragment::GenericChain(String::from_str("$"))
}

/// Match the given text exactly: every character with special meaning in the
/// pattern syntax is escaped, so the fragment matches the text verbatim.
pub fn text(literal: &str) -> (r: Fragment)
    ensures
        r matches Fragment::LiteralChain(raw) && raw@ == literal@,
{
    Fragment::LiteralChain(String::from_str(literal))
}

/// Insert pattern text verbatim, with no escaping and no validation: the
/// caller is fully responsible for the correctness of the passed text.
pub fn direct_regex(raw: &str) -> (r: Fragment)
    ensures
        r is GenericChain,
        r.canon() == raw@,
{
    Fragment::GenericChain(String::from_str(raw))
}

} // verus!

