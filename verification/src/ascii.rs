//! The named ASCII classes in double-bracket POSIX notation, each with its
//! pre-built negated counterpart.

use vstd::prelude::*;
use crate::humanregex::Fragment;
use crate::humanregex::PosixName;

verus! {

/// Match any alphanumeric character, `[[:alnum:]]`.
pub fn alphanumeric() -> (r: Fragment)
    ensures
        r == Fragment::PosixClass(PosixName::Alnum, false),
{
    Fragment::PosixClass(PosixName::Alnum, false)
}

/// Match any non-alphanumeric character, `[[:^alnum:]]`.
pub fn non_alphanumeric() -> (r: Fragment)
    ensures
        r == Fragment::PosixClass(PosixName::Alnum, true),
{
    Fragment::PosixClass(PosixName::Alnum, true)
}

/// Match any alphabetic character, `[[:alpha:]]`.
pub fn alphabetic() -> (r: Fragment)
    ensures
        r == Fragment::PosixClass(PosixName::Alpha, false),
{
    Fragment::PosixClass(PosixName::Alpha, false)
}

/// Match any non-alphabetic character, `[[:^alpha:]]`.
pub fn non_alphabetic() -> (r: Fragment)
    ensures
        r == Fragment::PosixClass(PosixName::Alpha, true),
{
    Fragment::PosixClass(PosixName::Alpha, true)
}

/// Match any lowercase letter, `[[:lower:]]`.
pub fn lowercase() -> (r: Fragment)
    ensures
        r == Fragment::PosixClass(PosixName::Lower, false),
{
    Fragment::PosixClass(PosixName::Lower, false)
}

/// Match any character that is not a lowercase letter, `[[:^lower:]]`.
pub fn non_lowercase() -> (r: Fragment)
    ensures
        r == Fragment::PosixClass(PosixName::Lower, true),
{
    Fragment::PosixClass(PosixName::Lower, true)
}

/// Match any uppercase letter, `[[:upper:]]`.
pub fn uppercase() -> (r: Fragment)
    ensures
        r == Fragment::PosixClass(PosixName::Upper, false),
{
    Fragment::PosixClass(PosixName::Upper, false)
}

/// Match any character that is not an uppercase letter, `[[:^upper:]]`.
pub fn non_uppercase() -> (r: Fragment)
    ensures
        r == Fragment::PosixClass(PosixName::Upper, true),
{
    Fragment::PosixClass(PosixName::Upper, true)
}

/// Match any hexadecimal digit, `[[:xdigit:]]`.
pub fn hexdigit() -> (r: Fragment)
    ensures
        r == Fragment::PosixClass(PosixName::Xdigit, false),
{
    Fragment::PosixClass(PosixName::Xdigit, false)
}

/// Match any character that is not a hexadecimal digit, `[[:^xdigit:]]`.
pub fn non_hexdigit() -> (r: Fragment)
    ensures
        r == Fragment::PosixClass(PosixName::Xdigit, true),
{
    Fragment::PosixClass(PosixName::Xdigit, true)
}

/// Match any ASCII character, `[[:ascii:]]`.
pub fn ascii() -> (r: Fragment)
    ensures
        r == Fragment::PosixClass(PosixName::Ascii, false),
{
    Fragment::PosixClass(PosixName::Ascii, false)
}

/// Match any non-ASCII character, `[[:^ascii:]]`.
pub fn non_ascii() -> (r: Fragment)
    ensures
        r == Fragment::PosixClass(PosixName::Ascii, true),
{
    Fragment::PosixClass(PosixName::Ascii, true)
}

/// Match a blank character, `[[:blank:]]`.
pub fn blank() -> (r: Fragment)
    ensures
        r == Fragment::PosixClass(PosixName::Blank, false),
{
    Fragment::PosixClass(PosixName::Blank, false)
}

/// Match a non-blank character, `[[:^blank:]]`.
pub fn non_blank() -> (r: Fragment)
    ensures
        r == Fragment::PosixClass(PosixName::Blank, true),
{
    Fragment::PosixClass(PosixName::Blank, true)
}

/// Match a control character, `[[:cntrl:]]`.
pub fn control() -> (r: Fragment)
    ensures
        r == Fragment::PosixClass(PosixName::Cntrl, false),
{
    Fragment::PosixClass(PosixName::Cntrl, false)
}

/// Match a non-control character, `[[:^cntrl:]]`.
pub fn non_control() -> (r: Fragment)
    ensures
        r == Fragment::PosixClass(PosixName::Cntrl, true),
{
    Fragment::PosixClass(PosixName::Cntrl, true)
}

/// Match a graphical character, `[[:graph:]]`.
pub fn graphical() -> (r: Fragment)
    ensures
        r == Fragment::PosixClass(PosixName::Graph, false),
{
    Fragment::PosixClass(PosixName::Graph, false)
}

/// Match a non-graphical character, `[[:^graph:]]`.
pub fn non_graphical() -> (r: Fragment)
    ensures
        r == Fragment::PosixClass(PosixName::Graph, true),
{
    Fragment::PosixClass(PosixName::Graph, true)
}

/// Match a printable character, `[[:print:]]`.
pub fn printable() -> (r: Fragment)
    ensures
        r == Fragment::PosixClass(PosixName::Print, false),
{
    Fragment::PosixClass(PosixName::Print, false)
}

/// Match an unprintable character, `[[:^print:]]`.
pub fn non_printable() -> (r: Fragment)
    ensures
        r == Fragment::PosixClass(PosixName::Print, true),
{
    Fragment::PosixClass(PosixName::Print, true)
}

/// Match punctuation, `[[:punct:]]`.
pub fn punctuation() -> (r: Fragment)
    ensures
        r == Fragment::PosixClass(PosixName::Punct, false),
{
    Fragment::PosixClass(PosixName::Punct, false)
}

/// Match anything but punctuation, `[[:^punct:]]`.
pub fn non_punctuation() -> (r: Fragment)
    ensures
        r == Fragment::PosixClass(PosixName::Punct, true),
{
    Fragment::PosixClass(PosixName::Punct, true)
}

} // verus!
