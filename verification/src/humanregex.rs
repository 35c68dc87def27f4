//! The fragment algebra: fragment kinds, their canonical serialization,
//! concatenation, and kind-dispatched negation.

use vstd::prelude::*;

verus! {

/// Relies on std's `String::push`: appends the given character to the end of
/// this string.
pub assume_specification[ String::push ](s: &mut String, ch: char)
    ensures
        final(s)@ == old(s)@.push(ch),
;

/// The escape-coded standard classes: a backslash followed by one letter.
#[derive(Clone, Copy, PartialEq, Eq, Structural, Debug)]
pub enum StandardToken {
    /// `\d`, the digits 0 through 9.
    Digit,
    /// `\D`, everything but the digits 0 through 9.
    NonDigit,
    /// `\w`, alphanumeric characters plus underscore.
    Word,
    /// `\W`, everything but alphanumeric characters plus underscore.
    NonWord,
    /// `\s`, whitespace.
    Whitespace,
    /// `\S`, everything but whitespace.
    NonWhitespace,
    /// `\b`, a word boundary.
    WordBoundary,
    /// `\B`, anything but a word boundary.
    NonWordBoundary,
}

/// The named ASCII classes written in double-bracket POSIX notation.
#[derive(Clone, Copy, PartialEq, Eq, Structural, Debug)]
pub enum PosixName {
    /// `alnum`, alphanumeric characters.
    Alnum,
    /// `alpha`, alphabetic characters.
    Alpha,
    /// `lower`, lowercase letters.
    Lower,
    /// `upper`, uppercase letters.
    Upper,
    /// `xdigit`, hexadecimal digits.
    Xdigit,
    /// `ascii`, the ASCII range.
    Ascii,
    /// `blank`, space and tab.
    Blank,
    /// `cntrl`, control characters.
    Cntrl,
    /// `graph`, graphical characters.
    Graph,
    /// `print`, printable characters.
    Print,
    /// `punct`, punctuation.
    Punct,
}

/// An immutable piece of pattern syntax together with the data its canonical
/// rendering is computed from.
#[derive(Debug)]
pub enum Fragment {
    /// A fixed escape-coded class such as `\d`.
    StandardClass(StandardToken),
    /// A named ASCII class such as `[[:alnum:]]`; the flag records whether the
    /// class carries the complement marker, as in `[[:^alnum:]]`.
    PosixClass(PosixName, bool),
    /// A single-bracket character class; the string is the text between the
    /// brackets.
    CustomClass(String),
    /// Literal text to be matched exactly; the string is the unescaped text,
    /// and serialization escapes every metacharacter.
    LiteralChain(String),
    /// An arbitrary composed expression, carrying nothing finer than its
    /// canonical text.
    GenericChain(String),
}

/// The reasons a construction step or the engine's compile step can fail.
#[derive(Debug)]
pub enum PatternError {
    /// `or` was called with an empty list of options.
    EmptyAlternation,
    /// `and` or `subtract` was called with an operand that is not a
    /// class-kind fragment.
    NonClassOperand,
    /// `between` was called with a lower bound above the upper bound.
    InvalidRepetitionRange,
    /// Negation was attempted on a composed expression, which has no general
    /// syntactic complement.
    UndefinedNegation,
    /// The external engine rejected the assembled pattern text.
    Engine {
        /// The canonical text the engine refused.
        pattern: String,
        /// The engine's own description of the failure.
        message: String,
    },
}

/// The canonical token of a standard class.
pub open spec fn std_token_text(t: StandardToken) -> Seq<char> {
    match t {
        StandardToken::Digit => "\\d"@,
        StandardToken::NonDigit => "\\D"@,
        StandardToken::Word => "\\w"@,
        StandardToken::NonWord => "\\W"@,
        StandardToken::Whitespace => "\\s"@,
        StandardToken::NonWhitespace => "\\S"@,
        StandardToken::WordBoundary => "\\b"@,
        StandardToken::NonWordBoundary => "\\B"@,
    }
}

/// The canonical double-bracket form of a POSIX class, with the complement
/// marker when `negated` is set.
pub open spec fn posix_text(name: PosixName, negated: bool) -> Seq<char> {
    if negated {
        match name {
            PosixName::Alnum => "[[:^alnum:]]"@,
            PosixName::Alpha => "[[:^alpha:]]"@,
            PosixName::Lower => "[[:^lower:]]"@,
            PosixName::Upper => "[[:^upper:]]"@,
            PosixName::Xdigit => "[[:^xdigit:]]"@,
            PosixName::Ascii => "[[:^ascii:]]"@,
            PosixName::Blank => "[[:^blank:]]"@,
            PosixName::Cntrl => "[[:^cntrl:]]"@,
            PosixName::Graph => "[[:^graph:]]"@,
            PosixName::Print => "[[:^print:]]"@,
            PosixName::Punct => "[[:^punct:]]"@,
        }
    } else {
        match name {
            PosixName::Alnum => "[[:alnum:]]"@,
            PosixName::Alpha => "[[:alpha:]]"@,
            PosixName::Lower => "[[:lower:]]"@,
            PosixName::Upper => "[[:upper:]]"@,
            PosixName::Xdigit => "[[:xdigit:]]"@,
            PosixName::Ascii => "[[:ascii:]]"@,
            PosixName::Blank => "[[:blank:]]"@,
            PosixName::Cntrl => "[[:cntrl:]]"@,
            PosixName::Graph => "[[:graph:]]"@,
            PosixName::Print => "[[:print:]]"@,
            PosixName::Punct => "[[:punct:]]"@,
        }
    }
}

/// Whether a character has special meaning in the pattern syntax and must be
/// escaped inside literal text.
pub open spec fn is_meta_char(c: char) -> bool {
    c == '\\' || c == '.' || c == '+' || c == '*' || c == '?' || c == '(' || c == ')'
        || c == '|' || c == '[' || c == ']' || c == '{' || c == '}' || c == '^' || c == '$'
        || c == '#' || c == '&' || c == '-' || c == '~'
}

/// The escaped rendering of one literal character.
pub open spec fn escape_char(c: char) -> Seq<char> {
    if is_meta_char(c) {
        seq!['\\', c]
    } else {
        seq![c]
    }
}

/// The escaped rendering of literal text: each character in order, escaped
/// where it is a metacharacter.
pub open spec fn escape_text(s: Seq<char>) -> Seq<char>
    decreases s.len(),
{
    if s.len() == 0 {
        Seq::empty()
    } else {
        escape_char(s[0]) + escape_text(s.skip(1))
    }
}

impl Fragment {
    /// The canonical pattern text this fragment serializes to.
    pub open spec fn canon(self) -> Seq<char> {
        match self {
            Fragment::StandardClass(t) => std_token_text(t),
            Fragment::PosixClass(name, negated) => posix_text(name, negated),
            Fragment::CustomClass(inner) => "["@ + inner@ + "]"@,
            Fragment::LiteralChain(raw) => escape_text(raw@),
            Fragment::GenericChain(text) => text@,
        }
    }
}

/// Whether a fragment is a character class: the kinds that `and` and
/// `subtract` accept as operands.
pub open spec fn is_class_kind(f: Fragment) -> bool {
    f is StandardClass || f is PosixClass || f is CustomClass
}

/// The canonical text of `inner` enclosed in a non-capturing group.
pub open spec fn noncapturing_group(inner: Seq<char>) -> Seq<char> {
    "(?:"@ + inner + ")"@
}

/// The complement of a standard class under the fixed involutive pairing.
pub open spec fn negated_token(t: StandardToken) -> StandardToken {
    match t {
        StandardToken::Digit => StandardToken::NonDigit,
        StandardToken::NonDigit => StandardToken::Digit,
        StandardToken::Word => StandardToken::NonWord,
        StandardToken::NonWord => StandardToken::Word,
        StandardToken::Whitespace => StandardToken::NonWhitespace,
        StandardToken::NonWhitespace => StandardToken::Whitespace,
        StandardToken::WordBoundary => StandardToken::NonWordBoundary,
        StandardToken::NonWordBoundary => StandardToken::WordBoundary,
    }
}

/// The complement of a fixed-class fragment: the paired token of a standard
/// class, or a POSIX class with its complement marker toggled. Other kinds
/// are left unchanged; their negation is not described here.
pub open spec fn negated_class(f: Fragment) -> Fragment {
    match f {
        Fragment::StandardClass(t) => Fragment::StandardClass(negated_token(t)),
        Fragment::PosixClass(name, negated) => Fragment::PosixClass(name, !negated),
        _ => f,
    }
}

/// The character-by-character negation of literal text: each character
/// becomes an independent single-character negated class, and the results
/// are concatenated in order.
pub open spec fn negated_literal_text(s: Seq<char>) -> Seq<char>
    decreases s.len(),
{
    if s.len() == 0 {
        Seq::empty()
    } else {
        "[^"@ + seq![s[0]] + "]"@ + negated_literal_text(s.skip(1))
    }
}

/// Law: negation is involutive on the fixed classes. For every standard
/// class and every POSIX class, negating twice yields the original fragment,
/// and in particular a fragment whose canonical string equals the original's.
pub proof fn lemma_class_negation_involutive(f: Fragment)
    requires
        f is StandardClass || f is PosixClass,
    ensures
        negated_class(negated_class(f)) == f,
        negated_class(negated_class(f)).canon() == f.canon(),
{
}

proof fn lemma_negated_literal_snoc(s: Seq<char>, c: char)
    ensures
        negated_literal_text(s.push(c)) == negated_literal_text(s) + "[^"@ + seq![c] + "]"@,
    decreases s.len(),
{
    reveal_with_fuel(negated_literal_text, 3);
    if s.len() == 0 {
        assert(s.push(c)[0] == c);
        assert(s.push(c).skip(1) =~= Seq::<char>::empty());
        assert(negated_literal_text(s.push(c)) =~= negated_literal_text(s) + "[^"@ + seq![c]
            + "]"@);
    } else {
        assert(s.push(c)[0] == s[0]);
        assert(s.push(c).skip(1) =~= s.skip(1).push(c));
        lemma_negated_literal_snoc(s.skip(1), c);
        assert(negated_literal_text(s.push(c)) =~= negated_literal_text(s) + "[^"@ + seq![c]
            + "]"@);
    }
}

/// Append the character-by-character negation of `s` to `out`.
fn append_negated_literal(out: &mut String, s: &str)
    ensures
        final(out)@ == old(out)@ + negated_literal_text(s@),
{
    let n = s.unicode_len();
    let mut i: usize = 0;
    while i < n
        invariant
            i <= n,
            n == s@.len(),
            out@ == old(out)@ + negated_literal_text(s@.take(i as int)),
        decreases n - i,
    {
        let c = s.get_char(i);
        proof {
            assert(s@.take(i as int).push(c) =~= s@.take(i + 1 as int));
            lemma_negated_literal_snoc(s@.take(i as int), c);
        }
        out.append("[^");
        out.push(c);
        out.append("]");
        proof {
            assert(out@ =~= old(out)@ + negated_literal_text(s@.take(i + 1 as int)));
        }
        i = i + 1;
    }
    proof {
        assert(s@.take(n as int) =~= s@);
    }
}

impl Fragment {
    /// The kind-aware complement. A standard class maps to its paired token;
    /// a POSIX class toggles its complement marker; a custom class gains the
    /// complement marker right after its opening bracket; literal text is
    /// negated character by character, yielding a composed chain; a composed
    /// chain has no syntactic complement and is rejected. A literal must hold
    /// at least one character: an empty literal has no per-character negation.
    pub fn negate(&self) -> (r: Result<Fragment, PatternError>)
        requires
            self matches Fragment::LiteralChain(raw) ==> raw@.len() > 0,
        ensures
            r is Err <==> self is GenericChain,
            r matches Err(e) ==> e is UndefinedNegation,
            (self is StandardClass || self is PosixClass) ==> r == Ok::<Fragment, PatternError>(
                negated_class(*self),
            ),
            self matches Fragment::CustomClass(inner) ==> (r matches Ok(g) && g matches
                Fragment::CustomClass(ninner) && ninner@ == "^"@ + inner@),
            self matches Fragment::LiteralChain(raw) ==> (r matches Ok(g) && g is GenericChain
                && g.canon() == negated_literal_text(raw@)),
    {
        match self {
            Fragment::StandardClass(t) => Ok(
                Fragment::StandardClass(
                    match t {
                        StandardToken::Digit => StandardToken::NonDigit,
                        StandardToken::NonDigit => StandardToken::Digit,
                        StandardToken::Word => StandardToken::NonWord,
                        StandardToken::NonWord => StandardToken::Word,
                        StandardToken::Whitespace => StandardToken::NonWhitespace,
                        StandardToken::NonWhitespace => StandardToken::Whitespace,
                        StandardToken::WordBoundary => StandardToken::NonWordBoundary,
                        StandardToken::NonWordBoundary => StandardToken::WordBoundary,
                    },
                ),
            ),
            Fragment::PosixClass(name, negated) => Ok(Fragment::PosixClass(*name, !*negated)),
            Fragment::CustomClass(inner) => {
                let mut s = String::from_str("^");
                s.append(inner.as_str());
                Ok(Fragment::CustomClass(s))
            },
            Fragment::LiteralChain(raw) => {
                let mut s = String::new();
                append_negated_literal(&mut s, raw.as_str());
                Ok(Fragment::GenericChain(s))
            },
            Fragment::GenericChain(_) => Err(PatternError::UndefinedNegation),
        }
    }

    /// Append the minimal-match modifier to an already-quantified fragment;
    /// on a fragment without a trailing quantifier the same suffix makes it
    /// an optional match instead, which is the caller's responsibility.
    pub fn lazy(&self) -> (r: Fragment)
        ensures
            r is GenericChain,
            r.canon() == self.canon() + "?"@,
    {
        let mut s = serialize(self);
        s.append("?");
        Fragment::GenericChain(s)
    }
}

/// Whether a character is an escapable metacharacter.
fn is_meta(c: char) -> (r: bool)
    ensures
        r == is_meta_char(c),
{
    match c {
        '\\' | '.' | '+' | '*' | '?' | '(' | ')' | '|' | '[' | ']' | '{' | '}' | '^' | '$'
            | '#' | '&' | '-' | '~' => true,
        _ => false,
    }
}

proof fn lemma_escape_text_snoc(s: Seq<char>, c: char)
    ensures
        escape_text(s.push(c)) == escape_text(s) + escape_char(c),
    decreases s.len(),
{
    reveal_with_fuel(escape_text, 3);
    if s.len() == 0 {
        assert(s.push(c)[0] == c);
        assert(s.push(c).skip(1) =~= Seq::<char>::empty());
        assert(escape_text(s.push(c)) =~= escape_text(s) + escape_char(c));
    } else {
        assert(s.push(c)[0] == s[0]);
        assert(s.push(c).skip(1) =~= s.skip(1).push(c));
        lemma_escape_text_snoc(s.skip(1), c);
        assert(escape_text(s.push(c)) =~= escape_text(s) + escape_char(c));
    }
}

/// Append the escaped rendering of `s` to `out`.
pub(crate) fn append_escaped(out: &mut String, s: &str)
    ensures
        final(out)@ == old(out)@ + escape_text(s@),
{
    let n = s.unicode_len();
    let mut i: usize = 0;
    while i < n
        invariant
            i <= n,
            n == s@.len(),
            out@ == old(out)@ + escape_text(s@.take(i as int)),
        decreases n - i,
    {
        let c = s.get_char(i);
        proof {
            assert(s@.take(i as int).push(c) =~= s@.take(i + 1 as int));
            lemma_escape_text_snoc(s@.take(i as int), c);
        }
        if is_meta(c) {
            out.push('\\');
        }
        out.push(c);
        proof {
            assert(out@ =~= old(out)@ + escape_text(s@.take(i + 1 as int)));
        }
        i = i + 1;
    }
    proof {
        assert(s@.take(n as int) =~= s@);
    }
}

/// Render a fragment to its canonical pattern text.
pub fn serialize(f: &Fragment) -> (r: String)
    ensures
        r@ == f.canon(),
{
    match f {
        Fragment::StandardClass(t) => {
            match t {
                StandardToken::Digit => String::from_str("\\d"),
                StandardToken::NonDigit => String::from_str("\\D"),
                StandardToken::Word => String::from_str("\\w"),
                StandardToken::NonWord => String::from_str("\\W"),
                StandardToken::Whitespace => String::from_str("\\s"),
                StandardToken::NonWhitespace => String::from_str("\\S"),
                StandardToken::WordBoundary => String::from_str("\\b"),
                StandardToken::NonWordBoundary => String::from_str("\\B"),
            }
        },
        Fragment::PosixClass(name, negated) => {
            if *negated {
                match name {
                    PosixName::Alnum => String::from_str("[[:^alnum:]]"),
                    PosixName::Alpha => String::from_str("[[:^alpha:]]"),
                    PosixName::Lower => String::from_str("[[:^lower:]]"),
                    PosixName::Upper => String::from_str("[[:^upper:]]"),
                    PosixName::Xdigit => String::from_str("[[:^xdigit:]]"),
                    PosixName::Ascii => String::from_str("[[:^ascii:]]"),
                    PosixName::Blank => String::from_str("[[:^blank:]]"),
                    PosixName::Cntrl => String::from_str("[[:^cntrl:]]"),
                    PosixName::Graph => String::from_str("[[:^graph:]]"),
                    PosixName::Print => String::from_str("[[:^print:]]"),
                    PosixName::Punct => String::from_str("[[:^punct:]]"),
                }
            } else {
                match name {
                    PosixName::Alnum => String::from_str("[[:alnum:]]"),
                    PosixName::Alpha => String::from_str("[[:alpha:]]"),
                    PosixName::Lower => String::from_str("[[:lower:]]"),
                    PosixName::Upper => String::from_str("[[:upper:]]"),
                    PosixName::Xdigit => String::from_str("[[:xdigit:]]"),
                    PosixName::Ascii => String::from_str("[[:ascii:]]"),
                    PosixName::Blank => String::from_str("[[:blank:]]"),
                    PosixName::Cntrl => String::from_str("[[:cntrl:]]"),
                    PosixName::Graph => String::from_str("[[:graph:]]"),
                    PosixName::Print => String::from_str("[[:print:]]"),
                    PosixName::Punct => String::from_str("[[:punct:]]"),
                }
            }
        },
        Fragment::CustomClass(inner) => {
            let mut s = String::from_str("[");
            s.append(inner.as_str());
            s.append("]");
            s
        },
        Fragment::LiteralChain(raw) => {
            let mut s = String::new();
            append_escaped(&mut s, raw.as_str());
            s
        },
        Fragment::GenericChain(text) => {
            let mut s = String::new();
            s.append(text.as_str());
            s
        },
    }
}

/// Concatenate two fragments: the result's canonical text is the canonical
/// text of `a` immediately followed by that of `b`, with no inserted
/// separators or grouping.
pub fn concatenate(a: &Fragment, b: &Fragment) -> (r: Fragment)
    ensures
        r is GenericChain,
        r.canon() == a.canon() + b.canon(),
{
    let mut s = serialize(a);
    let t = serialize(b);
    s.append(t.as_str());
    Fragment::GenericChain(s)
}

} // verus!
