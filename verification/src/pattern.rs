//! Regular-expression rules, compiled once and matched against commands.
use vstd::prelude::*;

use crate::text::seq_contains;

verus! {

#[verifier::external_type_specification]
#[verifier::external_body]
pub struct ExRegex(regex::Regex);

#[verifier::external_type_specification]
#[verifier::external_body]
pub struct ExRegexError(regex::Error);

/// Whether `regex::Regex::new` accepts `pattern` (a function of the pattern text alone:
/// its syntax and the crate's fixed size limits).
pub uninterp spec fn regex_accepts(pattern: Seq<char>) -> bool;

/// Whether the regex compiled from `pattern` finds a match anywhere in `haystack`
/// (`regex::Regex::is_match`).
pub uninterp spec fn regex_finds(pattern: Seq<char>, haystack: Seq<char>) -> bool;

/// The characters that have a meaning of their own in a pattern's syntax outside a
/// character class.
pub open spec fn is_regex_meta(c: char) -> bool {
    c == '\\' || c == '.' || c == '+' || c == '*' || c == '?' || c == '(' || c == ')' || c == '|'
        || c == '[' || c == ']' || c == '{' || c == '}' || c == '^' || c == '$'
}

/// The text a pattern stands for when it is a plain literal: every character is either
/// not a meta character, or a meta character escaped by a backslash.  `None` for any
/// other pattern.
pub open spec fn literal_text(p: Seq<char>) -> Option<Seq<char>>
    decreases p.len(),
{
    if p.len() == 0 {
        Some(seq![])
    } else if p[0] == '\\' {
        if p.len() >= 2 && is_regex_meta(p[1]) {
            match literal_text(p.subrange(2, p.len() as int)) {
                Some(t) => Some(seq![p[1]] + t),
                None => None,
            }
        } else {
            None
        }
    } else if is_regex_meta(p[0]) {
        None
    } else {
        match literal_text(p.subrange(1, p.len() as int)) {
            Some(t) => Some(seq![p[0]] + t),
            None => None,
        }
    }
}

/// The longest plain literal pattern that is stated to compile.
pub const LITERAL_PATTERN_LIMIT: usize = 256;

/// A rule: its source text and the regex compiled from it.  Values of this type are made
/// only by `compile`, so `regex` is always the compilation of `source`.
pub struct CompiledPattern {
    source: String,
    regex: regex::Regex,
}

impl View for CompiledPattern {
    type V = Seq<char>;

    closed spec fn view(&self) -> Seq<char> {
        self.source@
    }
}

/// `regex::Regex::new(pattern)`: succeeds exactly when the pattern is accepted
/// (`regex_accepts`), and then the rule's source is `pattern`.  On failure the crate's
/// error is handed back.  The crate's syntax makes a plain literal pattern (each meta
/// character escaped) stand for its text: such a pattern of at most
/// `LITERAL_PATTERN_LIMIT` characters is accepted (far below the default size limits),
/// and the compiled regex matches a haystack exactly where that text occurs in it (the
/// defaults are case-sensitive and unanchored).
#[verifier::external_body]
pub(crate) fn compile(pattern: &str) -> (r: Result<CompiledPattern, regex::Error>)
    ensures
        r is Ok <==> regex_accepts(pattern@),
        r matches Ok(p) ==> p@ == pattern@,
        literal_text(pattern@) is Some && pattern@.len() <= LITERAL_PATTERN_LIMIT ==> r is Ok,
        r matches Ok(p) && literal_text(pattern@) matches Some(t) ==> forall|h: Seq<char>|
            #[trigger] regex_finds(pattern@, h) == seq_contains(h, t),
{
    match regex::Regex::new(pattern) {
        Ok(regex) => Ok(CompiledPattern { source: pattern.to_string(), regex }),
        Err(e) => Err(e),
    }
}

/// `regex::Regex::is_match`: whether the rule's regex matches anywhere in `haystack`
/// (`regex_finds` of the rule's source and the haystack).
#[verifier::external_body]
pub(crate) fn is_match(p: &CompiledPattern, haystack: &str) -> (b: bool)
    ensures
        b == regex_finds(p@, haystack@),
{
    p.regex.is_match(haystack)
}

/// The text of the crate's error for a rejected pattern (its `Display`); nothing is
/// stated of that text.
#[verifier::external_body]
pub(crate) fn error_text(e: &regex::Error) -> String {
    e.to_string()
}

impl CompiledPattern {
    /// The rule's source text.
    pub fn source(&self) -> (s: &String)
        ensures
            s@ == self@,
    {
        &self.source
    }
}

} // verus!
