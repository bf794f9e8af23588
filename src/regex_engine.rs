//! The regular-expression engine this library leans on, fancy_regex, and what
//! is assumed of it.
use vstd::prelude::*;
use vstd::utf8::is_ascii_chars;

verus! {

/// The characters that carry a meaning in a pattern and are escaped with `\`.
pub open spec fn is_regex_special(c: char) -> bool {
    c == '\\' || c == '.' || c == '+' || c == '*' || c == '?' || c == '(' || c == ')' || c == '|'
        || c == '[' || c == ']' || c == '{' || c == '}' || c == '^' || c == '$' || c == '#'
}

/// How one character is written when a text is quoted.
pub open spec fn quoted_char(c: char) -> Seq<char> {
    if c == '\n' {
        seq!['\\', 'n']
    } else if c == '\t' {
        seq!['\\', 't']
    } else if c == '\r' {
        seq!['\\', 'r']
    } else if is_regex_special(c) {
        seq!['\\', c]
    } else {
        seq![c]
    }
}

/// The text with every character written as `quoted_char` writes it.
pub open spec fn quoted(s: Seq<char>) -> Seq<char>
    decreases s.len(),
{
    if s.len() == 0 {
        Seq::empty()
    } else {
        quoted(s.drop_last()) + quoted_char(s.last())
    }
}

/// A text that, read as a pattern, matches exactly the text itself: unchanged
/// when it holds no special character, else quoted.
pub open spec fn escaped(s: Seq<char>) -> Seq<char> {
    if exists|i: int| 0 <= i < s.len() && is_regex_special(#[trigger] s[i]) {
        quoted(s)
    } else {
        s
    }
}

/// Relies on fancy_regex::escape, which leaves a text without special
/// characters as it is and otherwise quotes it character by character.
#[verifier::external_body]
pub(crate) fn escape_literal(s: &str) -> (r: String)
    ensures
        r@ == escaped(s@),
{
    fancy_regex::escape(s).to_string()
}

/// What a search of a text with a pattern yields: `None` when the pattern does
/// not compile, else one entry per match attempt, in text order, `None` for an
/// attempt that failed and `(start, end, text)` for a match.
pub uninterp spec fn regex_search(pattern: Seq<char>, text: Seq<char>) -> Option<
    Seq<Option<(usize, usize, Seq<char>)>>,
>;

/// The mathematical value of the found entries.
pub open spec fn found_view(v: Seq<Option<(usize, usize, String)>>) -> Seq<
    Option<(usize, usize, Seq<char>)>,
> {
    v.map_values(
        |o: Option<(usize, usize, String)>|
            match o {
                Some(m) => Some((m.0, m.1, m.2@)),
                None => None,
            },
    )
}

/// Relies on fancy_regex::Regex::new, to compile `pattern`, and on
/// Regex::find_iter, for its non-overlapping leftmost-first matches in `text`.
/// The result depends on the pattern and the text alone. Each match is read
/// through Match::start, Match::end and Match::as_str, which slices the text
/// between the two offsets; on ASCII text a byte offset is a character offset.
#[verifier::external_body]
pub(crate) fn search_all(pattern: &str, text: &str) -> (r: Option<Vec<Option<(usize, usize, String)>>>)
    ensures
        r is None <==> regex_search(pattern@, text@) is None,
        r is Some ==> regex_search(pattern@, text@) == Some(found_view(r->0@)),
        r is Some && is_ascii_chars(text@) ==> forall|i: int|
            0 <= i < r->0@.len() && (#[trigger] r->0@[i]) is Some ==> {
                let m = r->0@[i]->0;
                m.0 <= m.1 <= text@.len() && m.2@ == text@.subrange(m.0 as int, m.1 as int)
            },
{
    match fancy_regex::Regex::new(pattern) {
        Ok(re) => Some(
            re.find_iter(text).map(|m| m.ok().map(|m| (m.start(), m.end(), m.as_str().to_string()))).collect(),
        ),
        Err(_) => None,
    }
}

} // verus!
