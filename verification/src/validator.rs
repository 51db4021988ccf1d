//! Rules that a subscriber's display name must meet.

use unicode_segmentation::UnicodeSegmentation;
use vstd::prelude::*;

verus! {

/// The largest number of user-perceived characters a name may have.
pub const MAX_NAME_LENGTH: usize = 256;

/// The characters that no name may hold.
pub open spec fn is_forbidden(c: char) -> bool {
    c == '/' || c == '(' || c == ')' || c == '"' || c == '<' || c == '>' || c == '\\' || c == '{'
        || c == '}'
}

/// Some character of `s` is forbidden.
pub open spec fn has_forbidden(s: Seq<char>) -> bool {
    exists|i: int| 0 <= i < s.len() && is_forbidden(#[trigger] s[i])
}

/// The characters with the Unicode property `White_Space`.
pub open spec fn is_space(c: char) -> bool {
    ('\u{9}' <= c && c <= '\u{D}') || c == ' ' || c == '\u{85}' || c == '\u{A0}' || c == '\u{1680}'
        || ('\u{2000}' <= c && c <= '\u{200A}') || c == '\u{2028}' || c == '\u{2029}' || c
        == '\u{202F}' || c == '\u{205F}' || c == '\u{3000}'
}

/// Nothing is left of `s` once white space is trimmed from both ends: every
/// character of it, if it has any, is white space.
pub open spec fn is_blank(s: Seq<char>) -> bool {
    forall|i: int| 0 <= i < s.len() ==> is_space(#[trigger] s[i])
}

/// The number of extended grapheme clusters of `s`, as Unicode Standard Annex
/// #29 delimits them.
pub uninterp spec fn grapheme_count(s: Seq<char>) -> nat;

/// `s` has more user-perceived characters than a name may have.
pub open spec fn too_long(s: Seq<char>) -> bool {
    grapheme_count(s) > MAX_NAME_LENGTH
}

/// `s` is an acceptable name: none of the three rejection rules applies.
pub open spec fn valid_name(s: Seq<char>) -> bool {
    !has_forbidden(s) && !too_long(s) && !is_blank(s)
}

/// Counts the user-perceived characters of `value` by calling
/// `UnicodeSegmentation::graphemes` of the crate `unicode_segmentation` with
/// extended clusters switched on. Unproved: that the count is the one
/// `grapheme_count` names, and that it is at most the number of characters,
/// each cluster being a non-empty piece of the string.
#[verifier::external_body]
fn count_graphemes(value: &str) -> (n: usize)
    ensures
        n == grapheme_count(value@),
        n <= value@.len(),
{
    value.graphemes(true).count()
}

/// Whether `c` is white space.
pub fn is_whitespace(c: char) -> (space: bool)
    ensures
        space == is_space(c),
{
    ('\u{9}' <= c && c <= '\u{D}') || c == ' ' || c == '\u{85}' || c == '\u{A0}' || c == '\u{1680}'
        || ('\u{2000}' <= c && c <= '\u{200A}') || c == '\u{2028}' || c == '\u{2029}' || c
        == '\u{202F}' || c == '\u{205F}' || c == '\u{3000}'
}

/// Whether a count of user-perceived characters is above the limit for names.
pub fn exceeds_limit(graphemes: usize) -> (over: bool)
    ensures
        over == (graphemes > MAX_NAME_LENGTH),
{
    graphemes > MAX_NAME_LENGTH
}

/// Whether `value` has more than `MAX_NAME_LENGTH` user-perceived characters.
/// A value of at most that many characters never has.
pub fn is_too_long(value: &str) -> (long: bool)
    ensures
        long == too_long(value@),
        value@.len() <= MAX_NAME_LENGTH ==> !long,
{
    exceeds_limit(count_graphemes(value))
}

/// Whether `value` is empty or holds white space only.
pub fn is_empty_or_whitespace(value: &str) -> (blank: bool)
    ensures
        blank == is_blank(value@),
{
    let mut blank = true;
    for c in it: value.chars()
        invariant
            it.seq() == value@,
            blank == is_blank(value@.take(it.index())),
    {
        proof {
            let before = value@.take(it.index());
            let after = value@.take(it.index() + 1);
            assert(forall|i: int| 0 <= i < before.len() ==> before[i] == after[i]);
            assert(after[it.index()] == c);
        }
        if !is_whitespace(c) {
            blank = false;
        }
    }
    assert(value@.take(value@.len() as int) =~= value@);
    blank
}

/// Whether `value` holds one of the forbidden characters.
pub fn contains_forbidden_chars(value: &str) -> (found: bool)
    ensures
        found == has_forbidden(value@),
{
    let mut found = false;
    for c in it: value.chars()
        invariant
            it.seq() == value@,
            found == has_forbidden(value@.take(it.index())),
    {
        proof {
            let before = value@.take(it.index());
            let after = value@.take(it.index() + 1);
            assert(forall|i: int| 0 <= i < before.len() ==> before[i] == after[i]);
            assert(after[it.index()] == c);
        }
        if c == '/' || c == '(' || c == ')' || c == '"' || c == '<' || c == '>' || c == '\\' || c
            == '{' || c == '}' {
            found = true;
        }
    }
    assert(value@.take(value@.len() as int) =~= value@);
    found
}

/// Judges a proposed display name. A name passes if and only if it holds no
/// forbidden character, has at most `MAX_NAME_LENGTH` user-perceived
/// characters and is not blank. So every name of more user-perceived
/// characters fails; and of a name of at most `MAX_NAME_LENGTH` characters,
/// which cannot be too long, the other two rules alone decide.
pub fn validate_name(name: &str) -> (ok: bool)
    ensures
        ok == valid_name(name@),
        grapheme_count(name@) > MAX_NAME_LENGTH ==> !ok,
        name@.len() <= MAX_NAME_LENGTH ==> ok == (!has_forbidden(name@) && !is_blank(name@)),
{
    !(contains_forbidden_chars(name) || is_too_long(name) || is_empty_or_whitespace(name))
}

} // verus!
