//! Small operations on text that several modules share.

use vstd::prelude::*;
use vstd::string::StringExecFns;

verus! {

/// The character that separates the parts of a path.
pub const PATH_SEPARATOR: char = '/';

/// Appends one character with `String::push` from the standard library.
///
/// Trusted: the string afterwards is the string before, followed by the
/// character.
#[verifier::external_body]
pub(crate) fn push_char(text: &mut String, c: char)
    ensures
        final(text)@ == old(text)@.push(c),
{
    text.push(c)
}

/// Builds the string that holds `chars[from..to]`.
pub(crate) fn string_of(chars: &Vec<char>, from: usize, to: usize) -> (text: String)
    requires
        from <= to <= chars.len(),
    ensures
        text@ == chars@.subrange(from as int, to as int),
{
    let mut text = String::new();
    for i in from..to
        invariant
            from <= to <= chars.len(),
            text@ == chars@.subrange(from as int, i as int),
    {
        push_char(&mut text, chars[i]);
        assert(chars@.subrange(from as int, i + 1) =~= chars@.subrange(from as int, i as int).push(
            chars@[i as int],
        ));
    }
    text
}

/// The characters of `text`, one by one.
pub(crate) fn chars_of(text: &str) -> (chars: Vec<char>)
    ensures
        chars@ == text@,
{
    let mut chars: Vec<char> = Vec::new();
    for c in it: text.chars()
        invariant
            it.seq() == text@,
            chars@ == it.seq().take(it.index() as int),
    {
        chars.push(c);
        assert(it.seq().take(it.index() + 1) =~= it.seq().take(it.index() as int).push(c));
    }
    assert(text@.take(text@.len() as int) =~= text@);
    chars
}

/// Tells whether two strings hold the same characters in the same order.
pub fn text_equal(a: &str, b: &str) -> (r: bool)
    ensures
        r == (a@ == b@),
{
    let x = chars_of(a);
    let y = chars_of(b);
    if x.len() != y.len() {
        return false;
    }
    for i in 0..x.len()
        invariant
            x@ == a@,
            y@ == b@,
            x.len() == y.len(),
            forall|k: int| 0 <= k < i ==> x[k] == y[k],
    {
        if x[i] != y[i] {
            return false;
        }
    }
    assert(x@ =~= y@);
    true
}

/// The path `child` taken from the directory `base`, for paths that are
/// written with `/` between their parts.
///
/// A child that starts at the root stands for itself. Otherwise the child
/// follows the base, with a separator between the two unless the base is
/// empty or already ends in one.
pub open spec fn joined_path(base: Seq<char>, child: Seq<char>) -> Seq<char> {
    if child.len() > 0 && child[0] == PATH_SEPARATOR {
        child
    } else if base.len() == 0 || base.last() == PATH_SEPARATOR {
        base + child
    } else {
        base + seq![PATH_SEPARATOR] + child
    }
}

/// Returns the path `child` taken from the directory `base`.
pub fn join_path(base: &str, child: &str) -> (path: String)
    ensures
        path@ == joined_path(base@, child@),
{
    let head = chars_of(base);
    let tail = chars_of(child);
    if tail.len() > 0 && tail[0] == PATH_SEPARATOR {
        return String::from_str(child);
    }
    let mut path = String::from_str(base);
    if head.len() > 0 && head[head.len() - 1] != PATH_SEPARATOR {
        push_char(&mut path, PATH_SEPARATOR);
    }
    path.append(child);
    path
}

/// An ASCII letter or digit.
pub open spec fn is_ascii_alphanumeric(c: char) -> bool {
    ('0' <= c && c <= '9') || ('a' <= c && c <= 'z') || ('A' <= c && c <= 'Z')
}

/// The lower-case form of an ASCII letter; any other character as it is.
pub open spec fn ascii_lowercase(c: char) -> char {
    if 'A' <= c && c <= 'Z' {
        ((c as u8) + 32) as char
    } else {
        c
    }
}

/// `text` with its ASCII letters in lower case.
pub open spec fn lowered(text: Seq<char>) -> Seq<char> {
    text.map_values(|c: char| ascii_lowercase(c))
}

/// Tells whether `c` is an ASCII letter or digit.
pub fn char_is_ascii_alphanumeric(c: char) -> (r: bool)
    ensures
        r == is_ascii_alphanumeric(c),
{
    ('0' <= c && c <= '9') || ('a' <= c && c <= 'z') || ('A' <= c && c <= 'Z')
}

/// Returns the lower-case form of an ASCII letter, and any other character
/// as it is.
pub fn char_to_ascii_lowercase(c: char) -> (r: char)
    ensures
        r == ascii_lowercase(c),
{
    if 'A' <= c && c <= 'Z' {
        ((c as u8) + 32) as char
    } else {
        c
    }
}

/// Whether a character is white space, as `char::is_whitespace` of the
/// standard library tells.
pub uninterp spec fn is_whitespace(c: char) -> bool;

/// Asks `char::is_whitespace` of the standard library.
///
/// Trusted: the answer is the one that the contracts of this crate call
/// white space. Nothing is claimed about which characters those are.
#[verifier::external_body]
pub(crate) fn char_is_whitespace(c: char) -> (r: bool)
    ensures
        r == is_whitespace(c),
{
    c.is_whitespace()
}

/// `text` without the white space at its end.
pub open spec fn trimmed_end(text: Seq<char>) -> Seq<char>
    decreases text.len(),
{
    if text.len() > 0 && is_whitespace(text.last()) {
        trimmed_end(text.drop_last())
    } else {
        text
    }
}

/// `text` without the white space at its start.
pub open spec fn trimmed_start(text: Seq<char>) -> Seq<char>
    decreases text.len(),
{
    if text.len() > 0 && is_whitespace(text.first()) {
        trimmed_start(text.drop_first())
    } else {
        text
    }
}

/// `text` without the white space at its start and at its end.
pub open spec fn trimmed(text: Seq<char>) -> Seq<char> {
    trimmed_start(trimmed_end(text))
}

/// Returns `text` without the white space at its start and at its end.
pub fn trim_text(text: &str) -> (r: String)
    ensures
        r@ == trimmed(text@),
{
    let chars = chars_of(text);
    let mut end: usize = chars.len();
    proof {
        assert(chars@.take(chars.len() as int) =~= chars@);
    }
    while end > 0 && char_is_whitespace(chars[end - 1])
        invariant
            end <= chars.len(),
            trimmed_end(chars@) == trimmed_end(chars@.take(end as int)),
        decreases end,
    {
        assert(chars@.take(end as int).drop_last() =~= chars@.take(end - 1));
        end = end - 1;
    }
    let ghost kept = chars@.take(end as int);
    let mut start: usize = 0;
    proof {
        assert(kept.subrange(0, end as int) =~= kept);
    }
    while start < end && char_is_whitespace(chars[start])
        invariant
            start <= end <= chars.len(),
            kept == chars@.take(end as int),
            trimmed_start(kept) == trimmed_start(kept.subrange(start as int, end as int)),
        decreases end - start,
    {
        assert(kept.subrange(start as int, end as int).drop_first() =~= kept.subrange(
            start + 1,
            end as int,
        ));
        start = start + 1;
    }
    assert(kept.subrange(start as int, end as int) =~= chars@.subrange(start as int, end as int));
    string_of(&chars, start, end)
}

} // verus!
