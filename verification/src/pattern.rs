//! Regular-expression searches over log text, and the clipping of the
//! fragments they capture.
//!
//! The searches themselves are done by the `regex` crate. What a search
//! returns is not proved here: it is given a name, and everything built on a
//! search is stated over that name.

use regex::Regex;
use vstd::prelude::*;
use vstd::string::*;

verus! {

/// The groups of one match: index 0 is the whole match, and a group that took
/// no part in the match is `None`.
pub type Groups = Seq<Option<Seq<char>>>;

/// What `Regex::new(pattern)` followed by `Regex::is_match(text)` gives:
/// `None` where the pattern does not compile.
pub uninterp spec fn regex_is_match(pattern: Seq<char>, text: Seq<char>) -> Option<bool>;

/// What `Regex::new(pattern)` followed by `Regex::captures(text)` gives:
/// `None` where the pattern does not compile, `Some(None)` where it finds no
/// match, else the groups of the leftmost match.
pub uninterp spec fn regex_captures(pattern: Seq<char>, text: Seq<char>) -> Option<Option<Groups>>;

/// What `Regex::new(pattern)` followed by `Regex::captures_iter(text)` gives:
/// `None` where the pattern does not compile, else the groups of each of the
/// successive non-overlapping matches, in the order they stand in the text.
pub uninterp spec fn regex_captures_iter(pattern: Seq<char>, text: Seq<char>) -> Option<Seq<Groups>>;

/// Calls `regex::Regex::new` and, on the compiled expression,
/// `regex::Regex::is_match`. The result is exactly the named value
/// `regex_is_match`; a pattern that the crate rejects gives `None`.
#[verifier::external_body]
pub(crate) fn search_is_match(pattern: &str, text: &str) -> (r: Option<bool>)
    ensures
        r == regex_is_match(pattern@, text@),
{
    match Regex::new(pattern) {
        Ok(re) => Some(re.is_match(text)),
        Err(_) => None,
    }
}

/// Calls `regex::Regex::new` and, on the compiled expression,
/// `regex::Regex::captures`, copying each group of the match out as an owned
/// string. The result is exactly the named value `regex_captures`.
#[verifier::external_body]
pub(crate) fn search_captures(pattern: &str, text: &str) -> (r: Option<Option<Vec<Option<String>>>>)
    ensures
        r.deep_view() == regex_captures(pattern@, text@),
{
    match Regex::new(pattern) {
        Ok(re) => Some(
            re.captures(text).map(|c| c.iter().map(|g| g.map(|m| m.as_str().to_string())).collect()),
        ),
        Err(_) => None,
    }
}

/// Calls `regex::Regex::new` and, on the compiled expression,
/// `regex::Regex::captures_iter`, copying the groups of every match out as
/// owned strings. The result is exactly the named value
/// `regex_captures_iter`.
#[verifier::external_body]
pub(crate) fn search_captures_iter(pattern: &str, text: &str) -> (r: Option<Vec<Vec<Option<String>>>>)
    ensures
        r.deep_view() == regex_captures_iter(pattern@, text@),
{
    match Regex::new(pattern) {
        Ok(re) => Some(
            re.captures_iter(text).map(
                |c| c.iter().map(|g| g.map(|m| m.as_str().to_string())).collect(),
            ).collect(),
        ),
        Err(_) => None,
    }
}

/// Whether `pattern` compiles and matches somewhere in `text`.
pub open spec fn pattern_matches(pattern: Seq<char>, text: Seq<char>) -> bool {
    regex_is_match(pattern, text) == Some(true)
}

/// The groups of the leftmost match of `pattern` in `text`, if it compiles
/// and matches.
pub open spec fn captures_of(pattern: Seq<char>, text: Seq<char>) -> Option<Groups> {
    match regex_captures(pattern, text) {
        Some(Some(groups)) => Some(groups),
        _ => None,
    }
}

/// The groups of every match of `pattern` in `text`; none where the pattern
/// does not compile.
pub open spec fn all_captures_of(pattern: Seq<char>, text: Seq<char>) -> Seq<Groups> {
    match regex_captures_iter(pattern, text) {
        Some(found) => found,
        None => Seq::empty(),
    }
}

/// The number of characters kept in front of the ellipsis.
pub open spec fn kept_len(max_len: nat) -> nat {
    if max_len >= 3 { (max_len - 3) as nat } else { 0 }
}

/// `s` itself where it has at most `max_len` characters, else its first
/// `max_len - 3` characters followed by three dots.
pub open spec fn clipped(s: Seq<char>, max_len: nat) -> Seq<char> {
    if s.len() > max_len {
        s.take(kept_len(max_len) as int) + ELLIPSIS@
    } else {
        s
    }
}

/// A clipped text is no longer than `max_len` allows, the three dots
/// included, and a text that is short enough is kept whole.
pub proof fn clipped_is_bounded(s: Seq<char>, max_len: nat)
    ensures
        max_len >= 3 ==> clipped(s, max_len).len() <= max_len,
        clipped(s, max_len).len() <= s.len() + 3,
        s.len() <= max_len ==> clipped(s, max_len) == s,
{
    reveal_strlit("...");
}

/// The text of group `index` clipped to `max_len` characters; the empty text
/// where the match has no such group or the group took no part in it.
pub open spec fn group_text(groups: Groups, index: int, max_len: nat) -> Seq<char> {
    if 0 <= index < groups.len() && groups[index] is Some {
        clipped(groups[index]->0, max_len)
    } else {
        Seq::empty()
    }
}

pub const ELLIPSIS: &'static str = "...";

/// Whether `pattern` matches somewhere in `text`.
pub fn is_match(pattern: &str, text: &str) -> (r: bool)
    ensures
        r == pattern_matches(pattern@, text@),
{
    match search_is_match(pattern, text) {
        Some(found) => found,
        None => false,
    }
}

/// The groups of the leftmost match of `pattern` in `text`.
pub fn captures(pattern: &str, text: &str) -> (r: Option<Vec<Option<String>>>)
    ensures
        r.deep_view() == captures_of(pattern@, text@),
{
    match search_captures(pattern, text) {
        Some(Some(groups)) => Some(groups),
        _ => None,
    }
}

/// The groups of every match of `pattern` in `text`, in text order.
pub fn all_captures(pattern: &str, text: &str) -> (r: Vec<Vec<Option<String>>>)
    ensures
        r.deep_view() == all_captures_of(pattern@, text@),
{
    match search_captures_iter(pattern, text) {
        Some(found) => found,
        None => {
            let r: Vec<Vec<Option<String>>> = Vec::new();
            assert(r.deep_view() =~= Seq::<Groups>::empty());
            r
        },
    }
}

/// Clips `s` to at most `max_len` characters, marking a cut with three dots.
pub fn truncate(s: &str, max_len: usize) -> (r: String)
    ensures
        r@ == clipped(s@, max_len as nat),
{
    let n: usize = s.unicode_len();
    if n > max_len {
        let keep: usize = if max_len >= 3 { max_len - 3 } else { 0 };
        let head = s.substring_char(0, keep);
        String::from_str(head).concat(ELLIPSIS)
    } else {
        String::from_str(s)
    }
}

/// The text of group `index` of a match, clipped to `max_len` characters.
pub fn capture_text(groups: &Vec<Option<String>>, index: usize, max_len: usize) -> (r: String)
    ensures
        r@ == group_text(groups.deep_view(), index as int, max_len as nat),
{
    if index < groups.len() {
        match &groups[index] {
            Some(text) => truncate(text.as_str(), max_len),
            None => String::new(),
        }
    } else {
        String::new()
    }
}

/// The first of two optional values that is there.
pub open spec fn first_of<T>(a: Option<T>, b: Option<T>) -> Option<T> {
    if a is Some {
        a
    } else {
        b
    }
}

/// Group 1 of a match clipped to `max_len` characters, if it took part in
/// the match.
pub open spec fn first_group(groups: Groups, max_len: nat) -> Option<Seq<char>> {
    if 1 < groups.len() && groups[1] is Some {
        Some(clipped(groups[1]->0, max_len))
    } else {
        None
    }
}

/// `None` where `pattern` does not match in `text`, else the clipped group 1
/// of its leftmost match.
pub open spec fn grab_of(pattern: Seq<char>, text: Seq<char>, max_len: nat) -> Option<Option<Seq<char>>> {
    match captures_of(pattern, text) {
        Some(groups) => Some(first_group(groups, max_len)),
        None => None,
    }
}

/// Whether the two texts are the same.
pub fn same_text(a: &str, b: &str) -> (r: bool)
    ensures
        r == (a@ == b@),
{
    String::from_str(a) == String::from_str(b)
}

/// Searches `text` for `pattern` and hands out the clipped group 1 of the
/// leftmost match.
pub fn grab(pattern: &str, text: &str, max_len: usize) -> (r: Option<Option<String>>)
    ensures
        r.deep_view() == grab_of(pattern@, text@, max_len as nat),
{
    match captures(pattern, text) {
        Some(groups) => {
            if 1 < groups.len() {
                match &groups[1] {
                    Some(found) => Some(Some(truncate(found.as_str(), max_len))),
                    None => Some(None),
                }
            } else {
                Some(None)
            }
        },
        None => None,
    }
}

/// The first of two patterns that matches decides what is grabbed.
pub fn grab2(first: &str, second: &str, text: &str, max_len: usize) -> (r: Option<Option<String>>)
    ensures
        r.deep_view() == first_of(
            grab_of(first@, text@, max_len as nat),
            grab_of(second@, text@, max_len as nat),
        ),
{
    match grab(first, text, max_len) {
        Some(found) => Some(found),
        None => grab(second, text, max_len),
    }
}

/// The first of three patterns that matches decides what is grabbed.
pub fn grab3(first: &str, second: &str, third: &str, text: &str, max_len: usize) -> (r: Option<
    Option<String>,
>)
    ensures
        r.deep_view() == first_of(
            first_of(grab_of(first@, text@, max_len as nat), grab_of(second@, text@, max_len as nat)),
            grab_of(third@, text@, max_len as nat),
        ),
{
    match grab2(first, second, text, max_len) {
        Some(found) => Some(found),
        None => grab(third, text, max_len),
    }
}

/// The groups of the first of two patterns that matches.
pub fn captures2(first: &str, second: &str, text: &str) -> (r: Option<Vec<Option<String>>>)
    ensures
        r.deep_view() == first_of(captures_of(first@, text@), captures_of(second@, text@)),
{
    match captures(first, text) {
        Some(found) => Some(found),
        None => captures(second, text),
    }
}

/// The groups of the first of three patterns that matches.
pub fn captures3(first: &str, second: &str, third: &str, text: &str) -> (r: Option<
    Vec<Option<String>>,
>)
    ensures
        r.deep_view() == first_of(
            first_of(captures_of(first@, text@), captures_of(second@, text@)),
            captures_of(third@, text@),
        ),
{
    match captures2(first, second, text) {
        Some(found) => Some(found),
        None => captures(third, text),
    }
}

} // verus!
