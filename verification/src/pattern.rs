//! Regular expressions, as the `regex` crate compiles and runs them.

use vstd::prelude::*;
use crate::text::{opt_chars, texts};

verus! {

/// A compiled regular expression of the `regex` crate.
#[verifier::external_type_specification]
#[verifier::external_body]
pub struct ExRegex(regex::Regex);

/// The error with which the `regex` crate turns a pattern down.
#[verifier::external_type_specification]
#[verifier::external_body]
pub struct ExRegexError(regex::Error);

/// What `regex::Regex::new` returns for a pattern.
pub uninterp spec fn regex_compiled(pattern: Seq<char>) -> Result<regex::Regex, regex::Error>;

/// Whether `regex::Regex::is_match` finds a match of the expression anywhere in the text.
pub uninterp spec fn regex_is_match(re: regex::Regex, text: Seq<char>) -> bool;

/// `regex::Regex::new`: the result depends on the pattern alone.
#[verifier::external_body]
pub(crate) fn compile(pattern: &str) -> (r: Result<regex::Regex, regex::Error>)
    ensures
        r == regex_compiled(pattern@),
{
    regex::Regex::new(pattern)
}

/// `regex::Regex::is_match`: the result depends on the expression and the text alone.
#[verifier::external_body]
pub(crate) fn is_match(re: &regex::Regex, text: &str) -> (b: bool)
    ensures
        b == regex_is_match(*re, text@),
{
    re.is_match(text)
}

/// What `regex::Regex::captures` finds for a named group at the leftmost
/// match of the expression in the text: the text that the group matched, or
/// nothing where there is no match, no group of that name, or the group took
/// no part in the match.
pub uninterp spec fn regex_capture(re: regex::Regex, text: Seq<char>, group: Seq<char>) -> Option<
    Seq<char>,
>;

/// `regex::Regex::captures`, then `Captures::name` and `Match::as_str` for one
/// group: the result depends on the expression, the text and the group's
/// name alone, and a group is only found where the expression matches.
#[verifier::external_body]
pub(crate) fn capture(re: &regex::Regex, text: &str, group: &str) -> (r: Option<String>)
    ensures
        opt_chars(r) == regex_capture(*re, text@, group@),
        r is Some ==> regex_is_match(*re, text@),
{
    match re.captures(text) {
        Some(found) => match found.name(group) {
            Some(part) => Some(part.as_str().to_string()),
            None => None,
        },
        None => None,
    }
}

/// What the named group holds at the leftmost match of the pattern in the
/// text; nothing where the pattern does not compile.
pub open spec fn pattern_capture(pattern: Seq<char>, text: Seq<char>, group: Seq<char>) -> Option<
    Seq<char>,
> {
    match regex_compiled(pattern) {
        Ok(re) => regex_capture(re, text, group),
        Err(_) => None,
    }
}

/// Whether the pattern compiles and then matches somewhere in the text.
pub open spec fn pattern_matches(pattern: Seq<char>, text: Seq<char>) -> bool {
    match regex_compiled(pattern) {
        Ok(re) => regex_is_match(re, text),
        Err(_) => false,
    }
}

/// Compiles the pattern and searches the text; a pattern that does not compile matches nothing.
pub fn search(pattern: &str, text: &str) -> (b: bool)
    ensures
        b == pattern_matches(pattern@, text@),
{
    match compile(pattern) {
        Ok(re) => is_match(&re, text),
        Err(_) => false,
    }
}

/// The expressions that the patterns of a list compile to, in the order of
/// the list; a pattern that does not compile leaves no trace.
pub open spec fn compiled_all(patterns: Seq<Seq<char>>) -> Seq<regex::Regex>
    decreases patterns.len(),
{
    if patterns.len() == 0 {
        Seq::empty()
    } else {
        match regex_compiled(patterns.last()) {
            Ok(re) => compiled_all(patterns.drop_last()).push(re),
            Err(_) => compiled_all(patterns.drop_last()),
        }
    }
}

/// The compiled expression of a pattern, if it compiles.
pub open spec fn compiled(pattern: Seq<char>) -> Option<regex::Regex> {
    match regex_compiled(pattern) {
        Ok(re) => Some(re),
        Err(_) => None,
    }
}

/// Compiles a pattern; none where it does not compile.
pub fn compile_opt(pattern: &str) -> (r: Option<regex::Regex>)
    ensures
        r == compiled(pattern@),
{
    match compile(pattern) {
        Ok(re) => Some(re),
        Err(_) => None,
    }
}

/// Compiles the patterns of a list and keeps those that compile, in order.
pub fn compile_all(patterns: &Vec<String>) -> (r: Vec<regex::Regex>)
    ensures
        r@ == compiled_all(texts(patterns@)),
{
    let mut r: Vec<regex::Regex> = Vec::new();
    let mut i: usize = 0;
    while i < patterns.len()
        invariant
            i <= patterns.len(),
            r@ == compiled_all(texts(patterns@).subrange(0, i as int)),
        decreases patterns.len() - i,
    {
        proof {
            let next = texts(patterns@).subrange(0, i + 1);
            assert(next.drop_last() =~= texts(patterns@).subrange(0, i as int));
            assert(next.last() == patterns@[i as int]@);
        }
        match compile(patterns[i].as_str()) {
            Ok(re) => {
                r.push(re);
            },
            Err(_) => {},
        }
        i = i + 1;
    }
    proof {
        assert(texts(patterns@).subrange(0, i as int) =~= texts(patterns@));
    }
    r
}

} // verus!
