//! Matching a string against the version grammar.

use crate::captures::{named_groups, texts_of, CaptureSet, CaptureSetView};
use crate::error::{ParseError, ParseErrorView};
use crate::grammar::{check, follows_grammar};
use vstd::prelude::*;

verus! {

/// The version grammar as a regular expression, anchored at both ends of
/// the string. Letters match in either case. The capture groups are, in
/// the order of their opening brackets: `epoch`, `release`, `pre`, `pre_l`,
/// `pre_n`, `post`, `post_n1`, `post_l`, `post_n2`, `dev`, `dev_l`, `dev_n`
/// and `local`.
pub const VALIDATION_REGEX: &'static str = "^(?i-u)v?\
    (?:(?P<epoch>[0-9]+)!)?\
    (?P<release>[0-9]+(?:[.][0-9]+)*)\
    (?P<pre>[-_.]?(?P<pre_l>preview|alpha|beta|pre|rc|a|b|c)[-_.]?(?P<pre_n>[0-9]+)?)?\
    (?P<post>-(?P<post_n1>[0-9]+)|[-_.]?(?P<post_l>post|rev|r)[-_.]?(?P<post_n2>[0-9]+)?)?\
    (?P<dev>[-_.]?(?P<dev_l>dev)[-_.]?(?P<dev_n>[0-9]+)?)?\
    (?:[+](?P<local>[a-z0-9]+(?:[-_.][a-z0-9]+)*))?$";

/// What the `regex` crate finds when the regular expression `pattern` is
/// searched for in `haystack`: nothing where `pattern` does not compile or
/// matches nowhere; else the capture groups of the leftmost match, the
/// whole match first and the others in the order of their opening
/// brackets, each with the text it matched, or absent where the group took
/// no part in the match.
pub uninterp spec fn regex_captures(pattern: Seq<char>, haystack: Seq<char>) -> Option<
    Seq<Option<Seq<char>>>,
>;

/// What the engine has found, with each text as a sequence of characters.
pub open spec fn found_texts(found: Option<Vec<Option<String>>>) -> Option<
    Seq<Option<Seq<char>>>,
> {
    match found {
        Some(groups) => Some(texts_of(groups@)),
        None => None,
    }
}

/// Compiles `pattern` with `regex::Regex::new` and searches `haystack` with
/// `regex::Regex::captures`; the groups are read off with
/// `regex::Captures::iter` and `regex::Match::as_str`.
///
/// Not proved: that the result is what [`regex_captures`] stands for. The
/// contract says no more than that the result depends on the two strings
/// alone.
#[verifier::external_body]
fn search(pattern: &str, haystack: &str) -> (found: Option<Vec<Option<String>>>)
    ensures
        found_texts(found) == regex_captures(pattern@, haystack@),
{
    let compiled = regex::Regex::new(pattern).ok()?;
    let matched = compiled.captures(haystack)?;
    Some(matched.iter().map(|group| group.map(|m| m.as_str().to_owned())).collect())
}

/// The named groups that are accepted for `input` when the regular
/// expression engine has found `found`: the named groups among them, where
/// there was a match and they take `input` apart as the grammar says; else
/// nothing.
pub open spec fn accepted(input: Seq<char>, found: Option<Seq<Option<Seq<char>>>>) -> Option<
    CaptureSetView,
> {
    match found {
        Some(groups) => match named_groups(groups) {
            Some(named) => if follows_grammar(input, named) {
                Some(named)
            } else {
                None
            },
            None => None,
        },
        None => None,
    }
}

/// The named groups that taking `input` apart yields: those accepted of
/// what the regular expression engine finds for the version grammar.
pub open spec fn validated(input: Seq<char>) -> Option<CaptureSetView> {
    accepted(input, regex_captures(VALIDATION_REGEX@, input))
}

/// Whatever the engine finds, the groups that are accepted for a string
/// take it apart as the grammar says.
pub proof fn accepted_follows_grammar(input: Seq<char>, found: Option<Seq<Option<Seq<char>>>>)
    ensures
        accepted(input, found) matches Some(named) ==> follows_grammar(input, named),
{}

/// Accepts or refuses what the regular expression engine has found for
/// `version`.
///
/// Hands out the named groups where there was a match and its groups take
/// `version` apart as the grammar says, and fails with `GrammarMismatch`
/// everywhere else.
pub fn accept(version: &str, found: Option<Vec<Option<String>>>) -> (r: Result<
    CaptureSet,
    ParseError,
>)
    ensures
        match accepted(version@, found_texts(found)) {
            Some(named) => r matches Ok(set) && set@ == named,
            None => r matches Err(e) && e@ == (ParseErrorView::GrammarMismatch {
                input: version@,
            }),
        },
{
    match found {
        Some(groups) => match CaptureSet::from_groups(groups) {
            Some(set) => if check(version, &set) {
                Ok(set)
            } else {
                Err(ParseError::mismatch(version))
            },
            None => Err(ParseError::mismatch(version)),
        },
        None => Err(ParseError::mismatch(version)),
    }
}

/// Matches `version` against the version grammar and hands out the named
/// groups of the match.
///
/// The match is the regular expression engine's; [`accept`] decides on
/// what it has found. So the groups that are handed out always take
/// `version` apart as the grammar says, and the error is always
/// `GrammarMismatch` with `version` in it.
pub fn validate_440_version(version: &str) -> (r: Result<CaptureSet, ParseError>)
    ensures
        match validated(version@) {
            Some(named) => r matches Ok(set) && set@ == named,
            None => r matches Err(e) && e@ == (ParseErrorView::GrammarMismatch {
                input: version@,
            }),
        },
        r matches Ok(set) ==> follows_grammar(version@, set@),
{
    accept(version, search(VALIDATION_REGEX, version))
}

} // verus!
