//! The regular-expression engine behind the line grammars.
//!
//! Matching is done by the `regex` crate. What a search returns is named
//! here, not described: the contracts of the decoder speak of that name.

use vstd::prelude::*;
use regex::Regex;

verus! {

/// `regex::Regex`: a compiled regular expression, opaque here.
#[verifier::external_type_specification]
#[verifier::external_body]
pub struct ExRegex(regex::Regex);

/// `regex::Error`: why a pattern did not compile, opaque here.
#[verifier::external_type_specification]
#[verifier::external_body]
pub struct ExRegexError(regex::Error);

/// The pattern text that `Regex::new` compiled an expression from. This
/// is said of expressions that `Regex::new` made, and the library makes no
/// others: of an expression built with other options from the same text,
/// nothing in this file holds.
pub uninterp spec fn regex_pattern(re: &Regex) -> Seq<char>;

/// What `Regex::captures` returns on `haystack` for the expression that
/// `Regex::new` compiles from `pattern`: `None` where nothing matches;
/// else, for the leftmost match, one entry per capture group of the
/// pattern, group 0 (the whole match) first, each the text that the group
/// matched or `None` where the group took no part in the match.
pub uninterp spec fn regex_captures(pattern: Seq<char>, haystack: Seq<char>) -> Option<
    Seq<Option<Seq<char>>>,
>;

/// Whether `Regex::new` compiles `pattern`: whether the text is a pattern
/// of the crate's syntax whose compiled form is within the default size
/// limit. The limit is counted in bytes of the target's types, so this is
/// a function of the text on one target.
pub uninterp spec fn regex_compiles(pattern: Seq<char>) -> bool;

/// `Regex::new`: whether an expression comes back depends on the pattern
/// text alone, and the expression that comes back is the one compiled from
/// that text. Nothing is claimed about which patterns compile.
pub assume_specification[ Regex::new ](re: &str) -> (r: Result<Regex, regex::Error>)
    ensures
        r is Ok <==> regex_compiles(re@),
        r matches Ok(compiled) ==> regex_pattern(&compiled) == re@,
;

/// The texts of capture groups as character sequences.
pub open spec fn group_texts(groups: Seq<Option<String>>) -> Seq<Option<Seq<char>>> {
    Seq::new(
        groups.len(),
        |i: int|
            match groups[i] {
                Some(text) => Some(text@),
                None => None,
            },
    )
}

/// The capture groups of a search as character sequences.
pub open spec fn captures_view(found: Option<Vec<Option<String>>>) -> Option<
    Seq<Option<Seq<char>>>,
> {
    match found {
        Some(groups) => Some(group_texts(groups@)),
        None => None,
    }
}

/// `Regex::captures`, with each group of the match copied out as a string:
/// the result is the one that `regex_captures` names for the pattern of `re`
/// and for `line`. This holds of every expression that `Regex::new` made.
#[verifier::external_body]
pub(crate) fn captures(re: &Regex, line: &str) -> (r: Option<Vec<Option<String>>>)
    ensures
        captures_view(r) == regex_captures(regex_pattern(re), line@),
{
    let caps = re.captures(line)?;
    let mut groups: Vec<Option<String>> = Vec::new();
    for i in 0..caps.len() {
        groups.push(
            match caps.get(i) {
                Some(m) => Some(m.as_str().to_string()),
                None => None,
            },
        );
    }
    Some(groups)
}

} // verus!
