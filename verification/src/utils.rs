//! Reading capture groups with a fallback.

use vstd::prelude::*;
use crate::decimal::{parse_decimal, parse_decimal_spec, parse_int, parse_int_spec, Decimal};
use crate::pattern::group_texts;
use crate::text::to_chars;

verus! {

/// The capture groups of one match: group 0 is the whole match, and a group
/// that took no part in the match is `None`.
pub type Groups = Vec<Option<String>>;

/// The text of group `i`, or `default` where there is no such group.
pub open spec fn group_text(groups: Seq<Option<Seq<char>>>, i: int, default: Seq<char>) -> Seq<
    char,
> {
    if 0 <= i < groups.len() && groups[i] is Some {
        groups[i]->0
    } else {
        default
    }
}

/// The integer that group `i` writes, or `default` where there is no such
/// group or its text is no integer.
pub open spec fn group_int(groups: Seq<Option<Seq<char>>>, i: int, default: i64) -> i64 {
    if 0 <= i < groups.len() && groups[i] is Some {
        match parse_int_spec(groups[i]->0) {
            Some(v) => v,
            None => default,
        }
    } else {
        default
    }
}

/// The decimal number that group `i` writes, or `default` where there is no
/// such group or its text is no decimal number.
pub open spec fn group_decimal(groups: Seq<Option<Seq<char>>>, i: int, default: Decimal) -> Decimal {
    if 0 <= i < groups.len() && groups[i] is Some {
        match parse_decimal_spec(groups[i]->0) {
            Some(v) => v,
            None => default,
        }
    } else {
        default
    }
}

pub fn from_caps<'a>(caps: &'a Groups, i: usize, default: &'a str) -> (r: &'a str)
    ensures
        r@ == group_text(group_texts(caps@), i as int, default@),
{
    if i < caps.len() {
        match &caps[i] {
            Some(text) => text.as_str(),
            None => default,
        }
    } else {
        default
    }
}

pub fn from_caps_float(caps: &Groups, i: usize, default: Decimal) -> (r: Decimal)
    ensures
        r == group_decimal(group_texts(caps@), i as int, default),
        default.wf() ==> r.wf(),
{
    if i < caps.len() {
        match &caps[i] {
            Some(text) => {
                let chars = to_chars(text.as_str());
                match parse_decimal(chars.as_slice()) {
                    Some(v) => v,
                    None => default,
                }
            },
            None => default,
        }
    } else {
        default
    }
}

pub fn from_caps_int(caps: &Groups, i: usize, default: i64) -> (r: i64)
    ensures
        r == group_int(group_texts(caps@), i as int, default),
{
    if i < caps.len() {
        match &caps[i] {
            Some(text) => {
                let chars = to_chars(text.as_str());
                match parse_int(chars.as_slice()) {
                    Some(v) => v,
                    None => default,
                }
            },
            None => default,
        }
    } else {
        default
    }
}

} // verus!
