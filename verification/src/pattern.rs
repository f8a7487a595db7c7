//! What to look for: a literal text or a compiled regular expression.

use crate::engine::duplicate;
use regex::Regex;
use vstd::prelude::*;
use vstd::std_specs::convert::FromSpecImpl;

verus! {

/// The pattern of a replacement. A `&str` and a `&Regex` both turn into one.
pub enum Pattern<'a> {
    /// The text itself, character by character.
    Str(&'a str),
    /// Whatever the expression matches.
    Regex(Regex),
}

impl<'a> From<&'a str> for Pattern<'a> {
    fn from(s: &'a str) -> (res: Self) {
        Pattern::Str(s)
    }
}

impl<'a> FromSpecImpl<&'a str> for Pattern<'a> {
    open spec fn obeys_from_spec() -> bool {
        true
    }

    open spec fn from_spec(s: &'a str) -> Self {
        Pattern::Str(s)
    }
}

impl<'a> From<&'a Regex> for Pattern<'a> {
    fn from(r: &'a Regex) -> (res: Self) {
        Pattern::Regex(duplicate(r))
    }
}

impl<'a> FromSpecImpl<&'a Regex> for Pattern<'a> {
    open spec fn obeys_from_spec() -> bool {
        true
    }

    open spec fn from_spec(r: &'a Regex) -> Self {
        Pattern::Regex(*r)
    }
}

} // verus!
