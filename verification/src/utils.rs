//! Helpers for building request URLs.

use crate::text::{chars_of, replace_chars, replaced, string_of};
use vstd::prelude::*;

verus! {

/// The placeholder of a URL template.
pub open spec fn placeholder() -> Seq<char> {
    seq!['{', '}']
}

/// The URL template `origin` with `params` in place of every placeholder.
pub open spec fn formatted_url(origin: Seq<char>, params: Seq<char>) -> Seq<char> {
    replaced(origin, placeholder(), params)
}

/// Fills the URL template `origin`: every `{}` in it, leftmost first, is
/// replaced by `params`. A template without placeholder is returned as it is.
pub fn format_url(origin: &str, params: &str) -> (url: String)
    ensures
        url@ == formatted_url(origin@, params@),
{
    let template = chars_of(origin);
    let value = chars_of(params);
    let mut pattern: Vec<char> = Vec::new();
    pattern.push('{');
    pattern.push('}');
    assert(pattern@ =~= placeholder());
    let filled = replace_chars(&template, &pattern, &value);
    string_of(&filled)
}

} // verus!
