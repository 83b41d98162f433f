//! The matcher behind the pattern catalog.
//!
//! Matching itself is done by the `regex` crate.  What a regex does is a
//! function of its source text and the haystack alone, so that behaviour is
//! given names here — `re_compiles`, `re_captures`, `regex_escaped` — and the
//! three trusted items below tie the crate's calls to those names.  Nothing
//! else in this crate calls into `regex`.

use vstd::prelude::*;

verus! {

#[verifier::external_type_specification]
#[verifier::external_body]
pub struct ExRegex(regex::Regex);

/// Whether `regex::Regex::new` accepts `src` as a regex.
pub uninterp spec fn re_compiles(src: Seq<char>) -> bool;

/// What `regex::Regex::captures` yields for the regex compiled from `src` on
/// `text`: `None` when the regex does not match, otherwise the participating
/// capture groups in order, the whole-match group left out.
pub uninterp spec fn re_captures(src: Seq<char>, text: Seq<char>) -> Option<Seq<Seq<char>>>;

/// What `regex::escape` makes of `s`.
pub uninterp spec fn regex_escaped(s: Seq<char>) -> Seq<char>;

pub open spec fn opt_groups_view(r: Option<Vec<String>>) -> Option<Seq<Seq<char>>> {
    match r {
        Some(v) => Some(v@.map_values(|s: String| s@)),
        None => None,
    }
}

/// A compiled matcher, kept together with the regex source it was compiled
/// from, so that contracts can speak of what it matches.
pub struct Matcher {
    src: String,
    re: regex::Regex,
}

impl Matcher {
    /// The regex source this matcher was compiled from.
    pub closed spec fn src_view(&self) -> Seq<char> {
        self.src@
    }
}

/// Relies on `regex::Regex::new`: whether compilation succeeds depends on the
/// source text alone, and the value it returns matches per that source.  This
/// is the only place a `Matcher` is built, so a `Matcher`'s regex is always
/// the one compiled from its stored source.
#[verifier::external_body]
pub(crate) fn matcher_new(src: &str) -> (r: Option<Matcher>)
    ensures
        (r is Some) == re_compiles(src@),
        (r matches Some(m) ==> m.src_view() == src@),
{
    match regex::Regex::new(src) {
        Ok(re) => Some(Matcher { src: src.to_string(), re }),
        Err(_) => None,
    }
}

/// Relies on `regex::Regex::captures`: whether and what a regex captures is a
/// function of its source and the haystack alone; on a match, the
/// participating groups are handed back in order as owned strings.
#[verifier::external_body]
pub(crate) fn matcher_captures(m: &Matcher, text: &str) -> (r: Option<Vec<String>>)
    ensures
        opt_groups_view(r) == re_captures(m.src_view(), text@),
{
    m.re.captures(text).map(
        |caps|
            caps.iter().skip(1).filter_map(
                |g| g.map(|grp| grp.as_str().to_string()),
            ).collect(),
    )
}

/// Relies on `regex::escape`: the escaped form of a literal depends on its
/// characters alone, and the escaped text matches exactly that literal.
#[verifier::external_body]
pub(crate) fn regex_escape(s: &str) -> (r: String)
    ensures
        r@ == regex_escaped(s@),
{
    regex::escape(s)
}

} // verus!
