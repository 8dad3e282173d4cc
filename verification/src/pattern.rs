//! Regular-expression matching, done by the `regex` crate.
use crate::text::opt_view;
use vstd::prelude::*;

verus! {

/// What `Regex::new(pattern)` followed by `replace_all(text, ..)` gives when
/// each match is replaced by the text of its capture group `group` (by
/// nothing when that group did not take part); `None` when the pattern does
/// not compile.
pub uninterp spec fn regex_replaced(pattern: Seq<char>, text: Seq<char>, group: nat) -> Option<Seq<char>>;

/// The successive non-overlapping matches that `Regex::new(pattern)`
/// followed by `captures_iter(text)` yields: each match's whole text and
/// the text of its first capture group, if that group took part; `None`
/// when the pattern does not compile.
pub uninterp spec fn regex_capture_list(pattern: Seq<char>, text: Seq<char>) -> Option<Seq<(Seq<char>, Option<Seq<char>>)>>;

/// The views of a list of (match, group) pairs.
pub open spec fn capture_views(v: Seq<(String, Option<String>)>) -> Seq<(Seq<char>, Option<Seq<char>>)> {
    v.map_values(|p: (String, Option<String>)| (p.0@, opt_view(p.1)))
}

/// `regex::Regex::new` and `Regex::replace_all`, each match replaced by one
/// of its groups. The result is named by `regex_replaced`.
#[verifier::external_body]
pub(crate) fn regex_replace_by_group(pattern: &str, text: &str, group: usize) -> (r: Option<String>)
    ensures
        opt_view(r) == regex_replaced(pattern@, text@, group as nat),
{
    match regex::Regex::new(pattern) {
        Ok(re) => Some(re.replace_all(text, |c: &regex::Captures| c.get(group).map_or("", |m| m.as_str()).to_string()).into_owned()),
        Err(_) => None,
    }
}

/// `regex::Regex::new` and `Regex::captures_iter`. The result is named by
/// `regex_capture_list`.
#[verifier::external_body]
pub(crate) fn regex_captures(pattern: &str, text: &str) -> (r: Option<Vec<(String, Option<String>)>>)
    ensures
        match r {
            Some(v) => regex_capture_list(pattern@, text@) == Some(capture_views(v@)),
            None => regex_capture_list(pattern@, text@) is None,
        },
{
    match regex::Regex::new(pattern) {
        Ok(re) => Some(re.captures_iter(text).map(|c| (c[0].to_string(), c.get(1).map(|m| m.as_str().to_string()))).collect()),
        Err(_) => None,
    }
}

} // verus!
