//! Which strings an HTTP header can carry as a value.
use vstd::prelude::*;

verus! {

/// A character that may stand in a header value: a tab, or any character
/// from U+0020 on except DEL (U+007F). (Every byte of a non-ASCII
/// character's UTF-8 form is at least 0x80, which header values accept.)
pub open spec fn header_char_ok(c: char) -> bool {
    c == '\t' || (c as u32 >= 0x20 && c as u32 != 0x7f)
}

/// A string that `HeaderValue::from_str` accepts.
pub open spec fn header_value_ok(s: Seq<char>) -> bool {
    forall|i: int| 0 <= i < s.len() ==> header_char_ok(#[trigger] s[i])
}

/// `reqwest::header::HeaderValue::from_str`: it succeeds exactly when every
/// byte is a tab or lies in 0x20..=0xFF other than 0x7F.
#[verifier::external_body]
pub(crate) fn header_value_accepted(s: &str) -> (r: bool)
    ensures
        r == header_value_ok(s@),
{
    reqwest::header::HeaderValue::from_str(s).is_ok()
}

} // verus!
