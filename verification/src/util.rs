//! Requests to the Twitch API and reading channel settings.
use crate::header::{header_char_ok, header_value_accepted, header_value_ok};
use crate::keys::{channel_field_key, settings_key};
use crate::text::{concat2, owned};
use crate::types::Setting;
use vstd::prelude::*;

verus! {

/// The views of a list of header (name, value) pairs.
pub open spec fn pair_views(v: Seq<(String, String)>) -> Seq<(Seq<char>, Seq<char>)> {
    v.map_values(|p: (String, String)| (p.0@, p.1@))
}

/// Every value in a header list is one a header can carry.
pub open spec fn values_ok(hs: Seq<(Seq<char>, Seq<char>)>) -> bool {
    forall|i: int| 0 <= i < hs.len() ==> header_value_ok(#[trigger] hs[i].1)
}

/// The headers of a request to the Twitch v5 API on behalf of a channel
/// whose access token is `token`; `form` adds the form content type for
/// requests that carry a body.
pub open spec fn twitch_header_list(token: Seq<char>, client_id: Seq<char>, form: bool) -> Seq<(Seq<char>, Seq<char>)> {
    let base = seq![
        ("Accept"@, "application/vnd.twitchtv.v5+json"@),
        ("Authorization"@, "OAuth "@ + token),
        ("Client-ID"@, client_id),
    ];
    if form {
        base.push(("Content-Type"@, "application/x-www-form-urlencoded"@))
    } else {
        base
    }
}

/// The header that authenticates a request to the Helix API with a token.
pub open spec fn bearer_header_list(token: Seq<char>) -> Seq<(Seq<char>, Seq<char>)> {
    seq![("Authorization"@, "Bearer "@ + token)]
}

proof fn lemma_header_value_concat(a: Seq<char>, b: Seq<char>)
    ensures
        header_value_ok(a + b) <==> header_value_ok(a) && header_value_ok(b),
{
    if header_value_ok(a + b) {
        assert forall|i: int| 0 <= i < a.len() implies header_char_ok(#[trigger] a[i]) by {
            assert((a + b)[i] == a[i]);
        }
        assert forall|i: int| 0 <= i < b.len() implies header_char_ok(#[trigger] b[i]) by {
            assert((a + b)[a.len() + i] == b[i]);
        }
    }
}

/// The Twitch headers can be built exactly when the token and the client
/// id hold only characters that a header value may hold.
pub proof fn twitch_headers_buildable(token: Seq<char>, client_id: Seq<char>, form: bool)
    ensures
        values_ok(twitch_header_list(token, client_id, form)) <==> header_value_ok(token) && header_value_ok(client_id),
{
    reveal_strlit("application/vnd.twitchtv.v5+json");
    reveal_strlit("OAuth ");
    reveal_strlit("application/x-www-form-urlencoded");
    lemma_header_value_concat("OAuth "@, token);
    let hs = twitch_header_list(token, client_id, form);
    assert(header_value_ok("application/vnd.twitchtv.v5+json"@));
    assert(header_value_ok("OAuth "@));
    assert(header_value_ok("application/x-www-form-urlencoded"@));
    if values_ok(hs) {
        assert(header_value_ok(hs[1].1));
        assert(header_value_ok(hs[2].1));
    }
}

/// The Helix header can be built exactly when the token holds only
/// characters that a header value may hold.
pub proof fn bearer_header_buildable(token: Seq<char>)
    ensures
        values_ok(bearer_header_list(token)) <==> header_value_ok(token),
{
    reveal_strlit("Bearer ");
    lemma_header_value_concat("Bearer "@, token);
    assert(header_value_ok("Bearer "@));
    if values_ok(bearer_header_list(token)) {
        assert(header_value_ok(bearer_header_list(token)[0].1));
    }
}

/// Returns the header list when every value in it can be carried by a
/// header, `None` otherwise.
pub fn checked_headers(pairs: Vec<(String, String)>) -> (r: Option<Vec<(String, String)>>)
    ensures
        r is Some <==> values_ok(pair_views(pairs@)),
        r matches Some(v) ==> pair_views(v@) == pair_views(pairs@),
{
    let mut i: usize = 0;
    while i < pairs.len()
        invariant
            i <= pairs.len(),
            forall|j: int| 0 <= j < i ==> header_value_ok(#[trigger] pair_views(pairs@)[j].1),
        decreases pairs.len() - i,
    {
        if !header_value_accepted(pairs[i].1.as_str()) {
            assert(!header_value_ok(pair_views(pairs@)[i as int].1));
            return None;
        }
        i += 1;
    }
    Some(pairs)
}

/// The headers of a Twitch v5 API request, or `None` when the token or the
/// client id holds a character that no header value may hold.
pub fn twitch_headers(token: &str, client_id: &str, form: bool) -> (r: Option<Vec<(String, String)>>)
    ensures
        r is Some <==> values_ok(twitch_header_list(token@, client_id@, form)),
        r matches Some(v) ==> pair_views(v@) == twitch_header_list(token@, client_id@, form),
{
    let mut hs: Vec<(String, String)> = Vec::new();
    hs.push((owned("Accept"), owned("application/vnd.twitchtv.v5+json")));
    hs.push((owned("Authorization"), concat2("OAuth ", token)));
    hs.push((owned("Client-ID"), owned(client_id)));
    if form {
        hs.push((owned("Content-Type"), owned("application/x-www-form-urlencoded")));
    }
    assert(pair_views(hs@) =~= twitch_header_list(token@, client_id@, form));
    checked_headers(hs)
}

/// The header of a Helix API request made with a user's token, or `None`
/// when the token holds a character that no header value may hold.
pub fn bearer_headers(token: &str) -> (r: Option<Vec<(String, String)>>)
    ensures
        r is Some <==> values_ok(bearer_header_list(token@)),
        r matches Some(v) ==> pair_views(v@) == bearer_header_list(token@),
{
    let mut hs: Vec<(String, String)> = Vec::new();
    hs.push((owned("Authorization"), concat2("Bearer ", token)));
    assert(pair_views(hs@) =~= bearer_header_list(token@));
    checked_headers(hs)
}

/// The key of a channel's settings hash.
pub fn channel_settings_key(channel: &str) -> (r: String)
    ensures
        r@ == settings_key(channel@),
{
    channel_field_key(channel, "settings")
}

/// A setting read from a channel's settings hash: the text stored under
/// the field when it reads as text, else the flag when it reads as a flag,
/// else `false`. `flag` is only looked at when `text` is `None`.
pub fn setting_from_lookups(text: Option<String>, flag: Option<bool>) -> (r: Setting)
    ensures
        match text {
            Some(t) => r matches Setting::String(s) && s@ == t@,
            None => r == Setting::Bool(
                match flag {
                    Some(b) => b,
                    None => false,
                },
            ),
        },
{
    match text {
        Some(t) => Setting::String(t),
        None => match flag {
            Some(b) => Setting::Bool(b),
            None => Setting::Bool(false),
        },
    }
}

} // verus!
