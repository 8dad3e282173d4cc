use babblebot::keys::{
    bot_field_key, channel_command_key, channel_field_key, game_form, helix_games_endpoint,
    kraken_channel_endpoint, status_form,
};
use babblebot::text::{chars_of, concat2, concat3, lower, owned, replace_first, split_words, string_from_chars};
use babblebot::util::{bearer_headers, channel_settings_key, checked_headers, setting_from_lookups, twitch_headers};
use babblebot::types::Setting;

fn strs(v: &[&str]) -> Vec<String> {
    v.iter().map(|s| s.to_string()).collect()
}

#[test]
fn split_words_drops_runs_of_whitespace() {
    assert_eq!(split_words("  !Cmd   a b\tc \n"), strs(&["!Cmd", "a", "b", "c"]));
}

#[test]
fn split_words_of_blank_text_is_empty() {
    assert_eq!(split_words(""), Vec::<String>::new());
    assert_eq!(split_words(" \t\r\n"), Vec::<String>::new());
}

#[test]
fn split_words_knows_unicode_whitespace() {
    assert_eq!(split_words("a\u{3000}b\u{a0}c\u{2003}d\u{85}e"), strs(&["a", "b", "c", "d", "e"]));
    // U+200B is not whitespace.
    assert_eq!(split_words("a\u{200b}b"), strs(&["a\u{200b}b"]));
}

#[test]
fn split_words_matches_std() {
    for s in ["x", " lead", "trail ", "mid  dle", "\u{1680}ogham\u{1680}", "tab\tsep\u{2028}line"] {
        let expect: Vec<String> = s.split_whitespace().map(|w| w.to_string()).collect();
        assert_eq!(split_words(s), expect);
    }
}

#[test]
fn replace_first_replaces_only_the_leftmost() {
    assert_eq!(replace_first("hi (x) and (x)", "(x)", "Y"), "hi Y and (x)");
}

#[test]
fn replace_first_without_occurrence_is_identity() {
    assert_eq!(replace_first("hello", "(x)", "Y"), "hello");
    assert_eq!(replace_first("ab", "abc", "Y"), "ab");
}

#[test]
fn replace_first_with_empty_pattern_prepends() {
    assert_eq!(replace_first("abc", "", "Y"), "Yabc");
}

#[test]
fn replace_first_handles_overlaps_and_unicode() {
    assert_eq!(replace_first("aaab", "aab", "X"), "aX");
    assert_eq!(replace_first("héllo wörld", "wö", "WO"), "héllo WOrld");
}

#[test]
fn lower_lowercases_unicode() {
    assert_eq!(lower("HeLLo"), "hello");
    assert_eq!(lower("ÄBC"), "äbc");
}

#[test]
fn string_helpers_build_what_they_say() {
    assert_eq!(owned("abc"), "abc");
    assert_eq!(concat2("ab", "cd"), "abcd");
    assert_eq!(concat3("a", "b", "c"), "abc");
    let cs = chars_of("héllo");
    assert_eq!(cs, vec!['h', 'é', 'l', 'l', 'o']);
    assert_eq!(string_from_chars(&cs, 1, 4), "éll");
}

#[test]
fn keys_are_formatted_as_redis_expects() {
    assert_eq!(channel_field_key("abc", "password"), "channel:abc:password");
    assert_eq!(bot_field_key("babblerbot", "channels"), "bot:babblerbot:channels");
    assert_eq!(channel_command_key("abc", "!hi"), "channel:abc:commands:!hi");
    assert_eq!(channel_settings_key("abc"), "channel:abc:settings");
}

#[test]
fn twitch_endpoints_and_bodies() {
    assert_eq!(kraken_channel_endpoint("123"), "https://api.twitch.tv/kraken/channels/123");
    assert_eq!(helix_games_endpoint("Chess"), "https://api.twitch.tv/helix/games?name=Chess");
    assert_eq!(status_form("New title"), "channel[status]=New title");
    assert_eq!(game_form("Chess"), "channel[game]=Chess");
}

fn pairs(v: &[(&str, &str)]) -> Vec<(String, String)> {
    v.iter().map(|(a, b)| (a.to_string(), b.to_string())).collect()
}

#[test]
fn twitch_headers_carry_token_and_client_id() {
    assert_eq!(
        twitch_headers("tok", "cid", false),
        Some(pairs(&[
            ("Accept", "application/vnd.twitchtv.v5+json"),
            ("Authorization", "OAuth tok"),
            ("Client-ID", "cid"),
        ]))
    );
    assert_eq!(
        twitch_headers("tok", "cid", true),
        Some(pairs(&[
            ("Accept", "application/vnd.twitchtv.v5+json"),
            ("Authorization", "OAuth tok"),
            ("Client-ID", "cid"),
            ("Content-Type", "application/x-www-form-urlencoded"),
        ]))
    );
}

#[test]
fn twitch_headers_refuse_control_characters() {
    assert_eq!(twitch_headers("to\nk", "cid", false), None);
    assert_eq!(twitch_headers("tok", "c\u{7f}id", true), None);
    // Tabs and non-ASCII characters are accepted.
    assert!(twitch_headers("t\tok", "cïd", false).is_some());
}

#[test]
fn bearer_headers_carry_the_token() {
    assert_eq!(bearer_headers("abc"), Some(pairs(&[("Authorization", "Bearer abc")])));
    assert_eq!(bearer_headers("a\rb"), None);
}

#[test]
fn checked_headers_pass_valid_lists_through() {
    let hs = pairs(&[("A", "x y"), ("B", "z")]);
    assert_eq!(checked_headers(hs.clone()), Some(hs));
    assert_eq!(checked_headers(pairs(&[("A", "ok"), ("B", "\u{0}")])), None);
}

#[test]
fn settings_prefer_text_then_flag_then_false() {
    assert_eq!(setting_from_lookups(Some("on".to_string()), Some(true)), Setting::String("on".to_string()));
    assert_eq!(setting_from_lookups(None, Some(true)), Setting::Bool(true));
    assert_eq!(setting_from_lookups(None, None), Setting::Bool(false));
}

#[test]
fn words_are_nonblank_and_keep_every_other_char() {
    let text = " a\u{2003}bc \t d\u{3000}";
    let ws = split_words(text);
    assert!(ws.iter().all(|w| !w.is_empty() && !w.chars().any(char::is_whitespace)));
    let joined: String = ws.concat();
    let kept: String = text.chars().filter(|c| !c.is_whitespace()).collect();
    assert_eq!(joined, kept);
}

#[test]
fn whitespace_separates_words() {
    let mut joined = split_words("ab  c");
    joined.extend(split_words(" d\te "));
    assert_eq!(split_words("ab  c\u{a0} d\te "), joined);
    assert_eq!(split_words("abc"), strs(&["abc"]));
}
