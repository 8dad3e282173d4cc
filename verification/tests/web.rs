use babblebot::auth::{auth_outcome, session_claims, AuthOutcome, BAD_REQUEST, SESSION_SECS};
use babblebot::secret::{check_password, hash_password};
use babblebot::store::RedisWrite;
use babblebot::types::{
    ApiGameReq, ApiLoginReq, ApiPasswordReq, ApiRsp, ApiSignupReq, ApiTitleReq, Auth, AuthError,
    HelixGames, HelixGamesData, HelixUsers, HelixUsersData, KrakenChannel,
};
use babblebot::web::{
    data_begin, data_step, game_begin, game_step, internal_error, login_begin, login_step, not_found,
    password_begin, password_step, signup_begin, signup_step, title_begin, title_step, Action, DataState,
    Event, Fault, GameState, HttpCall, HttpMethod, LoginState, PasswordState, SignupState, TitleState,
};
use std::collections::{HashMap, HashSet};

fn s(x: &str) -> String {
    x.to_string()
}

fn ok() -> ApiRsp {
    ApiRsp { success: true, field: None, success_value: None, error_message: None }
}

fn err(field: &str, msg: &str) -> ApiRsp {
    ApiRsp { success: false, field: Some(s(field)), success_value: None, error_message: Some(s(msg)) }
}

fn kraken(status: &str, game: &str) -> KrakenChannel {
    KrakenChannel {
        status: s(status),
        game: s(game),
        name: s("abc"),
        logo: s(""),
        url: s(""),
        display_name: s("Abc"),
    }
}

fn twitch(token: &str, form: bool) -> Vec<(String, String)> {
    let mut v = vec![
        (s("Accept"), s("application/vnd.twitchtv.v5+json")),
        (s("Authorization"), format!("OAuth {}", token)),
        (s("Client-ID"), s("cid")),
    ];
    if form {
        v.push((s("Content-Type"), s("application/x-www-form-urlencoded")));
    }
    v
}

#[derive(Default)]
struct Store {
    strings: HashMap<String, String>,
    sets: HashMap<String, HashSet<String>>,
    lists: HashMap<String, Vec<String>>,
}

impl Store {
    fn apply(&mut self, ws: &[RedisWrite]) {
        for w in ws {
            match w {
                RedisWrite::SetValue { key, value } => {
                    self.strings.insert(key.clone(), value.clone());
                }
                RedisWrite::AddMember { key, member } => {
                    self.sets.entry(key.clone()).or_default().insert(member.clone());
                }
                RedisWrite::Publish { .. } => {}
            }
        }
    }
    fn member(&self, set: &str, m: &str) -> bool {
        self.sets.get(set).map_or(false, |x| x.contains(m))
    }
}

fn run_login(store: &Store, channel: &str, password: &str, now: Option<u64>) -> Action {
    let (mut st, mut act) = login_begin(ApiLoginReq { channel: s(channel), password: s(password) });
    loop {
        let ev = match &act {
            Action::IsMember { set, member } => Event::Member(store.member(set, member)),
            Action::Get { key } => Event::Text(store.strings[key].clone()),
            Action::ReadClock => Event::Clock(now),
            _ => return act,
        };
        let (a, b) = login_step(st, ev);
        st = a;
        act = b;
    }
}

#[test]
fn catchers_answer_with_status_codes() {
    assert_eq!(internal_error(), "500");
    assert_eq!(not_found(), "404");
}

#[test]
fn session_claims_expire_after_the_session_length() {
    assert_eq!(SESSION_SECS, 2400000);
    assert_eq!(session_claims(s("abc"), 1000), Auth { channel: s("abc"), exp: 2401000 });
}

#[test]
fn auth_outcome_by_session_and_header() {
    let a = || Auth { channel: s("abc"), exp: 5 };
    assert_eq!(auth_outcome(false, Some(a())), AuthOutcome::Success(a()));
    assert_eq!(auth_outcome(true, Some(a())), AuthOutcome::Success(a()));
    assert_eq!(auth_outcome(false, None), AuthOutcome::Forward);
    assert_eq!(auth_outcome(true, None), AuthOutcome::Failure(BAD_REQUEST, AuthError::Missing));
    assert_eq!(BAD_REQUEST, 400);
}

#[test]
fn passwords_hash_and_check() {
    let h = hash_password("hunter2").unwrap();
    assert_ne!(h, "hunter2");
    assert_eq!(check_password("hunter2", &h), Some(true));
    assert_eq!(check_password("hunter3", &h), Some(false));
    assert_eq!(check_password("hunter2", "not a hash"), None);
}

fn signed_up_store() -> Store {
    let mut store = Store::default();
    store.lists.insert(s("invites"), vec![s("inv1")]);
    let req = ApiSignupReq { token: s("usertok"), refresh: s("r"), password: s("pw"), invite: s("inv1") };
    let (mut st, mut act) = signup_begin(req);
    loop {
        let ev = match &act {
            Action::Http(HttpCall { method: HttpMethod::Get, url, headers, body: None }) => {
                assert_eq!(url, "https://api.twitch.tv/helix/users");
                assert_eq!(headers, &vec![(s("Authorization"), s("Bearer usertok"))]);
                Event::Users(Some(HelixUsers {
                    data: vec![HelixUsersData { id: s("42"), login: s("newchan"), display_name: s("NewChan") }],
                }))
            }
            Action::IsMember { set, member } => Event::Member(store.member(set, member)),
            Action::ListRemove { key, count, value } => {
                assert_eq!(*count, 1);
                let l = store.lists.get_mut(key).unwrap();
                let before = l.len();
                l.retain(|x| x != value);
                Event::Removed((before - l.len()) as i64)
            }
            Action::ReadBotSettings => Event::BotSettings { name: s("babblerbot"), token: s("bottok") },
            Action::Write(ws) => {
                store.apply(ws);
                Event::Written
            }
            Action::ReadClock => Event::Clock(Some(10)),
            Action::RespondWithSession(r, a) => {
                assert_eq!(r, &ok());
                assert_eq!(a, &Auth { channel: s("newchan"), exp: 10 + SESSION_SECS });
                return store;
            }
            other => panic!("unexpected {:?}", other),
        };
        let (a, b) = signup_step(st, ev);
        st = a;
        act = b;
    }
}

#[test]
fn signup_writes_the_channel() {
    let store = signed_up_store();
    assert!(store.member("bots", "babblerbot"));
    assert!(store.member("channels", "newchan"));
    assert!(store.member("bot:babblerbot:channels", "newchan"));
    assert_eq!(store.strings["bot:babblerbot:token"], "bottok");
    assert_eq!(store.strings["channel:newchan:bot"], "babblerbot");
    assert_eq!(store.strings["channel:newchan:token"], "usertok");
    assert_eq!(store.strings["channel:newchan:live"], "0");
    assert_eq!(store.strings["channel:newchan:id"], "42");
    assert_eq!(store.strings["channel:newchan:display_name"], "NewChan");
    assert_eq!(check_password("pw", &store.strings["channel:newchan:password"]), Some(true));
    assert!(store.lists["invites"].is_empty());
}

#[test]
fn signup_then_login_succeeds() {
    let store = signed_up_store();
    match run_login(&store, "NewChan", "pw", Some(7)) {
        Action::RespondWithSession(r, a) => {
            assert_eq!(r, ok());
            assert_eq!(a, Auth { channel: s("newchan"), exp: 7 + SESSION_SECS });
        }
        other => panic!("unexpected {:?}", other),
    }
    assert_eq!(run_login(&store, "newchan", "pw", None), Action::Respond(ok()));
}

#[test]
fn login_refuses_unknown_channel_and_wrong_password() {
    let store = signed_up_store();
    assert_eq!(run_login(&store, "other", "pw", Some(7)), Action::Respond(err("channel", "channel not found")));
    assert_eq!(run_login(&store, "newchan", "bad", Some(7)), Action::Respond(err("password", "invalid password")));
}

#[test]
fn login_gives_up_on_unreadable_hash_and_late_clock() {
    let mut store = Store::default();
    store.apply(&[
        RedisWrite::AddMember { key: s("channels"), member: s("c") },
        RedisWrite::SetValue { key: s("channel:c:password"), value: s("garbage") },
    ]);
    assert_eq!(run_login(&store, "c", "pw", Some(1)), Action::Fault(Fault::UnreadableHash));
    let h = hash_password("pw").unwrap();
    store.apply(&[RedisWrite::SetValue { key: s("channel:c:password"), value: h }]);
    assert_eq!(run_login(&store, "c", "pw", Some(u64::MAX)), Action::Fault(Fault::ClockOutOfRange));
}

#[test]
fn login_out_of_order_event_is_a_fault() {
    let (st, _) = login_begin(ApiLoginReq { channel: s("c"), password: s("p") });
    assert_eq!(login_step(st, Event::Written), (LoginState::Finished, Action::Fault(Fault::UnexpectedEvent)));
}

#[test]
fn signup_refusals() {
    let req = || ApiSignupReq { token: s("t"), refresh: s("r"), password: s("pw"), invite: s("i") };
    let user = || HelixUsersData { id: s("1"), login: s("u"), display_name: s("U") };
    assert_eq!(signup_begin(ApiSignupReq { token: s("t\n"), refresh: s(""), password: s(""), invite: s("") }).1,
        Action::Respond(err("token", "invalid access code")));
    let (st, _) = signup_begin(req());
    assert_eq!(signup_step(st, Event::Users(None)).1, Action::Respond(err("token", "invalid access code")));
    let (st, _) = signup_begin(req());
    assert_eq!(signup_step(st, Event::Users(Some(HelixUsers { data: vec![] }))).1, Action::Fault(Fault::NoUser));
    let st = SignupState::AwaitMember { req: req(), user: user() };
    assert_eq!(signup_step(st, Event::Member(true)).1, Action::Respond(err("token", "invalid access code")));
    let st = SignupState::AwaitInvite { req: req(), user: user() };
    assert_eq!(signup_step(st, Event::Removed(0)).1, Action::Respond(err("invite", "invalid invite code")));
}

#[test]
fn password_change_refuses_empty_and_stores_hash() {
    let (st, a) = password_begin("abc", ApiPasswordReq { password: s("") });
    assert_eq!(st, PasswordState::Finished);
    assert_eq!(a, Action::Respond(err("password", "empty password")));
    let (st, a) = password_begin("abc", ApiPasswordReq { password: s("newpw") });
    assert_eq!(st, PasswordState::AwaitWrite);
    let mut store = Store::default();
    store.apply(&[RedisWrite::AddMember { key: s("channels"), member: s("abc") }]);
    match &a {
        Action::Write(ws) => {
            assert_eq!(ws.len(), 1);
            match &ws[0] {
                RedisWrite::SetValue { key, value } => {
                    assert_eq!(key, "channel:abc:password");
                    assert_eq!(check_password("newpw", value), Some(true));
                }
                other => panic!("unexpected {:?}", other),
            }
            store.apply(ws);
        }
        other => panic!("unexpected {:?}", other),
    }
    assert_eq!(password_step(st, Event::Written), (PasswordState::Finished, Action::Respond(ok())));
    assert_eq!(run_login(&store, "ABC", "newpw", None), Action::Respond(ok()));
}

#[test]
fn data_reads_id_token_and_shows_status_and_game() {
    let (st, a) = data_begin(s("abc"), s("cid"));
    assert_eq!(a, Action::Get { key: s("channel:abc:id") });
    let (st, a) = data_step(st, Event::Text(s("99")));
    assert_eq!(a, Action::Get { key: s("channel:abc:token") });
    let (st, a) = data_step(st, Event::Text(s("tok")));
    assert_eq!(a, Action::Http(HttpCall {
        method: HttpMethod::Get,
        url: s("https://api.twitch.tv/kraken/channels/99"),
        headers: twitch("tok", false),
        body: None,
    }));
    assert_eq!(st, DataState::AwaitChannel);
    match data_step(DataState::AwaitChannel, Event::Channel(Some(kraken("Live!", "Chess")))).1 {
        Action::RespondData(d) => {
            assert_eq!(d.fields, vec![(s("status"), s("Live!")), (s("game"), s("Chess"))]);
            assert!(d.commands.is_empty() && d.songreqs.is_empty());
        }
        other => panic!("unexpected {:?}", other),
    }
    match data_step(st, Event::Channel(None)).1 {
        Action::RespondData(d) => assert!(d.fields.is_empty()),
        other => panic!("unexpected {:?}", other),
    }
}

#[test]
fn data_gives_up_on_a_token_no_header_can_carry() {
    let (st, _) = data_begin(s("abc"), s("cid"));
    let (st, _) = data_step(st, Event::Text(s("99")));
    assert_eq!(data_step(st, Event::Text(s("bad\ntok"))), (DataState::Finished, Action::Fault(Fault::InvalidHeaderValue)));
}

#[test]
fn title_puts_status_and_reports_twitch_errors() {
    let (st, a) = title_begin(s("abc"), s("cid"), ApiTitleReq { title: s("Hello there") });
    assert_eq!(a, Action::Get { key: s("channel:abc:id") });
    let (st, a) = title_step(st, Event::Text(s("7")));
    assert_eq!(a, Action::Get { key: s("channel:abc:token") });
    let (st, a) = title_step(st, Event::Text(s("tok")));
    assert_eq!(a, Action::Http(HttpCall {
        method: HttpMethod::Put,
        url: s("https://api.twitch.tv/kraken/channels/7"),
        headers: twitch("tok", true),
        body: Some(s("channel[status]=Hello there")),
    }));
    assert_eq!(st, TitleState::AwaitChannel);
    assert_eq!(title_step(TitleState::AwaitChannel, Event::Channel(Some(kraken("x", "y")))).1, Action::Respond(ok()));
    assert_eq!(title_step(st, Event::Channel(None)).1, Action::Respond(err("title-field", "twitch api error")));
}

#[test]
fn game_searches_then_sets_the_first_match() {
    let (st, _) = game_begin(s("abc"), s("cid"), ApiGameReq { game: s("chess") });
    let (st, _) = game_step(st, Event::Text(s("7")));
    let (st, a) = game_step(st, Event::Text(s("tok")));
    assert_eq!(a, Action::Http(HttpCall {
        method: HttpMethod::Get,
        url: s("https://api.twitch.tv/helix/games?name=chess"),
        headers: twitch("tok", true),
        body: None,
    }));
    let games = HelixGames { data: vec![HelixGamesData { name: s("Chess") }, HelixGamesData { name: s("Chess 2") }] };
    let (st, a) = game_step(st, Event::Games(Some(games)));
    assert_eq!(a, Action::Http(HttpCall {
        method: HttpMethod::Put,
        url: s("https://api.twitch.tv/kraken/channels/7"),
        headers: twitch("tok", true),
        body: Some(s("channel[game]=Chess")),
    }));
    assert_eq!(st, GameState::AwaitChannel { name: s("Chess") });
    let expected = ApiRsp { success: true, field: Some(s("game")), success_value: Some(s("Chess")), error_message: None };
    assert_eq!(game_step(st, Event::Channel(Some(kraken("x", "Chess")))).1, Action::Respond(expected));
    assert_eq!(game_step(GameState::AwaitChannel { name: s("Chess") }, Event::Channel(None)).1,
        Action::Respond(err("game", "twitch api error")));
}

#[test]
fn game_not_found_replies() {
    let st = || GameState::AwaitGames { client_id: s("cid"), token: s("tok"), id: s("7") };
    assert_eq!(game_step(st(), Event::Games(None)).1, Action::Respond(err("game", "game not found")));
    assert_eq!(game_step(st(), Event::Games(Some(HelixGames { data: vec![] }))).1, Action::Respond(err("game", "game not found")));
}

#[test]
fn signup_then_data_uses_the_stored_id_and_token() {
    let store = signed_up_store();
    let (mut st, mut act) = data_begin(s("newchan"), s("cid"));
    for _ in 0..2 {
        let ev = match &act {
            Action::Get { key } => Event::Text(store.strings[key].clone()),
            other => panic!("unexpected {:?}", other),
        };
        let (a, b) = data_step(st, ev);
        st = a;
        act = b;
    }
    assert_eq!(act, Action::Http(HttpCall {
        method: HttpMethod::Get,
        url: s("https://api.twitch.tv/kraken/channels/42"),
        headers: twitch("usertok", false),
        body: None,
    }));
}

fn bcrypt_form_at_default_cost(h: &str) -> bool {
    h.len() == 60
        && h.starts_with("$2b$12$")
        && h[7..].chars().all(|c| c == '.' || c == '/' || c.is_ascii_alphanumeric())
}

#[test]
fn stored_password_hashes_are_bcrypt_at_the_default_cost() {
    let h = hash_password("hunter2").unwrap();
    assert!(bcrypt_form_at_default_cost(&h));
    let store = signed_up_store();
    assert!(bcrypt_form_at_default_cost(&store.strings["channel:newchan:password"]));
    match password_begin("abc", ApiPasswordReq { password: s("pw") }).1 {
        Action::Write(ws) => match &ws[0] {
            RedisWrite::SetValue { value, .. } => assert!(bcrypt_form_at_default_cost(value)),
            other => panic!("unexpected {:?}", other),
        },
        other => panic!("unexpected {:?}", other),
    }
}

#[test]
fn login_ignores_the_case_of_the_channel() {
    let store = signed_up_store();
    assert_eq!(run_login(&store, "NEWCHAN", "pw", None), run_login(&store, "newchan", "pw", None));
    assert_eq!(run_login(&store, "NewChan", "bad", None), run_login(&store, "newchan", "bad", None));
}
