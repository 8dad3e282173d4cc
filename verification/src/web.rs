//! The dashboard's web endpoints. Each endpoint that talks to redis, to
//! Twitch or to the clock is a state machine: it starts from the request,
//! asks for one piece of outside work at a time (an `Action`), and is handed
//! back what that work gave (an `Event`), until it answers.
use crate::auth::{session_claims, SESSION_SECS};
use crate::keys::{
    channel_field_key, channels_set, game_body, helix_games_url, id_key, kraken_channel_url,
    password_key, status_body, token_key, helix_users_url, channel_key, bot_key, bot_field_key,
    kraken_channel_endpoint, helix_games_endpoint, status_form, game_form,
};
use crate::secret::{bcrypt_check, check_password, hash_password, stored_hash_of};
use crate::store::{ops_of, RedisWrite, StoreOp};
use crate::text::{lower, lowercase, opt_view, owned};
use crate::types::{
    ApiData, ApiGameReq, ApiLoginReq, ApiPasswordReq, ApiRsp, ApiSignupReq, ApiTitleReq, Auth,
    HelixGames, HelixUsers, HelixUsersData, KrakenChannel,
};
use crate::util::{
    bearer_header_list, bearer_headers, pair_views, twitch_header_list, twitch_headers, values_ok,
};
use vstd::prelude::*;

verus! {

/// Body of the reply when a request fails inside the server.
pub fn internal_error() -> (body: &'static str)
    ensures
        body@ == "500"@,
{
    "500"
}

/// Body of the reply when no route matches a request.
pub fn not_found() -> (body: &'static str)
    ensures
        body@ == "404"@,
{
    "404"
}

// ---------------------------------------------------------------------
// Outside work and its results.
/// The HTTP method of a call to Twitch.
#[derive(Debug, PartialEq, Eq)]
pub enum HttpMethod {
    Get,
    Put,
}

/// A call to the Twitch API.
#[derive(Debug, PartialEq, Eq)]
pub struct HttpCall {
    pub method: HttpMethod,
    pub url: String,
    pub headers: Vec<(String, String)>,
    pub body: Option<String>,
}

/// Why an endpoint gives up on a request (the server answers it with an
/// internal error).
#[derive(Debug, PartialEq, Eq)]
pub enum Fault {
    /// A value read from the store cannot be carried by an HTTP header.
    InvalidHeaderValue,
    /// The stored password hash is not a bcrypt hash.
    UnreadableHash,
    /// No password hash could be made.
    HashFailed,
    /// Twitch described no user for the token.
    NoUser,
    /// The clock reads a time too late for a session to expire after it.
    ClockOutOfRange,
    /// The event does not answer the action asked for.
    UnexpectedEvent,
}

/// The outside work an endpoint asks for next.
#[derive(Debug, PartialEq, Eq)]
pub enum Action {
    /// `SISMEMBER set member`; answered by `Event::Member`.
    IsMember { set: String, member: String },
    /// `GET key`; answered by `Event::Text`.
    Get { key: String },
    /// `LREM key count value`; answered by `Event::Removed`.
    ListRemove { key: String, count: i64, value: String },
    /// Read the bot's name and token from the settings; answered by
    /// `Event::BotSettings`.
    ReadBotSettings,
    /// Perform these writes in order; answered by `Event::Written`.
    Write(Vec<RedisWrite>),
    /// Call Twitch; answered by `Event::Channel`, `Event::Users` or
    /// `Event::Games`, by what the endpoint expects.
    Http(HttpCall),
    /// Read the time since the Unix epoch; answered by `Event::Clock`.
    ReadClock,
    /// Answer the request.
    Respond(ApiRsp),
    /// Answer the request and open a session with these claims.
    RespondWithSession(ApiRsp, Auth),
    /// Answer the request with dashboard data.
    RespondData(ApiData),
    /// Give up on the request.
    Fault(Fault),
}

/// What a piece of outside work gave.
#[derive(Debug, PartialEq, Eq)]
pub enum Event {
    Member(bool),
    Text(String),
    Removed(i64),
    BotSettings { name: String, token: String },
    Written,
    /// Seconds since the Unix epoch; `None` when the clock reads earlier.
    Clock(Option<u64>),
    /// The channel Twitch described; `None` when the call or its parse failed.
    Channel(Option<KrakenChannel>),
    /// The users Twitch described; `None` when the call or its parse failed.
    Users(Option<HelixUsers>),
    /// The games Twitch found; `None` when the call or its parse failed.
    Games(Option<HelixGames>),
}

// ---------------------------------------------------------------------
// Describing replies.
/// `r` is the reply with these fields.
pub open spec fn rsp_is(
    r: ApiRsp,
    success: bool,
    field: Option<Seq<char>>,
    value: Option<Seq<char>>,
    error: Option<Seq<char>>,
) -> bool {
    &&& r.success == success
    &&& opt_view(r.field) == field
    &&& opt_view(r.success_value) == value
    &&& opt_view(r.error_message) == error
}

/// `a` answers with a plain success.
pub open spec fn responds_ok(a: Action) -> bool {
    a matches Action::Respond(r) && rsp_is(r, true, None, None, None)
}

/// `a` answers with a failure that names the form field at fault.
pub open spec fn responds_err(a: Action, field: Seq<char>, error: Seq<char>) -> bool {
    a matches Action::Respond(r) && rsp_is(r, false, Some(field), None, Some(error))
}

/// `a` is the Twitch call with these parts.
pub open spec fn calls(
    a: Action,
    method: HttpMethod,
    url: Seq<char>,
    headers: Seq<(Seq<char>, Seq<char>)>,
    body: Option<Seq<char>>,
) -> bool {
    &&& a matches Action::Http(c)
    &&& c.method == method
    &&& c.url@ == url
    &&& pair_views(c.headers@) == headers
    &&& opt_view(c.body) == body
}

/// `a` reads the string value under `key`.
pub open spec fn gets(a: Action, key: Seq<char>) -> bool {
    a matches Action::Get { key: k } && k@ == key
}

/// `a` asks whether `member` is in the set `set`.
pub open spec fn asks_member(a: Action, set: Seq<char>, member: Seq<char>) -> bool {
    a matches Action::IsMember { set: s, member: m } && s@ == set && m@ == member
}

/// `a` answers with success and opens a session for `channel` that
/// expires `SESSION_SECS` after `now`.
pub open spec fn opens_session(a: Action, channel: Seq<char>, now: u64) -> bool {
    &&& a matches Action::RespondWithSession(r, auth)
    &&& rsp_is(r, true, None, None, None)
    &&& auth.channel@ == channel
    &&& auth.exp == now + SESSION_SECS
}

/// What a session-opening endpoint does with the clock's reading.
pub open spec fn after_clock(channel: Seq<char>, clock: Option<u64>, a: Action) -> bool {
    match clock {
        None => responds_ok(a),
        Some(now) => if now + SESSION_SECS <= u64::MAX {
            opens_session(a, channel, now)
        } else {
            a == Action::Fault(Fault::ClockOutOfRange)
        },
    }
}

fn ok_rsp() -> (r: ApiRsp)
    ensures
        rsp_is(r, true, None, None, None),
{
    ApiRsp { success: true, field: None, success_value: None, error_message: None }
}

fn err_rsp(field: &str, error: &str) -> (r: ApiRsp)
    ensures
        rsp_is(r, false, Some(field@), None, Some(error@)),
{
    ApiRsp { success: false, field: Some(owned(field)), success_value: None, error_message: Some(owned(error)) }
}

fn respond_after_clock(channel: String, clock: Option<u64>) -> (a: Action)
    ensures
        after_clock(channel@, clock, a),
{
    match clock {
        None => Action::Respond(ok_rsp()),
        Some(now) => if now <= u64::MAX - SESSION_SECS {
            Action::RespondWithSession(ok_rsp(), session_claims(channel, now))
        } else {
            Action::Fault(Fault::ClockOutOfRange)
        },
    }
}

// ---------------------------------------------------------------------
// POST /api/login
/// Where a login stands.
#[derive(Debug, PartialEq, Eq)]
pub enum LoginState {
    /// Waiting to learn whether the channel exists.
    AwaitMember { channel: String, password: String },
    /// Waiting for the channel's stored password hash.
    AwaitHash { channel: String, password: String },
    /// Waiting for the clock, to open the session.
    AwaitClock { channel: String },
    Finished,
}

/// How a login for `req` starts: it asks whether the channel, lowercased,
/// is one the bot serves.
pub open spec fn login_start(req: ApiLoginReq, s: LoginState, a: Action) -> bool {
    &&& s matches LoginState::AwaitMember { channel, password } && channel@ == lowercase(req.channel@)
        && password@ == req.password@
    &&& asks_member(a, channels_set(), lowercase(req.channel@))
}

/// Starts a login.
pub fn login_begin(req: ApiLoginReq) -> (r: (LoginState, Action))
    ensures
        login_start(req, r.0, r.1),
{
    let channel = lower(req.channel.as_str());
    let member = channel.clone();
    (LoginState::AwaitMember { channel, password: req.password }, Action::IsMember { set: owned("channels"), member })
}

/// One step of a login.
pub open spec fn login_next(s: LoginState, e: Event, s2: LoginState, a: Action) -> bool {
    match s {
        LoginState::AwaitMember { channel, password } => match e {
            Event::Member(false) => s2 is Finished && responds_err(a, "channel"@, "channel not found"@),
            Event::Member(true) => {
                &&& s2 matches LoginState::AwaitHash { channel: c, password: p } && c@ == channel@ && p@ == password@
                &&& gets(a, password_key(channel@))
            },
            _ => s2 is Finished && a == Action::Fault(Fault::UnexpectedEvent),
        },
        LoginState::AwaitHash { channel, password } => match e {
            Event::Text(hash) => match bcrypt_check(password@, hash@) {
                Some(true) => s2 matches LoginState::AwaitClock { channel: c } && c@ == channel@ && a is ReadClock,
                Some(false) => s2 is Finished && responds_err(a, "password"@, "invalid password"@),
                None => s2 is Finished && a == Action::Fault(Fault::UnreadableHash),
            },
            _ => s2 is Finished && a == Action::Fault(Fault::UnexpectedEvent),
        },
        LoginState::AwaitClock { channel } => match e {
            Event::Clock(clock) => s2 is Finished && after_clock(channel@, clock, a),
            _ => s2 is Finished && a == Action::Fault(Fault::UnexpectedEvent),
        },
        LoginState::Finished => s2 is Finished && a == Action::Fault(Fault::UnexpectedEvent),
    }
}

/// Advances a login by the result of the work it asked for.
pub fn login_step(s: LoginState, e: Event) -> (r: (LoginState, Action))
    ensures
        login_next(s, e, r.0, r.1),
{
    match s {
        LoginState::AwaitMember { channel, password } => match e {
            Event::Member(false) => (LoginState::Finished, Action::Respond(err_rsp("channel", "channel not found"))),
            Event::Member(true) => {
                let key = channel_field_key(channel.as_str(), "password");
                (LoginState::AwaitHash { channel, password }, Action::Get { key })
            },
            _ => (LoginState::Finished, Action::Fault(Fault::UnexpectedEvent)),
        },
        LoginState::AwaitHash { channel, password } => match e {
            Event::Text(hash) => match check_password(password.as_str(), hash.as_str()) {
                Some(true) => (LoginState::AwaitClock { channel }, Action::ReadClock),
                Some(false) => (LoginState::Finished, Action::Respond(err_rsp("password", "invalid password"))),
                None => (LoginState::Finished, Action::Fault(Fault::UnreadableHash)),
            },
            _ => (LoginState::Finished, Action::Fault(Fault::UnexpectedEvent)),
        },
        LoginState::AwaitClock { channel } => match e {
            Event::Clock(clock) => (LoginState::Finished, respond_after_clock(channel, clock)),
            _ => (LoginState::Finished, Action::Fault(Fault::UnexpectedEvent)),
        },
        LoginState::Finished => (LoginState::Finished, Action::Fault(Fault::UnexpectedEvent)),
    }
}

// ---------------------------------------------------------------------
// POST /api/password
/// Where a password change stands.
#[derive(Debug, PartialEq, Eq)]
pub enum PasswordState {
    /// Waiting for the new hash to be stored.
    AwaitWrite,
    Finished,
}

/// `a` stores, under the channel's password key, a bcrypt hash at
/// `PASSWORD_COST` that bcrypt accepts for `password`.
pub open spec fn stores_password(a: Action, channel: Seq<char>, password: Seq<char>) -> bool {
    &&& a matches Action::Write(ws)
    &&& ws.len() == 1
    &&& ws[0] matches RedisWrite::SetValue { key, value }
    &&& key@ == password_key(channel)
    &&& stored_hash_of(password, value@)
}

/// A password change for the session's channel: an empty password is
/// refused; otherwise the password is hashed and the hash stored.
pub fn password_begin(channel: &str, req: ApiPasswordReq) -> (r: (PasswordState, Action))
    ensures
        req.password@.len() == 0 ==> r.0 is Finished && responds_err(r.1, "password"@, "empty password"@),
        req.password@.len() > 0 ==> (r.0 is AwaitWrite && stores_password(r.1, channel@, req.password@))
            || (r.0 is Finished && r.1 == Action::Fault(Fault::HashFailed)),
{
    if req.password.as_str().is_empty() {
        return (PasswordState::Finished, Action::Respond(err_rsp("password", "empty password")));
    }
    match hash_password(req.password.as_str()) {
        None => (PasswordState::Finished, Action::Fault(Fault::HashFailed)),
        Some(hash) => {
            let key = channel_field_key(channel, "password");
            let mut ws: Vec<RedisWrite> = Vec::new();
            ws.push(RedisWrite::SetValue { key, value: hash });
            (PasswordState::AwaitWrite, Action::Write(ws))
        },
    }
}

/// One step of a password change.
pub open spec fn password_next(s: PasswordState, e: Event, s2: PasswordState, a: Action) -> bool {
    &&& s2 is Finished
    &&& if s is AwaitWrite && e is Written {
        responds_ok(a)
    } else {
        a == Action::Fault(Fault::UnexpectedEvent)
    }
}

/// Advances a password change: once the hash is stored, it succeeds.
pub fn password_step(s: PasswordState, e: Event) -> (r: (PasswordState, Action))
    ensures
        password_next(s, e, r.0, r.1),
{
    match (s, e) {
        (PasswordState::AwaitWrite, Event::Written) => (PasswordState::Finished, Action::Respond(ok_rsp())),
        _ => (PasswordState::Finished, Action::Fault(Fault::UnexpectedEvent)),
    }
}

// ---------------------------------------------------------------------
// GET /api/data
/// Where a dashboard data request stands.
#[derive(Debug, PartialEq, Eq)]
pub enum DataState {
    AwaitId { channel: String, client_id: String },
    AwaitToken { client_id: String, id: String },
    AwaitChannel,
    Finished,
}

/// `d` is the dashboard data with these fields and nothing else.
pub open spec fn data_is(d: ApiData, fields: Seq<(Seq<char>, Seq<char>)>) -> bool {
    &&& d.channel@.len() == 0
    &&& d.state@.len() == 0
    &&& pair_views(d.fields@) == fields
    &&& d.commands@.len() == 0
    &&& d.notices@.len() == 0
    &&& d.settings@.len() == 0
    &&& d.blacklist@.len() == 0
    &&& d.keywords@.len() == 0
    &&& d.songreqs@.len() == 0
    &&& d.integrations@.len() == 0
}

/// The fields the dashboard shows of a channel Twitch described.
pub open spec fn channel_fields(status: Seq<char>, game: Seq<char>) -> Seq<(Seq<char>, Seq<char>)> {
    seq![("status"@, status), ("game"@, game)]
}

fn data_with(fields: Vec<(String, String)>) -> (d: ApiData)
    ensures
        data_is(d, pair_views(fields@)),
{
    ApiData {
        channel: String::new(),
        state: String::new(),
        fields,
        commands: Vec::new(),
        notices: Vec::new(),
        settings: Vec::new(),
        blacklist: Vec::new(),
        keywords: Vec::new(),
        songreqs: Vec::new(),
        integrations: Vec::new(),
    }
}

/// How a data request for `channel` starts: it reads the channel's Twitch
/// id.
pub open spec fn data_start(channel: Seq<char>, client_id: Seq<char>, s: DataState, a: Action) -> bool {
    &&& s matches DataState::AwaitId { channel: c, client_id: k } && c@ == channel && k@ == client_id
    &&& gets(a, id_key(channel))
}

/// Starts a data request for the session's channel. `client_id` is the
/// application's Twitch client id.
pub fn data_begin(channel: String, client_id: String) -> (r: (DataState, Action))
    ensures
        data_start(channel@, client_id@, r.0, r.1),
{
    let key = channel_field_key(channel.as_str(), "id");
    (DataState::AwaitId { channel, client_id }, Action::Get { key })
}

/// One step of a data request.
pub open spec fn data_next(s: DataState, e: Event, s2: DataState, a: Action) -> bool {
    match (s, e) {
        (DataState::AwaitId { channel, client_id }, Event::Text(id)) => {
            &&& s2 matches DataState::AwaitToken { client_id: k, id: i } && k@ == client_id@ && i@ == id@
            &&& gets(a, token_key(channel@))
        },
        (DataState::AwaitToken { client_id, id }, Event::Text(token)) => {
            let hs = twitch_header_list(token@, client_id@, false);
            if values_ok(hs) {
                s2 is AwaitChannel && calls(a, HttpMethod::Get, kraken_channel_url(id@), hs, None)
            } else {
                s2 is Finished && a == Action::Fault(Fault::InvalidHeaderValue)
            }
        },
        (DataState::AwaitChannel, Event::Channel(None)) => {
            &&& s2 is Finished
            &&& a matches Action::RespondData(d) && data_is(d, Seq::empty()) && d.well_formed()
        },
        (DataState::AwaitChannel, Event::Channel(Some(ch))) => {
            &&& s2 is Finished
            &&& a matches Action::RespondData(d) && data_is(d, channel_fields(ch.status@, ch.game@))
                && d.well_formed()
        },
        _ => s2 is Finished && a == Action::Fault(Fault::UnexpectedEvent),
    }
}

/// Advances a data request: id, then token, then the Kraken channel, whose
/// status and game the dashboard shows (nothing when Twitch fails).
pub fn data_step(s: DataState, e: Event) -> (r: (DataState, Action))
    ensures
        data_next(s, e, r.0, r.1),
{
    match (s, e) {
        (DataState::AwaitId { channel, client_id }, Event::Text(id)) => {
            let key = channel_field_key(channel.as_str(), "token");
            (DataState::AwaitToken { client_id, id }, Action::Get { key })
        },
        (DataState::AwaitToken { client_id, id }, Event::Text(token)) => {
            match twitch_headers(token.as_str(), client_id.as_str(), false) {
                None => (DataState::Finished, Action::Fault(Fault::InvalidHeaderValue)),
                Some(headers) => {
                    let url = kraken_channel_endpoint(id.as_str());
                    (DataState::AwaitChannel, Action::Http(HttpCall { method: HttpMethod::Get, url, headers, body: None }))
                },
            }
        },
        (DataState::AwaitChannel, Event::Channel(None)) => {
            let fields: Vec<(String, String)> = Vec::new();
            assert(pair_views(fields@) =~= Seq::empty());
            (DataState::Finished, Action::RespondData(data_with(fields)))
        },
        (DataState::AwaitChannel, Event::Channel(Some(ch))) => {
            let mut fields: Vec<(String, String)> = Vec::new();
            fields.push((owned("status"), ch.status));
            fields.push((owned("game"), ch.game));
            assert(pair_views(fields@) =~= channel_fields(ch.status@, ch.game@));
            proof {
                reveal_strlit("status");
                reveal_strlit("game");
                assert(fields@[0].0@ == "status"@);
                assert(fields@[1].0@ == "game"@);
                assert("status"@.len() != "game"@.len());
            }
            (DataState::Finished, Action::RespondData(data_with(fields)))
        },
        _ => (DataState::Finished, Action::Fault(Fault::UnexpectedEvent)),
    }
}

// ---------------------------------------------------------------------
// POST /api/title
/// Where a title change stands.
#[derive(Debug, PartialEq, Eq)]
pub enum TitleState {
    AwaitId { channel: String, client_id: String, title: String },
    AwaitToken { client_id: String, title: String, id: String },
    AwaitChannel,
    Finished,
}

/// How a title change for `channel` starts: it reads the channel's Twitch
/// id.
pub open spec fn title_start(channel: Seq<char>, client_id: Seq<char>, title: Seq<char>, s: TitleState, a: Action) -> bool {
    &&& s matches TitleState::AwaitId { channel: c, client_id: k, title: t } && c@ == channel
        && k@ == client_id && t@ == title
    &&& gets(a, id_key(channel))
}

/// Starts a title change for the session's channel.
pub fn title_begin(channel: String, client_id: String, req: ApiTitleReq) -> (r: (TitleState, Action))
    ensures
        title_start(channel@, client_id@, req.title@, r.0, r.1),
{
    let key = channel_field_key(channel.as_str(), "id");
    (TitleState::AwaitId { channel, client_id, title: req.title }, Action::Get { key })
}

/// One step of a title change.
pub open spec fn title_next(s: TitleState, e: Event, s2: TitleState, a: Action) -> bool {
    match (s, e) {
        (TitleState::AwaitId { channel, client_id, title }, Event::Text(id)) => {
            &&& s2 matches TitleState::AwaitToken { client_id: k, title: t, id: i } && k@ == client_id@
                && t@ == title@ && i@ == id@
            &&& gets(a, token_key(channel@))
        },
        (TitleState::AwaitToken { client_id, title, id }, Event::Text(token)) => {
            let hs = twitch_header_list(token@, client_id@, true);
            if values_ok(hs) {
                s2 is AwaitChannel && calls(a, HttpMethod::Put, kraken_channel_url(id@), hs, Some(status_body(title@)))
            } else {
                s2 is Finished && a == Action::Fault(Fault::InvalidHeaderValue)
            }
        },
        (TitleState::AwaitChannel, Event::Channel(ch)) => {
            &&& s2 is Finished
            &&& match ch {
                Some(_) => responds_ok(a),
                None => responds_err(a, "title-field"@, "twitch api error"@),
            }
        },
        _ => s2 is Finished && a == Action::Fault(Fault::UnexpectedEvent),
    }
}

/// Advances a title change: id, then token, then the Kraken update, which
/// succeeds when Twitch answers with the channel.
pub fn title_step(s: TitleState, e: Event) -> (r: (TitleState, Action))
    ensures
        title_next(s, e, r.0, r.1),
{
    match (s, e) {
        (TitleState::AwaitId { channel, client_id, title }, Event::Text(id)) => {
            let key = channel_field_key(channel.as_str(), "token");
            (TitleState::AwaitToken { client_id, title, id }, Action::Get { key })
        },
        (TitleState::AwaitToken { client_id, title, id }, Event::Text(token)) => {
            match twitch_headers(token.as_str(), client_id.as_str(), true) {
                None => (TitleState::Finished, Action::Fault(Fault::InvalidHeaderValue)),
                Some(headers) => {
                    let url = kraken_channel_endpoint(id.as_str());
                    let body = status_form(title.as_str());
                    (TitleState::AwaitChannel, Action::Http(HttpCall { method: HttpMethod::Put, url, headers, body: Some(body) }))
                },
            }
        },
        (TitleState::AwaitChannel, Event::Channel(ch)) => match ch {
            Some(_) => (TitleState::Finished, Action::Respond(ok_rsp())),
            None => (TitleState::Finished, Action::Respond(err_rsp("title-field", "twitch api error"))),
        },
        _ => (TitleState::Finished, Action::Fault(Fault::UnexpectedEvent)),
    }
}

// ---------------------------------------------------------------------
// POST /api/game
/// Where a game change stands.
#[derive(Debug, PartialEq, Eq)]
pub enum GameState {
    AwaitId { channel: String, client_id: String, game: String },
    AwaitToken { client_id: String, game: String, id: String },
    AwaitGames { client_id: String, token: String, id: String },
    AwaitChannel { name: String },
    Finished,
}

/// How a game change for `channel` starts: it reads the channel's Twitch id.
pub open spec fn game_start(channel: Seq<char>, client_id: Seq<char>, game: Seq<char>, s: GameState, a: Action) -> bool {
    &&& s matches GameState::AwaitId { channel: c, client_id: k, game: g } && c@ == channel
        && k@ == client_id && g@ == game
    &&& gets(a, id_key(channel))
}

/// Starts a game change for the session's channel.
pub fn game_begin(channel: String, client_id: String, req: ApiGameReq) -> (r: (GameState, Action))
    ensures
        game_start(channel@, client_id@, req.game@, r.0, r.1),
{
    let key = channel_field_key(channel.as_str(), "id");
    (GameState::AwaitId { channel, client_id, game: req.game }, Action::Get { key })
}

/// One step of a game change.
pub open spec fn game_next(s: GameState, e: Event, s2: GameState, a: Action) -> bool {
    match (s, e) {
        (GameState::AwaitId { channel, client_id, game }, Event::Text(id)) => {
            &&& s2 matches GameState::AwaitToken { client_id: k, game: g, id: i } && k@ == client_id@
                && g@ == game@ && i@ == id@
            &&& gets(a, token_key(channel@))
        },
        (GameState::AwaitToken { client_id, game, id }, Event::Text(token)) => {
            let hs = twitch_header_list(token@, client_id@, true);
            if values_ok(hs) {
                &&& s2 matches GameState::AwaitGames { client_id: k, token: t, id: i } && k@ == client_id@
                    && t@ == token@ && i@ == id@
                &&& calls(a, HttpMethod::Get, helix_games_url(game@), hs, None)
            } else {
                s2 is Finished && a == Action::Fault(Fault::InvalidHeaderValue)
            }
        },
        (GameState::AwaitGames { client_id, token, id }, Event::Games(found)) => match found {
            None => s2 is Finished && responds_err(a, "game"@, "game not found"@),
            Some(g) => if g.data.len() == 0 {
                s2 is Finished && responds_err(a, "game"@, "game not found"@)
            } else {
                let name = g.data[0].name@;
                let hs = twitch_header_list(token@, client_id@, true);
                if values_ok(hs) {
                    &&& s2 matches GameState::AwaitChannel { name: n } && n@ == name
                    &&& calls(a, HttpMethod::Put, kraken_channel_url(id@), hs, Some(game_body(name)))
                } else {
                    s2 is Finished && a == Action::Fault(Fault::InvalidHeaderValue)
                }
            },
        },
        (GameState::AwaitChannel { name }, Event::Channel(ch)) => {
            &&& s2 is Finished
            &&& match ch {
                Some(_) => a matches Action::Respond(r) && rsp_is(r, true, Some("game"@), Some(name@), None),
                None => responds_err(a, "game"@, "twitch api error"@),
            }
        },
        _ => s2 is Finished && a == Action::Fault(Fault::UnexpectedEvent),
    }
}

/// Advances a game change: id, then token, then the Helix search for the
/// game, then the Kraken update to the first game found, whose name the
/// reply carries.
pub fn game_step(s: GameState, e: Event) -> (r: (GameState, Action))
    ensures
        game_next(s, e, r.0, r.1),
{
    match (s, e) {
        (GameState::AwaitId { channel, client_id, game }, Event::Text(id)) => {
            let key = channel_field_key(channel.as_str(), "token");
            (GameState::AwaitToken { client_id, game, id }, Action::Get { key })
        },
        (GameState::AwaitToken { client_id, game, id }, Event::Text(token)) => {
            match twitch_headers(token.as_str(), client_id.as_str(), true) {
                None => (GameState::Finished, Action::Fault(Fault::InvalidHeaderValue)),
                Some(headers) => {
                    let url = helix_games_endpoint(game.as_str());
                    (GameState::AwaitGames { client_id, token, id }, Action::Http(HttpCall { method: HttpMethod::Get, url, headers, body: None }))
                },
            }
        },
        (GameState::AwaitGames { client_id, token, id }, Event::Games(found)) => match found {
            None => (GameState::Finished, Action::Respond(err_rsp("game", "game not found"))),
            Some(g) => {
                let mut data = g.data;
                if data.len() == 0 {
                    (GameState::Finished, Action::Respond(err_rsp("game", "game not found")))
                } else {
                    let first = data.remove(0);
                    let name = first.name;
                    match twitch_headers(token.as_str(), client_id.as_str(), true) {
                        None => (GameState::Finished, Action::Fault(Fault::InvalidHeaderValue)),
                        Some(headers) => {
                            let url = kraken_channel_endpoint(id.as_str());
                            let body = game_form(name.as_str());
                            (GameState::AwaitChannel { name }, Action::Http(HttpCall { method: HttpMethod::Put, url, headers, body: Some(body) }))
                        },
                    }
                }
            },
        },
        (GameState::AwaitChannel { name }, Event::Channel(ch)) => match ch {
            Some(_) => {
                let r = ApiRsp { success: true, field: Some(owned("game")), success_value: Some(name), error_message: None };
                (GameState::Finished, Action::Respond(r))
            },
            None => (GameState::Finished, Action::Respond(err_rsp("game", "twitch api error"))),
        },
        _ => (GameState::Finished, Action::Fault(Fault::UnexpectedEvent)),
    }
}

// ---------------------------------------------------------------------
// POST /api/signup
/// Where a signup stands.
#[derive(Debug, PartialEq, Eq)]
pub enum SignupState {
    /// Waiting for Twitch to describe the token's user.
    AwaitUser { req: ApiSignupReq },
    /// Waiting to learn whether the user's channel is already served.
    AwaitMember { req: ApiSignupReq, user: HelixUsersData },
    /// Waiting to learn whether the invite was taken from the invite list.
    AwaitInvite { req: ApiSignupReq, user: HelixUsersData },
    /// Waiting for the bot's name and token.
    AwaitBot { req: ApiSignupReq, user: HelixUsersData },
    /// Waiting for the new channel to be written.
    AwaitWrite { login: String },
    /// Waiting for the clock, to open the session.
    AwaitClock { login: String },
    Finished,
}

/// The writes that register a channel: the bot `bot` (with token
/// `bot_token`) joins the bot list and takes the channel `login`, whose
/// access token, password hash, Twitch id and display name are stored and
/// which starts off line; then the new channel is announced.
pub open spec fn signup_ops(
    login: Seq<char>,
    token: Seq<char>,
    hash: Seq<char>,
    id: Seq<char>,
    display_name: Seq<char>,
    bot: Seq<char>,
    bot_token: Seq<char>,
) -> Seq<StoreOp> {
    seq![
        StoreOp::AddMember("bots"@, bot),
        StoreOp::AddMember(channels_set(), login),
        StoreOp::SetValue(bot_key(bot, "token"@), bot_token),
        StoreOp::AddMember(bot_key(bot, "channels"@), login),
        StoreOp::SetValue(channel_key(login, "bot"@), "babblerbot"@),
        StoreOp::SetValue(token_key(login), token),
        StoreOp::SetValue(password_key(login), hash),
        StoreOp::SetValue(channel_key(login, "live"@), "0"@),
        StoreOp::SetValue(id_key(login), id),
        StoreOp::SetValue(channel_key(login, "display_name"@), display_name),
        StoreOp::Publish("new_channels"@, login),
    ]
}

/// The password hash in a list of signup writes.
pub open spec fn written_hash(ws: Seq<RedisWrite>) -> Seq<char> {
    match ws[6] {
        RedisWrite::SetValue { value, .. } => value@,
        _ => Seq::empty(),
    }
}

/// `a` registers the channel of `user` for the signup `req`, with the bot
/// `bot`, and a bcrypt hash at `PASSWORD_COST` that bcrypt accepts for the
/// signup's password.
pub open spec fn registers(
    a: Action,
    req: ApiSignupReq,
    user: HelixUsersData,
    bot: Seq<char>,
    bot_token: Seq<char>,
) -> bool {
    &&& a matches Action::Write(ws)
    &&& ws.len() == 11
    &&& ops_of(ws@) == signup_ops(user.login@, req.token@, written_hash(ws@), user.id@, user.display_name@, bot, bot_token)
    &&& stored_hash_of(req.password@, written_hash(ws@))
}

/// A signup starts by asking Twitch which user the token belongs to. A token
/// that no header can carry makes that call fail, which is answered as an
/// invalid token.
pub fn signup_begin(req: ApiSignupReq) -> (r: (SignupState, Action))
    ensures
        values_ok(bearer_header_list(req.token@)) ==> {
            &&& r.0 matches SignupState::AwaitUser { req: q } && q == req
            &&& calls(r.1, HttpMethod::Get, helix_users_url(), bearer_header_list(req.token@), None)
        },
        !values_ok(bearer_header_list(req.token@)) ==> r.0 is Finished && responds_err(
            r.1,
            "token"@,
            "invalid access code"@,
        ),
{
    match bearer_headers(req.token.as_str()) {
        None => (SignupState::Finished, Action::Respond(err_rsp("token", "invalid access code"))),
        Some(headers) => {
            let url = owned("https://api.twitch.tv/helix/users");
            (SignupState::AwaitUser { req }, Action::Http(HttpCall { method: HttpMethod::Get, url, headers, body: None }))
        },
    }
}

/// One step of a signup.
pub open spec fn signup_next(s: SignupState, e: Event, s2: SignupState, a: Action) -> bool {
    match (s, e) {
        (SignupState::AwaitUser { req }, Event::Users(found)) => match found {
            None => s2 is Finished && responds_err(a, "token"@, "invalid access code"@),
            Some(u) => if u.data.len() == 0 {
                s2 is Finished && a == Action::Fault(Fault::NoUser)
            } else {
                &&& s2 matches SignupState::AwaitMember { req: q, user } && q == req && user == u.data[0]
                &&& asks_member(a, channels_set(), u.data[0].login@)
            },
        },
        (SignupState::AwaitMember { req, user }, Event::Member(taken)) => if taken {
            s2 is Finished && responds_err(a, "token"@, "invalid access code"@)
        } else {
            &&& s2 matches SignupState::AwaitInvite { req: q, user: u } && q == req && u == user
            &&& a matches Action::ListRemove { key, count, value } && key@ == "invites"@ && count == 1
                && value@ == req.invite@
        },
        (SignupState::AwaitInvite { req, user }, Event::Removed(n)) => if n == 0 {
            s2 is Finished && responds_err(a, "invite"@, "invalid invite code"@)
        } else {
            s2 matches SignupState::AwaitBot { req: q, user: u } && q == req && u == user && a is ReadBotSettings
        },
        (SignupState::AwaitBot { req, user }, Event::BotSettings { name, token }) => {
            ||| s2 matches SignupState::AwaitWrite { login } && login@ == user.login@ && registers(
                a,
                req,
                user,
                name@,
                token@,
            )
            ||| s2 is Finished && a == Action::Fault(Fault::HashFailed)
        },
        (SignupState::AwaitWrite { login }, Event::Written) => {
            s2 matches SignupState::AwaitClock { login: l } && l@ == login@ && a is ReadClock
        },
        (SignupState::AwaitClock { login }, Event::Clock(clock)) => s2 is Finished && after_clock(login@, clock, a),
        _ => s2 is Finished && a == Action::Fault(Fault::UnexpectedEvent),
    }
}

fn set_value(key: String, value: String) -> (w: RedisWrite)
    ensures
        w@ == StoreOp::SetValue(key@, value@),
{
    RedisWrite::SetValue { key, value }
}

fn add_member(key: String, member: String) -> (w: RedisWrite)
    ensures
        w@ == StoreOp::AddMember(key@, member@),
{
    RedisWrite::AddMember { key, member }
}

fn signup_writes(req: &ApiSignupReq, user: &HelixUsersData, hash: String, bot: &str, bot_token: &str) -> (ws: Vec<RedisWrite>)
    ensures
        ws.len() == 11,
        written_hash(ws@) == hash@,
        ops_of(ws@) == signup_ops(user.login@, req.token@, hash@, user.id@, user.display_name@, bot@, bot_token@),
{
    let login = user.login.as_str();
    let mut ws: Vec<RedisWrite> = Vec::new();
    ws.push(add_member(owned("bots"), owned(bot)));
    ws.push(add_member(owned("channels"), owned(login)));
    ws.push(set_value(bot_field_key(bot, "token"), owned(bot_token)));
    ws.push(add_member(bot_field_key(bot, "channels"), owned(login)));
    ws.push(set_value(channel_field_key(login, "bot"), owned("babblerbot")));
    ws.push(set_value(channel_field_key(login, "token"), owned(req.token.as_str())));
    ws.push(set_value(channel_field_key(login, "password"), hash));
    ws.push(set_value(channel_field_key(login, "live"), owned("0")));
    ws.push(set_value(channel_field_key(login, "id"), owned(user.id.as_str())));
    ws.push(set_value(channel_field_key(login, "display_name"), owned(user.display_name.as_str())));
    ws.push(RedisWrite::Publish { channel: owned("new_channels"), message: owned(login) });
    assert(ops_of(ws@) =~= signup_ops(user.login@, req.token@, hash@, user.id@, user.display_name@, bot@, bot_token@));
    ws
}

/// Advances a signup: the token's user, then whether the channel is new,
/// then the invite, then the bot, then the writes, then the session.
pub fn signup_step(s: SignupState, e: Event) -> (r: (SignupState, Action))
    ensures
        signup_next(s, e, r.0, r.1),
{
    match (s, e) {
        (SignupState::AwaitUser { req }, Event::Users(found)) => match found {
            None => (SignupState::Finished, Action::Respond(err_rsp("token", "invalid access code"))),
            Some(u) => {
                let mut data = u.data;
                if data.len() == 0 {
                    (SignupState::Finished, Action::Fault(Fault::NoUser))
                } else {
                    let user = data.remove(0);
                    let member = user.login.clone();
                    (SignupState::AwaitMember { req, user }, Action::IsMember { set: owned("channels"), member })
                }
            },
        },
        (SignupState::AwaitMember { req, user }, Event::Member(taken)) => if taken {
            (SignupState::Finished, Action::Respond(err_rsp("token", "invalid access code")))
        } else {
            let value = req.invite.clone();
            (SignupState::AwaitInvite { req, user }, Action::ListRemove { key: owned("invites"), count: 1, value })
        },
        (SignupState::AwaitInvite { req, user }, Event::Removed(n)) => if n == 0 {
            (SignupState::Finished, Action::Respond(err_rsp("invite", "invalid invite code")))
        } else {
            (SignupState::AwaitBot { req, user }, Action::ReadBotSettings)
        },
        (SignupState::AwaitBot { req, user }, Event::BotSettings { name, token }) => {
            match hash_password(req.password.as_str()) {
                None => (SignupState::Finished, Action::Fault(Fault::HashFailed)),
                Some(hash) => {
                    let ws = signup_writes(&req, &user, hash, name.as_str(), token.as_str());
                    (SignupState::AwaitWrite { login: user.login }, Action::Write(ws))
                },
            }
        },
        (SignupState::AwaitWrite { login }, Event::Written) => (SignupState::AwaitClock { login }, Action::ReadClock),
        (SignupState::AwaitClock { login }, Event::Clock(clock)) => (SignupState::Finished, respond_after_clock(login, clock)),
        _ => (SignupState::Finished, Action::Fault(Fault::UnexpectedEvent)),
    }
}

} // verus!
