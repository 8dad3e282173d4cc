//! What holds across the endpoints: what one writes, another reads back.
use crate::discord::{
    discord_next, emote_pattern, opt_views, substitute, var_pattern, DiscordAction, DiscordEvent, DiscordFault,
    DiscordState,
};
use crate::keys::{
    channel_key, channels_set, command_signal_channel, game_body, helix_games_url, id_key,
    kraken_channel_url, password_key, settings_key, status_body, token_key,
};
use crate::pattern::regex_replaced;
use crate::secret::{bcrypt_check, stored_hash_of};
use crate::store::{apply_op, apply_ops, members, ops_of, Store, StoreOp};
use crate::text::{first_from, lowercase, occurs_at, replace_first_spec, views};
use crate::types::{ApiLoginReq, ApiSignupReq, HelixGames, HelixUsers, HelixUsersData};
use crate::web::{
    after_clock, calls, data_next, data_start, login_next, login_start, registers, responds_err,
    signup_next, signup_ops, stores_password, written_hash, game_next, game_start, title_next, title_start,
    asks_member, Action, DataState,
    Event, GameState, HttpMethod, LoginState, SignupState, TitleState,
};
use crate::text::opt_view;
use crate::util::{twitch_header_list, values_ok};
use vstd::prelude::*;

verus! {

/// `e` is the store's answer to the membership question `a`.
pub open spec fn member_answer(store: Store, a: Action, e: Event) -> bool {
    &&& a matches Action::IsMember { set, member }
    &&& e == Event::Member(members(store, set@).contains(member@))
}

/// `e` is the store's answer to the read `a`, of a key that holds a value.
pub open spec fn get_answer(store: Store, a: Action, e: Event) -> bool {
    &&& a matches Action::Get { key }
    &&& store.strings.dom().contains(key@)
    &&& e matches Event::Text(v) && v@ == store.strings[key@]
}

/// `store` serves the channel `channel` with a password hash that bcrypt
/// accepts for `password`.
pub open spec fn holds_login(store: Store, channel: Seq<char>, password: Seq<char>) -> bool {
    &&& members(store, channels_set()).contains(channel)
    &&& store.strings.dom().contains(password_key(channel))
    &&& bcrypt_check(password, store.strings[password_key(channel)]) == Some(true)
}

/// A login, answered from a store that serves its (lowercased) channel
/// with a hash of its password, passes the password check and then answers
/// with success, opening a session when the clock allows.
pub proof fn login_accepts_stored_password(
    store: Store,
    req: ApiLoginReq,
    s0: LoginState,
    a0: Action,
    e0: Event,
    s1: LoginState,
    a1: Action,
    e1: Event,
    s2: LoginState,
    a2: Action,
    clock: Option<u64>,
    s3: LoginState,
    a3: Action,
)
    requires
        holds_login(store, lowercase(req.channel@), req.password@),
        login_start(req, s0, a0),
        member_answer(store, a0, e0),
        login_next(s0, e0, s1, a1),
        get_answer(store, a1, e1),
        login_next(s1, e1, s2, a2),
        login_next(s2, Event::Clock(clock), s3, a3),
    ensures
        a2 is ReadClock,
        after_clock(lowercase(req.channel@), clock, a3),
{
}

/// A login for a channel the store does not serve is refused, naming the
/// channel field.
pub proof fn login_refuses_unknown_channel(
    store: Store,
    req: ApiLoginReq,
    s0: LoginState,
    a0: Action,
    e0: Event,
    s1: LoginState,
    a1: Action,
)
    requires
        !members(store, channels_set()).contains(lowercase(req.channel@)),
        login_start(req, s0, a0),
        member_answer(store, a0, e0),
        login_next(s0, e0, s1, a1),
    ensures
        s1 is Finished,
        responds_err(a1, "channel"@, "channel not found"@),
{
}

/// A login whose password bcrypt rejects for the stored hash is refused,
/// naming the password field.
pub proof fn login_refuses_wrong_password(
    store: Store,
    req: ApiLoginReq,
    s0: LoginState,
    a0: Action,
    e0: Event,
    s1: LoginState,
    a1: Action,
    e1: Event,
    s2: LoginState,
    a2: Action,
)
    requires
        members(store, channels_set()).contains(lowercase(req.channel@)),
        store.strings.dom().contains(password_key(lowercase(req.channel@))),
        bcrypt_check(req.password@, store.strings[password_key(lowercase(req.channel@))]) == Some(false),
        login_start(req, s0, a0),
        member_answer(store, a0, e0),
        login_next(s0, e0, s1, a1),
        get_answer(store, a1, e1),
        login_next(s1, e1, s2, a2),
    ensures
        s2 is Finished,
        responds_err(a2, "password"@, "invalid password"@),
{
}

/// A login opens a session only right after bcrypt accepted its password
/// for the stored hash, and only for the channel it checked.
pub proof fn login_session_only_after_password(
    s1: LoginState,
    e1: Event,
    s2: LoginState,
    a2: Action,
    e2: Event,
    s3: LoginState,
    a3: Action,
)
    requires
        login_next(s1, e1, s2, a2),
        login_next(s2, e2, s3, a3),
        a3 is RespondWithSession,
    ensures
        s1 matches LoginState::AwaitHash { channel, password } && {
            &&& e1 matches Event::Text(hash) && bcrypt_check(password@, hash@) == Some(true)
            &&& a3 matches Action::RespondWithSession(_, auth) && auth.channel@ == channel@
        },
{
}

proof fn lemma_channel_keys_differ(c: Seq<char>, f: Seq<char>, g: Seq<char>)
    requires
        f.len() != g.len(),
    ensures
        channel_key(c, f) != channel_key(c, g),
{
    assert(channel_key(c, f).len() != channel_key(c, g).len());
}

/// `op` writes a string value under `key`.
pub open spec fn sets_key(op: StoreOp, key: Seq<char>) -> bool {
    op matches StoreOp::SetValue(k, _) && k == key
}

/// A value set by a write that no later write of the same key overrides
/// is what the store holds after all the writes.
pub proof fn lemma_set_survives(s: Store, ops: Seq<StoreOp>, i: int, key: Seq<char>, value: Seq<char>)
    requires
        0 <= i < ops.len(),
        ops[i] == StoreOp::SetValue(key, value),
        forall|j: int| i < j < ops.len() ==> !sets_key(#[trigger] ops[j], key),
    ensures
        apply_ops(s, ops).strings.dom().contains(key),
        apply_ops(s, ops).strings[key] == value,
    decreases ops.len(),
{
    if i < ops.len() - 1 {
        let t = ops.drop_last();
        assert forall|j: int| i < j < t.len() implies !sets_key(#[trigger] t[j], key) by {
            assert(t[j] == ops[j]);
        }
        lemma_set_survives(s, t, i, key, value);
        assert(!sets_key(ops[ops.len() - 1], key));
    }
}

/// A member added by any of the writes is in its set after all of them:
/// no write removes a member.
pub proof fn lemma_member_survives(s: Store, ops: Seq<StoreOp>, i: int, key: Seq<char>, member: Seq<char>)
    requires
        0 <= i < ops.len(),
        ops[i] == StoreOp::AddMember(key, member),
    ensures
        members(apply_ops(s, ops), key).contains(member),
    decreases ops.len(),
{
    if i < ops.len() - 1 {
        lemma_member_survives(s, ops.drop_last(), i, key, member);
    }
}

/// What a signup writes is what the other endpoints read: in the store its
/// writes leave, the new channel is served, its password key holds a bcrypt
/// hash at `PASSWORD_COST` that bcrypt accepts for the signup's password, and
/// its token and id keys hold the token and the Twitch id.
pub proof fn signup_registers_channel(
    store: Store,
    req: ApiSignupReq,
    user: HelixUsersData,
    bot: Seq<char>,
    bot_token: Seq<char>,
    a: Action,
)
    requires
        registers(a, req, user, bot, bot_token),
    ensures
        a matches Action::Write(ws) && {
            let after = apply_ops(store, ops_of(ws@));
            &&& holds_login(after, user.login@, req.password@)
            &&& stored_hash_of(req.password@, after.strings[password_key(user.login@)])
            &&& after.strings.dom().contains(token_key(user.login@))
            &&& after.strings[token_key(user.login@)] == req.token@
            &&& after.strings.dom().contains(id_key(user.login@))
            &&& after.strings[id_key(user.login@)] == user.id@
        },
{
    let ws = a->Write_0;
    let l = user.login@;
    let ops = signup_ops(l, req.token@, written_hash(ws@), user.id@, user.display_name@, bot, bot_token);
    reveal_strlit("password");
    reveal_strlit("token");
    reveal_strlit("id");
    reveal_strlit("live");
    reveal_strlit("display_name");
    lemma_channel_keys_differ(l, "live"@, "password"@);
    lemma_channel_keys_differ(l, "id"@, "password"@);
    lemma_channel_keys_differ(l, "display_name"@, "password"@);
    lemma_channel_keys_differ(l, "password"@, "token"@);
    lemma_channel_keys_differ(l, "live"@, "token"@);
    lemma_channel_keys_differ(l, "id"@, "token"@);
    lemma_channel_keys_differ(l, "display_name"@, "token"@);
    lemma_channel_keys_differ(l, "display_name"@, "id"@);
    lemma_member_survives(store, ops, 1, channels_set(), l);
    assert forall|j: int| 5 < j < ops.len() implies !sets_key(#[trigger] ops[j], token_key(l)) by {
        assert(j == 6 || j == 7 || j == 8 || j == 9 || j == 10);
    }
    lemma_set_survives(store, ops, 5, token_key(l), req.token@);
    assert forall|j: int| 6 < j < ops.len() implies !sets_key(#[trigger] ops[j], password_key(l)) by {
        assert(j == 7 || j == 8 || j == 9 || j == 10);
    }
    lemma_set_survives(store, ops, 6, password_key(l), written_hash(ws@));
    assert forall|j: int| 8 < j < ops.len() implies !sets_key(#[trigger] ops[j], id_key(l)) by {
        assert(j == 9 || j == 10);
    }
    lemma_set_survives(store, ops, 8, id_key(l), user.id@);
}

/// A password change takes effect: in the store its write leaves, the
/// channel's password key holds a bcrypt hash at `PASSWORD_COST` that
/// bcrypt accepts for the new password.
pub proof fn password_change_takes_effect(store: Store, channel: Seq<char>, password: Seq<char>, a: Action)
    requires
        stores_password(a, channel, password),
    ensures
        a matches Action::Write(ws) && {
            let after = apply_ops(store, ops_of(ws@));
            &&& after.strings.dom().contains(password_key(channel))
            &&& stored_hash_of(password, after.strings[password_key(channel)])
            &&& members(after, channels_set()) == members(store, channels_set())
        },
{
    let ws = a->Write_0;
    let ops = ops_of(ws@);
    assert(ops.drop_last() =~= Seq::<StoreOp>::empty());
    assert(apply_ops(store, ops) == apply_op(apply_ops(store, ops.drop_last()), ops.last()));
    assert(apply_ops(store, ops).sets == store.sets);
}

/// A channel that signed up can log in with the password it signed up with:
/// answered from the store the signup's writes leave, a login for that
/// channel with that password passes the password check and then answers
/// with success.
pub proof fn signup_then_login(
    store: Store,
    sreq: ApiSignupReq,
    user: HelixUsersData,
    bot: Seq<char>,
    bot_token: Seq<char>,
    w: Action,
    lreq: ApiLoginReq,
    s0: LoginState,
    a0: Action,
    e0: Event,
    s1: LoginState,
    a1: Action,
    e1: Event,
    s2: LoginState,
    a2: Action,
    clock: Option<u64>,
    s3: LoginState,
    a3: Action,
)
    requires
        registers(w, sreq, user, bot, bot_token),
        lowercase(lreq.channel@) == user.login@,
        lreq.password@ == sreq.password@,
        w matches Action::Write(ws) && {
            let after = apply_ops(store, ops_of(ws@));
            &&& login_start(lreq, s0, a0)
            &&& member_answer(after, a0, e0)
            &&& login_next(s0, e0, s1, a1)
            &&& get_answer(after, a1, e1)
            &&& login_next(s1, e1, s2, a2)
            &&& login_next(s2, Event::Clock(clock), s3, a3)
        },
    ensures
        a2 is ReadClock,
        after_clock(user.login@, clock, a3),
{
    signup_registers_channel(store, sreq, user, bot, bot_token, w);
    let after = apply_ops(store, ops_of(w->Write_0@));
    login_accepts_stored_password(after, lreq, s0, a0, e0, s1, a1, e1, s2, a2, clock, s3, a3);
}

/// A served channel that changed its password can log in with the new one.
pub proof fn password_change_then_login(
    store: Store,
    channel: Seq<char>,
    password: Seq<char>,
    w: Action,
    lreq: ApiLoginReq,
    s0: LoginState,
    a0: Action,
    e0: Event,
    s1: LoginState,
    a1: Action,
    e1: Event,
    s2: LoginState,
    a2: Action,
    clock: Option<u64>,
    s3: LoginState,
    a3: Action,
)
    requires
        members(store, channels_set()).contains(channel),
        stores_password(w, channel, password),
        lowercase(lreq.channel@) == channel,
        lreq.password@ == password,
        w matches Action::Write(ws) && {
            let after = apply_ops(store, ops_of(ws@));
            &&& login_start(lreq, s0, a0)
            &&& member_answer(after, a0, e0)
            &&& login_next(s0, e0, s1, a1)
            &&& get_answer(after, a1, e1)
            &&& login_next(s1, e1, s2, a2)
            &&& login_next(s2, Event::Clock(clock), s3, a3)
        },
    ensures
        a2 is ReadClock,
        after_clock(channel, clock, a3),
{
    password_change_takes_effect(store, channel, password, w);
    let after = apply_ops(store, ops_of(w->Write_0@));
    login_accepts_stored_password(after, lreq, s0, a0, e0, s1, a1, e1, s2, a2, clock, s3, a3);
}

/// A signup writes only after Twitch named the token's user, the user's
/// channel was found not yet served, an invite was taken from the invite
/// list, and the bot's settings were read.
pub proof fn signup_writes_only_after_checks(
    s1: SignupState,
    e1: Event,
    s2: SignupState,
    a2: Action,
    e2: Event,
    s3: SignupState,
    a3: Action,
    e3: Event,
    s4: SignupState,
    a4: Action,
)
    requires
        signup_next(s1, e1, s2, a2),
        signup_next(s2, e2, s3, a3),
        signup_next(s3, e3, s4, a4),
        a4 is Write,
    ensures
        s1 is AwaitMember,
        e1 == Event::Member(false),
        e2 matches Event::Removed(n) && n != 0,
        e3 is BotSettings,
{
}

/// After a signup, the dashboard data of the new channel is asked of Twitch
/// with what the signup stored: the channel's Twitch id in the endpoint and
/// the signup's token in the headers.
pub proof fn signup_then_data(
    store: Store,
    req: ApiSignupReq,
    user: HelixUsersData,
    bot: Seq<char>,
    bot_token: Seq<char>,
    w: Action,
    client_id: Seq<char>,
    s0: DataState,
    a0: Action,
    e0: Event,
    s1: DataState,
    a1: Action,
    e1: Event,
    s2: DataState,
    a2: Action,
)
    requires
        registers(w, req, user, bot, bot_token),
        values_ok(twitch_header_list(req.token@, client_id, false)),
        w matches Action::Write(ws) && {
            let after = apply_ops(store, ops_of(ws@));
            &&& data_start(user.login@, client_id, s0, a0)
            &&& get_answer(after, a0, e0)
            &&& data_next(s0, e0, s1, a1)
            &&& get_answer(after, a1, e1)
            &&& data_next(s1, e1, s2, a2)
        },
    ensures
        calls(a2, HttpMethod::Get, kraken_channel_url(user.id@), twitch_header_list(req.token@, client_id, false), None),
{
    signup_registers_channel(store, req, user, bot, bot_token, w);
}

/// Logins whose channels lowercase alike, with the same password, start
/// alike, so they run alike: the channel is only looked at lowercased.
pub proof fn login_ignores_channel_case(req1: ApiLoginReq, req2: ApiLoginReq, s0: LoginState, a0: Action)
    requires
        login_start(req1, s0, a0),
        lowercase(req1.channel@) == lowercase(req2.channel@),
        req1.password@ == req2.password@,
    ensures
        login_start(req2, s0, a0),
{
}

/// How far a game change has got.
pub open spec fn game_rank(s: GameState) -> int {
    match s {
        GameState::AwaitId { .. } => 0,
        GameState::AwaitToken { .. } => 1,
        GameState::AwaitGames { .. } => 2,
        GameState::AwaitChannel { .. } => 3,
        GameState::Finished => 4,
    }
}

/// A game change only reads the store and calls Twitch: it never writes,
/// never asks about a set or a list, never reads the clock and never opens a
/// session. Each step moves it on, and only the step out of `AwaitToken`
/// (the search) and the step out of `AwaitGames` (the update) call Twitch,
/// so a whole run makes at most two calls.
pub proof fn game_only_reads_and_calls(s: GameState, e: Event, s2: GameState, a: Action)
    requires
        game_next(s, e, s2, a),
    ensures
        a is Get || a is Http || a is Respond || a is Fault,
        !(s is Finished) ==> game_rank(s2) > game_rank(s),
        a is Http ==> (s is AwaitToken && s2 is AwaitGames) || (s is AwaitGames && s2 is AwaitChannel),
{
}

/// Every answer of a game change names the game field, and it succeeds
/// exactly when it carries no error message, and exactly when it carries
/// the game's name.
pub proof fn game_replies_name_the_game(s: GameState, e: Event, s2: GameState, a: Action)
    requires
        game_next(s, e, s2, a),
        a is Respond,
    ensures
        a matches Action::Respond(r) && {
            &&& opt_view(r.field) == Some("game"@)
            &&& r.success <==> r.error_message is None
            &&& r.success <==> r.success_value is Some
        },
{
}

/// A game change succeeds only when the search found a game and Twitch then
/// answered the update; the answer carries the first game found.
pub proof fn game_success_needs_both_calls(
    s1: GameState,
    e1: Event,
    s2: GameState,
    a2: Action,
    e2: Event,
    s3: GameState,
    a3: Action,
)
    requires
        game_next(s1, e1, s2, a2),
        game_next(s2, e2, s3, a3),
        a3 matches Action::Respond(r) && r.success,
    ensures
        s1 is AwaitGames,
        e1 matches Event::Games(Some(g)) && {
            &&& g.data.len() > 0
            &&& opt_view(a3->Respond_0.success_value) == Some(g.data[0].name@)
        },
        e2 matches Event::Channel(Some(_)),
{
}

/// A title change only reads the store and calls Twitch, and it succeeds
/// exactly when Twitch answers its update with the channel.
pub proof fn title_only_reads_and_calls(s: TitleState, e: Event, s2: TitleState, a: Action)
    requires
        title_next(s, e, s2, a),
    ensures
        a is Get || a is Http || a is Respond || a is Fault,
        a is Respond ==> (a->Respond_0.success <==> (s is AwaitChannel && e is Channel && e->Channel_0 is Some)),
{
}

/// A data request only reads the store and calls Twitch, and its answer is
/// dashboard data.
pub proof fn data_only_reads_and_calls(s: DataState, e: Event, s2: DataState, a: Action)
    requires
        data_next(s, e, s2, a),
    ensures
        a is Get || a is Http || a is RespondData || a is Fault,
{
}

// ---------------------------------------------------------------------
// The names, patterns and bodies, spelled out.
/// `channel:`, spelled out.
pub open spec fn channel_prefix() -> Seq<char> {
    seq!['c', 'h', 'a', 'n', 'n', 'e', 'l', ':']
}

/// The redis keys the endpoints read and write, spelled out character by
/// character: `channel:{c}:token`, `channel:{c}:id`, `channel:{c}:password`,
/// `channel:{c}:settings` and the set `channels`.
pub proof fn keys_spelled_out(c: Seq<char>)
    ensures
        token_key(c) == channel_prefix() + c + seq![':', 't', 'o', 'k', 'e', 'n'],
        id_key(c) == channel_prefix() + c + seq![':', 'i', 'd'],
        password_key(c) == channel_prefix() + c + seq![':', 'p', 'a', 's', 's', 'w', 'o', 'r', 'd'],
        settings_key(c) == channel_prefix() + c + seq![':', 's', 'e', 't', 't', 'i', 'n', 'g', 's'],
        channels_set() == seq!['c', 'h', 'a', 'n', 'n', 'e', 'l', 's'],
{
    reveal_strlit("channel:");
    reveal_strlit(":");
    reveal_strlit("token");
    reveal_strlit("id");
    reveal_strlit("password");
    reveal_strlit("settings");
    reveal_strlit("channels");
    assert(token_key(c) =~= channel_prefix() + c + seq![':', 't', 'o', 'k', 'e', 'n']);
    assert(id_key(c) =~= channel_prefix() + c + seq![':', 'i', 'd']);
    assert(password_key(c) =~= channel_prefix() + c + seq![':', 'p', 'a', 's', 's', 'w', 'o', 'r', 'd']);
    assert(settings_key(c) =~= channel_prefix() + c + seq![':', 's', 'e', 't', 't', 'i', 'n', 'g', 's']);
    assert(channels_set() =~= seq!['c', 'h', 'a', 'n', 'n', 'e', 'l', 's']);
}

/// The emote pattern, spelled out: `<:(\w+):\d+>` - a name of word
/// characters and an id of any number of digits.
pub open spec fn emote_pattern_chars() -> Seq<char> {
    seq!['<', ':', '(', '\\', 'w', '+', ')', ':', '\\', 'd', '+', '>']
}

/// The emote pattern is `<:(\w+):\d+>`.
pub proof fn emote_pattern_spelled_out()
    ensures
        emote_pattern() == emote_pattern_chars(),
{
    reveal_strlit("<:(\\w+):\\d+>");
    assert(emote_pattern() =~= emote_pattern_chars());
}

/// The pattern of a variable's use is `\(` + the variable + ` ?((?:[\w\-\?\._:/&!= ]+)*)\)`.
pub proof fn var_pattern_spelled_out(var: Seq<char>)
    ensures
        var_pattern(var) == seq!['\\', '('] + var + seq![
            ' ', '?', '(', '(', '?', ':', '[', '\\', 'w', '\\', '-', '\\', '?', '\\', '.', '_', ':', '/',
            '&', '!', '=', ' ', ']', '+', ')', '*', ')', '\\', ')',
        ],
{
    reveal_strlit("\\(");
    reveal_strlit(" ?((?:[\\w\\-\\?\\._:/&!= ]+)*)\\)");
    assert(var_pattern(var) =~= seq!['\\', '('] + var + seq![
        ' ', '?', '(', '(', '?', ':', '[', '\\', 'w', '\\', '-', '\\', '?', '\\', '.', '_', ':', '/',
        '&', '!', '=', ' ', ']', '+', ')', '*', ')', '\\', ')',
    ]);
}

/// A message from the moderator channel is relayed on the channel's command
/// signal with every match of `<:(\w+):\d+>` replaced by its name.
pub proof fn mod_channel_relays_emote_names(s: DiscordState, e: DiscordEvent, s2: DiscordState, a: DiscordAction)
    requires
        s matches DiscordState::AwaitModChannel { source, .. } && e matches DiscordEvent::ModChannel(id)
            && source@ == id@,
        discord_next(s, e, s2, a),
    ensures
        s matches DiscordState::AwaitModChannel { channel, content, .. } && match regex_replaced(
            emote_pattern_chars(),
            content@,
            1,
        ) {
            Some(text) => a matches DiscordAction::Publish { channel: c, message: m } && c@
                == command_signal_channel(channel@) && m@ == text,
            None => a == DiscordAction::Fault(DiscordFault::BadPattern),
        },
{
    emote_pattern_spelled_out();
}

/// A title change puts `channel[status]=` followed by the whole title.
pub proof fn title_put_carries_whole_title(s: TitleState, e: Event, s2: TitleState, a: Action)
    requires
        s matches TitleState::AwaitToken { client_id, title, .. } && e matches Event::Text(token)
            && values_ok(twitch_header_list(token@, client_id@, true)),
        title_next(s, e, s2, a),
    ensures
        s matches TitleState::AwaitToken { title, .. } && a matches Action::Http(c) && c.body matches Some(b) && {
            &&& b@.len() == 16 + title@.len()
            &&& b@.take(16) == seq!['c', 'h', 'a', 'n', 'n', 'e', 'l', '[', 's', 't', 'a', 't', 'u', 's', ']', '=']
            &&& b@.skip(16) == title@
        },
{
    reveal_strlit("channel[status]=");
    let title = s->AwaitToken_title;
    let b = a->Http_0.body->Some_0;
    assert(b@.take(16) =~= seq!['c', 'h', 'a', 'n', 'n', 'e', 'l', '[', 's', 't', 'a', 't', 'u', 's', ']', '=']);
    assert(b@.skip(16) =~= title@);
}

/// A game change puts `channel[game]=` followed by the whole name of the
/// first game its search found.
pub proof fn game_put_carries_whole_name(s: GameState, e: Event, s2: GameState, a: Action)
    requires
        s matches GameState::AwaitGames { client_id, token, .. } && e matches Event::Games(Some(g))
            && g.data.len() > 0 && values_ok(twitch_header_list(token@, client_id@, true)),
        game_next(s, e, s2, a),
    ensures
        e matches Event::Games(Some(g)) && a matches Action::Http(c) && c.body matches Some(b) && {
            &&& b@.len() == 14 + g.data[0].name@.len()
            &&& b@.take(14) == seq!['c', 'h', 'a', 'n', 'n', 'e', 'l', '[', 'g', 'a', 'm', 'e', ']', '=']
            &&& b@.skip(14) == g.data[0].name@
        },
{
    reveal_strlit("channel[game]=");
    let name = e->Games_0->Some_0.data[0].name;
    let b = a->Http_0.body->Some_0;
    assert(b@.take(14) =~= seq!['c', 'h', 'a', 'n', 'n', 'e', 'l', '[', 'g', 'a', 'm', 'e', ']', '=']);
    assert(b@.skip(14) =~= name@);
}

// ---------------------------------------------------------------------
// Which token a game change uses, and who may sign up.
/// A game change, answered from a store, reads the channel's id and then
/// its token; both its Twitch calls - the Helix search for the game and the
/// Kraken update to the first game found - carry the headers made from the
/// token stored under `token_key(channel)`, and the update goes to the id
/// stored under `id_key(channel)`.
pub proof fn game_calls_carry_stored_token(
    store: Store,
    channel: Seq<char>,
    client_id: Seq<char>,
    game: Seq<char>,
    s0: GameState,
    a0: Action,
    e0: Event,
    s1: GameState,
    a1: Action,
    e1: Event,
    s2: GameState,
    a2: Action,
    found: HelixGames,
    s3: GameState,
    a3: Action,
)
    requires
        game_start(channel, client_id, game, s0, a0),
        get_answer(store, a0, e0),
        game_next(s0, e0, s1, a1),
        get_answer(store, a1, e1),
        game_next(s1, e1, s2, a2),
        store.strings.dom().contains(token_key(channel)),
        values_ok(twitch_header_list(store.strings[token_key(channel)], client_id, true)),
        found.data.len() > 0,
        game_next(s2, Event::Games(Some(found)), s3, a3),
    ensures
        a1 matches Action::Get { key } && key@ == token_key(channel),
        calls(
            a2,
            HttpMethod::Get,
            helix_games_url(game),
            twitch_header_list(store.strings[token_key(channel)], client_id, true),
            None,
        ),
        calls(
            a3,
            HttpMethod::Put,
            kraken_channel_url(store.strings[id_key(channel)]),
            twitch_header_list(store.strings[token_key(channel)], client_id, true),
            Some(game_body(found.data[0].name@)),
        ),
{
}

/// After a signup, a game change for the new channel searches Helix with
/// the signup's token.
pub proof fn signup_then_game(
    store: Store,
    req: ApiSignupReq,
    user: HelixUsersData,
    bot: Seq<char>,
    bot_token: Seq<char>,
    w: Action,
    client_id: Seq<char>,
    game: Seq<char>,
    s0: GameState,
    a0: Action,
    e0: Event,
    s1: GameState,
    a1: Action,
    e1: Event,
    s2: GameState,
    a2: Action,
)
    requires
        registers(w, req, user, bot, bot_token),
        values_ok(twitch_header_list(req.token@, client_id, true)),
        w matches Action::Write(ws) && {
            let after = apply_ops(store, ops_of(ws@));
            &&& game_start(user.login@, client_id, game, s0, a0)
            &&& get_answer(after, a0, e0)
            &&& game_next(s0, e0, s1, a1)
            &&& get_answer(after, a1, e1)
            &&& game_next(s1, e1, s2, a2)
        },
    ensures
        calls(a2, HttpMethod::Get, helix_games_url(game), twitch_header_list(req.token@, client_id, true), None),
{
    signup_registers_channel(store, req, user, bot, bot_token, w);
}

/// A signup whose Twitch user's channel the store already serves is refused
/// as an invalid token, and nothing is written: the membership question is
/// about the user's login.
pub proof fn signup_refuses_served_channel(
    store: Store,
    s0: SignupState,
    users: HelixUsers,
    s1: SignupState,
    a1: Action,
    e1: Event,
    s2: SignupState,
    a2: Action,
)
    requires
        s0 is AwaitUser,
        users.data.len() > 0,
        members(store, channels_set()).contains(users.data[0].login@),
        signup_next(s0, Event::Users(Some(users)), s1, a1),
        member_answer(store, a1, e1),
        signup_next(s1, e1, s2, a2),
    ensures
        asks_member(a1, channels_set(), users.data[0].login@),
        s2 is Finished,
        responds_err(a2, "token"@, "invalid access code"@),
{
}

// ---------------------------------------------------------------------
// Filling in fetched values.
proof fn lemma_first_from(t: Seq<char>, p: Seq<char>, k: int)
    requires
        0 <= k,
    ensures
        first_from(t, p, k) matches Some(i) ==> k <= i && occurs_at(t, p, i) && forall|j: int|
            k <= j < i ==> !occurs_at(t, p, j),
        first_from(t, p, k) is None ==> forall|j: int| k <= j ==> !occurs_at(t, p, j),
    decreases t.len() + 1 - k,
{
    if k + p.len() <= t.len() && !occurs_at(t, p, k) {
        lemma_first_from(t, p, k + 1);
    }
}

/// `first_from(text, pat, 0)` is the leftmost position where `pat` stands
/// in `text`, and `None` exactly when it stands nowhere.
pub proof fn first_occurrence_is_leftmost(text: Seq<char>, pat: Seq<char>)
    ensures
        first_from(text, pat, 0) matches Some(i) ==> occurs_at(text, pat, i) && forall|j: int|
            0 <= j < i ==> !occurs_at(text, pat, j),
        first_from(text, pat, 0) is None <==> forall|j: int| 0 <= j ==> !occurs_at(text, pat, j),
{
    lemma_first_from(text, pat, 0);
}

/// A use with a fetched value - empty or not - is replaced by that value
/// where it first stands: the reply is the message before that use, the
/// value, then the message after it.
pub proof fn discord_fills_a_value(s: DiscordState, e: DiscordEvent, s2: DiscordState, a: DiscordAction, i: int)
    requires
        s matches DiscordState::AwaitValues { message, uses } && uses.len() == 1 && first_from(message@, uses[0]@, 0)
            == Some(i),
        e matches DiscordEvent::Values(values) && values.len() == 1 && values[0] is Some,
        discord_next(s, e, s2, a),
    ensures
        s matches DiscordState::AwaitValues { message, uses } && e matches DiscordEvent::Values(values)
            && a matches DiscordAction::Say(t) && t@ == message@.take(i) + values[0]->Some_0@ + message@.skip(
            i + uses[0]@.len(),
        ),
{
    let uses = s->AwaitValues_uses;
    let values = e->Values_0;
    assert(views(uses@).drop_last().len() == 0);
    assert(opt_views(values@).drop_last().len() == 0);
    assert(views(uses@).last() == uses[0]@);
    assert(opt_views(values@).last() == Some(values[0]->Some_0@));
    let m = s->AwaitValues_message@;
    let uv = views(uses@);
    let vv = opt_views(values@);
    assert(substitute(m, uv.drop_last(), vv.drop_last()) == m);
    assert(substitute(m, uv, vv) == replace_first_spec(m, uses[0]@, values[0]->Some_0@));
}

/// A title change, answered from a store, reads the channel's id and then
/// its token, and puts the new title to the Kraken channel of the stored id
/// with the headers made from the stored token.
pub proof fn title_call_carries_stored_token(
    store: Store,
    channel: Seq<char>,
    client_id: Seq<char>,
    title: Seq<char>,
    s0: TitleState,
    a0: Action,
    e0: Event,
    s1: TitleState,
    a1: Action,
    e1: Event,
    s2: TitleState,
    a2: Action,
)
    requires
        title_start(channel, client_id, title, s0, a0),
        get_answer(store, a0, e0),
        title_next(s0, e0, s1, a1),
        get_answer(store, a1, e1),
        title_next(s1, e1, s2, a2),
        store.strings.dom().contains(token_key(channel)),
        values_ok(twitch_header_list(store.strings[token_key(channel)], client_id, true)),
    ensures
        a1 matches Action::Get { key } && key@ == token_key(channel),
        calls(
            a2,
            HttpMethod::Put,
            kraken_channel_url(store.strings[id_key(channel)]),
            twitch_header_list(store.strings[token_key(channel)], client_id, true),
            Some(status_body(title)),
        ),
{
}

} // verus!
