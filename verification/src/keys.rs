//! The names under which the bot keeps its data in redis, and the Twitch
//! endpoints and request bodies it sends.
use crate::text::{concat2, concat3};
use vstd::prelude::*;

verus! {

/// `channel:{channel}:{field}`.
pub open spec fn channel_key(channel: Seq<char>, field: Seq<char>) -> Seq<char> {
    "channel:"@ + channel + ":"@ + field
}

/// `bot:{bot}:{field}`.
pub open spec fn bot_key(bot: Seq<char>, field: Seq<char>) -> Seq<char> {
    "bot:"@ + bot + ":"@ + field
}

/// The set of all channels the bot serves.
pub open spec fn channels_set() -> Seq<char> {
    "channels"@
}

/// Where a channel's password hash is kept.
pub open spec fn password_key(channel: Seq<char>) -> Seq<char> {
    channel_key(channel, "password"@)
}

/// Where a channel's Twitch access token is kept.
pub open spec fn token_key(channel: Seq<char>) -> Seq<char> {
    channel_key(channel, "token"@)
}

/// Where a channel's Twitch id is kept.
pub open spec fn id_key(channel: Seq<char>) -> Seq<char> {
    channel_key(channel, "id"@)
}

/// The hash of a channel's settings.
pub open spec fn settings_key(channel: Seq<char>) -> Seq<char> {
    channel_key(channel, "settings"@)
}

/// The hash that describes one command of a channel.
pub open spec fn command_key(channel: Seq<char>, command: Seq<char>) -> Seq<char> {
    channel_key(channel, "commands:"@ + command)
}

/// The pub/sub channel on which moderator commands are signalled.
pub open spec fn command_signal_channel(channel: Seq<char>) -> Seq<char> {
    channel_key(channel, "signals:command"@)
}

/// The Kraken endpoint of a channel, by its Twitch id.
pub open spec fn kraken_channel_url(id: Seq<char>) -> Seq<char> {
    "https://api.twitch.tv/kraken/channels/"@ + id
}

/// The Helix search for a game by name.
pub open spec fn helix_games_url(game: Seq<char>) -> Seq<char> {
    "https://api.twitch.tv/helix/games?name="@ + game
}

/// The Helix endpoint that describes the user who owns a token.
pub open spec fn helix_users_url() -> Seq<char> {
    "https://api.twitch.tv/helix/users"@
}

/// The form body that sets a channel's title.
pub open spec fn status_body(title: Seq<char>) -> Seq<char> {
    "channel[status]="@ + title
}

/// The form body that sets a channel's game.
pub open spec fn game_body(game: Seq<char>) -> Seq<char> {
    "channel[game]="@ + game
}

/// Builds `channel:{channel}:{field}`.
pub fn channel_field_key(channel: &str, field: &str) -> (r: String)
    ensures
        r@ == channel_key(channel@, field@),
{
    let mut r = concat3("channel:", channel, ":");
    r.append(field);
    r
}

/// Builds `bot:{bot}:{field}`.
pub fn bot_field_key(bot: &str, field: &str) -> (r: String)
    ensures
        r@ == bot_key(bot@, field@),
{
    let mut r = concat3("bot:", bot, ":");
    r.append(field);
    r
}

/// Builds the key of a channel's command hash.
pub fn channel_command_key(channel: &str, command: &str) -> (r: String)
    ensures
        r@ == command_key(channel@, command@),
{
    let mut r = concat3("channel:", channel, ":commands:");
    r.append(command);
    proof {
        assert("channel:"@ + channel@ + ":commands:"@ + command@ =~= "channel:"@ + channel@ + ":"@ + (
        "commands:"@ + command@)) by {
            reveal_strlit(":commands:");
            reveal_strlit(":");
            reveal_strlit("commands:");
        }
    }
    r
}

/// Builds the Kraken endpoint of a channel.
pub fn kraken_channel_endpoint(id: &str) -> (r: String)
    ensures
        r@ == kraken_channel_url(id@),
{
    concat2("https://api.twitch.tv/kraken/channels/", id)
}

/// Builds the Helix game search for a name.
pub fn helix_games_endpoint(game: &str) -> (r: String)
    ensures
        r@ == helix_games_url(game@),
{
    concat2("https://api.twitch.tv/helix/games?name=", game)
}

/// Builds the form body that sets a channel's title.
pub fn status_form(title: &str) -> (r: String)
    ensures
        r@ == status_body(title@),
{
    concat2("channel[status]=", title)
}

/// Builds the form body that sets a channel's game.
pub fn game_form(game: &str) -> (r: String)
    ensures
        r@ == game_body(game@),
{
    concat2("channel[game]=", game)
}

} // verus!
