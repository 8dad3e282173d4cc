use babblebot::discord::{
    discord_begin, discord_step, AsyncCall, DiscordAction, DiscordEvent, DiscordFault, DiscordState,
};

fn s(x: &str) -> String {
    x.to_string()
}

fn begin(content: &str, source: &str, vars: &[&str]) -> DiscordState {
    let (st, a) = discord_begin(s("abc"), s(source), s(content), vars.iter().map(|v| s(v)).collect());
    assert_eq!(a, DiscordAction::HashGet { key: s("channel:abc:settings"), field: s("discord:mod-channel") });
    st
}

#[test]
fn mod_channel_messages_are_relayed_without_emote_ids() {
    let st = begin("!title <:Kappa:123456> new <:PogChamp:9> title", "555", &[]);
    let (st, a) = discord_step(st, DiscordEvent::ModChannel(s("555")));
    assert_eq!(st, DiscordState::Finished);
    assert_eq!(a, DiscordAction::Publish {
        channel: s("channel:abc:signals:command"),
        message: s("!title Kappa new PogChamp title"),
    });
}

#[test]
fn malformed_emotes_are_kept() {
    let st = begin("<:Kappa:> <Kappa:1> <:Kappa:12>", "1", &[]);
    let (_, a) = discord_step(st, DiscordEvent::ModChannel(s("1")));
    assert_eq!(a, DiscordAction::Publish { channel: s("channel:abc:signals:command"), message: s("<:Kappa:> <Kappa:1> Kappa") });
}

#[test]
fn other_messages_look_up_the_lowercased_command() {
    let st = begin("  !HeLLo  world  42 ", "1", &[]);
    let (st, a) = discord_step(st, DiscordEvent::ModChannel(s("2")));
    assert_eq!(a, DiscordAction::HashGet { key: s("channel:abc:commands:!hello"), field: s("message") });
    let (st, a) = discord_step(st, DiscordEvent::Command(Some(s("Hi (user)!"))));
    assert_eq!(a, DiscordAction::Expand { message: s("Hi (user)!"), channel: s("abc"), args: vec![s("world"), s("42")] });
    let (st, a) = discord_step(st, DiscordEvent::Expanded(s("Hi bob!")));
    assert_eq!(a, DiscordAction::Resolve { calls: vec![], args: vec![s("world"), s("42")] });
    let (st, a) = discord_step(st, DiscordEvent::Values(vec![]));
    assert_eq!(st, DiscordState::Finished);
    assert_eq!(a, DiscordAction::Say(s("Hi bob!")));
}

#[test]
fn empty_messages_and_unknown_commands_are_ignored() {
    let st = begin("   ", "1", &[]);
    assert_eq!(discord_step(st, DiscordEvent::ModChannel(s("2"))).1, DiscordAction::Ignore);
    let st = begin("!nope", "1", &[]);
    let (st, _) = discord_step(st, DiscordEvent::ModChannel(s("2")));
    assert_eq!(discord_step(st, DiscordEvent::Command(None)).1, DiscordAction::Ignore);
}

#[test]
fn fetched_variables_are_filled_in_order() {
    let st = begin("!up now", "1", &["uptime", "game"]);
    let (st, _) = discord_step(st, DiscordEvent::ModChannel(s("2")));
    let (st, _) = discord_step(st, DiscordEvent::Command(Some(s("raw"))));
    let msg = "Up (uptime) playing (game abc x-y) and (uptime)";
    let (st, a) = discord_step(st, DiscordEvent::Expanded(s(msg)));
    assert_eq!(a, DiscordAction::Resolve {
        calls: vec![
            AsyncCall { var: s("uptime"), capture: s("(uptime)"), vargs: vec![] },
            AsyncCall { var: s("uptime"), capture: s("(uptime)"), vargs: vec![] },
            AsyncCall { var: s("game"), capture: s("(game abc x-y)"), vargs: vec![s("abc"), s("x-y")] },
        ],
        args: vec![s("now")],
    });
    let (_, a) = discord_step(st, DiscordEvent::Values(vec![Some(s("3h")), Some(s("4h")), Some(s("Chess"))]));
    assert_eq!(a, DiscordAction::Say(s("Up 3h playing Chess and 4h")));
}

#[test]
fn variables_without_a_value_stay() {
    let st = DiscordState::AwaitValues { message: s("a (x) b (y)"), uses: vec![s("(x)"), s("(y)")] };
    assert_eq!(discord_step(st, DiscordEvent::Values(vec![None, Some(s("Y"))])).1, DiscordAction::Say(s("a (x) b Y")));
}

#[test]
fn wrong_number_of_values_is_a_fault() {
    let st = DiscordState::AwaitValues { message: s("a (x)"), uses: vec![s("(x)")] };
    assert_eq!(discord_step(st, DiscordEvent::Values(vec![])).1, DiscordAction::Fault(DiscordFault::UnexpectedEvent));
}

#[test]
fn a_variable_that_breaks_its_pattern_is_a_fault() {
    let st = DiscordState::AwaitExpansion { args: vec![], async_vars: vec![s("bad(")] };
    assert_eq!(discord_step(st, DiscordEvent::Expanded(s("x"))).1, DiscordAction::Fault(DiscordFault::BadPattern));
}
