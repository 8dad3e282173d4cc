//! The Discord handler's decisions. A message in the channel's moderator
//! channel is relayed, with custom emotes reduced to their names, as a
//! command signal; any other message whose first word names a command of
//! the channel is answered with that command's message, its variables
//! filled in.
use crate::keys::{channel_field_key, channel_command_key, command_key, command_signal_channel, settings_key};
use crate::pattern::{capture_views, regex_capture_list, regex_captures, regex_replace_by_group, regex_replaced};
use crate::text::{concat3, lower, lowercase, owned, replace_first, replace_first_spec, split_words, views, words};
use vstd::prelude::*;

verus! {

/// The field of the settings hash that names the moderator channel.
pub open spec fn mod_channel_field() -> Seq<char> {
    "discord:mod-channel"@
}

/// A custom emote as Discord writes it: `<:name:id>`; group 1 is the name.
pub open spec fn emote_pattern() -> Seq<char> {
    "<:(\\w+):\\d+>"@
}

/// The pattern that finds a use of the variable `var` in a command's
/// message: `(var args)`; group 1 holds the arguments.
pub open spec fn var_pattern(var: Seq<char>) -> Seq<char> {
    "\\("@ + var + " ?((?:[\\w\\-\\?\\._:/&!= ]+)*)\\)"@
}

/// One use of a variable whose value is fetched from elsewhere: the
/// variable, the text of the use, and its arguments.
#[derive(Debug, PartialEq, Eq)]
pub struct AsyncCall {
    pub var: String,
    pub capture: String,
    pub vargs: Vec<String>,
}

/// An `AsyncCall` with its strings taken as character sequences.
pub struct CallView {
    pub var: Seq<char>,
    pub capture: Seq<char>,
    pub vargs: Seq<Seq<char>>,
}

impl View for AsyncCall {
    type V = CallView;

    open spec fn view(&self) -> CallView {
        CallView { var: self.var@, capture: self.capture@, vargs: views(self.vargs@) }
    }
}

/// The views of a list of calls.
pub open spec fn call_views(v: Seq<AsyncCall>) -> Seq<CallView> {
    v.map_values(|c: AsyncCall| c@)
}

/// The calls for the uses of `var` among these matches: one per match whose
/// argument group took part, its arguments split at whitespace.
pub open spec fn calls_for(var: Seq<char>, caps: Seq<(Seq<char>, Option<Seq<char>>)>) -> Seq<CallView>
    decreases caps.len(),
{
    if caps.len() == 0 {
        Seq::empty()
    } else {
        let prev = calls_for(var, caps.drop_last());
        match caps.last().1 {
            Some(g) => prev.push(CallView { var, capture: caps.last().0, vargs: words(g) }),
            None => prev,
        }
    }
}

/// The calls for the uses of all of `vars` in `message`, variable by
/// variable; `None` when a variable's pattern does not compile.
pub open spec fn all_calls(vars: Seq<Seq<char>>, message: Seq<char>) -> Option<Seq<CallView>>
    decreases vars.len(),
{
    if vars.len() == 0 {
        Some(Seq::empty())
    } else {
        match (all_calls(vars.drop_last(), message), regex_capture_list(var_pattern(vars.last()), message)) {
            (Some(prev), Some(caps)) => Some(prev + calls_for(vars.last(), caps)),
            _ => None,
        }
    }
}

/// `message` with the uses replaced, in order, by the values fetched for
/// them; a use with no value stays.
pub open spec fn substitute(message: Seq<char>, uses: Seq<Seq<char>>, values: Seq<Option<Seq<char>>>) -> Seq<char>
    decreases uses.len(),
{
    if uses.len() == 0 || values.len() == 0 {
        message
    } else {
        let prev = substitute(message, uses.drop_last(), values.drop_last());
        match values.last() {
            Some(v) => replace_first_spec(prev, uses.last(), v),
            None => prev,
        }
    }
}

/// The views of a list of optional strings.
pub open spec fn opt_views(v: Seq<Option<String>>) -> Seq<Option<Seq<char>>> {
    v.map_values(|o: Option<String>| crate::text::opt_view(o))
}

/// Where the handling of a message stands.
#[derive(Debug, PartialEq, Eq)]
pub enum DiscordState {
    /// Waiting for the channel's moderator channel.
    AwaitModChannel { channel: String, source: String, content: String, async_vars: Vec<String> },
    /// Waiting for the message of the command the first word names.
    AwaitCommand { channel: String, args: Vec<String>, async_vars: Vec<String> },
    /// Waiting for the command's message with its plain variables filled in.
    AwaitExpansion { args: Vec<String>, async_vars: Vec<String> },
    /// Waiting for the values of the variables fetched from elsewhere.
    AwaitValues { message: String, uses: Vec<String> },
    Finished,
}

/// Why the handler gives up on a message.
#[derive(Debug, PartialEq, Eq)]
pub enum DiscordFault {
    /// A pattern did not compile.
    BadPattern,
    /// The event does not answer the action asked for.
    UnexpectedEvent,
}

/// The outside work the handler asks for next.
#[derive(Debug, PartialEq, Eq)]
pub enum DiscordAction {
    /// `HGET key field`; answered by `ModChannel` or `Command`.
    HashGet { key: String, field: String },
    /// `PUBLISH channel message`; nothing more is done.
    Publish { channel: String, message: String },
    /// Fill in the plain variables of a command's message, given the
    /// channel and the words after the command; answered by `Expanded`.
    Expand { message: String, channel: String, args: Vec<String> },
    /// Fetch the values of these uses, given the words after the command;
    /// answered by `Values`, one per call, in order.
    Resolve { calls: Vec<AsyncCall>, args: Vec<String> },
    /// Say this in the channel the message came from.
    Say(String),
    /// Nothing to do.
    Ignore,
    /// Give up on the message.
    Fault(DiscordFault),
}

/// What a piece of outside work gave.
#[derive(Debug, PartialEq, Eq)]
pub enum DiscordEvent {
    ModChannel(String),
    Command(Option<String>),
    Expanded(String),
    Values(Vec<Option<String>>),
}

fn clone_strings(v: &Vec<String>) -> (r: Vec<String>)
    ensures
        views(r@) == views(v@),
{
    let mut r: Vec<String> = Vec::new();
    let mut i: usize = 0;
    while i < v.len()
        invariant
            i <= v.len(),
            r.len() == i,
            forall|j: int| 0 <= j < i ==> #[trigger] r@[j]@ == v@[j]@,
        decreases v.len() - i,
    {
        let c = v[i].clone();
        r.push(c);
        i += 1;
    }
    assert(views(r@) =~= views(v@));
    r
}

/// Handling a message starts by reading which channel is the moderator
/// channel. `source` is the id of the channel the message came from, and
/// `async_vars` the variables whose values are fetched from elsewhere.
pub fn discord_begin(channel: String, source: String, content: String, async_vars: Vec<String>) -> (r: (DiscordState, DiscordAction))
    ensures
        r.0 matches DiscordState::AwaitModChannel { channel: c, source: s, content: t, async_vars: v }
            && c@ == channel@ && s@ == source@ && t@ == content@ && views(v@) == views(async_vars@),
        r.1 matches DiscordAction::HashGet { key, field } && key@ == settings_key(channel@) && field@
            == mod_channel_field(),
{
    let key = channel_field_key(channel.as_str(), "settings");
    let field = owned("discord:mod-channel");
    (DiscordState::AwaitModChannel { channel, source, content, async_vars }, DiscordAction::HashGet { key, field })
}

/// One step of the handling of a message.
pub open spec fn discord_next(s: DiscordState, e: DiscordEvent, s2: DiscordState, a: DiscordAction) -> bool {
    match (s, e) {
        (DiscordState::AwaitModChannel { channel, source, content, async_vars }, DiscordEvent::ModChannel(id)) => {
            if source@ == id@ {
                match regex_replaced(emote_pattern(), content@, 1) {
                    Some(text) => {
                        &&& s2 is Finished
                        &&& a matches DiscordAction::Publish { channel: c, message: m }
                            && c@ == command_signal_channel(channel@) && m@ == text
                    },
                    None => s2 is Finished && a == DiscordAction::Fault(DiscordFault::BadPattern),
                }
            } else {
                let ws = words(content@);
                if ws.len() == 0 {
                    s2 is Finished && a is Ignore
                } else {
                    &&& s2 matches DiscordState::AwaitCommand { channel: c, args, async_vars: v }
                        && c@ == channel@ && views(args@) == ws.drop_first()
                        && views(v@) == views(async_vars@)
                    &&& a matches DiscordAction::HashGet { key, field }
                        && key@ == command_key(channel@, lowercase(ws[0])) && field@ == "message"@
                }
            }
        },
        (DiscordState::AwaitCommand { channel, args, async_vars }, DiscordEvent::Command(found)) => match found {
            None => s2 is Finished && a is Ignore,
            Some(message) => {
                &&& s2 matches DiscordState::AwaitExpansion { args: g, async_vars: v } && views(g@) == views(args@)
                    && views(v@) == views(async_vars@)
                &&& a matches DiscordAction::Expand { message: m, channel: c, args: g } && m@ == message@
                    && c@ == channel@ && views(g@) == views(args@)
            },
        },
        (DiscordState::AwaitExpansion { args, async_vars }, DiscordEvent::Expanded(message)) => {
            match all_calls(views(async_vars@), message@) {
                Some(calls) => {
                    &&& s2 matches DiscordState::AwaitValues { message: m, uses }
                        && m@ == message@ && views(uses@) == calls.map_values(|c: CallView| c.capture)
                    &&& a matches DiscordAction::Resolve { calls: cs, args: g }
                        && call_views(cs@) == calls && views(g@) == views(args@)
                },
                None => s2 is Finished && a == DiscordAction::Fault(DiscordFault::BadPattern),
            }
        },
        (DiscordState::AwaitValues { message, uses }, DiscordEvent::Values(values)) => {
            if values.len() == uses.len() {
                &&& s2 is Finished
                &&& a matches DiscordAction::Say(text) && text@ == substitute(
                    message@,
                    views(uses@),
                    opt_views(values@),
                )
            } else {
                s2 is Finished && a == DiscordAction::Fault(DiscordFault::UnexpectedEvent)
            }
        },
        _ => s2 is Finished && a == DiscordAction::Fault(DiscordFault::UnexpectedEvent),
    }
}

fn var_pattern_of(var: &str) -> (r: String)
    ensures
        r@ == var_pattern(var@),
{
    concat3("\\(", var, " ?((?:[\\w\\-\\?\\._:/&!= ]+)*)\\)")
}

/// The calls for the uses of each of `vars` in `message`, in order.
fn find_calls(vars: &Vec<String>, message: &str) -> (r: Option<Vec<AsyncCall>>)
    ensures
        match r {
            Some(cs) => all_calls(views(vars@), message@) == Some(call_views(cs@)),
            None => all_calls(views(vars@), message@) is None,
        },
{
    let mut calls: Vec<AsyncCall> = Vec::new();
    let mut i: usize = 0;
    while i < vars.len()
        invariant
            i <= vars.len(),
            all_calls(views(vars@).take(i as int), message@) == Some(call_views(calls@)),
        decreases vars.len() - i,
    {
        let ghost prefix = views(vars@).take(i as int + 1);
        assert(prefix.drop_last() =~= views(vars@).take(i as int));
        let caps = match regex_captures(var_pattern_of(vars[i].as_str()).as_str(), message) {
            Some(caps) => caps,
            None => {
                proof {
                    lemma_all_calls_none_extends(views(vars@), message@, i as int + 1);
                }
                return None;
            },
        };
        let ghost before = call_views(calls@);
        let mut k: usize = 0;
        while k < caps.len()
            invariant
                k <= caps.len(),
                i < vars.len(),
                call_views(calls@) == before + calls_for(vars[i as int]@, capture_views(caps@).take(k as int)),
            decreases caps.len() - k,
        {
            assert(capture_views(caps@).take(k as int + 1).drop_last() =~= capture_views(caps@).take(k as int));
            match &caps[k].1 {
                Some(g) => {
                    let var = vars[i].clone();
                    let capture = caps[k].0.clone();
                    let call = AsyncCall { var, capture, vargs: split_words(g.as_str()) };
                    assert(call@.var == vars@[i as int]@);
                    assert(call@.capture == capture_views(caps@)[k as int].0);
                    assert(capture_views(caps@)[k as int].1 == Some(g@));
                    let ghost x = capture_views(caps@).take(k as int + 1);
                    let ghost cv = CallView { var: vars@[i as int]@, capture: capture_views(caps@)[k as int].0, vargs: words(g@) };
                    assert(x.last() == capture_views(caps@)[k as int]);
                    assert(call@ == cv);
                    assert(calls_for(vars@[i as int]@, x) == calls_for(vars@[i as int]@, x.drop_last()).push(cv));
                    let ghost old_calls = calls@;
                    calls.push(call);
                    assert(call_views(calls@) =~= call_views(old_calls).push(cv));
                    assert(call_views(calls@) =~= before + calls_for(vars[i as int]@, capture_views(caps@).take(k as int + 1)));
                },
                None => {},
            }
            k += 1;
        }
        assert(capture_views(caps@).take(caps.len() as int) =~= capture_views(caps@));
        i += 1;
    }
    assert(views(vars@).take(vars.len() as int) =~= views(vars@));
    Some(calls)
}

proof fn lemma_all_calls_none_extends(vars: Seq<Seq<char>>, message: Seq<char>, n: int)
    requires
        0 < n <= vars.len(),
        all_calls(vars.take(n), message) is None,
    ensures
        all_calls(vars, message) is None,
    decreases vars.len() - n,
{
    if n < vars.len() {
        assert(vars.take(n + 1).drop_last() =~= vars.take(n));
        lemma_all_calls_none_extends(vars, message, n + 1);
    } else {
        assert(vars.take(n) =~= vars);
    }
}

/// Fills the fetched values into a message, one use after the other.
fn fill_values(message: String, uses: &Vec<String>, values: &Vec<Option<String>>) -> (r: String)
    requires
        uses.len() == values.len(),
    ensures
        r@ == substitute(message@, views(uses@), opt_views(values@)),
{
    let mut text = message;
    let mut i: usize = 0;
    while i < uses.len()
        invariant
            i <= uses.len() == values.len(),
            text@ == substitute(message@, views(uses@).take(i as int), opt_views(values@).take(i as int)),
        decreases uses.len() - i,
    {
        assert(views(uses@).take(i as int + 1).drop_last() =~= views(uses@).take(i as int));
        assert(opt_views(values@).take(i as int + 1).drop_last() =~= opt_views(values@).take(i as int));
        match &values[i] {
            Some(v) => {
                text = replace_first(text.as_str(), uses[i].as_str(), v.as_str());
            },
            None => {},
        }
        i += 1;
    }
    assert(views(uses@).take(uses.len() as int) =~= views(uses@));
    assert(opt_views(values@).take(values.len() as int) =~= opt_views(values@));
    text
}

fn uses_of(calls: &Vec<AsyncCall>) -> (r: Vec<String>)
    ensures
        views(r@) == call_views(calls@).map_values(|c: CallView| c.capture),
{
    let mut r: Vec<String> = Vec::new();
    let mut i: usize = 0;
    while i < calls.len()
        invariant
            i <= calls.len(),
            r.len() == i,
            forall|j: int| 0 <= j < i ==> #[trigger] r@[j]@ == calls@[j].capture@,
        decreases calls.len() - i,
    {
        r.push(calls[i].capture.clone());
        i += 1;
    }
    assert(views(r@) =~= call_views(calls@).map_values(|c: CallView| c.capture));
    r
}

/// Advances the handling of a message by the result of the work it asked for.
pub fn discord_step(s: DiscordState, e: DiscordEvent) -> (r: (DiscordState, DiscordAction))
    ensures
        discord_next(s, e, r.0, r.1),
{
    match (s, e) {
        (DiscordState::AwaitModChannel { channel, source, content, async_vars }, DiscordEvent::ModChannel(id)) => {
            if source == id {
                match regex_replace_by_group("<:(\\w+):\\d+>", content.as_str(), 1) {
                    Some(text) => {
                        let signal = channel_field_key(channel.as_str(), "signals:command");
                        (DiscordState::Finished, DiscordAction::Publish { channel: signal, message: text })
                    },
                    None => (DiscordState::Finished, DiscordAction::Fault(DiscordFault::BadPattern)),
                }
            } else {
                let mut ws = split_words(content.as_str());
                if ws.len() == 0 {
                    (DiscordState::Finished, DiscordAction::Ignore)
                } else {
                    let first = ws.remove(0);
                    let word = lower(first.as_str());
                    let key = channel_command_key(channel.as_str(), word.as_str());
                    assert(views(ws@) =~= words(content@).drop_first());
                    (
                        DiscordState::AwaitCommand { channel, args: ws, async_vars },
                        DiscordAction::HashGet { key, field: owned("message") },
                    )
                }
            }
        },
        (DiscordState::AwaitCommand { channel, args, async_vars }, DiscordEvent::Command(found)) => match found {
            None => (DiscordState::Finished, DiscordAction::Ignore),
            Some(message) => {
                let g = clone_strings(&args);
                let c = channel.clone();
                (
                    DiscordState::AwaitExpansion { args, async_vars },
                    DiscordAction::Expand { message, channel: c, args: g },
                )
            },
        },
        (DiscordState::AwaitExpansion { args, async_vars }, DiscordEvent::Expanded(message)) => {
            match find_calls(&async_vars, message.as_str()) {
                Some(calls) => {
                    let uses = uses_of(&calls);
                    (DiscordState::AwaitValues { message, uses }, DiscordAction::Resolve { calls, args })
                },
                None => (DiscordState::Finished, DiscordAction::Fault(DiscordFault::BadPattern)),
            }
        },
        (DiscordState::AwaitValues { message, uses }, DiscordEvent::Values(values)) => {
            if values.len() == uses.len() {
                (DiscordState::Finished, DiscordAction::Say(fill_values(message, &uses, &values)))
            } else {
                (DiscordState::Finished, DiscordAction::Fault(DiscordFault::UnexpectedEvent))
            }
        },
        _ => (DiscordState::Finished, DiscordAction::Fault(DiscordFault::UnexpectedEvent)),
    }
}

} // verus!
