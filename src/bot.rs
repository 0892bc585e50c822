use vstd::prelude::*;
use std::collections::HashMap;
use crate::link::{is_youtube_link, youtube_link_match};
use crate::router::{parse, route, Command};

verus! {

broadcast use vstd::std_specs::hash::group_hash_axioms;

/// What a message leads to, in the model.
pub enum Effect {
    Ignore,
    Say(Seq<char>),
    Attach(u64, u64),
    Detach(u64),
    Stream(u64, Seq<char>),
}

/// What the caller is to do after a message.
#[derive(Clone, Debug, PartialEq, Eq)]
pub enum Action {
    /// Nothing: the message is not for this bot.
    Ignore,
    /// Send this text to the channel the message came from.
    Say(String),
    /// Connect to `channel` in `guild`, replacing the guild's session.
    Attach { guild: u64, channel: u64 },
    /// Drop the session of `guild`, then report with `leave_replies`.
    Detach { guild: u64 },
    /// Fetch `url` and play it in the session of `guild`, then report with
    /// `stream_reply`.
    Stream { guild: u64, url: String },
}

impl View for Action {
    type V = Effect;

    open spec fn view(&self) -> Effect {
        match self {
            Action::Ignore => Effect::Ignore,
            Action::Say(t) => Effect::Say(t@),
            Action::Attach { guild, channel } => Effect::Attach(*guild, *channel),
            Action::Detach { guild } => Effect::Detach(*guild),
            Action::Stream { guild, url } => Effect::Stream(*guild, url@),
        }
    }
}

pub open spec fn pong_text() -> Seq<char> {
    "Pong!"@
}

pub open spec fn missing_link_text() -> Seq<char> {
    "**Missing link**"@
}

pub open spec fn invalid_link_text() -> Seq<char> {
    "**Not a valid youtube link**"@
}

pub open spec fn not_in_voice_text() -> Seq<char> {
    "Not in a voice channel"@
}

pub open spec fn not_in_voice_to_play_text() -> Seq<char> {
    "Not in a voice channel to play in"@
}

pub open spec fn left_voice_text() -> Seq<char> {
    "Left voice channel"@
}

pub open spec fn playing_text() -> Seq<char> {
    "Playing song"@
}

/// What `play` does with its argument text, given whether it is a link to a
/// video and whether the guild has a session.
pub open spec fn play_effect(args: Seq<char>, is_link: bool, guild: u64, in_session: bool) -> Effect {
    if args.len() == 0 {
        Effect::Say(missing_link_text())
    } else if !is_link {
        Effect::Say(invalid_link_text())
    } else if in_session {
        Effect::Stream(guild, args)
    } else {
        Effect::Say(not_in_voice_to_play_text())
    }
}

/// The sessions after a message and what it leads to. `sessions` maps a guild
/// to the voice channel of its session; `guild` is where the message was sent
/// (none for a direct message) and `voice` the channel its author is in.
pub open spec fn step(
    sessions: Map<u64, u64>,
    content: Seq<char>,
    guild: Option<u64>,
    voice: Option<u64>,
) -> (Map<u64, u64>, Effect) {
    match parse(content) {
        None => (sessions, Effect::Ignore),
        Some((Command::Ping, _)) => (sessions, Effect::Say(pong_text())),
        Some((command, args)) => match guild {
            None => (sessions, Effect::Ignore),
            Some(g) => match command {
                Command::Join => match voice {
                    None => (sessions, Effect::Say(not_in_voice_text())),
                    Some(ch) => (sessions.insert(g, ch), Effect::Attach(g, ch)),
                },
                Command::Leave => if sessions.contains_key(g) {
                    (sessions.remove(g), Effect::Detach(g))
                } else {
                    (sessions, Effect::Say(not_in_voice_text()))
                },
                _ => (
                    sessions,
                    play_effect(args, youtube_link_match(args), g, sessions.contains_key(g)),
                ),
            },
        },
    }
}

/// Decides `play` once the link check has been made.
pub fn plan_play(args: &str, is_link: bool, guild: u64, in_session: bool) -> (r: Action)
    ensures
        r@ == play_effect(args@, is_link, guild, in_session),
{
    if args.unicode_len() == 0 {
        Action::Say(String::from_str("**Missing link**"))
    } else if !is_link {
        Action::Say(String::from_str("**Not a valid youtube link**"))
    } else if in_session {
        Action::Stream { guild, url: String::from_str(args) }
    } else {
        Action::Say(String::from_str("Not in a voice channel to play in"))
    }
}

/// The replies after a session was dropped: the failure, if the voice
/// service reported one, then the confirmation.
pub fn leave_replies(result: &Result<(), String>) -> (r: Vec<String>)
    ensures
        r.deep_view() == match result {
            Ok(()) => seq![left_voice_text()],
            Err(e) => seq!["Failed: "@ + e@, left_voice_text()],
        },
{
    let mut r: Vec<String> = Vec::new();
    match result {
        Ok(()) => {},
        Err(e) => {
            r.push(String::from_str("Failed: ").concat(e.as_str()));
        },
    }
    r.push(String::from_str("Left voice channel"));
    assert(r.deep_view() =~= match result {
        Ok(()) => seq![left_voice_text()],
        Err(e) => seq!["Failed: "@ + e@, left_voice_text()],
    });
    r
}

/// The reply after a link was fetched for playing, or failed to be.
pub fn stream_reply(result: &Result<(), String>) -> (r: String)
    ensures
        r@ == match result {
            Ok(()) => playing_text(),
            Err(why) => "Error: "@ + why@,
        },
{
    match result {
        Ok(()) => String::from_str("Playing song"),
        Err(why) => String::from_str("Error: ").concat(why.as_str()),
    }
}

/// The bot's state: at most one voice session per guild.
pub struct VoiceBot {
    sessions: HashMap<u64, u64>,
}

impl View for VoiceBot {
    type V = Map<u64, u64>;

    closed spec fn view(&self) -> Map<u64, u64> {
        self.sessions@
    }
}

impl VoiceBot {
    /// A bot with no sessions.
    pub fn new() -> (r: VoiceBot)
        ensures
            r@ == Map::<u64, u64>::empty(),
    {
        VoiceBot { sessions: HashMap::new() }
    }

    /// The voice channel of the session of `guild`, if it has one.
    pub fn session(&self, guild: u64) -> (r: Option<u64>)
        ensures
            r == (if self@.contains_key(guild) {
                Some(self@[guild])
            } else {
                None
            }),
    {
        match self.sessions.get(&guild) {
            Some(ch) => Some(*ch),
            None => None,
        }
    }

    /// Takes in a message and says what to do about it; the sessions change
    /// as `step` says.
    pub fn handle(&mut self, content: &str, guild: Option<u64>, voice: Option<u64>) -> (r: Action)
        ensures
            (final(self)@, r@) == step(old(self)@, content@, guild, voice),
    {
        let inv = match route(content) {
            None => return Action::Ignore,
            Some(inv) => inv,
        };
        if inv.command == Command::Ping {
            return Action::Say(String::from_str("Pong!"));
        }
        let g = match guild {
            None => return Action::Ignore,
            Some(g) => g,
        };
        match inv.command {
            Command::Join => match voice {
                None => Action::Say(String::from_str("Not in a voice channel")),
                Some(ch) => {
                    self.sessions.insert(g, ch);
                    Action::Attach { guild: g, channel: ch }
                },
            },
            Command::Leave => {
                if self.sessions.contains_key(&g) {
                    self.sessions.remove(&g);
                    Action::Detach { guild: g }
                } else {
                    Action::Say(String::from_str("Not in a voice channel"))
                }
            },
            _ => {
                let is_link = is_youtube_link(inv.args.as_str());
                let in_session = self.sessions.contains_key(&g);
                plan_play(inv.args.as_str(), is_link, g, in_session)
            },
        }
    }
}

} // verus!
