use vstd::prelude::*;
use crate::bot::{
    invalid_link_text, missing_link_text, not_in_voice_text, pong_text, step, Effect,
};
use crate::link::youtube_link_match;
use crate::router::{parse, prefix_text, starts_with, Command};

verus! {

/// A message that does not open with the prefix changes nothing and asks
/// for nothing.
pub proof fn unprefixed_message_is_ignored(
    sessions: Map<u64, u64>,
    content: Seq<char>,
    guild: Option<u64>,
    voice: Option<u64>,
)
    requires
        !starts_with(content, prefix_text()),
    ensures
        step(sessions, content, guild, voice) == (sessions, Effect::Ignore),
{
}

/// `play` with no argument answers that the link is missing and plays
/// nothing.
pub proof fn play_without_link_is_refused(
    sessions: Map<u64, u64>,
    content: Seq<char>,
    guild: u64,
    voice: Option<u64>,
)
    requires
        parse(content) == Some((Command::Play, Seq::<char>::empty())),
    ensures
        step(sessions, content, Some(guild), voice) == (
            sessions,
            Effect::Say(missing_link_text()),
        ),
{
}

/// `play` with an argument that is not a link to a video answers that the
/// link is invalid and plays nothing.
pub proof fn play_with_bad_link_is_refused(
    sessions: Map<u64, u64>,
    content: Seq<char>,
    args: Seq<char>,
    guild: u64,
    voice: Option<u64>,
)
    requires
        parse(content) == Some((Command::Play, args)),
        args.len() > 0,
        !youtube_link_match(args),
    ensures
        step(sessions, content, Some(guild), voice) == (
            sessions,
            Effect::Say(invalid_link_text()),
        ),
{
}

/// `leave` in a guild without a session answers that the bot is not in a
/// voice channel and changes nothing.
pub proof fn leave_without_session_is_harmless(
    sessions: Map<u64, u64>,
    content: Seq<char>,
    args: Seq<char>,
    guild: u64,
    voice: Option<u64>,
)
    requires
        parse(content) == Some((Command::Leave, args)),
        !sessions.contains_key(guild),
    ensures
        step(sessions, content, Some(guild), voice) == (
            sessions,
            Effect::Say(not_in_voice_text()),
        ),
{
}

/// Two `join`s in one guild leave that guild one session, in the channel of
/// the second; other guilds keep theirs.
pub proof fn second_join_wins(
    sessions: Map<u64, u64>,
    first: Seq<char>,
    first_args: Seq<char>,
    second: Seq<char>,
    second_args: Seq<char>,
    guild: u64,
    first_channel: u64,
    second_channel: u64,
)
    requires
        parse(first) == Some((Command::Join, first_args)),
        parse(second) == Some((Command::Join, second_args)),
    ensures
        ({
            let (after_first, _) = step(sessions, first, Some(guild), Some(first_channel));
            let (after_second, effect) = step(
                after_first,
                second,
                Some(guild),
                Some(second_channel),
            );
            &&& after_second.contains_key(guild)
            &&& after_second[guild] == second_channel
            &&& after_second == sessions.insert(guild, second_channel)
            &&& effect == Effect::Attach(guild, second_channel)
        }),
{
    assert(sessions.insert(guild, first_channel).insert(guild, second_channel) =~= sessions.insert(
        guild,
        second_channel,
    ));
}

/// `ping` answers "Pong!" whatever follows it, in a guild or not.
pub proof fn ping_always_answers(
    sessions: Map<u64, u64>,
    content: Seq<char>,
    args: Seq<char>,
    guild: Option<u64>,
    voice: Option<u64>,
)
    requires
        parse(content) == Some((Command::Ping, args)),
    ensures
        step(sessions, content, guild, voice) == (sessions, Effect::Say(pong_text())),
{
}

} // verus!
