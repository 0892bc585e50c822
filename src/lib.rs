//! Command routing and voice-session decisions for a small chat bot.
//!
//! The library holds the logic: splitting a message into a command and its
//! arguments, checking links, and deciding what each command does to the
//! per-guild voice sessions. Talking to the chat gateway and the voice
//! service is left to the caller, who performs the returned actions.

mod bot;
mod laws;
mod link;
mod router;
mod text;

pub use bot::{
    invalid_link_text, leave_replies, left_voice_text, missing_link_text, not_in_voice_text,
    not_in_voice_to_play_text, plan_play, play_effect, playing_text, pong_text, step,
    stream_reply, Action, Effect, VoiceBot,
};
pub use laws::{
    leave_without_session_is_harmless, ping_always_answers, play_with_bad_link_is_refused,
    play_without_link_is_refused, second_join_wins, unprefixed_message_is_ignored,
};
pub use link::{youtube_link_match, YOUTUBE_LINK};
pub use router::{
    command_name, command_names_are_distinct, lookup, parse, prefix_text, route, same_text, starts_with, Command, Invocation,
    PREFIX,
};
pub use text::{
    flush, is_space, is_space_char, join_words, joined, split_words, words, words_from,
};
