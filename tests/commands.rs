use voicebot::{
    is_space_char, join_words, leave_replies, plan_play, route, same_text, split_words,
    stream_reply, Action, Command, VoiceBot, PREFIX, YOUTUBE_LINK,
};

fn words(s: &str) -> Vec<String> {
    split_words(s)
}

#[test]
fn prefix_is_dash() {
    assert_eq!(PREFIX, "-");
}

#[test]
fn split_on_mixed_whitespace() {
    assert_eq!(words("  a\tbb \n ccc  "), vec!["a", "bb", "ccc"]);
    assert_eq!(words(""), Vec::<String>::new());
    assert_eq!(words(" \t\r\n "), Vec::<String>::new());
    assert_eq!(words("x\u{3000}y\u{a0}z"), vec!["x", "y", "z"]);
    assert_eq!(words("one"), vec!["one"]);
}

#[test]
fn space_characters() {
    for c in [' ', '\t', '\n', '\r', '\u{b}', '\u{c}', '\u{85}', '\u{a0}', '\u{2000}', '\u{200a}', '\u{3000}'] {
        assert!(is_space_char(c), "{:?}", c);
        assert!(c.is_whitespace());
    }
    for c in ['a', '-', '\u{200b}', '\u{200c}', '_', '0'] {
        assert!(!is_space_char(c), "{:?}", c);
        assert!(!c.is_whitespace());
    }
}

#[test]
fn space_characters_agree_with_std() {
    for n in 0..=0x10FFFFu32 {
        if let Some(c) = char::from_u32(n) {
            assert_eq!(is_space_char(c), c.is_whitespace(), "{:#x}", n);
        }
    }
}

#[test]
fn join_from_index() {
    let ws = vec!["play".to_string(), "a".to_string(), "b".to_string()];
    assert_eq!(join_words(&ws, 0), "play a b");
    assert_eq!(join_words(&ws, 1), "a b");
    assert_eq!(join_words(&ws, 3), "");
}

#[test]
fn text_equality() {
    assert!(same_text("ping", "ping"));
    assert!(!same_text("ping", "Ping"));
    assert!(!same_text("ping", "pin"));
    assert!(same_text("", ""));
}

#[test]
fn route_picks_command_and_arguments() {
    let inv = route("-play   https://youtu.be/x \t more").unwrap();
    assert_eq!(inv.command, Command::Play);
    assert_eq!(inv.args, "https://youtu.be/x more");
    let inv = route("-ping").unwrap();
    assert_eq!(inv.command, Command::Ping);
    assert_eq!(inv.args, "");
    assert_eq!(route("-join").unwrap().command, Command::Join);
    assert_eq!(route("-leave now").unwrap().command, Command::Leave);
    assert_eq!(route("- ping").unwrap().command, Command::Ping);
}

#[test]
fn route_ignores_other_messages() {
    assert_eq!(route("ping"), None);
    assert_eq!(route(""), None);
    assert_eq!(route("-"), None);
    assert_eq!(route("-   "), None);
    assert_eq!(route("-Ping"), None);
    assert_eq!(route("-dance"), None);
    assert_eq!(route("!play https://youtu.be/x"), None);
    assert_eq!(route(" -ping"), None);
}

#[test]
fn unprefixed_message_does_nothing() {
    let mut bot = VoiceBot::new();
    bot.handle("-join", Some(1), Some(10));
    for m in ["ping", "join", "leave", "play https://youtu.be/x", "hello -ping", ""] {
        assert_eq!(bot.handle(m, Some(1), Some(20)), Action::Ignore);
        assert_eq!(bot.session(1), Some(10));
    }
}

#[test]
fn play_without_link() {
    let mut bot = VoiceBot::new();
    bot.handle("-join", Some(1), Some(10));
    assert_eq!(bot.handle("-play", Some(1), None), Action::Say("**Missing link**".to_string()));
    assert_eq!(bot.handle("-play   \t", Some(1), None), Action::Say("**Missing link**".to_string()));
}

#[test]
fn play_with_invalid_link() {
    let mut bot = VoiceBot::new();
    bot.handle("-join", Some(1), Some(10));
    let bad = Action::Say("**Not a valid youtube link**".to_string());
    assert_eq!(bot.handle("-play https://example.com/watch?v=123", Some(1), None), bad);
    assert_eq!(bot.handle("-play hello", Some(1), None), bad);
    assert_eq!(bot.session(1), Some(10));
}

#[test]
fn play_with_valid_links() {
    let mut bot = VoiceBot::new();
    for url in ["https://www.youtube.com/watch?v=dQw4w9WgXcQ", "https://youtu.be/dQw4w9WgXcQ"] {
        let msg = format!("-play {}", url);
        assert_eq!(
            bot.handle(&msg, Some(1), None),
            Action::Say("Not in a voice channel to play in".to_string())
        );
    }
    bot.handle("-join", Some(1), Some(10));
    for url in ["https://www.youtube.com/watch?v=dQw4w9WgXcQ", "https://youtu.be/dQw4w9WgXcQ", "http://youtube.com/watch?v=abc&x=1"] {
        let msg = format!("-play {}", url);
        assert_eq!(
            bot.handle(&msg, Some(1), None),
            Action::Stream { guild: 1, url: url.to_string() }
        );
    }
}

#[test]
fn link_pattern_compiles_and_matches() {
    let re = regex::Regex::new(YOUTUBE_LINK).unwrap();
    assert!(re.is_match("https://youtu.be/dQw4w9WgXcQ"));
    assert!(!re.is_match("https://example.com/watch?v=123"));
}

#[test]
fn leave_without_session() {
    let mut bot = VoiceBot::new();
    assert_eq!(bot.handle("-leave", Some(1), Some(10)), Action::Say("Not in a voice channel".to_string()));
    assert_eq!(bot.session(1), None);
}

#[test]
fn leave_twice() {
    let mut bot = VoiceBot::new();
    bot.handle("-join", Some(1), Some(10));
    assert_eq!(bot.handle("-leave", Some(1), None), Action::Detach { guild: 1 });
    assert_eq!(bot.session(1), None);
    assert_eq!(bot.handle("-leave", Some(1), None), Action::Say("Not in a voice channel".to_string()));
}

#[test]
fn second_join_replaces_first() {
    let mut bot = VoiceBot::new();
    assert_eq!(bot.handle("-join", Some(1), Some(10)), Action::Attach { guild: 1, channel: 10 });
    assert_eq!(bot.handle("-join", Some(1), Some(11)), Action::Attach { guild: 1, channel: 11 });
    assert_eq!(bot.session(1), Some(11));
    assert_eq!(bot.handle("-join", Some(2), Some(20)), Action::Attach { guild: 2, channel: 20 });
    assert_eq!(bot.session(1), Some(11));
    assert_eq!(bot.session(2), Some(20));
}

#[test]
fn join_outside_voice_channel() {
    let mut bot = VoiceBot::new();
    assert_eq!(bot.handle("-join", Some(1), None), Action::Say("Not in a voice channel".to_string()));
    assert_eq!(bot.session(1), None);
}

#[test]
fn guild_commands_ignored_in_direct_messages() {
    let mut bot = VoiceBot::new();
    assert_eq!(bot.handle("-join", None, Some(10)), Action::Ignore);
    assert_eq!(bot.handle("-leave", None, None), Action::Ignore);
    assert_eq!(bot.handle("-play https://youtu.be/x", None, None), Action::Ignore);
}

#[test]
fn ping_always_pongs() {
    let mut bot = VoiceBot::new();
    let pong = Action::Say("Pong!".to_string());
    assert_eq!(bot.handle("-ping", Some(1), None), pong);
    assert_eq!(bot.handle("-ping and more words", Some(1), Some(3)), pong);
    assert_eq!(bot.handle("-ping x", None, None), pong);
}

#[test]
fn play_plan_cases() {
    assert_eq!(plan_play("", true, 5, true), Action::Say("**Missing link**".to_string()));
    assert_eq!(plan_play("u", false, 5, true), Action::Say("**Not a valid youtube link**".to_string()));
    assert_eq!(plan_play("u", true, 5, false), Action::Say("Not in a voice channel to play in".to_string()));
    assert_eq!(plan_play("u", true, 5, true), Action::Stream { guild: 5, url: "u".to_string() });
}

#[test]
fn replies_after_voice_work() {
    assert_eq!(leave_replies(&Ok(())), vec!["Left voice channel".to_string()]);
    assert_eq!(
        leave_replies(&Err("NoCall".to_string())),
        vec!["Failed: NoCall".to_string(), "Left voice channel".to_string()]
    );
    assert_eq!(stream_reply(&Ok(())), "Playing song");
    assert_eq!(stream_reply(&Err("no such video".to_string())), "Error: no such video");
}
