use vstd::prelude::*;
use crate::text::{join_words, joined, split_words, words};

verus! {

/// The text that must open a message for it to be a command.
pub const PREFIX: &'static str = "-";

pub open spec fn prefix_text() -> Seq<char> {
    seq!['-']
}

/// The commands the bot answers to.
#[derive(Clone, Copy, Debug, PartialEq, Eq, Structural)]
pub enum Command {
    Ping,
    Play,
    Join,
    Leave,
}

/// The name under which each command is registered.
pub open spec fn command_name(c: Command) -> Seq<char> {
    match c {
        Command::Ping => seq!['p', 'i', 'n', 'g'],
        Command::Play => seq!['p', 'l', 'a', 'y'],
        Command::Join => seq!['j', 'o', 'i', 'n'],
        Command::Leave => seq!['l', 'e', 'a', 'v', 'e'],
    }
}

/// The command registered under `name`, by exact match.
pub open spec fn lookup(name: Seq<char>) -> Option<Command> {
    if name == command_name(Command::Ping) {
        Some(Command::Ping)
    } else if name == command_name(Command::Play) {
        Some(Command::Play)
    } else if name == command_name(Command::Join) {
        Some(Command::Join)
    } else if name == command_name(Command::Leave) {
        Some(Command::Leave)
    } else {
        None
    }
}

/// Each command is found under its own name, so no name stands for two
/// commands.
pub proof fn command_names_are_distinct(c: Command, d: Command)
    ensures
        lookup(command_name(c)) == Some(c),
        command_name(c) == command_name(d) ==> c == d,
{
    let ping = command_name(Command::Ping);
    let play = command_name(Command::Play);
    let join = command_name(Command::Join);
    let leave = command_name(Command::Leave);
    assert(ping[1] != play[1]);
    assert(ping[0] != join[0]);
    assert(ping.len() != leave.len());
    assert(play[0] != join[0]);
    assert(play.len() != leave.len());
    assert(join.len() != leave.len());
}

pub open spec fn starts_with(s: Seq<char>, p: Seq<char>) -> bool {
    p.len() <= s.len() && s.take(p.len() as int) == p
}

/// What a message asks for: the command chosen by its first word after the
/// prefix, and the remaining words joined by single spaces.
pub open spec fn parse(content: Seq<char>) -> Option<(Command, Seq<char>)> {
    if !starts_with(content, prefix_text()) {
        None
    } else {
        let ws = words(content.skip(prefix_text().len() as int));
        if ws.len() == 0 {
            None
        } else {
            match lookup(ws[0]) {
                None => None,
                Some(c) => Some((c, joined(ws.skip(1)))),
            }
        }
    }
}

/// A message that selected a command.
#[derive(Clone, Debug, PartialEq, Eq)]
pub struct Invocation {
    pub command: Command,
    pub args: String,
}

/// Whether `a` and `b` hold the same characters.
pub fn same_text(a: &str, b: &str) -> (r: bool)
    ensures
        r == (a@ == b@),
{
    let n = a.unicode_len();
    if n != b.unicode_len() {
        return false;
    }
    let mut i: usize = 0;
    while i < n
        invariant
            n == a@.len(),
            n == b@.len(),
            i <= n,
            forall|j: int| 0 <= j < i ==> a@[j] == b@[j],
        decreases n - i,
    {
        if a.get_char(i) != b.get_char(i) {
            return false;
        }
        i = i + 1;
    }
    assert(a@ =~= b@);
    true
}

impl Command {
    /// The command registered under `name`, if any.
    pub fn from_name(name: &str) -> (r: Option<Command>)
        ensures
            r == lookup(name@),
    {
        proof {
            reveal_strlit("ping");
            reveal_strlit("play");
            reveal_strlit("join");
            reveal_strlit("leave");
            assert("ping"@ =~= command_name(Command::Ping));
            assert("play"@ =~= command_name(Command::Play));
            assert("join"@ =~= command_name(Command::Join));
            assert("leave"@ =~= command_name(Command::Leave));
        }
        if same_text(name, "ping") {
            Some(Command::Ping)
        } else if same_text(name, "play") {
            Some(Command::Play)
        } else if same_text(name, "join") {
            Some(Command::Join)
        } else if same_text(name, "leave") {
            Some(Command::Leave)
        } else {
            None
        }
    }
}

/// Reads a message: `None` when it is not a command of this bot.
pub fn route(content: &str) -> (r: Option<Invocation>)
    ensures
        r is None <==> parse(content@) is None,
        r is Some ==> parse(content@) == Some((r->0.command, r->0.args@)),
{
    proof {
        reveal_strlit("-");
        assert(PREFIX@ =~= prefix_text());
    }
    let n = content.unicode_len();
    let p = PREFIX.unicode_len();
    if n < p {
        return None;
    }
    let head = content.substring_char(0, p);
    assert(head@ =~= content@.take(p as int));
    if !same_text(head, PREFIX) {
        return None;
    }
    let rest = content.substring_char(p, n);
    assert(rest@ =~= content@.skip(p as int));
    let ws = split_words(rest);
    if ws.len() == 0 {
        return None;
    }
    match Command::from_name(ws[0].as_str()) {
        None => None,
        Some(command) => {
            let args = join_words(&ws, 1);
            Some(Invocation { command, args })
        },
    }
}

} // verus!
