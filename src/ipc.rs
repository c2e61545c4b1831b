//! The daemon's command protocol: one line of text per connection, split
//! into lowercased words, and what the daemon does for each command.
use vstd::prelude::*;
use vstd::string::*;
use crate::processes::names_of;

verus! {

/// A command for the thread that holds the presence session.
#[derive(PartialEq, Eq, Structural)]
pub enum DiscordThreadCommands {
    /// Open, or reopen, the session.
    Connect,
    /// Close the session if it is open.
    Disconnect,
    /// Recompute the presence and push it.
    Update,
    /// Report the current presence; reserved, never sent by the dispatcher.
    Get,
}

/// What the daemon does with one received command.
pub enum IpcAction {
    /// Write this text back to the client.
    Reply(String),
    /// Write this text back to the client, then end the daemon with status 0.
    ReplyAndExit(String),
    /// Hand this command to the presence thread; nothing is written back.
    Forward(DiscordThreadCommands),
}

/// The characters that `char::is_whitespace` accepts: those with the
/// Unicode White_Space property.
pub open spec fn is_space(c: char) -> bool {
    ||| c == '\u{9}'
    ||| c == '\u{a}'
    ||| c == '\u{b}'
    ||| c == '\u{c}'
    ||| c == '\u{d}'
    ||| c == '\u{20}'
    ||| c == '\u{85}'
    ||| c == '\u{a0}'
    ||| c == '\u{1680}'
    ||| ('\u{2000}' <= c && c <= '\u{200a}')
    ||| c == '\u{2028}'
    ||| c == '\u{2029}'
    ||| c == '\u{202f}'
    ||| c == '\u{205f}'
    ||| c == '\u{3000}'
}

/// Whether `c` separates words.
pub fn is_space_char(c: char) -> (r: bool)
    ensures
        r == is_space(c),
{
    c == '\u{9}' || c == '\u{a}' || c == '\u{b}' || c == '\u{c}' || c == '\u{d}' || c == '\u{20}'
        || c == '\u{85}' || c == '\u{a0}' || c == '\u{1680}' || ('\u{2000}' <= c && c
        <= '\u{200a}') || c == '\u{2028}' || c == '\u{2029}' || c == '\u{202f}' || c
        == '\u{205f}' || c == '\u{3000}'
}

/// The words of `s` from position `i` on, where `cur` is the part of a word
/// already read before `i`.
pub open spec fn split_from(s: Seq<char>, i: nat, cur: Seq<char>) -> Seq<Seq<char>>
    decreases s.len() - i,
{
    if i >= s.len() {
        if cur.len() > 0 {
            seq![cur]
        } else {
            seq![]
        }
    } else if is_space(s[i as int]) {
        if cur.len() > 0 {
            seq![cur] + split_from(s, i + 1, seq![])
        } else {
            split_from(s, i + 1, seq![])
        }
    } else {
        split_from(s, i + 1, cur.push(s[i as int]))
    }
}

/// The maximal runs of non-space characters of `s`, in order.
pub open spec fn words(s: Seq<char>) -> Seq<Seq<char>> {
    split_from(s, 0, seq![])
}

/// What `str::to_lowercase` gives for these characters.
pub uninterp spec fn lower_of(s: Seq<char>) -> Seq<char>;

/// The words of `s`, each lowercased.
pub open spec fn command_words(s: Seq<char>) -> Seq<Seq<char>> {
    words(s).map_values(|w: Seq<char>| lower_of(w))
}

/// Relies on str::to_lowercase: the lowercase form of `s`, which depends on
/// its characters alone.
#[verifier::external_body]
fn lowercase(s: &str) -> (r: String)
    ensures
        r@ == lower_of(s@),
{
    s.to_lowercase()
}

/// The words of `s`: its maximal runs of non-space characters, in order.
pub fn split_words(s: &str) -> (r: Vec<String>)
    ensures
        names_of(r@) == words(s@),
{
    let n = s.unicode_len();
    let mut out: Vec<String> = Vec::new();
    let mut start: usize = 0;
    let mut in_word = false;
    let mut i: usize = 0;
    while i < n
        invariant
            n == s@.len(),
            i <= n,
            in_word ==> start < i,
            names_of(out@) + split_from(
                s@,
                i as nat,
                if in_word {
                    s@.subrange(start as int, i as int)
                } else {
                    seq![]
                },
            ) == words(s@),
        decreases n - i,
    {
        let c = s.get_char(i);
        let ghost cur = if in_word {
            s@.subrange(start as int, i as int)
        } else {
            seq![]
        };
        let ghost before = names_of(out@);
        if is_space_char(c) {
            if in_word {
                let w = s.substring_char(start, i).to_owned();
                out.push(w);
                in_word = false;
                proof {
                    assert(names_of(out@) =~= before.push(cur));
                    assert(before + (seq![cur] + split_from(s@, (i + 1) as nat, seq![]))
                        =~= before.push(cur) + split_from(s@, (i + 1) as nat, seq![]));
                }
            }
        } else {
            if !in_word {
                start = i;
                in_word = true;
            }
            proof {
                assert(cur.push(c) =~= s@.subrange(start as int, i + 1));
            }
        }
        i = i + 1;
    }
    if in_word {
        let ghost before = names_of(out@);
        let ghost cur = s@.subrange(start as int, i as int);
        let w = s.substring_char(start, i).to_owned();
        out.push(w);
        proof {
            assert(names_of(out@) =~= before.push(cur));
            assert(before + seq![cur] =~= before.push(cur));
        }
    } else {
        proof {
            assert(names_of(out@) + seq![] =~= names_of(out@));
        }
    }
    out
}

/// The words of a received command line, each lowercased.
pub fn command_tokens(buffer: &str) -> (r: Vec<String>)
    ensures
        names_of(r@) == command_words(buffer@),
{
    let split = split_words(buffer);
    let mut out: Vec<String> = Vec::new();
    let mut i: usize = 0;
    while i < split.len()
        invariant
            i <= split@.len(),
            names_of(split@) == words(buffer@),
            names_of(out@) == command_words(buffer@).take(i as int),
        decreases split@.len() - i,
    {
        let ghost before = names_of(out@);
        out.push(lowercase(split[i].as_str()));
        proof {
            assert(names_of(out@) =~= before.push(lower_of(split@[i as int]@)));
            assert(split@[i as int]@ == words(buffer@)[i as int]);
            assert(names_of(out@) =~= command_words(buffer@).take(i + 1));
        }
        i = i + 1;
    }
    assert(command_words(buffer@).take(i as int) =~= command_words(buffer@));
    out
}

/// Whether `r` is what the daemon does for the command words `t`.
pub open spec fn is_action_for(r: IpcAction, t: Seq<Seq<char>>) -> bool {
    let first = if t.len() > 0 {
        t[0]
    } else {
        seq![]
    };
    let sub = if t.len() > 1 {
        t[1]
    } else {
        seq![]
    };
    if first == "ping"@ {
        r matches IpcAction::Reply(m) && m@ == "pong"@
    } else if first == "kill"@ {
        r matches IpcAction::ReplyAndExit(m) && m@ == "Killing process"@
    } else if first == "discord"@ {
        if sub == "connect"@ {
            r == IpcAction::Forward(DiscordThreadCommands::Connect)
        } else if sub == "disconnect"@ {
            r == IpcAction::Forward(DiscordThreadCommands::Disconnect)
        } else if sub == "update"@ {
            r == IpcAction::Forward(DiscordThreadCommands::Update)
        } else {
            r matches IpcAction::Reply(m) && m@ == "Unknown discord command: "@ + sub
        }
    } else {
        r matches IpcAction::Reply(m) && m@ == "Unknown input"@
    }
}

fn is_word(t: &String, w: &str) -> (r: bool)
    ensures
        r == (t@ == w@),
{
    *t == String::from_str(w)
}

/// What the daemon does for already split and lowercased command words.
pub fn dispatch(tokens: &Vec<String>) -> (r: IpcAction)
    ensures
        is_action_for(r, names_of(tokens@)),
{
    let empty = String::new();
    let first = if tokens.len() > 0 {
        &tokens[0]
    } else {
        &empty
    };
    let sub = if tokens.len() > 1 {
        &tokens[1]
    } else {
        &empty
    };
    if is_word(first, "ping") {
        IpcAction::Reply(String::from_str("pong"))
    } else if is_word(first, "kill") {
        IpcAction::ReplyAndExit(String::from_str("Killing process"))
    } else if is_word(first, "discord") {
        if is_word(sub, "connect") {
            IpcAction::Forward(DiscordThreadCommands::Connect)
        } else if is_word(sub, "disconnect") {
            IpcAction::Forward(DiscordThreadCommands::Disconnect)
        } else if is_word(sub, "update") {
            IpcAction::Forward(DiscordThreadCommands::Update)
        } else {
            IpcAction::Reply(String::from_str("Unknown discord command: ").concat(sub.as_str()))
        }
    } else {
        IpcAction::Reply(String::from_str("Unknown input"))
    }
}

/// What the daemon does for one received command line: its words are
/// lowercased, then looked up in the command table.
pub fn ipc_parser(buffer: &str) -> (r: IpcAction)
    ensures
        is_action_for(r, command_words(buffer@)),
{
    let tokens = command_tokens(buffer);
    dispatch(&tokens)
}

} // verus!
