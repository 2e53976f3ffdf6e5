//! The commands of the interactive shell: how a line the user typed is read.
use crate::action::{actions_view, lemma_actions_push, print, Action, ActionView};
use crate::music_exchange::plain_send;
use crate::utils::{FileInstructions, MusicState};
use crate::network::{send_delete_peer_request, send_play_request, send_read_request, send_status_request, watched_send};
use crate::notification::{texts, ContentView};
use crate::peer::Peer;
use crate::utils::FileStatus;
use vstd::prelude::*;
use vstd::string::*;

verus! {

/// A command of the shell.
#[derive(Clone, Debug, PartialEq, Eq)]
pub enum Command {
    /// Show the help menu.
    Help,
    /// Upload the file at `path` under the name `name`.
    Push { name: String, path: String },
    /// Fetch the file `name`.
    Get { name: String },
    /// Leave the network.
    Exit,
    /// Show the members of the network and the files.
    Status,
    /// Play the file `name`.
    Play { name: String },
    /// Remove the file `name` from the network.
    Remove { name: String },
    /// Nothing to do but show `text`: a hint on how to use a command, or why the line
    /// was not understood.
    Message { text: String },
}

/// The value of a `Command`.
pub enum CommandView {
    Help,
    Push { name: Seq<char>, path: Seq<char> },
    Get { name: Seq<char> },
    Exit,
    Status,
    Play { name: Seq<char> },
    Remove { name: Seq<char> },
    Message { text: Seq<char> },
}

impl View for Command {
    type V = CommandView;

    open spec fn view(&self) -> CommandView {
        match self {
            Command::Help => CommandView::Help,
            Command::Push { name, path } => CommandView::Push { name: name@, path: path@ },
            Command::Get { name } => CommandView::Get { name: name@ },
            Command::Exit => CommandView::Exit,
            Command::Status => CommandView::Status,
            Command::Play { name } => CommandView::Play { name: name@ },
            Command::Remove { name } => CommandView::Remove { name: name@ },
            Command::Message { text } => CommandView::Message { text: text@ },
        }
    }
}

/// The hint for a command that needs a name and a path, or a name.
pub open spec fn name_and_path_hint() -> Seq<char> {
    "You need to specify name and filepath. For more information type help.\n"@
}

/// The hint for a command that needs the name of a file.
pub open spec fn file_name_hint() -> Seq<char> {
    "You need to specify name of mp3 file. For more information type help.\n"@
}

/// The command that the words of a line stand for.
pub open spec fn command_of(words: Seq<Seq<char>>) -> CommandView {
    if words.len() == 0 {
        CommandView::Message { text: "No valid instructions. Try help!\n"@ }
    } else {
        let w = words[0];
        if w == "h"@ || w == "help"@ {
            CommandView::Help
        } else if w == "push"@ {
            if words.len() == 3 {
                CommandView::Push { name: words[1], path: words[2] }
            } else {
                CommandView::Message { text: name_and_path_hint() }
            }
        } else if w == "get"@ {
            if words.len() == 2 {
                CommandView::Get { name: words[1] }
            } else {
                CommandView::Message { text: name_and_path_hint() }
            }
        } else if w == "exit"@ {
            CommandView::Exit
        } else if w == "status"@ {
            CommandView::Status
        } else if w == "play"@ {
            if words.len() == 2 {
                CommandView::Play { name: words[1] }
            } else {
                CommandView::Message { text: "File name is missing. For more information type help.\n"@ }
            }
        } else if w == "remove"@ {
            if words.len() == 2 {
                CommandView::Remove { name: words[1] }
            } else {
                CommandView::Message { text: file_name_hint() }
            }
        } else if w == "stream"@ {
            if words.len() == 2 {
                CommandView::Message { text: "Not yet implemented.\n"@ }
            } else {
                CommandView::Message { text: file_name_hint() }
            }
        } else {
            CommandView::Message { text: "No valid instructions. Try help!\n"@ }
        }
    }
}

/// Whether `word` is the text `lit`.
fn is_word(word: &String, lit: &str) -> (b: bool)
    ensures
        b == (word@ == lit@),
{
    *word == String::from_str(lit)
}

/// Reads the words of a line the user typed as a command.
pub fn parse_command(words: &Vec<String>) -> (c: Command)
    ensures
        c@ == command_of(texts(words@)),
{
    let ghost ws = texts(words@);
    if words.len() == 0 {
        return Command::Message { text: String::from_str("No valid instructions. Try help!\n") };
    }
    assert(ws[0] == words@[0]@);
    let w = &words[0];
    if is_word(w, "h") || is_word(w, "help") {
        Command::Help
    } else if is_word(w, "push") {
        if words.len() == 3 {
            assert(ws[1] == words@[1]@ && ws[2] == words@[2]@);
            Command::Push { name: words[1].clone(), path: words[2].clone() }
        } else {
            Command::Message { text: String::from_str("You need to specify name and filepath. For more information type help.\n") }
        }
    } else if is_word(w, "get") {
        if words.len() == 2 {
            assert(ws[1] == words@[1]@);
            Command::Get { name: words[1].clone() }
        } else {
            Command::Message { text: String::from_str("You need to specify name and filepath. For more information type help.\n") }
        }
    } else if is_word(w, "exit") {
        Command::Exit
    } else if is_word(w, "status") {
        Command::Status
    } else if is_word(w, "play") {
        if words.len() == 2 {
            assert(ws[1] == words@[1]@);
            Command::Play { name: words[1].clone() }
        } else {
            Command::Message { text: String::from_str("File name is missing. For more information type help.\n") }
        }
    } else if is_word(w, "remove") {
        if words.len() == 2 {
            assert(ws[1] == words@[1]@);
            Command::Remove { name: words[1].clone() }
        } else {
            Command::Message { text: String::from_str("You need to specify name of mp3 file. For more information type help.\n") }
        }
    } else if is_word(w, "stream") {
        if words.len() == 2 {
            Command::Message { text: String::from_str("Not yet implemented.\n") }
        } else {
            Command::Message { text: String::from_str("You need to specify name of mp3 file. For more information type help.\n") }
        }
    } else {
        Command::Message { text: String::from_str("No valid instructions. Try help!\n") }
    }
}

/// Whether `c` is white space: whether it has the Unicode property White_Space, as
/// `char::is_whitespace` and `str::split_whitespace` define it.
pub open spec fn is_white_space(c: char) -> bool {
    let n = c as u32;
    ||| 0x9 <= n <= 0xd
    ||| n == 0x20
    ||| n == 0x85
    ||| n == 0xa0
    ||| n == 0x1680
    ||| 0x2000 <= n <= 0x200a
    ||| n == 0x2028
    ||| n == 0x2029
    ||| n == 0x202f
    ||| n == 0x205f
    ||| n == 0x3000
}

/// The word `cur`, if it is not empty.
pub open spec fn finished_word(cur: Seq<char>) -> Seq<Seq<char>> {
    if cur.len() > 0 {
        seq![cur]
    } else {
        Seq::<Seq<char>>::empty()
    }
}

/// The words of `s` when the word `cur` was already begun before it.
pub open spec fn words_from(s: Seq<char>, cur: Seq<char>) -> Seq<Seq<char>>
    decreases s.len(),
{
    if s.len() == 0 {
        finished_word(cur)
    } else if is_white_space(s[0]) {
        finished_word(cur) + words_from(s.drop_first(), Seq::<char>::empty())
    } else {
        words_from(s.drop_first(), cur.push(s[0]))
    }
}

/// The words of `line`: its longest runs of characters that are not white space, in order,
/// as `str::split_whitespace` splits them.
pub open spec fn whitespace_words(line: Seq<char>) -> Seq<Seq<char>> {
    words_from(line, Seq::<char>::empty())
}

/// Whether `c` is white space (see `is_white_space`).
pub fn char_is_white_space(c: char) -> (b: bool)
    ensures
        b == is_white_space(c),
{
    let n = c as u32;
    (0x9 <= n && n <= 0xd) || n == 0x20 || n == 0x85 || n == 0xa0 || n == 0x1680 || (0x2000 <= n && n <= 0x200a)
        || n == 0x2028 || n == 0x2029 || n == 0x202f || n == 0x205f || n == 0x3000
}

/// Appends `c` to `s`, by `String::push`.
#[verifier::external_body]
fn push_char(s: &mut String, c: char)
    ensures
        final(s)@ == old(s)@.push(c),
{
    s.push(c);
}

/// The words of `line`, each in a `String` of its own.
pub fn split_words(line: &str) -> (words: Vec<String>)
    ensures
        texts(words@) == whitespace_words(line@),
{
    broadcast use vstd::string::axiom_spec_iter;
    let mut words: Vec<String> = Vec::new();
    let mut cur = String::new();
    let mut started = false;
    let ghost s = line@;
    let ghost mut i: int = 0;
    assert(texts(words@) =~= Seq::<Seq<char>>::empty());
    assert(s.skip(0) =~= s);
    assert(cur@ =~= Seq::<char>::empty());
    for c in it: line.chars()
        invariant
            it.seq() == s,
            s == line@,
            i == it.index(),
            0 <= i <= s.len(),
            started == (cur@.len() > 0),
            texts(words@) + words_from(s.skip(i), cur@) == whitespace_words(s),
    {
        let ghost old_words = texts(words@);
        let ghost old_cur = cur@;
        proof {
            assert(s.skip(i).drop_first() =~= s.skip(i + 1));
            assert(s.skip(i)[0] == c);
        }
        if char_is_white_space(c) {
            if started {
                proof {
                    assert(texts(words@.push(cur)) =~= texts(words@).push(cur@));
                }
                words.push(cur);
                cur = String::new();
                started = false;
            }
            proof {
                assert(texts(words@) =~= old_words + finished_word(old_cur));
                assert(cur@ =~= Seq::<char>::empty());
                let rest = words_from(s.skip(i + 1), Seq::<char>::empty());
                assert(words_from(s.skip(i), old_cur) == finished_word(old_cur) + rest);
                assert(old_words + (finished_word(old_cur) + rest) =~= (old_words + finished_word(old_cur)) + rest);
            }
        } else {
            push_char(&mut cur, c);
            started = true;
        }
        proof {
            i = i + 1;
        }
    }
    assert(s.skip(i).len() == 0);
    if started {
        proof {
            assert(texts(words@.push(cur)) =~= texts(words@).push(cur@));
        }
        words.push(cur);
    }
    assert(texts(words@) =~= whitespace_words(s));
    words
}

/// Reads a line the user typed as a command.
pub fn handle_user_input(line: &str) -> (c: Command)
    ensures
        c@ == command_of(whitespace_words(line@)),
{
    let words = split_words(line);
    parse_command(&words)
}

/// Asks every other peer of the table which files it stores; the answers are shown as
/// they come in.
pub fn print_existing_files(peer: &Peer) -> (actions: Vec<Action>)
    ensures
        actions_view(actions@) == peer.network_table.entries().filter_map(
            |e: (Seq<char>, crate::address::SocketAddress)|
                if e.1 != peer.ip_address {
                    Some(watched_send(e.1, peer.ip_address, ContentView::StatusRequest))
                } else {
                    None
                },
        ),
{
    let ghost es = peer.network_table.entries();
    let ghost f = |e: (Seq<char>, crate::address::SocketAddress)|
        if e.1 != peer.ip_address {
            Some(watched_send(e.1, peer.ip_address, ContentView::StatusRequest))
        } else {
            None
        };
    let mut actions: Vec<Action> = Vec::new();
    let mut i: usize = 0;
    while i < peer.network_table.len()
        invariant
            i <= es.len(),
            es == peer.network_table.entries(),
            f == (|e: (Seq<char>, crate::address::SocketAddress)|
                if e.1 != peer.ip_address {
                    Some(watched_send(e.1, peer.ip_address, ContentView::StatusRequest))
                } else {
                    None
                }),
            actions_view(actions@) == es.take(i as int).filter_map(f),
        decreases es.len() - i,
    {
        proof {
            es.lemma_filter_map_take_succ(f, i as int);
        }
        let v = *peer.network_table.value_at(i);
        if v != peer.ip_address {
            let a = send_status_request(v, peer.ip_address);
            proof {
                lemma_actions_push(actions@, a);
            }
            actions.push(a);
        }
        i = i + 1;
    }
    assert(es.take(i as int) =~= es);
    actions
}

/// The line the shell shows when the file `name` was added, deleted or downloaded.
pub fn file_status_message(name: &String, instr: FileStatus) -> (text: String)
    ensures
        text@ == match instr {
            FileStatus::NEW => "New file "@ + name@ + " saved!"@,
            FileStatus::DELETE => "Deleted file "@ + name@ + "!"@,
            FileStatus::DOWNLOAD => "Download file "@ + name@ + " successfully!"@,
        },
{
    match instr {
        FileStatus::NEW => crate::action::three_part_text("New file ", name, " saved!"),
        FileStatus::DELETE => crate::action::three_part_text("Deleted file ", name, "!"),
        FileStatus::DOWNLOAD => crate::action::three_part_text("Download file ", name, " successfully!"),
    }
}

/// What a command does with the network and the screen. Showing the help menu, reading
/// the file to upload and drawing the status tables are left to the shell itself.
pub open spec fn command_actions_of(c: CommandView, ip: crate::address::SocketAddress) -> Seq<ActionView> {
    match c {
        CommandView::Get { name } => seq![
            plain_send(ip, ip, ContentView::FindFile { instr: FileInstructions::GET, song_name: name }),
        ],
        CommandView::Exit => seq![
            ActionView::Print { text: "You are leaving the network."@ },
            plain_send(ip, ip, ContentView::ExitPeer { addr: ip }),
        ],
        CommandView::Play { name } => seq![
            plain_send(ip, ip, ContentView::PlayAudioRequest { name: Some(name), state: MusicState::PLAY }),
        ],
        CommandView::Remove { name } => seq![
            plain_send(ip, ip, ContentView::FindFile { instr: FileInstructions::REMOVE, song_name: name }),
        ],
        CommandView::Message { text } => seq![ActionView::Print { text }],
        _ => Seq::<ActionView>::empty(),
    }
}

/// Carries out a command on behalf of the local peer at `peer`.
pub fn command_actions(c: Command, peer: &Peer) -> (actions: Vec<Action>)
    ensures
        actions_view(actions@) == command_actions_of(c@, peer.ip_address),
{
    let ip = peer.ip_address;
    let mut actions: Vec<Action> = Vec::new();
    match c {
        Command::Get { name } => {
            actions.push(send_read_request(ip, &name, FileInstructions::GET));
        },
        Command::Exit => {
            actions.push(print(String::from_str("You are leaving the network.")));
            actions.push(send_delete_peer_request(ip));
        },
        Command::Play { name } => {
            actions.push(send_play_request(Some(name), ip, MusicState::PLAY));
        },
        Command::Remove { name } => {
            actions.push(send_read_request(ip, &name, FileInstructions::REMOVE));
        },
        Command::Message { text } => {
            actions.push(print(text));
        },
        _ => {},
    }
    assert(actions_view(actions@) =~= command_actions_of(c@, ip));
    actions
}

} // verus!
