//! The state of the music player and the choice of what to play.
use crate::action::{actions_view, print, Action, ActionView};
use crate::music_exchange::plain_send;
use crate::network::send_read_request;
use crate::notification::ContentView;
use crate::peer::Peer;
use crate::utils::FileInstructions;
use vstd::prelude::*;
use vstd::string::*;

verus! {

/// What the player is doing: whether a song is playing, and the song it plays or played
/// last. The sound output itself belongs to the program.
#[derive(Clone, Debug, PartialEq, Eq)]
pub struct MusicPlayer {
    pub is_playing: bool,
    pub current_song_name: Option<String>,
}

impl MusicPlayer {
    /// A player that plays nothing and has played nothing.
    pub fn new() -> (player: MusicPlayer)
        ensures
            !player.is_playing,
            player.current_song_name is None,
    {
        MusicPlayer { is_playing: false, current_song_name: None }
    }

    /// Makes `name` the current song, before its bytes are decoded.
    pub fn set_current_song(&mut self, name: String)
        ensures
            final(self).is_playing == old(self).is_playing,
            final(self).current_song_name == Some(name),
    {
        self.current_song_name = Some(name);
    }

    /// Starts playing the decoded current song. The result says whether a new output has
    /// to be opened for it, which is when nothing was playing; else the song joins the queue
    /// of the playing output.
    pub fn start_playback(&mut self) -> (needs_new_output: bool)
        ensures
            needs_new_output == !old(self).is_playing,
            final(self).is_playing,
            final(self).current_song_name == old(self).current_song_name,
    {
        if self.is_playing {
            false
        } else {
            self.is_playing = true;
            true
        }
    }
}

/// Stops the player: nothing plays and there is no current song. The program stops the
/// output and tells its listener.
pub fn stop_current_playing_music(player: &mut MusicPlayer) -> (actions: Vec<Action>)
    ensures
        !final(player).is_playing,
        final(player).current_song_name is None,
        actions_view(actions@) == seq![ActionView::Stop, ActionView::PlayerStopped],
{
    player.is_playing = false;
    player.current_song_name = None;
    let mut actions: Vec<Action> = Vec::new();
    actions.push(Action::Stop);
    actions.push(Action::PlayerStopped);
    assert(actions_view(actions@) =~= seq![ActionView::Stop, ActionView::PlayerStopped]);
    actions
}

/// The song that a play request for `name` is about: `name` when given, else the current
/// song of the player.
pub open spec fn title_to_play(name: Option<Seq<char>>, current: Option<String>) -> Option<Seq<char>> {
    match name {
        Some(n) => Some(n),
        None => match current {
            Some(c) => Some(c@),
            None => None,
        },
    }
}

/// The text of an optional string.
pub open spec fn opt_text(name: Option<String>) -> Option<Seq<char>> {
    match name {
        Some(n) => Some(n@),
        None => None,
    }
}

/// What `play_music` does for the song `title` with the database of `p`: a stored song is
/// played and reported to the listener; for another one the user learns that it is not
/// here and the network is asked for it.
pub open spec fn local_play_actions(p: Peer, title: Seq<char>) -> Seq<ActionView> {
    if p.database@.contains_key(title) {
        seq![ActionView::Play { title, data: p.database@[title] }, ActionView::PlayerPlaying { title: Some(title) }]
    } else {
        seq![
            ActionView::Print { text: "wir haben die daten nicht"@ },
            plain_send(
                p.ip_address,
                p.ip_address,
                ContentView::FindFile { instr: FileInstructions::PLAY, song_name: title },
            ),
        ]
    }
}

/// Plays the song `name`, or the current song when no name is given: from the database
/// of `peer` when it stores the song, which then becomes the current song of the player;
/// else by asking the network for it. There is an error when there is neither a name nor
/// a current song.
pub fn play_music(peer: &Peer, name: Option<String>, player: &mut MusicPlayer) -> (r: Result<Vec<Action>, String>)
    ensures
        match title_to_play(opt_text(name), old(player).current_song_name) {
            None => {
                &&& r matches Err(e) && e@ == "No song name given and no current playing song!"@
                &&& *final(player) == *old(player)
            },
            Some(title) => {
                &&& r matches Ok(actions) && actions_view(actions@) == local_play_actions(*peer, title)
                &&& if peer.database@.contains_key(title) {
                    &&& final(player).is_playing == old(player).is_playing
                    &&& opt_text(final(player).current_song_name) == Some(title)
                } else {
                    *final(player) == *old(player)
                }
            },
        },
{
    let title = match name {
        Some(song_name) => song_name,
        None => match &player.current_song_name {
            Some(song_name) => song_name.clone(),
            None => {
                return Err(String::from_str("No song name given and no current playing song!"));
            },
        },
    };
    let mut actions: Vec<Action> = Vec::new();
    match peer.find_file(&title) {
        Some(sound_data) => {
            let a = Action::Play { title: title.clone(), data: sound_data.clone() };
            let b = Action::PlayerPlaying { title: Some(title.clone()) };
            actions.push(a);
            actions.push(b);
            player.set_current_song(title);
            assert(actions_view(actions@) =~= seq![a@, b@]);
        },
        None => {
            let a = print(String::from_str("wir haben die daten nicht"));
            let b = send_read_request(peer.ip_address, &title, FileInstructions::PLAY);
            actions.push(a);
            actions.push(b);
            assert(actions_view(actions@) =~= seq![a@, b@]);
        },
    }
    Ok(actions)
}

} // verus!
