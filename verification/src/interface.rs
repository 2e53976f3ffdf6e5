//! What an application asks of its own peer: to leave, to control the player, to fetch or
//! remove a file, to upload one.
use crate::action::{Action, ActionView};
use crate::address::SocketAddress;
use crate::music_exchange::plain_send;
use crate::network::{send_delete_peer_request, send_play_request, send_read_request, send_write_request, watched_send};
use crate::notification::ContentView;
use crate::peer::Peer;
use crate::utils::{FileInstructions, MusicState};
use vstd::prelude::*;

verus! {

/// The request to the peer at `ip` to leave the network.
pub open spec fn leave_request(ip: SocketAddress) -> ActionView {
    plain_send(ip, ip, ContentView::ExitPeer { addr: ip })
}

/// The request to the peer at `ip` to put its player in `state`, for the song `name` if
/// given.
pub open spec fn player_request(ip: SocketAddress, name: Option<Seq<char>>, state: MusicState) -> ActionView {
    plain_send(ip, ip, ContentView::PlayAudioRequest { name, state })
}

/// The request to the peer at `ip` to find the file `name` in the network, for the use
/// `instr` says.
pub open spec fn file_request(ip: SocketAddress, name: Seq<char>, instr: FileInstructions) -> ActionView {
    plain_send(ip, ip, ContentView::FindFile { instr, song_name: name })
}

/// The request to the peer at `addr` to store the file `value` under `key` and to copy it
/// to another peer.
pub open spec fn upload_request(addr: SocketAddress, key: Seq<char>, value: Seq<u8>) -> ActionView {
    watched_send(addr, addr, ContentView::PushToDB { key, value, from: Some(addr) })
}

/// Asks the local peer to leave the network, handing its files on to the others.
pub fn delete_peer(peer: &Peer) -> (a: Action)
    ensures
        a@ == leave_request(peer.ip_address),
{
    send_delete_peer_request(peer.ip_address)
}

/// Asks the local peer to put its player in `state`, for the song `name` if given.
pub fn music_control(name: Option<String>, peer: &Peer, state: MusicState) -> (a: Action)
    ensures
        a@ == player_request(
            peer.ip_address,
            match name {
                Some(n) => Some(n@),
                None => None,
            },
            state,
        ),
{
    send_play_request(name, peer.ip_address, state)
}

/// Asks the local peer to play, get, order or remove the file `name`.
pub fn music_request(peer: &Peer, name: &String, instr: FileInstructions) -> (a: Action)
    ensures
        a@ == file_request(peer.ip_address, name@, instr),
{
    send_read_request(peer.ip_address, name, instr)
}

/// Asks the peer at `addr` to store the file `content` under the name `name` and to copy it
/// to another peer.
pub fn push_music_to_database(name: &String, content: Vec<u8>, addr: SocketAddress) -> (a: Action)
    ensures
        a@ == upload_request(addr, name@, content@),
{
    send_write_request(addr, addr, (name.clone(), content), false)
}

/// Uploads the file `content` under the name `name` through the local peer at `addr`.
pub fn upload_music(name: &String, content: Vec<u8>, addr: SocketAddress) -> (a: Action)
    ensures
        a@ == upload_request(addr, name@, content@),
{
    push_music_to_database(name, content, addr)
}

} // verus!
