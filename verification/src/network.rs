//! Messages about storing files and about the state of peers, and the choice of a peer
//! that keeps a second copy of a file.
use crate::action::{actions_view, lemma_actions_push, print, Action, ActionView};
use crate::address::{RequestId, SocketAddress};
use crate::audio::{local_play_actions, opt_text, play_music, stop_current_playing_music, title_to_play, MusicPlayer};
use crate::peer::Peer;
use crate::request::{
    change_peer_name, change_peer_name_post, delete_file_request, delete_file_request_post,
    delete_from_network, delete_from_network_post, dropped_peer, dropped_peer_post, exist_file,
    exist_file_actions, exist_file_response, exist_file_response_post, exit_peer, exit_peer_chosen,
    exit_peer_possible, find_file, find_file_post, get_file, get_file_post, get_file_response,
    get_file_response_post, order_song_chosen, order_song_possible, order_song_request, push_to_db,
    push_to_db_chosen, redundant_push_to_db, redundant_push_to_db_post, request_for_table,
    request_for_table_action, self_status_actions, self_status_request, send_network_table,
    send_network_table_post, send_network_update_table, send_network_update_table_post,
    status_request, status_request_action,
};
use crate::music_exchange::plain_send;
use crate::notification::{texts, Content, ContentView, Message, MessageView, Notification, NotificationView};
use crate::text_map::TextMap;
use crate::utils::{FileInstructions, FileStatus, MusicState};
use rand::Rng;
use vstd::prelude::*;

verus! {

/// The action of sending `content` from `from` to `target`, where a failed connection
/// reports `target` as lost.
pub open spec fn watched_send(target: SocketAddress, from: SocketAddress, content: ContentView) -> ActionView {
    ActionView::SendWatched { target, notification: NotificationView { content, from } }
}

/// Some entry of the table has an address other than `own`.
pub open spec fn has_other_address(entries: Seq<(Seq<char>, SocketAddress)>, own: SocketAddress) -> bool {
    exists|i: int| 0 <= i < entries.len() && #[trigger] entries[i].1 != own
}

/// `target` is a choice that `other_random_target` can make: none when the table has no
/// address but `own`, else an address of the table other than `own`.
pub open spec fn valid_target(
    entries: Seq<(Seq<char>, SocketAddress)>,
    own: SocketAddress,
    target: Option<SocketAddress>,
) -> bool {
    if !has_other_address(entries, own) {
        target is None
    } else {
        target matches Some(a) && a != own && exists|i: int|
            0 <= i < entries.len() && #[trigger] entries[i].1 == a
    }
}

/// A number drawn uniformly from `0..len`, by `rand::Rng::gen_range` on the thread's
/// generator. The contract claims only that the number lies in the range, which the
/// documentation of `gen_range` promises for `low < high`.
#[verifier::external_body]
fn random_index(len: usize) -> (i: usize)
    requires
        len > 0,
    ensures
        i < len,
{
    rand::thread_rng().gen_range(0, len)
}

/// Picks at random, with equal chances for each entry, an address of the table other than
/// `own_ip`. There is none when the table has no other address.
pub fn other_random_target(network_table: &TextMap<SocketAddress>, own_ip: &SocketAddress) -> (r: Option<SocketAddress>)
    ensures
        valid_target(network_table.entries(), *own_ip, r),
{
    let ghost es = network_table.entries();
    let mut candidates: Vec<SocketAddress> = Vec::new();
    let mut i: usize = 0;
    while i < network_table.len()
        invariant
            i <= es.len(),
            es == network_table.entries(),
            forall|j: int| 0 <= j < candidates@.len() ==> #[trigger] candidates@[j] != *own_ip
                && exists|k: int| 0 <= k < es.len() && #[trigger] es[k].1 == candidates@[j],
            forall|k: int| 0 <= k < i && #[trigger] es[k].1 != *own_ip ==> candidates@.len() > 0,
        decreases es.len() - i,
    {
        let v = *network_table.value_at(i);
        if v != *own_ip {
            candidates.push(v);
            assert(es[i as int].1 == candidates@[candidates@.len() - 1]);
        }
        i = i + 1;
    }
    if candidates.len() == 0 {
        return None;
    }
    let index = random_index(candidates.len());
    let t = candidates[index];
    assert(t != *own_ip);
    Some(t)
}

/// Asks `target` to store the file `data.1` under the name `data.0`: as the second copy
/// when `redundant`, else as a new file that it then copies to another peer.
pub fn send_write_request(target: SocketAddress, origin: SocketAddress, data: (String, Vec<u8>), redundant: bool) -> (a: Action)
    ensures
        a@ == watched_send(
            target,
            origin,
            if redundant {
                ContentView::RedundantPushToDB { key: data.0@, value: data.1@, from: Some(origin) }
            } else {
                ContentView::PushToDB { key: data.0@, value: data.1@, from: Some(origin) }
            },
        ),
{
    let (key, value) = data;
    let content = if redundant {
        Content::RedundantPushToDB { key, value, from: Some(origin) }
    } else {
        Content::PushToDB { key, value, from: Some(origin) }
    };
    Action::SendWatched { target, notification: Notification { content, from: origin } }
}

/// Tells `target` that the file `key` was stored.
pub fn send_write_response(target: SocketAddress, origin: SocketAddress, key: String) -> (a: Action)
    ensures
        a@ == watched_send(
            target,
            origin,
            ContentView::Response { from: origin, message: MessageView::DataStored { key: key@ } },
        ),
{
    let not = Notification {
        content: Content::Response { from: origin, message: Message::DataStored { key } },
        from: origin,
    };
    Action::SendWatched { target, notification: not }
}

/// Asks the peer at `target` to find the file `name` in the network, for the use `instr`
/// says.
pub fn send_read_request(target: SocketAddress, name: &String, instr: FileInstructions) -> (a: Action)
    ensures
        a@ == plain_send(target, target, ContentView::FindFile { instr, song_name: name@ }),
{
    let not = Notification {
        content: Content::FindFile { instr, song_name: name.clone() },
        from: target,
    };
    Action::Send { target, notification: not }
}

/// Asks the peer at `target` to leave the network.
pub fn send_delete_peer_request(target: SocketAddress) -> (a: Action)
    ensures
        a@ == plain_send(target, target, ContentView::ExitPeer { addr: target }),
{
    let not = Notification { content: Content::ExitPeer { addr: target }, from: target };
    Action::Send { target, notification: not }
}

/// Asks `target` which files it stores.
pub fn send_status_request(target: SocketAddress, from: SocketAddress) -> (a: Action)
    ensures
        a@ == watched_send(target, from, ContentView::StatusRequest),
{
    let not = Notification { content: Content::StatusRequest, from };
    Action::SendWatched { target, notification: not }
}

/// Tells `target` that the peer called `peer_name` stores `files`.
pub fn send_local_file_status(target: SocketAddress, files: Vec<String>, from: SocketAddress, peer_name: String) -> (a: Action)
    ensures
        a@ == plain_send(
            target,
            from,
            ContentView::StatusResponse { files: crate::notification::texts(files@), name: peer_name@ },
        ),
{
    let not = Notification { content: Content::StatusResponse { files, name: peer_name }, from };
    Action::Send { target, notification: not }
}

/// Asks the peer at `from` to put its player in `state`, for the song `name` if given.
pub fn send_play_request(name: Option<String>, from: SocketAddress, state: MusicState) -> (a: Action)
    ensures
        a@ == plain_send(
            from,
            from,
            ContentView::PlayAudioRequest {
                name: match name {
                    Some(n) => Some(n@),
                    None => None,
                },
                state,
            },
        ),
{
    let not = Notification { content: Content::PlayAudioRequest { name, state }, from };
    Action::Send { target: from, notification: not }
}

/// What `from` sends to the peer at `e` when the peer at `lost` could not be reached.
pub open spec fn dropped_notice(lost: SocketAddress, from: SocketAddress) -> spec_fn(
    (Seq<char>, SocketAddress),
) -> Option<ActionView> {
    |e: (Seq<char>, SocketAddress)|
        if e.1 != lost {
            Some(watched_send(e.1, from, ContentView::DroppedPeer { addr: lost }))
        } else {
            None
        }
}

/// Tells `target` that the peer at `dropped_addr` could not be reached.
pub fn send_dropped_peer_notification(target: SocketAddress, dropped_addr: SocketAddress, from: SocketAddress) -> (a: Action)
    ensures
        a@ == watched_send(target, from, ContentView::DroppedPeer { addr: dropped_addr }),
{
    let not = Notification { content: Content::DroppedPeer { addr: dropped_addr }, from };
    Action::SendWatched { target, notification: not }
}

/// What a peer with address `own` and table `network_table` does when the peer at `addr`
/// could not be reached: it tells every other address of its table.
pub fn handle_lost_connection(addr: SocketAddress, own: SocketAddress, network_table: &TextMap<SocketAddress>) -> (actions: Vec<Action>)
    ensures
        actions_view(actions@) == network_table.entries().filter_map(dropped_notice(addr, own)),
{
    let ghost f = dropped_notice(addr, own);
    let ghost es = network_table.entries();
    let mut actions: Vec<Action> = Vec::new();
    let mut i: usize = 0;
    while i < network_table.len()
        invariant
            i <= es.len(),
            es == network_table.entries(),
            f == dropped_notice(addr, own),
            actions_view(actions@) == es.take(i as int).filter_map(f),
        decreases es.len() - i,
    {
        proof {
            es.lemma_filter_map_take_succ(f, i as int);
        }
        let other_addr = *network_table.value_at(i);
        if other_addr != addr {
            let a = send_dropped_peer_notification(other_addr, addr, own);
            proof {
                lemma_actions_push(actions@, a);
            }
            actions.push(a);
        }
        i = i + 1;
    }
    assert(es.take(i as int) =~= es);
    actions
}

/// The addresses a peer sends its heartbeat to: none while it is alone in its table, else
/// every address of the table.
pub fn heartbeat_targets(network_table: &TextMap<SocketAddress>) -> (targets: Vec<SocketAddress>)
    ensures
        network_table.entries().len() == 1 ==> targets@.len() == 0,
        network_table.entries().len() != 1 ==> targets@ == network_table.entries().map_values(
            |e: (Seq<char>, SocketAddress)| e.1,
        ),
{
    let mut targets: Vec<SocketAddress> = Vec::new();
    if network_table.len() == 1 {
        return targets;
    }
    let ghost es = network_table.entries();
    let mut i: usize = 0;
    while i < network_table.len()
        invariant
            i <= es.len(),
            es == network_table.entries(),
            targets@ == es.take(i as int).map_values(|e: (Seq<char>, SocketAddress)| e.1),
        decreases es.len() - i,
    {
        targets.push(*network_table.value_at(i));
        assert(targets@ =~= es.take(i + 1).map_values(|e: (Seq<char>, SocketAddress)| e.1));
        i = i + 1;
    }
    assert(es.take(i as int) =~= es);
    targets
}

/// What a round of heartbeats does next.
#[derive(Clone, Copy, Debug, PartialEq, Eq, Structural)]
pub enum HeartbeatStep {
    /// Send the heartbeat to the target at `index`.
    Beat { index: usize },
    /// The heartbeat to `addr` was refused: report the peer there as lost, then send the
    /// heartbeat to the target at `next`, or end the round when there is none.
    ReportLost { addr: SocketAddress, next: Option<usize> },
    /// Every target got its heartbeat: the round is over.
    Done,
}

/// The step that follows when `sent` heartbeats of a round to `targets` went out, the last
/// of which was `refused` or not: a refused target is reported lost, and the round goes on
/// with the next target until every target got its heartbeat.
pub open spec fn next_heartbeat(targets: Seq<SocketAddress>, sent: int, refused: bool) -> HeartbeatStep {
    let next = if 0 <= sent < targets.len() {
        Some(sent as usize)
    } else {
        None
    };
    if refused && 0 < sent <= targets.len() {
        HeartbeatStep::ReportLost { addr: targets[sent - 1], next }
    } else {
        match next {
            Some(index) => HeartbeatStep::Beat { index },
            None => HeartbeatStep::Done,
        }
    }
}

/// The next step of a heartbeat round to `targets` after `sent` heartbeats were sent, the
/// last of which was `refused` or not (see `next_heartbeat`).
pub fn heartbeat_step(targets: &Vec<SocketAddress>, sent: usize, refused: bool) -> (s: HeartbeatStep)
    ensures
        s == next_heartbeat(targets@, sent as int, refused),
{
    let next = if sent < targets.len() {
        Some(sent)
    } else {
        None
    };
    if refused && 0 < sent && sent <= targets.len() {
        HeartbeatStep::ReportLost { addr: targets[sent - 1], next }
    } else {
        match next {
            Some(index) => HeartbeatStep::Beat { index },
            None => HeartbeatStep::Done,
        }
    }
}

/// The heartbeat that the peer at `from` sends to `target`, as a value.
pub open spec fn heartbeat_action(target: SocketAddress, from: SocketAddress) -> ActionView {
    watched_send(target, from, ContentView::Heartbeat)
}

/// The heartbeat that the peer at `from` sends to `target`.
pub fn heartbeat(target: SocketAddress, from: SocketAddress) -> (a: Action)
    ensures
        a@ == heartbeat_action(target, from),
{
    Action::SendWatched { target, notification: Notification { content: Content::Heartbeat, from } }
}

/// What a peer needs for handling `n` without failing: a peer to hand files to, where
/// the notification asks it to hand files on.
pub open spec fn can_handle(p: Peer, n: NotificationView) -> bool {
    match n.content {
        ContentView::OrderSongRequest { song_name } => order_song_possible(p, song_name),
        ContentView::ExitPeer { .. } => exit_peer_possible(p),
        _ => true,
    }
}

/// Whether the table has an address other than `own`.
pub fn has_other(network_table: &TextMap<SocketAddress>, own: &SocketAddress) -> (b: bool)
    ensures
        b == has_other_address(network_table.entries(), *own),
{
    let ghost es = network_table.entries();
    let mut i: usize = 0;
    while i < network_table.len()
        invariant
            i <= es.len(),
            es == network_table.entries(),
            forall|k: int| 0 <= k < i ==> #[trigger] es[k].1 == *own,
        decreases es.len() - i,
    {
        if *network_table.value_at(i) != *own {
            assert(es[i as int].1 != *own);
            return true;
        }
        i = i + 1;
    }
    false
}

/// Whether `peer` can handle `notification` (see `can_handle`).
pub fn can_handle_notification(peer: &Peer, notification: &Notification) -> (b: bool)
    ensures
        b == can_handle(*peer, notification@),
{
    match &notification.content {
        Content::OrderSongRequest { song_name } => {
            !peer.get_db().get_data().contains_key(song_name) || has_other(&peer.network_table, &peer.ip_address)
        },
        Content::ExitPeer { .. } => {
            !(peer.network_table.len() > 1 && peer.get_db().get_data().len() > 0) || has_other(
                &peer.network_table,
                &peer.ip_address,
            )
        },
        _ => true,
    }
}

/// What a play request for `name` does with the peer `p` and the player `pl`.
pub open spec fn play_actions(p: Peer, name: Option<Seq<char>>, pl: MusicPlayer) -> Seq<ActionView> {
    match title_to_play(name, pl.current_song_name) {
        None => seq![ActionView::Print { text: "No song name given and no current playing song!"@ }],
        Some(title) => local_play_actions(p, title),
    }
}

/// How a play request for `name` changes the player `pl` into `pl2`: a song that the peer
/// `p` stores becomes the current song; otherwise the player stays as it is.
pub open spec fn play_player(p: Peer, name: Option<Seq<char>>, pl: MusicPlayer, pl2: MusicPlayer) -> bool {
    match title_to_play(name, pl.current_song_name) {
        Some(title) => if p.database@.contains_key(title) {
            &&& pl2.is_playing == pl.is_playing
            &&& opt_text(pl2.current_song_name) == Some(title)
        } else {
            pl2 == pl
        },
        None => pl2 == pl,
    }
}

/// How the peer `p` with player `pl` becomes `q` with player `pl2` and what it does
/// (`acts`) on the notification `n`, when `now` names a request made now.
pub open spec fn notification_handled(
    p: Peer,
    q: Peer,
    pl: MusicPlayer,
    pl2: MusicPlayer,
    n: NotificationView,
    now: RequestId,
    acts: Seq<ActionView>,
) -> bool {
    let sender = n.from;
    match n.content {
        ContentView::PlayAudioRequest { name, state } => {
            &&& q == p
            &&& match state {
                MusicState::PLAY => play_player(p, name, pl, pl2) && acts == play_actions(p, name, pl),
                MusicState::PAUSE => pl2 == pl && acts == seq![ActionView::Pause],
                MusicState::STOP => {
                    &&& !pl2.is_playing
                    &&& pl2.current_song_name is None
                    &&& acts == seq![ActionView::Stop, ActionView::PlayerStopped]
                },
                MusicState::CONTINUE => pl2 == pl && acts == seq![ActionView::Resume],
            }
        },
        _ => pl2 == pl && match n.content {
            ContentView::PushToDB { key, value, from } => push_to_db_chosen(p, q, acts, key, value, from),
            ContentView::RedundantPushToDB { key, value, .. } => redundant_push_to_db_post(p, q, key, value)
                && acts == seq![ActionView::DatabaseChanged { name: key, status: FileStatus::NEW }],
            ContentView::ChangePeerName { value } => acts.len() == 1 && change_peer_name_post(p, q, acts[0], value, sender),
            ContentView::SendNetworkTable { table } => send_network_table_post(p, q, acts, table),
            ContentView::SendNetworkUpdateTable { table } => send_network_update_table_post(p, q, acts, table),
            ContentView::RequestForTable { value } => q == p && acts == seq![request_for_table_action(p, value, sender)],
            ContentView::FindFile { instr, song_name } => find_file_post(p, q, acts, instr, song_name, now),
            ContentView::ExistFile { song_name, id } => q == p && acts == exist_file_actions(p, song_name, id, sender),
            ContentView::ExistFileResponse { song_name, id } => exist_file_response_post(p, q, acts, song_name, id, sender),
            ContentView::GetFile { instr, key } => get_file_post(p, q, acts, instr, key, sender),
            ContentView::GetFileResponse { instr, key, value } => get_file_response_post(p, q, acts, instr, key, value),
            ContentView::DeleteFileRequest { song_name } => delete_file_request_post(p, q, acts, song_name),
            ContentView::ExitPeer { addr } => q == p && exit_peer_chosen(p, acts, addr),
            ContentView::OrderSongRequest { song_name } => q == p && order_song_chosen(p, acts, song_name),
            ContentView::DeleteFromNetwork { name } => delete_from_network_post(p, q, acts, name),
            ContentView::SelfStatusRequest => q == p && acts == self_status_actions(p),
            ContentView::StatusRequest => q == p && acts == seq![status_request_action(p, sender)],
            ContentView::StatusResponse { files, name } => q == p && acts == seq![ActionView::ShowStatus { files, name }],
            ContentView::DroppedPeer { addr } => dropped_peer_post(p, q, acts, addr),
            _ => q == p && acts.len() == 0,
        },
    }
}

/// Handles a notification that came in: changes the peer and its player as the
/// notification asks, and gives back what the program has to do. `now` names the request
/// that a search for a file opens.
pub fn handle_notification(notification: Notification, peer: &mut Peer, sink: &mut MusicPlayer, now: RequestId) -> (actions: Vec<Action>)
    requires
        can_handle(*old(peer), notification@),
    ensures
        notification_handled(*old(peer), *final(peer), *old(sink), *final(sink), notification@, now, actions_view(actions@)),
        final(peer).ip_address == old(peer).ip_address,
        notification@.content matches ContentView::ChangePeerName { value } ==> final(peer).name@ == value,
        !(notification@.content is ChangePeerName) ==> final(peer).name == old(peer).name,
        notification@.content is Heartbeat || notification@.content is Response ==> {
            &&& *final(peer) == *old(peer)
            &&& *final(sink) == *old(sink)
            &&& actions@.len() == 0
        },
{
    let sender = notification.from;
    let ghost n = notification@;
    let ghost p = *peer;
    let ghost pl = *sink;
    let actions = match notification.content {
        Content::PushToDB { key, value, from } => push_to_db(key, value, from, peer),
        Content::RedundantPushToDB { key, value, .. } => redundant_push_to_db(key, value, peer),
        Content::ChangePeerName { value } => {
            let a = change_peer_name(value, sender, peer);
            let mut actions: Vec<Action> = Vec::new();
            actions.push(a);
            assert(actions_view(actions@) =~= seq![a@]);
            actions
        },
        Content::SendNetworkTable { table } => send_network_table(table, peer),
        Content::SendNetworkUpdateTable { table } => send_network_update_table(table, peer),
        Content::RequestForTable { value } => {
            let a = request_for_table(value, sender, peer);
            let mut actions: Vec<Action> = Vec::new();
            actions.push(a);
            assert(actions_view(actions@) =~= seq![a@]);
            actions
        },
        Content::FindFile { song_name, instr } => find_file(instr, song_name, peer, now),
        Content::ExistFile { song_name, id } => exist_file(song_name, id, sender, peer),
        Content::ExistFileResponse { song_name, id } => exist_file_response(song_name, id, sender, peer),
        Content::GetFile { key, instr } => get_file(instr, key, sender, peer),
        Content::GetFileResponse { value, instr, key } => get_file_response(instr, key, value, peer),
        Content::DeleteFileRequest { song_name } => delete_file_request(song_name, peer),
        Content::Response { .. } => Vec::new(),
        Content::ExitPeer { addr } => exit_peer(addr, peer),
        Content::OrderSongRequest { song_name } => order_song_request(song_name, peer),
        Content::DeleteFromNetwork { name } => delete_from_network(name, peer),
        Content::SelfStatusRequest => self_status_request(peer),
        Content::StatusRequest => {
            let a = status_request(sender, peer);
            let mut actions: Vec<Action> = Vec::new();
            actions.push(a);
            assert(actions_view(actions@) =~= seq![a@]);
            actions
        },
        Content::StatusResponse { files, name } => {
            let a = Action::ShowStatus { files, name };
            let mut actions: Vec<Action> = Vec::new();
            actions.push(a);
            assert(actions_view(actions@) =~= seq![a@]);
            actions
        },
        Content::PlayAudioRequest { name, state } => {
            let mut actions: Vec<Action> = Vec::new();
            match state {
                MusicState::PLAY => {
                    let ghost nv = opt_text(name);
                    assert(n.content == ContentView::PlayAudioRequest { name: nv, state });
                    match play_music(peer, name, sink) {
                        Ok(v) => {
                            actions = v;
                        },
                        Err(e) => {
                            actions.push(print(e));
                        },
                    }
                    assert(actions_view(actions@) =~= play_actions(*peer, nv, pl));
                },
                MusicState::PAUSE => {
                    actions.push(Action::Pause);
                    assert(actions_view(actions@) =~= seq![ActionView::Pause]);
                },
                MusicState::STOP => {
                    actions = stop_current_playing_music(sink);
                },
                MusicState::CONTINUE => {
                    actions.push(Action::Resume);
                    assert(actions_view(actions@) =~= seq![ActionView::Resume]);
                },
            }
            actions
        },
        Content::DroppedPeer { addr } => dropped_peer(addr, peer),
        Content::Heartbeat => Vec::new(),
    };
    assert(notification_handled(p, *peer, pl, *sink, n, now, actions_view(actions@)));
    actions
}

} // verus!
