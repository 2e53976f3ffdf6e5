//! Properties of the library that relate several of its functions.
use crate::action::ActionView;
use crate::address::{RequestId, SocketAddress};
use crate::audio::title_to_play;
use crate::shell::{command_actions_of, command_of, CommandView};
use crate::notification::TablePayloadView;
use crate::utils::MusicState;
use crate::network::{next_heartbeat, notification_handled, play_actions, HeartbeatStep};
use crate::notification::{ContentView, NotificationView};
use crate::peer::{not_at, Peer};
use crate::request::{
    change_peer_name_post, delete_file_request_post, dropped_peer_post, exist_file_response_post, exit_actions,
    exist_file_actions, exit_peer_chosen, find_file_post, get_file_post, get_file_response_post, push_to_db_chosen, push_to_db_post, redundant_push_to_db_post,
    merged, table_of,
};
use crate::text_map::{
    distinct_keys, entries_insert, entries_insert_all, has_key, lemma_entries_insert_all, lemma_to_map_push, map_insert_all, to_map,
    TextMap,
};
use crate::utils::FileInstructions;
use crate::audio::MusicPlayer;
use vstd::prelude::*;

verus! {

/// A file that a peer stored because another peer pushed it is handed out, with the same
/// bytes, to whoever asks for it afterwards to play, download or keep it.
pub proof fn lemma_pushed_file_is_served(
    p: Peer,
    q: Peer,
    acts: Seq<ActionView>,
    key: Seq<char>,
    value: Seq<u8>,
    from: Option<SocketAddress>,
    instr: FileInstructions,
    sender: SocketAddress,
    q2: Peer,
    acts2: Seq<ActionView>,
)
    requires
        push_to_db_chosen(p, q, acts, key, value, from),
        !p.database@.contains_key(key),
        instr != FileInstructions::REMOVE,
        get_file_post(q, q2, acts2, instr, key, sender),
    ensures
        acts2 == seq![(ActionView::Send { target: sender, notification: NotificationView { content: ContentView::GetFileResponse { instr, key, value }, from: q.ip_address } })],
{
    let t = choose|t: Option<SocketAddress>|
        #![trigger push_to_db_post(p, q, acts, key, value, from, t)]
        (!p.database@.contains_key(key) ==> crate::network::valid_target(p.network_table.entries(), p.ip_address, t))
            && push_to_db_post(p, q, acts, key, value, from, t);
    assert(push_to_db_post(p, q, acts, key, value, from, t));
}

/// Pushing a file under a name that the peer already stores changes nothing there.
pub proof fn lemma_push_keeps_existing_file(
    p: Peer,
    q: Peer,
    acts: Seq<ActionView>,
    key: Seq<char>,
    value: Seq<u8>,
    from: Option<SocketAddress>,
)
    requires
        push_to_db_chosen(p, q, acts, key, value, from),
        p.database@.contains_key(key),
    ensures
        q == p,
        acts == seq![ActionView::Print { text: "File already exists in your database"@ }],
{
    let t = choose|t: Option<SocketAddress>|
        #![trigger push_to_db_post(p, q, acts, key, value, from, t)]
        (!p.database@.contains_key(key) ==> crate::network::valid_target(p.network_table.entries(), p.ip_address, t))
            && push_to_db_post(p, q, acts, key, value, from, t);
    assert(push_to_db_post(p, q, acts, key, value, from, t));
}

/// The second copy of a newly pushed file goes to a peer of the table other than the
/// peer itself, whenever the table holds another address.
pub proof fn lemma_second_copy_goes_elsewhere(
    p: Peer,
    q: Peer,
    acts: Seq<ActionView>,
    key: Seq<char>,
    value: Seq<u8>,
    from: Option<SocketAddress>,
)
    requires
        push_to_db_chosen(p, q, acts, key, value, from),
        !p.database@.contains_key(key),
        crate::network::has_other_address(p.network_table.entries(), p.ip_address),
    ensures
        acts.len() >= 3,
        acts[2] matches ActionView::SendWatched { target, notification } && {
            &&& target != p.ip_address
            &&& exists|i: int| 0 <= i < p.network_table.entries().len() && #[trigger] p.network_table.entries()[i].1 == target
            &&& notification == (NotificationView {
                content: ContentView::RedundantPushToDB { key, value, from: Some(p.ip_address) },
                from: p.ip_address,
            })
        },
{
    let t = choose|t: Option<SocketAddress>|
        #![trigger push_to_db_post(p, q, acts, key, value, from, t)]
        (!p.database@.contains_key(key) ==> crate::network::valid_target(p.network_table.entries(), p.ip_address, t))
            && push_to_db_post(p, q, acts, key, value, from, t);
    assert(push_to_db_post(p, q, acts, key, value, from, t));
    let a = t->0;
    assert(acts[2] == (ActionView::SendWatched { target: a, notification: NotificationView { content: ContentView::RedundantPushToDB { key, value, from: Some(p.ip_address) }, from: p.ip_address } }));
}

/// The second copy of a file, once stored, is handed out with the same bytes.
pub proof fn lemma_redundant_copy_is_served(
    p: Peer,
    q: Peer,
    key: Seq<char>,
    value: Seq<u8>,
    instr: FileInstructions,
    sender: SocketAddress,
    q2: Peer,
    acts2: Seq<ActionView>,
)
    requires
        redundant_push_to_db_post(p, q, key, value),
        instr != FileInstructions::REMOVE,
        get_file_post(q, q2, acts2, instr, key, sender),
    ensures
        acts2 == seq![(ActionView::Send { target: sender, notification: NotificationView { content: ContentView::GetFileResponse { instr, key, value }, from: q.ip_address } })],
{
}

/// A file that was downloaded is stored, and is then handed out with the same bytes.
pub proof fn lemma_downloaded_file_is_served(
    p: Peer,
    q: Peer,
    acts: Seq<ActionView>,
    key: Seq<char>,
    value: Seq<u8>,
    instr: FileInstructions,
    sender: SocketAddress,
    q2: Peer,
    acts2: Seq<ActionView>,
)
    requires
        get_file_response_post(p, q, acts, FileInstructions::GET, key, value),
        instr != FileInstructions::REMOVE,
        get_file_post(q, q2, acts2, instr, key, sender),
    ensures
        q.database@.contains_key(key),
        acts == seq![ActionView::DatabaseChanged { name: key, status: crate::utils::FileStatus::DOWNLOAD }],
        acts2 == seq![(ActionView::Send { target: sender, notification: NotificationView { content: ContentView::GetFileResponse { instr, key, value }, from: q.ip_address } })],
{
}

/// A peer that is asked for its file so that it is removed deletes it, and asks every
/// other peer of its table to delete its copy.
pub proof fn lemma_remote_remove_deletes_copy(
    p: Peer,
    q: Peer,
    acts: Seq<ActionView>,
    key: Seq<char>,
    sender: SocketAddress,
)
    requires
        p.database@.contains_key(key),
        get_file_post(p, q, acts, FileInstructions::REMOVE, key, sender),
    ensures
        !q.database@.contains_key(key),
        acts.len() == 2 + crate::request::others_of(p.network_table.entries(), p.name@).len(),
        forall|i: int|
            0 <= i < crate::request::others_of(p.network_table.entries(), p.name@).len() ==> acts[i + 2]
                == (ActionView::Send { target: #[trigger] crate::request::others_of(p.network_table.entries(), p.name@)[i], notification: NotificationView { content: ContentView::DeleteFileRequest { song_name: key }, from: p.ip_address } }),
{
}

/// A file that a peer was asked to delete is no longer handed out.
pub proof fn lemma_deleted_file_is_not_served(
    p: Peer,
    q: Peer,
    acts: Seq<ActionView>,
    song: Seq<char>,
    instr: FileInstructions,
    sender: SocketAddress,
    q2: Peer,
    acts2: Seq<ActionView>,
)
    requires
        delete_file_request_post(p, q, acts, song),
        get_file_post(q, q2, acts2, instr, song, sender),
    ensures
        q2 == q,
        acts2.len() == 0,
{
}

/// A search for a file that the peer does not store is answered at most once: the first
/// answer that names the search closes it and asks the answering peer for the file, for
/// the use the search was for; a later answer to the same search only tells the user that
/// there is no such file.
pub proof fn lemma_search_answered_once(
    p0: Peer,
    p1: Peer,
    p2: Peer,
    p3: Peer,
    acts1: Seq<ActionView>,
    acts2: Seq<ActionView>,
    acts3: Seq<ActionView>,
    instr: FileInstructions,
    song: Seq<char>,
    now: RequestId,
    first: SocketAddress,
    second: SocketAddress,
)
    requires
        !p0.database@.contains_key(song),
        find_file_post(p0, p1, acts1, instr, song, now),
        exist_file_response_post(p1, p2, acts2, song, now, first),
        exist_file_response_post(p2, p3, acts3, song, now, second),
    ensures
        acts2 == seq![(ActionView::Send { target: first, notification: NotificationView { content: ContentView::GetFile { instr, key: song }, from: p0.ip_address } })],
        acts3 == seq![ActionView::Print { text: "There is no file \""@ + song + "\" to remove."@ }],
        !p3.open_request_table@.contains_key(now),
{
    assert(p1.open_request_table@.contains_key(now));
    assert(!p2.open_request_table@.contains_key(now));
}

/// Sending a network table and reading it back gives the same table: the entries that
/// `network_table_to_entries` makes are turned by `network_table_from_entries` into the
/// same entries, in the same order.
pub proof fn lemma_network_table_roundtrip(table: TextMap<SocketAddress>)
    requires
        table.inv(),
    ensures
        table_of(table.entries()) == table.entries(),
{
    lemma_insert_all_distinct(table.entries());
}

/// Storing entries with distinct keys, one after the other, into an empty table gives
/// those entries.
proof fn lemma_insert_all_distinct(es: Seq<(Seq<char>, SocketAddress)>)
    requires
        distinct_keys(es),
    ensures
        entries_insert_all(Seq::<(Seq<char>, SocketAddress)>::empty(), es) == es,
    decreases es.len(),
{
    if es.len() > 0 {
        let rest = es.drop_last();
        assert(distinct_keys(rest)) by {
            assert forall|i: int, j: int| 0 <= i < rest.len() && 0 <= j < rest.len() && i != j implies rest[i].0
                != rest[j].0 by {
                assert(rest[i] == es[i] && rest[j] == es[j]);
            }
        }
        lemma_insert_all_distinct(rest);
        let k = es.last().0;
        if has_key(rest, k) {
            let i = choose|i: int| 0 <= i < rest.len() && #[trigger] rest[i].0 == k;
            assert(rest[i] == es[i]);
            assert(es[es.len() - 1].0 == k);
        }
        assert(entries_insert(rest, k, es.last().1) == rest.push(es.last()));
        assert(rest.push(es.last()) =~= es);
    }
}

/// After a peer was renamed, its table has it under the new name at its own address, and
/// no longer under the old name unless the two names are the same.
pub proof fn lemma_rename_moves_own_entry(p: Peer, q: Peer, a: ActionView, value: Seq<char>, sender: SocketAddress)
    requires
        change_peer_name_post(p, q, a, value, sender),
    ensures
        q.network_table@.contains_key(q.name@),
        q.network_table@[q.name@] == p.ip_address,
        value != p.name@ ==> !q.network_table@.contains_key(p.name@),
{
}

/// After the peer at `addr` was reported dropped, no entry of the table has that address,
/// and every entry at another address is still there.
pub proof fn lemma_dropped_address_is_forgotten(p: Peer, q: Peer, acts: Seq<ActionView>, addr: SocketAddress)
    requires
        dropped_peer_post(p, q, acts, addr),
    ensures
        forall|i: int| 0 <= i < q.network_table.entries().len() ==> #[trigger] q.network_table.entries()[i].1 != addr,
        forall|i: int|
            0 <= i < p.network_table.entries().len() && #[trigger] p.network_table.entries()[i].1 != addr
                ==> q.network_table.entries().contains(p.network_table.entries()[i]),
{
    let es = p.network_table.entries();
    let f = not_at(addr);
    assert forall|i: int| 0 <= i < q.network_table.entries().len() implies #[trigger] q.network_table.entries()[i].1
        != addr by {
        es.lemma_filter_pred(f, i);
    }
    assert forall|i: int| 0 <= i < es.len() && #[trigger] es[i].1 != addr implies q.network_table.entries().contains(
        es[i],
    ) by {
        es.lemma_filter_contains(f, i);
    }
}

/// A peer that is asked to leave ends with its last action, and hands each of its files
/// only to addresses of its table other than its own.
pub proof fn lemma_exit_ends_and_hands_files_elsewhere(p: Peer, acts: Seq<ActionView>, addr: SocketAddress)
    requires
        exit_peer_chosen(p, acts, addr),
    ensures
        acts.len() > 0,
        acts.last() == ActionView::Exit,
        forall|i: int|
            0 <= i < acts.len() ==> match #[trigger] acts[i] {
                ActionView::Send { target, notification } => notification.content is OrderSongRequest ==> target
                    != p.ip_address,
                _ => true,
            },
{
    let ts = choose|ts: Seq<SocketAddress>|
        #![trigger exit_actions(p, addr, ts)]
        {
            &&& p.network_table.entries().len() > 1 ==> ts.len() == p.database.data.entries().len()
            &&& forall|k: int|
                0 <= k < ts.len() ==> crate::network::valid_target(p.network_table.entries(), p.ip_address, Some(#[trigger] ts[k]))
            &&& acts == exit_actions(p, addr, ts)
        };
    let es = p.network_table.entries();
    let ds = p.database.data.entries();
    let leave = es.filter_map(crate::request::leave_notice(addr, p.name@));
    let orders = if es.len() > 1 {
        Seq::new(
            ds.len(),
            |i: int| (ActionView::Send { target: ts[i], notification: NotificationView { content: ContentView::OrderSongRequest { song_name: ds[i].0 }, from: p.ip_address } }),
        )
    } else {
        Seq::<ActionView>::empty()
    };
    assert(acts == leave + orders + seq![ActionView::Exit]);
    assert forall|i: int|
        0 <= i < acts.len() implies match #[trigger] acts[i] {
            ActionView::Send { target, notification } => notification.content is OrderSongRequest ==> target
                != p.ip_address,
            _ => true,
        } by {
        if i < leave.len() {
            assert(acts[i] == leave[i]);
            lemma_leave_notices_from(es, addr, p.name@, i);
        } else if i < leave.len() + orders.len() {
            let k = i - leave.len();
            assert(acts[i] == orders[k]);
            assert(crate::network::valid_target(es, p.ip_address, Some(ts[k])));
        } else {
            assert(acts[i] == ActionView::Exit);
        }
    }
}

/// Each notice that a leaving peer sends says it comes from the address it leaves from.
proof fn lemma_leave_notices_from(es: Seq<(Seq<char>, SocketAddress)>, addr: SocketAddress, name: Seq<char>, i: int)
    requires
        0 <= i < es.filter_map(crate::request::leave_notice(addr, name)).len(),
    ensures
        exists|t: SocketAddress|
            es.filter_map(crate::request::leave_notice(addr, name))[i] == (ActionView::Send { target: t, notification: NotificationView { content: ContentView::DeleteFromNetwork { name }, from: addr } }),
    decreases es.len(),
{
    let f = crate::request::leave_notice(addr, name);
    let rest = es.drop_last().filter_map(f);
    if i < rest.len() {
        lemma_leave_notices_from(es.drop_last(), addr, name, i);
        let t = choose|t: SocketAddress| rest[i] == (ActionView::Send { target: t, notification: NotificationView { content: ContentView::DeleteFromNetwork { name }, from: addr } });
        assert(es.filter_map(f)[i] == rest[i]);
    } else {
        assert(es.filter_map(f)[i] == (ActionView::Send { target: es.last().1, notification: NotificationView { content: ContentView::DeleteFromNetwork { name }, from: addr } }));
    }
}

/// A stopped player has no song to go back to: a play request without a name then plays
/// nothing and only tells the user so.
pub proof fn lemma_stopped_player_needs_a_name(p: Peer, pl: MusicPlayer)
    requires
        !pl.is_playing,
        pl.current_song_name is None,
    ensures
        title_to_play(None, pl.current_song_name) is None,
        play_actions(p, None, pl) == seq![ActionView::Print { text: "No song name given and no current playing song!"@ }],
{
}

/// A heartbeat, and a reply to a store, change nothing and ask for nothing.
pub proof fn lemma_heartbeat_changes_nothing(
    p: Peer,
    q: Peer,
    pl: MusicPlayer,
    pl2: MusicPlayer,
    n: NotificationView,
    now: RequestId,
    acts: Seq<ActionView>,
)
    requires
        n.content is Heartbeat || n.content is Response,
        notification_handled(p, q, pl, pl2, n, now, acts),
    ensures
        q == p,
        pl2 == pl,
        acts.len() == 0,
{
}

/// Removing a file that the peer stores deletes it there, keeps the search open under
/// its id, and asks every other peer of the table, by name, to delete its copy.
pub proof fn lemma_remove_deletes_everywhere(
    p: Peer,
    q: Peer,
    acts: Seq<ActionView>,
    song: Seq<char>,
    now: RequestId,
)
    requires
        p.database@.contains_key(song),
        find_file_post(p, q, acts, FileInstructions::REMOVE, song, now),
    ensures
        !q.database@.contains_key(song),
        q.open_request_table@.contains_key(now),
        acts.len() == 2 + crate::request::others_of(p.network_table.entries(), p.name@).len(),
        forall|i: int|
            0 <= i < crate::request::others_of(p.network_table.entries(), p.name@).len() ==> acts[i + 2]
                == (ActionView::Send { target: #[trigger] crate::request::others_of(p.network_table.entries(), p.name@)[i], notification: NotificationView { content: ContentView::DeleteFileRequest { song_name: song }, from: p.ip_address } }),
{
}

/// Storing entries with distinct keys into a map one after the other is the same as
/// laying their map over it.
proof fn lemma_insert_all_is_union(m: Map<Seq<char>, SocketAddress>, s: Seq<(Seq<char>, SocketAddress)>)
    requires
        distinct_keys(s),
    ensures
        map_insert_all(m, s) == m.union_prefer_right(to_map(s)),
    decreases s.len(),
{
    if s.len() == 0 {
        assert(to_map(s) =~= Map::<Seq<char>, SocketAddress>::empty());
        assert(m.union_prefer_right(to_map(s)) =~= m);
    } else {
        let rest = s.drop_last();
        let e = s.last();
        assert(distinct_keys(rest)) by {
            assert forall|i: int, j: int| 0 <= i < rest.len() && 0 <= j < rest.len() && i != j implies rest[i].0
                != rest[j].0 by {
                assert(rest[i] == s[i] && rest[j] == s[j]);
            }
        }
        lemma_insert_all_is_union(m, rest);
        if has_key(rest, e.0) {
            let i = choose|i: int| 0 <= i < rest.len() && #[trigger] rest[i].0 == e.0;
            assert(rest[i] == s[i]);
            assert(s[s.len() - 1] == e);
        }
        lemma_to_map_push(rest, e.0, e.1);
        assert(rest.push(e) =~= s);
        assert(m.union_prefer_right(to_map(rest)).insert(e.0, e.1) =~= m.union_prefer_right(
            to_map(rest).insert(e.0, e.1),
        ));
    }
}

/// A peer that takes in a network table knows afterwards every peer it knew before and
/// every peer of the table; where both name the same peer, the table wins, and where the
/// table names a peer twice, its later entry wins.
pub proof fn lemma_received_table_is_merged(p: Peer, q: Peer, infos: Seq<(Seq<char>, SocketAddress)>)
    requires
        p.network_table.inv(),
        merged(p, q, infos),
    ensures
        q.network_table@ == p.network_table@.union_prefer_right(
            map_insert_all(Map::<Seq<char>, SocketAddress>::empty(), infos),
        ),
{
    let empty = Seq::<(Seq<char>, SocketAddress)>::empty();
    let t = table_of(infos);
    lemma_entries_insert_all(empty, infos);
    assert(to_map(empty) =~= Map::<Seq<char>, SocketAddress>::empty());
    lemma_entries_insert_all(p.network_table.entries(), t);
    lemma_insert_all_is_union(p.network_table@, t);
}

/// The heartbeat that a round sends next, if any.
pub open spec fn beat_index(s: HeartbeatStep) -> Option<usize> {
    match s {
        HeartbeatStep::Beat { index } => Some(index),
        HeartbeatStep::ReportLost { next, .. } => next,
        HeartbeatStep::Done => None,
    }
}

/// A round of heartbeats reaches every target, one after the other, whether or not the
/// earlier ones were refused; a refused target is reported lost before the round goes on,
/// and the round ends only after the last target.
pub proof fn lemma_heartbeat_reaches_every_target(targets: Seq<SocketAddress>, sent: int, refused: bool)
    requires
        0 <= sent <= targets.len(),
        sent == 0 ==> !refused,
    ensures
        sent < targets.len() ==> beat_index(next_heartbeat(targets, sent, refused)) == Some(sent as usize),
        sent == targets.len() ==> beat_index(next_heartbeat(targets, sent, refused)) is None,
        refused <==> next_heartbeat(targets, sent, refused) is ReportLost,
        refused ==> next_heartbeat(targets, sent, refused)->addr == targets[sent - 1],
{
}

/// Handling a notification never changes the address of the peer. Only a rename changes
/// its name, and then its table has it under the new name at its own address instead of
/// under the old one; a heartbeat or a reply to a store changes nothing and asks for
/// nothing.
pub proof fn lemma_handling_keeps_identity(
    p: Peer,
    q: Peer,
    pl: MusicPlayer,
    pl2: MusicPlayer,
    n: NotificationView,
    now: RequestId,
    acts: Seq<ActionView>,
)
    requires
        notification_handled(p, q, pl, pl2, n, now, acts),
    ensures
        q.ip_address == p.ip_address,
        n.content matches ContentView::ChangePeerName { value } ==> {
            &&& q.name@ == value
            &&& q.network_table@ == p.network_table@.remove(p.name@).insert(value, p.ip_address)
        },
        !(n.content is ChangePeerName) ==> q.name == p.name,
        n.content is Heartbeat || n.content is Response ==> q == p && pl2 == pl && acts.len() == 0,
{
    match n.content {
        ContentView::PushToDB { key, value, from } => {
            let t = choose|t: Option<SocketAddress>|
                #![trigger push_to_db_post(p, q, acts, key, value, from, t)]
                (!p.database@.contains_key(key) ==> crate::network::valid_target(p.network_table.entries(), p.ip_address, t))
                    && push_to_db_post(p, q, acts, key, value, from, t);
            assert(push_to_db_post(p, q, acts, key, value, from, t));
        },
        _ => {},
    }
}

/// A peer asked whether it stores a file answers only when it does: with one message,
/// to the asking peer, that names the file and the search and gives the answering peer's
/// own address as its sender, so that the asker knows whom to ask for the file.
pub proof fn lemma_holder_answers_in_its_own_name(
    p: Peer,
    q: Peer,
    pl: MusicPlayer,
    pl2: MusicPlayer,
    n: NotificationView,
    now: RequestId,
    acts: Seq<ActionView>,
    song: Seq<char>,
    id: RequestId,
)
    requires
        n.content == (ContentView::ExistFile { song_name: song, id }),
        notification_handled(p, q, pl, pl2, n, now, acts),
    ensures
        q == p,
        pl2 == pl,
        p.database@.contains_key(song) ==> acts.len() == 1 && acts[0] == (ActionView::Send {
            target: n.from,
            notification: NotificationView {
                content: ContentView::ExistFileResponse { song_name: song, id },
                from: p.ip_address,
            },
        }),
        !p.database@.contains_key(song) ==> acts.len() == 0,
{
}

/// The answer of a peer that stores a searched file leads the searching peer, while its
/// search is open, to ask that very peer for the file, for the use the search was for.
pub proof fn lemma_found_file_is_asked_from_its_holder(
    holder: Peer,
    asker: Peer,
    asker2: Peer,
    pl: MusicPlayer,
    pl2: MusicPlayer,
    song: Seq<char>,
    id: RequestId,
    t: SocketAddress,
    answer: NotificationView,
    now: RequestId,
    acts: Seq<ActionView>,
)
    requires
        holder.database@.contains_key(song),
        exist_file_actions(holder, song, id, t)[0] == (ActionView::Send { target: t, notification: answer }),
        asker.open_request_table@.contains_key(id),
        notification_handled(asker, asker2, pl, pl2, answer, now, acts),
    ensures
        !asker2.open_request_table@.contains_key(id),
        acts == (seq![
            ActionView::Send {
                target: holder.ip_address,
                notification: NotificationView {
                    content: ContentView::GetFile { instr: asker.open_request_table@[id], key: song },
                    from: asker.ip_address,
                },
            },
        ]),
{
}

/// The shell's remove command asks the local peer, and only it, to find the named file
/// for removal.
pub proof fn lemma_remove_command_asks_for_removal(name: Seq<char>, ip: SocketAddress)
    ensures
        command_actions_of(CommandView::Remove { name }, ip) == seq![
            ActionView::Send {
                target: ip,
                notification: NotificationView {
                    content: ContentView::FindFile { instr: FileInstructions::REMOVE, song_name: name },
                    from: ip,
                },
            },
        ],
{
}

/// What the remove command sends makes the local peer delete the file when it stores
/// it, and otherwise opens a search whose found file is to be removed.
pub proof fn lemma_remove_command_deletes_the_file(
    p: Peer,
    q: Peer,
    pl: MusicPlayer,
    pl2: MusicPlayer,
    name: Seq<char>,
    target: SocketAddress,
    n: NotificationView,
    now: RequestId,
    acts: Seq<ActionView>,
)
    requires
        command_actions_of(CommandView::Remove { name }, p.ip_address)[0] == (ActionView::Send { target, notification: n }),
        notification_handled(p, q, pl, pl2, n, now, acts),
    ensures
        target == p.ip_address,
        !q.database@.contains_key(name),
        q.database@ == p.database@.remove(name),
        q.open_request_table@.contains_key(now),
        q.open_request_table@[now] == FileInstructions::REMOVE,
{
}

/// A peer asked to delete its copy of a file deletes it and keeps everything else; when
/// it had the file, it tells the user and the listener so.
pub proof fn lemma_delete_request_deletes_the_copy(
    p: Peer,
    q: Peer,
    pl: MusicPlayer,
    pl2: MusicPlayer,
    n: NotificationView,
    now: RequestId,
    acts: Seq<ActionView>,
    song: Seq<char>,
)
    requires
        n.content == (ContentView::DeleteFileRequest { song_name: song }),
        notification_handled(p, q, pl, pl2, n, now, acts),
    ensures
        !q.database@.contains_key(song),
        forall|k: Seq<char>| k != song ==> (#[trigger] q.database@.contains_key(k) <==> p.database@.contains_key(k)),
        forall|k: Seq<char>| k != song && #[trigger] q.database@.contains_key(k) ==> q.database@[k] == p.database@[k],
        q.name == p.name,
        q.ip_address == p.ip_address,
        q.network_table == p.network_table,
        q.open_request_table == p.open_request_table,
        pl2 == pl,
        p.database@.contains_key(song) ==> acts.len() == 2 && acts[1] == (ActionView::DatabaseChanged {
            name: song,
            status: crate::utils::FileStatus::DELETE,
        }) && (acts[0] is Print),
        !p.database@.contains_key(song) ==> acts.len() == 0,
{
}

/// A peer asked for its table by a peer that wants to join under a free name sends its
/// table, entry by entry, to the asking peer; when the name is taken, it tells the asking
/// peer to take the name followed by "+1". Nothing else happens.
pub proof fn lemma_table_goes_to_the_joining_peer(
    p: Peer,
    q: Peer,
    pl: MusicPlayer,
    pl2: MusicPlayer,
    n: NotificationView,
    now: RequestId,
    acts: Seq<ActionView>,
    value: Seq<char>,
)
    requires
        n.content == (ContentView::RequestForTable { value }),
        notification_handled(p, q, pl, pl2, n, now, acts),
    ensures
        q == p,
        pl2 == pl,
        acts.len() == 1,
        !p.network_table@.contains_key(value) ==> acts[0] == (ActionView::Send {
            target: n.from,
            notification: NotificationView {
                content: ContentView::SendNetworkTable { table: TablePayloadView::Entries(p.network_table.entries()) },
                from: p.ip_address,
            },
        }),
        p.network_table@.contains_key(value) ==> acts[0] == (ActionView::Send {
            target: n.from,
            notification: NotificationView {
                content: ContentView::ChangePeerName { value: value + "+1"@ },
                from: p.ip_address,
            },
        }),
{
}

/// Pause, continue and stop requests leave the peer as it is and give exactly the one
/// player action they name; continuing and pausing keep the player's state, stopping
/// clears it and is reported to the listener.
pub proof fn lemma_player_requests_do_what_they_name(
    p: Peer,
    q: Peer,
    pl: MusicPlayer,
    pl2: MusicPlayer,
    n: NotificationView,
    now: RequestId,
    acts: Seq<ActionView>,
    name: Option<Seq<char>>,
    state: MusicState,
)
    requires
        n.content == (ContentView::PlayAudioRequest { name, state }),
        notification_handled(p, q, pl, pl2, n, now, acts),
    ensures
        q == p,
        state == MusicState::CONTINUE ==> pl2 == pl && acts == (seq![ActionView::Resume]),
        state == MusicState::PAUSE ==> pl2 == pl && acts == (seq![ActionView::Pause]),
        state == MusicState::STOP ==> !pl2.is_playing && pl2.current_song_name is None
            && acts == (seq![ActionView::Stop, ActionView::PlayerStopped]),
{
}

/// The words the user types are read as the command they name, with the file names
/// and paths that follow them.
pub proof fn lemma_commands_are_read_from_their_words(name: Seq<char>, path: Seq<char>)
    ensures
        command_of(seq!["get"@, name]) == (CommandView::Get { name }),
        command_of(seq!["remove"@, name]) == (CommandView::Remove { name }),
        command_of(seq!["play"@, name]) == (CommandView::Play { name }),
        command_of(seq!["push"@, name, path]) == (CommandView::Push { name, path }),
        command_of(seq!["exit"@]) == CommandView::Exit,
        command_of(seq!["status"@]) == CommandView::Status,
        command_of(seq!["help"@]) == CommandView::Help,
        command_of(seq!["h"@]) == CommandView::Help,
{
    reveal_strlit("get");
    reveal_strlit("remove");
    reveal_strlit("play");
    reveal_strlit("push");
    reveal_strlit("exit");
    reveal_strlit("status");
    reveal_strlit("help");
    reveal_strlit("h");
    reveal_strlit("stream");
    assert("get"@[0] != "h"@[0] && "get"@[0] != "help"@[0] && "get"@[0] != "push"@[0]);
    let others = seq!["h"@, "help"@, "push"@, "get"@, "exit"@, "status"@, "play"@];
    assert forall|k: int| 0 <= k < others.len() implies #[trigger] others[k][0] != "remove"@[0] by {}
    assert("remove"@ != "h"@ && "remove"@ != "help"@ && "remove"@ != "push"@ && "remove"@ != "get"@) by {
        assert(others[0][0] != "remove"@[0] && others[1][0] != "remove"@[0]);
        assert(others[2][0] != "remove"@[0] && others[3][0] != "remove"@[0]);
    }
    assert("remove"@ != "exit"@ && "remove"@ != "status"@ && "remove"@ != "play"@) by {
        assert(others[4][0] != "remove"@[0] && others[5][0] != "remove"@[0] && others[6][0] != "remove"@[0]);
    }
    assert("play"@[1] != "push"@[1]);
    assert("play"@[0] != "get"@[0] && "play"@[0] != "exit"@[0] && "play"@[0] != "status"@[0]);
    assert("push"@[0] != "h"@[0] && "push"@[0] != "help"@[0]);
    assert("exit"@[0] != "h"@[0] && "exit"@[0] != "help"@[0] && "exit"@[0] != "push"@[0] && "exit"@[0] != "get"@[0]);
    assert("status"@[0] != "h"@[0] && "status"@[0] != "help"@[0] && "status"@[0] != "push"@[0]);
    assert("status"@[0] != "get"@[0] && "status"@[0] != "exit"@[0]);
}

/// The shell's get, play and exit commands ask the local peer, and only it, to fetch the
/// named file, to play it, or to leave the network.
pub proof fn lemma_shell_commands_ask_the_local_peer(name: Seq<char>, ip: SocketAddress)
    ensures
        command_actions_of(CommandView::Get { name }, ip) == seq![
            (ActionView::Send {
                target: ip,
                notification: NotificationView {
                    content: ContentView::FindFile { instr: FileInstructions::GET, song_name: name },
                    from: ip,
                },
            }),
        ],
        command_actions_of(CommandView::Play { name }, ip) == seq![
            (ActionView::Send {
                target: ip,
                notification: NotificationView {
                    content: ContentView::PlayAudioRequest { name: Some(name), state: MusicState::PLAY },
                    from: ip,
                },
            }),
        ],
        command_actions_of(CommandView::Exit, ip).len() == 2,
        command_actions_of(CommandView::Exit, ip)[0] is Print,
        command_actions_of(CommandView::Exit, ip)[1] == (ActionView::Send {
            target: ip,
            notification: NotificationView { content: ContentView::ExitPeer { addr: ip }, from: ip },
        }),
        command_actions_of(CommandView::Status, ip).len() == 0,
        command_actions_of(CommandView::Help, ip).len() == 0,
{
}

/// A peer asked which files it stores answers the asking peer, in its own name, with the
/// names of all its files in the order of its database, and changes nothing.
pub proof fn lemma_status_lists_the_files(
    p: Peer,
    q: Peer,
    pl: MusicPlayer,
    pl2: MusicPlayer,
    n: NotificationView,
    now: RequestId,
    acts: Seq<ActionView>,
)
    requires
        n.content == ContentView::StatusRequest,
        notification_handled(p, q, pl, pl2, n, now, acts),
    ensures
        q == p,
        pl2 == pl,
        acts.len() == 1,
        acts[0] matches ActionView::Send { target, notification } && {
            &&& target == n.from
            &&& notification.from == p.ip_address
            &&& notification.content matches ContentView::StatusResponse { files, name } && {
                &&& name == p.name@
                &&& files.len() == p.database.data.entries().len()
                &&& forall|i: int| 0 <= i < files.len() ==> #[trigger] files[i] == p.database.data.entries()[i].0
            }
        },
{
}

/// The answer to a status request is shown, as it came, and changes nothing.
pub proof fn lemma_status_answer_is_shown(
    p: Peer,
    q: Peer,
    pl: MusicPlayer,
    pl2: MusicPlayer,
    n: NotificationView,
    now: RequestId,
    acts: Seq<ActionView>,
    files: Seq<Seq<char>>,
    name: Seq<char>,
)
    requires
        n.content == (ContentView::StatusResponse { files, name }),
        notification_handled(p, q, pl, pl2, n, now, acts),
    ensures
        q == p,
        pl2 == pl,
        acts == seq![(ActionView::ShowStatus { files, name })],
{
}

/// A peer asked for the state of the whole network asks every address of its table, in
/// table order, which files it stores.
pub proof fn lemma_self_status_asks_every_peer(
    p: Peer,
    q: Peer,
    pl: MusicPlayer,
    pl2: MusicPlayer,
    n: NotificationView,
    now: RequestId,
    acts: Seq<ActionView>,
)
    requires
        n.content == ContentView::SelfStatusRequest,
        notification_handled(p, q, pl, pl2, n, now, acts),
    ensures
        q == p,
        acts.len() == p.network_table.entries().len(),
        forall|i: int|
            0 <= i < acts.len() ==> #[trigger] acts[i] == (ActionView::SendWatched {
                target: p.network_table.entries()[i].1,
                notification: NotificationView { content: ContentView::StatusRequest, from: p.ip_address },
            }),
{
}

/// A peer told that another peer left the network forgets it and keeps everything else.
pub proof fn lemma_leaving_peer_is_forgotten(
    p: Peer,
    q: Peer,
    pl: MusicPlayer,
    pl2: MusicPlayer,
    n: NotificationView,
    now: RequestId,
    acts: Seq<ActionView>,
    name: Seq<char>,
)
    requires
        n.content == (ContentView::DeleteFromNetwork { name }),
        notification_handled(p, q, pl, pl2, n, now, acts),
    ensures
        !q.network_table@.contains_key(name),
        q.network_table@ == p.network_table@.remove(name),
        q.name == p.name,
        q.ip_address == p.ip_address,
        q.database == p.database,
        q.open_request_table == p.open_request_table,
        p.network_table@.contains_key(name) ==> acts == seq![(ActionView::Print { text: name + " left the network."@ })],
        !p.network_table@.contains_key(name) ==> acts.len() == 0,
{
}

/// A file that comes back from another peer is streamed to the player when it was asked
/// for playing, stored as a new file when it was handed on, stored as a download when it
/// was fetched, and dropped when it was found for removal; the listener hears of each.
pub proof fn lemma_received_file_is_used_as_asked(
    p: Peer,
    q: Peer,
    pl: MusicPlayer,
    pl2: MusicPlayer,
    n: NotificationView,
    now: RequestId,
    acts: Seq<ActionView>,
    instr: FileInstructions,
    key: Seq<char>,
    value: Seq<u8>,
)
    requires
        n.content == (ContentView::GetFileResponse { instr, key, value }),
        notification_handled(p, q, pl, pl2, n, now, acts),
    ensures
        pl2 == pl,
        q.name == p.name,
        q.ip_address == p.ip_address,
        q.network_table == p.network_table,
        q.open_request_table == p.open_request_table,
        instr == FileInstructions::PLAY ==> q.database@ == p.database@ && acts == seq![
            (ActionView::Play { title: key, data: value }),
            (ActionView::PlayerPlaying { title: None }),
        ],
        instr == FileInstructions::ORDER ==> q.database@ == p.database@.insert(key, value) && acts == seq![
            (ActionView::DatabaseChanged { name: key, status: crate::utils::FileStatus::NEW }),
        ],
        instr == FileInstructions::GET ==> q.database@ == p.database@.insert(key, value) && acts == seq![
            (ActionView::DatabaseChanged { name: key, status: crate::utils::FileStatus::DOWNLOAD }),
        ],
        instr == FileInstructions::REMOVE ==> q.database@ == p.database@ && acts.len() == 0,
{
}

/// A request to play a named song plays it from the database when the peer stores it,
/// makes it the player's current song and tells the listener; otherwise the peer asks
/// itself to find the song in the network for playing, and the player stays as it is.
pub proof fn lemma_play_request_plays_or_searches(
    p: Peer,
    q: Peer,
    pl: MusicPlayer,
    pl2: MusicPlayer,
    n: NotificationView,
    now: RequestId,
    acts: Seq<ActionView>,
    title: Seq<char>,
)
    requires
        n.content == (ContentView::PlayAudioRequest { name: Some(title), state: MusicState::PLAY }),
        notification_handled(p, q, pl, pl2, n, now, acts),
    ensures
        q == p,
        p.database@.contains_key(title) ==> {
            &&& acts == seq![
                (ActionView::Play { title, data: p.database@[title] }),
                (ActionView::PlayerPlaying { title: Some(title) }),
            ]
            &&& pl2.current_song_name matches Some(c) && c@ == title
            &&& pl2.is_playing == pl.is_playing
        },
        !p.database@.contains_key(title) ==> {
            &&& pl2 == pl
            &&& acts.len() == 2
            &&& acts[1] == (ActionView::Send {
                target: p.ip_address,
                notification: NotificationView {
                    content: ContentView::FindFile { instr: FileInstructions::PLAY, song_name: title },
                    from: p.ip_address,
                },
            })
        },
{
}

/// A peer asked to hand a song on sends it, when it stores it, to one other peer of its
/// table; a song it does not store it asks the network for, to keep it itself.
pub proof fn lemma_ordered_song_is_handed_to_another_peer(
    p: Peer,
    q: Peer,
    pl: MusicPlayer,
    pl2: MusicPlayer,
    n: NotificationView,
    now: RequestId,
    acts: Seq<ActionView>,
    song: Seq<char>,
)
    requires
        n.content == (ContentView::OrderSongRequest { song_name: song }),
        crate::network::can_handle(p, n),
        notification_handled(p, q, pl, pl2, n, now, acts),
    ensures
        q == p,
        pl2 == pl,
        acts.len() == 1,
        !p.database@.contains_key(song) ==> acts[0] == (ActionView::Send {
            target: p.ip_address,
            notification: NotificationView {
                content: ContentView::FindFile { instr: FileInstructions::ORDER, song_name: song },
                from: p.ip_address,
            },
        }),
        p.database@.contains_key(song) ==> (acts[0] matches ActionView::Send { target, notification } && {
            &&& target != p.ip_address
            &&& exists|i: int| 0 <= i < p.network_table.entries().len() && #[trigger] p.network_table.entries()[i].1 == target
            &&& notification == (NotificationView { content: ContentView::OrderSongRequest { song_name: song }, from: p.ip_address })
        }),
{
    let t = choose|t: Option<SocketAddress>|
        #![trigger crate::request::order_actions(p, song, t)]
        (p.database@.contains_key(song) ==> crate::network::valid_target(p.network_table.entries(), p.ip_address, t))
            && acts == crate::request::order_actions(p, song, t);
    assert(acts == crate::request::order_actions(p, song, t));
}

/// An entry kept by a `filter_map` is in its result.
proof fn lemma_filter_map_keeps<A, B>(s: Seq<A>, f: spec_fn(A) -> Option<B>, i: int)
    requires
        0 <= i < s.len(),
        f(s[i]) is Some,
    ensures
        s.filter_map(f).contains(f(s[i])->0),
    decreases s.len(),
{
    let rest = s.drop_last();
    s.lemma_filter_map_take_succ(f, s.len() - 1);
    assert(s.take(s.len() - 1) =~= rest);
    assert(s.take(s.len() as int) =~= s);
    if i < s.len() - 1 {
        assert(rest[i] == s[i]);
        lemma_filter_map_keeps(rest, f, i);
        let k = choose|k: int| 0 <= k < rest.filter_map(f).len() && rest.filter_map(f)[k] == f(s[i])->0;
        assert(s.filter_map(f)[k] == f(s[i])->0);
    } else {
        let r = s.filter_map(f);
        assert(r[r.len() - 1] == f(s[i])->0);
    }
}

/// When the peer at `lost` cannot be reached, every other address of the table, and
/// nothing else, is told so, in the name of the peer that noticed it.
pub proof fn lemma_lost_peer_is_told_to_every_other(
    es: Seq<(Seq<char>, SocketAddress)>,
    lost: SocketAddress,
    own: SocketAddress,
    a: ActionView,
    i: int,
)
    ensures
        es.filter_map(crate::network::dropped_notice(lost, own)).contains(a) ==> (a matches ActionView::SendWatched {
            target,
            notification,
        } && target != lost && notification == (NotificationView { content: ContentView::DroppedPeer { addr: lost }, from: own })
            && exists|j: int| 0 <= j < es.len() && #[trigger] es[j].1 == target),
        0 <= i < es.len() && es[i].1 != lost ==> es.filter_map(crate::network::dropped_notice(lost, own)).contains(
            (ActionView::SendWatched {
                target: es[i].1,
                notification: NotificationView { content: ContentView::DroppedPeer { addr: lost }, from: own },
            }),
        ),
{
    let f = crate::network::dropped_notice(lost, own);
    if es.filter_map(f).contains(a) {
        es.lemma_filter_map_contains(f, a);
        let e = choose|e: (Seq<char>, SocketAddress)| #[trigger] es.contains(e) && f(e) == Some(a);
        let j = choose|j: int| 0 <= j < es.len() && es[j] == e;
        assert(es[j].1 == e.1);
    }
    if 0 <= i < es.len() && es[i].1 != lost {
        lemma_filter_map_keeps(es, f, i);
    }
}

/// A peer that gets the network table after asking to join takes in every entry of it,
/// keeps its own name, address and files, and announces itself, with its name and
/// address, to every peer of its table but itself, and to nobody else.
pub proof fn lemma_joining_peer_takes_the_table_and_announces_itself(
    p: Peer,
    q: Peer,
    pl: MusicPlayer,
    pl2: MusicPlayer,
    n: NotificationView,
    now: RequestId,
    acts: Seq<ActionView>,
    infos: Seq<(Seq<char>, SocketAddress)>,
    a: ActionView,
    i: int,
)
    requires
        p.network_table.inv(),
        n.content == (ContentView::SendNetworkTable { table: TablePayloadView::Entries(infos) }),
        notification_handled(p, q, pl, pl2, n, now, acts),
    ensures
        q.network_table@ == p.network_table@.union_prefer_right(
            map_insert_all(Map::<Seq<char>, SocketAddress>::empty(), infos),
        ),
        q.name == p.name,
        q.ip_address == p.ip_address,
        q.database == p.database,
        pl2 == pl,
        acts.contains(a) ==> (a matches ActionView::Send { target, notification } && {
            &&& notification == (NotificationView {
                content: ContentView::SendNetworkUpdateTable { table: TablePayloadView::Entries(seq![(p.name@, p.ip_address)]) },
                from: p.ip_address,
            })
            &&& exists|j: int| 0 <= j < q.network_table.entries().len() && #[trigger] q.network_table.entries()[j].1 == target
                && q.network_table.entries()[j].0 != p.name@
        }),
        0 <= i < q.network_table.entries().len() && q.network_table.entries()[i].0 != p.name@ ==> acts.contains(
            (ActionView::Send {
                target: q.network_table.entries()[i].1,
                notification: NotificationView {
                    content: ContentView::SendNetworkUpdateTable { table: TablePayloadView::Entries(seq![(p.name@, p.ip_address)]) },
                    from: p.ip_address,
                },
            }),
        ),
{
    lemma_received_table_is_merged(p, q, infos);
    let es = q.network_table.entries();
    let f = crate::handshake::announce_to(p.name@, p.ip_address);
    if acts.contains(a) {
        es.lemma_filter_map_contains(f, a);
        let e = choose|e: (Seq<char>, SocketAddress)| #[trigger] es.contains(e) && f(e) == Some(a);
        let j = choose|j: int| 0 <= j < es.len() && es[j] == e;
        assert(es[j].1 == e.1);
    }
    if 0 <= i < es.len() && es[i].0 != p.name@ {
        lemma_filter_map_keeps(es, f, i);
    }
}

/// A peer told of a peer that joined takes its entry into its table, keeps its own name,
/// address and files, and tells the user who joined, in the order of the entries.
pub proof fn lemma_update_takes_in_the_joined_peer(
    p: Peer,
    q: Peer,
    pl: MusicPlayer,
    pl2: MusicPlayer,
    n: NotificationView,
    now: RequestId,
    acts: Seq<ActionView>,
    infos: Seq<(Seq<char>, SocketAddress)>,
)
    requires
        p.network_table.inv(),
        n.content == (ContentView::SendNetworkUpdateTable { table: TablePayloadView::Entries(infos) }),
        notification_handled(p, q, pl, pl2, n, now, acts),
    ensures
        q.network_table@ == p.network_table@.union_prefer_right(
            map_insert_all(Map::<Seq<char>, SocketAddress>::empty(), infos),
        ),
        q.name == p.name,
        q.ip_address == p.ip_address,
        q.database == p.database,
        pl2 == pl,
        acts.len() == table_of(infos).len(),
        forall|k: int|
            0 <= k < acts.len() ==> #[trigger] acts[k] == (ActionView::Print { text: table_of(infos)[k].0 + " joined the network."@ }),
{
    lemma_received_table_is_merged(p, q, infos);
}

/// What an application asks of its own peer goes to that peer, in its own name: to leave
/// the network, to put its player in a state, to find a file for a use, to store and copy
/// a file.
pub proof fn lemma_own_requests_go_to_the_own_peer(
    ip: SocketAddress,
    name: Option<Seq<char>>,
    state: MusicState,
    file: Seq<char>,
    instr: FileInstructions,
    value: Seq<u8>,
)
    ensures
        crate::interface::leave_request(ip) == (ActionView::Send {
            target: ip,
            notification: NotificationView { content: ContentView::ExitPeer { addr: ip }, from: ip },
        }),
        crate::interface::player_request(ip, name, state) == (ActionView::Send {
            target: ip,
            notification: NotificationView { content: ContentView::PlayAudioRequest { name, state }, from: ip },
        }),
        crate::interface::file_request(ip, file, instr) == (ActionView::Send {
            target: ip,
            notification: NotificationView { content: ContentView::FindFile { instr, song_name: file }, from: ip },
        }),
        crate::interface::upload_request(ip, file, value) == (ActionView::SendWatched {
            target: ip,
            notification: NotificationView {
                content: ContentView::PushToDB { key: file, value, from: Some(ip) },
                from: ip,
            },
        }),
{
}

/// A heartbeat goes to its target in the name of the sending peer, and a peer that wants
/// to join asks the peer it knows for its table under the name it wants.
pub proof fn lemma_heartbeat_and_join_request_say_who_sends(target: SocketAddress, from: SocketAddress, name: Seq<char>)
    ensures
        crate::network::heartbeat_action(target, from) == (ActionView::SendWatched {
            target,
            notification: NotificationView { content: ContentView::Heartbeat, from },
        }),
        crate::handshake::table_request(target, from, name) == (ActionView::Send {
            target,
            notification: NotificationView { content: ContentView::RequestForTable { value: name }, from },
        }),
{
}

/// A renamed peer asks the peer that told it to rename for the network table again, now
/// under its new name.
pub proof fn lemma_renamed_peer_asks_again(
    p: Peer,
    q: Peer,
    pl: MusicPlayer,
    pl2: MusicPlayer,
    n: NotificationView,
    now: RequestId,
    acts: Seq<ActionView>,
    value: Seq<char>,
)
    requires
        n.content == (ContentView::ChangePeerName { value }),
        notification_handled(p, q, pl, pl2, n, now, acts),
    ensures
        pl2 == pl,
        q.database == p.database,
        acts == seq![
            (ActionView::Send {
                target: n.from,
                notification: NotificationView { content: ContentView::RequestForTable { value }, from: p.ip_address },
            }),
        ],
{
}

/// A peer that stores a file pushed to it tells the pushing peer, in its own name, that the
/// file is stored, with its last action.
pub proof fn lemma_pusher_is_told_the_file_is_stored(
    p: Peer,
    q: Peer,
    acts: Seq<ActionView>,
    key: Seq<char>,
    value: Seq<u8>,
    f: SocketAddress,
)
    requires
        push_to_db_chosen(p, q, acts, key, value, Some(f)),
        !p.database@.contains_key(key),
    ensures
        acts.len() == 4,
        acts[0] is Print,
        acts[1] == (ActionView::DatabaseChanged { name: key, status: crate::utils::FileStatus::NEW }),
        acts[3] == (ActionView::SendWatched {
            target: f,
            notification: NotificationView {
                content: ContentView::Response {
                    from: p.ip_address,
                    message: crate::notification::MessageView::DataStored { key },
                },
                from: p.ip_address,
            },
        }),
{
    let t = choose|t: Option<SocketAddress>|
        #![trigger push_to_db_post(p, q, acts, key, value, Some(f), t)]
        (!p.database@.contains_key(key) ==> crate::network::valid_target(p.network_table.entries(), p.ip_address, t))
            && push_to_db_post(p, q, acts, key, value, Some(f), t);
    assert(push_to_db_post(p, q, acts, key, value, Some(f), t));
}

/// A search for a file that the peer does not store opens a request under the given id,
/// for the given use, and asks every other peer of the table, by name, whether it stores
/// the file, naming that request.
pub proof fn lemma_search_asks_every_other_peer(
    p: Peer,
    q: Peer,
    acts: Seq<ActionView>,
    instr: FileInstructions,
    song: Seq<char>,
    now: RequestId,
)
    requires
        !p.database@.contains_key(song),
        find_file_post(p, q, acts, instr, song, now),
    ensures
        q.database == p.database,
        q.network_table == p.network_table,
        q.open_request_table@.contains_key(now),
        q.open_request_table@[now] == instr,
        acts.len() == crate::request::others_of(p.network_table.entries(), p.name@).len(),
        forall|i: int|
            0 <= i < acts.len() ==> #[trigger] acts[i] == (ActionView::Send {
                target: crate::request::others_of(p.network_table.entries(), p.name@)[i],
                notification: NotificationView { content: ContentView::ExistFile { song_name: song, id: now }, from: p.ip_address },
            }),
{
}

/// A dropped peer is reported to the user, and nothing else is done.
pub proof fn lemma_dropped_peer_is_reported(p: Peer, q: Peer, acts: Seq<ActionView>, addr: SocketAddress)
    requires
        dropped_peer_post(p, q, acts, addr),
    ensures
        acts == seq![(ActionView::ReportDroppedPeer { addr })],
        q.database == p.database,
        q.name == p.name,
        q.ip_address == p.ip_address,
{
}

/// A peer that leaves tells every peer of its table at another address that it left, in
/// the name of the address it leaves from, and, when there are other peers, hands each of
/// its files to a peer other than itself.
pub proof fn lemma_leaving_peer_tells_everyone_and_hands_every_file_on(
    p: Peer,
    acts: Seq<ActionView>,
    addr: SocketAddress,
    i: int,
    k: int,
)
    requires
        exit_peer_chosen(p, acts, addr),
    ensures
        0 <= i < p.network_table.entries().len() && p.network_table.entries()[i].1 != addr ==> acts.contains(
            (ActionView::Send {
                target: p.network_table.entries()[i].1,
                notification: NotificationView { content: ContentView::DeleteFromNetwork { name: p.name@ }, from: addr },
            }),
        ),
        p.network_table.entries().len() > 1 && 0 <= k < p.database.data.entries().len() ==> exists|j: int|
            0 <= j < acts.len() && (#[trigger] acts[j] matches ActionView::Send { target, notification } && target
                != p.ip_address && notification == (NotificationView {
                content: ContentView::OrderSongRequest { song_name: p.database.data.entries()[k].0 },
                from: p.ip_address,
            })),
{
    let ts = choose|ts: Seq<SocketAddress>|
        #![trigger exit_actions(p, addr, ts)]
        {
            &&& p.network_table.entries().len() > 1 ==> ts.len() == p.database.data.entries().len()
            &&& forall|k: int|
                0 <= k < ts.len() ==> crate::network::valid_target(p.network_table.entries(), p.ip_address, Some(#[trigger] ts[k]))
            &&& acts == exit_actions(p, addr, ts)
        };
    let es = p.network_table.entries();
    let ds = p.database.data.entries();
    let f = crate::request::leave_notice(addr, p.name@);
    let leave = es.filter_map(f);
    let orders = if es.len() > 1 {
        Seq::new(
            ds.len(),
            |m: int| (ActionView::Send {
                target: ts[m],
                notification: NotificationView { content: ContentView::OrderSongRequest { song_name: ds[m].0 }, from: p.ip_address },
            }),
        )
    } else {
        Seq::<ActionView>::empty()
    };
    assert(acts == leave + orders + seq![ActionView::Exit]);
    if 0 <= i < es.len() && es[i].1 != addr {
        lemma_filter_map_keeps(es, f, i);
        let x = f(es[i])->0;
        let m = choose|m: int| 0 <= m < leave.len() && leave[m] == x;
        assert(acts[m] == x);
    }
    if es.len() > 1 && 0 <= k < ds.len() {
        let j = leave.len() + k;
        assert(acts[j] == orders[k]);
        assert(crate::network::valid_target(es, p.ip_address, Some(ts[k])));
    }
}

/// A peer that stores a file sends it, in its own name and with the bytes it stores, to
/// the peer that asked for it to play, fetch or keep it; for a file it does not store it
/// does nothing.
pub proof fn lemma_stored_file_is_sent_to_the_asker(
    p: Peer,
    q: Peer,
    pl: MusicPlayer,
    pl2: MusicPlayer,
    n: NotificationView,
    now: RequestId,
    acts: Seq<ActionView>,
    instr: FileInstructions,
    key: Seq<char>,
)
    requires
        n.content == (ContentView::GetFile { instr, key }),
        instr != FileInstructions::REMOVE,
        notification_handled(p, q, pl, pl2, n, now, acts),
    ensures
        q == p,
        pl2 == pl,
        p.database@.contains_key(key) ==> acts == seq![
            (ActionView::Send {
                target: n.from,
                notification: NotificationView {
                    content: ContentView::GetFileResponse { instr, key, value: p.database@[key] },
                    from: p.ip_address,
                },
            }),
        ],
        !p.database@.contains_key(key) ==> acts.len() == 0,
{
}

/// A second copy that another peer sends is stored, whatever was stored under its name
/// before, and reported to the listener as a new file; nothing else changes.
pub proof fn lemma_second_copy_is_stored(
    p: Peer,
    q: Peer,
    pl: MusicPlayer,
    pl2: MusicPlayer,
    n: NotificationView,
    now: RequestId,
    acts: Seq<ActionView>,
    key: Seq<char>,
    value: Seq<u8>,
    from: Option<SocketAddress>,
)
    requires
        n.content == (ContentView::RedundantPushToDB { key, value, from }),
        notification_handled(p, q, pl, pl2, n, now, acts),
    ensures
        q.database@ == p.database@.insert(key, value),
        q.name == p.name,
        q.ip_address == p.ip_address,
        q.network_table == p.network_table,
        q.open_request_table == p.open_request_table,
        pl2 == pl,
        acts == seq![(ActionView::DatabaseChanged { name: key, status: crate::utils::FileStatus::NEW })],
{
}

} // verus!
