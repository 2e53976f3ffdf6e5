//! How a peer answers each kind of notification: the change to its state and the actions
//! that follow.
use crate::action::{actions_view, database_changed, lemma_actions_push, print, three_part_text, Action, ActionView};
use crate::address::{RequestId, SocketAddress};
use crate::handshake::{announce_to, network_table_from_entries, send_change_name_request, send_network_table_request, send_table_request, send_table_to_all_peers, update_table_after_delete};
use crate::music_exchange::{delete_redundant_song_request, plain_send, read_file_exist, send_exist_response, send_file_request, send_get_file_reponse, song_order_request};
use crate::network::{has_other_address, send_read_request, other_random_target, send_local_file_status, send_status_request, send_write_request, send_write_response, valid_target, watched_send};
use crate::notification::{ContentView, MessageView, TablePayload, TablePayloadView};
use crate::peer::{not_at, Peer};
use crate::text_map::{entries_insert, entries_insert_all, entries_remove, TextMap};
use crate::utils::{FileInstructions, FileStatus};
use vstd::prelude::*;
use vstd::string::*;

verus! {

/// `q` differs from `p` at most in its database.
pub open spec fn same_but_database(p: Peer, q: Peer) -> bool {
    &&& q.name == p.name
    &&& q.ip_address == p.ip_address
    &&& q.network_table == p.network_table
    &&& q.open_request_table == p.open_request_table
}

/// What `push_to_db` does when `target` is the peer chosen for the second copy.
pub open spec fn push_to_db_post(
    p: Peer,
    q: Peer,
    acts: Seq<ActionView>,
    key: Seq<char>,
    value: Seq<u8>,
    from: Option<SocketAddress>,
    target: Option<SocketAddress>,
) -> bool {
    if p.database@.contains_key(key) {
        &&& q == p
        &&& acts == seq![ActionView::Print { text: "File already exists in your database"@ }]
    } else {
        &&& same_but_database(p, q)
        &&& q.database@ == p.database@.insert(key, value)
        &&& acts == seq![
            ActionView::Print { text: "Saved file to database"@ },
            ActionView::DatabaseChanged { name: key, status: FileStatus::NEW },
            match target {
                Some(t) => watched_send(
                    t,
                    p.ip_address,
                    ContentView::RedundantPushToDB { key, value, from: Some(p.ip_address) },
                ),
                None => ActionView::Print { text: "Only peer in network. No redundancy possible"@ },
            },
        ] + match from {
            Some(f) => seq![
                watched_send(
                    f,
                    p.ip_address,
                    ContentView::Response {
                        from: p.ip_address,
                        message: MessageView::DataStored { key },
                    },
                ),
            ],
            None => Seq::<ActionView>::empty(),
        }
    }
}

/// Stores a new file that the peer at `from` pushed, sends a second copy to `target` and
/// tells `from` that the file is stored, and reports the new file to the listener; a file
/// of that name that is already here stays
/// as it is.
pub fn push_to_db_to(
    key: String,
    value: Vec<u8>,
    from: Option<SocketAddress>,
    peer: &mut Peer,
    target: Option<SocketAddress>,
) -> (actions: Vec<Action>)
    ensures
        push_to_db_post(*old(peer), *final(peer), actions_view(actions@), key@, value@, from, target),
{
    let mut actions: Vec<Action> = Vec::new();
    if peer.does_file_exist(&key) {
        actions.push(print(String::from_str("File already exists in your database")));
        assert(actions_view(actions@) =~= seq![
            ActionView::Print { text: "File already exists in your database"@ },
        ]);
        assert(push_to_db_post(*old(peer), *peer, actions_view(actions@), key@, value@, from, target));
        return actions;
    }
    let ghost p = *peer;
    peer.process_store_request((key.clone(), value.clone()));
    let a0 = print(String::from_str("Saved file to database"));
    let an = database_changed(&key, FileStatus::NEW);
    let a1 = match target {
        Some(t) => send_write_request(t, peer.ip_address, (key.clone(), value), true),
        None => print(String::from_str("Only peer in network. No redundancy possible")),
    };
    actions.push(a0);
    actions.push(an);
    actions.push(a1);
    match from {
        Some(f) => {
            let a2 = send_write_response(f, peer.ip_address, key);
            actions.push(a2);
            assert(actions_view(actions@) =~= seq![a0@, an@, a1@] + seq![a2@]);
        },
        None => {
            assert(actions_view(actions@) =~= seq![a0@, an@, a1@] + Seq::<ActionView>::empty());
        },
    }
    assert(actions_view(actions@) == seq![
            ActionView::Print { text: "Saved file to database"@ },
            ActionView::DatabaseChanged { name: key@, status: FileStatus::NEW },
            match target {
                Some(t) => watched_send(
                    t,
                    p.ip_address,
                    ContentView::RedundantPushToDB { key: key@, value: value@, from: Some(p.ip_address) },
                ),
                None => ActionView::Print { text: "Only peer in network. No redundancy possible"@ },
            },
        ] + match from {
            Some(f) => seq![
                watched_send(
                    f,
                    p.ip_address,
                    ContentView::Response {
                        from: p.ip_address,
                        message: MessageView::DataStored { key: key@ },
                    },
                ),
            ],
            None => Seq::<ActionView>::empty(),
        });
    assert(push_to_db_post(p, *peer, actions_view(actions@), key@, value@, from, target));
    actions
}

/// What `push_to_db` does for some choice of the peer that keeps the second copy.
pub open spec fn push_to_db_chosen(
    p: Peer,
    q: Peer,
    acts: Seq<ActionView>,
    key: Seq<char>,
    value: Seq<u8>,
    from: Option<SocketAddress>,
) -> bool {
    exists|t: Option<SocketAddress>|
        #![trigger push_to_db_post(p, q, acts, key, value, from, t)]
        (!p.database@.contains_key(key) ==> valid_target(p.network_table.entries(), p.ip_address, t))
            && push_to_db_post(p, q, acts, key, value, from, t)
}

/// Stores a new file that the peer at `from` pushed, sends a second copy to a peer picked
/// at random and tells `from` that the file is stored.
pub fn push_to_db(key: String, value: Vec<u8>, from: Option<SocketAddress>, peer: &mut Peer) -> (actions: Vec<Action>)
    ensures
        push_to_db_chosen(*old(peer), *final(peer), actions_view(actions@), key@, value@, from),
{
    let target = if peer.does_file_exist(&key) {
        None
    } else {
        other_random_target(&peer.network_table, &peer.ip_address)
    };
    let ghost p = *peer;
    let ghost (k, v) = (key@, value@);
    let actions = push_to_db_to(key, value, from, peer, target);
    assert(push_to_db_post(p, *peer, actions_view(actions@), k, v, from, target));
    actions
}

/// What `redundant_push_to_db` does: the file is stored, nothing else changes.
pub open spec fn redundant_push_to_db_post(p: Peer, q: Peer, key: Seq<char>, value: Seq<u8>) -> bool {
    same_but_database(p, q) && q.database@ == p.database@.insert(key, value)
}

/// Stores the second copy of a file and reports the new file to the listener.
pub fn redundant_push_to_db(key: String, value: Vec<u8>, peer: &mut Peer) -> (actions: Vec<Action>)
    ensures
        redundant_push_to_db_post(*old(peer), *final(peer), key@, value@),
        actions_view(actions@) == seq![ActionView::DatabaseChanged { name: key@, status: FileStatus::NEW }],
{
    let a = database_changed(&key, FileStatus::NEW);
    peer.process_store_request((key, value));
    let mut actions: Vec<Action> = Vec::new();
    actions.push(a);
    assert(actions_view(actions@) =~= seq![a@]);
    actions
}

/// What `request_for_table` sends.
pub open spec fn request_for_table_action(p: Peer, value: Seq<char>, sender: SocketAddress) -> ActionView {
    if p.network_table@.contains_key(value) {
        plain_send(sender, p.ip_address, ContentView::ChangePeerName { value: value + "+1"@ })
    } else {
        plain_send(
            sender,
            p.ip_address,
            ContentView::SendNetworkTable { table: TablePayloadView::Entries(p.network_table.entries()) },
        )
    }
}

/// Answers a request for the network table from `sender`, which wants to join as `value`:
/// when the name is taken, it has to call itself `value` followed by "+1"; else it gets
/// the table.
pub fn request_for_table(value: String, sender: SocketAddress, peer: &Peer) -> (a: Action)
    ensures
        a@ == request_for_table_action(*peer, value@, sender),
{
    if peer.network_table.contains_key(&value) {
        let name = value.concat("+1");
        send_change_name_request(sender, peer.ip_address, &name)
    } else {
        send_network_table_request(sender, peer)
    }
}

/// What `get_file` does: a peer that stores the file sends it to `sender`; when the file
/// was asked for to be removed, the peer removes it from the network instead.
pub open spec fn get_file_post(
    p: Peer,
    q: Peer,
    acts: Seq<ActionView>,
    instr: FileInstructions,
    key: Seq<char>,
    sender: SocketAddress,
) -> bool {
    if p.database@.contains_key(key) {
        if instr == FileInstructions::REMOVE {
            &&& same_but_database(p, q)
            &&& q.database@ == p.database@.remove(key)
            &&& acts == removal_actions(p, key)
        } else {
            &&& q == p
            &&& acts == seq![
                plain_send(
                    sender,
                    p.ip_address,
                    ContentView::GetFileResponse { instr, key, value: p.database@[key] },
                ),
            ]
        }
    } else {
        &&& q == p
        &&& acts.len() == 0
    }
}

/// Answers `sender`, which asked for the file `key`, if this peer stores it: sends the file,
/// or, when `sender` wants it removed, deletes it here and asks every other peer of the
/// table to delete its copy.
pub fn get_file(instr: FileInstructions, key: String, sender: SocketAddress, peer: &mut Peer) -> (actions: Vec<Action>)
    ensures
        get_file_post(*old(peer), *final(peer), actions_view(actions@), instr, key@, sender),
{
    let mut actions: Vec<Action> = Vec::new();
    if !peer.does_file_exist(&key) {
        assert(actions_view(actions@) =~= Seq::<ActionView>::empty());
        return actions;
    }
    if instr == FileInstructions::REMOVE {
        return remove_everywhere(&key, peer);
    }
    match peer.find_file(&key) {
        Some(music) => {
            let a = send_get_file_reponse(sender, peer.ip_address, &key, music.clone(), instr);
            actions.push(a);
            assert(actions_view(actions@) =~= seq![a@]);
        },
        None => {},
    }
    actions
}

/// What `exist_file` sends.
pub open spec fn exist_file_actions(p: Peer, song: Seq<char>, id: RequestId, sender: SocketAddress) -> Seq<ActionView> {
    if p.database@.contains_key(song) {
        seq![plain_send(sender, p.ip_address, ContentView::ExistFileResponse { song_name: song, id })]
    } else {
        Seq::<ActionView>::empty()
    }
}

/// Tells `sender` that this peer stores the file `song_name` it asked about in request
/// `id`; says nothing when it does not.
pub fn exist_file(song_name: String, id: RequestId, sender: SocketAddress, peer: &Peer) -> (actions: Vec<Action>)
    ensures
        actions_view(actions@) == exist_file_actions(*peer, song_name@, id, sender),
{
    let mut actions: Vec<Action> = Vec::new();
    if peer.does_file_exist(&song_name) {
        let a = send_exist_response(sender, peer.ip_address, &song_name, id);
        actions.push(a);
        assert(actions_view(actions@) =~= seq![a@]);
    } else {
        assert(actions_view(actions@) =~= Seq::<ActionView>::empty());
    }
    actions
}

/// What `exist_file_response` does.
pub open spec fn exist_file_response_post(
    p: Peer,
    q: Peer,
    acts: Seq<ActionView>,
    song: Seq<char>,
    id: RequestId,
    sender: SocketAddress,
) -> bool {
    &&& q.name == p.name
    &&& q.ip_address == p.ip_address
    &&& q.network_table == p.network_table
    &&& q.database == p.database
    &&& q.open_request_table@ == p.open_request_table@.remove(id)
    &&& acts == if p.open_request_table@.contains_key(id) {
        seq![
            plain_send(
                sender,
                p.ip_address,
                ContentView::GetFile { instr: p.open_request_table@[id], key: song },
            ),
        ]
    } else {
        seq![ActionView::Print { text: "There is no file \""@ + song + "\" to remove."@ }]
    }
}

/// Answers that the peer at `sender` has the file `song_name` asked for in request `id`:
/// while the request is open, it is closed and the file is asked for; else the user learns
/// that there is no such file.
pub fn exist_file_response(song_name: String, id: RequestId, sender: SocketAddress, peer: &mut Peer) -> (actions: Vec<Action>)
    ensures
        exist_file_response_post(*old(peer), *final(peer), actions_view(actions@), song_name@, id, sender),
{
    let mut actions: Vec<Action> = Vec::new();
    match peer.open_request_table.get(&id) {
        Some(instr) => {
            peer.delete_handled_request(&id);
            let a = send_file_request(sender, peer.ip_address, &song_name, instr);
            actions.push(a);
            assert(actions_view(actions@) =~= seq![a@]);
        },
        None => {
            let a = print(three_part_text("There is no file \"", &song_name, "\" to remove."));
            actions.push(a);
            assert(actions_view(actions@) =~= seq![a@]);
            assert(old(peer).open_request_table@.remove(id) =~= old(peer).open_request_table@);
        },
    }
    actions
}

/// What `status_request` sends: the names of the stored files, in database order.
pub open spec fn status_request_action(p: Peer, sender: SocketAddress) -> ActionView {
    plain_send(
        sender,
        p.ip_address,
        ContentView::StatusResponse {
            files: p.database.data.entries().map_values(|e: (Seq<char>, Vec<u8>)| e.0),
            name: p.name@,
        },
    )
}

/// Tells `sender` which files this peer stores, in the order of its database.
pub fn status_request(sender: SocketAddress, peer: &Peer) -> (a: Action)
    ensures
        a@ == status_request_action(*peer, sender),
{
    let res = peer.get_db().data.keys();
    send_local_file_status(sender, res, peer.ip_address, peer.name.clone())
}

/// What `self_status_request` sends: a status request to every address of the table.
pub open spec fn self_status_actions(p: Peer) -> Seq<ActionView> {
    p.network_table.entries().map_values(
        |e: (Seq<char>, SocketAddress)| watched_send(e.1, p.ip_address, ContentView::StatusRequest),
    )
}

/// Asks every peer of the table, this one included, which files it stores.
pub fn self_status_request(peer: &Peer) -> (actions: Vec<Action>)
    ensures
        actions_view(actions@) == self_status_actions(*peer),
{
    let ghost es = peer.network_table.entries();
    let ghost f = |e: (Seq<char>, SocketAddress)| watched_send(e.1, peer.ip_address, ContentView::StatusRequest);
    let mut actions: Vec<Action> = Vec::new();
    let mut i: usize = 0;
    while i < peer.network_table.len()
        invariant
            i <= es.len(),
            es == peer.network_table.entries(),
            f == (|e: (Seq<char>, SocketAddress)| watched_send(e.1, peer.ip_address, ContentView::StatusRequest)),
            actions_view(actions@) == es.take(i as int).map_values(f),
        decreases es.len() - i,
    {
        let a = send_status_request(*peer.network_table.value_at(i), peer.ip_address);
        proof {
            lemma_actions_push(actions@, a);
        }
        actions.push(a);
        assert(es.take(i + 1).map_values(f) =~= es.take(i as int).map_values(f).push(f(es[i as int])));
        i = i + 1;
    }
    assert(es.take(i as int) =~= es);
    actions
}

/// What `delete_from_network` does.
pub open spec fn delete_from_network_post(p: Peer, q: Peer, acts: Seq<ActionView>, name: Seq<char>) -> bool {
    &&& q.name == p.name
    &&& q.ip_address == p.ip_address
    &&& q.database == p.database
    &&& q.open_request_table == p.open_request_table
    &&& q.network_table@ == p.network_table@.remove(name)
    &&& q.network_table.entries() == entries_remove(p.network_table.entries(), name)
    &&& acts == if p.network_table@.contains_key(name) {
        seq![ActionView::Print { text: name + " left the network."@ }]
    } else {
        Seq::<ActionView>::empty()
    }
}

/// Forgets the peer called `name`, which left the network.
pub fn delete_from_network(name: String, peer: &mut Peer) -> (actions: Vec<Action>)
    ensures
        delete_from_network_post(*old(peer), *final(peer), actions_view(actions@), name@),
{
    let mut actions: Vec<Action> = Vec::new();
    if peer.network_table.contains_key(&name) {
        peer.network_table.remove(&name);
        let a = print(name.clone().concat(" left the network."));
        actions.push(a);
        assert(actions_view(actions@) =~= seq![a@]);
    } else {
        peer.network_table.remove(&name);
        assert(actions_view(actions@) =~= Seq::<ActionView>::empty());
    }
    actions
}

/// What `delete_file_request` does.
pub open spec fn delete_file_request_post(p: Peer, q: Peer, acts: Seq<ActionView>, song: Seq<char>) -> bool {
    &&& same_but_database(p, q)
    &&& q.database@ == p.database@.remove(song)
    &&& acts == if p.database@.contains_key(song) {
        seq![
            ActionView::Print { text: "Remove file "@ + song + " from database"@ },
            ActionView::DatabaseChanged { name: song, status: FileStatus::DELETE },
        ]
    } else {
        Seq::<ActionView>::empty()
    }
}

/// Deletes the copy of the file `song_name` that another peer asked this one to delete,
/// and reports that to the listener.
pub fn delete_file_request(song_name: String, peer: &mut Peer) -> (actions: Vec<Action>)
    ensures
        delete_file_request_post(*old(peer), *final(peer), actions_view(actions@), song_name@),
{
    let mut actions: Vec<Action> = Vec::new();
    if peer.does_file_exist(&song_name) {
        let a = print(three_part_text("Remove file ", &song_name, " from database"));
        let b = database_changed(&song_name, FileStatus::DELETE);
        actions.push(a);
        actions.push(b);
        peer.delete_file_from_database(&song_name);
        assert(actions_view(actions@) =~= seq![a@, b@]);
    } else {
        assert(old(peer).database@.remove(song_name@) =~= old(peer).database@);
        assert(actions_view(actions@) =~= Seq::<ActionView>::empty());
    }
    actions
}

/// What `get_file_response` does.
pub open spec fn get_file_response_post(
    p: Peer,
    q: Peer,
    acts: Seq<ActionView>,
    instr: FileInstructions,
    key: Seq<char>,
    value: Seq<u8>,
) -> bool {
    &&& same_but_database(p, q)
    &&& q.database@ == if instr == FileInstructions::ORDER || instr == FileInstructions::GET {
        p.database@.insert(key, value)
    } else {
        p.database@
    }
    &&& acts == match instr {
        FileInstructions::PLAY => seq![ActionView::Play { title: key, data: value }, ActionView::PlayerPlaying { title: None }],
        FileInstructions::GET => seq![ActionView::DatabaseChanged { name: key, status: FileStatus::DOWNLOAD }],
        FileInstructions::ORDER => seq![ActionView::DatabaseChanged { name: key, status: FileStatus::NEW }],
        FileInstructions::REMOVE => Seq::<ActionView>::empty(),
    }
}

/// Uses a file that another peer sent, as `instr` says: plays it as a stream; stores it as
/// a download; stores it as a file handed on by a peer that leaves; or, for a removal,
/// does nothing with it. The listener hears of what was played or stored.
pub fn get_file_response(instr: FileInstructions, key: String, value: Vec<u8>, peer: &mut Peer) -> (actions: Vec<Action>)
    ensures
        get_file_response_post(*old(peer), *final(peer), actions_view(actions@), instr, key@, value@),
{
    let mut actions: Vec<Action> = Vec::new();
    match instr {
        FileInstructions::PLAY => {
            let a = Action::Play { title: key, data: value };
            let b = Action::PlayerPlaying { title: None };
            actions.push(a);
            actions.push(b);
            assert(actions_view(actions@) =~= seq![a@, b@]);
        },
        FileInstructions::GET => {
            let a = database_changed(&key, FileStatus::DOWNLOAD);
            peer.process_store_request((key, value));
            actions.push(a);
            assert(actions_view(actions@) =~= seq![a@]);
        },
        FileInstructions::ORDER => {
            let a = database_changed(&key, FileStatus::NEW);
            peer.process_store_request((key, value));
            actions.push(a);
            assert(actions_view(actions@) =~= seq![a@]);
        },
        FileInstructions::REMOVE => {
            assert(actions_view(actions@) =~= Seq::<ActionView>::empty());
        },
    }
    actions
}

/// The addresses of the entries not named `name`, in table order.
pub open spec fn others_of(es: Seq<(Seq<char>, SocketAddress)>, name: Seq<char>) -> Seq<SocketAddress> {
    es.filter_map(|e: (Seq<char>, SocketAddress)| if e.0 != name { Some(e.1) } else { None })
}

/// The addresses of the table entries not named `own_name`, in table order.
pub fn others(table: &TextMap<SocketAddress>, own_name: &String) -> (v: Vec<SocketAddress>)
    ensures
        v@ == others_of(table.entries(), own_name@),
{
    let ghost es = table.entries();
    let ghost f = |e: (Seq<char>, SocketAddress)| if e.0 != own_name@ { Some(e.1) } else { None };
    let mut v: Vec<SocketAddress> = Vec::new();
    let mut i: usize = 0;
    while i < table.len()
        invariant
            i <= es.len(),
            es == table.entries(),
            f == (|e: (Seq<char>, SocketAddress)| if e.0 != own_name@ { Some(e.1) } else { None }),
            v@ == es.take(i as int).filter_map(f),
        decreases es.len() - i,
    {
        proof {
            es.lemma_filter_map_take_succ(f, i as int);
        }
        if *table.key_at(i) != *own_name {
            v.push(*table.value_at(i));
        }
        i = i + 1;
    }
    assert(es.take(i as int) =~= es);
    v
}

/// The action of telling the user that the peer called `name` joined.
pub open spec fn joined_notice() -> spec_fn((Seq<char>, SocketAddress)) -> ActionView {
    |e: (Seq<char>, SocketAddress)| ActionView::Print { text: e.0 + " joined the network."@ }
}

/// Adds the entries of `new_table` to the table of `peer`, in order, and tells the user of
/// each one.
fn merge_network_table(new_table: &TextMap<SocketAddress>, peer: &mut Peer) -> (joined: Vec<Action>)
    ensures
        final(peer).network_table.entries() == entries_insert_all(old(peer).network_table.entries(), new_table.entries()),
        final(peer).name == old(peer).name,
        final(peer).ip_address == old(peer).ip_address,
        final(peer).database == old(peer).database,
        final(peer).open_request_table == old(peer).open_request_table,
        actions_view(joined@) == new_table.entries().map_values(joined_notice()),
{
    let ghost es = new_table.entries();
    let ghost p = *peer;
    let mut joined: Vec<Action> = Vec::new();
    let mut i: usize = 0;
    while i < new_table.len()
        invariant
            i <= es.len(),
            es == new_table.entries(),
            peer.network_table.entries() == entries_insert_all(p.network_table.entries(), es.take(i as int)),
            peer.name == p.name,
            peer.ip_address == p.ip_address,
            peer.database == p.database,
            peer.open_request_table == p.open_request_table,
            actions_view(joined@) == es.take(i as int).map_values(joined_notice()),
        decreases es.len() - i,
    {
        let key = new_table.key_at(i).clone();
        let a = print(key.clone().concat(" joined the network."));
        peer.network_table.insert(key, *new_table.value_at(i));
        proof {
            assert(es.take(i + 1).drop_last() =~= es.take(i as int));
            assert(es.take(i + 1).last() == es[i as int]);
            lemma_actions_push(joined@, a);
            assert(es.take(i + 1).map_values(joined_notice()) =~= es.take(i as int).map_values(joined_notice()).push(
                joined_notice()(es[i as int]),
            ));
        }
        joined.push(a);
        i = i + 1;
    }
    assert(es.take(i as int) =~= es);
    joined
}

/// The table entries that a list of network infos makes.
pub open spec fn table_of(infos: Seq<(Seq<char>, SocketAddress)>) -> Seq<(Seq<char>, SocketAddress)> {
    entries_insert_all(Seq::<(Seq<char>, SocketAddress)>::empty(), infos)
}

/// The table of `p` after the entries of `infos` were added, and nothing else changed.
pub open spec fn merged(p: Peer, q: Peer, infos: Seq<(Seq<char>, SocketAddress)>) -> bool {
    &&& q.network_table.entries() == entries_insert_all(p.network_table.entries(), table_of(infos))
    &&& q.name == p.name
    &&& q.ip_address == p.ip_address
    &&& q.database == p.database
    &&& q.open_request_table == p.open_request_table
}

/// What `send_network_table` does.
pub open spec fn send_network_table_post(p: Peer, q: Peer, acts: Seq<ActionView>, table: TablePayloadView) -> bool {
    match table {
        TablePayloadView::NotText => q == p && acts.len() == 0,
        TablePayloadView::Entries(infos) => {
            &&& merged(p, q, infos)
            &&& acts == q.network_table.entries().filter_map(announce_to(p.name@, p.ip_address))
        },
    }
}

/// Takes in the network table that the peer it joined sent, and tells every other peer
/// that it joined. A table whose bytes were not text changes nothing.
pub fn send_network_table(table: TablePayload, peer: &mut Peer) -> (actions: Vec<Action>)
    ensures
        send_network_table_post(*old(peer), *final(peer), actions_view(actions@), table@),
{
    match table {
        TablePayload::NotText => Vec::new(),
        TablePayload::Entries(infos) => {
            let network_table = network_table_from_entries(infos);
            let _joined = merge_network_table(&network_table, peer);
            send_table_to_all_peers(peer)
        },
    }
}

/// What `send_network_update_table` does.
pub open spec fn send_network_update_table_post(p: Peer, q: Peer, acts: Seq<ActionView>, table: TablePayloadView) -> bool {
    match table {
        TablePayloadView::NotText => q == p && acts.len() == 0,
        TablePayloadView::Entries(infos) => {
            &&& merged(p, q, infos)
            &&& acts == table_of(infos).map_values(joined_notice())
        },
    }
}

/// Takes in the entries that a peer that joined sent, and tells the user of each.
pub fn send_network_update_table(table: TablePayload, peer: &mut Peer) -> (actions: Vec<Action>)
    ensures
        send_network_update_table_post(*old(peer), *final(peer), actions_view(actions@), table@),
{
    match table {
        TablePayload::NotText => Vec::new(),
        TablePayload::Entries(infos) => {
            let network_table = network_table_from_entries(infos);
            merge_network_table(&network_table, peer)
        },
    }
}

/// What `change_peer_name` does.
pub open spec fn change_peer_name_post(p: Peer, q: Peer, a: ActionView, value: Seq<char>, sender: SocketAddress) -> bool {
    &&& q.name@ == value
    &&& q.ip_address == p.ip_address
    &&& q.database == p.database
    &&& q.open_request_table == p.open_request_table
    &&& q.network_table.entries() == entries_insert(
        entries_remove(p.network_table.entries(), p.name@),
        value,
        p.ip_address,
    )
    &&& q.network_table@ == p.network_table@.remove(p.name@).insert(value, p.ip_address)
    &&& a == plain_send(sender, p.ip_address, ContentView::RequestForTable { value })
}

/// Takes the name `value` that the peer at `sender` gave this one, and asks `sender` for
/// the network table under the new name.
pub fn change_peer_name(value: String, sender: SocketAddress, peer: &mut Peer) -> (a: Action)
    ensures
        change_peer_name_post(*old(peer), *final(peer), a@, value@, sender),
{
    let old_name = peer.name.clone();
    peer.network_table.remove(&old_name);
    peer.name = value;
    let name = peer.name.clone();
    peer.network_table.insert(name, peer.ip_address);
    send_table_request(sender, peer.ip_address, &peer.name)
}

/// What a peer does when it removes its file `song` from the network: it deletes the
/// file, tells the user and the listener, and asks every other peer of its table, by name,
/// to delete its copy.
pub open spec fn removal_actions(p: Peer, song: Seq<char>) -> Seq<ActionView> {
    seq![
        ActionView::Print { text: "Remove file "@ + song + " from database"@ },
        ActionView::DatabaseChanged { name: song, status: FileStatus::DELETE },
    ] + others_of(p.network_table.entries(), p.name@).map_values(
        |t: SocketAddress| plain_send(t, p.ip_address, ContentView::DeleteFileRequest { song_name: song }),
    )
}

/// Deletes the file `song_name` here and asks every other peer of the table to delete its
/// copy.
pub fn remove_everywhere(song_name: &String, peer: &mut Peer) -> (actions: Vec<Action>)
    ensures
        same_but_database(*old(peer), *final(peer)),
        final(peer).database@ == old(peer).database@.remove(song_name@),
        actions_view(actions@) == removal_actions(*old(peer), song_name@),
{
    let ghost p = *peer;
    let targets = others(&peer.network_table, &peer.name);
    let ghost ts = targets@;
    peer.delete_file_from_database(song_name);
    let mut actions: Vec<Action> = Vec::new();
    let a = print(three_part_text("Remove file ", song_name, " from database"));
    let b = database_changed(song_name, FileStatus::DELETE);
    actions.push(a);
    actions.push(b);
    let ghost head = actions_view(actions@);
    assert(head =~= seq![a@, b@]);
    let ghost q0 = *peer;
    let ghost f = |t: SocketAddress| plain_send(t, p.ip_address, ContentView::DeleteFileRequest { song_name: song_name@ });
    let mut i: usize = 0;
    while i < targets.len()
        invariant
            i <= ts.len(),
            ts == targets@,
            peer.ip_address == p.ip_address,
            *peer == q0,
            f == (|t: SocketAddress| plain_send(t, p.ip_address, ContentView::DeleteFileRequest { song_name: song_name@ })),
            actions_view(actions@) == head + ts.take(i as int).map_values(f),
        decreases ts.len() - i,
    {
        let a = delete_redundant_song_request(targets[i], peer.ip_address, song_name);
        proof {
            lemma_actions_push(actions@, a);
            assert(ts.take(i + 1).map_values(f) =~= ts.take(i as int).map_values(f).push(f(ts[i as int])));
        }
        actions.push(a);
        i = i + 1;
    }
    assert(ts.take(i as int) =~= ts);
    actions
}

/// What `find_file` does when `now` names the new request.
pub open spec fn find_file_post(
    p: Peer,
    q: Peer,
    acts: Seq<ActionView>,
    instr: FileInstructions,
    song: Seq<char>,
    now: RequestId,
) -> bool {
    if p.database@.contains_key(song) {
        if instr == FileInstructions::REMOVE {
            &&& q.name == p.name
            &&& q.ip_address == p.ip_address
            &&& q.network_table == p.network_table
            &&& q.database@ == p.database@.remove(song)
            &&& q.open_request_table@ == p.open_request_table@.insert(now, instr)
            &&& acts == removal_actions(p, song)
        } else {
            &&& q == p
            &&& acts.len() == 0
        }
    } else {
        &&& q.name == p.name
        &&& q.ip_address == p.ip_address
        &&& q.network_table == p.network_table
        &&& q.database == p.database
        &&& q.open_request_table@ == p.open_request_table@.insert(now, instr)
        &&& acts == others_of(p.network_table.entries(), p.name@).map_values(
            |t: SocketAddress| plain_send(t, p.ip_address, ContentView::ExistFile { song_name: song, id: now }),
        )
    }
}

/// Looks for the file `song_name` on behalf of the user, as request `now`: removes it
/// here and at every other peer when `instr` is REMOVE and the file is here; asks every
/// other peer for it when it is not here.
pub fn find_file(instr: FileInstructions, song_name: String, peer: &mut Peer, now: RequestId) -> (actions: Vec<Action>)
    ensures
        find_file_post(*old(peer), *final(peer), actions_view(actions@), instr, song_name@, now),
{
    let ghost p = *peer;
    let mut actions: Vec<Action> = Vec::new();
    let targets = others(&peer.network_table, &peer.name);
    let ghost ts = targets@;
    if peer.get_db().get_data().contains_key(&song_name) {
        if instr == FileInstructions::REMOVE {
            let removal = remove_everywhere(&song_name, peer);
            actions = removal;
            peer.add_new_request(&now, instr);
        }
    } else {
        peer.add_new_request(&now, instr);
        let ghost q0 = *peer;
        let ghost f = |t: SocketAddress| plain_send(t, p.ip_address, ContentView::ExistFile { song_name: song_name@, id: now });
        let mut i: usize = 0;
        while i < targets.len()
            invariant
                i <= ts.len(),
                ts == targets@,
                peer.ip_address == p.ip_address,
                *peer == q0,
                f == (|t: SocketAddress| plain_send(t, p.ip_address, ContentView::ExistFile { song_name: song_name@, id: now })),
                actions_view(actions@) == ts.take(i as int).map_values(f),
            decreases ts.len() - i,
        {
            let a = read_file_exist(targets[i], peer.ip_address, &song_name, now);
            proof {
                lemma_actions_push(actions@, a);
                assert(ts.take(i + 1).map_values(f) =~= ts.take(i as int).map_values(f).push(f(ts[i as int])));
            }
            actions.push(a);
            i = i + 1;
        }
        assert(ts.take(i as int) =~= ts);
    }
    actions
}

/// What `dropped_peer` does.
pub open spec fn dropped_peer_post(p: Peer, q: Peer, acts: Seq<ActionView>, addr: SocketAddress) -> bool {
    &&& q.network_table.entries() == p.network_table.entries().filter(not_at(addr))
    &&& q.name == p.name
    &&& q.ip_address == p.ip_address
    &&& q.database == p.database
    &&& q.open_request_table == p.open_request_table
    &&& acts == seq![ActionView::ReportDroppedPeer { addr }]
}

/// Reports that the peer at `addr` was dropped and forgets every entry with that address.
pub fn dropped_peer(addr: SocketAddress, peer: &mut Peer) -> (actions: Vec<Action>)
    ensures
        dropped_peer_post(*old(peer), *final(peer), actions_view(actions@), addr),
{
    let mut actions: Vec<Action> = Vec::new();
    actions.push(Action::ReportDroppedPeer { addr });
    peer.drop_peer_by_ip(&addr);
    assert(actions_view(actions@) =~= seq![ActionView::ReportDroppedPeer { addr }]);
    actions
}

/// What the peer called `name` sends, as leaving from `addr`, to each entry at another
/// address.
pub open spec fn leave_notice(addr: SocketAddress, name: Seq<char>) -> spec_fn(
    (Seq<char>, SocketAddress),
) -> Option<ActionView> {
    |e: (Seq<char>, SocketAddress)|
        if e.1 != addr {
            Some(plain_send(e.1, addr, ContentView::DeleteFromNetwork { name }))
        } else {
            None
        }
}

/// What `exit_peer` does when `targets[i]` is the peer chosen to keep the `i`-th file.
pub open spec fn exit_actions(p: Peer, addr: SocketAddress, targets: Seq<SocketAddress>) -> Seq<ActionView> {
    let es = p.network_table.entries();
    let ds = p.database.data.entries();
    es.filter_map(leave_notice(addr, p.name@)) + (if es.len() > 1 {
        Seq::new(
            ds.len(),
            |i: int| plain_send(targets[i], p.ip_address, ContentView::OrderSongRequest { song_name: ds[i].0 }),
        )
    } else {
        Seq::<ActionView>::empty()
    }) + seq![ActionView::Exit]
}

/// Leaves the network, as asked by the peer at `addr`: tells every other address of the
/// table, hands each stored file to `targets` (one for each file, in database order) when
/// there are other peers, and ends.
pub fn exit_peer_to(addr: SocketAddress, peer: &Peer, targets: &Vec<SocketAddress>) -> (actions: Vec<Action>)
    requires
        peer.network_table.entries().len() > 1 ==> targets@.len() == peer.database.data.entries().len(),
    ensures
        actions_view(actions@) == exit_actions(*peer, addr, targets@),
{
    let ghost es = peer.network_table.entries();
    let ghost ds = peer.database.data.entries();
    let ghost f = leave_notice(addr, peer.name@);
    let mut actions: Vec<Action> = Vec::new();
    let mut i: usize = 0;
    while i < peer.network_table.len()
        invariant
            i <= es.len(),
            es == peer.network_table.entries(),
            f == leave_notice(addr, peer.name@),
            actions_view(actions@) == es.take(i as int).filter_map(f),
        decreases es.len() - i,
    {
        proof {
            es.lemma_filter_map_take_succ(f, i as int);
        }
        let value = *peer.network_table.value_at(i);
        if value != addr {
            let a = update_table_after_delete(value, addr, &peer.name);
            proof {
                lemma_actions_push(actions@, a);
            }
            actions.push(a);
        }
        i = i + 1;
    }
    assert(es.take(i as int) =~= es);
    let ghost head = actions_view(actions@);
    let ghost g = |k: int| plain_send(targets@[k], peer.ip_address, ContentView::OrderSongRequest { song_name: ds[k].0 });
    if peer.network_table.len() > 1 {
        let database = peer.get_db().get_data();
        let mut j: usize = 0;
        while j < database.len()
            invariant
                j <= ds.len(),
                ds == database.entries(),
                targets@.len() == ds.len(),
                g == (|k: int| plain_send(targets@[k], peer.ip_address, ContentView::OrderSongRequest { song_name: ds[k].0 })),
                actions_view(actions@) == head + Seq::new(j as nat, g),
            decreases ds.len() - j,
        {
            let a = song_order_request(targets[j], peer.ip_address, database.key_at(j).clone());
            proof {
                lemma_actions_push(actions@, a);
                assert(Seq::new((j + 1) as nat, g) =~= Seq::new(j as nat, g).push(g(j as int)));
            }
            actions.push(a);
            j = j + 1;
        }
        assert(Seq::new(j as nat, g) =~= Seq::new(ds.len(), g));
    } else {
        assert(head + Seq::<ActionView>::empty() =~= head);
    }
    proof {
        lemma_actions_push(actions@, Action::Exit);
    }
    actions.push(Action::Exit);
    actions
}

/// What `exit_peer` does for some choice of the peers that keep the files.
pub open spec fn exit_peer_chosen(p: Peer, acts: Seq<ActionView>, addr: SocketAddress) -> bool {
    exists|ts: Seq<SocketAddress>|
        #![trigger exit_actions(p, addr, ts)]
        {
            &&& p.network_table.entries().len() > 1 ==> ts.len() == p.database.data.entries().len()
            &&& forall|k: int|
                0 <= k < ts.len() ==> valid_target(p.network_table.entries(), p.ip_address, Some(#[trigger] ts[k]))
            &&& acts == exit_actions(p, addr, ts)
        }
}

/// Whether `exit_peer` can find a peer for each stored file when it needs to.
pub open spec fn exit_peer_possible(p: Peer) -> bool {
    p.network_table.entries().len() > 1 && p.database.data.entries().len() > 0 ==> has_other_address(
        p.network_table.entries(),
        p.ip_address,
    )
}

/// Leaves the network, as asked by the peer at `addr`: tells every other address of the
/// table, hands each stored file to another peer picked at random when there are other
/// peers, and ends.
pub fn exit_peer(addr: SocketAddress, peer: &Peer) -> (actions: Vec<Action>)
    requires
        exit_peer_possible(*peer),
    ensures
        exit_peer_chosen(*peer, actions_view(actions@), addr),
{
    let mut targets: Vec<SocketAddress> = Vec::new();
    if peer.network_table.len() > 1 {
        let n = peer.get_db().get_data().len();
        let mut j: usize = 0;
        while j < n
            invariant
                j <= n,
                n == peer.database.data.entries().len(),
                peer.network_table.entries().len() > 1,
                n > 0 ==> has_other_address(peer.network_table.entries(), peer.ip_address),
                targets@.len() == j,
                forall|k: int| 0 <= k < targets@.len() ==> valid_target(peer.network_table.entries(), peer.ip_address, Some(#[trigger] targets@[k])),
            decreases n - j,
        {
            match other_random_target(&peer.network_table, &peer.ip_address) {
                Some(t) => {
                    targets.push(t);
                },
                None => {
                    assert(false);
                },
            }
            j = j + 1;
        }
    }
    exit_peer_to(addr, peer, &targets)
}

/// What `order_song_request` does when `target` is the peer chosen to keep the file.
pub open spec fn order_actions(p: Peer, song: Seq<char>, target: Option<SocketAddress>) -> Seq<ActionView> {
    if p.database@.contains_key(song) {
        match target {
            Some(t) => seq![plain_send(t, p.ip_address, ContentView::OrderSongRequest { song_name: song })],
            None => Seq::<ActionView>::empty(),
        }
    } else {
        seq![plain_send(p.ip_address, p.ip_address, ContentView::FindFile { instr: FileInstructions::ORDER, song_name: song })]
    }
}

/// Hands the file `song_name` on to `target` when this peer stores it; else asks the
/// network for it, to be stored here.
pub fn order_song_request_to(song_name: String, peer: &Peer, target: Option<SocketAddress>) -> (actions: Vec<Action>)
    requires
        peer.database@.contains_key(song_name@) ==> target is Some,
    ensures
        actions_view(actions@) == order_actions(*peer, song_name@, target),
{
    let mut actions: Vec<Action> = Vec::new();
    if peer.get_db().get_data().contains_key(&song_name) {
        let t = target.unwrap();
        let a = song_order_request(t, peer.ip_address, song_name);
        actions.push(a);
        assert(actions_view(actions@) =~= seq![a@]);
    } else {
        let a = send_read_request(peer.ip_address, &song_name, FileInstructions::ORDER);
        actions.push(a);
        assert(actions_view(actions@) =~= seq![a@]);
    }
    actions
}

/// What `order_song_request` does for some choice of the peer that keeps the file.
pub open spec fn order_song_chosen(p: Peer, acts: Seq<ActionView>, song: Seq<char>) -> bool {
    exists|t: Option<SocketAddress>|
        #![trigger order_actions(p, song, t)]
        (p.database@.contains_key(song) ==> valid_target(p.network_table.entries(), p.ip_address, t))
            && acts == order_actions(p, song, t)
}

/// Whether `order_song_request` can find a peer for the file when it needs to.
pub open spec fn order_song_possible(p: Peer, song: Seq<char>) -> bool {
    p.database@.contains_key(song) ==> has_other_address(
        p.network_table.entries(),
        p.ip_address,
    )
}

/// Hands the file `song_name` on to another peer picked at random when this peer stores
/// it; else asks the network for it, to be stored here.
pub fn order_song_request(song_name: String, peer: &Peer) -> (actions: Vec<Action>)
    requires
        order_song_possible(*peer, song_name@),
    ensures
        order_song_chosen(*peer, actions_view(actions@), song_name@),
{
    let target = if peer.get_db().get_data().contains_key(&song_name) {
        other_random_target(&peer.network_table, &peer.ip_address)
    } else {
        None
    };
    order_song_request_to(song_name, peer, target)
}

} // verus!
