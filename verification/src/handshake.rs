//! How peers exchange their tables of the network: joining, renaming, leaving.
use crate::action::{actions_view, lemma_actions_push, Action, ActionView};
use crate::address::SocketAddress;
use crate::music_exchange::plain_send;
use crate::notification::{infos_view, Content, ContentView, NetworkInfo, Notification, TablePayload, TablePayloadView};
use crate::peer::Peer;
use crate::text_map::{entries_insert_all, lemma_entries_insert_all, map_insert_all, to_map, TextMap};
use vstd::prelude::*;

verus! {

/// The entries of a network table, to be sent to another peer.
pub fn network_table_to_entries(network_table: &TextMap<SocketAddress>) -> (infos: Vec<NetworkInfo>)
    ensures
        infos_view(infos@) == network_table.entries(),
{
    let mut infos: Vec<NetworkInfo> = Vec::new();
    let mut i: usize = 0;
    while i < network_table.len()
        invariant
            i <= network_table.entries().len(),
            infos@.len() == i,
            infos_view(infos@) == network_table.entries().take(i as int),
        decreases network_table.entries().len() - i,
    {
        let ghost old_infos = infos@;
        infos.push(NetworkInfo { name: network_table.key_at(i).clone(), address: *network_table.value_at(i) });
        assert(infos@ == old_infos.push(infos@[i as int]));
        assert(infos_view(infos@) =~= network_table.entries().take(i + 1));
        i = i + 1;
    }
    assert(network_table.entries().take(i as int) =~= network_table.entries());
    infos
}

/// The network table that a list of entries makes: each entry stored in turn, so that a
/// later entry for a name replaces an earlier one.
pub fn network_table_from_entries(infos: Vec<NetworkInfo>) -> (table: TextMap<SocketAddress>)
    ensures
        table.entries() == entries_insert_all(Seq::<(Seq<char>, SocketAddress)>::empty(), infos_view(infos@)),
        table@ == map_insert_all(Map::<Seq<char>, SocketAddress>::empty(), infos_view(infos@)),
{
    let ghost items = infos_view(infos@);
    let mut table: TextMap<SocketAddress> = TextMap::new();
    let mut i: usize = 0;
    while i < infos.len()
        invariant
            i <= infos@.len(),
            items == infos_view(infos@),
            table.entries() == entries_insert_all(Seq::<(Seq<char>, SocketAddress)>::empty(), items.take(i as int)),
        decreases infos@.len() - i,
    {
        let name = infos[i].name.clone();
        let address = infos[i].address;
        table.insert(name, address);
        proof {
            assert(items.take(i + 1).drop_last() =~= items.take(i as int));
            assert(items.take(i + 1).last() == items[i as int]);
        }
        i = i + 1;
    }
    assert(items.take(i as int) =~= items);
    proof {
        lemma_entries_insert_all(Seq::<(Seq<char>, SocketAddress)>::empty(), items);
        assert(to_map(Seq::<(Seq<char>, SocketAddress)>::empty()) =~= Map::<Seq<char>, SocketAddress>::empty());
    }
    table
}

/// Sends `target` the whole network table of `peer`.
pub fn send_network_table_request(target: SocketAddress, peer: &Peer) -> (a: Action)
    ensures
        a@ == plain_send(
            target,
            peer.ip_address,
            ContentView::SendNetworkTable {
                table: TablePayloadView::Entries(peer.network_table.entries()),
            },
        ),
{
    let not = Notification {
        content: Content::SendNetworkTable {
            table: TablePayload::Entries(network_table_to_entries(&peer.network_table)),
        },
        from: peer.ip_address,
    };
    Action::Send { target, notification: not }
}

/// Sends `target` the entries of `hashmap`, to be added to its table.
pub fn send_network_update_table_request(
    target: SocketAddress,
    from: SocketAddress,
    hashmap: &TextMap<SocketAddress>,
) -> (a: Action)
    ensures
        a@ == plain_send(
            target,
            from,
            ContentView::SendNetworkUpdateTable {
                table: TablePayloadView::Entries(hashmap.entries()),
            },
        ),
{
    let not = Notification {
        content: Content::SendNetworkUpdateTable {
            table: TablePayload::Entries(network_table_to_entries(hashmap)),
        },
        from,
    };
    Action::Send { target, notification: not }
}

/// Tells `target` that it has to call itself `name`.
pub fn send_change_name_request(target: SocketAddress, from: SocketAddress, name: &String) -> (a: Action)
    ensures
        a@ == plain_send(target, from, ContentView::ChangePeerName { value: name@ }),
{
    let not = Notification { content: Content::ChangePeerName { value: name.clone() }, from };
    Action::Send { target, notification: not }
}

/// What `peer` sends to each other peer after it learnt the network table: its own entry.
pub open spec fn announce_to(peer_name: Seq<char>, own: SocketAddress) -> spec_fn(
    (Seq<char>, SocketAddress),
) -> Option<ActionView> {
    |e: (Seq<char>, SocketAddress)|
        if e.0 != peer_name {
            Some(
                plain_send(
                    e.1,
                    own,
                    ContentView::SendNetworkUpdateTable {
                        table: TablePayloadView::Entries(seq![(peer_name, own)]),
                    },
                ),
            )
        } else {
            None
        }
}

/// Tells every other peer in the table of `peer` the name and address of `peer`.
pub fn send_table_to_all_peers(peer: &Peer) -> (actions: Vec<Action>)
    ensures
        actions_view(actions@) == peer.network_table.entries().filter_map(
            announce_to(peer.name@, peer.ip_address),
        ),
{
    let mut hashmap: TextMap<SocketAddress> = TextMap::new();
    hashmap.insert(peer.name.clone(), peer.ip_address);
    assert(hashmap.entries() =~= seq![(peer.name@, peer.ip_address)]);
    let ghost f = announce_to(peer.name@, peer.ip_address);
    let ghost es = peer.network_table.entries();
    let mut actions: Vec<Action> = Vec::new();
    let mut i: usize = 0;
    while i < peer.network_table.len()
        invariant
            i <= es.len(),
            es == peer.network_table.entries(),
            f == announce_to(peer.name@, peer.ip_address),
            hashmap.entries() == seq![(peer.name@, peer.ip_address)],
            actions_view(actions@) == es.take(i as int).filter_map(f),
        decreases es.len() - i,
    {
        proof {
            es.lemma_filter_map_take_succ(f, i as int);
        }
        if *peer.network_table.key_at(i) != peer.name {
            let a = send_network_update_table_request(*peer.network_table.value_at(i), peer.ip_address, &hashmap);
            proof {
                lemma_actions_push(actions@, a);
            }
            actions.push(a);
        }
        i = i + 1;
    }
    assert(es.take(i as int) =~= es);
    actions
}

/// Asks `target` for its network table, as the peer called `name`.
/// The request of the peer at `from`, which wants to join under `name`, for the network
/// table of the peer at `target`.
pub open spec fn table_request(target: SocketAddress, from: SocketAddress, name: Seq<char>) -> ActionView {
    plain_send(target, from, ContentView::RequestForTable { value: name })
}

pub fn send_table_request(target: SocketAddress, from: SocketAddress, name: &String) -> (a: Action)
    ensures
        a@ == table_request(target, from, name@),
{
    let not = Notification { content: Content::RequestForTable { value: name.clone() }, from };
    Action::Send { target, notification: not }
}

/// Tells `target` that the peer called `name` left the network.
pub fn update_table_after_delete(target: SocketAddress, from: SocketAddress, name: &String) -> (a: Action)
    ensures
        a@ == plain_send(target, from, ContentView::DeleteFromNetwork { name: name@ }),
{
    let not = Notification { content: Content::DeleteFromNetwork { name: name.clone() }, from };
    Action::Send { target, notification: not }
}

/// A received entry as text and value: its name, and its address when it could be read.
pub open spec fn read_entry_view(e: (String, Option<SocketAddress>)) -> Option<(Seq<char>, SocketAddress)> {
    match e.1 {
        Some(a) => Some((e.0@, a)),
        None => None,
    }
}

/// The entries of a received network table whose address could be read, in their order;
/// an entry whose address could not be read is left out.
pub fn readable_entries(entries: &Vec<(String, Option<SocketAddress>)>) -> (infos: Vec<NetworkInfo>)
    ensures
        infos_view(infos@) == entries@.filter_map(|e: (String, Option<SocketAddress>)| read_entry_view(e)),
{
    let ghost f = |e: (String, Option<SocketAddress>)| read_entry_view(e);
    let ghost es = entries@;
    let mut infos: Vec<NetworkInfo> = Vec::new();
    let mut i: usize = 0;
    while i < entries.len()
        invariant
            i <= es.len(),
            es == entries@,
            f == (|e: (String, Option<SocketAddress>)| read_entry_view(e)),
            infos_view(infos@) == es.take(i as int).filter_map(f),
        decreases es.len() - i,
    {
        proof {
            es.lemma_filter_map_take_succ(f, i as int);
        }
        match entries[i].1 {
            Some(address) => {
                let info = NetworkInfo { name: entries[i].0.clone(), address };
                proof {
                    assert(infos_view(infos@.push(info)) =~= infos_view(infos@).push((info.name@, info.address)));
                }
                infos.push(info);
            },
            None => {},
        }
        i = i + 1;
    }
    assert(es.take(i as int) =~= es);
    infos
}

} // verus!
