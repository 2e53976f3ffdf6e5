//! The state of one peer: its name and address, the table of the peers it knows, the
//! files it stores and the requests it waits on.
use crate::address::{RequestId, SocketAddress};
use crate::database::Database;
use crate::request_table::RequestTable;
use crate::text_map::{entries_insert, entries_remove, has_key, TextMap};
use crate::utils::FileInstructions;
use vstd::prelude::*;

verus! {

/// A peer of the network.
#[derive(Debug)]
pub struct Peer {
    /// The name under which the peer is known.
    pub name: String,
    /// The address the peer listens on.
    pub ip_address: SocketAddress,
    /// Every peer of the network that this one knows, itself included, by name.
    pub network_table: TextMap<SocketAddress>,
    /// The files the peer stores.
    pub database: Database,
    /// The requests this peer has sent and still waits on.
    pub open_request_table: RequestTable,
}

impl Peer {
    /// Creates a peer with an empty database.
    pub fn create(
        ip_address: SocketAddress,
        own_name: &str,
        network_table: TextMap<SocketAddress>,
        open_request_table: RequestTable,
    ) -> (peer: Peer)
        ensures
            peer.name@ == own_name@,
            peer.ip_address == ip_address,
            peer.network_table == network_table,
            peer.open_request_table == open_request_table,
            peer.database@ == Map::<Seq<char>, Seq<u8>>::empty(),
            peer.database.data.entries().len() == 0,
    {
        Peer {
            name: own_name.to_string(),
            ip_address,
            network_table,
            database: Database::new(),
            open_request_table,
        }
    }

    /// Hands a file to the peer without storing it: the store is made through
    /// `process_store_request`.
    pub fn store(&self, data: (String, Vec<u8>)) {
        let _k = data.0;
        let _v = data.1;
    }

    /// The address of the peer.
    pub fn get_ip(&self) -> (ip: &SocketAddress)
        ensures
            *ip == self.ip_address,
    {
        &self.ip_address
    }

    /// The database of the peer.
    pub fn get_db(&self) -> (db: &Database)
        ensures
            *db == self.database,
    {
        &self.database
    }

    /// Stores the file `data.1` under the name `data.0`, replacing a file of that name.
    pub fn process_store_request(&mut self, data: (String, Vec<u8>))
        ensures
            final(self).database@ == old(self).database@.insert(data.0@, data.1@),
            final(self).database.data.entries() == entries_insert(old(self).database.data.entries(), data.0@, data.1),
            final(self).name == old(self).name,
            final(self).ip_address == old(self).ip_address,
            final(self).network_table == old(self).network_table,
            final(self).open_request_table == old(self).open_request_table,
    {
        let (k, v) = data;
        self.database.data.insert(k, v);
        assert(self.database@ =~= old(self).database@.insert(data.0@, data.1@));
    }

    /// The file stored under `name`, if there is one.
    pub fn find_file(&self, name: &String) -> (r: Option<&Vec<u8>>)
        ensures
            r is None <==> !self.database@.contains_key(name@),
            r matches Some(v) ==> v@ == self.database@[name@],
    {
        self.database.data.get(name)
    }

    /// Whether a file is stored under `name`.
    pub fn does_file_exist(&self, name: &String) -> (b: bool)
        ensures
            b == self.database@.contains_key(name@),
    {
        match self.database.data.get(name) {
            Some(_t) => true,
            None => false,
        }
    }

    /// Deletes the file stored under `name`, if there is one.
    pub fn delete_file_from_database(&mut self, name: &String)
        ensures
            final(self).database@ == old(self).database@.remove(name@),
            final(self).database.data.entries() == entries_remove(old(self).database.data.entries(), name@),
            final(self).name == old(self).name,
            final(self).ip_address == old(self).ip_address,
            final(self).network_table == old(self).network_table,
            final(self).open_request_table == old(self).open_request_table,
    {
        self.database.data.remove(name);
        assert(self.database@ =~= old(self).database@.remove(name@));
    }

    /// Opens the request `time` for `content`.
    pub fn add_new_request(&mut self, time: &RequestId, content: FileInstructions)
        ensures
            final(self).open_request_table@ == old(self).open_request_table@.insert(*time, content),
            final(self).name == old(self).name,
            final(self).ip_address == old(self).ip_address,
            final(self).network_table == old(self).network_table,
            final(self).database == old(self).database,
    {
        self.open_request_table.insert(*time, content);
    }

    /// Whether the request `time` is still open.
    pub fn check_request_still_active(&self, time: &RequestId) -> (b: bool)
        ensures
            b == self.open_request_table@.contains_key(*time),
    {
        self.open_request_table.contains_key(time)
    }

    /// Closes the request `time`.
    pub fn delete_handled_request(&mut self, time: &RequestId)
        ensures
            final(self).open_request_table@ == old(self).open_request_table@.remove(*time),
            final(self).name == old(self).name,
            final(self).ip_address == old(self).ip_address,
            final(self).network_table == old(self).network_table,
            final(self).database == old(self).database,
    {
        self.open_request_table.remove(time);
    }
}

/// Keeps the entries of a network table whose address is not `addr`.
pub open spec fn not_at(addr: SocketAddress) -> spec_fn((Seq<char>, SocketAddress)) -> bool {
    |e: (Seq<char>, SocketAddress)| e.1 != addr
}

impl Peer {
    /// Forgets every peer of the table whose address is `addr`; the other entries keep
    /// their order.
    pub fn drop_peer_by_ip(&mut self, addr: &SocketAddress)
        ensures
            final(self).network_table.entries() == old(self).network_table.entries().filter(not_at(*addr)),
            final(self).name == old(self).name,
            final(self).ip_address == old(self).ip_address,
            final(self).database == old(self).database,
            final(self).open_request_table == old(self).open_request_table,
    {
        proof {
            use_type_invariant(&self.network_table);
        }
        let ghost es = self.network_table.entries();
        let ghost pred = not_at(*addr);
        let mut kept: TextMap<SocketAddress> = TextMap::new();
        let mut i: usize = 0;
        while i < self.network_table.len()
            invariant
                i <= es.len(),
                es == self.network_table.entries(),
                crate::text_map::distinct_keys(es),
                pred == not_at(*addr),
                kept.entries() == es.take(i as int).filter(pred),
            decreases es.len() - i,
        {
            proof {
                assert(es.take(i + 1) =~= es.take(i as int).push(es[i as int]));
                es.take(i as int).lemma_filter_push(es[i as int], pred);
            }
            let v = *self.network_table.value_at(i);
            if v != *addr {
                let k = self.network_table.key_at(i).clone();
                proof {
                    if has_key(kept.entries(), k@) {
                        let j = choose|j: int| 0 <= j < kept.entries().len() && #[trigger] kept.entries()[j].0 == k@;
                        assert(es.take(i as int).filter(pred).contains(kept.entries()[j]));
                        es.take(i as int).lemma_filter_contains_rev(pred, kept.entries()[j]);
                        let m = choose|m: int| 0 <= m < i && #[trigger] es.take(i as int)[m] == kept.entries()[j];
                        assert(es[m].0 == es[i as int].0);
                    }
                }
                kept.insert(k, v);
            }
            i = i + 1;
        }
        assert(es.take(i as int) =~= es);
        self.network_table = kept;
    }
}

/// Creates the peer that starts a network, or joins one: it is called `own_name`, knows
/// only itself, stores nothing and waits on nothing. `own_address` is the address that was
/// found for it, or the reason none was found, which is handed back.
pub fn create_peer(own_name: &str, own_address: Result<SocketAddress, String>) -> (r: Result<Peer, String>)
    ensures
        own_address matches Err(e) ==> r matches Err(e2) && e2@ == e@,
        own_address matches Ok(a) ==> r matches Ok(peer) && {
            &&& peer.name@ == own_name@
            &&& peer.ip_address == a
            &&& peer.network_table.entries() == seq![(own_name@, a)]
            &&& peer.network_table@ == map![own_name@ => a]
            &&& peer.database@ == Map::<Seq<char>, Seq<u8>>::empty()
            &&& peer.database.data.entries().len() == 0
            &&& peer.open_request_table@ == Map::<RequestId, FileInstructions>::empty()
        },
{
    let peer_socket_addr = match own_address {
        Ok(val) => val,
        Err(error_message) => return Err(error_message),
    };
    let mut network_table = TextMap::new();
    network_table.insert(own_name.to_string(), peer_socket_addr);
    let open_request_table = RequestTable::new();
    let peer = Peer::create(peer_socket_addr, own_name, network_table, open_request_table);
    assert(peer.network_table@ =~= map![own_name@ => peer_socket_addr]);
    Ok(peer)
}

} // verus!
