use meff::address::{RequestId, SocketAddress};
use meff::database::Database;
use meff::peer::{create_peer, Peer};
use meff::request_table::RequestTable;
use meff::text_map::TextMap;
use meff::utils::FileInstructions;

fn addr(last: u8, port: u16) -> SocketAddress {
    SocketAddress::V4 { ip: u32::from_be_bytes([192, 168, 0, last]), port }
}

fn peer_named(name: &str, a: SocketAddress) -> Peer {
    create_peer(name, Ok(a)).unwrap()
}

#[test]
fn database_starts_empty() {
    let db = Database::new();
    assert_eq!(db.get_data().len(), 0);
    assert!(db.get_data().get(&"song".to_string()).is_none());
}

#[test]
fn stored_file_is_found_with_its_bytes() {
    let mut peer = peer_named("alice", addr(1, 4000));
    peer.process_store_request(("song".to_string(), vec![1, 2, 3]));
    assert_eq!(peer.find_file(&"song".to_string()), Some(&vec![1, 2, 3]));
    assert!(peer.does_file_exist(&"song".to_string()));
    assert!(!peer.does_file_exist(&"other".to_string()));
}

#[test]
fn storing_again_replaces_the_bytes() {
    let mut peer = peer_named("alice", addr(1, 4000));
    peer.process_store_request(("song".to_string(), vec![1]));
    peer.process_store_request(("song".to_string(), vec![9, 9]));
    assert_eq!(peer.find_file(&"song".to_string()), Some(&vec![9, 9]));
    assert_eq!(peer.get_db().get_data().len(), 1);
}

#[test]
fn deleted_file_is_gone() {
    let mut peer = peer_named("alice", addr(1, 4000));
    peer.process_store_request(("song".to_string(), vec![1]));
    peer.delete_file_from_database(&"song".to_string());
    assert!(!peer.does_file_exist(&"song".to_string()));
    assert!(peer.find_file(&"song".to_string()).is_none());
}

#[test]
fn store_without_processing_keeps_the_database() {
    let peer = peer_named("alice", addr(1, 4000));
    peer.store(("song".to_string(), vec![1]));
    assert!(!peer.does_file_exist(&"song".to_string()));
}

#[test]
fn created_peer_knows_only_itself() {
    let a = addr(1, 4000);
    let peer = peer_named("alice", a);
    assert_eq!(peer.name, "alice");
    assert_eq!(*peer.get_ip(), a);
    assert_eq!(peer.network_table.len(), 1);
    assert_eq!(peer.network_table.get(&"alice".to_string()), Some(&a));
    assert!(!peer.check_request_still_active(&RequestId { secs: 1, nanos: 0 }));
}

#[test]
fn create_peer_hands_back_the_address_error() {
    let r = create_peer("alice", Err("Failed to find any network address".to_string()));
    match r {
        Err(e) => assert_eq!(e, "Failed to find any network address"),
        Ok(_) => panic!("expected an error"),
    }
}

#[test]
fn create_keeps_the_given_tables() {
    let a = addr(1, 4000);
    let mut table = TextMap::new();
    table.insert("alice".to_string(), a);
    table.insert("bob".to_string(), addr(2, 4000));
    let peer = Peer::create(a, "alice", table, RequestTable::new());
    assert_eq!(peer.network_table.len(), 2);
    assert_eq!(peer.get_db().get_data().len(), 0);
}

#[test]
fn request_is_open_until_handled() {
    let mut peer = peer_named("alice", addr(1, 4000));
    let id = RequestId { secs: 10, nanos: 5 };
    peer.add_new_request(&id, FileInstructions::GET);
    assert!(peer.check_request_still_active(&id));
    assert_eq!(peer.open_request_table.get(&id), Some(FileInstructions::GET));
    assert!(!peer.check_request_still_active(&RequestId { secs: 10, nanos: 6 }));
    peer.delete_handled_request(&id);
    assert!(!peer.check_request_still_active(&id));
}

#[test]
fn text_map_keeps_insertion_order_and_replaces_in_place() {
    let mut m: TextMap<u32> = TextMap::new();
    m.insert("b".to_string(), 1);
    m.insert("a".to_string(), 2);
    m.insert("b".to_string(), 3);
    assert_eq!(m.len(), 2);
    assert_eq!(m.keys(), vec!["b".to_string(), "a".to_string()]);
    assert_eq!(*m.value_at(0), 3);
    assert_eq!(m.remove(&"b".to_string()), Some(3));
    assert_eq!(m.remove(&"b".to_string()), None);
    assert_eq!(m.keys(), vec!["a".to_string()]);
    assert_eq!(m.position(&"a".to_string()), Some(0));
    assert!(!m.contains_key(&"b".to_string()));
}

#[test]
fn dropping_an_address_forgets_every_entry_with_it() {
    let a = addr(1, 4000);
    let b = addr(2, 4000);
    let mut peer = peer_named("alice", a);
    peer.network_table.insert("bob".to_string(), b);
    peer.network_table.insert("bob2".to_string(), b);
    peer.network_table.insert("carol".to_string(), addr(3, 4000));
    peer.drop_peer_by_ip(&b);
    assert_eq!(peer.network_table.keys(), vec!["alice".to_string(), "carol".to_string()]);
}
