use meff::action::Action;
use meff::address::{RequestId, SocketAddress};
use meff::audio::{play_music, stop_current_playing_music, MusicPlayer};
use meff::handshake::{network_table_from_entries, network_table_to_entries, send_table_to_all_peers};
use meff::network::{can_handle_notification, handle_lost_connection, handle_notification, heartbeat_targets, other_random_target};
use meff::notification::{Content, Message, NetworkInfo, Notification, TablePayload};
use meff::peer::{create_peer, Peer};
use meff::request::{
    change_peer_name, delete_file_request, delete_from_network, exist_file, exist_file_response, exit_peer,
    find_file, get_file, get_file_response, order_song_request, push_to_db, redundant_push_to_db, request_for_table, self_status_request,
    send_network_table, send_network_update_table, status_request,
};
use meff::text_map::TextMap;
use meff::network::{heartbeat_step, HeartbeatStep};
use meff::utils::{FileInstructions, FileStatus, MusicState};

fn addr(last: u8) -> SocketAddress {
    SocketAddress::V4 { ip: u32::from_be_bytes([10, 0, 0, last]), port: 34521 }
}

fn peer_with(names: &[(&str, u8)]) -> Peer {
    let mut peer = create_peer(names[0].0, Ok(addr(names[0].1))).unwrap();
    for (n, a) in &names[1..] {
        peer.network_table.insert(n.to_string(), addr(*a));
    }
    peer
}

fn send_to(a: &Action) -> (SocketAddress, &Notification, bool) {
    match a {
        Action::Send { target, notification } => (*target, notification, false),
        Action::SendWatched { target, notification } => (*target, notification, true),
        other => panic!("not a send: {:?}", other),
    }
}

fn text(a: &Action) -> &str {
    match a {
        Action::Print { text } => text.as_str(),
        other => panic!("not a print: {:?}", other),
    }
}

#[test]
fn push_on_a_lonely_peer_stores_and_answers() {
    let mut peer = peer_with(&[("alice", 1)]);
    let actions = push_to_db("song".to_string(), vec![7, 8], Some(addr(9)), &mut peer);
    assert_eq!(actions.len(), 4);
    assert_eq!(text(&actions[0]), "Saved file to database");
    assert_eq!(actions[1], Action::DatabaseChanged { name: "song".to_string(), status: FileStatus::NEW });
    assert_eq!(text(&actions[2]), "Only peer in network. No redundancy possible");
    let (target, n, watched) = send_to(&actions[3]);
    assert_eq!(target, addr(9));
    assert!(watched);
    assert_eq!(n.from, addr(1));
    assert_eq!(n.content, Content::Response { from: addr(1), message: Message::DataStored { key: "song".to_string() } });
    assert_eq!(peer.find_file(&"song".to_string()), Some(&vec![7, 8]));
}

#[test]
fn push_sends_the_second_copy_to_the_other_peer() {
    let mut peer = peer_with(&[("alice", 1), ("bob", 2)]);
    let actions = push_to_db("song".to_string(), vec![1], None, &mut peer);
    assert_eq!(actions.len(), 3);
    let (target, n, watched) = send_to(&actions[2]);
    assert_eq!(target, addr(2));
    assert!(watched);
    assert_eq!(
        n.content,
        Content::RedundantPushToDB { key: "song".to_string(), value: vec![1], from: Some(addr(1)) }
    );
}

#[test]
fn push_of_an_existing_file_changes_nothing() {
    let mut peer = peer_with(&[("alice", 1), ("bob", 2)]);
    peer.process_store_request(("song".to_string(), vec![1]));
    let actions = push_to_db("song".to_string(), vec![2], Some(addr(2)), &mut peer);
    assert_eq!(actions.len(), 1);
    assert_eq!(text(&actions[0]), "File already exists in your database");
    assert_eq!(peer.find_file(&"song".to_string()), Some(&vec![1]));
}

#[test]
fn random_target_is_never_the_peer_itself() {
    let alone = peer_with(&[("alice", 1)]);
    assert_eq!(other_random_target(&alone.network_table, &addr(1)), None);
    let two = peer_with(&[("alice", 1), ("bob", 2)]);
    assert_eq!(other_random_target(&two.network_table, &addr(1)), Some(addr(2)));
    let many = peer_with(&[("alice", 1), ("bob", 2), ("carol", 3), ("dave", 4)]);
    for _ in 0..50 {
        let t = other_random_target(&many.network_table, &addr(1)).unwrap();
        assert!(t == addr(2) || t == addr(3) || t == addr(4));
    }
    let same = peer_with(&[("alice", 1), ("alias", 1)]);
    assert_eq!(other_random_target(&same.network_table, &addr(1)), None);
}

#[test]
fn a_single_entry_at_another_address_is_picked() {
    let mut table: TextMap<SocketAddress> = TextMap::new();
    table.insert("bob".to_string(), addr(2));
    assert_eq!(other_random_target(&table, &addr(1)), Some(addr(2)));
    let empty: TextMap<SocketAddress> = TextMap::new();
    assert_eq!(other_random_target(&empty, &addr(1)), None);
}

#[test]
fn taken_name_is_asked_to_change() {
    let peer = peer_with(&[("alice", 1), ("bob", 2)]);
    let a = request_for_table("bob".to_string(), addr(5), &peer);
    let (target, n, _) = send_to(&a);
    assert_eq!(target, addr(5));
    assert_eq!(n.content, Content::ChangePeerName { value: "bob+1".to_string() });
    let b = request_for_table("carol".to_string(), addr(5), &peer);
    let (_, n, watched) = send_to(&b);
    assert!(!watched);
    match &n.content {
        Content::SendNetworkTable { table: TablePayload::Entries(infos) } => {
            assert_eq!(infos.len(), 2);
            assert_eq!(infos[0], NetworkInfo { name: "alice".to_string(), address: addr(1) });
            assert_eq!(infos[1], NetworkInfo { name: "bob".to_string(), address: addr(2) });
        },
        other => panic!("unexpected {:?}", other),
    }
}

#[test]
fn renamed_peer_moves_its_entry() {
    let mut peer = peer_with(&[("bob", 1), ("alice", 2)]);
    let a = change_peer_name("bob+1".to_string(), addr(2), &mut peer);
    assert_eq!(peer.name, "bob+1");
    assert!(!peer.network_table.contains_key(&"bob".to_string()));
    assert_eq!(peer.network_table.get(&"bob+1".to_string()), Some(&addr(1)));
    let (target, n, _) = send_to(&a);
    assert_eq!(target, addr(2));
    assert_eq!(n.content, Content::RequestForTable { value: "bob+1".to_string() });
}

#[test]
fn received_table_is_merged_and_announced() {
    let mut peer = peer_with(&[("carol", 3)]);
    let infos = vec![
        NetworkInfo { name: "alice".to_string(), address: addr(1) },
        NetworkInfo { name: "bob".to_string(), address: addr(2) },
    ];
    let actions = send_network_table(TablePayload::Entries(infos), &mut peer);
    assert_eq!(peer.network_table.keys(), vec!["carol".to_string(), "alice".to_string(), "bob".to_string()]);
    assert_eq!(actions.len(), 2);
    let (t0, n0, _) = send_to(&actions[0]);
    assert_eq!(t0, addr(1));
    assert_eq!(
        n0.content,
        Content::SendNetworkUpdateTable {
            table: TablePayload::Entries(vec![NetworkInfo { name: "carol".to_string(), address: addr(3) }]),
        }
    );
    let (t1, _, _) = send_to(&actions[1]);
    assert_eq!(t1, addr(2));
}

#[test]
fn table_that_is_not_text_changes_nothing() {
    let mut peer = peer_with(&[("carol", 3)]);
    assert!(send_network_table(TablePayload::NotText, &mut peer).is_empty());
    assert!(send_network_update_table(TablePayload::NotText, &mut peer).is_empty());
    assert_eq!(peer.network_table.len(), 1);
}

#[test]
fn update_table_tells_who_joined() {
    let mut peer = peer_with(&[("alice", 1)]);
    let infos = vec![NetworkInfo { name: "dave".to_string(), address: addr(4) }];
    let actions = send_network_update_table(TablePayload::Entries(infos), &mut peer);
    assert_eq!(actions.len(), 1);
    assert_eq!(text(&actions[0]), "dave joined the network.");
    assert_eq!(peer.network_table.get(&"dave".to_string()), Some(&addr(4)));
}

#[test]
fn network_table_round_trip() {
    let peer = peer_with(&[("alice", 1), ("bob", 2), ("carol", 3)]);
    let entries = network_table_to_entries(&peer.network_table);
    let back = network_table_from_entries(entries);
    assert_eq!(back.keys(), peer.network_table.keys());
    for k in back.keys() {
        assert_eq!(back.get(&k), peer.network_table.get(&k));
    }
}

#[test]
fn later_entry_for_a_name_wins() {
    let infos = vec![
        NetworkInfo { name: "a".to_string(), address: addr(1) },
        NetworkInfo { name: "b".to_string(), address: addr(2) },
        NetworkInfo { name: "a".to_string(), address: addr(3) },
    ];
    let table = network_table_from_entries(infos);
    assert_eq!(table.keys(), vec!["a".to_string(), "b".to_string()]);
    assert_eq!(table.get(&"a".to_string()), Some(&addr(3)));
}

#[test]
fn announcement_skips_the_peer_itself() {
    let peer = peer_with(&[("alice", 1), ("bob", 2)]);
    let actions = send_table_to_all_peers(&peer);
    assert_eq!(actions.len(), 1);
    assert_eq!(send_to(&actions[0]).0, addr(2));
}

#[test]
fn search_is_answered_once() {
    let mut peer = peer_with(&[("alice", 1), ("bob", 2), ("carol", 3)]);
    let now = RequestId { secs: 100, nanos: 1 };
    let actions = find_file(FileInstructions::GET, "song".to_string(), &mut peer, now);
    assert_eq!(actions.len(), 2);
    for (a, t) in actions.iter().zip([addr(2), addr(3)]) {
        let (target, n, _) = send_to(a);
        assert_eq!(target, t);
        assert_eq!(n.content, Content::ExistFile { song_name: "song".to_string(), id: now });
    }
    assert!(peer.check_request_still_active(&now));
    let first = exist_file_response("song".to_string(), now, addr(3), &mut peer);
    assert_eq!(first.len(), 1);
    let (target, n, _) = send_to(&first[0]);
    assert_eq!(target, addr(3));
    assert_eq!(n.content, Content::GetFile { instr: FileInstructions::GET, key: "song".to_string() });
    let second = exist_file_response("song".to_string(), now, addr(2), &mut peer);
    assert_eq!(text(&second[0]), "There is no file \"song\" to remove.");
    assert!(!peer.check_request_still_active(&now));
}

#[test]
fn remove_of_a_local_file_deletes_it_everywhere() {
    let mut peer = peer_with(&[("alice", 1), ("bob", 2)]);
    peer.process_store_request(("song".to_string(), vec![1]));
    let now = RequestId { secs: 7, nanos: 0 };
    let actions = find_file(FileInstructions::REMOVE, "song".to_string(), &mut peer, now);
    assert_eq!(text(&actions[0]), "Remove file song from database");
    assert_eq!(actions[1], Action::DatabaseChanged { name: "song".to_string(), status: FileStatus::DELETE });
    let (target, n, _) = send_to(&actions[2]);
    assert_eq!(target, addr(2));
    assert_eq!(n.content, Content::DeleteFileRequest { song_name: "song".to_string() });
    assert!(!peer.does_file_exist(&"song".to_string()));
    assert!(peer.check_request_still_active(&now));
}

#[test]
fn find_of_a_local_file_for_play_does_nothing() {
    let mut peer = peer_with(&[("alice", 1), ("bob", 2)]);
    peer.process_store_request(("song".to_string(), vec![1]));
    let now = RequestId { secs: 7, nanos: 0 };
    assert!(find_file(FileInstructions::PLAY, "song".to_string(), &mut peer, now).is_empty());
    assert!(!peer.check_request_still_active(&now));
}

#[test]
fn stored_file_is_served_and_others_are_not() {
    let mut peer = peer_with(&[("alice", 1)]);
    peer.process_store_request(("song".to_string(), vec![4, 5]));
    let actions = get_file(FileInstructions::PLAY, "song".to_string(), addr(2), &mut peer);
    let (target, n, _) = send_to(&actions[0]);
    assert_eq!(target, addr(2));
    assert_eq!(
        n.content,
        Content::GetFileResponse { instr: FileInstructions::PLAY, key: "song".to_string(), value: vec![4, 5] }
    );
    assert!(get_file(FileInstructions::GET, "nope".to_string(), addr(2), &mut peer).is_empty());
    assert!(peer.does_file_exist(&"song".to_string()));
    assert_eq!(exist_file("song".to_string(), RequestId { secs: 1, nanos: 1 }, addr(2), &peer).len(), 1);
    assert!(exist_file("nope".to_string(), RequestId { secs: 1, nanos: 1 }, addr(2), &peer).is_empty());
}

#[test]
fn received_file_is_played_or_stored() {
    let mut peer = peer_with(&[("alice", 1)]);
    let play = get_file_response(FileInstructions::PLAY, "a".to_string(), vec![1], &mut peer);
    assert_eq!(play, vec![Action::Play { title: "a".to_string(), data: vec![1] }, Action::PlayerPlaying { title: None }]);
    assert!(!peer.does_file_exist(&"a".to_string()));
    assert_eq!(
        get_file_response(FileInstructions::ORDER, "b".to_string(), vec![2], &mut peer),
        vec![Action::DatabaseChanged { name: "b".to_string(), status: FileStatus::NEW }]
    );
    assert_eq!(peer.find_file(&"b".to_string()), Some(&vec![2]));
    assert_eq!(
        get_file_response(FileInstructions::GET, "c".to_string(), vec![3], &mut peer),
        vec![Action::DatabaseChanged { name: "c".to_string(), status: FileStatus::DOWNLOAD }]
    );
    assert_eq!(peer.find_file(&"c".to_string()), Some(&vec![3]));
    assert!(get_file_response(FileInstructions::REMOVE, "d".to_string(), vec![4], &mut peer).is_empty());
    assert!(!peer.does_file_exist(&"d".to_string()));
}

#[test]
fn deleting_a_redundant_copy() {
    let mut peer = peer_with(&[("alice", 1)]);
    peer.process_store_request(("song".to_string(), vec![1]));
    let actions = delete_file_request("song".to_string(), &mut peer);
    assert_eq!(text(&actions[0]), "Remove file song from database");
    assert_eq!(actions[1], Action::DatabaseChanged { name: "song".to_string(), status: FileStatus::DELETE });
    assert!(!peer.does_file_exist(&"song".to_string()));
    assert!(delete_file_request("song".to_string(), &mut peer).is_empty());
}

#[test]
fn a_leaving_peer_is_forgotten() {
    let mut peer = peer_with(&[("alice", 1), ("bob", 2)]);
    let actions = delete_from_network("bob".to_string(), &mut peer);
    assert_eq!(text(&actions[0]), "bob left the network.");
    assert_eq!(peer.network_table.len(), 1);
    assert!(delete_from_network("bob".to_string(), &mut peer).is_empty());
}

#[test]
fn exit_hands_files_to_the_other_peer_and_ends() {
    let mut peer = peer_with(&[("alice", 1), ("bob", 2)]);
    peer.process_store_request(("x".to_string(), vec![1]));
    peer.process_store_request(("y".to_string(), vec![2]));
    let actions = exit_peer(addr(1), &peer);
    assert_eq!(actions.len(), 4);
    let (t0, n0, _) = send_to(&actions[0]);
    assert_eq!(t0, addr(2));
    assert_eq!(n0.from, addr(1));
    assert_eq!(n0.content, Content::DeleteFromNetwork { name: "alice".to_string() });
    let (t1, n1, _) = send_to(&actions[1]);
    assert_eq!(t1, addr(2));
    assert_eq!(n1.content, Content::OrderSongRequest { song_name: "x".to_string() });
    let (t2, n2, _) = send_to(&actions[2]);
    assert_eq!(t2, addr(2));
    assert_eq!(n2.content, Content::OrderSongRequest { song_name: "y".to_string() });
    assert_eq!(actions[3], Action::Exit);
}

#[test]
fn exit_of_a_lonely_peer_just_ends() {
    let mut peer = peer_with(&[("alice", 1)]);
    peer.process_store_request(("x".to_string(), vec![1]));
    assert_eq!(exit_peer(addr(1), &peer), vec![Action::Exit]);
}

#[test]
fn ordered_song_goes_to_another_peer_or_is_searched() {
    let mut peer = peer_with(&[("alice", 1), ("bob", 2)]);
    peer.process_store_request(("x".to_string(), vec![1]));
    let actions = order_song_request("x".to_string(), &peer);
    let (t, n, _) = send_to(&actions[0]);
    assert_eq!(t, addr(2));
    assert_eq!(n.content, Content::OrderSongRequest { song_name: "x".to_string() });
    let actions = order_song_request("y".to_string(), &peer);
    let (t, n, _) = send_to(&actions[0]);
    assert_eq!(t, addr(1));
    assert_eq!(n.content, Content::FindFile { instr: FileInstructions::ORDER, song_name: "y".to_string() });
}

#[test]
fn status_lists_the_files_of_the_peer() {
    let mut peer = peer_with(&[("alice", 1), ("bob", 2)]);
    peer.process_store_request(("x".to_string(), vec![1]));
    peer.process_store_request(("y".to_string(), vec![2]));
    let a = status_request(addr(2), &peer);
    let (t, n, _) = send_to(&a);
    assert_eq!(t, addr(2));
    assert_eq!(
        n.content,
        Content::StatusResponse { files: vec!["x".to_string(), "y".to_string()], name: "alice".to_string() }
    );
    let all = self_status_request(&peer);
    assert_eq!(all.len(), 2);
    assert_eq!(send_to(&all[0]).0, addr(1));
    assert_eq!(send_to(&all[1]).0, addr(2));
}

#[test]
fn lost_connection_is_told_to_the_others() {
    let peer = peer_with(&[("alice", 1), ("bob", 2), ("carol", 3)]);
    let actions = handle_lost_connection(addr(2), addr(1), &peer.network_table);
    assert_eq!(actions.len(), 2);
    let (t0, n0, w0) = send_to(&actions[0]);
    assert_eq!(t0, addr(1));
    assert!(w0);
    assert_eq!(n0.content, Content::DroppedPeer { addr: addr(2) });
    assert_eq!(send_to(&actions[1]).0, addr(3));
}

#[test]
fn heartbeat_goes_to_every_known_address() {
    let alone = peer_with(&[("alice", 1)]);
    assert!(heartbeat_targets(&alone.network_table).is_empty());
    let two = peer_with(&[("alice", 1), ("bob", 2)]);
    assert_eq!(heartbeat_targets(&two.network_table), vec![addr(1), addr(2)]);
}

#[test]
fn dispatch_of_heartbeat_and_drop() {
    let mut peer = peer_with(&[("alice", 1), ("bob", 2)]);
    let mut player = MusicPlayer::new();
    let now = RequestId { secs: 0, nanos: 0 };
    let hb = Notification { content: Content::Heartbeat, from: addr(2) };
    assert!(handle_notification(hb, &mut peer, &mut player, now).is_empty());
    assert_eq!(peer.network_table.len(), 2);
    let drop = Notification { content: Content::DroppedPeer { addr: addr(2) }, from: addr(2) };
    let actions = handle_notification(drop, &mut peer, &mut player, now);
    assert_eq!(actions, vec![Action::ReportDroppedPeer { addr: addr(2) }]);
    assert_eq!(peer.network_table.keys(), vec!["alice".to_string()]);
}

#[test]
fn dispatch_of_player_commands() {
    let mut peer = peer_with(&[("alice", 1)]);
    peer.process_store_request(("song".to_string(), vec![3]));
    let mut player = MusicPlayer::new();
    let now = RequestId { secs: 0, nanos: 0 };
    let play = Notification {
        content: Content::PlayAudioRequest { name: Some("song".to_string()), state: MusicState::PLAY },
        from: addr(1),
    };
    let actions = handle_notification(play, &mut peer, &mut player, now);
    assert_eq!(
        actions,
        vec![Action::Play { title: "song".to_string(), data: vec![3] }, Action::PlayerPlaying { title: Some("song".to_string()) }]
    );
    assert_eq!(player.current_song_name, Some("song".to_string()));
    assert!(!player.is_playing);
    let pause = Notification { content: Content::PlayAudioRequest { name: None, state: MusicState::PAUSE }, from: addr(1) };
    assert_eq!(handle_notification(pause, &mut peer, &mut player, now), vec![Action::Pause]);
    assert!(player.start_playback());
    assert!(!player.start_playback());
    let stop = Notification { content: Content::PlayAudioRequest { name: None, state: MusicState::STOP }, from: addr(1) };
    assert_eq!(handle_notification(stop, &mut peer, &mut player, now), vec![Action::Stop, Action::PlayerStopped]);
    assert!(!player.is_playing);
    assert_eq!(player.current_song_name, None);
    let again = Notification { content: Content::PlayAudioRequest { name: None, state: MusicState::PLAY }, from: addr(1) };
    assert_eq!(
        handle_notification(again, &mut peer, &mut player, now),
        vec![Action::Print { text: "No song name given and no current playing song!".to_string() }]
    );
}

#[test]
fn play_without_a_name_or_current_song_is_an_error() {
    let peer = peer_with(&[("alice", 1)]);
    let mut player = MusicPlayer::new();
    match play_music(&peer, None, &mut player) {
        Err(e) => assert_eq!(e, "No song name given and no current playing song!"),
        Ok(_) => panic!("expected an error"),
    }
    player.set_current_song("far".to_string());
    let actions = play_music(&peer, None, &mut player).unwrap();
    assert_eq!(text(&actions[0]), "wir haben die daten nicht");
    assert_eq!(player.current_song_name, Some("far".to_string()));
    let (t, n, _) = send_to(&actions[1]);
    assert_eq!(t, addr(1));
    assert_eq!(n.content, Content::FindFile { instr: FileInstructions::PLAY, song_name: "far".to_string() });
    assert_eq!(stop_current_playing_music(&mut player), vec![Action::Stop, Action::PlayerStopped]);
}

#[test]
fn pushed_file_can_be_fetched_through_dispatch() {
    let mut peer = peer_with(&[("alice", 1)]);
    let mut player = MusicPlayer::new();
    let now = RequestId { secs: 0, nanos: 0 };
    let push = Notification {
        content: Content::PushToDB { key: "k".to_string(), value: vec![9], from: None },
        from: addr(5),
    };
    let actions = handle_notification(push, &mut peer, &mut player, now);
    assert_eq!(actions.len(), 3);
    let get = Notification { content: Content::GetFile { instr: FileInstructions::GET, key: "k".to_string() }, from: addr(5) };
    let actions = handle_notification(get, &mut peer, &mut player, now);
    let (t, n, _) = send_to(&actions[0]);
    assert_eq!(t, addr(5));
    assert_eq!(n.content, Content::GetFileResponse { instr: FileInstructions::GET, key: "k".to_string(), value: vec![9] });
}

#[test]
fn empty_table_entries_make_an_empty_table() {
    let t: TextMap<SocketAddress> = network_table_from_entries(Vec::new());
    assert_eq!(t.len(), 0);
}

#[test]
fn second_copy_is_served_and_deleted_copy_is_not() {
    let mut peer = peer_with(&[("bob", 2)]);
    assert_eq!(
        redundant_push_to_db("k".to_string(), vec![1, 1], &mut peer),
        vec![Action::DatabaseChanged { name: "k".to_string(), status: FileStatus::NEW }]
    );
    let served = get_file(FileInstructions::GET, "k".to_string(), addr(1), &mut peer);
    let (_, n, _) = send_to(&served[0]);
    assert_eq!(n.content, Content::GetFileResponse { instr: FileInstructions::GET, key: "k".to_string(), value: vec![1, 1] });
    delete_file_request("k".to_string(), &mut peer);
    assert!(get_file(FileInstructions::GET, "k".to_string(), addr(1), &mut peer).is_empty());
}

#[test]
fn replies_to_a_store_change_nothing() {
    let mut peer = peer_with(&[("alice", 1)]);
    let mut player = MusicPlayer::new();
    let reply = Notification {
        content: Content::Response { from: addr(2), message: Message::DataStored { key: "k".to_string() } },
        from: addr(2),
    };
    assert!(handle_notification(reply, &mut peer, &mut player, RequestId { secs: 0, nanos: 0 }).is_empty());
    assert_eq!(peer.network_table.len(), 1);
    assert_eq!(peer.get_db().get_data().len(), 0);
}

#[test]
fn handing_on_needs_another_peer() {
    let mut peer = peer_with(&[("alice", 1)]);
    peer.process_store_request(("x".to_string(), vec![1]));
    let order = Notification { content: Content::OrderSongRequest { song_name: "x".to_string() }, from: addr(1) };
    assert!(!can_handle_notification(&peer, &order));
    let other = Notification { content: Content::OrderSongRequest { song_name: "y".to_string() }, from: addr(1) };
    assert!(can_handle_notification(&peer, &other));
    let exit = Notification { content: Content::ExitPeer { addr: addr(1) }, from: addr(1) };
    assert!(can_handle_notification(&peer, &exit));
    peer.network_table.insert("alias".to_string(), addr(1));
    assert!(!can_handle_notification(&peer, &exit));
    peer.network_table.insert("bob".to_string(), addr(2));
    assert!(can_handle_notification(&peer, &exit));
    assert!(can_handle_notification(&peer, &order));
}

#[test]
fn received_table_wins_over_known_entries() {
    let mut peer = peer_with(&[("carol", 3), ("dave", 4)]);
    let infos = vec![
        NetworkInfo { name: "alice".to_string(), address: addr(1) },
        NetworkInfo { name: "dave".to_string(), address: addr(8) },
        NetworkInfo { name: "dave".to_string(), address: addr(9) },
    ];
    send_network_table(TablePayload::Entries(infos), &mut peer);
    assert_eq!(peer.network_table.keys(), vec!["carol".to_string(), "dave".to_string(), "alice".to_string()]);
    assert_eq!(peer.network_table.get(&"dave".to_string()), Some(&addr(9)));
    assert_eq!(peer.network_table.get(&"carol".to_string()), Some(&addr(3)));
}

#[test]
fn remove_answer_deletes_the_copy_of_the_holder() {
    let mut holder = peer_with(&[("bob", 2), ("alice", 1), ("carol", 3)]);
    holder.process_store_request(("song".to_string(), vec![1]));
    let actions = get_file(FileInstructions::REMOVE, "song".to_string(), addr(1), &mut holder);
    assert!(!holder.does_file_exist(&"song".to_string()));
    assert_eq!(actions.len(), 4);
    assert_eq!(text(&actions[0]), "Remove file song from database");
    assert_eq!(actions[1], Action::DatabaseChanged { name: "song".to_string(), status: FileStatus::DELETE });
    for (a, t) in actions[2..].iter().zip([addr(1), addr(3)]) {
        let (target, n, _) = send_to(a);
        assert_eq!(target, t);
        assert_eq!(n.from, addr(2));
        assert_eq!(n.content, Content::DeleteFileRequest { song_name: "song".to_string() });
    }
}

#[test]
fn remote_remove_reaches_the_holder_through_the_search() {
    let mut asker = peer_with(&[("alice", 1), ("bob", 2)]);
    let mut holder = peer_with(&[("bob", 2), ("alice", 1)]);
    holder.process_store_request(("song".to_string(), vec![5]));
    let now = RequestId { secs: 3, nanos: 0 };
    let ask = find_file(FileInstructions::REMOVE, "song".to_string(), &mut asker, now);
    assert_eq!(send_to(&ask[0]).0, addr(2));
    let found = exist_file("song".to_string(), now, addr(1), &holder);
    assert_eq!(send_to(&found[0]).0, addr(1));
    let get = exist_file_response("song".to_string(), now, addr(2), &mut asker);
    let (t, n, _) = send_to(&get[0]);
    assert_eq!(t, addr(2));
    let mut player = MusicPlayer::new();
    let actions = handle_notification(n.clone(), &mut holder, &mut player, now);
    assert!(!holder.does_file_exist(&"song".to_string()));
    let (t, n, _) = send_to(&actions[2]);
    assert_eq!(t, addr(1));
    assert_eq!(n.content, Content::DeleteFileRequest { song_name: "song".to_string() });
}

#[test]
fn downloaded_file_is_kept_and_served() {
    let mut peer = peer_with(&[("alice", 1)]);
    let mut player = MusicPlayer::new();
    let now = RequestId { secs: 0, nanos: 0 };
    let answer = Notification {
        content: Content::GetFileResponse { instr: FileInstructions::GET, key: "k".to_string(), value: vec![6, 7] },
        from: addr(2),
    };
    assert_eq!(
        handle_notification(answer, &mut peer, &mut player, now),
        vec![Action::DatabaseChanged { name: "k".to_string(), status: FileStatus::DOWNLOAD }]
    );
    let served = get_file(FileInstructions::PLAY, "k".to_string(), addr(3), &mut peer);
    let (_, n, _) = send_to(&served[0]);
    assert_eq!(n.content, Content::GetFileResponse { instr: FileInstructions::PLAY, key: "k".to_string(), value: vec![6, 7] });
}

#[test]
fn heartbeat_round_goes_on_after_a_refusal() {
    let targets = vec![addr(1), addr(2), addr(3)];
    assert_eq!(heartbeat_step(&targets, 0, false), HeartbeatStep::Beat { index: 0 });
    assert_eq!(heartbeat_step(&targets, 1, false), HeartbeatStep::Beat { index: 1 });
    assert_eq!(heartbeat_step(&targets, 1, true), HeartbeatStep::ReportLost { addr: addr(1), next: Some(1) });
    assert_eq!(heartbeat_step(&targets, 2, true), HeartbeatStep::ReportLost { addr: addr(2), next: Some(2) });
    assert_eq!(heartbeat_step(&targets, 3, true), HeartbeatStep::ReportLost { addr: addr(3), next: None });
    assert_eq!(heartbeat_step(&targets, 3, false), HeartbeatStep::Done);
    assert_eq!(heartbeat_step(&Vec::new(), 0, false), HeartbeatStep::Done);
}

#[test]
fn heartbeat_round_with_refusals_reaches_every_target() {
    let targets = vec![addr(1), addr(2), addr(3), addr(4)];
    let refusing = [addr(1), addr(3)];
    let (mut sent, mut refused) = (0usize, false);
    let (mut beaten, mut lost) = (Vec::new(), Vec::new());
    loop {
        let next = match heartbeat_step(&targets, sent, refused) {
            HeartbeatStep::Beat { index } => index,
            HeartbeatStep::ReportLost { addr, next } => {
                lost.push(addr);
                match next {
                    Some(i) => i,
                    None => break,
                }
            }
            HeartbeatStep::Done => break,
        };
        beaten.push(targets[next]);
        refused = refusing.contains(&targets[next]);
        sent = next + 1;
    }
    assert_eq!(beaten, targets);
    assert_eq!(lost, vec![addr(1), addr(3)]);
}

#[test]
fn rename_keeps_the_address() {
    let mut peer = peer_with(&[("alice", 1), ("bob", 2)]);
    let mut player = MusicPlayer::new();
    let rename = Notification { content: Content::ChangePeerName { value: "alice+1".to_string() }, from: addr(2) };
    handle_notification(rename, &mut peer, &mut player, RequestId { secs: 0, nanos: 0 });
    assert_eq!(peer.name, "alice+1");
    assert_eq!(peer.ip_address, addr(1));
    assert_eq!(peer.network_table.get(&"alice+1".to_string()), Some(&addr(1)));
    assert_eq!(peer.network_table.get(&"alice".to_string()), None);
}

#[test]
fn send_request_text_writes_key_bytes_and_action() {
    let r = meff::notification::SendRequest {
        value: vec![1, 2],
        from: "x".to_string(),
        key: "so\"ng".to_string(),
        action: "store".to_string(),
    };
    assert_eq!(r.text(), format!("\"key\": \"{:?}\", \"value\": \"{:?}\", \"action\": {:?}", r.key, r.value, r.action));
    assert_eq!(r.text(), "\"key\": \"\"so\\\"ng\"\", \"value\": \"[1, 2]\", \"action\": \"store\"");
}

#[test]
fn unreadable_table_entries_are_left_out() {
    let entries = vec![
        ("alice".to_string(), Some(addr(1))),
        ("bob".to_string(), None),
        ("carol".to_string(), Some(addr(3))),
    ];
    let infos = meff::handshake::readable_entries(&entries);
    assert_eq!(
        infos,
        vec![
            NetworkInfo { name: "alice".to_string(), address: addr(1) },
            NetworkInfo { name: "carol".to_string(), address: addr(3) },
        ]
    );
    assert!(meff::handshake::readable_entries(&Vec::new()).is_empty());
}
