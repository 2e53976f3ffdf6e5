use meff::action::Action;
use meff::address::SocketAddress;
use meff::interface::{delete_peer, music_control, music_request, push_music_to_database, upload_music};
use meff::notification::Content;
use meff::peer::create_peer;
use meff::shell::{char_is_white_space, command_actions, file_status_message, handle_user_input, parse_command, print_existing_files, split_words, Command};
use meff::utils::{FileInstructions, FileStatus, MusicState};

fn addr(last: u8) -> SocketAddress {
    SocketAddress::V4 { ip: u32::from_be_bytes([127, 0, 0, last]), port: 34521 }
}

fn words(ws: &[&str]) -> Vec<String> {
    ws.iter().map(|w| w.to_string()).collect()
}

#[test]
fn commands_are_read_from_their_words() {
    assert_eq!(parse_command(&words(&["h"])), Command::Help);
    assert_eq!(parse_command(&words(&["help"])), Command::Help);
    assert_eq!(
        parse_command(&words(&["push", "song", "a.mp3"])),
        Command::Push { name: "song".to_string(), path: "a.mp3".to_string() }
    );
    assert_eq!(parse_command(&words(&["get", "song"])), Command::Get { name: "song".to_string() });
    assert_eq!(parse_command(&words(&["exit"])), Command::Exit);
    assert_eq!(parse_command(&words(&["status"])), Command::Status);
    assert_eq!(parse_command(&words(&["play", "song"])), Command::Play { name: "song".to_string() });
    assert_eq!(parse_command(&words(&["remove", "song"])), Command::Remove { name: "song".to_string() });
}

#[test]
fn wrong_use_of_a_command_gives_its_hint() {
    let hint = "You need to specify name and filepath. For more information type help.\n".to_string();
    assert_eq!(parse_command(&words(&["push", "song"])), Command::Message { text: hint.clone() });
    assert_eq!(parse_command(&words(&["get"])), Command::Message { text: hint });
    assert_eq!(
        parse_command(&words(&["play"])),
        Command::Message { text: "File name is missing. For more information type help.\n".to_string() }
    );
    let file_hint = "You need to specify name of mp3 file. For more information type help.\n".to_string();
    assert_eq!(parse_command(&words(&["remove"])), Command::Message { text: file_hint.clone() });
    assert_eq!(parse_command(&words(&["stream"])), Command::Message { text: file_hint });
    assert_eq!(
        parse_command(&words(&["stream", "song"])),
        Command::Message { text: "Not yet implemented.\n".to_string() }
    );
    let invalid = Command::Message { text: "No valid instructions. Try help!\n".to_string() };
    assert_eq!(parse_command(&words(&[])), invalid);
    assert_eq!(parse_command(&words(&["dance"])), invalid);
}

#[test]
fn typed_lines_are_split_on_white_space() {
    assert_eq!(
        handle_user_input("  push\tsong   a.mp3 \n"),
        Command::Push { name: "song".to_string(), path: "a.mp3".to_string() }
    );
    assert_eq!(handle_user_input("get song\n"), Command::Get { name: "song".to_string() });
    assert_eq!(
        handle_user_input("\n"),
        Command::Message { text: "No valid instructions. Try help!\n".to_string() }
    );
}

#[test]
fn commands_act_on_the_local_peer() {
    let peer = create_peer("alice", Ok(addr(1))).unwrap();
    let get = command_actions(Command::Get { name: "s".to_string() }, &peer);
    match &get[0] {
        Action::Send { target, notification } => {
            assert_eq!(*target, addr(1));
            assert_eq!(notification.content, Content::FindFile { instr: FileInstructions::GET, song_name: "s".to_string() });
        },
        other => panic!("unexpected {:?}", other),
    }
    let exit = command_actions(Command::Exit, &peer);
    assert_eq!(exit[0], Action::Print { text: "You are leaving the network.".to_string() });
    match &exit[1] {
        Action::Send { notification, .. } => assert_eq!(notification.content, Content::ExitPeer { addr: addr(1) }),
        other => panic!("unexpected {:?}", other),
    }
    assert!(command_actions(Command::Help, &peer).is_empty());
    assert_eq!(
        command_actions(Command::Message { text: "x".to_string() }, &peer),
        vec![Action::Print { text: "x".to_string() }]
    );
}

#[test]
fn status_command_asks_the_other_peers() {
    let mut peer = create_peer("alice", Ok(addr(1))).unwrap();
    peer.network_table.insert("bob".to_string(), addr(2));
    let actions = print_existing_files(&peer);
    assert_eq!(actions.len(), 1);
    match &actions[0] {
        Action::SendWatched { target, notification } => {
            assert_eq!(*target, addr(2));
            assert_eq!(notification.content, Content::StatusRequest);
        },
        other => panic!("unexpected {:?}", other),
    }
}

#[test]
fn file_status_lines() {
    let n = "song".to_string();
    assert_eq!(file_status_message(&n, FileStatus::NEW), "New file song saved!");
    assert_eq!(file_status_message(&n, FileStatus::DELETE), "Deleted file song!");
    assert_eq!(file_status_message(&n, FileStatus::DOWNLOAD), "Download file song successfully!");
}

#[test]
fn interface_requests_go_to_the_local_peer() {
    let peer = create_peer("alice", Ok(addr(1))).unwrap();
    match delete_peer(&peer) {
        Action::Send { target, notification } => {
            assert_eq!(target, addr(1));
            assert_eq!(notification.content, Content::ExitPeer { addr: addr(1) });
        },
        other => panic!("unexpected {:?}", other),
    }
    match music_control(None, &peer, MusicState::PAUSE) {
        Action::Send { notification, .. } => {
            assert_eq!(notification.content, Content::PlayAudioRequest { name: None, state: MusicState::PAUSE })
        },
        other => panic!("unexpected {:?}", other),
    }
    match music_request(&peer, &"s".to_string(), FileInstructions::REMOVE) {
        Action::Send { notification, .. } => {
            assert_eq!(notification.content, Content::FindFile { instr: FileInstructions::REMOVE, song_name: "s".to_string() })
        },
        other => panic!("unexpected {:?}", other),
    }
    let up = upload_music(&"s".to_string(), vec![1, 2], addr(1));
    assert_eq!(up, push_music_to_database(&"s".to_string(), vec![1, 2], addr(1)));
    match up {
        Action::SendWatched { target, notification } => {
            assert_eq!(target, addr(1));
            assert_eq!(notification.content, Content::PushToDB { key: "s".to_string(), value: vec![1, 2], from: Some(addr(1)) });
        },
        other => panic!("unexpected {:?}", other),
    }
}

#[test]
fn words_are_split_as_split_whitespace_splits_them() {
    let lines = ["  push  song\ta.mp3 \n", "", "   ", "get\u{3000}x\u{a0}y", "a\u{200b}b", "\u{85}one\u{2029}two\u{1680}"];
    for line in lines {
        let expected: Vec<String> = line.split_whitespace().map(|w| w.to_string()).collect();
        assert_eq!(split_words(line), expected);
    }
    assert_eq!(split_words(" play  song "), words(&["play", "song"]));
}

#[test]
fn white_space_is_the_unicode_property() {
    for n in 0u32..0x3100 {
        if let Some(c) = char::from_u32(n) {
            assert_eq!(char_is_white_space(c), c.is_whitespace(), "{:x}", n);
        }
    }
}
