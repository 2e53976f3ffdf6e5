//! MEFF: a peer-to-peer key-value store that shares music files between friends.
//!
//! The library holds the state of one peer (its files, the table of the other peers,
//! the requests it has open) and decides, for every notification that arrives, how that
//! state changes and which messages go out. Sockets, threads, the clock, JSON and audio
//! output belong to the program that embeds it.
pub mod address;
pub mod text_map;
pub mod utils;
pub mod notification;
pub mod database;
pub mod request_table;
pub mod peer;
pub mod action;
pub mod music_exchange;
pub mod handshake;
pub mod network;
pub mod request;
pub mod audio;
pub mod interface;
pub mod shell;
pub mod laws;
