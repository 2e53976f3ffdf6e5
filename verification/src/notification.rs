//! The messages that peers send each other, and their values as spec data.
use crate::address::{RequestId, SocketAddress};
use crate::utils::{FileInstructions, MusicState};
use vstd::prelude::*;
use vstd::string::*;

verus! {

/// The reply to a request that stored or found a file.
#[derive(Clone, Debug, PartialEq, Eq)]
pub enum Message {
    DataStored { key: String },
    DataFound { key: String, value: Vec<u8> },
}

/// A reply and the peer that sent it.
#[derive(Clone, Debug, PartialEq, Eq)]
pub struct Response {
    pub from: SocketAddress,
    pub message: Message,
}

/// One entry of a network table: the name of a peer and its address.
#[derive(Clone, Debug, PartialEq, Eq)]
pub struct NetworkInfo {
    pub name: String,
    pub address: SocketAddress,
}

/// A network table as it travels between peers. On the wire it is JSON text; when the
/// bytes that came in are not text, all that is left of them is `NotText`. Entries whose
/// address did not parse are left out; text that is not a JSON list of entries gives no
/// entries.
#[derive(Clone, Debug, PartialEq, Eq)]
pub enum TablePayload {
    Entries(Vec<NetworkInfo>),
    NotText,
}

/// What a notification asks of the peer that receives it.
#[derive(Clone, Debug, PartialEq, Eq)]
pub enum Content {
    PushToDB { key: String, value: Vec<u8>, from: Option<SocketAddress> },
    RedundantPushToDB { key: String, value: Vec<u8>, from: Option<SocketAddress> },
    Response { from: SocketAddress, message: Message },
    ChangePeerName { value: String },
    SendNetworkTable { table: TablePayload },
    SendNetworkUpdateTable { table: TablePayload },
    RequestForTable { value: String },
    FindFile { instr: FileInstructions, song_name: String },
    GetFile { instr: FileInstructions, key: String },
    GetFileResponse { instr: FileInstructions, key: String, value: Vec<u8> },
    ExistFile { song_name: String, id: RequestId },
    ExitPeer { addr: SocketAddress },
    DeleteFromNetwork { name: String },
    ExistFileResponse { song_name: String, id: RequestId },
    StatusRequest,
    SelfStatusRequest,
    StatusResponse { files: Vec<String>, name: String },
    PlayAudioRequest { name: Option<String>, state: MusicState },
    DroppedPeer { addr: SocketAddress },
    Heartbeat,
    OrderSongRequest { song_name: String },
    DeleteFileRequest { song_name: String },
}

/// A message between peers: what it asks, and the address it claims to come from.
#[derive(Clone, Debug, PartialEq, Eq)]
pub struct Notification {
    pub content: Content,
    pub from: SocketAddress,
}

/// A request to store a file, as an older version of the protocol wrote it.
#[derive(Clone, Debug, PartialEq, Eq)]
pub struct SendRequest {
    pub value: Vec<u8>,
    pub from: String,
    pub key: String,
    pub action: String,
}

/// What `{:?}` writes for the text `s`: the text in quotes, with special characters
/// escaped.
pub uninterp spec fn debug_text(s: Seq<char>) -> Seq<char>;

/// What `{:?}` writes for the bytes `v`: the numbers in square brackets.
pub uninterp spec fn debug_bytes(v: Seq<u8>) -> Seq<char>;

/// The text that `<str as Debug>::fmt` writes for `s`. The contract claims only that it
/// depends on `s` alone; the escaping rules, which std leaves unstable, stay behind the
/// name `debug_text`.
#[verifier::external_body]
fn debug_of_text(s: &str) -> (t: String)
    ensures
        t@ == debug_text(s@),
{
    format!("{:?}", s)
}

/// The text that `<Vec<u8> as Debug>::fmt` writes for `v`. The contract claims only that
/// it depends on `v` alone, behind the name `debug_bytes`.
#[verifier::external_body]
fn debug_of_bytes(v: &Vec<u8>) -> (t: String)
    ensures
        t@ == debug_bytes(v@),
{
    format!("{:?}", v)
}

impl SendRequest {
    /// The request as text: its key, its bytes and its action.
    pub fn text(&self) -> (t: String)
        ensures
            t@ == "\"key\": \""@ + debug_text(self.key@) + "\", \"value\": \""@ + debug_bytes(self.value@)
                + "\", \"action\": "@ + debug_text(self.action@),
    {
        let mut t = String::from_str("\"key\": \"");
        let k = debug_of_text(self.key.as_str());
        t.append(k.as_str());
        t.append("\", \"value\": \"");
        let v = debug_of_bytes(&self.value);
        t.append(v.as_str());
        t.append("\", \"action\": ");
        let a = debug_of_text(self.action.as_str());
        t.append(a.as_str());
        t
    }
}

/// The value of a `Message`.
pub enum MessageView {
    DataStored { key: Seq<char> },
    DataFound { key: Seq<char>, value: Seq<u8> },
}

/// The value of a `TablePayload`: each entry as its name and its address.
pub enum TablePayloadView {
    Entries(Seq<(Seq<char>, SocketAddress)>),
    NotText,
}

/// The value of a `Content`.
pub enum ContentView {
    PushToDB { key: Seq<char>, value: Seq<u8>, from: Option<SocketAddress> },
    RedundantPushToDB { key: Seq<char>, value: Seq<u8>, from: Option<SocketAddress> },
    Response { from: SocketAddress, message: MessageView },
    ChangePeerName { value: Seq<char> },
    SendNetworkTable { table: TablePayloadView },
    SendNetworkUpdateTable { table: TablePayloadView },
    RequestForTable { value: Seq<char> },
    FindFile { instr: FileInstructions, song_name: Seq<char> },
    GetFile { instr: FileInstructions, key: Seq<char> },
    GetFileResponse { instr: FileInstructions, key: Seq<char>, value: Seq<u8> },
    ExistFile { song_name: Seq<char>, id: RequestId },
    ExitPeer { addr: SocketAddress },
    DeleteFromNetwork { name: Seq<char> },
    ExistFileResponse { song_name: Seq<char>, id: RequestId },
    StatusRequest,
    SelfStatusRequest,
    StatusResponse { files: Seq<Seq<char>>, name: Seq<char> },
    PlayAudioRequest { name: Option<Seq<char>>, state: MusicState },
    DroppedPeer { addr: SocketAddress },
    Heartbeat,
    OrderSongRequest { song_name: Seq<char> },
    DeleteFileRequest { song_name: Seq<char> },
}

/// The value of a `Notification`.
pub struct NotificationView {
    pub content: ContentView,
    pub from: SocketAddress,
}

/// The texts of a list of strings.
pub open spec fn texts(v: Seq<String>) -> Seq<Seq<char>> {
    v.map_values(|s: String| s@)
}

/// The entries of a list of network infos.
pub open spec fn infos_view(v: Seq<NetworkInfo>) -> Seq<(Seq<char>, SocketAddress)> {
    v.map_values(|i: NetworkInfo| (i.name@, i.address))
}

impl View for Message {
    type V = MessageView;

    open spec fn view(&self) -> MessageView {
        match self {
            Message::DataStored { key } => MessageView::DataStored { key: key@ },
            Message::DataFound { key, value } => MessageView::DataFound { key: key@, value: value@ },
        }
    }
}

impl View for TablePayload {
    type V = TablePayloadView;

    open spec fn view(&self) -> TablePayloadView {
        match self {
            TablePayload::Entries(v) => TablePayloadView::Entries(infos_view(v@)),
            TablePayload::NotText => TablePayloadView::NotText,
        }
    }
}

impl View for Content {
    type V = ContentView;

    open spec fn view(&self) -> ContentView {
        match self {
            Content::PushToDB { key, value, from } => ContentView::PushToDB {
                key: key@,
                value: value@,
                from: *from,
            },
            Content::RedundantPushToDB { key, value, from } => ContentView::RedundantPushToDB {
                key: key@,
                value: value@,
                from: *from,
            },
            Content::Response { from, message } => ContentView::Response {
                from: *from,
                message: message@,
            },
            Content::ChangePeerName { value } => ContentView::ChangePeerName { value: value@ },
            Content::SendNetworkTable { table } => ContentView::SendNetworkTable { table: table@ },
            Content::SendNetworkUpdateTable { table } => ContentView::SendNetworkUpdateTable {
                table: table@,
            },
            Content::RequestForTable { value } => ContentView::RequestForTable { value: value@ },
            Content::FindFile { instr, song_name } => ContentView::FindFile {
                instr: *instr,
                song_name: song_name@,
            },
            Content::GetFile { instr, key } => ContentView::GetFile { instr: *instr, key: key@ },
            Content::GetFileResponse { instr, key, value } => ContentView::GetFileResponse {
                instr: *instr,
                key: key@,
                value: value@,
            },
            Content::ExistFile { song_name, id } => ContentView::ExistFile {
                song_name: song_name@,
                id: *id,
            },
            Content::ExitPeer { addr } => ContentView::ExitPeer { addr: *addr },
            Content::DeleteFromNetwork { name } => ContentView::DeleteFromNetwork { name: name@ },
            Content::ExistFileResponse { song_name, id } => ContentView::ExistFileResponse {
                song_name: song_name@,
                id: *id,
            },
            Content::StatusRequest => ContentView::StatusRequest,
            Content::SelfStatusRequest => ContentView::SelfStatusRequest,
            Content::StatusResponse { files, name } => ContentView::StatusResponse {
                files: texts(files@),
                name: name@,
            },
            Content::PlayAudioRequest { name, state } => ContentView::PlayAudioRequest {
                name: match name {
                    Some(n) => Some(n@),
                    None => None,
                },
                state: *state,
            },
            Content::DroppedPeer { addr } => ContentView::DroppedPeer { addr: *addr },
            Content::Heartbeat => ContentView::Heartbeat,
            Content::OrderSongRequest { song_name } => ContentView::OrderSongRequest {
                song_name: song_name@,
            },
            Content::DeleteFileRequest { song_name } => ContentView::DeleteFileRequest {
                song_name: song_name@,
            },
        }
    }
}

impl View for Notification {
    type V = NotificationView;

    open spec fn view(&self) -> NotificationView {
        NotificationView { content: self.content@, from: self.from }
    }
}

} // verus!
