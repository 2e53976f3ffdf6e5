//! The messages with which peers find, fetch, order and delete files.
use crate::action::{Action, ActionView};
use crate::address::{RequestId, SocketAddress};
use crate::notification::{Content, ContentView, Notification, NotificationView};
use crate::utils::FileInstructions;
use vstd::prelude::*;

verus! {

/// The action of sending `content` from `from` to `target`, with failures ignored.
pub open spec fn plain_send(target: SocketAddress, from: SocketAddress, content: ContentView) -> ActionView {
    ActionView::Send { target, notification: NotificationView { content, from } }
}

/// Asks `target` whether it stores the file `name`; `id` names the request.
pub fn read_file_exist(target: SocketAddress, from: SocketAddress, name: &String, id: RequestId) -> (a: Action)
    ensures
        a@ == plain_send(target, from, ContentView::ExistFile { song_name: name@, id }),
{
    let not = Notification { content: Content::ExistFile { song_name: name.clone(), id }, from };
    Action::Send { target, notification: not }
}

/// Tells `target` that this peer stores the file `name` it asked for in request `id`.
pub fn send_exist_response(target: SocketAddress, from: SocketAddress, name: &String, id: RequestId) -> (a: Action)
    ensures
        a@ == plain_send(target, from, ContentView::ExistFileResponse { song_name: name@, id }),
{
    let not = Notification {
        content: Content::ExistFileResponse { song_name: name.clone(), id },
        from,
    };
    Action::Send { target, notification: not }
}

/// Asks `target` for the file `name`, to be used as `instr` says.
pub fn send_file_request(target: SocketAddress, from: SocketAddress, name: &String, instr: FileInstructions) -> (a: Action)
    ensures
        a@ == plain_send(target, from, ContentView::GetFile { instr, key: name@ }),
{
    let not = Notification { content: Content::GetFile { instr, key: name.clone() }, from };
    Action::Send { target, notification: not }
}

/// Sends `target` the file `key` with its bytes `value`, for the use `instr` says.
pub fn send_get_file_reponse(
    target: SocketAddress,
    from: SocketAddress,
    key: &String,
    value: Vec<u8>,
    instr: FileInstructions,
) -> (a: Action)
    ensures
        a@ == plain_send(
            target,
            from,
            ContentView::GetFileResponse { instr, key: key@, value: value@ },
        ),
{
    let not = Notification {
        content: Content::GetFileResponse { instr, key: key.clone(), value },
        from,
    };
    Action::Send { target, notification: not }
}

/// Asks `target` to fetch and store the file `song_name`.
pub fn song_order_request(target: SocketAddress, from: SocketAddress, song_name: String) -> (a: Action)
    ensures
        a@ == plain_send(target, from, ContentView::OrderSongRequest { song_name: song_name@ }),
{
    let not = Notification { content: Content::OrderSongRequest { song_name }, from };
    Action::Send { target, notification: not }
}

/// Asks `target` to delete its copy of the file `song_name`.
pub fn delete_redundant_song_request(target: SocketAddress, from: SocketAddress, song_name: &String) -> (a: Action)
    ensures
        a@ == plain_send(target, from, ContentView::DeleteFileRequest { song_name: song_name@ }),
{
    let not = Notification {
        content: Content::DeleteFileRequest { song_name: song_name.clone() },
        from,
    };
    Action::Send { target, notification: not }
}

} // verus!
