//! What the library asks the program around it to do after it handled a notification.
use crate::address::SocketAddress;
use crate::notification::{texts, Notification, NotificationView};
use crate::utils::FileStatus;
use vstd::prelude::*;
use vstd::string::*;

verus! {

/// One thing for the program to do.
#[derive(Clone, Debug, PartialEq, Eq)]
pub enum Action {
    /// Connect to `target` and write `notification`; when the connection fails, nothing
    /// more is done.
    Send { target: SocketAddress, notification: Notification },
    /// Connect to `target` and write `notification`; when the connection fails, the peer
    /// reports `target` as lost (see `handle_lost_connection`).
    SendWatched { target: SocketAddress, notification: Notification },
    /// Show `text` to the user.
    Print { text: String },
    /// Tell the user that the peer at `addr` was dropped.
    ReportDroppedPeer { addr: SocketAddress },
    /// Play the song `title`, whose bytes are `data`.
    Play { title: String, data: Vec<u8> },
    /// Pause the player.
    Pause,
    /// Stop the player.
    Stop,
    /// Let a paused player go on.
    Resume,
    /// Show that the peer called `name` stores `files`.
    ShowStatus { files: Vec<String>, name: String },
    /// End the program.
    Exit,
    /// Tell the application's listener that the file `name` of the local database was
    /// stored, deleted or downloaded, as `status` says (`local_database_changed`).
    DatabaseChanged { name: String, status: FileStatus },
    /// Tell the application's listener that the player started playing `title`, `None`
    /// when it plays a file streamed from another peer (`player_playing`). It follows the
    /// `Play` it is about; when that song cannot be played, it is not reported.
    PlayerPlaying { title: Option<String> },
    /// Tell the application's listener that the player stopped (`player_stopped`).
    PlayerStopped,
}

/// The value of an `Action`.
pub enum ActionView {
    Send { target: SocketAddress, notification: NotificationView },
    SendWatched { target: SocketAddress, notification: NotificationView },
    Print { text: Seq<char> },
    ReportDroppedPeer { addr: SocketAddress },
    Play { title: Seq<char>, data: Seq<u8> },
    Pause,
    Stop,
    Resume,
    ShowStatus { files: Seq<Seq<char>>, name: Seq<char> },
    Exit,
    DatabaseChanged { name: Seq<char>, status: FileStatus },
    PlayerPlaying { title: Option<Seq<char>> },
    PlayerStopped,
}

impl View for Action {
    type V = ActionView;

    open spec fn view(&self) -> ActionView {
        match self {
            Action::Send { target, notification } => ActionView::Send {
                target: *target,
                notification: notification@,
            },
            Action::SendWatched { target, notification } => ActionView::SendWatched {
                target: *target,
                notification: notification@,
            },
            Action::Print { text } => ActionView::Print { text: text@ },
            Action::ReportDroppedPeer { addr } => ActionView::ReportDroppedPeer { addr: *addr },
            Action::Play { title, data } => ActionView::Play { title: title@, data: data@ },
            Action::Pause => ActionView::Pause,
            Action::Stop => ActionView::Stop,
            Action::Resume => ActionView::Resume,
            Action::ShowStatus { files, name } => ActionView::ShowStatus {
                files: texts(files@),
                name: name@,
            },
            Action::Exit => ActionView::Exit,
            Action::DatabaseChanged { name, status } => ActionView::DatabaseChanged {
                name: name@,
                status: *status,
            },
            Action::PlayerPlaying { title } => ActionView::PlayerPlaying {
                title: match title {
                    Some(t) => Some(t@),
                    None => None,
                },
            },
            Action::PlayerStopped => ActionView::PlayerStopped,
        }
    }
}

/// The values of a list of actions.
pub open spec fn actions_view(v: Seq<Action>) -> Seq<ActionView> {
    v.map_values(|a: Action| a@)
}

/// The view of a list after one more action was pushed onto it.
pub proof fn lemma_actions_push(v: Seq<Action>, a: Action)
    ensures
        actions_view(v.push(a)) == actions_view(v).push(a@),
{
    assert(actions_view(v.push(a)) =~= actions_view(v).push(a@));
}

/// The text `prefix`, then `middle`, then `suffix`.
pub fn three_part_text(prefix: &str, middle: &String, suffix: &str) -> (s: String)
    ensures
        s@ == prefix@ + middle@ + suffix@,
{
    let mut s = String::from_str(prefix);
    s.append(middle.as_str());
    s.append(suffix);
    s
}

/// An action that tells the listener that the file `name` changed as `status` says.
pub fn database_changed(name: &String, status: FileStatus) -> (a: Action)
    ensures
        a@ == (ActionView::DatabaseChanged { name: name@, status }),
{
    Action::DatabaseChanged { name: name.clone(), status }
}

/// An action that shows `text` to the user.
pub fn print(text: String) -> (a: Action)
    ensures
        a@ == (ActionView::Print { text: text@ }),
{
    Action::Print { text }
}

} // verus!
