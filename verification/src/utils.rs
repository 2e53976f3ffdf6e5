//! Small shared types: what a request asks for, what became of a file, what the player does.
use vstd::prelude::*;

verus! {

/// What a peer wants done with a file it asks the network for.
#[allow(non_camel_case_types)]
#[derive(Clone, Copy, Debug, PartialEq, Eq, Structural)]
pub enum FileInstructions {
    PLAY,
    GET,
    ORDER,
    REMOVE,
}

/// What happened to a file in the local database, as reported to the application.
#[allow(non_camel_case_types)]
#[derive(Clone, Copy, Debug, PartialEq, Eq, Structural)]
pub enum FileStatus {
    NEW,
    DELETE,
    DOWNLOAD,
}

/// A command for the music player.
#[allow(non_camel_case_types)]
#[derive(Clone, Copy, Debug, PartialEq, Eq, Structural)]
pub enum MusicState {
    PLAY,
    PAUSE,
    STOP,
    CONTINUE,
}

/// The listener of an application that uses the library. The library reports network and
/// player events as actions (`ShowStatus`, `DatabaseChanged`, `PlayerPlaying`,
/// `PlayerStopped`); the program that carries out the actions calls the matching method.
pub trait AppListener: Send {
    /// A status response came in: `files` are the files of the peer called `name`.
    fn notify_status(&self, files: Vec<String>, name: String);

    /// A file in the local database was added, deleted or downloaded.
    fn local_database_changed(&mut self, name: String, instr: FileStatus);

    /// The player started playing `title` (`None` when streaming).
    fn player_playing(&mut self, title: Option<String>);

    /// The player stopped, with no other song in its queue.
    fn player_stopped(&mut self);
}

} // verus!
