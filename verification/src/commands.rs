//! Owned descriptions of commands and playlist entries that a caller hands
//! to the command-dispatch collaborator.

use vstd::prelude::*;

verus! {

/// How a `File` is inserted into the playlist.
#[derive(Clone, Copy, Debug, PartialEq, Eq, Structural)]
pub enum FileState {
    /// Replace the current track.
    Replace,
    /// Append to the current playlist.
    Append,
    /// If current playlist is empty: play, otherwise append to playlist.
    AppendPlay,
}

impl FileState {
    /// The keyword the native load command expects for this state.
    pub open spec fn val_spec(self) -> Seq<char> {
        match self {
            FileState::Replace => "replace"@,
            FileState::Append => "append"@,
            FileState::AppendPlay => "append-play"@,
        }
    }

    pub fn val(&self) -> (r: &'static str)
        ensures
            r@ == self.val_spec(),
    {
        match *self {
            FileState::Replace => "replace",
            FileState::Append => "append",
            FileState::AppendPlay => "append-play",
        }
    }
}

/// A command that can be executed by the native library: a name and its
/// arguments, owned so nothing borrowed crosses the call boundary.
#[derive(Clone, Debug)]
pub struct Command {
    pub name: String,
    pub args: Vec<String>,
}

impl Command {
    /// Create a new `Command`.
    pub fn new(name: String, args: Vec<String>) -> (r: Command)
        ensures
            r.name == name,
            r.args == args,
    {
        Command { name, args }
    }
}

/// Data needed to load one file into the playlist.
#[derive(Clone, Debug)]
pub struct File {
    pub path: String,
    pub state: FileState,
    pub options: Option<String>,
}

impl File {
    /// Create a new `File`.
    pub fn new(path: String, state: FileState, opts: Option<String>) -> (r: File)
        ensures
            r.path == path,
            r.state == state,
            r.options == opts,
    {
        File { path, state, options: opts }
    }
}

} // verus!
