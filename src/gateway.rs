//! The remote calls that the store asks for, and the replies it is handed.

use vstd::prelude::*;

use crate::error::GitHubServiceError;
use crate::tree::TreeEntry;

verus! {

/// Whether a repository item is a file or a directory.
#[derive(Debug, Clone, Copy, PartialEq, Eq, Structural)]
pub enum ItemKind {
    File,
    Dir,
}

/// One item that the remote content API returned for a path: the file
/// itself, or one entry of the directory at that path.
pub struct ContentItem {
    pub path: String,
    pub name: String,
    pub kind: ItemKind,
    /// The revision tag that an update or a delete of the file must quote.
    pub sha: String,
    /// The decoded body of a file, where the API returned one.
    pub body: Option<String>,
}

/// A remote call that an operation of the store asks its caller to make.
pub enum Request {
    /// Whether anything (a file or a directory) is stored at the path.
    CheckExists { path: String },
    /// The items at the path.
    Read { path: String },
    /// The whole tree below the directory, each level listed after the one
    /// above it.
    List { path: String },
    /// Create the file, in one commit with the given message.
    CreateFile { path: String, message: String, content: String },
    /// Replace the file's body, quoting its revision tag.
    UpdateFile { path: String, message: String, content: String, sha: String },
    /// Remove the file, quoting its revision tag.
    DeleteFile { path: String, message: String, sha: String },
}

/// What the caller hands back once it has made the call.
pub enum Reply {
    /// The answer to `CheckExists`.
    Exists(bool),
    /// The answer to `Read`.
    Items(Vec<ContentItem>),
    /// A create, an update or a delete succeeded.
    Written,
    /// The answer to `List`.
    Tree(Vec<TreeEntry>),
    /// The call failed.
    Failed(GitHubServiceError),
}

} // verus!
