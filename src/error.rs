//! The errors of the remote API and of the store, and how one becomes the other.

use vstd::prelude::*;

verus! {

/// What a call to the remote content API can answer besides success.
#[derive(Debug, Clone, PartialEq, Eq)]
pub enum GitHubServiceError {
    /// Nothing is stored at the requested path.
    NotFound,
    /// A create met a file that is already there (the remote's conflict status).
    AlreadyExists,
    /// Any other failure of the remote API or of the transport, with its message.
    Api(String),
}

/// The errors that the note store reports to its callers.
#[derive(Debug, Clone, PartialEq, Eq)]
pub enum NoteServiceError {
    /// The note to create is already there.
    NoteAlreadyExists,
    /// The note to change or remove is not there.
    NotFound,
    /// The id is empty, has an empty segment or a `..` segment.
    InvalidId,
    /// The remote API failed, with its message.
    RemoteApi(String),
    /// The store was set up with a malformed repository name or without a credential.
    Configuration(String),
    /// An operation was handed a reply that does not answer the request it
    /// is waiting for, or was handed one after it had finished.
    UnexpectedReply,
}

/// How a failed remote call is reported by the store.
pub open spec fn service_error_of(e: GitHubServiceError) -> NoteServiceError {
    match e {
        GitHubServiceError::NotFound => NoteServiceError::NotFound,
        GitHubServiceError::AlreadyExists => NoteServiceError::NoteAlreadyExists,
        GitHubServiceError::Api(s) => NoteServiceError::RemoteApi(s),
    }
}

impl From<GitHubServiceError> for NoteServiceError {
    fn from(e: GitHubServiceError) -> (r: NoteServiceError)
        ensures
            r == service_error_of(e),
    {
        match e {
            GitHubServiceError::NotFound => NoteServiceError::NotFound,
            GitHubServiceError::AlreadyExists => NoteServiceError::NoteAlreadyExists,
            GitHubServiceError::Api(s) => NoteServiceError::RemoteApi(s),
        }
    }
}

impl vstd::std_specs::convert::FromSpecImpl<GitHubServiceError> for NoteServiceError {
    open spec fn obeys_from_spec() -> bool {
        true
    }

    open spec fn from_spec(e: GitHubServiceError) -> NoteServiceError {
        service_error_of(e)
    }
}

/// The error that the desktop command layer hands to its front end.
#[derive(Debug, Clone, PartialEq, Eq)]
pub enum TauriError {
    NoteAlreadyExists,
    NotFound,
    InvalidId,
    UnexpectedReply,
    GitHub(String),
    Anyhow(String),
}

/// How a store error is passed on by the desktop command layer.
pub open spec fn tauri_error_of(e: NoteServiceError) -> TauriError {
    match e {
        NoteServiceError::NoteAlreadyExists => TauriError::NoteAlreadyExists,
        NoteServiceError::NotFound => TauriError::NotFound,
        NoteServiceError::InvalidId => TauriError::InvalidId,
        NoteServiceError::RemoteApi(s) => TauriError::GitHub(s),
        NoteServiceError::Configuration(s) => TauriError::Anyhow(s),
        NoteServiceError::UnexpectedReply => TauriError::UnexpectedReply,
    }
}

impl From<NoteServiceError> for TauriError {
    fn from(e: NoteServiceError) -> (r: TauriError)
        ensures
            r == tauri_error_of(e),
    {
        match e {
            NoteServiceError::NoteAlreadyExists => TauriError::NoteAlreadyExists,
            NoteServiceError::NotFound => TauriError::NotFound,
            NoteServiceError::InvalidId => TauriError::InvalidId,
            NoteServiceError::RemoteApi(s) => TauriError::GitHub(s),
            NoteServiceError::Configuration(s) => TauriError::Anyhow(s),
            NoteServiceError::UnexpectedReply => TauriError::UnexpectedReply,
        }
    }
}

impl vstd::std_specs::convert::FromSpecImpl<NoteServiceError> for TauriError {
    open spec fn obeys_from_spec() -> bool {
        true
    }

    open spec fn from_spec(e: NoteServiceError) -> TauriError {
        tauri_error_of(e)
    }
}

} // verus!
