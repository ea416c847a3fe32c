//! A note store kept in a remote Git repository: notes are files under
//! `notes/`, folders are directories, and every change is a commit.
//!
//! The library holds the decisions of the store (addressing, the plan of
//! directory markers, the steps of each operation, the shape of the note
//! tree); the caller performs the remote calls that those steps ask for.
pub mod config;
pub mod error;
pub mod gateway;
pub mod model;
pub mod store;
pub mod path;
pub mod tree;
mod text;
