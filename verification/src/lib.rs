//! Keeps disconnected clones of a repository aware of each other's work on
//! files that cannot be merged: every clone mirrors its branches into a shared
//! repository under a namespace of its own, and asks before a commit whether
//! another namespace holds a newer change to the same file.

pub mod text;
pub mod shared;
pub mod laws;
pub mod git;
pub mod host;
pub mod server;
pub mod client;
pub mod hooks;
pub mod installer;
