//! What each command of the tool is asked to do, and what it decides before
//! it touches the network or the disk.

pub mod download;
pub mod download_stash;
pub mod login;
pub mod search;
