//! A resumable, parallel file-transfer engine: the policies and state machines
//! that decide how each file of a directory tree is compressed, split into
//! parts, tracked and scheduled, with their contracts proved.

pub mod algorithm;
pub mod copier;
pub mod dir_info;
pub mod dst_path;
pub mod errno;
pub mod errors;
pub mod file_info;
pub mod header;
pub mod manager;
pub mod notifications;
pub mod part;
pub mod parting;
pub mod paths;
pub mod performance;
pub mod progress;
pub mod size;
pub mod splitter;
pub mod text;
pub mod traversal;
pub mod worker;
