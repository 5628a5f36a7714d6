//! Chunked, resumable file transfer for a cloud drive: how a file is cut into
//! parts, how each part is retried, and how the download and upload engines
//! move from one request to the next. Around it, what a shell for the drive
//! decides: what a line asks for, where a remote path leads, which names
//! complete a word, and what goes into a login.
//!
//! The library makes no request and touches no file. Its engines decide and
//! their caller acts: the caller performs the action that an engine hands
//! out and reports what came of it.

pub mod complete;
pub mod config;
pub mod download;
pub mod download_proofs;
pub mod error;
pub mod json;
pub mod listing;
pub mod local_path;
pub mod login;
pub mod metadata;
pub mod navigate;
pub mod order;
pub mod plan;
pub mod progress;
pub mod remote_path;
pub mod retry;
pub mod session;
pub mod shell;
pub mod text;
pub mod upload;
pub mod upload_proofs;
