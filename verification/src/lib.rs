//! Planning and bookkeeping for uploading local files to an HTTP endpoint:
//! how a file's bytes are laid out into requests, how many transfers may
//! run at once, how progress is counted and how a run is summed up.

pub mod chunk;
pub mod chunked;
pub mod cli;
pub mod dispatch;
pub mod envelope;
pub mod headers;
pub mod progress;
pub mod size;
pub mod stats;
pub mod text;
pub mod uploader;
