//! Verified core of a video-archive catalogue: disks, media roots, events and cameras.
pub mod text;
pub mod json;
pub mod folders;
pub mod server;
pub mod cli;
pub mod client;
