//! The command-line client: what it shows and how it decides between the disks and media
//! roots that the server lists.
pub mod model;
pub mod client;
pub mod scanner;
pub mod display;
pub mod commands;
pub mod replies;
pub mod probe;
pub mod relpath;
pub mod scan_flow;
pub mod roots_flow;
