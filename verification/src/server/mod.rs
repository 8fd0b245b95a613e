//! The catalogue server: its records, its decisions on requests and its disk bookkeeping.
pub mod ids;
pub mod paths;
pub mod state;
pub mod model;
pub mod disks;
pub mod api;
pub mod records;
pub mod migrations;
pub mod scanner;
pub mod marker;
