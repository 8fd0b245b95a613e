//! The desktop client: what it reads from the server and the geometry and state of its
//! user-interface elements.
pub mod api;
pub mod elements;
pub mod ui;
pub mod rect;
