//! Decision logic of a terminal client that downloads server backups from
//! a hosting panel: request building, the keyboard-driven menu, the
//! navigation between the server and backup pickers, and the bookkeeping
//! of a streamed download. Nothing here performs I/O; a driver runs the
//! actions that these state machines hand out and reports back what
//! happened.

pub mod api;
pub mod download;
pub mod failure;
pub mod flow;
pub mod menu;
pub mod records;
pub mod session;
