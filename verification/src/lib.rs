//! The home screen of a node launchpad: what it remembers, how it reacts to the
//! actions sent to it, and what it puts on the screen.
//!
//! Nothing here reads the node registry, starts a node or touches a terminal.
//! The component decides; a caller carries the decisions out and reports back.

pub mod action;
pub mod carried;
pub mod drawing_laws;
pub mod home;
pub mod laws;
pub mod layout;
pub mod mode;
pub mod node;
pub mod node_laws;
pub mod resource_allocation;
pub mod screen;
pub mod state;
pub mod stats;
pub mod table;
pub mod task;
