//! Navigation/state engine for a terminal front-end that inspects a
//! version-controlled working tree.
//!
//! The crate holds the pure core of the application: the status-line
//! classifier, the screen-and-layer stack manager, the menu dispatcher and
//! the action-executor decision logic.  Rendering and process invocation
//! live outside the library and hand plain strings in and out.

pub mod engine;
pub mod executor;
pub mod menu;
pub mod screen;
pub mod status;
pub mod utils;
