//! Core of a terminal directory of remote-host connection profiles.
//!
//! The verified library holds the data model, the JSON-store sequence
//! semantics, the selection-list navigation, the record editor, the
//! session command builders and the top-level input dispatcher.  The
//! unverified shell around it does the drawing, the file reads and
//! writes, and the process spawning.

pub mod controller;
pub mod editor;
pub mod list;
pub mod model;
pub mod session;
pub mod store;
pub mod text;
