//! The decision logic of the Pop!_OS analytics panel: what each view does
//! in answer to each message, which dialog an error leads to, how download
//! progress is counted and how a downloaded archive becomes readable JSON.
//!
//! Every widget, thread and network call stays with the caller, which
//! performs the actions that these functions return.

pub mod components;
