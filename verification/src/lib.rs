//! The decision logic of a terminal dashboard for the Ahenk sync engine.
//!
//! The library holds everything the dashboard computes: which tab a key opens,
//! what a keystroke does to the text being edited, when data has to be loaded
//! again, how database records become table rows, and what every pane of the
//! screen shows. Terminal, database and file access stay with the caller, which
//! performs the returned [`input::Action`]s and hands back plain values.

pub mod app;
pub mod clock;
pub mod config;
pub mod input;
pub mod laws;
pub mod layout;
pub mod peer;
pub mod records;
pub mod screen;
pub mod tab;
pub mod text;
