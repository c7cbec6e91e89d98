//! A terminal music player's core: the queue reducer, the playback
//! engine's state machine, the application model and the decisions of the
//! front end, with the text it shows.

pub mod app;
pub mod audio;
pub mod config;
pub mod library;
pub mod mpris;
pub mod runtime;
pub mod text;
pub mod ui;
