//! Core logic of a push-to-talk dictation tool: the chord engine that turns
//! global key events into activation transitions, the records kept of
//! dictation sessions, and the defaults of the user's preferences.

pub mod db;
pub mod keys;
pub mod prefs;
pub mod traces;
