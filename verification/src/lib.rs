//! A small library for a Thai-alphabet flashcard program.
//!
//! The library holds the logic core: the letter records and their
//! invariant, the static catalog, the navigation cursor, the view
//! composition for the three display regions, and the rule that derives
//! the audio resource name for a letter. A shell (GUI or CLI) around the
//! library owns the event loop, the widgets and the audio device.

pub mod catalog;
pub mod letter;
pub mod nav;
pub mod view;
