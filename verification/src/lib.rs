//! Playback core and typed request parameters for an Audiobookshelf client.
//!
//! The crate holds the decisions of a multi-track audio player: where an
//! absolute position falls among the tracks of a session, which source a
//! track is read from, and how the player reacts to control commands and to
//! the end of the queued buffer. Audio output, network and file access are
//! left to the caller, which performs the actions that the player hands out.

pub mod client;
pub mod errors;
pub mod params;
pub mod player;
pub mod schema;
pub mod source;
pub mod track;
