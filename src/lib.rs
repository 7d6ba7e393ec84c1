//! A playlist manager: playlists are directories under `playlist/`, filled with copies of
//! tracks taken from `music/`, and a track of a playlist can be played to its end.
//!
//! The library holds the decisions: the paths, the menu, and the order of the steps of an
//! import and of a playback with what each outcome leads to. The caller does the file
//! system work, decodes the audio and drives the audio output.

pub mod error;
pub mod laws;
pub mod menu;
pub mod paths;
pub mod session;
