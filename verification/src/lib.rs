//! A terminal music player, split into a verified core and an unverified
//! shell.  The core owns the library listing, the selection cursor, the
//! playback state machine and the view model; the shell performs the actual
//! directory walking, audio output and terminal drawing.

pub mod audio;
pub mod controller;
pub mod order;
pub mod render;
pub mod scan;
pub mod status;
pub mod text;
pub mod track;
