//! A clock-synchronised step sequencer: it follows an external pulse, walks
//! through a playlist of note sequences, and encodes each note as MIDI
//! note-on, note-off and pitch-bend messages for chromatic or microtonal scales.

pub mod clock;
pub mod error;
pub mod note;
pub mod sequencer;
pub mod midi;
pub mod config;
pub mod menu;
