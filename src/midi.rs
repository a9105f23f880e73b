//! MIDI wire messages and their streaming decoder.
pub mod messages;
pub mod parse;
