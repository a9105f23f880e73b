//! Verified core of a modular software synthesizer: the MIDI byte-stream
//! decoder, the node port tables and graph wiring, and the integer decisions
//! that drive the signal-processing units.
pub mod backend;
pub mod config;
pub mod error;
pub mod midi;
pub mod node;
pub mod router;
pub mod voice;
pub mod wave;
