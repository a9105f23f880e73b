use vstd::prelude::*;

verus! {

/// Waveforms an oscillator can play.
#[derive(Clone, Copy, Debug, PartialEq, Eq, Structural)]
pub enum Waveform {
    Sine,
    Triangle,
    Sawtooth,
    Square,
}

} // verus!
