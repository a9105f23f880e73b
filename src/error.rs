use vstd::prelude::*;

verus! {

/// The failures the synthesizer core reports to its caller.
#[derive(Clone, Copy, Debug, PartialEq, Eq, Structural)]
pub enum SynthError {
    /// A node was given, or asked for, a port that its kind does not have.
    PortMismatch,
    /// A handle names no node of the graph.
    UnknownNode,
    /// The MIDI byte stream holds a message the decoder cannot read; the
    /// stream stays refused until the decoder is reset.
    ProtocolDecode,
    /// An audio or MIDI device failed.
    Backend,
}

} // verus!
