//! Node kinds and their named ports.
use vstd::prelude::*;

use crate::error::SynthError;

pub mod envelope;
pub mod filter;
pub mod oscillator;
pub mod ramp;

verus! {

/// Named inputs of a node.
#[derive(Clone, Copy, Debug, PartialEq, Eq, Structural)]
pub enum InputType {
    In,
    Gate,
    Detune,
    FilterOffset,
}

/// Named outputs of a node.
#[derive(Clone, Copy, Debug, PartialEq, Eq, Structural)]
pub enum OutputType {
    Out,
    Unused,
}

/// The closed set of node kinds of a voice.
#[derive(Clone, Copy, Debug, PartialEq, Eq, Structural)]
pub enum NodeKind {
    Dummy,
    Envelope,
    Filter,
    Gain,
    Oscillator,
    Ramp,
    RampedOscillator,
    MidiOscillator,
}

/// The inputs each kind takes: a test node and a gain take `In`, an envelope
/// its `Gate`, a filter `In` and `FilterOffset`; generators take none.
pub open spec fn has_input(kind: NodeKind, port: InputType) -> bool {
    match kind {
        NodeKind::Dummy => port == InputType::In,
        NodeKind::Envelope => port == InputType::Gate,
        NodeKind::Filter => port == InputType::In || port == InputType::FilterOffset,
        NodeKind::Gain => port == InputType::In,
        _ => false,
    }
}

/// Every kind has the single output `Out`.
pub open spec fn has_output(kind: NodeKind, port: OutputType) -> bool {
    port == OutputType::Out
}

impl NodeKind {
    pub fn accepts_input(&self, port: InputType) -> (r: bool)
        ensures
            r == has_input(*self, port),
    {
        match self {
            NodeKind::Dummy => matches!(port, InputType::In),
            NodeKind::Envelope => matches!(port, InputType::Gate),
            NodeKind::Filter => matches!(port, InputType::In | InputType::FilterOffset),
            NodeKind::Gain => matches!(port, InputType::In),
            _ => false,
        }
    }

    pub fn provides_output(&self, port: OutputType) -> (r: bool)
        ensures
            r == has_output(*self, port),
    {
        matches!(port, OutputType::Out)
    }

    /// `Ok` when the kind takes `port`, else `PortMismatch`.
    pub fn check_input(&self, port: InputType) -> (r: Result<(), SynthError>)
        ensures
            r is Ok <==> has_input(*self, port),
            r is Err ==> r == Err::<(), SynthError>(SynthError::PortMismatch),
    {
        if self.accepts_input(port) {
            Ok(())
        } else {
            Err(SynthError::PortMismatch)
        }
    }

    /// `Ok` when the kind has output `port`, else `PortMismatch`.
    pub fn check_output(&self, port: OutputType) -> (r: Result<(), SynthError>)
        ensures
            r is Ok <==> has_output(*self, port),
            r is Err ==> r == Err::<(), SynthError>(SynthError::PortMismatch),
    {
        if self.provides_output(port) {
            Ok(())
        } else {
            Err(SynthError::PortMismatch)
        }
    }
}

} // verus!
