//! The graph of a voice: an arena of nodes addressed by integer handles, each
//! holding its output value and, per named input, the handle of the node that
//! feeds it. Values cross nodes by copy only.
use vstd::prelude::*;

use crate::error::SynthError;
use crate::node::{has_input, has_output, InputType, NodeKind, OutputType};

verus! {

/// For each named input of a node, the handle of the node whose output feeds
/// it, if any.
#[derive(Clone, Copy, Debug)]
pub struct Inputs {
    pub input: Option<usize>,
    pub gate: Option<usize>,
    pub detune: Option<usize>,
    pub filter_offset: Option<usize>,
}

/// One node of the arena: its kind, its output value and its connections.
pub struct Slot<T> {
    pub kind: NodeKind,
    pub output: T,
    pub inputs: Inputs,
}

pub open spec fn source(inputs: Inputs, port: InputType) -> Option<usize> {
    match port {
        InputType::In => inputs.input,
        InputType::Gate => inputs.gate,
        InputType::Detune => inputs.detune,
        InputType::FilterOffset => inputs.filter_offset,
    }
}

pub open spec fn no_inputs() -> Inputs {
    Inputs { input: None, gate: None, detune: None, filter_offset: None }
}

pub open spec fn with_source(inputs: Inputs, port: InputType, from: usize) -> Inputs {
    match port {
        InputType::In => Inputs { input: Some(from), ..inputs },
        InputType::Gate => Inputs { gate: Some(from), ..inputs },
        InputType::Detune => Inputs { detune: Some(from), ..inputs },
        InputType::FilterOffset => Inputs { filter_offset: Some(from), ..inputs },
    }
}

/// The graph with input `port` of node `to` fed from node `from`, replacing
/// any earlier connection of that input.
pub open spec fn wire<T>(g: Seq<Slot<T>>, from: usize, to: int, port: InputType) -> Seq<Slot<T>> {
    g.update(
        to,
        Slot { kind: g[to].kind, output: g[to].output, inputs: with_source(g[to].inputs, port, from) },
    )
}

/// The graph with `value` as the output of node `node`.
pub open spec fn with_output<T>(g: Seq<Slot<T>>, node: int, value: T) -> Seq<Slot<T>> {
    g.update(node, Slot { kind: g[node].kind, output: value, inputs: g[node].inputs })
}

/// What input `port` of node `node` reads: the output of the node feeding it,
/// or nothing when it is not connected.
pub open spec fn input_value<T>(g: Seq<Slot<T>>, node: int, port: InputType) -> Option<T> {
    match source(g[node].inputs, port) {
        Some(from) => if from < g.len() {
            Some(g[from as int].output)
        } else {
            None
        },
        None => None,
    }
}

/// The failure, if any, of an operation on port `port` of node `node`.
pub open spec fn input_error<T>(g: Seq<Slot<T>>, node: int, port: InputType) -> Option<SynthError> {
    if !(0 <= node < g.len()) {
        Some(SynthError::UnknownNode)
    } else if !has_input(g[node].kind, port) {
        Some(SynthError::PortMismatch)
    } else {
        None
    }
}

pub open spec fn output_error<T>(g: Seq<Slot<T>>, node: int, port: OutputType) -> Option<SynthError> {
    if !(0 <= node < g.len()) {
        Some(SynthError::UnknownNode)
    } else if !has_output(g[node].kind, port) {
        Some(SynthError::PortMismatch)
    } else {
        None
    }
}

/// Wiring fidelity: once an output is connected to an input, a value written
/// to that output is read back, unchanged, through the input.
pub proof fn lemma_wiring_fidelity<T>(
    g: Seq<Slot<T>>,
    from: usize,
    to: usize,
    port: InputType,
    value: T,
)
    requires
        from < g.len(),
        to < g.len(),
    ensures
        input_value(with_output(wire(g, from, to as int, port), from as int, value), to as int, port)
            == Some(value),
{
}

/// Writing an output leaves every input that it does not feed as it reads.
pub proof fn lemma_write_is_local<T>(g: Seq<Slot<T>>, from: int, to: int, port: InputType, value: T)
    requires
        0 <= from < g.len(),
        0 <= to < g.len(),
        source(g[to].inputs, port) != Some(from as usize),
    ensures
        input_value(with_output(g, from, value), to, port) == input_value(g, to, port),
{
}

/// The node graph of a voice.
pub struct Router<T> {
    nodes: Vec<Slot<T>>,
}

impl<T> View for Router<T> {
    type V = Seq<Slot<T>>;

    closed spec fn view(&self) -> Seq<Slot<T>> {
        self.nodes@
    }
}

impl<T: Copy> Router<T> {
    pub fn new() -> (r: Router<T>)
        ensures
            r@ == Seq::<Slot<T>>::empty(),
    {
        Router { nodes: Vec::new() }
    }

    /// Number of nodes; handles run from zero below it.
    pub fn len(&self) -> (r: usize)
        ensures
            r == self@.len(),
    {
        self.nodes.len()
    }

    /// Adds an unconnected node with output `initial`; returns its handle.
    pub fn add_node(&mut self, kind: NodeKind, initial: T) -> (r: usize)
        requires
            old(self)@.len() < usize::MAX,
        ensures
            r == old(self)@.len(),
            final(self)@ == old(self)@.push(Slot { kind, output: initial, inputs: no_inputs() }),
    {
        let r = self.nodes.len();
        let inputs = Inputs { input: None, gate: None, detune: None, filter_offset: None };
        self.nodes.push(Slot { kind, output: initial, inputs });
        r
    }

    /// Feeds input `to_port` of node `to` from output `from_port` of node
    /// `from`. Fails with `UnknownNode` when a handle names no node, and with
    /// `PortMismatch` when a kind lacks its port; the graph is then unchanged.
    pub fn connect(&mut self, from: usize, from_port: OutputType, to: usize, to_port: InputType) -> (r:
        Result<(), SynthError>)
        ensures
            ({
                let err = if output_error(old(self)@, from as int, from_port) is Some {
                    output_error(old(self)@, from as int, from_port)
                } else {
                    input_error(old(self)@, to as int, to_port)
                };
                &&& err is Some ==> r == Err::<(), SynthError>(err.unwrap()) && final(self)@ == old(self)@
                &&& err is None ==> r is Ok && final(self)@ == wire(old(self)@, from, to as int, to_port)
            }),
    {
        if from >= self.nodes.len() || to >= self.nodes.len() {
            if from >= self.nodes.len() {
                return Err(SynthError::UnknownNode);
            }
            if !self.nodes[from].kind.provides_output(from_port) {
                return Err(SynthError::PortMismatch);
            }
            return Err(SynthError::UnknownNode);
        }
        if !self.nodes[from].kind.provides_output(from_port) || !self.nodes[to].kind.accepts_input(
            to_port,
        ) {
            return Err(SynthError::PortMismatch);
        }
        let kind = self.nodes[to].kind;
        let output = self.nodes[to].output;
        let old_inputs = self.nodes[to].inputs;
        let inputs = match to_port {
            InputType::In => Inputs { input: Some(from), ..old_inputs },
            InputType::Gate => Inputs { gate: Some(from), ..old_inputs },
            InputType::Detune => Inputs { detune: Some(from), ..old_inputs },
            InputType::FilterOffset => Inputs { filter_offset: Some(from), ..old_inputs },
        };
        self.nodes.set(to, Slot { kind, output, inputs });
        Ok(())
    }

    /// Writes output `port` of node `node`.
    pub fn set_output(&mut self, node: usize, port: OutputType, value: T) -> (r: Result<(), SynthError>)
        ensures
            ({
                let err = output_error(old(self)@, node as int, port);
                &&& err is Some ==> r == Err::<(), SynthError>(err.unwrap()) && final(self)@ == old(self)@
                &&& err is None ==> r is Ok && final(self)@ == with_output(old(self)@, node as int, value)
            }),
    {
        if node >= self.nodes.len() {
            return Err(SynthError::UnknownNode);
        }
        if !self.nodes[node].kind.provides_output(port) {
            return Err(SynthError::PortMismatch);
        }
        let kind = self.nodes[node].kind;
        let inputs = self.nodes[node].inputs;
        self.nodes.set(node, Slot { kind, output: value, inputs });
        Ok(())
    }

    /// Reads output `port` of node `node`.
    pub fn get_output(&self, node: usize, port: OutputType) -> (r: Result<T, SynthError>)
        ensures
            ({
                let err = output_error(self@, node as int, port);
                &&& err is Some ==> r == Err::<T, SynthError>(err.unwrap())
                &&& err is None ==> r == Ok::<T, SynthError>(self@[node as int].output)
            }),
    {
        if node >= self.nodes.len() {
            return Err(SynthError::UnknownNode);
        }
        if !self.nodes[node].kind.provides_output(port) {
            return Err(SynthError::PortMismatch);
        }
        Ok(self.nodes[node].output)
    }

    /// Reads input `port` of node `node` through its connection: `Ok(None)`
    /// when nothing feeds it.
    pub fn read_input(&self, node: usize, port: InputType) -> (r: Result<Option<T>, SynthError>)
        ensures
            ({
                let err = input_error(self@, node as int, port);
                &&& err is Some ==> r == Err::<Option<T>, SynthError>(err.unwrap())
                &&& err is None ==> r == Ok::<Option<T>, SynthError>(input_value(self@, node as int, port))
            }),
    {
        if node >= self.nodes.len() {
            return Err(SynthError::UnknownNode);
        }
        if !self.nodes[node].kind.accepts_input(port) {
            return Err(SynthError::PortMismatch);
        }
        let inputs = self.nodes[node].inputs;
        let from = match port {
            InputType::In => inputs.input,
            InputType::Gate => inputs.gate,
            InputType::Detune => inputs.detune,
            InputType::FilterOffset => inputs.filter_offset,
        };
        match from {
            Some(f) => if f < self.nodes.len() {
                Ok(Some(self.nodes[f].output))
            } else {
                Ok(None)
            },
            None => Ok(None),
        }
    }
}

} // verus!
