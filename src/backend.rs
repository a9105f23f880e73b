//! Decisions of the device adapters, taken on plain values; the devices
//! themselves are driven outside the library.
use vstd::prelude::*;

use crate::error::SynthError;

verus! {

/// Error code with which a non-blocking raw MIDI read reports that nothing
/// was there to read.
pub const NOTHING_TO_READ: i32 = -11;

/// MIDI input through a port of the platform's MIDI service.
pub struct MidirMidiClientBackend {}

impl MidirMidiClientBackend {
    pub fn new() -> (r: MidirMidiClientBackend) {
        MidirMidiClientBackend {  }
    }
}

/// The port to open among `count` available ones: the only one when there is
/// one; when there are several, the one the user chose (`choice`, `None` when
/// the answer was not a number), if it exists. `Backend` otherwise.
pub fn choose_input_port(count: usize, choice: Option<usize>) -> (r: Result<usize, SynthError>)
    ensures
        count == 0 ==> r == Err::<usize, SynthError>(SynthError::Backend),
        count == 1 ==> r == Ok::<usize, SynthError>(0),
        count > 1 ==> r == match choice {
            Some(i) => if i < count {
                Ok::<usize, SynthError>(i)
            } else {
                Err(SynthError::Backend)
            },
            None => Err(SynthError::Backend),
        },
{
    match count {
        0 => Err(SynthError::Backend),
        1 => Ok(0),
        _ => match choice {
            Some(i) => if i < count {
                Ok(i)
            } else {
                Err(SynthError::Backend)
            },
            None => Err(SynthError::Backend),
        },
    }
}

/// The number of bytes a raw MIDI read delivered: its count when it
/// succeeded, none when it found nothing to read, and `Backend` for any other
/// failure (`os_error` is the system's error code, if the failure had one).
pub fn read_outcome(result: Result<usize, Option<i32>>) -> (r: Result<usize, SynthError>)
    ensures
        r == match result {
            Ok(n) => Ok::<usize, SynthError>(n),
            Err(Some(code)) => if code == NOTHING_TO_READ {
                Ok::<usize, SynthError>(0)
            } else {
                Err(SynthError::Backend)
            },
            Err(None) => Err(SynthError::Backend),
        },
{
    match result {
        Ok(n) => Ok(n),
        Err(Some(code)) => if code == NOTHING_TO_READ {
            Ok(0)
        } else {
            Err(SynthError::Backend)
        },
        Err(None) => Err(SynthError::Backend),
    }
}

/// The first `count` bytes of a read buffer, as an owned message.
pub fn received(out: &[u8], count: usize) -> (r: Vec<u8>)
    requires
        count <= out@.len(),
    ensures
        r@ == out@.take(count as int),
{
    let mut buffer: Vec<u8> = Vec::with_capacity(count);
    let mut i: usize = 0;
    while i < count
        invariant
            i <= count,
            count <= out@.len(),
            buffer@ == out@.take(i as int),
        decreases count - i,
    {
        buffer.push(out[i]);
        i = i + 1;
        assert(buffer@ =~= out@.take(i as int));
    }
    buffer
}

} // verus!
