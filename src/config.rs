use vstd::prelude::*;

verus! {

/// Samples per second used when no other rate is configured.
pub const SAMPLE_RATE: u32 = 48_000;

/// Samples per processed block.
pub const BUFFER_SIZE: usize = 512;

/// Configuration shared by every node of a voice.
pub struct SynthConfig {
    pub samples_per_second: u32,
}

impl SynthConfig {
    pub fn new(samples_per_second: u32) -> (r: SynthConfig)
        ensures
            r.samples_per_second == samples_per_second,
    {
        SynthConfig { samples_per_second }
    }
}

} // verus!
