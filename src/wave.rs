//! Index arithmetic of wavetable synthesis: which tables and which samples an
//! oscillator reads, and how many harmonics a band-limited table holds.
use vstd::prelude::*;

verus! {

/// The pair of octave tables to blend: the one at the given octave, or the
/// highest when the octave is beyond the bank, and the one above it, or the
/// same when there is none above.
pub fn table_pair(octave: usize, steps: usize) -> (r: (usize, usize))
    requires
        steps > 0,
    ensures
        r.0 == if octave < steps { octave } else { (steps - 1) as usize },
        r.1 == if r.0 + 1 < steps { (r.0 + 1) as usize } else { r.0 },
        r.0 < steps,
        r.1 < steps,
{
    let lower = if octave < steps { octave } else { steps - 1 };
    let upper = if lower + 1 < steps { lower + 1 } else { lower };
    (lower, upper)
}

/// The two neighbouring samples to interpolate between; the index wraps
/// around the table's length, as the cycle does.
pub fn sample_pair(index: usize, len: usize) -> (r: (usize, usize))
    requires
        len > 0,
    ensures
        r.0 == index % len,
        r.1 == (index as int + 1) % (len as int),
{
    let lower = index % len;
    let upper = if lower + 1 < len { lower + 1 } else { 0 };
    proof {
        let i = index as int;
        let l = len as int;
        vstd::arithmetic::div_mod::lemma_mod_bound(i, l);
        vstd::arithmetic::div_mod::lemma_add_mod_noop_right(1, i, l);
        if lower + 1 < len {
            vstd::arithmetic::div_mod::lemma_small_mod((i % l + 1) as nat, l as nat);
        } else {
            vstd::arithmetic::div_mod::lemma_mod_self_0(l);
        }
    }
    (lower, upper)
}

/// The most harmonics of a fundamental `frequency` (in Hz) that stay under the
/// Nyquist frequency of `samples_per_second`: the largest `n` with
/// `n * frequency < samples_per_second / 2`.
pub fn harmonic_count(frequency: u32, samples_per_second: u32) -> (r: u32)
    requires
        frequency > 0,
        samples_per_second > 0,
    ensures
        2 * (r as int) * (frequency as int) < samples_per_second as int,
        2 * (r as int + 1) * (frequency as int) >= samples_per_second as int,
{
    let half = (samples_per_second - 1) / 2;
    let r = half / frequency;
    proof {
        let h = half as int;
        let f = frequency as int;
        vstd::arithmetic::div_mod::lemma_fundamental_div_mod(h, f);
        vstd::arithmetic::div_mod::lemma_mod_bound(h, f);
        let q = r as int;
        assert(q * f <= h) by (nonlinear_arith)
            requires
                h == f * q + h % f,
                0 <= h % f,
        ;
        assert(h < (q + 1) * f) by (nonlinear_arith)
            requires
                h == f * q + h % f,
                h % f < f,
        ;
        assert(2 * q * f < samples_per_second as int) by (nonlinear_arith)
            requires
                q * f <= h,
                2 * h <= samples_per_second as int - 1,
        ;
        assert(2 * (q + 1) * f >= samples_per_second as int) by (nonlinear_arith)
            requires
                h < (q + 1) * f,
                2 * h >= samples_per_second as int - 2,
        ;
    }
    r
}

} // verus!
