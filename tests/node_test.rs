use engine::config::{SynthConfig, SAMPLE_RATE};
use engine::error::SynthError;
use engine::node::envelope::{EnvelopeAction, EnvelopeState};
use engine::node::{InputType, NodeKind, OutputType};
use engine::wave::{harmonic_count, sample_pair, table_pair};

#[test]
fn it_works() {
    assert_eq!(2 + 2, 4);
}

#[test]
fn config_keeps_sample_rate() {
    let config = SynthConfig::new(SAMPLE_RATE);
    assert_eq!(config.samples_per_second, 48_000);
}

#[test]
fn port_tables() {
    assert_eq!(NodeKind::Envelope.check_input(InputType::Gate), Ok(()));
    assert_eq!(NodeKind::Envelope.check_input(InputType::In), Err(SynthError::PortMismatch));
    assert_eq!(NodeKind::Filter.check_input(InputType::FilterOffset), Ok(()));
    assert_eq!(NodeKind::Filter.check_input(InputType::Detune), Err(SynthError::PortMismatch));
    assert_eq!(NodeKind::Gain.check_input(InputType::In), Ok(()));
    assert_eq!(NodeKind::Ramp.check_input(InputType::In), Err(SynthError::PortMismatch));
    assert_eq!(NodeKind::Oscillator.check_output(OutputType::Out), Ok(()));
    assert_eq!(NodeKind::Oscillator.check_output(OutputType::Unused), Err(SynthError::PortMismatch));
}

#[test]
fn envelope_runs_attack_decay_sustain() {
    let s = EnvelopeState::Attacking;
    assert_eq!(s.action(true), EnvelopeAction::Attack);
    assert_eq!(s.next(true, false), EnvelopeState::Attacking);
    assert_eq!(s.next(true, true), EnvelopeState::Decaying);
    let s = EnvelopeState::Decaying;
    assert_eq!(s.action(true), EnvelopeAction::Decay);
    assert_eq!(s.next(true, true), EnvelopeState::Sustaining);
    let s = EnvelopeState::Sustaining;
    assert_eq!(s.action(true), EnvelopeAction::Sustain);
    assert_eq!(s.next(true, true), EnvelopeState::Sustaining);
}

#[test]
fn envelope_release_and_reengage() {
    for s in [EnvelopeState::Attacking, EnvelopeState::Decaying, EnvelopeState::Sustaining] {
        assert_eq!(s.action(false), EnvelopeAction::Anchor);
        assert_eq!(s.next(false, true), EnvelopeState::Releasing);
    }
    let s = EnvelopeState::Releasing;
    assert_eq!(s.action(false), EnvelopeAction::Release);
    assert_eq!(s.next(false, false), EnvelopeState::Releasing);
    assert_eq!(s.action(true), EnvelopeAction::Anchor);
    assert_eq!(s.next(true, false), EnvelopeState::Attacking);
}

#[test]
fn octave_tables_stay_in_bank() {
    assert_eq!(table_pair(0, 10), (0, 1));
    assert_eq!(table_pair(4, 10), (4, 5));
    assert_eq!(table_pair(9, 10), (9, 9));
    assert_eq!(table_pair(25, 10), (9, 9));
    assert_eq!(table_pair(3, 1), (0, 0));
}

#[test]
fn sample_index_wraps() {
    assert_eq!(sample_pair(5, 2048), (5, 6));
    assert_eq!(sample_pair(2047, 2048), (2047, 0));
    assert_eq!(sample_pair(2050, 2048), (2, 3));
    assert_eq!(sample_pair(7, 1), (0, 0));
    assert_eq!(sample_pair(usize::MAX, 2), (1, 0));
}

#[test]
fn harmonics_stay_under_nyquist() {
    assert_eq!(harmonic_count(440, 48_000), 54);
    assert_eq!(harmonic_count(1000, 48_000), 23);
    assert_eq!(harmonic_count(24_000, 48_000), 0);
    assert_eq!(harmonic_count(20, 48_000), 1199);
}
