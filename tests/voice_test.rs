use engine::backend::{choose_input_port, read_outcome, received, MidirMidiClientBackend};
use engine::error::SynthError;
use engine::midi::messages::{MidiData, MidiMessage};
use engine::voice::NoteTracker;

#[test]
fn notes_drive_gate_and_pitch() {
    let mut tracker = NoteTracker::new();
    assert!(!tracker.gate());
    let events = vec![
        MidiData::NoteOn { channel: 0, note: 60, velocity: 100 },
        MidiData::ControlChange { channel: 0, controller: 1, value: 3 },
        MidiData::NoteOn { channel: 0, note: 64, velocity: 100 },
    ];
    assert_eq!(tracker.apply(&events), Some(64));
    assert!(tracker.gate());
    let events = vec![MidiData::NoteOff { channel: 0, note: 60, velocity: 0 }];
    assert_eq!(tracker.apply(&events), None);
    assert!(tracker.gate());
    assert_eq!(tracker.apply(&events), None);
    assert!(!tracker.gate());
}

#[test]
fn extra_note_off_keeps_gate_closed() {
    let mut tracker = NoteTracker::new();
    let off = vec![MidiData::NoteOff { channel: 0, note: 60, velocity: 0 }];
    tracker.apply(&off);
    let on = vec![MidiData::NoteOn { channel: 0, note: 60, velocity: 1 }];
    assert_eq!(tracker.apply(&on), Some(60));
    assert!(!tracker.gate());
    tracker.apply(&on);
    assert!(tracker.gate());
}

#[test]
fn message_keeps_time() {
    let message = MidiMessage::new(MidiData::ProgramChange { channel: 1, patch: 2 }, 77);
    assert_eq!(message.get_timestamp(), 77);
    assert!(matches!(message.get_data(), MidiData::ProgramChange { channel: 1, patch: 2 }));
}

#[test]
fn port_choice() {
    let _backend = MidirMidiClientBackend::new();
    assert_eq!(choose_input_port(0, Some(0)), Err(SynthError::Backend));
    assert_eq!(choose_input_port(1, None), Ok(0));
    assert_eq!(choose_input_port(3, Some(2)), Ok(2));
    assert_eq!(choose_input_port(3, Some(3)), Err(SynthError::Backend));
    assert_eq!(choose_input_port(3, None), Err(SynthError::Backend));
}

#[test]
fn raw_read_outcomes() {
    assert_eq!(read_outcome(Ok(5)), Ok(5));
    assert_eq!(read_outcome(Err(Some(-11))), Ok(0));
    assert_eq!(read_outcome(Err(Some(-19))), Err(SynthError::Backend));
    assert_eq!(read_outcome(Err(None)), Err(SynthError::Backend));
    assert_eq!(received(&[1, 2, 3, 4], 2), vec![1, 2]);
    assert_eq!(received(&[1, 2, 3, 4], 0), Vec::<u8>::new());
}
