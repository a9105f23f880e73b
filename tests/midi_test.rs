use engine::error::SynthError;
use engine::midi::messages::{MidiData, SystemCommonMessageData, SystemRealtimeMessageData};
use engine::midi::parse::MidiParser;

#[test]
fn note_on_is_parsed_after_third_byte() {
    let mut parser = MidiParser::new();
    assert_eq!(parser.write(&[0x90]), Ok(1));
    assert!(parser.parsed().is_empty());
    assert_eq!(parser.write(&[0x40]), Ok(1));
    assert!(parser.parsed().is_empty());
    assert_eq!(parser.write(&[0x7F]), Ok(1));
    assert_eq!(parser.parsed().len(), 1);
    assert!(matches!(
        parser.parsed()[0],
        MidiData::NoteOn { channel: 0, note: 64, velocity: 127 }
    ));
}

#[test]
fn channel_comes_from_low_nibble() {
    let mut parser = MidiParser::new();
    assert_eq!(parser.write(&[0x83, 0x3C, 0x10]), Ok(3));
    assert!(matches!(
        parser.parsed()[0],
        MidiData::NoteOff { channel: 3, note: 60, velocity: 16 }
    ));
}

#[test]
fn two_byte_messages() {
    let mut parser = MidiParser::new();
    assert_eq!(parser.write(&[0xC5, 0x07, 0xD2, 0x55]), Ok(4));
    let events = parser.take_parsed();
    assert_eq!(events.len(), 2);
    assert!(matches!(events[0], MidiData::ProgramChange { channel: 5, patch: 7 }));
    assert!(matches!(events[1], MidiData::ChannelAftertouch { channel: 2, pressure: 0x55 }));
    assert!(parser.parsed().is_empty());
}

#[test]
fn three_byte_channel_messages() {
    let mut parser = MidiParser::new();
    assert_eq!(parser.write(&[0xA1, 0x40, 0x22, 0xB0, 0x07, 0x64]), Ok(6));
    let events = parser.take_parsed();
    assert!(matches!(events[0], MidiData::Aftertouch { channel: 1, note: 0x40, pressure: 0x22 }));
    assert!(matches!(events[1], MidiData::ControlChange { channel: 0, controller: 7, value: 100 }));
}

#[test]
fn pitch_bend_is_fourteen_bits_lsb_first() {
    let mut parser = MidiParser::new();
    assert_eq!(parser.write(&[0xE0, 0x00, 0x40, 0xEF, 0x7F, 0x7F]), Ok(6));
    let events = parser.take_parsed();
    assert!(matches!(events[0], MidiData::PitchBend { channel: 0, pitch_bend: 8192 }));
    assert!(matches!(events[1], MidiData::PitchBend { channel: 15, pitch_bend: 16383 }));
}

#[test]
fn realtime_byte_is_a_whole_message() {
    let mut parser = MidiParser::new();
    assert_eq!(parser.write(&[0xF8, 0xFA, 0xFF]), Ok(3));
    let events = parser.take_parsed();
    assert_eq!(events.len(), 3);
    assert!(matches!(
        events[0],
        MidiData::SystemRealtimeMessage { data: SystemRealtimeMessageData::TimingClock }
    ));
    assert!(matches!(
        events[1],
        MidiData::SystemRealtimeMessage { data: SystemRealtimeMessageData::Start }
    ));
    assert!(matches!(
        events[2],
        MidiData::SystemRealtimeMessage { data: SystemRealtimeMessageData::Reset }
    ));
}

#[test]
fn system_exclusive_runs_to_end_byte() {
    let mut parser = MidiParser::new();
    assert_eq!(parser.write(&[0xF0, 0x43, 0x01, 0x02]), Ok(4));
    assert!(parser.parsed().is_empty());
    assert_eq!(parser.write(&[0x03, 0xF7]), Ok(2));
    let events = parser.take_parsed();
    assert_eq!(events.len(), 1);
    match &events[0] {
        MidiData::SystemCommonMessage {
            data: SystemCommonMessageData::SystemExclusive { id, message },
        } => {
            assert_eq!(*id, [0x43, 0, 0]);
            assert_eq!(*message, vec![1, 2, 3]);
        }
        _ => panic!("expected a System Exclusive message"),
    }
}

#[test]
fn system_exclusive_with_extended_id() {
    let mut parser = MidiParser::new();
    assert_eq!(parser.write(&[0xF0, 0x00, 0x20, 0x33, 0x09, 0xF7]), Ok(6));
    match &parser.parsed()[0] {
        MidiData::SystemCommonMessage {
            data: SystemCommonMessageData::SystemExclusive { id, message },
        } => {
            assert_eq!(*id, [0x00, 0x20, 0x33]);
            assert_eq!(*message, vec![9]);
        }
        _ => panic!("expected a System Exclusive message"),
    }
}

#[test]
fn empty_system_exclusive_is_refused() {
    let mut parser = MidiParser::new();
    assert_eq!(parser.write(&[0xF0, 0xF7]), Err(SynthError::ProtocolDecode));
    assert!(parser.is_failed());
}

#[test]
fn unrecognized_status_nibble_is_an_error() {
    let mut parser = MidiParser::new();
    assert_eq!(parser.write(&[0x40]), Err(SynthError::ProtocolDecode));
    assert!(parser.is_failed());
    assert!(parser.parsed().is_empty());
}

#[test]
fn unmodelled_system_status_is_an_error() {
    let mut parser = MidiParser::new();
    assert_eq!(parser.write(&[0xF2, 0x01, 0x02]), Err(SynthError::ProtocolDecode));
}

#[test]
fn status_byte_inside_a_message_is_an_error() {
    let mut parser = MidiParser::new();
    assert_eq!(parser.write(&[0x90, 0x90]), Err(SynthError::ProtocolDecode));
}

#[test]
fn refused_stream_stays_refused_until_flush() {
    let mut parser = MidiParser::new();
    assert_eq!(parser.write(&[0x90, 0x40, 0x7F, 0x12]), Err(SynthError::ProtocolDecode));
    assert_eq!(parser.parsed().len(), 1);
    assert_eq!(parser.write(&[0x90, 0x41, 0x7F]), Err(SynthError::ProtocolDecode));
    assert_eq!(parser.parsed().len(), 1);
    parser.flush();
    assert!(!parser.is_failed());
    assert_eq!(parser.write(&[0x90, 0x41, 0x7F]), Ok(3));
    assert_eq!(parser.parsed().len(), 2);
}

#[test]
fn flush_drops_unfinished_message() {
    let mut parser = MidiParser::new();
    assert_eq!(parser.write(&[0x90, 0x40]), Ok(2));
    parser.flush();
    assert_eq!(parser.write(&[0x80, 0x40, 0x00]), Ok(3));
    let events = parser.take_parsed();
    assert_eq!(events.len(), 1);
    assert!(matches!(events[0], MidiData::NoteOff { channel: 0, note: 64, velocity: 0 }));
}

#[test]
fn overlong_system_exclusive_is_an_error() {
    let mut parser = MidiParser::new();
    let mut bytes = vec![0xF0, 0x43];
    bytes.extend(std::iter::repeat(0x01).take(600));
    assert_eq!(parser.write(&bytes), Err(SynthError::ProtocolDecode));
}

#[test]
fn longest_system_exclusive_fits() {
    let mut parser = MidiParser::new();
    let mut bytes = vec![0xF0, 0x43];
    bytes.extend(std::iter::repeat(0x01).take(509));
    bytes.push(0xF7);
    assert_eq!(bytes.len(), 512);
    assert_eq!(parser.write(&bytes), Ok(512));
    assert_eq!(parser.parsed().len(), 1);
}
