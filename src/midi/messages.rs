use vstd::prelude::*;

verus! {

pub type Channel = u8;

pub type Note = u8;

pub type Velocity = u8;

pub type Pressure = u8;

pub type ControlIndex = u8;

pub type ControlValue = u8;

pub type Patch = u8;

pub type Bend = u16;

pub type ExclusiveMessage = Vec<u8>;

pub type ManufacturerID = [u8; 3];

pub type TimecodeRate = u8;

#[derive(Clone, Copy, Debug)]
pub struct Timecode {
    hours: u8,
    minutes: u8,
    seconds: u8,
}

impl Timecode {
    pub fn new(hours: u8, minutes: u8, seconds: u8) -> (r: Timecode)
        ensures
            r.hours() == hours,
            r.minutes() == minutes,
            r.seconds() == seconds,
    {
        Timecode { hours, minutes, seconds }
    }

    pub closed spec fn hours(&self) -> u8 {
        self.hours
    }

    pub closed spec fn minutes(&self) -> u8 {
        self.minutes
    }

    pub closed spec fn seconds(&self) -> u8 {
        self.seconds
    }
}

#[derive(Clone, Debug)]
pub enum SystemCommonMessageData {
    SystemExclusive { id: ManufacturerID, message: ExclusiveMessage },
    QuarterFrame { rate: TimecodeRate, time: Timecode },
}

#[derive(Clone, Copy, Debug, PartialEq, Eq, Structural)]
pub enum SystemRealtimeMessageData {
    TimingClock,
    Start,
    Continue,
    Stop,
    ActiveSensing,
    Reset,
}

/// One decoded MIDI event. Channel numbers are 0..=15; the other payload
/// fields keep the 7-bit (pitch bend: 14-bit) range of the wire.
#[derive(Clone, Debug)]
pub enum MidiData {
    NoteOff { channel: Channel, note: Note, velocity: Velocity },
    NoteOn { channel: Channel, note: Note, velocity: Velocity },
    Aftertouch { channel: Channel, note: Note, pressure: Pressure },
    ControlChange { channel: Channel, controller: ControlIndex, value: ControlValue },
    ProgramChange { channel: Channel, patch: Patch },
    ChannelAftertouch { channel: Channel, pressure: Pressure },
    PitchBend { channel: Channel, pitch_bend: Bend },
    SystemCommonMessage { data: SystemCommonMessageData },
    SystemRealtimeMessage { data: SystemRealtimeMessageData },
}

/// A decoded event with the time it arrived at.
pub struct MidiMessage {
    data: MidiData,
    timestamp: u64,
}

impl MidiMessage {
    pub fn new(data: MidiData, timestamp: u64) -> (r: MidiMessage)
        ensures
            r.data() == data,
            r.timestamp() == timestamp,
    {
        MidiMessage { data, timestamp }
    }

    pub closed spec fn data(&self) -> MidiData {
        self.data
    }

    pub closed spec fn timestamp(&self) -> u64 {
        self.timestamp
    }

    pub fn get_data(&self) -> (r: &MidiData)
        ensures
            *r == self.data(),
    {
        &self.data
    }

    pub fn get_timestamp(&self) -> (r: u64)
        ensures
            r == self.timestamp(),
    {
        self.timestamp
    }
}

} // verus!
