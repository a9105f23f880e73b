use vstd::prelude::*;

use super::messages::{MidiData, SystemCommonMessageData, SystemRealtimeMessageData};
use crate::error::SynthError;

verus! {

/// Longest message, in bytes, that the decoder holds (System Exclusive
/// messages included).
pub const BUFFER_CAPACITY: usize = 512;

/// Status byte that opens a System Exclusive message.
pub const SYSEX_START: u8 = 0xF0;

/// Byte that ends a System Exclusive message.
pub const SYSEX_END: u8 = 0xF7;

/// How the length of a message follows from its status byte.
#[derive(Clone, Copy, Debug, PartialEq, Eq, Structural)]
pub enum Framing {
    /// The message is this many bytes long, its status byte included.
    Fixed(usize),
    /// The message runs until an end-of-exclusive byte.
    Terminated,
    /// The byte does not open a message that this decoder reads.
    Unsupported,
}

/// Timing clock, start, continue, stop, active sensing and reset: single
/// byte messages without a channel.
pub open spec fn is_realtime(status: u8) -> bool {
    status == 0xF8 || status == 0xFA || status == 0xFB || status == 0xFC || status == 0xFE
        || status == 0xFF
}

/// The length rule that a status byte selects: three bytes for note off, note
/// on, key pressure, control change and pitch bend; two for program change and
/// channel pressure; one for realtime messages; up to the end byte for System
/// Exclusive. Data bytes (high nibble below 8) and the other system statuses
/// open no message.
pub open spec fn framing(status: u8) -> Framing {
    if status < 0x80 {
        Framing::Unsupported
    } else if status < 0xC0 {
        Framing::Fixed(3)
    } else if status < 0xE0 {
        Framing::Fixed(2)
    } else if status < 0xF0 {
        Framing::Fixed(3)
    } else if status == SYSEX_START {
        Framing::Terminated
    } else if is_realtime(status) {
        Framing::Fixed(1)
    } else {
        Framing::Unsupported
    }
}

/// Whether byte `b` may follow the unfinished message `pending`: a message
/// must open with a status byte that the decoder reads (no running status),
/// and what follows are data bytes, or the end byte of a System Exclusive.
pub open spec fn accepts(pending: Seq<u8>, b: u8) -> bool {
    if pending.len() == 0 {
        framing(b) != Framing::Unsupported
    } else {
        b < 0x80 || (framing(pending[0]) == Framing::Terminated && b == SYSEX_END)
    }
}

/// Whether `frame` holds a whole message.
pub open spec fn is_complete(frame: Seq<u8>) -> bool {
    frame.len() > 0 && match framing(frame[0]) {
        Framing::Fixed(n) => frame.len() == n,
        Framing::Terminated => frame.len() >= 2 && frame.last() == SYSEX_END,
        Framing::Unsupported => false,
    }
}

/// The bytes of a System Exclusive frame between its start and end bytes.
pub open spec fn sysex_body(frame: Seq<u8>) -> Seq<u8> {
    frame.subrange(1, frame.len() - 1)
}

/// Length of the manufacturer ID that opens a System Exclusive body: three
/// bytes when the first is zero, else one.
pub open spec fn sysex_id_len(body: Seq<u8>) -> int {
    if body[0] == 0 {
        3
    } else {
        1
    }
}

/// The manufacturer ID of a System Exclusive body, padded to three bytes.
pub open spec fn sysex_id(body: Seq<u8>) -> Seq<u8> {
    if body[0] == 0 {
        seq![0u8, body[1], body[2]]
    } else {
        seq![body[0], 0u8, 0u8]
    }
}

/// Whether a complete frame decodes to an event: a System Exclusive body must
/// hold its manufacturer ID.
pub open spec fn is_decodable(frame: Seq<u8>) -> bool {
    frame[0] == SYSEX_START ==> {
        let body = sysex_body(frame);
        body.len() >= 1 && body.len() >= sysex_id_len(body)
    }
}

pub open spec fn realtime_of(status: u8) -> SystemRealtimeMessageData {
    if status == 0xF8 {
        SystemRealtimeMessageData::TimingClock
    } else if status == 0xFA {
        SystemRealtimeMessageData::Start
    } else if status == 0xFB {
        SystemRealtimeMessageData::Continue
    } else if status == 0xFC {
        SystemRealtimeMessageData::Stop
    } else if status == 0xFE {
        SystemRealtimeMessageData::ActiveSensing
    } else {
        SystemRealtimeMessageData::Reset
    }
}

/// `event` is what the complete frame `frame` means. The high nibble of the
/// status byte gives the kind of a channel message, the low nibble its
/// channel; a pitch bend is the 14-bit value of its two data bytes, least
/// significant first.
pub open spec fn decodes_to(frame: Seq<u8>, event: MidiData) -> bool {
    let status = frame[0];
    let channel = status & 0x0F;
    if status < 0x90 {
        event == MidiData::NoteOff { channel, note: frame[1], velocity: frame[2] }
    } else if status < 0xA0 {
        event == MidiData::NoteOn { channel, note: frame[1], velocity: frame[2] }
    } else if status < 0xB0 {
        event == MidiData::Aftertouch { channel, note: frame[1], pressure: frame[2] }
    } else if status < 0xC0 {
        event == MidiData::ControlChange { channel, controller: frame[1], value: frame[2] }
    } else if status < 0xD0 {
        event == MidiData::ProgramChange { channel, patch: frame[1] }
    } else if status < 0xE0 {
        event == MidiData::ChannelAftertouch { channel, pressure: frame[1] }
    } else if status < 0xF0 {
        event == MidiData::PitchBend { channel, pitch_bend: (frame[1] + frame[2] * 128) as u16 }
    } else if status == SYSEX_START {
        let body = sysex_body(frame);
        &&& event matches MidiData::SystemCommonMessage {
            data: SystemCommonMessageData::SystemExclusive { id, message },
        }
        &&& id@ == sysex_id(body)
        &&& message@ == body.subrange(sysex_id_len(body), body.len() as int)
    } else {
        event == MidiData::SystemRealtimeMessage { data: realtime_of(status) }
    }
}

/// Abstract state of the decoder: the bytes of the unfinished message, whether
/// the stream was refused, and the frames completed so far.
pub struct DecodeState {
    pub pending: Seq<u8>,
    pub failed: bool,
    pub frames: Seq<Seq<u8>>,
}

/// The decoder after one more byte. A refused stream takes no more bytes. A
/// byte that cannot follow the pending ones, a message longer than the buffer,
/// or a complete message that does not decode refuses the stream.
pub open spec fn step(s: DecodeState, b: u8) -> DecodeState {
    if s.failed {
        s
    } else if !accepts(s.pending, b) || s.pending.len() >= BUFFER_CAPACITY {
        DecodeState { pending: s.pending, failed: true, frames: s.frames }
    } else {
        let frame = s.pending.push(b);
        if !is_complete(frame) {
            DecodeState { pending: frame, failed: false, frames: s.frames }
        } else if is_decodable(frame) {
            DecodeState { pending: Seq::empty(), failed: false, frames: s.frames.push(frame) }
        } else {
            DecodeState { pending: s.pending, failed: true, frames: s.frames }
        }
    }
}

/// The decoder after the bytes `bytes`, one at a time.
pub open spec fn feed(s: DecodeState, bytes: Seq<u8>) -> DecodeState
    decreases bytes.len(),
{
    if bytes.len() == 0 {
        s
    } else {
        step(feed(s, bytes.drop_last()), bytes.last())
    }
}

/// A byte that opens no message the decoder reads, arriving where a message
/// must start, refuses the stream: a data byte (high nibble below 8, so no
/// running status) or a system status the decoder does not model is reported,
/// never dropped.
pub proof fn lemma_unread_status_refuses(s: DecodeState, b: u8)
    requires
        s.pending.len() == 0,
        framing(b) == Framing::Unsupported,
    ensures
        feed(s, seq![b]).failed,
        feed(s, seq![b]).frames == s.frames,
{
    assert(seq![b].drop_last() =~= Seq::<u8>::empty());
    assert(feed(s, Seq::<u8>::empty()) == s);
    assert(seq![b].last() == b);
}

/// A refused stream takes no further byte: nothing more is decoded until the
/// decoder is reset.
pub proof fn lemma_refusal_persists(s: DecodeState, bytes: Seq<u8>)
    requires
        s.failed,
    ensures
        feed(s, bytes) == s,
    decreases bytes.len(),
{
    if bytes.len() > 0 {
        lemma_refusal_persists(s, bytes.drop_last());
    }
}

/// A note-on message fed at a message boundary yields nothing after its first
/// and second bytes and exactly one frame after its third, which decodes to
/// the note-on of its channel, note and velocity.
pub proof fn lemma_note_on_completes_on_third_byte(s: DecodeState, channel: u8, note: u8, velocity: u8)
    requires
        s.pending.len() == 0,
        !s.failed,
        channel < 16,
        note < 0x80,
        velocity < 0x80,
    ensures
        ({
            let status = (0x90 + channel) as u8;
            let frame = seq![status, note, velocity];
            &&& feed(s, seq![status]).frames == s.frames
            &&& feed(s, seq![status, note]).frames == s.frames
            &&& feed(s, frame).frames == s.frames.push(frame)
            &&& feed(s, frame).pending.len() == 0
            &&& !feed(s, frame).failed
            &&& decodes_to(frame, MidiData::NoteOn { channel, note, velocity })
        }),
{
    let status = (0x90 + channel) as u8;
    let one = seq![status];
    let two = seq![status, note];
    let frame = seq![status, note, velocity];
    assert(one.drop_last() =~= Seq::<u8>::empty());
    assert(two.drop_last() =~= one);
    assert(frame.drop_last() =~= two);
    assert(feed(s, Seq::<u8>::empty()) == s);
    let s1 = feed(s, one);
    assert(s1.pending =~= one);
    let s2 = feed(s, two);
    assert(s2.pending =~= two);
    assert(s2.pending.push(velocity) =~= frame);
    assert(status & 0x0F == channel) by (bit_vector)
        requires
            status == (0x90 + channel) as u8,
            channel < 16,
    ;
}

/// Every byte after the status is a 7-bit data byte, but for the end byte
/// that closes a System Exclusive frame.
pub open spec fn data_bytes_ok(frame: Seq<u8>) -> bool {
    forall|k: int|
        1 <= k < frame.len() ==> #[trigger] frame[k] < 0x80 || (framing(frame[0])
            == Framing::Terminated && k == frame.len() - 1 && frame[k] == SYSEX_END)
}

/// Every byte after the status of an unfinished message is a data byte.
pub open spec fn pending_ok(pending: Seq<u8>) -> bool {
    forall|k: int| 1 <= k < pending.len() ==> #[trigger] pending[k] < 0x80
}

/// Whether a decoded event stays in the ranges of the wire: channels 0..=15,
/// 7-bit data, 14-bit pitch bends.
pub open spec fn in_wire_range(event: MidiData) -> bool {
    match event {
        MidiData::NoteOff { channel, note, velocity } => channel < 16 && note < 0x80 && velocity < 0x80,
        MidiData::NoteOn { channel, note, velocity } => channel < 16 && note < 0x80 && velocity < 0x80,
        MidiData::Aftertouch { channel, note, pressure } => channel < 16 && note < 0x80 && pressure
            < 0x80,
        MidiData::ControlChange { channel, controller, value } => channel < 16 && controller < 0x80
            && value < 0x80,
        MidiData::ProgramChange { channel, patch } => channel < 16 && patch < 0x80,
        MidiData::ChannelAftertouch { channel, pressure } => channel < 16 && pressure < 0x80,
        MidiData::PitchBend { channel, pitch_bend } => channel < 16 && pitch_bend < 0x4000,
        MidiData::SystemCommonMessage { data } => match data {
            SystemCommonMessageData::SystemExclusive { id, message } => (forall|k: int|
                0 <= k < 3 ==> #[trigger] id@[k] < 0x80) && (forall|k: int|
                0 <= k < message@.len() ==> #[trigger] message@[k] < 0x80),
            _ => true,
        },
        MidiData::SystemRealtimeMessage { .. } => true,
    }
}

/// The frames a stream completes carry data bytes only, so long as the
/// decoder started between messages or inside one whose bytes were data.
pub proof fn lemma_frames_carry_data_bytes(s: DecodeState, bytes: Seq<u8>)
    requires
        pending_ok(s.pending),
    ensures
        pending_ok(feed(s, bytes).pending),
        feed(s, bytes).frames.len() >= s.frames.len(),
        feed(s, bytes).frames.subrange(0, s.frames.len() as int) == s.frames,
        forall|j: int|
            s.frames.len() <= j < feed(s, bytes).frames.len() ==> data_bytes_ok(
                #[trigger] feed(s, bytes).frames[j],
            ),
    decreases bytes.len(),
{
    if bytes.len() == 0 {
        assert(s.frames.subrange(0, s.frames.len() as int) =~= s.frames);
    } else {
        let prev = feed(s, bytes.drop_last());
        let b = bytes.last();
        lemma_frames_carry_data_bytes(s, bytes.drop_last());
        let next = step(prev, b);
        assert(feed(s, bytes) == next);
        if !prev.failed && accepts(prev.pending, b) && prev.pending.len() < BUFFER_CAPACITY {
            let frame = prev.pending.push(b);
            assert(forall|k: int| 1 <= k < frame.len() - 1 ==> frame[k] == prev.pending[k]);
            if is_complete(frame) && is_decodable(frame) {
                assert(next.frames.subrange(0, s.frames.len() as int) =~= prev.frames.subrange(
                    0,
                    s.frames.len() as int,
                ));
                assert(data_bytes_ok(frame));
            } else if !is_complete(frame) {
                if prev.pending.len() > 0 && b >= 0x80 {
                    assert(framing(prev.pending[0]) == Framing::Terminated);
                    assert(is_complete(frame));
                }
                assert(pending_ok(frame));
            }
        }
    }
}

/// The event of a frame of data bytes stays in the ranges of the wire.
pub proof fn lemma_event_in_wire_range(frame: Seq<u8>, event: MidiData)
    requires
        is_complete(frame),
        is_decodable(frame),
        data_bytes_ok(frame),
        decodes_to(frame, event),
    ensures
        in_wire_range(event),
{
    let status = frame[0];
    assert(status & 0x0F < 16) by (bit_vector);
    if status < 0xF0 {
        assert(frame[1] < 0x80);
        if frame.len() == 3 {
            assert(frame[2] < 0x80);
        }
    } else if status == SYSEX_START {
        let body = sysex_body(frame);
        assert(forall|k: int| 0 <= k < body.len() ==> #[trigger] body[k] == frame[k + 1]);
        assert(forall|k: int| 0 <= k < body.len() ==> #[trigger] body[k] < 0x80) by {
            assert forall|k: int| 0 <= k < body.len() implies #[trigger] body[k] < 0x80 by {
                assert(frame[k + 1] < 0x80);
            }
        }
    }
}

/// Streaming decoder from MIDI bytes to events. Decoded events are appended to
/// `parsed`, in the order their messages completed.
#[derive(Debug)]
pub struct MidiParser {
    buffer: Vec<u8>,
    failed: bool,
    parsed: Vec<MidiData>,
}

fn framing_of(status: u8) -> (r: Framing)
    ensures
        r == framing(status),
{
    if status < 0x80 {
        Framing::Unsupported
    } else if status < 0xC0 {
        Framing::Fixed(3)
    } else if status < 0xE0 {
        Framing::Fixed(2)
    } else if status < 0xF0 {
        Framing::Fixed(3)
    } else if status == SYSEX_START {
        Framing::Terminated
    } else if status == 0xF8 || status == 0xFA || status == 0xFB || status == 0xFC || status
        == 0xFE || status == 0xFF {
        Framing::Fixed(1)
    } else {
        Framing::Unsupported
    }
}

fn realtime_from(status: u8) -> (r: SystemRealtimeMessageData)
    ensures
        r == realtime_of(status),
{
    if status == 0xF8 {
        SystemRealtimeMessageData::TimingClock
    } else if status == 0xFA {
        SystemRealtimeMessageData::Start
    } else if status == 0xFB {
        SystemRealtimeMessageData::Continue
    } else if status == 0xFC {
        SystemRealtimeMessageData::Stop
    } else if status == 0xFE {
        SystemRealtimeMessageData::ActiveSensing
    } else {
        SystemRealtimeMessageData::Reset
    }
}

/// Decodes a complete frame, or returns `None` when it does not decode.
fn decode(frame: &Vec<u8>) -> (r: Option<MidiData>)
    requires
        is_complete(frame@),
    ensures
        r is Some <==> is_decodable(frame@),
        r matches Some(e) ==> decodes_to(frame@, e),
{
    let status = frame[0];
    let channel = status & 0x0F;
    if status < 0x90 {
        Some(MidiData::NoteOff { channel, note: frame[1], velocity: frame[2] })
    } else if status < 0xA0 {
        Some(MidiData::NoteOn { channel, note: frame[1], velocity: frame[2] })
    } else if status < 0xB0 {
        Some(MidiData::Aftertouch { channel, note: frame[1], pressure: frame[2] })
    } else if status < 0xC0 {
        Some(MidiData::ControlChange { channel, controller: frame[1], value: frame[2] })
    } else if status < 0xD0 {
        Some(MidiData::ProgramChange { channel, patch: frame[1] })
    } else if status < 0xE0 {
        Some(MidiData::ChannelAftertouch { channel, pressure: frame[1] })
    } else if status < 0xF0 {
        let pitch_bend = frame[1] as u16 + (frame[2] as u16) * 128;
        Some(MidiData::PitchBend { channel, pitch_bend })
    } else if status == SYSEX_START {
        let n = frame.len();
        if n < 3 {
            return None;
        }
        let first = frame[1];
        let start: usize;
        let id: [u8; 3];
        if first == 0 {
            if n < 5 {
                return None;
            }
            id = [0u8, frame[2], frame[3]];
            start = 4;
        } else {
            id = [first, 0u8, 0u8];
            start = 2;
        }
        proof {
            let body = sysex_body(frame@);
            assert(id@ =~= sysex_id(body));
        }
        let mut message: Vec<u8> = Vec::new();
        let mut i: usize = start;
        while i < n - 1
            invariant
                start <= i <= n - 1,
                n == frame@.len(),
                message@ == frame@.subrange(start as int, i as int),
            decreases n - 1 - i,
        {
            message.push(frame[i]);
            i = i + 1;
            assert(message@ =~= frame@.subrange(start as int, i as int));
        }
        proof {
            let body = sysex_body(frame@);
            assert(message@ =~= body.subrange(sysex_id_len(body), body.len() as int));
        }
        Some(
            MidiData::SystemCommonMessage {
                data: SystemCommonMessageData::SystemExclusive { id, message },
            },
        )
    } else {
        Some(MidiData::SystemRealtimeMessage { data: realtime_from(status) })
    }
}

impl MidiParser {
    /// The bytes of the message being received.
    pub closed spec fn pending(&self) -> Seq<u8> {
        self.buffer@
    }

    /// Whether the stream was refused.
    pub closed spec fn failed(&self) -> bool {
        self.failed
    }

    /// The events decoded and not yet taken.
    pub closed spec fn events(&self) -> Seq<MidiData> {
        self.parsed@
    }

    /// The decoder's abstract state, with no frames completed yet.
    pub open spec fn state(&self) -> DecodeState {
        DecodeState { pending: self.pending(), failed: self.failed(), frames: Seq::empty() }
    }

    pub fn new() -> (r: MidiParser)
        ensures
            r.pending() == Seq::<u8>::empty(),
            !r.failed(),
            r.events() == Seq::<MidiData>::empty(),
    {
        MidiParser {
            buffer: Vec::with_capacity(BUFFER_CAPACITY),
            failed: false,
            parsed: Vec::new(),
        }
    }

    /// Whether the stream was refused, until `flush` resets the decoder.
    pub fn is_failed(&self) -> (r: bool)
        ensures
            r == self.failed(),
    {
        self.failed
    }

    /// Whether the pending bytes form a whole message.
    fn is_done(&self) -> (r: bool)
        requires
            self.buffer@.len() > 0,
        ensures
            r == is_complete(self.buffer@),
    {
        let n = self.buffer.len();
        match framing_of(self.buffer[0]) {
            Framing::Fixed(len) => n == len,
            Framing::Terminated => n >= 2 && self.buffer[n - 1] == SYSEX_END,
            Framing::Unsupported => false,
        }
    }

    /// Decodes the complete pending message and appends its event; returns
    /// whether it decoded.
    fn process(&mut self) -> (r: bool)
        requires
            is_complete(old(self).buffer@),
        ensures
            final(self).buffer == old(self).buffer,
            final(self).failed == old(self).failed,
            r == is_decodable(old(self).buffer@),
            r ==> final(self).parsed@.len() == old(self).parsed@.len() + 1,
            r ==> final(self).parsed@.drop_last() == old(self).parsed@,
            r ==> decodes_to(old(self).buffer@, final(self).parsed@.last()),
            !r ==> final(self).parsed@ == old(self).parsed@,
    {
        match decode(&self.buffer) {
            Some(event) => {
                self.parsed.push(event);
                assert(self.parsed@.drop_last() =~= old(self).parsed@);
                true
            },
            None => false,
        }
    }

    /// Takes one byte of the stream.
    fn write_byte(&mut self, b: u8)
        ensures
            ({
                let s = step(old(self).state(), b);
                &&& final(self).pending() == s.pending
                &&& final(self).failed() == s.failed
                &&& final(self).parsed@.len() == old(self).parsed@.len() + s.frames.len()
                &&& final(self).parsed@.subrange(0, old(self).parsed@.len() as int)
                    == old(self).parsed@
                &&& forall|j: int|
                    0 <= j < s.frames.len() ==> decodes_to(
                        #[trigger] s.frames[j],
                        final(self).parsed@[old(self).parsed@.len() + j],
                    )
            }),
    {
        if self.failed {
            assert(self.parsed@.subrange(0, self.parsed@.len() as int) =~= self.parsed@);
            return;
        }
        let n = self.buffer.len();
        let acceptable = if n == 0 {
            match framing_of(b) {
                Framing::Unsupported => false,
                _ => true,
            }
        } else {
            b < 0x80 || (framing_of(self.buffer[0]) == Framing::Terminated && b == SYSEX_END)
        };
        if !acceptable || n >= BUFFER_CAPACITY {
            self.failed = true;
            assert(self.parsed@.subrange(0, self.parsed@.len() as int) =~= self.parsed@);
            return;
        }
        self.buffer.push(b);
        if self.is_done() {
            if self.process() {
                self.buffer.clear();
                assert(self.parsed@.subrange(0, old(self).parsed@.len() as int)
                    =~= self.parsed@.drop_last());
            } else {
                self.buffer.pop();
                self.failed = true;
                assert(self.buffer@ =~= old(self).buffer@);
                assert(self.parsed@.subrange(0, self.parsed@.len() as int) =~= self.parsed@);
            }
        } else {
            assert(self.parsed@.subrange(0, self.parsed@.len() as int) =~= self.parsed@);
        }
    }

    /// Takes the bytes of `buf` in order. Returns the number of bytes taken,
    /// or `ProtocolDecode` when the stream is refused (now or before); events
    /// of messages completed before the refusal are kept.
    pub fn write(&mut self, buf: &[u8]) -> (r: Result<usize, SynthError>)
        ensures
            ({
                let s = feed(old(self).state(), buf@);
                &&& final(self).pending() == s.pending
                &&& final(self).failed() == s.failed
                &&& final(self).events().len() == old(self).events().len() + s.frames.len()
                &&& final(self).events().subrange(0, old(self).events().len() as int)
                    == old(self).events()
                &&& forall|j: int|
                    0 <= j < s.frames.len() ==> decodes_to(
                        #[trigger] s.frames[j],
                        final(self).events()[old(self).events().len() + j],
                    )
                &&& r == if s.failed {
                    Err::<usize, SynthError>(SynthError::ProtocolDecode)
                } else {
                    Ok::<usize, SynthError>(buf@.len() as usize)
                }
            }),
    {
        let ghost s0 = self.state();
        let ghost e0 = self.events();
        let mut i: usize = 0;
        assert(buf@.take(0) =~= Seq::<u8>::empty());
        while i < buf.len()
            invariant
                0 <= i <= buf@.len(),
                ({
                    let f = feed(s0, buf@.take(i as int));
                    &&& self.pending() == f.pending
                    &&& self.failed() == f.failed
                    &&& self.events().len() == e0.len() + f.frames.len()
                    &&& self.events().subrange(0, e0.len() as int) == e0
                    &&& forall|j: int|
                        0 <= j < f.frames.len() ==> decodes_to(
                            #[trigger] f.frames[j],
                            self.events()[e0.len() + j],
                        )
                }),
            decreases buf@.len() - i,
        {
            let ghost f = feed(s0, buf@.take(i as int));
            let ghost before = self.events();
            let b = buf[i];
            self.write_byte(b);
            proof {
                let next = buf@.take(i + 1);
                assert(next.drop_last() =~= buf@.take(i as int));
                assert(next.last() == b);
                let g = feed(s0, next);
                assert(g == step(f, b));
                let t = step(DecodeState { pending: f.pending, failed: f.failed, frames: Seq::empty() }, b);
                assert(g.frames =~= f.frames + t.frames);
                assert(self.events().subrange(0, e0.len() as int) =~= e0) by {
                    assert(self.events().subrange(0, before.len() as int) == before);
                    assert(before.subrange(0, e0.len() as int) == e0);
                }
                assert forall|j: int| 0 <= j < g.frames.len() implies decodes_to(
                    #[trigger] g.frames[j],
                    self.events()[e0.len() + j],
                ) by {
                    if j < f.frames.len() {
                        assert(self.events()[e0.len() + j] == before[e0.len() + j]) by {
                            assert(self.events().subrange(0, before.len() as int)[e0.len() + j]
                                == before[e0.len() + j]);
                        }
                    } else {
                        assert(g.frames[j] == t.frames[j - f.frames.len()]);
                    }
                }
            }
            i = i + 1;
        }
        assert(buf@.take(buf@.len() as int) =~= buf@);
        if self.failed {
            Err(SynthError::ProtocolDecode)
        } else {
            Ok(buf.len())
        }
    }

    /// Resets the decoder: drops the unfinished message and accepts the stream
    /// again. Decoded events stay.
    pub fn flush(&mut self)
        ensures
            final(self).pending() == Seq::<u8>::empty(),
            !final(self).failed(),
            final(self).events() == old(self).events(),
    {
        self.buffer.clear();
        self.failed = false;
    }

    /// The events decoded and not yet taken, oldest first.
    pub fn parsed(&self) -> (r: &Vec<MidiData>)
        ensures
            r@ == self.events(),
    {
        &self.parsed
    }

    /// Hands over the decoded events, oldest first, and forgets them.
    pub fn take_parsed(&mut self) -> (r: Vec<MidiData>)
        ensures
            r@ == old(self).events(),
            final(self).events() == Seq::<MidiData>::empty(),
            final(self).pending() == old(self).pending(),
            final(self).failed() == old(self).failed(),
    {
        let mut out: Vec<MidiData> = Vec::new();
        std::mem::swap(&mut out, &mut self.parsed);
        out
    }
}

} // verus!
