//! Note bookkeeping of a monophonic voice: which note to play and whether its
//! envelope is engaged, from the MIDI events of each control cycle.
use vstd::prelude::*;

use crate::midi::messages::MidiData;

verus! {

/// Notes held after the events `events`, starting from `held`: each note on
/// adds one and each note off takes one away, saturating at the bounds of
/// `i32`; other events change nothing.
pub open spec fn held_after(held: int, events: Seq<MidiData>) -> int
    decreases events.len(),
{
    if events.len() == 0 {
        held
    } else {
        let before = held_after(held, events.drop_last());
        match events.last() {
            MidiData::NoteOn { .. } => if before < i32::MAX {
                before + 1
            } else {
                before
            },
            MidiData::NoteOff { .. } => if before > i32::MIN {
                before - 1
            } else {
                before
            },
            _ => before,
        }
    }
}

/// The note of the last note-on among `events`.
pub open spec fn last_note_on(events: Seq<MidiData>) -> Option<u8>
    decreases events.len(),
{
    if events.len() == 0 {
        None
    } else {
        match events.last() {
            MidiData::NoteOn { note, .. } => Some(note),
            _ => last_note_on(events.drop_last()),
        }
    }
}

/// Counts held notes; the voice's envelope is engaged while it is positive.
pub struct NoteTracker {
    notes_on: i32,
}

impl NoteTracker {
    pub closed spec fn held(&self) -> int {
        self.notes_on as int
    }

    pub fn new() -> (r: NoteTracker)
        ensures
            r.held() == 0,
    {
        NoteTracker { notes_on: 0 }
    }

    /// Takes a control cycle's events in order. Returns the note that the
    /// voice should now sound, the last note-on's, if there is one.
    pub fn apply(&mut self, events: &Vec<MidiData>) -> (r: Option<u8>)
        ensures
            final(self).held() == held_after(old(self).held(), events@),
            r == last_note_on(events@),
    {
        let mut latest: Option<u8> = None;
        let mut i: usize = 0;
        while i < events.len()
            invariant
                0 <= i <= events@.len(),
                self.held() == held_after(old(self).held(), events@.take(i as int)),
                latest == last_note_on(events@.take(i as int)),
            decreases events@.len() - i,
        {
            proof {
                assert(events@.take(i + 1).drop_last() =~= events@.take(i as int));
            }
            match &events[i] {
                MidiData::NoteOn { note, .. } => {
                    if self.notes_on < i32::MAX {
                        self.notes_on = self.notes_on + 1;
                    }
                    latest = Some(*note);
                },
                MidiData::NoteOff { .. } => {
                    if self.notes_on > i32::MIN {
                        self.notes_on = self.notes_on - 1;
                    }
                },
                _ => {},
            }
            i = i + 1;
        }
        proof {
            assert(events@.take(events@.len() as int) =~= events@);
        }
        latest
    }

    /// Whether any note is held.
    pub fn gate(&self) -> (r: bool)
        ensures
            r == (self.held() > 0),
    {
        self.notes_on > 0
    }
}

} // verus!
