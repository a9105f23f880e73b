use vstd::prelude::*;

verus! {

/// Segment of the ADSR curve that an envelope is in.
#[derive(Clone, Copy, Debug, PartialEq, Eq, Structural)]
pub enum EnvelopeState {
    Attacking,
    Decaying,
    Sustaining,
    Releasing,
}

/// What one tick of an envelope does to its amplitude.
#[derive(Clone, Copy, Debug, PartialEq, Eq, Structural)]
pub enum EnvelopeAction {
    /// Advance along the attack line, from the anchor up to full level.
    Attack,
    /// Advance along the decay line, from full level down to the sustain level.
    Decay,
    /// Hold the sustain level.
    Sustain,
    /// Advance along the release line, from the anchor down to silence.
    Release,
    /// Record the current amplitude as the anchor of the next segment and
    /// restart its curve position; the amplitude itself stays.
    Anchor,
}

/// The tick's work. While the note is held (`engaged`), the attack, decay
/// and sustain segments run, and a releasing envelope anchors the attack that
/// follows; once it is let go, a releasing envelope runs its release and any
/// other anchors it.
pub open spec fn action_of(state: EnvelopeState, engaged: bool) -> EnvelopeAction {
    if engaged {
        match state {
            EnvelopeState::Attacking => EnvelopeAction::Attack,
            EnvelopeState::Decaying => EnvelopeAction::Decay,
            EnvelopeState::Sustaining => EnvelopeAction::Sustain,
            EnvelopeState::Releasing => EnvelopeAction::Anchor,
        }
    } else {
        match state {
            EnvelopeState::Releasing => EnvelopeAction::Release,
            _ => EnvelopeAction::Anchor,
        }
    }
}

/// The state after the tick. `segment_done` says whether the attack reached
/// full level, or the decay the sustain level, on this tick.
pub open spec fn next_state(state: EnvelopeState, engaged: bool, segment_done: bool) -> EnvelopeState {
    if engaged {
        match state {
            EnvelopeState::Attacking => if segment_done {
                EnvelopeState::Decaying
            } else {
                EnvelopeState::Attacking
            },
            EnvelopeState::Decaying => if segment_done {
                EnvelopeState::Sustaining
            } else {
                EnvelopeState::Decaying
            },
            EnvelopeState::Sustaining => EnvelopeState::Sustaining,
            EnvelopeState::Releasing => EnvelopeState::Attacking,
        }
    } else {
        EnvelopeState::Releasing
    }
}

impl EnvelopeState {
    /// What this tick does to the amplitude.
    pub fn action(&self, engaged: bool) -> (r: EnvelopeAction)
        ensures
            r == action_of(*self, engaged),
    {
        match (self, engaged) {
            (EnvelopeState::Attacking, true) => EnvelopeAction::Attack,
            (EnvelopeState::Decaying, true) => EnvelopeAction::Decay,
            (EnvelopeState::Sustaining, true) => EnvelopeAction::Sustain,
            (EnvelopeState::Releasing, false) => EnvelopeAction::Release,
            _ => EnvelopeAction::Anchor,
        }
    }

    /// The state that follows this tick.
    pub fn next(&self, engaged: bool, segment_done: bool) -> (r: EnvelopeState)
        ensures
            r == next_state(*self, engaged, segment_done),
    {
        if !engaged {
            return EnvelopeState::Releasing;
        }
        match self {
            EnvelopeState::Attacking => if segment_done {
                EnvelopeState::Decaying
            } else {
                EnvelopeState::Attacking
            },
            EnvelopeState::Decaying => if segment_done {
                EnvelopeState::Sustaining
            } else {
                EnvelopeState::Decaying
            },
            EnvelopeState::Sustaining => EnvelopeState::Sustaining,
            EnvelopeState::Releasing => EnvelopeState::Attacking,
        }
    }
}

/// Pressing a note again while releasing does not move the amplitude on that
/// tick: it anchors the attack at the current level and moves to attacking,
/// whose first step then starts from the anchor.
pub proof fn lemma_reengage_anchors_attack(segment_done: bool)
    ensures
        action_of(EnvelopeState::Releasing, true) == EnvelopeAction::Anchor,
        next_state(EnvelopeState::Releasing, true, segment_done) == EnvelopeState::Attacking,
        action_of(EnvelopeState::Attacking, true) == EnvelopeAction::Attack,
{
}

/// Letting the note go in any state leads to releasing, and an envelope that
/// is not yet releasing first anchors the release at its current amplitude.
pub proof fn lemma_release_from_any_state(state: EnvelopeState, segment_done: bool)
    ensures
        next_state(state, false, segment_done) == EnvelopeState::Releasing,
        state != EnvelopeState::Releasing ==> action_of(state, false) == EnvelopeAction::Anchor,
{
}

} // verus!
