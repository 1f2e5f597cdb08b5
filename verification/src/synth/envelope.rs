//! Envelope phases and the transitions between them.
//!
//! An envelope runs through delay, attack, decay and sustain while its key
//! is held, and through release after that. The levels and slopes of the
//! phases are computed by the caller; the decisions here only need to know
//! whether the current phase's end time has been reached.
use vstd::prelude::*;

verus! {

/// Phase an envelope generator is in.
#[derive(Clone, Copy, Debug, PartialEq, Eq, Structural)]
pub enum EnvState {
    Idle,
    Delay,
    Attack,
    Decay,
    Sustain,
    Release,
}

/// The phase an envelope starts in when triggered: the delay phase if the
/// envelope has a delay, else the attack phase.
pub open spec fn spec_initial_state(has_delay: bool) -> EnvState {
    if has_delay {
        EnvState::Delay
    } else {
        EnvState::Attack
    }
}

pub fn initial_state(has_delay: bool) -> (s: EnvState)
    ensures
        s == spec_initial_state(has_delay),
{
    if has_delay {
        EnvState::Delay
    } else {
        EnvState::Attack
    }
}

/// The phase after computing a sample in `state`. `end_reached` tells
/// whether the sample time has reached the end of the phase; `looping`
/// whether the envelope repeats while held; `is_held` whether its key is
/// still held; `has_delay` whether it has a delay phase.
pub open spec fn spec_next_state(state: EnvState, end_reached: bool, looping: bool, is_held: bool, has_delay: bool) -> EnvState {
    if !end_reached {
        state
    } else {
        match state {
            EnvState::Idle => EnvState::Idle,
            EnvState::Delay => EnvState::Attack,
            EnvState::Attack => EnvState::Decay,
            EnvState::Decay => if looping {
                EnvState::Release
            } else {
                EnvState::Sustain
            },
            EnvState::Sustain => EnvState::Sustain,
            EnvState::Release => if is_held && looping {
                spec_initial_state(has_delay)
            } else {
                EnvState::Idle
            },
        }
    }
}

/// Decides the phase after computing a sample.
pub fn next_state(state: EnvState, end_reached: bool, looping: bool, is_held: bool, has_delay: bool) -> (s: EnvState)
    ensures
        s == spec_next_state(state, end_reached, looping, is_held, has_delay),
{
    if !end_reached {
        return state;
    }
    match state {
        EnvState::Idle => EnvState::Idle,
        EnvState::Delay => EnvState::Attack,
        EnvState::Attack => EnvState::Decay,
        EnvState::Decay => {
            if looping {
                EnvState::Release
            } else {
                EnvState::Sustain
            }
        },
        EnvState::Sustain => EnvState::Sustain,
        EnvState::Release => {
            if is_held && looping {
                initial_state(has_delay)
            } else {
                EnvState::Idle
            }
        },
    }
}

/// True if the phase changes when the key is released, i.e. the release
/// phase is (re)entered.
pub fn release_changes_state(state: EnvState) -> (r: bool)
    ensures
        r == (state != EnvState::Release),
{
    match state {
        EnvState::Release => false,
        _ => true,
    }
}

/// An envelope is running in every phase but idle.
pub fn is_running(state: EnvState) -> (r: bool)
    ensures
        r == (state != EnvState::Idle),
{
    match state {
        EnvState::Idle => false,
        _ => true,
    }
}

/// An envelope that is not looping, or whose key is released, runs
/// through its phases in order and stops: from any phase, at most five
/// phase ends lead to idle (with the key released), and idle and sustain
/// are only left by a trigger or a release.
pub proof fn lemma_envelope_ends(s: EnvState, has_delay: bool)
    ensures
        spec_next_state(EnvState::Idle, true, false, false, has_delay) == EnvState::Idle,
        spec_next_state(EnvState::Sustain, true, false, true, has_delay) == EnvState::Sustain,
        ({
            let step = |t: EnvState| spec_next_state(t, true, false, false, has_delay);
            step(step(step(step(step(s))))) == EnvState::Idle || step(step(step(step(step(s)))))
                == EnvState::Sustain
        }),
        spec_next_state(EnvState::Release, true, false, false, has_delay) == EnvState::Idle,
{
}

/// A looping envelope whose key stays held never becomes idle: after its
/// release it starts again.
pub proof fn lemma_looping_restarts(s: EnvState, end_reached: bool, has_delay: bool)
    requires
        s != EnvState::Idle,
    ensures
        spec_next_state(s, end_reached, true, true, has_delay) != EnvState::Idle,
        spec_next_state(EnvState::Release, true, true, true, has_delay) == spec_initial_state(has_delay),
{
}

/// While its key is held, a triggered envelope that does not loop keeps
/// sounding: from delay, attack, decay or sustain it never becomes idle
/// and never enters the release, and the end of the decay leads to the
/// sustain, whether or not the envelope has a delay.
pub proof fn lemma_held_envelope_sustains(s: EnvState, end_reached: bool, has_delay: bool)
    requires
        s == EnvState::Delay || s == EnvState::Attack || s == EnvState::Decay || s == EnvState::Sustain,
    ensures
        spec_next_state(s, end_reached, false, true, has_delay) != EnvState::Idle,
        spec_next_state(s, end_reached, false, true, has_delay) != EnvState::Release,
        spec_next_state(EnvState::Decay, true, false, true, has_delay) == EnvState::Sustain,
{
}

/// The phases run in order: delay, attack, decay, then sustain (or, when
/// looping, release), each one when its end is reached; before that the
/// phase stays.
pub proof fn lemma_phase_order(looping: bool, is_held: bool, has_delay: bool, s: EnvState)
    ensures
        spec_next_state(EnvState::Delay, true, looping, is_held, has_delay) == EnvState::Attack,
        spec_next_state(EnvState::Attack, true, looping, is_held, has_delay) == EnvState::Decay,
        spec_next_state(EnvState::Decay, true, looping, is_held, has_delay) == if looping {
            EnvState::Release
        } else {
            EnvState::Sustain
        },
        spec_next_state(s, false, looping, is_held, has_delay) == s,
{
}

/// Whether an envelope has a delay only matters where it starts: every
/// transition is the same with and without a delay, except the restart of
/// a looping envelope after its release, which goes to the delay phase if
/// there is one and to the attack phase otherwise.
pub proof fn lemma_delay_only_at_start(s: EnvState, end_reached: bool, looping: bool, is_held: bool)
    ensures
        !(s == EnvState::Release && end_reached && looping && is_held) ==> spec_next_state(
            s,
            end_reached,
            looping,
            is_held,
            true,
        ) == spec_next_state(s, end_reached, looping, is_held, false),
        spec_next_state(EnvState::Release, true, true, true, true) == EnvState::Delay,
        spec_next_state(EnvState::Release, true, true, true, false) == EnvState::Attack,
{
}

/// Once its key is released, an envelope ends in idle at the end of its
/// release, looping or not, and a release that is not over goes on.
pub proof fn lemma_released_ends(looping: bool, has_delay: bool)
    ensures
        spec_next_state(EnvState::Release, true, looping, false, has_delay) == EnvState::Idle,
        spec_next_state(EnvState::Release, false, looping, false, has_delay) == EnvState::Release,
{
}

} // verus!
