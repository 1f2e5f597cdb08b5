//! Oscillator types and the routing of an oscillator's output.
use vstd::prelude::*;

verus! {

#[derive(Clone, Copy, Debug, PartialEq, Eq, Structural)]
pub enum OscType {
    Wavetable,
    Noise,
}

impl Default for OscType {
    fn default() -> (t: Self)
        ensures
            t == OscType::Wavetable,
    {
        OscType::Wavetable
    }
}

pub open spec fn osc_type_index(t: OscType) -> int {
    match t {
        OscType::Wavetable => 0,
        OscType::Noise => 1,
    }
}

impl OscType {
    pub fn from_int(param: usize) -> (t: OscType)
        requires
            param < 2,
        ensures
            osc_type_index(t) == param,
    {
        match param {
            0 => OscType::Wavetable,
            _ => OscType::Noise,
        }
    }

    pub fn to_int(&self) -> (r: usize)
        ensures
            r == osc_type_index(*self),
    {
        match self {
            OscType::Wavetable => 0,
            OscType::Noise => 1,
        }
    }
}

/// The position determines the type, so `OscType::from_int(t.to_int())` is
/// `t` and `OscType::from_int(i).to_int()` is `i`.
pub proof fn lemma_osc_type_index(t: OscType, u: OscType)
    ensures
        0 <= osc_type_index(t) < 2,
        osc_type_index(t) == osc_type_index(u) ==> t == u,
{
}

/// Where an oscillator's output goes: into the first filter, into the
/// second filter, or past the filters directly to the output.
#[derive(Clone, Copy, Debug, PartialEq, Eq, Structural)]
pub enum OscRouting {
    Filter1,
    Filter2,
    Direct,
}

impl Default for OscRouting {
    fn default() -> (r: Self)
        ensures
            r == OscRouting::Filter1,
    {
        OscRouting::Filter1
    }
}

/// Position of a routing in the list of routing options.
pub open spec fn osc_routing_index(r: OscRouting) -> int {
    match r {
        OscRouting::Filter1 => 0,
        OscRouting::Filter2 => 1,
        OscRouting::Direct => 2,
    }
}

impl OscRouting {
    /// The routing at position `param` of the routing options.
    pub fn from_int(param: usize) -> (r: OscRouting)
        requires
            param < 3,
        ensures
            osc_routing_index(r) == param,
    {
        match param {
            0 => OscRouting::Filter1,
            1 => OscRouting::Filter2,
            _ => OscRouting::Direct,
        }
    }

    pub fn to_int(&self) -> (i: usize)
        ensures
            i == osc_routing_index(*self),
    {
        match self {
            OscRouting::Filter1 => 0,
            OscRouting::Filter2 => 1,
            OscRouting::Direct => 2,
        }
    }

    /// Which of the three outputs (first filter, second filter, direct)
    /// receives the oscillator's signal: exactly the one routed to.
    pub fn outputs(&self) -> (o: (bool, bool, bool))
        ensures
            o == (*self == OscRouting::Filter1, *self == OscRouting::Filter2, *self == OscRouting::Direct),
    {
        match self {
            OscRouting::Filter1 => (true, false, false),
            OscRouting::Filter2 => (false, true, false),
            OscRouting::Direct => (false, false, true),
        }
    }
}

/// The position determines the routing, so `OscRouting::from_int(r.to_int())`
/// is `r` and `OscRouting::from_int(i).to_int()` is `i`.
pub proof fn lemma_osc_routing_index(r: OscRouting, s: OscRouting)
    ensures
        0 <= osc_routing_index(r) < 3,
        osc_routing_index(r) == osc_routing_index(s) ==> r == s,
{
}

/// Most detuned voices a wavetable oscillator plays at once.
pub const MAX_VOICES: usize = 7;

/// The number of detuned voices an oscillator plays when `voices` are
/// asked for: at most `MAX_VOICES`.
pub fn voice_num(voices: i64) -> (r: i64)
    ensures
        r == (if voices > MAX_VOICES as i64 {
            MAX_VOICES as i64
        } else {
            voices
        }),
        r <= MAX_VOICES,
{
    if voices > MAX_VOICES as i64 {
        MAX_VOICES as i64
    } else {
        voices
    }
}

} // verus!
