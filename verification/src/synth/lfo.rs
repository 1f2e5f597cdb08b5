//! LFO waveforms.
use vstd::prelude::*;

verus! {

#[derive(Clone, Copy, Debug, PartialEq, Eq, Structural)]
pub enum LfoWaveform {
    Sine,
    Tri,
    Saw,
    SawDown,
    Square,
    SnH,
    Noise,
}

impl Default for LfoWaveform {
    fn default() -> (w: Self)
        ensures
            w == LfoWaveform::Sine,
    {
        LfoWaveform::Sine
    }
}

/// Position of a waveform in the list of LFO waveforms.
pub open spec fn waveform_index(w: LfoWaveform) -> int {
    match w {
        LfoWaveform::Sine => 0,
        LfoWaveform::Tri => 1,
        LfoWaveform::Saw => 2,
        LfoWaveform::SawDown => 3,
        LfoWaveform::Square => 4,
        LfoWaveform::SnH => 5,
        LfoWaveform::Noise => 6,
    }
}

/// The waveform selected by menu position `value`.
pub fn select_wave(value: usize) -> (w: LfoWaveform)
    requires
        value < 7,
    ensures
        waveform_index(w) == value,
{
    match value {
        0 => LfoWaveform::Sine,
        1 => LfoWaveform::Tri,
        2 => LfoWaveform::Saw,
        3 => LfoWaveform::SawDown,
        4 => LfoWaveform::Square,
        5 => LfoWaveform::SnH,
        _ => LfoWaveform::Noise,
    }
}

/// Menu position of a waveform.
pub fn get_waveform(waveform: LfoWaveform) -> (r: usize)
    ensures
        r == waveform_index(waveform),
{
    match waveform {
        LfoWaveform::Sine => 0,
        LfoWaveform::Tri => 1,
        LfoWaveform::Saw => 2,
        LfoWaveform::SawDown => 3,
        LfoWaveform::Square => 4,
        LfoWaveform::SnH => 5,
        LfoWaveform::Noise => 6,
    }
}

/// The position determines the waveform, so `select_wave(get_waveform(w))`
/// is `w` and `get_waveform(select_wave(v))` is `v`.
pub proof fn lemma_waveform_index(w: LfoWaveform, u: LfoWaveform)
    ensures
        0 <= waveform_index(w) < 7,
        waveform_index(w) == waveform_index(u) ==> w == u,
{
}

} // verus!
