//! The shape of the sound data: which parameters each function holds,
//! the kind of value each takes, and the values shared by several
//! functions.
use vstd::prelude::*;
use crate::parameter::{lemma_small_index, menu, MenuList, Parameter, ValueRange};
use crate::synth::lfo::{waveform_index, LfoWaveform};
use crate::synth::oscillator::{osc_routing_index, osc_type_index, OscRouting, OscType};
use crate::synth::synth::{
    filter_routing_index, play_mode_index, FilterRouting, PlayMode, NUM_ENVELOPES, NUM_FILTERS, NUM_GLOBAL_LFOS, NUM_LFOS,
    NUM_MODULATORS, NUM_OSCILLATORS,
};

verus! {

/// Tempo sync setting of LFOs and the delay.
#[derive(Clone, Copy, Debug, PartialEq, Eq, Structural)]
pub enum SyncValue {
    Off,
    Whole,
    DottedHalf,
    Half,
    DottedQuarter,
    Quarter,
    DottedEigth,
    Eigth,
    Sixteenth,
}

impl Default for SyncValue {
    fn default() -> (s: Self)
        ensures
            s == SyncValue::Off,
    {
        SyncValue::Off
    }
}

/// Position of a sync value in the list of sync options (its declaration
/// order).
pub open spec fn sync_value_index(s: SyncValue) -> int {
    match s {
        SyncValue::Off => 0,
        SyncValue::Whole => 1,
        SyncValue::DottedHalf => 2,
        SyncValue::Half => 3,
        SyncValue::DottedQuarter => 4,
        SyncValue::Quarter => 5,
        SyncValue::DottedEigth => 6,
        SyncValue::Eigth => 7,
        SyncValue::Sixteenth => 8,
    }
}

impl SyncValue {
    /// The sync value at position `param` of the sync options.
    pub fn from_int(param: usize) -> (s: SyncValue)
        requires
            param < 9,
        ensures
            sync_value_index(s) == param,
    {
        match param {
            0 => SyncValue::Off,
            1 => SyncValue::Whole,
            2 => SyncValue::DottedHalf,
            3 => SyncValue::Half,
            4 => SyncValue::DottedQuarter,
            5 => SyncValue::Quarter,
            6 => SyncValue::DottedEigth,
            7 => SyncValue::Eigth,
            _ => SyncValue::Sixteenth,
        }
    }
}

/// Different positions give different sync values, and every sync value is
/// reached from its own position.
pub proof fn lemma_sync_value_index(s: SyncValue, t: SyncValue)
    ensures
        0 <= sync_value_index(s) < 9,
        sync_value_index(s) == sync_value_index(t) ==> s == t,
{
}

/// The kind of a parameter value.
#[derive(Clone, Copy, Debug, PartialEq, Eq, Structural)]
pub enum ValueKind {
    Int,
    Float,
    /// Index into a static list.
    Choice,
    /// Index into a list known at run time.
    Dynamic,
    /// A function (modulation source).
    Function,
    /// A parameter of a function (modulation target).
    Param,
    NoValue,
}

/// The kind of value that a parameter with this range takes.
pub open spec fn range_kind(r: ValueRange) -> ValueKind {
    match r {
        ValueRange::Int(_, _) => ValueKind::Int,
        ValueRange::Float(_, _, _) => ValueKind::Float,
        ValueRange::Choice(_) => ValueKind::Choice,
        ValueRange::Dynamic(_) => ValueKind::Dynamic,
        ValueRange::Func(_) => ValueKind::Function,
        ValueRange::Param(_) => ValueKind::Param,
        ValueRange::NoRange => ValueKind::NoValue,
    }
}

/// The kind of value that a parameter with range `r` starts with when it
/// is selected for editing.
pub fn value_kind(r: ValueRange) -> (k: ValueKind)
    ensures
        k == range_kind(r),
{
    match r {
        ValueRange::Int(_, _) => ValueKind::Int,
        ValueRange::Float(_, _, _) => ValueKind::Float,
        ValueRange::Choice(_) => ValueKind::Choice,
        ValueRange::Dynamic(_) => ValueKind::Dynamic,
        ValueRange::Func(_) => ValueKind::Function,
        ValueRange::Param(_) => ValueKind::Param,
        ValueRange::NoRange => ValueKind::NoValue,
    }
}

/// The parameters that the sound data holds for each function, and the
/// kind of value each one takes. `None` marks a parameter the sound does
/// not hold: reading it is an error, writing it changes nothing. The
/// system function holds no values; it reads as no value for every
/// parameter.
pub open spec fn spec_sound_kind(function: Parameter, parameter: Parameter) -> Option<ValueKind> {
    match function {
        Parameter::Oscillator => match parameter {
            Parameter::Level => Some(ValueKind::Float),
            Parameter::Tune => Some(ValueKind::Int),
            Parameter::Finetune => Some(ValueKind::Float),
            Parameter::Sync => Some(ValueKind::Int),
            Parameter::KeyFollow => Some(ValueKind::Int),
            Parameter::Routing => Some(ValueKind::Choice),
            Parameter::Type => Some(ValueKind::Choice),
            Parameter::Wavetable => Some(ValueKind::Dynamic),
            Parameter::WaveIndex => Some(ValueKind::Float),
            Parameter::Voices => Some(ValueKind::Int),
            Parameter::Spread => Some(ValueKind::Float),
            _ => None,
        },
        Parameter::Filter => match parameter {
            Parameter::Type => Some(ValueKind::Choice),
            Parameter::Cutoff => Some(ValueKind::Float),
            Parameter::Resonance => Some(ValueKind::Float),
            Parameter::Gain => Some(ValueKind::Float),
            Parameter::Aux => Some(ValueKind::Float),
            Parameter::KeyFollow => Some(ValueKind::Int),
            _ => None,
        },
        Parameter::Lfo | Parameter::GlobalLfo => match parameter {
            Parameter::Waveform => Some(ValueKind::Choice),
            Parameter::Frequency => Some(ValueKind::Float),
            Parameter::Sync => Some(ValueKind::Choice),
            Parameter::Phase => Some(ValueKind::Float),
            Parameter::Amount => Some(ValueKind::Float),
            _ => None,
        },
        Parameter::Envelope => match parameter {
            Parameter::Attack => Some(ValueKind::Float),
            Parameter::Decay => Some(ValueKind::Float),
            Parameter::Sustain => Some(ValueKind::Float),
            Parameter::Release => Some(ValueKind::Float),
            Parameter::Factor => Some(ValueKind::Int),
            Parameter::Delay => Some(ValueKind::Float),
            Parameter::Loop => Some(ValueKind::Int),
            Parameter::ResetToZero => Some(ValueKind::Int),
            _ => None,
        },
        Parameter::Delay => match parameter {
            Parameter::Time => Some(ValueKind::Float),
            Parameter::Sync => Some(ValueKind::Choice),
            Parameter::Level => Some(ValueKind::Float),
            Parameter::Feedback => Some(ValueKind::Float),
            Parameter::Tone => Some(ValueKind::Float),
            Parameter::Type => Some(ValueKind::Choice),
            _ => None,
        },
        Parameter::Modulation => match parameter {
            Parameter::Source => Some(ValueKind::Function),
            Parameter::Target => Some(ValueKind::Param),
            Parameter::Amount => Some(ValueKind::Float),
            Parameter::Active => Some(ValueKind::Int),
            _ => None,
        },
        Parameter::Patch => match parameter {
            Parameter::Level => Some(ValueKind::Float),
            Parameter::Drive => Some(ValueKind::Float),
            Parameter::Pitchbend => Some(ValueKind::Int),
            Parameter::VelSens => Some(ValueKind::Float),
            Parameter::EnvDepth => Some(ValueKind::Float),
            Parameter::PlayMode => Some(ValueKind::Choice),
            Parameter::FilterRouting => Some(ValueKind::Choice),
            Parameter::Bpm => Some(ValueKind::Float),
            _ => None,
        },
        Parameter::System => Some(ValueKind::NoValue),
        _ => None,
    }
}

/// Looks up whether the sound holds `parameter` of `function`, and the kind
/// of value it takes.
pub fn sound_kind(function: Parameter, parameter: Parameter) -> (r: Option<ValueKind>)
    ensures
        r == spec_sound_kind(function, parameter),
{
    match function {
        Parameter::Oscillator => match parameter {
            Parameter::Level | Parameter::Finetune | Parameter::WaveIndex | Parameter::Spread => Some(ValueKind::Float),
            Parameter::Tune | Parameter::Sync | Parameter::KeyFollow | Parameter::Voices => Some(ValueKind::Int),
            Parameter::Routing | Parameter::Type => Some(ValueKind::Choice),
            Parameter::Wavetable => Some(ValueKind::Dynamic),
            _ => None,
        },
        Parameter::Filter => match parameter {
            Parameter::Type => Some(ValueKind::Choice),
            Parameter::Cutoff | Parameter::Resonance | Parameter::Gain | Parameter::Aux => Some(ValueKind::Float),
            Parameter::KeyFollow => Some(ValueKind::Int),
            _ => None,
        },
        Parameter::Lfo | Parameter::GlobalLfo => match parameter {
            Parameter::Waveform | Parameter::Sync => Some(ValueKind::Choice),
            Parameter::Frequency | Parameter::Phase | Parameter::Amount => Some(ValueKind::Float),
            _ => None,
        },
        Parameter::Envelope => match parameter {
            Parameter::Attack | Parameter::Decay | Parameter::Sustain | Parameter::Release | Parameter::Delay => Some(
                ValueKind::Float,
            ),
            Parameter::Factor | Parameter::Loop | Parameter::ResetToZero => Some(ValueKind::Int),
            _ => None,
        },
        Parameter::Delay => match parameter {
            Parameter::Time | Parameter::Level | Parameter::Feedback | Parameter::Tone => Some(ValueKind::Float),
            Parameter::Sync | Parameter::Type => Some(ValueKind::Choice),
            _ => None,
        },
        Parameter::Modulation => match parameter {
            Parameter::Source => Some(ValueKind::Function),
            Parameter::Target => Some(ValueKind::Param),
            Parameter::Amount => Some(ValueKind::Float),
            Parameter::Active => Some(ValueKind::Int),
            _ => None,
        },
        Parameter::Patch => match parameter {
            Parameter::Level | Parameter::Drive | Parameter::VelSens | Parameter::EnvDepth | Parameter::Bpm => Some(
                ValueKind::Float,
            ),
            Parameter::Pitchbend => Some(ValueKind::Int),
            Parameter::PlayMode | Parameter::FilterRouting => Some(ValueKind::Choice),
            _ => None,
        },
        Parameter::System => Some(ValueKind::NoValue),
        _ => None,
    }
}

/// How many instances of a function the sound holds (0 for a function
/// without sound data).
pub open spec fn spec_instance_count(function: Parameter) -> usize {
    match function {
        Parameter::Oscillator => NUM_OSCILLATORS,
        Parameter::Envelope => NUM_ENVELOPES,
        Parameter::Filter => NUM_FILTERS,
        Parameter::Lfo => NUM_LFOS,
        Parameter::GlobalLfo => NUM_GLOBAL_LFOS,
        Parameter::Modulation => NUM_MODULATORS,
        Parameter::Delay => 1,
        Parameter::Patch => 1,
        _ => 0,
    }
}

/// The position in the sound data of instance `function_id` (counted from
/// 1) of `function`, if the sound holds that instance.
pub fn instance_index(function: Parameter, function_id: usize) -> (r: Option<usize>)
    ensures
        r == (if 1 <= function_id <= spec_instance_count(function) {
            Some((function_id - 1) as usize)
        } else {
            None::<usize>
        }),
{
    let count: usize = match function {
        Parameter::Oscillator => NUM_OSCILLATORS,
        Parameter::Envelope => NUM_ENVELOPES,
        Parameter::Filter => NUM_FILTERS,
        Parameter::Lfo => NUM_LFOS,
        Parameter::GlobalLfo => NUM_GLOBAL_LFOS,
        Parameter::Modulation => NUM_MODULATORS,
        Parameter::Delay => 1,
        Parameter::Patch => 1,
        _ => 0,
    };
    if 1 <= function_id && function_id <= count {
        Some(function_id - 1)
    } else {
        None
    }
}

/// The position in the sound data that a parameter message addresses:
/// instance 0 of a function does not exist; the delay, the patch settings
/// and the system settings exist once and take any other instance number;
/// the instances of the other functions are placed by `instance_index`.
pub open spec fn spec_sound_index(function: Parameter, function_id: usize) -> Option<usize> {
    if function_id == 0 {
        None
    } else if function == Parameter::Delay || function == Parameter::Patch || function == Parameter::System {
        Some(0)
    } else if function_id <= spec_instance_count(function) {
        Some((function_id - 1) as usize)
    } else {
        None
    }
}

/// Computes the position in the sound data that a parameter message
/// addresses, if the sound holds it.
pub fn sound_index(function: Parameter, function_id: usize) -> (r: Option<usize>)
    ensures
        r == spec_sound_index(function, function_id),
{
    if function_id == 0 {
        None
    } else {
        match function {
            Parameter::Delay | Parameter::Patch | Parameter::System => Some(0),
            _ => instance_index(function, function_id),
        }
    }
}

/// The parameters that the menus offer but the sound does not hold: the
/// filter's envelope depth and the patch's voice count, spread, voice
/// allocation and pan origin.
pub open spec fn menu_only(function: Parameter, parameter: Parameter) -> bool {
    ||| function == Parameter::Filter && parameter == Parameter::EnvDepth
    ||| function == Parameter::Patch && (parameter == Parameter::Voices || parameter == Parameter::Spread
        || parameter == Parameter::Allocation || parameter == Parameter::PanOrigin)
}

/// The sound holds every parameter that the menus offer for a function,
/// except those of `menu_only`, with the kind of value that the
/// parameter's range gives it.
pub proof fn lemma_menu_kinds(i: int, j: int)
    requires
        0 <= i < menu(MenuList::Functions).len(),
        0 <= j < menu(menu(MenuList::Functions)[i].next).len(),
        !menu_only(menu(MenuList::Functions)[i].item, menu(menu(MenuList::Functions)[i].next)[j].item),
    ensures
        ({
            let f = menu(MenuList::Functions)[i];
            let p = menu(f.next)[j];
            spec_sound_kind(f.item, p.item) == Some(range_kind(p.val_range))
        }),
{
    lemma_small_index(i);
    lemma_small_index(j);
}

/// The instances that the function menu offers are exactly the instances
/// that the sound holds.
pub proof fn lemma_menu_instances(i: int)
    requires
        0 <= i < menu(MenuList::Functions).len(),
    ensures
        menu(MenuList::Functions)[i].val_range == ValueRange::Int(
            1,
            spec_instance_count(menu(MenuList::Functions)[i].item) as i64,
        ),
{
}

/// Every instance that the function menu offers addresses its own place in
/// the sound data: where the menu offers instances 1 to n of a function,
/// instance `id` of it is at position `id - 1` (so no two instances share
/// one), a larger instance of a function that exists several times is not
/// part of the sound, and instance 0 addresses nothing.
pub proof fn lemma_menu_instances_addressed(i: int, id: usize)
    requires
        0 <= i < menu(MenuList::Functions).len(),
    ensures
        menu(MenuList::Functions)[i].val_range matches ValueRange::Int(lo, hi) ==> {
            let f = menu(MenuList::Functions)[i].item;
            &&& lo == 1
            &&& (1 <= id <= hi ==> spec_sound_index(f, id) == Some((id - 1) as usize))
            &&& (id > hi && hi > 1 ==> spec_sound_index(f, id) is None)
            &&& (id == 0 ==> spec_sound_index(f, id) is None)
        },
        menu(MenuList::Functions)[i].val_range is Int,
{
    lemma_small_index(i);
}

/// Two instances of one function that are both part of the sound are at
/// the same position only if they are the same instance, unless the
/// function exists once.
pub proof fn lemma_sound_index_distinct(f: Parameter, a: usize, b: usize)
    requires
        spec_sound_index(f, a) is Some,
        spec_sound_index(f, a) == spec_sound_index(f, b),
        f != Parameter::Delay,
        f != Parameter::Patch,
        f != Parameter::System,
    ensures
        a == b,
{
}

/// Each list of choices names the options of the setting it selects, one
/// entry per option in the order of their positions: every position the
/// user interface can select is a valid option, and the entry shown for it
/// names that option.
pub proof fn lemma_choice_lists()
    ensures
        menu(MenuList::OscRouting).len() == 3,
        forall|r: OscRouting|
            #[trigger] menu(MenuList::OscRouting)[osc_routing_index(r)].item == match r {
                OscRouting::Filter1 => Parameter::Filter1,
                OscRouting::Filter2 => Parameter::Filter2,
                OscRouting::Direct => Parameter::Direct,
            },
        menu(MenuList::OscTypes).len() == 2,
        forall|t: OscType|
            #[trigger] menu(MenuList::OscTypes)[osc_type_index(t)].item == match t {
                OscType::Wavetable => Parameter::Wavetable,
                OscType::Noise => Parameter::Noise,
            },
        menu(MenuList::LfoWaveforms).len() == 7,
        forall|w: LfoWaveform|
            #[trigger] menu(MenuList::LfoWaveforms)[waveform_index(w)].item == match w {
                LfoWaveform::Sine => Parameter::Sine,
                LfoWaveform::Tri => Parameter::Triangle,
                LfoWaveform::Saw => Parameter::Saw,
                LfoWaveform::SawDown => Parameter::SawDown,
                LfoWaveform::Square => Parameter::Square,
                LfoWaveform::SnH => Parameter::SampleHold,
                LfoWaveform::Noise => Parameter::Noise,
            },
        menu(MenuList::SyncOptions).len() == 9,
        forall|v: SyncValue|
            #[trigger] menu(MenuList::SyncOptions)[sync_value_index(v)].item == match v {
                SyncValue::Off => Parameter::Off,
                SyncValue::Whole => Parameter::Whole,
                SyncValue::DottedHalf => Parameter::DottedHalf,
                SyncValue::Half => Parameter::Half,
                SyncValue::DottedQuarter => Parameter::DottedQuarter,
                SyncValue::Quarter => Parameter::Quarter,
                SyncValue::DottedEigth => Parameter::DottedEigth,
                SyncValue::Eigth => Parameter::Eigth,
                SyncValue::Sixteenth => Parameter::Sixteenth,
            },
        menu(MenuList::PlayModes).len() == 3,
        forall|m: PlayMode|
            #[trigger] menu(MenuList::PlayModes)[play_mode_index(m)].item == match m {
                PlayMode::Poly => Parameter::Poly,
                PlayMode::Mono => Parameter::Mono,
                PlayMode::Legato => Parameter::Legato,
            },
        menu(MenuList::FilterRoutings).len() == 2,
        forall|r: FilterRouting|
            #[trigger] menu(MenuList::FilterRoutings)[filter_routing_index(r)].item == match r {
                FilterRouting::Parallel => Parameter::Parallel,
                FilterRouting::Serial => Parameter::Serial,
            },
{
}

} // verus!
