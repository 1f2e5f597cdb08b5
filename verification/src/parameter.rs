//! Synth parameters and the menu tables that describe them.
//!
//! Every editable parameter belongs to a function (oscillator, envelope,
//! ...). The menu tables list, for each function, the parameters it offers,
//! the key that selects each one and the range of values it accepts.
use vstd::prelude::*;

verus! {

/// Identifier of a synth function, parameter or selectable option.
#[allow(non_camel_case_types)]
#[derive(Clone, Copy, Debug, PartialEq, Eq, Hash, Structural)]
pub enum Parameter {
    NoParam,
    Oscillator,
    Filter,
    Amp,
    Lfo,
    GlobalLfo,
    Envelope,
    Modulation,
    Delay,
    Patch,
    System,
    Waveform,
    Level,
    Wavetable,
    WaveIndex,
    Frequency,
    Tune,
    Finetune,
    Sync,
    KeyFollow,
    Routing,
    Voices,
    Spread,
    VelSens,
    EnvDepth,
    Phase,
    Filter1,
    Filter2,
    Direct,
    Type,
    Cutoff,
    Q,
    Resonance,
    Gain,
    Aux,
    RLPF,
    ResonZ,
    Moog,
    OnePole,
    SEM_LPF,
    SEM_BPF,
    SEM_HPF,
    SEM_BSF,
    K35_LPF,
    K35_HPF,
    OM_LPF,
    OM_BPF,
    OM_HPF,
    Volume,
    Drive,
    Attack,
    Decay,
    Sustain,
    Release,
    Factor,
    Loop,
    ResetToZero,
    Source,
    Target,
    Amount,
    Active,
    Sine,
    Triangle,
    Saw,
    SawDown,
    Square,
    Noise,
    SampleHold,
    Time,
    Feedback,
    Tone,
    Stereo,
    PingPong,
    KeyValue,
    Velocity,
    KeyAftertouch,
    Aftertouch,
    Pitchbend,
    ModWheel,
    SustainPedal,
    Idle,
    Busy,
    PlayMode,
    Poly,
    Mono,
    Legato,
    FilterRouting,
    Parallel,
    Serial,
    Bpm,
    Allocation,
    PanOrigin,
    Ascending,
    RoundRobin,
    Random,
    Center,
    Left,
    Right,
    Off,
    Whole,
    DottedHalf,
    Half,
    DottedQuarter,
    Quarter,
    DottedEigth,
    Eigth,
    Sixteenth,
}

impl Default for Parameter {
    fn default() -> (p: Self)
        ensures
            p == Parameter::Oscillator,
    {
        Parameter::Oscillator
    }
}

/// Identifies one instance of a function (e.g. oscillator 2).
#[derive(Clone, Copy, Debug, Default, PartialEq, Eq, Structural)]
pub struct FunctionId {
    pub function: Parameter,
    pub function_id: usize,
}

/// Identifies a synth parameter.
#[derive(Clone, Copy, Debug, Default, PartialEq, Eq, Hash, Structural)]
pub struct ParamId {
    pub function: Parameter,
    pub function_id: usize,
    pub parameter: Parameter,
}

impl ParamId {
    pub fn new(function: Parameter, function_id: usize, parameter: Parameter) -> (p: Self)
        ensures
            p.function == function,
            p.function_id == function_id,
            p.parameter == parameter,
    {
        ParamId { function, function_id, parameter }
    }

    pub fn set(&mut self, func: Parameter, func_id: usize, param: Parameter)
        ensures
            final(self).function == func,
            final(self).function_id == func_id,
            final(self).parameter == param,
    {
        self.function = func;
        self.function_id = func_id;
        self.parameter = param;
    }
}

/// Names one of the static menu lists.
#[derive(Clone, Copy, Debug, PartialEq, Eq, Structural)]
pub enum MenuList {
    Functions,
    OscParams,
    OscRouting,
    OscTypes,
    LfoParams,
    FilterParams,
    FilterTypes,
    EnvParams,
    LfoWaveforms,
    SyncOptions,
    DelayParams,
    DelayTypes,
    ModParams,
    PatchParams,
    ModSources,
    ModTargets,
    ModTargetParams,
    PlayModes,
    FilterRoutings,
    VoiceAllocations,
    PanOrigins,
    Empty,
}

/// The values a parameter accepts.
///
/// Fractional bounds are kept exactly as integers counting thousandths:
/// `Float(0, 100000, 1000)` is the range 0.0 to 100.0 in steps of 1.0.
#[derive(Clone, Copy, Debug, PartialEq, Eq, Structural)]
pub enum ValueRange {
    /// Integer range (minimum, maximum).
    Int(i64, i64),
    /// Fractional range (minimum, maximum, step), in thousandths.
    Float(i64, i64, i64),
    /// Index into a static list.
    Choice(MenuList),
    /// Index into a list that is only known at run time.
    Dynamic(Parameter),
    /// A function selected from a list (e.g. modulation source).
    Func(MenuList),
    /// A parameter selected from a list (e.g. modulation target).
    Param(MenuList),
    /// No value.
    NoRange,
}

/// Lowest and highest value of a range that holds numbers, in the range's
/// own units: integers, thousandths, or positions in a list of choices.
/// `None` for the other kinds, for bounds out of order and for an empty
/// list.
pub open spec fn range_limits(r: ValueRange) -> Option<(int, int)> {
    match r {
        ValueRange::Int(min, max) => if min <= max {
            Some((min as int, max as int))
        } else {
            None
        },
        ValueRange::Float(min, max, _) => if min <= max {
            Some((min as int, max as int))
        } else {
            None
        },
        ValueRange::Choice(list) => if menu(list).len() > 0 {
            Some((0, menu(list).len() - 1))
        } else {
            None
        },
        _ => None,
    }
}

/// Amount that one step of a controller moves a value: the step of a
/// fractional range, else one.
pub open spec fn range_step(r: ValueRange) -> int {
    match r {
        ValueRange::Float(_, _, step) => step as int,
        _ => 1,
    }
}

/// The value that controller position `v` (0 to 127) selects between `lo`
/// and `hi`: `lo + (hi - lo) * v / 127`, rounded to the nearest unit, halves
/// up.
pub open spec fn scaled_value(lo: int, hi: int, v: int) -> int {
    lo + ((hi - lo) * 2 * v + 127) / 254
}

/// `x` limited to `lo ..= hi`.
pub open spec fn limited(x: int, lo: int, hi: int) -> int {
    if x < lo {
        lo
    } else if x > hi {
        hi
    } else {
        x
    }
}

proof fn lemma_scaled_in_range(lo: int, hi: int, v: int)
    requires
        lo <= hi,
        0 <= v <= 127,
    ensures
        lo <= scaled_value(lo, hi, v) <= hi,
{
    let d = hi - lo;
    assert(0 <= d * 2 * v + 127 <= d * 254 + 127) by (nonlinear_arith)
        requires
            d >= 0,
            0 <= v <= 127,
    ;
    assert((d * 254 + 127) / 254 == d) by (nonlinear_arith)
        requires
            d >= 0,
    ;
    assert(0 <= (d * 2 * v + 127) / 254 <= (d * 254 + 127) / 254) by (nonlinear_arith)
        requires
            0 <= d * 2 * v + 127 <= d * 254 + 127,
    ;
}

impl ValueRange {
    /// Limits of the range as `i128`, as `range_limits` gives them.
    fn limits(&self) -> (r: Option<(i128, i128)>)
        ensures
            r is None <==> range_limits(*self) is None,
            r matches Some(l) ==> range_limits(*self) == Some((l.0 as int, l.1 as int)),
            r matches Some(l) ==> i64::MIN <= l.0 <= l.1 <= i64::MAX,
    {
        match *self {
            ValueRange::Int(min, max) => if min <= max {
                Some((min as i128, max as i128))
            } else {
                None
            },
            ValueRange::Float(min, max, _) => if min <= max {
                Some((min as i128, max as i128))
            } else {
                None
            },
            ValueRange::Choice(list) => {
                let n = menu_items(list).len();
                if n > 0 {
                    Some((0, (n - 1) as i128))
                } else {
                    None
                }
            },
            _ => None,
        }
    }

    /// Translates a controller position (0 to 127; larger positions count
    /// as 127) into a value of the range, in the range's own units. `None`
    /// where the range holds no numbers.
    pub fn translate_value(&self, value: u64) -> (r: Option<i64>)
        ensures
            r is None <==> range_limits(*self) is None,
            r matches Some(x) ==> ({
                let l = range_limits(*self)->0;
                x == scaled_value(l.0, l.1, if value > 127 { 127 } else { value as int })
            }),
    {
        let v: i128 = if value > 127 {
            127
        } else {
            value as i128
        };
        match self.limits() {
            None => None,
            Some((lo, hi)) => {
                proof {
                    lemma_scaled_in_range(lo as int, hi as int, v as int);
                    assert((hi - lo) * 2 * v + 127 <= 0x1_0000_0000_0000_0000 * 254 + 127) by (nonlinear_arith)
                        requires
                            0 <= hi - lo < 0x1_0000_0000_0000_0000,
                            0 <= v <= 127,
                    ;
                    assert(0 <= (hi - lo) * 2 * v) by (nonlinear_arith)
                        requires
                            0 <= hi - lo,
                            0 <= v,
                    ;
                }
                let num: i128 = (hi - lo) * 2 * v + 127;
                Some((lo + num / 254) as i64)
            },
        }
    }

    /// Moves `current` by `delta` steps of the range and limits the result
    /// to the range, in the range's own units. `None` where the range holds
    /// no numbers.
    pub fn add_value(&self, current: i64, delta: i64) -> (r: Option<i64>)
        ensures
            r is None <==> range_limits(*self) is None,
            r matches Some(x) ==> ({
                let l = range_limits(*self)->0;
                x == limited(current + delta * range_step(*self), l.0, l.1)
            }),
    {
        let step: i64 = match *self {
            ValueRange::Float(_, _, step) => step,
            _ => 1,
        };
        match self.limits() {
            None => None,
            Some((lo, hi)) => {
                proof {
                    assert(-0x4000_0000_0000_0000_0000_0000_0000_0000 <= delta * step
                        <= 0x4000_0000_0000_0000_0000_0000_0000_0000) by (nonlinear_arith)
                        requires
                            i64::MIN <= delta <= i64::MAX,
                            i64::MIN <= step <= i64::MAX,
                    ;
                }
                let x: i128 = current as i128 + (delta as i128) * (step as i128);
                if x < lo {
                    Some(lo as i64)
                } else if x > hi {
                    Some(hi as i64)
                } else {
                    Some(x as i64)
                }
            },
        }
    }
}

impl Default for ValueRange {
    fn default() -> (r: Self)
        ensures
            r == ValueRange::NoRange,
    {
        ValueRange::NoRange
    }
}

/// Item of a list of selectable functions or parameters.
#[derive(Clone, Copy, Debug, PartialEq, Eq, Structural)]
pub struct MenuItem {
    pub item: Parameter,
    pub key: char,
    pub val_range: ValueRange,
    pub next: MenuList,
}

/// The contents of each menu list.
pub open spec fn menu(list: MenuList) -> Seq<MenuItem> {
    match list {
        MenuList::Functions => seq![
            MenuItem { item: Parameter::Oscillator, key: 'o', val_range: ValueRange::Int(1, 3), next: MenuList::OscParams },
            MenuItem { item: Parameter::Envelope, key: 'e', val_range: ValueRange::Int(1, 3), next: MenuList::EnvParams },
            MenuItem { item: Parameter::Lfo, key: 'l', val_range: ValueRange::Int(1, 2), next: MenuList::LfoParams },
            MenuItem { item: Parameter::GlobalLfo, key: 'g', val_range: ValueRange::Int(1, 2), next: MenuList::LfoParams },
            MenuItem { item: Parameter::Filter, key: 'f', val_range: ValueRange::Int(1, 2), next: MenuList::FilterParams },
            MenuItem { item: Parameter::Delay, key: 'd', val_range: ValueRange::Int(1, 1), next: MenuList::DelayParams },
            MenuItem { item: Parameter::Modulation, key: 'm', val_range: ValueRange::Int(1, 16), next: MenuList::ModParams },
            MenuItem { item: Parameter::Patch, key: 'p', val_range: ValueRange::Int(1, 1), next: MenuList::PatchParams },
        ],
        MenuList::OscParams => seq![
            MenuItem { item: Parameter::Level, key: 'l', val_range: ValueRange::Float(0, 100000, 1000), next: MenuList::Empty },
            MenuItem { item: Parameter::Tune, key: 't', val_range: ValueRange::Int(-24i64, 24), next: MenuList::Empty },
            MenuItem { item: Parameter::Finetune, key: 'f', val_range: ValueRange::Float(-100000i64, 100000, 1000), next: MenuList::Empty },
            MenuItem { item: Parameter::Sync, key: 's', val_range: ValueRange::Int(0, 1), next: MenuList::Empty },
            MenuItem { item: Parameter::KeyFollow, key: 'k', val_range: ValueRange::Int(0, 1), next: MenuList::Empty },
            MenuItem { item: Parameter::Routing, key: 'r', val_range: ValueRange::Choice(MenuList::OscRouting), next: MenuList::Empty },
            MenuItem { item: Parameter::Type, key: 'y', val_range: ValueRange::Choice(MenuList::OscTypes), next: MenuList::Empty },
            MenuItem { item: Parameter::Wavetable, key: 'w', val_range: ValueRange::Dynamic(Parameter::Wavetable), next: MenuList::Empty },
            MenuItem { item: Parameter::WaveIndex, key: 'i', val_range: ValueRange::Float(0, 1000, 10), next: MenuList::Empty },
            MenuItem { item: Parameter::Voices, key: 'v', val_range: ValueRange::Int(1, 7), next: MenuList::Empty },
            MenuItem { item: Parameter::Spread, key: 'e', val_range: ValueRange::Float(0, 2000, 10), next: MenuList::Empty },
        ],
        MenuList::OscRouting => seq![
            MenuItem { item: Parameter::Filter1, key: '1', val_range: ValueRange::NoRange, next: MenuList::Empty },
            MenuItem { item: Parameter::Filter2, key: '2', val_range: ValueRange::NoRange, next: MenuList::Empty },
            MenuItem { item: Parameter::Direct, key: 'd', val_range: ValueRange::NoRange, next: MenuList::Empty },
        ],
        MenuList::OscTypes => seq![
            MenuItem { item: Parameter::Wavetable, key: 'w', val_range: ValueRange::NoRange, next: MenuList::Empty },
            MenuItem { item: Parameter::Noise, key: 'n', val_range: ValueRange::NoRange, next: MenuList::Empty },
        ],
        MenuList::LfoParams => seq![
            MenuItem { item: Parameter::Waveform, key: 'w', val_range: ValueRange::Choice(MenuList::LfoWaveforms), next: MenuList::Empty },
            MenuItem { item: Parameter::Frequency, key: 'f', val_range: ValueRange::Float(0, 44100, 100), next: MenuList::Empty },
            MenuItem { item: Parameter::Sync, key: 's', val_range: ValueRange::Choice(MenuList::SyncOptions), next: MenuList::Empty },
            MenuItem { item: Parameter::Phase, key: 'p', val_range: ValueRange::Float(0, 1000, 10), next: MenuList::Empty },
            MenuItem { item: Parameter::Amount, key: 'a', val_range: ValueRange::Float(0, 1000, 10), next: MenuList::Empty },
        ],
        MenuList::FilterParams => seq![
            MenuItem { item: Parameter::Type, key: 't', val_range: ValueRange::Choice(MenuList::FilterTypes), next: MenuList::Empty },
            MenuItem { item: Parameter::Cutoff, key: 'c', val_range: ValueRange::Float(1000, 8000000, 20000), next: MenuList::Empty },
            MenuItem { item: Parameter::Resonance, key: 'r', val_range: ValueRange::Float(0, 1000, 10), next: MenuList::Empty },
            MenuItem { item: Parameter::Gain, key: 'g', val_range: ValueRange::Float(0, 2000, 10), next: MenuList::Empty },
            MenuItem { item: Parameter::Aux, key: 'a', val_range: ValueRange::Float(0, 1000, 10), next: MenuList::Empty },
            MenuItem { item: Parameter::EnvDepth, key: 'e', val_range: ValueRange::Float(0, 1000, 10), next: MenuList::Empty },
            MenuItem { item: Parameter::KeyFollow, key: 'k', val_range: ValueRange::Int(0, 1), next: MenuList::Empty },
        ],
        MenuList::FilterTypes => seq![
            MenuItem { item: Parameter::NoParam, key: 'n', val_range: ValueRange::NoRange, next: MenuList::Empty },
            MenuItem { item: Parameter::SEM_LPF, key: 's', val_range: ValueRange::NoRange, next: MenuList::Empty },
            MenuItem { item: Parameter::SEM_BPF, key: 'b', val_range: ValueRange::NoRange, next: MenuList::Empty },
            MenuItem { item: Parameter::SEM_HPF, key: 'h', val_range: ValueRange::NoRange, next: MenuList::Empty },
            MenuItem { item: Parameter::SEM_BSF, key: 'o', val_range: ValueRange::NoRange, next: MenuList::Empty },
            MenuItem { item: Parameter::K35_LPF, key: 'k', val_range: ValueRange::NoRange, next: MenuList::Empty },
            MenuItem { item: Parameter::K35_HPF, key: 'p', val_range: ValueRange::NoRange, next: MenuList::Empty },
            MenuItem { item: Parameter::OM_LPF, key: 'm', val_range: ValueRange::NoRange, next: MenuList::Empty },
            MenuItem { item: Parameter::OM_BPF, key: 'g', val_range: ValueRange::NoRange, next: MenuList::Empty },
            MenuItem { item: Parameter::OM_HPF, key: 'f', val_range: ValueRange::NoRange, next: MenuList::Empty },
        ],
        MenuList::EnvParams => seq![
            MenuItem { item: Parameter::Attack, key: 'a', val_range: ValueRange::Float(1000, 4000000, 1000), next: MenuList::Empty },
            MenuItem { item: Parameter::Decay, key: 'd', val_range: ValueRange::Float(1000, 4000000, 1000), next: MenuList::Empty },
            MenuItem { item: Parameter::Sustain, key: 's', val_range: ValueRange::Float(0, 1000, 1), next: MenuList::Empty },
            MenuItem { item: Parameter::Release, key: 'r', val_range: ValueRange::Float(1000, 8000000, 1000), next: MenuList::Empty },
            MenuItem { item: Parameter::Factor, key: 'f', val_range: ValueRange::Int(1, 5), next: MenuList::Empty },
            MenuItem { item: Parameter::Delay, key: 'e', val_range: ValueRange::Float(0, 4000000, 1000), next: MenuList::Empty },
            MenuItem { item: Parameter::Loop, key: 'l', val_range: ValueRange::Int(0, 1), next: MenuList::Empty },
            MenuItem { item: Parameter::ResetToZero, key: 'z', val_range: ValueRange::Int(0, 1), next: MenuList::Empty },
        ],
        MenuList::LfoWaveforms => seq![
            MenuItem { item: Parameter::Sine, key: 's', val_range: ValueRange::NoRange, next: MenuList::Empty },
            MenuItem { item: Parameter::Triangle, key: 't', val_range: ValueRange::NoRange, next: MenuList::Empty },
            MenuItem { item: Parameter::Saw, key: 'w', val_range: ValueRange::NoRange, next: MenuList::Empty },
            MenuItem { item: Parameter::SawDown, key: 'd', val_range: ValueRange::NoRange, next: MenuList::Empty },
            MenuItem { item: Parameter::Square, key: 'q', val_range: ValueRange::NoRange, next: MenuList::Empty },
            MenuItem { item: Parameter::SampleHold, key: 'h', val_range: ValueRange::NoRange, next: MenuList::Empty },
            MenuItem { item: Parameter::Noise, key: 'n', val_range: ValueRange::NoRange, next: MenuList::Empty },
        ],
        MenuList::SyncOptions => seq![
            MenuItem { item: Parameter::Off, key: 'o', val_range: ValueRange::NoRange, next: MenuList::Empty },
            MenuItem { item: Parameter::Whole, key: 'w', val_range: ValueRange::NoRange, next: MenuList::Empty },
            MenuItem { item: Parameter::DottedHalf, key: 't', val_range: ValueRange::NoRange, next: MenuList::Empty },
            MenuItem { item: Parameter::Half, key: 'h', val_range: ValueRange::NoRange, next: MenuList::Empty },
            MenuItem { item: Parameter::DottedQuarter, key: 'u', val_range: ValueRange::NoRange, next: MenuList::Empty },
            MenuItem { item: Parameter::Quarter, key: 'q', val_range: ValueRange::NoRange, next: MenuList::Empty },
            MenuItem { item: Parameter::DottedEigth, key: 'd', val_range: ValueRange::NoRange, next: MenuList::Empty },
            MenuItem { item: Parameter::Eigth, key: 'e', val_range: ValueRange::NoRange, next: MenuList::Empty },
            MenuItem { item: Parameter::Sixteenth, key: 's', val_range: ValueRange::NoRange, next: MenuList::Empty },
        ],
        MenuList::DelayParams => seq![
            MenuItem { item: Parameter::Time, key: 't', val_range: ValueRange::Float(10, 1000, 10), next: MenuList::Empty },
            MenuItem { item: Parameter::Sync, key: 's', val_range: ValueRange::Choice(MenuList::SyncOptions), next: MenuList::Empty },
            MenuItem { item: Parameter::Level, key: 'l', val_range: ValueRange::Float(0, 1000, 10), next: MenuList::Empty },
            MenuItem { item: Parameter::Feedback, key: 'f', val_range: ValueRange::Float(0, 1000, 10), next: MenuList::Empty },
            MenuItem { item: Parameter::Tone, key: 'o', val_range: ValueRange::Float(100000, 5000000, 1000), next: MenuList::Empty },
            MenuItem { item: Parameter::Type, key: 'y', val_range: ValueRange::Choice(MenuList::DelayTypes), next: MenuList::Empty },
        ],
        MenuList::DelayTypes => seq![
            MenuItem { item: Parameter::Stereo, key: 's', val_range: ValueRange::NoRange, next: MenuList::Empty },
            MenuItem { item: Parameter::PingPong, key: 'p', val_range: ValueRange::NoRange, next: MenuList::Empty },
        ],
        MenuList::ModParams => seq![
            MenuItem { item: Parameter::Source, key: 's', val_range: ValueRange::Func(MenuList::ModSources), next: MenuList::ModSources },
            MenuItem { item: Parameter::Target, key: 't', val_range: ValueRange::Param(MenuList::ModTargets), next: MenuList::ModTargets },
            MenuItem { item: Parameter::Amount, key: 'a', val_range: ValueRange::Float(-1000i64, 1000, 10), next: MenuList::Empty },
            MenuItem { item: Parameter::Active, key: 'v', val_range: ValueRange::Int(0, 1), next: MenuList::Empty },
        ],
        MenuList::PatchParams => seq![
            MenuItem { item: Parameter::Level, key: 'l', val_range: ValueRange::Float(0, 100000, 1000), next: MenuList::Empty },
            MenuItem { item: Parameter::Drive, key: 'd', val_range: ValueRange::Float(0, 10000, 1000), next: MenuList::Empty },
            MenuItem { item: Parameter::Pitchbend, key: 'p', val_range: ValueRange::Int(0, 12), next: MenuList::Empty },
            MenuItem { item: Parameter::VelSens, key: 'v', val_range: ValueRange::Float(0, 1000, 10), next: MenuList::Empty },
            MenuItem { item: Parameter::EnvDepth, key: 'e', val_range: ValueRange::Float(0, 1000, 10), next: MenuList::Empty },
            MenuItem { item: Parameter::PlayMode, key: 'm', val_range: ValueRange::Choice(MenuList::PlayModes), next: MenuList::Empty },
            MenuItem { item: Parameter::FilterRouting, key: 'f', val_range: ValueRange::Choice(MenuList::FilterRoutings), next: MenuList::Empty },
            MenuItem { item: Parameter::Bpm, key: 'b', val_range: ValueRange::Float(1000, 240000, 1000), next: MenuList::Empty },
            MenuItem { item: Parameter::Voices, key: 'n', val_range: ValueRange::Int(1, 32), next: MenuList::Empty },
            MenuItem { item: Parameter::Spread, key: 's', val_range: ValueRange::Float(0, 1000, 10), next: MenuList::Empty },
            MenuItem { item: Parameter::Allocation, key: 'a', val_range: ValueRange::Choice(MenuList::VoiceAllocations), next: MenuList::Empty },
            MenuItem { item: Parameter::PanOrigin, key: 'o', val_range: ValueRange::Choice(MenuList::PanOrigins), next: MenuList::Empty },
        ],
        MenuList::ModSources => seq![
            MenuItem { item: Parameter::Oscillator, key: 'o', val_range: ValueRange::Int(1, 3), next: MenuList::OscParams },
            MenuItem { item: Parameter::Envelope, key: 'e', val_range: ValueRange::Int(1, 3), next: MenuList::EnvParams },
            MenuItem { item: Parameter::Lfo, key: 'l', val_range: ValueRange::Int(1, 2), next: MenuList::LfoParams },
            MenuItem { item: Parameter::Velocity, key: 'v', val_range: ValueRange::Int(1, 1), next: MenuList::LfoParams },
            MenuItem { item: Parameter::GlobalLfo, key: 'g', val_range: ValueRange::Int(1, 2), next: MenuList::LfoParams },
            MenuItem { item: Parameter::Aftertouch, key: 'a', val_range: ValueRange::Int(1, 1), next: MenuList::LfoParams },
            MenuItem { item: Parameter::Pitchbend, key: 'p', val_range: ValueRange::Int(1, 1), next: MenuList::LfoParams },
            MenuItem { item: Parameter::ModWheel, key: 'm', val_range: ValueRange::Int(1, 1), next: MenuList::LfoParams },
            MenuItem { item: Parameter::SustainPedal, key: 's', val_range: ValueRange::Int(1, 1), next: MenuList::LfoParams },
        ],
        MenuList::ModTargets => seq![
            MenuItem { item: Parameter::Oscillator, key: 'o', val_range: ValueRange::Int(1, 3), next: MenuList::OscParams },
            MenuItem { item: Parameter::Envelope, key: 'e', val_range: ValueRange::Int(1, 2), next: MenuList::EnvParams },
            MenuItem { item: Parameter::Lfo, key: 'l', val_range: ValueRange::Int(1, 2), next: MenuList::LfoParams },
            MenuItem { item: Parameter::GlobalLfo, key: 'g', val_range: ValueRange::Int(1, 2), next: MenuList::LfoParams },
            MenuItem { item: Parameter::Filter, key: 'f', val_range: ValueRange::Int(1, 2), next: MenuList::FilterParams },
            MenuItem { item: Parameter::Delay, key: 'd', val_range: ValueRange::Int(1, 1), next: MenuList::DelayParams },
            MenuItem { item: Parameter::Modulation, key: 'm', val_range: ValueRange::Int(1, 16), next: MenuList::ModTargetParams },
        ],
        MenuList::ModTargetParams => seq![
            MenuItem { item: Parameter::Amount, key: 'a', val_range: ValueRange::Float(0, 1000, 10), next: MenuList::Empty },
            MenuItem { item: Parameter::Active, key: 'v', val_range: ValueRange::Int(0, 1), next: MenuList::Empty },
        ],
        MenuList::PlayModes => seq![
            MenuItem { item: Parameter::Poly, key: 'p', val_range: ValueRange::NoRange, next: MenuList::Empty },
            MenuItem { item: Parameter::Mono, key: 'm', val_range: ValueRange::NoRange, next: MenuList::Empty },
            MenuItem { item: Parameter::Legato, key: 'l', val_range: ValueRange::NoRange, next: MenuList::Empty },
        ],
        MenuList::FilterRoutings => seq![
            MenuItem { item: Parameter::Parallel, key: 'p', val_range: ValueRange::NoRange, next: MenuList::Empty },
            MenuItem { item: Parameter::Serial, key: 's', val_range: ValueRange::NoRange, next: MenuList::Empty },
        ],
        MenuList::VoiceAllocations => seq![
            MenuItem { item: Parameter::RoundRobin, key: 'r', val_range: ValueRange::NoRange, next: MenuList::Empty },
            MenuItem { item: Parameter::Ascending, key: 'a', val_range: ValueRange::NoRange, next: MenuList::Empty },
            MenuItem { item: Parameter::Random, key: 'o', val_range: ValueRange::NoRange, next: MenuList::Empty },
        ],
        MenuList::PanOrigins => seq![
            MenuItem { item: Parameter::Center, key: 'c', val_range: ValueRange::NoRange, next: MenuList::Empty },
            MenuItem { item: Parameter::Left, key: 'l', val_range: ValueRange::NoRange, next: MenuList::Empty },
            MenuItem { item: Parameter::Right, key: 'r', val_range: ValueRange::NoRange, next: MenuList::Empty },
        ],
        MenuList::Empty => Seq::empty(),
    }
}

fn items_functions() -> (v: Vec<MenuItem>)
    ensures
        v@ == menu(MenuList::Functions),
{
    let mut v: Vec<MenuItem> = Vec::new();
    v.push(MenuItem { item: Parameter::Oscillator, key: 'o', val_range: ValueRange::Int(1, 3), next: MenuList::OscParams });
    v.push(MenuItem { item: Parameter::Envelope, key: 'e', val_range: ValueRange::Int(1, 3), next: MenuList::EnvParams });
    v.push(MenuItem { item: Parameter::Lfo, key: 'l', val_range: ValueRange::Int(1, 2), next: MenuList::LfoParams });
    v.push(MenuItem { item: Parameter::GlobalLfo, key: 'g', val_range: ValueRange::Int(1, 2), next: MenuList::LfoParams });
    v.push(MenuItem { item: Parameter::Filter, key: 'f', val_range: ValueRange::Int(1, 2), next: MenuList::FilterParams });
    v.push(MenuItem { item: Parameter::Delay, key: 'd', val_range: ValueRange::Int(1, 1), next: MenuList::DelayParams });
    v.push(MenuItem { item: Parameter::Modulation, key: 'm', val_range: ValueRange::Int(1, 16), next: MenuList::ModParams });
    v.push(MenuItem { item: Parameter::Patch, key: 'p', val_range: ValueRange::Int(1, 1), next: MenuList::PatchParams });
    v
}

fn items_osc_params() -> (v: Vec<MenuItem>)
    ensures
        v@ == menu(MenuList::OscParams),
{
    let mut v: Vec<MenuItem> = Vec::new();
    v.push(MenuItem { item: Parameter::Level, key: 'l', val_range: ValueRange::Float(0, 100000, 1000), next: MenuList::Empty });
    v.push(MenuItem { item: Parameter::Tune, key: 't', val_range: ValueRange::Int(-24i64, 24), next: MenuList::Empty });
    v.push(MenuItem { item: Parameter::Finetune, key: 'f', val_range: ValueRange::Float(-100000i64, 100000, 1000), next: MenuList::Empty });
    v.push(MenuItem { item: Parameter::Sync, key: 's', val_range: ValueRange::Int(0, 1), next: MenuList::Empty });
    v.push(MenuItem { item: Parameter::KeyFollow, key: 'k', val_range: ValueRange::Int(0, 1), next: MenuList::Empty });
    v.push(MenuItem { item: Parameter::Routing, key: 'r', val_range: ValueRange::Choice(MenuList::OscRouting), next: MenuList::Empty });
    v.push(MenuItem { item: Parameter::Type, key: 'y', val_range: ValueRange::Choice(MenuList::OscTypes), next: MenuList::Empty });
    v.push(MenuItem { item: Parameter::Wavetable, key: 'w', val_range: ValueRange::Dynamic(Parameter::Wavetable), next: MenuList::Empty });
    v.push(MenuItem { item: Parameter::WaveIndex, key: 'i', val_range: ValueRange::Float(0, 1000, 10), next: MenuList::Empty });
    v.push(MenuItem { item: Parameter::Voices, key: 'v', val_range: ValueRange::Int(1, 7), next: MenuList::Empty });
    v.push(MenuItem { item: Parameter::Spread, key: 'e', val_range: ValueRange::Float(0, 2000, 10), next: MenuList::Empty });
    v
}

fn items_osc_routing() -> (v: Vec<MenuItem>)
    ensures
        v@ == menu(MenuList::OscRouting),
{
    let mut v: Vec<MenuItem> = Vec::new();
    v.push(MenuItem { item: Parameter::Filter1, key: '1', val_range: ValueRange::NoRange, next: MenuList::Empty });
    v.push(MenuItem { item: Parameter::Filter2, key: '2', val_range: ValueRange::NoRange, next: MenuList::Empty });
    v.push(MenuItem { item: Parameter::Direct, key: 'd', val_range: ValueRange::NoRange, next: MenuList::Empty });
    v
}

fn items_osc_types() -> (v: Vec<MenuItem>)
    ensures
        v@ == menu(MenuList::OscTypes),
{
    let mut v: Vec<MenuItem> = Vec::new();
    v.push(MenuItem { item: Parameter::Wavetable, key: 'w', val_range: ValueRange::NoRange, next: MenuList::Empty });
    v.push(MenuItem { item: Parameter::Noise, key: 'n', val_range: ValueRange::NoRange, next: MenuList::Empty });
    v
}

fn items_lfo_params() -> (v: Vec<MenuItem>)
    ensures
        v@ == menu(MenuList::LfoParams),
{
    let mut v: Vec<MenuItem> = Vec::new();
    v.push(MenuItem { item: Parameter::Waveform, key: 'w', val_range: ValueRange::Choice(MenuList::LfoWaveforms), next: MenuList::Empty });
    v.push(MenuItem { item: Parameter::Frequency, key: 'f', val_range: ValueRange::Float(0, 44100, 100), next: MenuList::Empty });
    v.push(MenuItem { item: Parameter::Sync, key: 's', val_range: ValueRange::Choice(MenuList::SyncOptions), next: MenuList::Empty });
    v.push(MenuItem { item: Parameter::Phase, key: 'p', val_range: ValueRange::Float(0, 1000, 10), next: MenuList::Empty });
    v.push(MenuItem { item: Parameter::Amount, key: 'a', val_range: ValueRange::Float(0, 1000, 10), next: MenuList::Empty });
    v
}

fn items_filter_params() -> (v: Vec<MenuItem>)
    ensures
        v@ == menu(MenuList::FilterParams),
{
    let mut v: Vec<MenuItem> = Vec::new();
    v.push(MenuItem { item: Parameter::Type, key: 't', val_range: ValueRange::Choice(MenuList::FilterTypes), next: MenuList::Empty });
    v.push(MenuItem { item: Parameter::Cutoff, key: 'c', val_range: ValueRange::Float(1000, 8000000, 20000), next: MenuList::Empty });
    v.push(MenuItem { item: Parameter::Resonance, key: 'r', val_range: ValueRange::Float(0, 1000, 10), next: MenuList::Empty });
    v.push(MenuItem { item: Parameter::Gain, key: 'g', val_range: ValueRange::Float(0, 2000, 10), next: MenuList::Empty });
    v.push(MenuItem { item: Parameter::Aux, key: 'a', val_range: ValueRange::Float(0, 1000, 10), next: MenuList::Empty });
    v.push(MenuItem { item: Parameter::EnvDepth, key: 'e', val_range: ValueRange::Float(0, 1000, 10), next: MenuList::Empty });
    v.push(MenuItem { item: Parameter::KeyFollow, key: 'k', val_range: ValueRange::Int(0, 1), next: MenuList::Empty });
    v
}

fn items_filter_types() -> (v: Vec<MenuItem>)
    ensures
        v@ == menu(MenuList::FilterTypes),
{
    let mut v: Vec<MenuItem> = Vec::new();
    v.push(MenuItem { item: Parameter::NoParam, key: 'n', val_range: ValueRange::NoRange, next: MenuList::Empty });
    v.push(MenuItem { item: Parameter::SEM_LPF, key: 's', val_range: ValueRange::NoRange, next: MenuList::Empty });
    v.push(MenuItem { item: Parameter::SEM_BPF, key: 'b', val_range: ValueRange::NoRange, next: MenuList::Empty });
    v.push(MenuItem { item: Parameter::SEM_HPF, key: 'h', val_range: ValueRange::NoRange, next: MenuList::Empty });
    v.push(MenuItem { item: Parameter::SEM_BSF, key: 'o', val_range: ValueRange::NoRange, next: MenuList::Empty });
    v.push(MenuItem { item: Parameter::K35_LPF, key: 'k', val_range: ValueRange::NoRange, next: MenuList::Empty });
    v.push(MenuItem { item: Parameter::K35_HPF, key: 'p', val_range: ValueRange::NoRange, next: MenuList::Empty });
    v.push(MenuItem { item: Parameter::OM_LPF, key: 'm', val_range: ValueRange::NoRange, next: MenuList::Empty });
    v.push(MenuItem { item: Parameter::OM_BPF, key: 'g', val_range: ValueRange::NoRange, next: MenuList::Empty });
    v.push(MenuItem { item: Parameter::OM_HPF, key: 'f', val_range: ValueRange::NoRange, next: MenuList::Empty });
    v
}

fn items_env_params() -> (v: Vec<MenuItem>)
    ensures
        v@ == menu(MenuList::EnvParams),
{
    let mut v: Vec<MenuItem> = Vec::new();
    v.push(MenuItem { item: Parameter::Attack, key: 'a', val_range: ValueRange::Float(1000, 4000000, 1000), next: MenuList::Empty });
    v.push(MenuItem { item: Parameter::Decay, key: 'd', val_range: ValueRange::Float(1000, 4000000, 1000), next: MenuList::Empty });
    v.push(MenuItem { item: Parameter::Sustain, key: 's', val_range: ValueRange::Float(0, 1000, 1), next: MenuList::Empty });
    v.push(MenuItem { item: Parameter::Release, key: 'r', val_range: ValueRange::Float(1000, 8000000, 1000), next: MenuList::Empty });
    v.push(MenuItem { item: Parameter::Factor, key: 'f', val_range: ValueRange::Int(1, 5), next: MenuList::Empty });
    v.push(MenuItem { item: Parameter::Delay, key: 'e', val_range: ValueRange::Float(0, 4000000, 1000), next: MenuList::Empty });
    v.push(MenuItem { item: Parameter::Loop, key: 'l', val_range: ValueRange::Int(0, 1), next: MenuList::Empty });
    v.push(MenuItem { item: Parameter::ResetToZero, key: 'z', val_range: ValueRange::Int(0, 1), next: MenuList::Empty });
    v
}

fn items_lfo_waveforms() -> (v: Vec<MenuItem>)
    ensures
        v@ == menu(MenuList::LfoWaveforms),
{
    let mut v: Vec<MenuItem> = Vec::new();
    v.push(MenuItem { item: Parameter::Sine, key: 's', val_range: ValueRange::NoRange, next: MenuList::Empty });
    v.push(MenuItem { item: Parameter::Triangle, key: 't', val_range: ValueRange::NoRange, next: MenuList::Empty });
    v.push(MenuItem { item: Parameter::Saw, key: 'w', val_range: ValueRange::NoRange, next: MenuList::Empty });
    v.push(MenuItem { item: Parameter::SawDown, key: 'd', val_range: ValueRange::NoRange, next: MenuList::Empty });
    v.push(MenuItem { item: Parameter::Square, key: 'q', val_range: ValueRange::NoRange, next: MenuList::Empty });
    v.push(MenuItem { item: Parameter::SampleHold, key: 'h', val_range: ValueRange::NoRange, next: MenuList::Empty });
    v.push(MenuItem { item: Parameter::Noise, key: 'n', val_range: ValueRange::NoRange, next: MenuList::Empty });
    v
}

fn items_sync_options() -> (v: Vec<MenuItem>)
    ensures
        v@ == menu(MenuList::SyncOptions),
{
    let mut v: Vec<MenuItem> = Vec::new();
    v.push(MenuItem { item: Parameter::Off, key: 'o', val_range: ValueRange::NoRange, next: MenuList::Empty });
    v.push(MenuItem { item: Parameter::Whole, key: 'w', val_range: ValueRange::NoRange, next: MenuList::Empty });
    v.push(MenuItem { item: Parameter::DottedHalf, key: 't', val_range: ValueRange::NoRange, next: MenuList::Empty });
    v.push(MenuItem { item: Parameter::Half, key: 'h', val_range: ValueRange::NoRange, next: MenuList::Empty });
    v.push(MenuItem { item: Parameter::DottedQuarter, key: 'u', val_range: ValueRange::NoRange, next: MenuList::Empty });
    v.push(MenuItem { item: Parameter::Quarter, key: 'q', val_range: ValueRange::NoRange, next: MenuList::Empty });
    v.push(MenuItem { item: Parameter::DottedEigth, key: 'd', val_range: ValueRange::NoRange, next: MenuList::Empty });
    v.push(MenuItem { item: Parameter::Eigth, key: 'e', val_range: ValueRange::NoRange, next: MenuList::Empty });
    v.push(MenuItem { item: Parameter::Sixteenth, key: 's', val_range: ValueRange::NoRange, next: MenuList::Empty });
    v
}

fn items_delay_params() -> (v: Vec<MenuItem>)
    ensures
        v@ == menu(MenuList::DelayParams),
{
    let mut v: Vec<MenuItem> = Vec::new();
    v.push(MenuItem { item: Parameter::Time, key: 't', val_range: ValueRange::Float(10, 1000, 10), next: MenuList::Empty });
    v.push(MenuItem { item: Parameter::Sync, key: 's', val_range: ValueRange::Choice(MenuList::SyncOptions), next: MenuList::Empty });
    v.push(MenuItem { item: Parameter::Level, key: 'l', val_range: ValueRange::Float(0, 1000, 10), next: MenuList::Empty });
    v.push(MenuItem { item: Parameter::Feedback, key: 'f', val_range: ValueRange::Float(0, 1000, 10), next: MenuList::Empty });
    v.push(MenuItem { item: Parameter::Tone, key: 'o', val_range: ValueRange::Float(100000, 5000000, 1000), next: MenuList::Empty });
    v.push(MenuItem { item: Parameter::Type, key: 'y', val_range: ValueRange::Choice(MenuList::DelayTypes), next: MenuList::Empty });
    v
}

fn items_delay_types() -> (v: Vec<MenuItem>)
    ensures
        v@ == menu(MenuList::DelayTypes),
{
    let mut v: Vec<MenuItem> = Vec::new();
    v.push(MenuItem { item: Parameter::Stereo, key: 's', val_range: ValueRange::NoRange, next: MenuList::Empty });
    v.push(MenuItem { item: Parameter::PingPong, key: 'p', val_range: ValueRange::NoRange, next: MenuList::Empty });
    v
}

fn items_mod_params() -> (v: Vec<MenuItem>)
    ensures
        v@ == menu(MenuList::ModParams),
{
    let mut v: Vec<MenuItem> = Vec::new();
    v.push(MenuItem { item: Parameter::Source, key: 's', val_range: ValueRange::Func(MenuList::ModSources), next: MenuList::ModSources });
    v.push(MenuItem { item: Parameter::Target, key: 't', val_range: ValueRange::Param(MenuList::ModTargets), next: MenuList::ModTargets });
    v.push(MenuItem { item: Parameter::Amount, key: 'a', val_range: ValueRange::Float(-1000i64, 1000, 10), next: MenuList::Empty });
    v.push(MenuItem { item: Parameter::Active, key: 'v', val_range: ValueRange::Int(0, 1), next: MenuList::Empty });
    v
}

fn items_patch_params() -> (v: Vec<MenuItem>)
    ensures
        v@ == menu(MenuList::PatchParams),
{
    let mut v: Vec<MenuItem> = Vec::new();
    v.push(MenuItem { item: Parameter::Level, key: 'l', val_range: ValueRange::Float(0, 100000, 1000), next: MenuList::Empty });
    v.push(MenuItem { item: Parameter::Drive, key: 'd', val_range: ValueRange::Float(0, 10000, 1000), next: MenuList::Empty });
    v.push(MenuItem { item: Parameter::Pitchbend, key: 'p', val_range: ValueRange::Int(0, 12), next: MenuList::Empty });
    v.push(MenuItem { item: Parameter::VelSens, key: 'v', val_range: ValueRange::Float(0, 1000, 10), next: MenuList::Empty });
    v.push(MenuItem { item: Parameter::EnvDepth, key: 'e', val_range: ValueRange::Float(0, 1000, 10), next: MenuList::Empty });
    v.push(MenuItem { item: Parameter::PlayMode, key: 'm', val_range: ValueRange::Choice(MenuList::PlayModes), next: MenuList::Empty });
    v.push(MenuItem { item: Parameter::FilterRouting, key: 'f', val_range: ValueRange::Choice(MenuList::FilterRoutings), next: MenuList::Empty });
    v.push(MenuItem { item: Parameter::Bpm, key: 'b', val_range: ValueRange::Float(1000, 240000, 1000), next: MenuList::Empty });
    v.push(MenuItem { item: Parameter::Voices, key: 'n', val_range: ValueRange::Int(1, 32), next: MenuList::Empty });
    v.push(MenuItem { item: Parameter::Spread, key: 's', val_range: ValueRange::Float(0, 1000, 10), next: MenuList::Empty });
    v.push(MenuItem { item: Parameter::Allocation, key: 'a', val_range: ValueRange::Choice(MenuList::VoiceAllocations), next: MenuList::Empty });
    v.push(MenuItem { item: Parameter::PanOrigin, key: 'o', val_range: ValueRange::Choice(MenuList::PanOrigins), next: MenuList::Empty });
    v
}

fn items_mod_sources() -> (v: Vec<MenuItem>)
    ensures
        v@ == menu(MenuList::ModSources),
{
    let mut v: Vec<MenuItem> = Vec::new();
    v.push(MenuItem { item: Parameter::Oscillator, key: 'o', val_range: ValueRange::Int(1, 3), next: MenuList::OscParams });
    v.push(MenuItem { item: Parameter::Envelope, key: 'e', val_range: ValueRange::Int(1, 3), next: MenuList::EnvParams });
    v.push(MenuItem { item: Parameter::Lfo, key: 'l', val_range: ValueRange::Int(1, 2), next: MenuList::LfoParams });
    v.push(MenuItem { item: Parameter::Velocity, key: 'v', val_range: ValueRange::Int(1, 1), next: MenuList::LfoParams });
    v.push(MenuItem { item: Parameter::GlobalLfo, key: 'g', val_range: ValueRange::Int(1, 2), next: MenuList::LfoParams });
    v.push(MenuItem { item: Parameter::Aftertouch, key: 'a', val_range: ValueRange::Int(1, 1), next: MenuList::LfoParams });
    v.push(MenuItem { item: Parameter::Pitchbend, key: 'p', val_range: ValueRange::Int(1, 1), next: MenuList::LfoParams });
    v.push(MenuItem { item: Parameter::ModWheel, key: 'm', val_range: ValueRange::Int(1, 1), next: MenuList::LfoParams });
    v.push(MenuItem { item: Parameter::SustainPedal, key: 's', val_range: ValueRange::Int(1, 1), next: MenuList::LfoParams });
    v
}

fn items_mod_targets() -> (v: Vec<MenuItem>)
    ensures
        v@ == menu(MenuList::ModTargets),
{
    let mut v: Vec<MenuItem> = Vec::new();
    v.push(MenuItem { item: Parameter::Oscillator, key: 'o', val_range: ValueRange::Int(1, 3), next: MenuList::OscParams });
    v.push(MenuItem { item: Parameter::Envelope, key: 'e', val_range: ValueRange::Int(1, 2), next: MenuList::EnvParams });
    v.push(MenuItem { item: Parameter::Lfo, key: 'l', val_range: ValueRange::Int(1, 2), next: MenuList::LfoParams });
    v.push(MenuItem { item: Parameter::GlobalLfo, key: 'g', val_range: ValueRange::Int(1, 2), next: MenuList::LfoParams });
    v.push(MenuItem { item: Parameter::Filter, key: 'f', val_range: ValueRange::Int(1, 2), next: MenuList::FilterParams });
    v.push(MenuItem { item: Parameter::Delay, key: 'd', val_range: ValueRange::Int(1, 1), next: MenuList::DelayParams });
    v.push(MenuItem { item: Parameter::Modulation, key: 'm', val_range: ValueRange::Int(1, 16), next: MenuList::ModTargetParams });
    v
}

fn items_mod_target_params() -> (v: Vec<MenuItem>)
    ensures
        v@ == menu(MenuList::ModTargetParams),
{
    let mut v: Vec<MenuItem> = Vec::new();
    v.push(MenuItem { item: Parameter::Amount, key: 'a', val_range: ValueRange::Float(0, 1000, 10), next: MenuList::Empty });
    v.push(MenuItem { item: Parameter::Active, key: 'v', val_range: ValueRange::Int(0, 1), next: MenuList::Empty });
    v
}

fn items_play_modes() -> (v: Vec<MenuItem>)
    ensures
        v@ == menu(MenuList::PlayModes),
{
    let mut v: Vec<MenuItem> = Vec::new();
    v.push(MenuItem { item: Parameter::Poly, key: 'p', val_range: ValueRange::NoRange, next: MenuList::Empty });
    v.push(MenuItem { item: Parameter::Mono, key: 'm', val_range: ValueRange::NoRange, next: MenuList::Empty });
    v.push(MenuItem { item: Parameter::Legato, key: 'l', val_range: ValueRange::NoRange, next: MenuList::Empty });
    v
}

fn items_filter_routings() -> (v: Vec<MenuItem>)
    ensures
        v@ == menu(MenuList::FilterRoutings),
{
    let mut v: Vec<MenuItem> = Vec::new();
    v.push(MenuItem { item: Parameter::Parallel, key: 'p', val_range: ValueRange::NoRange, next: MenuList::Empty });
    v.push(MenuItem { item: Parameter::Serial, key: 's', val_range: ValueRange::NoRange, next: MenuList::Empty });
    v
}

fn items_voice_allocations() -> (v: Vec<MenuItem>)
    ensures
        v@ == menu(MenuList::VoiceAllocations),
{
    let mut v: Vec<MenuItem> = Vec::new();
    v.push(MenuItem { item: Parameter::RoundRobin, key: 'r', val_range: ValueRange::NoRange, next: MenuList::Empty });
    v.push(MenuItem { item: Parameter::Ascending, key: 'a', val_range: ValueRange::NoRange, next: MenuList::Empty });
    v.push(MenuItem { item: Parameter::Random, key: 'o', val_range: ValueRange::NoRange, next: MenuList::Empty });
    v
}

fn items_pan_origins() -> (v: Vec<MenuItem>)
    ensures
        v@ == menu(MenuList::PanOrigins),
{
    let mut v: Vec<MenuItem> = Vec::new();
    v.push(MenuItem { item: Parameter::Center, key: 'c', val_range: ValueRange::NoRange, next: MenuList::Empty });
    v.push(MenuItem { item: Parameter::Left, key: 'l', val_range: ValueRange::NoRange, next: MenuList::Empty });
    v.push(MenuItem { item: Parameter::Right, key: 'r', val_range: ValueRange::NoRange, next: MenuList::Empty });
    v
}

/// Builds the items of a menu list.
pub fn menu_items(list: MenuList) -> (v: Vec<MenuItem>)
    ensures
        v@ == menu(list),
{
    match list {
        MenuList::Functions => items_functions(),
        MenuList::OscParams => items_osc_params(),
        MenuList::OscRouting => items_osc_routing(),
        MenuList::OscTypes => items_osc_types(),
        MenuList::LfoParams => items_lfo_params(),
        MenuList::FilterParams => items_filter_params(),
        MenuList::FilterTypes => items_filter_types(),
        MenuList::EnvParams => items_env_params(),
        MenuList::LfoWaveforms => items_lfo_waveforms(),
        MenuList::SyncOptions => items_sync_options(),
        MenuList::DelayParams => items_delay_params(),
        MenuList::DelayTypes => items_delay_types(),
        MenuList::ModParams => items_mod_params(),
        MenuList::PatchParams => items_patch_params(),
        MenuList::ModSources => items_mod_sources(),
        MenuList::ModTargets => items_mod_targets(),
        MenuList::ModTargetParams => items_mod_target_params(),
        MenuList::PlayModes => items_play_modes(),
        MenuList::FilterRoutings => items_filter_routings(),
        MenuList::VoiceAllocations => items_voice_allocations(),
        MenuList::PanOrigins => items_pan_origins(),
        MenuList::Empty => Vec::new(),
    }
}

/// A position in a menu list is one of its at most 13 positions; stated as
/// a case split so that the solver can go through the entries one by one.
pub proof fn lemma_small_index(i: int)
    requires
        0 <= i < 13,
    ensures
        i == 0 || i == 1 || i == 2 || i == 3 || i == 4 || i == 5 || i == 6 || i == 7 || i == 8 || i == 9
            || i == 10 || i == 11 || i == 12,
{
}

/// True if a value range holds at least one value: numeric bounds in
/// order with a positive step, and lists of choices, functions or
/// parameters that are not empty.
pub open spec fn range_nonempty(r: ValueRange) -> bool {
    match r {
        ValueRange::Int(min, max) => min <= max,
        ValueRange::Float(min, max, step) => min <= max && step > 0,
        ValueRange::Choice(list) => menu(list).len() > 0,
        ValueRange::Func(list) => menu(list).len() > 0,
        ValueRange::Param(list) => menu(list).len() > 0,
        _ => true,
    }
}

/// Every value range in the menus holds at least one value, so that a
/// value entered for any parameter can be limited to its range.
pub proof fn lemma_menu_ranges_nonempty(list: MenuList, i: int)
    requires
        0 <= i < menu(list).len(),
    ensures
        range_nonempty(menu(list)[i].val_range),
{
    lemma_small_index(i);
}

/// True if some item of `s` is `item`.
pub open spec fn has_item(s: Seq<MenuItem>, item: Parameter) -> bool {
    exists|i: int| 0 <= i < s.len() && s[i].item == item
}

/// Index of the first item of `s` that is `item` (the length of `s` if
/// there is none).
pub open spec fn item_index(s: Seq<MenuItem>, item: Parameter) -> int
    decreases s.len(),
{
    if s.len() == 0 {
        0
    } else if s[0].item == item {
        0
    } else {
        1 + item_index(s.drop_first(), item)
    }
}

/// `item_index` is the first position holding `item`.
pub proof fn lemma_item_index(s: Seq<MenuItem>, item: Parameter, i: int)
    requires
        0 <= i < s.len(),
        s[i].item == item,
        forall|j: int| 0 <= j < i ==> s[j].item != item,
    ensures
        item_index(s, item) == i,
    decreases i,
{
    if i > 0 {
        assert(s[0].item != item);
        lemma_item_index(s.drop_first(), item, i - 1);
    }
}

/// True if `function` is a top-level function whose parameter list holds
/// `parameter`.
pub open spec fn has_val_range(function: Parameter, parameter: Parameter) -> bool {
    let funcs = menu(MenuList::Functions);
    has_item(funcs, function) && has_item(menu(funcs[item_index(funcs, function)].next), parameter)
}

/// Position of the first item of `list` that is `item`, if there is one.
fn find_item(item: Parameter, list: &[MenuItem]) -> (r: Option<usize>)
    ensures
        r is None <==> !has_item(list@, item),
        r matches Some(i) ==> i == item_index(list@, item) && i < list@.len(),
{
    let mut i: usize = 0;
    while i < list.len()
        invariant
            i <= list@.len(),
            forall|j: int| 0 <= j < i ==> list@[j].item != item,
        decreases list@.len() - i,
    {
        if list[i].item == item {
            proof {
                lemma_item_index(list@, item, i as int);
            }
            return Some(i);
        }
        i += 1;
    }
    None
}

/// Tells whether `function` is a top-level function whose parameter list
/// holds `parameter`, i.e. whether the menu tables give it a value range.
pub fn check_val_range(function: Parameter, parameter: Parameter) -> (r: bool)
    ensures
        r == has_val_range(function, parameter),
{
    let funcs = menu_items(MenuList::Functions);
    match find_item(function, funcs.as_slice()) {
        None => false,
        Some(i) => {
            let params = menu_items(funcs[i].next);
            find_item(parameter, params.as_slice()).is_some()
        },
    }
}

/// The value range of `parameter` in the parameter list of `function`.
pub open spec fn val_range_of(function: Parameter, parameter: Parameter) -> ValueRange {
    let funcs = menu(MenuList::Functions);
    let params = menu(funcs[item_index(funcs, function)].next);
    params[item_index(params, parameter)].val_range
}

impl MenuItem {
    /// Looks up the value range of a parameter of a top-level function.
    pub fn get_val_range(function: Parameter, parameter: Parameter) -> (r: ValueRange)
        requires
            has_val_range(function, parameter),
        ensures
            r == val_range_of(function, parameter),
    {
        let funcs = menu_items(MenuList::Functions);
        let func_item = MenuItem::get_menu_item(function, funcs.as_slice());
        let params = menu_items(func_item.next);
        let param_item = MenuItem::get_menu_item(parameter, params.as_slice());
        param_item.val_range
    }

    /// The first item of `item_list` that is `item`.
    pub fn get_menu_item(item: Parameter, item_list: &[MenuItem]) -> (r: &MenuItem)
        requires
            has_item(item_list@, item),
        ensures
            *r == item_list@[item_index(item_list@, item)],
    {
        let i = MenuItem::get_item_index(item, item_list);
        &item_list[i]
    }

    /// Position of the first item of `item_list` that is `item`.
    pub fn get_item_index(item: Parameter, item_list: &[MenuItem]) -> (r: usize)
        requires
            has_item(item_list@, item),
        ensures
            r == item_index(item_list@, item),
            r < item_list@.len(),
            item_list@[r as int].item == item,
    {
        let mut i: usize = 0;
        while i < item_list.len()
            invariant
                i <= item_list@.len(),
                forall|j: int| 0 <= j < i ==> item_list@[j].item != item,
            decreases item_list@.len() - i,
        {
            if item_list[i].item == item {
                proof {
                    lemma_item_index(item_list@, item, i as int);
                }
                return i;
            }
            i += 1;
        }
        proof {
            let w = choose|w: int| 0 <= w < item_list@.len() && item_list@[w].item == item;
            assert(item_list@[w].item == item);
        }
        0
    }
}

} // verus!
