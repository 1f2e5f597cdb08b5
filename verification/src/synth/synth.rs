//! Play modes, filter routing and the voice bookkeeping of the synth engine:
//! which voice plays the next note, which voices are sounding, and which
//! keys are held.
use vstd::prelude::*;
use crate::parameter::Parameter;

verus! {

pub const NUM_VOICES: usize = 32;

pub const NUM_OSCILLATORS: usize = 3;

pub const NUM_ENVELOPES: usize = 3;

pub const NUM_FILTERS: usize = 2;

pub const NUM_LFOS: usize = 2;

pub const NUM_KEYS: usize = 128;

pub const NUM_MODULATORS: usize = 16;

pub const NUM_GLOBAL_LFOS: usize = 2;

#[derive(Clone, Copy, Debug, PartialEq, Eq, Structural)]
pub enum PlayMode {
    /// Polyphonic
    Poly,
    /// Monophonic, retrigger on key-on-event
    Mono,
    /// Monophonic, no retrigger until key-off-event
    Legato,
}

impl Default for PlayMode {
    fn default() -> (m: Self)
        ensures
            m == PlayMode::Poly,
    {
        PlayMode::Poly
    }
}

pub open spec fn play_mode_index(m: PlayMode) -> int {
    match m {
        PlayMode::Poly => 0,
        PlayMode::Mono => 1,
        PlayMode::Legato => 2,
    }
}

impl PlayMode {
    pub fn from_int(param: usize) -> (m: PlayMode)
        requires
            param < 3,
        ensures
            play_mode_index(m) == param,
    {
        match param {
            0 => PlayMode::Poly,
            1 => PlayMode::Mono,
            _ => PlayMode::Legato,
        }
    }

    pub fn to_int(&self) -> (r: usize)
        ensures
            r == play_mode_index(*self),
    {
        match self {
            PlayMode::Poly => 0,
            PlayMode::Mono => 1,
            PlayMode::Legato => 2,
        }
    }
}

/// The position determines the play mode, so `PlayMode::from_int(m.to_int())`
/// is `m` and `PlayMode::from_int(i).to_int()` is `i`.
pub proof fn lemma_play_mode_index(m: PlayMode, n: PlayMode)
    ensures
        0 <= play_mode_index(m) < 3,
        play_mode_index(m) == play_mode_index(n) ==> m == n,
{
}

#[derive(Clone, Copy, Debug, PartialEq, Eq, Structural)]
pub enum FilterRouting {
    /// Both filters get summed as output.
    Parallel,
    /// Filter 1 goes into filter 2, filter 2 goes to the output.
    Serial,
}

impl Default for FilterRouting {
    fn default() -> (r: Self)
        ensures
            r == FilterRouting::Parallel,
    {
        FilterRouting::Parallel
    }
}

pub open spec fn filter_routing_index(r: FilterRouting) -> int {
    match r {
        FilterRouting::Parallel => 0,
        FilterRouting::Serial => 1,
    }
}

impl FilterRouting {
    pub fn from_int(param: usize) -> (r: FilterRouting)
        requires
            param < 2,
        ensures
            filter_routing_index(r) == param,
    {
        match param {
            0 => FilterRouting::Parallel,
            _ => FilterRouting::Serial,
        }
    }

    pub fn to_int(&self) -> (r: usize)
        ensures
            r == filter_routing_index(*self),
    {
        match self {
            FilterRouting::Parallel => 0,
            FilterRouting::Serial => 1,
        }
    }
}

/// The position determines the routing, so
/// `FilterRouting::from_int(r.to_int())` is `r` and
/// `FilterRouting::from_int(i).to_int()` is `i`.
pub proof fn lemma_filter_routing_index(r: FilterRouting, s: FilterRouting)
    ensures
        0 <= filter_routing_index(r) < 2,
        filter_routing_index(r) == filter_routing_index(s) ==> r == s,
{
}

/// The special function of a MIDI controller change.
#[derive(Clone, Copy, Debug, PartialEq, Eq, Structural)]
pub enum ControllerEvent {
    /// Controller 1: the modulation wheel moved to this value.
    ModWheel(u8),
    /// Controller 64 at 64 or above: sustain pedal pressed.
    SustainOn,
    /// Controller 64 below 64: sustain pedal released; voices that are
    /// still running get released.
    SustainOff,
    /// Any other controller has no dedicated function.
    Ignored,
}

/// Maps controllers with a special function to their event.
pub fn controller_event(ctrl: u8, value: u8) -> (e: ControllerEvent)
    ensures
        ctrl == 0x01 ==> e == ControllerEvent::ModWheel(value),
        ctrl == 0x40 && value >= 64 ==> e == ControllerEvent::SustainOn,
        ctrl == 0x40 && value < 64 ==> e == ControllerEvent::SustainOff,
        ctrl != 0x01 && ctrl != 0x40 ==> e == ControllerEvent::Ignored,
{
    match ctrl {
        0x01 => ControllerEvent::ModWheel(value),
        0x40 => {
            if value >= 64 {
                ControllerEvent::SustainOn
            } else {
                ControllerEvent::SustainOff
            }
        },
        _ => ControllerEvent::Ignored,
    }
}

/// What the voice allocation needs to know of a voice.
#[derive(Clone, Copy, Debug, PartialEq, Eq, Structural)]
pub struct VoiceStatus {
    /// True while any of the voice's envelopes is running.
    pub running: bool,
    /// True between the note-on and the note-off of the voice's key.
    pub triggered: bool,
    /// Sequence number of the note-on that last triggered the voice.
    pub trigger_seq: u64,
    /// Key that triggered the voice.
    pub key: u8,
}

/// True if some voice of `v` is silent.
pub open spec fn has_idle_voice(v: Seq<VoiceStatus>) -> bool {
    exists|i: int| 0 <= i < v.len() && !v[i].running
}

/// The voice a polyphonic note-on takes: the first silent voice if there is
/// one, else the first of the voices that were triggered earliest.
pub open spec fn is_poly_choice(v: Seq<VoiceStatus>, r: int) -> bool {
    if v.len() == 0 {
        r == 0
    } else if has_idle_voice(v) {
        &&& 0 <= r < v.len()
        &&& !v[r].running
        &&& forall|j: int| 0 <= j < r ==> v[j].running
    } else {
        &&& 0 <= r < v.len()
        &&& forall|j: int| 0 <= j < v.len() ==> v[r].trigger_seq <= v[j].trigger_seq
        &&& forall|j: int| 0 <= j < r ==> v[j].trigger_seq > v[r].trigger_seq
    }
}

/// Selects the voice for the next note in polyphonic mode.
pub fn select_voice_poly(voices: &[VoiceStatus]) -> (r: usize)
    ensures
        is_poly_choice(voices@, r as int),
{
    let mut min_trigger_seq: u64 = u64::MAX;
    let mut min_id: usize = 0;
    let mut i: usize = 0;
    while i < voices.len()
        invariant
            i <= voices@.len(),
            forall|j: int| 0 <= j < i ==> voices@[j].running,
            i == 0 ==> min_id == 0 && min_trigger_seq == u64::MAX,
            i > 0 ==> {
                &&& min_id < i
                &&& min_trigger_seq == voices@[min_id as int].trigger_seq
                &&& forall|j: int| 0 <= j < i ==> min_trigger_seq <= voices@[j].trigger_seq
                &&& forall|j: int| 0 <= j < min_id ==> voices@[j].trigger_seq > min_trigger_seq
            },
        decreases voices@.len() - i,
    {
        if !voices[i].running {
            return i;
        }
        if voices[i].trigger_seq < min_trigger_seq {
            min_trigger_seq = voices[i].trigger_seq;
            min_id = i;
        }
        i += 1;
    }
    min_id
}

/// Decides which voice gets to play the next note.
pub fn select_voice(play_mode: PlayMode, voices: &[VoiceStatus]) -> (r: usize)
    ensures
        play_mode == PlayMode::Poly ==> is_poly_choice(voices@, r as int),
        play_mode != PlayMode::Poly ==> r == 0,
{
    match play_mode {
        PlayMode::Poly => select_voice_poly(voices),
        PlayMode::Mono => 0,
        PlayMode::Legato => 0,
    }
}

/// True if bit `i` of `bits` is set.
pub open spec fn bit_set(bits: u32, i: u32) -> bool {
    bits & (1u32 << i) != 0
}

proof fn lemma_or_bit(bits: u32, i: u32, j: u32)
    requires
        i < 32,
        j < 32,
    ensures
        bit_set(bits | (1u32 << i), j) == (bit_set(bits, j) || i == j),
{
    assert((bits | (1u32 << i)) & (1u32 << j) != 0 <==> (bits & (1u32 << j) != 0 || i == j))
        by (bit_vector)
        requires
            i < 32,
            j < 32,
    ;
}

proof fn lemma_zero_bits(j: u32)
    requires
        j < 32,
    ensures
        !bit_set(0, j),
{
    assert(0u32 & (1u32 << j) == 0) by (bit_vector);
}

/// Bitmap of the voices that are sounding: bit `i` is set exactly when
/// voice `i` is running.
pub fn playing_bitmap(voices: &[VoiceStatus]) -> (bits: u32)
    requires
        voices@.len() <= 32,
    ensures
        forall|i: u32| i < 32 ==> (#[trigger] bit_set(bits, i) <==> (i < voices@.len() && voices@[i as int].running)),
{
    let mut bits: u32 = 0;
    let mut i: usize = 0;
    proof {
        assert forall|j: u32| j < 32 implies !#[trigger] bit_set(bits, j) by {
            lemma_zero_bits(j);
        }
    }
    while i < voices.len()
        invariant
            i <= voices@.len(),
            voices@.len() <= 32,
            forall|j: u32| j < 32 ==> (#[trigger] bit_set(bits, j) <==> (j < i && voices@[j as int].running)),
        decreases voices@.len() - i,
    {
        if voices[i].running {
            let ghost old_bits = bits;
            let s: u32 = i as u32;
            bits = bits | (1u32 << s);
            proof {
                assert forall|j: u32| j < 32 implies (#[trigger] bit_set(bits, j) <==> (j < i + 1
                    && voices@[j as int].running)) by {
                    lemma_or_bit(old_bits, s, j);
                }
            }
        }
        i += 1;
    }
    bits
}

/// Marks voice `voice_id` as sounding in the bitmap.
pub fn mark_playing(bits: u32, voice_id: usize) -> (r: u32)
    requires
        voice_id < 32,
    ensures
        forall|j: u32| j < 32 ==> (#[trigger] bit_set(r, j) <==> (bit_set(bits, j) || j == voice_id)),
{
    let s: u32 = voice_id as u32;
    let r = bits | (1u32 << s);
    proof {
        assert forall|j: u32| j < 32 implies (#[trigger] bit_set(r, j) <==> (bit_set(bits, j) || j
            == voice_id)) by {
            lemma_or_bit(bits, s, j);
        }
    }
    r
}

/// Entry of the stack of held keys: the velocity in the high byte, the key
/// in the low byte.
pub open spec fn key_entry(key: u8, velocity: u8) -> u16 {
    (velocity as int * 256 + key as int) as u16
}

/// Key stored in a key stack entry.
pub open spec fn entry_key(entry: u16) -> u8 {
    (entry % 256) as u8
}

/// Velocity stored in a key stack entry.
pub open spec fn entry_velocity(entry: u16) -> u8 {
    (entry / 256) as u8
}

/// Pushes a pressed key with its velocity onto the stack of held keys.
pub fn push_key(key_stack: &mut Vec<u16>, key: u8, velocity: u8)
    ensures
        final(key_stack)@ == old(key_stack)@.push(key_entry(key, velocity)),
{
    let entry: u16 = (velocity as u16) << 8 | (key as u16);
    assert(entry == velocity * 256 + key) by (bit_vector)
        requires
            entry == (velocity as u16) << 8 | (key as u16),
    ;
    key_stack.push(entry);
}

/// The key and velocity packed into an entry read back unchanged.
pub proof fn lemma_key_entry(key: u8, velocity: u8)
    ensures
        entry_key(key_entry(key, velocity)) == key,
        entry_velocity(key_entry(key, velocity)) == velocity,
{
    let e = velocity as int * 256 + key as int;
    assert(e % 256 == key as int && e / 256 == velocity as int) by (nonlinear_arith)
        requires
            e == velocity as int * 256 + key as int,
            0 <= key < 256,
            0 <= velocity < 256,
    ;
}

/// Position of the first entry of `s` that holds `key`.
pub open spec fn key_position(s: Seq<u16>, key: u8) -> int
    decreases s.len(),
{
    if s.len() == 0 {
        0
    } else if entry_key(s[0]) == key {
        0
    } else {
        1 + key_position(s.drop_first(), key)
    }
}

proof fn lemma_key_position(s: Seq<u16>, key: u8, i: int)
    requires
        0 <= i < s.len(),
        entry_key(s[i]) == key,
        forall|j: int| 0 <= j < i ==> entry_key(s[j]) != key,
    ensures
        key_position(s, key) == i,
    decreases i,
{
    if i > 0 {
        assert(entry_key(s[0]) != key);
        lemma_key_position(s.drop_first(), key, i - 1);
    }
}

/// Pressing a key that is not held and releasing it again gives back the
/// key stack as it was: the release finds the key in the entry the press
/// pushed, and removing that entry leaves the earlier entries.
pub proof fn lemma_press_then_release(s: Seq<u16>, key: u8, velocity: u8)
    requires
        forall|i: int| 0 <= i < s.len() ==> entry_key(#[trigger] s[i]) != key,
    ensures
        ({
            let t = s.push(key_entry(key, velocity));
            &&& key_position(t, key) == s.len()
            &&& t.remove(key_position(t, key)) == s
        }),
{
    let t = s.push(key_entry(key, velocity));
    lemma_key_entry(key, velocity);
    assert forall|j: int| 0 <= j < s.len() implies entry_key(t[j]) != key by {
        assert(t[j] == s[j]);
    }
    lemma_key_position(t, key, s.len() as int);
    assert(t.remove(s.len() as int) =~= s);
}

/// What the synth does with the voices on a note-off.
#[derive(Clone, Copy, Debug, PartialEq, Eq, Structural)]
pub enum NoteOffAction {
    /// No voice plays the released key.
    Ignore,
    /// Release the envelopes of this voice.
    Release(usize),
    /// Play an older key that is still held (mono and legato modes).
    Retrigger { key: u8, velocity: u8 },
}

/// Index of the first triggered voice of `v` that plays `key` (the length
/// of `v` if there is none).
pub open spec fn voice_of_key(v: Seq<VoiceStatus>, key: u8) -> int
    decreases v.len(),
{
    if v.len() == 0 {
        0
    } else if v[0].triggered && v[0].key == key {
        0
    } else {
        1 + voice_of_key(v.drop_first(), key)
    }
}

proof fn lemma_voice_of_key(v: Seq<VoiceStatus>, key: u8, i: int)
    requires
        0 <= i <= v.len(),
        i < v.len() ==> v[i].triggered && v[i].key == key,
        forall|j: int| 0 <= j < i ==> !(v[j].triggered && v[j].key == key),
    ensures
        voice_of_key(v, key) == i,
    decreases i,
{
    if i > 0 {
        lemma_voice_of_key(v.drop_first(), key, i - 1);
    }
}

/// Handles the key stack on a note-off and decides what happens to the
/// voices.
///
/// The released key is taken off the stack. The first triggered voice
/// playing that key is released in polyphonic mode, or when no other key is
/// held; otherwise the most recent held key is taken off the stack to be
/// played instead.
pub fn note_off(key_stack: &mut Vec<u16>, voices: &[VoiceStatus], key: u8, play_mode: PlayMode) -> (a: NoteOffAction)
    requires
        exists|i: int| 0 <= i < old(key_stack)@.len() && entry_key(old(key_stack)@[i]) == key,
    ensures
        ({
            let rest = old(key_stack)@.remove(key_position(old(key_stack)@, key));
            let v = voice_of_key(voices@, key);
            if v == voices@.len() {
                a == NoteOffAction::Ignore && final(key_stack)@ == rest
            } else if play_mode == PlayMode::Poly || rest.len() == 0 {
                a == NoteOffAction::Release(v as usize) && final(key_stack)@ == rest
            } else {
                &&& a == (NoteOffAction::Retrigger {
                    key: entry_key(rest.last()),
                    velocity: entry_velocity(rest.last()),
                })
                &&& final(key_stack)@ == rest.drop_last()
            }
        }),
{
    let ghost s = key_stack@;
    let mut pos: usize = 0;
    while pos < key_stack.len()
        invariant
            key_stack@ == s,
            pos <= s.len(),
            exists|i: int| 0 <= i < s.len() && entry_key(s[i]) == key,
            forall|j: int| 0 <= j < pos ==> entry_key(s[j]) != key,
        ensures
            pos <= s.len(),
            pos < s.len() ==> entry_key(s[pos as int]) == key,
            forall|j: int| 0 <= j < pos ==> entry_key(s[j]) != key,
        decreases s.len() - pos,
    {
        if key_stack[pos] % 256 == key as u16 {
            break;
        }
        pos += 1;
    }
    proof {
        if pos == s.len() {
            let w = choose|w: int| 0 <= w < s.len() && entry_key(s[w]) == key;
            assert(entry_key(s[w]) != key);
        }
        lemma_key_position(s, key, pos as int);
    }
    key_stack.remove(pos);
    let ghost rest = key_stack@;
    assert(rest == s.remove(key_position(s, key)));
    let mut i: usize = 0;
    while i < voices.len()
        invariant
            key_stack@ == rest,
            rest == old(key_stack)@.remove(key_position(old(key_stack)@, key)),
            i <= voices@.len(),
            forall|j: int| 0 <= j < i ==> !(voices@[j].triggered && voices@[j].key == key),
        decreases voices@.len() - i,
    {
        if voices[i].triggered && voices[i].key == key {
            proof {
                lemma_voice_of_key(voices@, key, i as int);
            }
            if play_mode == PlayMode::Poly || key_stack.len() == 0 {
                return NoteOffAction::Release(i);
            } else {
                let entry = key_stack.pop().unwrap();
                let k: u8 = (entry % 256) as u8;
                let vel: u8 = (entry / 256) as u8;
                return NoteOffAction::Retrigger { key: k, velocity: vel };
            }
        }
        i += 1;
    }
    proof {
        lemma_voice_of_key(voices@, key, i as int);
    }
    NoteOffAction::Ignore
}

/// What the engine updates after a parameter of the sound was changed
/// from the user interface, besides storing the new value.
#[derive(Clone, Copy, Debug, PartialEq, Eq, Structural)]
pub enum ParamChangeEffect {
    NoEffect,
    /// A new wavetable was chosen for the oscillator with this index: hand
    /// it to all voices.
    UpdateWavetable(usize),
    /// The routing of the oscillator with this index changed: update it in
    /// all voices.
    UpdateRouting(usize),
    /// The delay's tone changed: update the delay's filter.
    UpdateDelayTone,
    /// The delay's sync or the patch tempo changed: recompute the delay
    /// time from the tempo.
    UpdateDelayBpm,
}

/// What the engine updates when `parameter` of instance `function_id`
/// (counted from 1) of `function` was changed: a new wavetable or routing of
/// an oscillator goes to all voices, the delay's tone updates its filter,
/// and the delay's sync or the patch tempo recompute the delay time.
pub open spec fn spec_param_change_effect(function: Parameter, function_id: usize, parameter: Parameter) -> ParamChangeEffect {
    match function {
        Parameter::Oscillator => if parameter == Parameter::Wavetable {
            ParamChangeEffect::UpdateWavetable((function_id - 1) as usize)
        } else if parameter == Parameter::Routing {
            ParamChangeEffect::UpdateRouting((function_id - 1) as usize)
        } else {
            ParamChangeEffect::NoEffect
        },
        Parameter::Delay => if parameter == Parameter::Tone {
            ParamChangeEffect::UpdateDelayTone
        } else if parameter == Parameter::Sync {
            ParamChangeEffect::UpdateDelayBpm
        } else {
            ParamChangeEffect::NoEffect
        },
        Parameter::Patch => if parameter == Parameter::Bpm {
            ParamChangeEffect::UpdateDelayBpm
        } else {
            ParamChangeEffect::NoEffect
        },
        _ => ParamChangeEffect::NoEffect,
    }
}

/// Decides what the engine updates after a parameter message from the
/// user interface: `None` for instance 0, which no function has (the
/// message is refused), else what `param_change_effect` decides.
pub fn ui_change_effect(function: Parameter, function_id: usize, parameter: Parameter) -> (r: Option<ParamChangeEffect>)
    ensures
        function_id == 0 ==> r is None,
        function_id >= 1 ==> r == Some(spec_param_change_effect(function, function_id, parameter)),
{
    if function_id == 0 {
        None
    } else {
        Some(param_change_effect(function, function_id, parameter))
    }
}

/// Decides what the engine updates when `parameter` of instance
/// `function_id` (counted from 1) of `function` was changed.
pub fn param_change_effect(function: Parameter, function_id: usize, parameter: Parameter) -> (e: ParamChangeEffect)
    requires
        function_id >= 1,
    ensures
        e == spec_param_change_effect(function, function_id, parameter),
{
    match function {
        Parameter::Oscillator => match parameter {
            Parameter::Wavetable => ParamChangeEffect::UpdateWavetable(function_id - 1),
            Parameter::Routing => ParamChangeEffect::UpdateRouting(function_id - 1),
            _ => ParamChangeEffect::NoEffect,
        },
        Parameter::Delay => match parameter {
            Parameter::Tone => ParamChangeEffect::UpdateDelayTone,
            Parameter::Sync => ParamChangeEffect::UpdateDelayBpm,
            _ => ParamChangeEffect::NoEffect,
        },
        Parameter::Patch => match parameter {
            Parameter::Bpm => ParamChangeEffect::UpdateDelayBpm,
            _ => ParamChangeEffect::NoEffect,
        },
        _ => ParamChangeEffect::NoEffect,
    }
}

} // verus!
