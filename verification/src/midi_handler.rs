//! Decoding of raw MIDI messages and the decisions taken on each one:
//! whether its channel is listened to, and where it goes.
use vstd::prelude::*;

verus! {

#[derive(Clone, Copy, Debug, PartialEq, Eq, Structural)]
pub enum MidiMessage {
    NoteOff { channel: u8, key: u8, velocity: u8 },
    NoteOn { channel: u8, key: u8, velocity: u8 },
    KeyAT { channel: u8, key: u8, pressure: u8 },
    ControlChg { channel: u8, controller: u8, value: u8 },
    ProgramChg { channel: u8, program: u8 },
    ChannelAT { channel: u8, pressure: u8 },
    Pitchbend { channel: u8, pitch: i16 },
    SongPos { position: u16 },
    TimingClock,
    Start,
    Continue,
    Stop,
    ActiveSensing,
    Reset,
}

/// True for the status bytes the decoder understands: the channel messages
/// 0x80 to 0xEF and the system messages song position, timing clock, start,
/// continue, stop, active sensing and reset.
pub open spec fn is_known_status(status: u8) -> bool {
    ||| 0x80 <= status < 0xF0
    ||| status == 0xF2
    ||| status == 0xF8
    ||| status == 0xFA
    ||| status == 0xFB
    ||| status == 0xFC
    ||| status == 0xFE
    ||| status == 0xFF
}

/// Tells whether the decoder understands a status byte.
pub fn known_status(status: u8) -> (r: bool)
    ensures
        r == is_known_status(status),
{
    (0x80 <= status && status < 0xF0) || status == 0xF2 || status == 0xF8 || status == 0xFA || status == 0xFB
        || status == 0xFC || status == 0xFE || status == 0xFF
}

/// The 14-bit value carried by two data bytes, low seven bits first.
pub open spec fn data_word(low: u8, high: u8) -> u16 {
    (low as u16) | ((high as u16) << 7u16)
}

/// The message that the bytes `m` encode. Missing data bytes read as 0.
pub open spec fn decode(m: Seq<u8>) -> MidiMessage {
    let param: u8 = if m.len() > 1 { m[1] } else { 0 };
    let value: u8 = if m.len() > 2 { m[2] } else { 0 };
    let status = m[0];
    let channel = (status % 16) as u8;
    if status == 0xF2 {
        MidiMessage::SongPos { position: data_word(param, value) }
    } else if status == 0xF8 {
        MidiMessage::TimingClock
    } else if status == 0xFA {
        MidiMessage::Start
    } else if status == 0xFB {
        MidiMessage::Continue
    } else if status == 0xFC {
        MidiMessage::Stop
    } else if status == 0xFE {
        MidiMessage::ActiveSensing
    } else if status == 0xFF {
        MidiMessage::Reset
    } else if status / 16 == 0x9 {
        MidiMessage::NoteOn { channel, key: param, velocity: value }
    } else if status / 16 == 0x8 {
        MidiMessage::NoteOff { channel, key: param, velocity: value }
    } else if status / 16 == 0xA {
        MidiMessage::KeyAT { channel, key: param, pressure: value }
    } else if status / 16 == 0xB {
        MidiMessage::ControlChg { channel, controller: param, value }
    } else if status / 16 == 0xC {
        MidiMessage::ProgramChg { channel, program: param }
    } else if status / 16 == 0xD {
        MidiMessage::ChannelAT { channel, pressure: param }
    } else {
        MidiMessage::Pitchbend { channel, pitch: (data_word(param, value) as int - 0x2000) as i16 }
    }
}

/// With data bytes below 128 the 14-bit value is `low + 128 * high`, and it
/// is always below 32768.
pub proof fn lemma_data_word(low: u8, high: u8)
    ensures
        data_word(low, high) < 32768,
        low < 128 && high < 128 ==> data_word(low, high) == low + 128 * high,
{
    assert((low as u16) | ((high as u16) << 7u16) < 32768u16) by (bit_vector);
    assert(low < 128 && high < 128 ==> (low as u16) | ((high as u16) << 7u16) == low + 128 * high)
        by (bit_vector);
}

/// Every channel message is understood, on every channel: the status byte
/// of kind `kind` (8 note off, 9 note on, 10 key aftertouch, 11 control
/// change, 12 program change, 13 channel aftertouch, 14 pitch bend) on
/// channel `channel` is a known status, and it decodes to that message on
/// that channel, with the data bytes in their places.
pub proof fn lemma_channel_messages_known(kind: u8, channel: u8, a: u8, b: u8)
    requires
        8 <= kind <= 14,
        channel < 16,
    ensures
        ({
            let status = (kind * 16 + channel) as u8;
            &&& is_known_status(status)
            &&& decode(seq![status, a, b]) == match kind {
                8 => MidiMessage::NoteOff { channel, key: a, velocity: b },
                9 => MidiMessage::NoteOn { channel, key: a, velocity: b },
                10 => MidiMessage::KeyAT { channel, key: a, pressure: b },
                11 => MidiMessage::ControlChg { channel, controller: a, value: b },
                12 => MidiMessage::ProgramChg { channel, program: a },
                13 => MidiMessage::ChannelAT { channel, pressure: a },
                _ => MidiMessage::Pitchbend { channel, pitch: (data_word(a, b) as int - 0x2000) as i16 },
            }
        }),
{
    let status = (kind * 16 + channel) as u8;
    assert(status == kind * 16 + channel);
    assert(status / 16 == kind && status % 16 == channel);
}

/// The system messages the decoder handles are known and decode to the
/// message their status byte names.
pub proof fn lemma_system_messages_known(a: u8, b: u8)
    ensures
        is_known_status(0xF2) && decode(seq![0xF2u8, a, b]) == (MidiMessage::SongPos { position: data_word(a, b) }),
        is_known_status(0xF8) && decode(seq![0xF8u8]) == MidiMessage::TimingClock,
        is_known_status(0xFA) && decode(seq![0xFAu8]) == MidiMessage::Start,
        is_known_status(0xFB) && decode(seq![0xFBu8]) == MidiMessage::Continue,
        is_known_status(0xFC) && decode(seq![0xFCu8]) == MidiMessage::Stop,
        is_known_status(0xFE) && decode(seq![0xFEu8]) == MidiMessage::ActiveSensing,
        is_known_status(0xFF) && decode(seq![0xFFu8]) == MidiMessage::Reset,
{
}

/// A data byte (below 0x80) is never taken for a status byte, and the
/// system messages the decoder does not handle are not known.
pub proof fn lemma_unknown_status(status: u8)
    ensures
        status < 0x80 ==> !is_known_status(status),
        (status == 0xF0 || status == 0xF1 || status == 0xF3 || status == 0xF6 || status == 0xF7)
            ==> !is_known_status(status),
{
}

/// Decodes a raw MIDI message.
pub fn get_midi_message(message: &[u8]) -> (m: MidiMessage)
    requires
        message@.len() > 0,
        is_known_status(message@[0]),
    ensures
        m == decode(message@),
{
    let param: u8 = if message.len() > 1 {
        message[1]
    } else {
        0
    };
    let value: u8 = if message.len() > 2 {
        message[2]
    } else {
        0
    };
    let status = message[0];
    let word: u16 = (param as u16) | ((value as u16) << 7u16);
    proof {
        lemma_data_word(param, value);
    }
    match status {
        0xF2 => MidiMessage::SongPos { position: word },
        0xF8 => MidiMessage::TimingClock,
        0xFA => MidiMessage::Start,
        0xFB => MidiMessage::Continue,
        0xFC => MidiMessage::Stop,
        0xFE => MidiMessage::ActiveSensing,
        0xFF => MidiMessage::Reset,
        _ => {
            let channel = status % 16;
            match status / 16 {
                0x9 => MidiMessage::NoteOn { channel, key: param, velocity: value },
                0x8 => MidiMessage::NoteOff { channel, key: param, velocity: value },
                0xA => MidiMessage::KeyAT { channel, key: param, pressure: value },
                0xB => MidiMessage::ControlChg { channel, controller: param, value },
                0xC => MidiMessage::ProgramChg { channel, program: param },
                0xD => MidiMessage::ChannelAT { channel, pressure: param },
                _ => {
                    let pitch: i16 = (word as i16) - 0x2000;
                    MidiMessage::Pitchbend { channel, pitch }
                },
            }
        },
    }
}

/// The channel filter for a channel setting given by the user: settings 1
/// to 16 select channels 0 to 15, anything else selects all channels (16).
pub open spec fn spec_channel_filter(setting: u8) -> u8 {
    if 1 <= setting <= 16 {
        (setting - 1) as u8
    } else {
        16
    }
}

/// True if a message with this status byte passes the channel filter: a
/// filter of 16 or more lets every message through, a filter below 16 only
/// those whose low nibble matches it.
pub open spec fn spec_accepts_channel(filter: u8, status: u8) -> bool {
    filter >= 16 || status % 16 == filter
}

/// Computes the channel filter for a channel setting given by the user.
pub fn channel_filter(midi_channel: u8) -> (c: u8)
    ensures
        c == spec_channel_filter(midi_channel),
{
    if midi_channel < 1 || midi_channel > 16 {
        16
    } else {
        midi_channel - 1
    }
}

/// Tells whether a message with this status byte passes the channel
/// filter.
pub fn accepts_channel(midi_channel: u8, status: u8) -> (r: bool)
    ensures
        r == spec_accepts_channel(midi_channel, status),
{
    !(midi_channel < 16 && status % 16 != midi_channel)
}

/// Tells whether a message with this status byte is received under the
/// user's channel setting: with a setting of 0 every message is (any
/// setting outside 1 to 16 counts as 0), with a setting of 1 to 16 only the
/// messages on that channel (channels 0 to 15 in the status byte).
pub fn receives_message(midi_channel: u8, status: u8) -> (r: bool)
    ensures
        r == spec_accepts_channel(spec_channel_filter(midi_channel), status),
        r == (!(1 <= midi_channel <= 16) || status % 16 == midi_channel - 1),
{
    accepts_channel(channel_filter(midi_channel), status)
}

/// With a channel setting of 1 to 16, only the messages on that channel
/// (channels 0 to 15 in the status byte) are received; with any other
/// setting (omni) every message is.
pub proof fn lemma_channel_setting(setting: u8, status: u8)
    ensures
        spec_accepts_channel(spec_channel_filter(setting), status) == (!(1 <= setting <= 16) || status % 16
            == setting - 1),
{
}

/// Where an incoming MIDI message is handed on to.
#[derive(Clone, Copy, Debug, PartialEq, Eq, Structural)]
pub enum MidiRoute {
    /// Control and program changes go to the user interface.
    Ui,
    /// Timing clock ticks are used to measure the tempo.
    Clock,
    /// Everything else goes directly to the synth engine.
    Synth,
}

pub fn route(m: MidiMessage) -> (r: MidiRoute)
    ensures
        (m is ControlChg || m is ProgramChg) ==> r == MidiRoute::Ui,
        m is TimingClock ==> r == MidiRoute::Clock,
        !(m is ControlChg || m is ProgramChg || m is TimingClock) ==> r == MidiRoute::Synth,
{
    match m {
        MidiMessage::ControlChg { .. } | MidiMessage::ProgramChg { .. } => MidiRoute::Ui,
        MidiMessage::TimingClock => MidiRoute::Clock,
        _ => MidiRoute::Synth,
    }
}

} // verus!
