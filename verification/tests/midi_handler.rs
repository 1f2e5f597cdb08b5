use yazz::midi_handler::{accepts_channel, channel_filter, get_midi_message, receives_message, route, MidiMessage, MidiRoute};

#[test]
fn decodes_note_on_and_off() {
    assert_eq!(get_midi_message(&[0x90, 60, 100]), MidiMessage::NoteOn { channel: 0, key: 60, velocity: 100 });
    assert_eq!(get_midi_message(&[0x83, 61, 0]), MidiMessage::NoteOff { channel: 3, key: 61, velocity: 0 });
}

#[test]
fn decodes_channel_messages() {
    assert_eq!(get_midi_message(&[0xA1, 5, 6]), MidiMessage::KeyAT { channel: 1, key: 5, pressure: 6 });
    assert_eq!(get_midi_message(&[0xBF, 1, 64]), MidiMessage::ControlChg { channel: 15, controller: 1, value: 64 });
    assert_eq!(get_midi_message(&[0xC2, 7]), MidiMessage::ProgramChg { channel: 2, program: 7 });
    assert_eq!(get_midi_message(&[0xD4, 90]), MidiMessage::ChannelAT { channel: 4, pressure: 90 });
}

#[test]
fn decodes_pitchbend() {
    assert_eq!(get_midi_message(&[0xE0, 0x00, 0x40]), MidiMessage::Pitchbend { channel: 0, pitch: 0 });
    assert_eq!(get_midi_message(&[0xE5, 0x00, 0x00]), MidiMessage::Pitchbend { channel: 5, pitch: -8192 });
    assert_eq!(get_midi_message(&[0xE0, 0x7F, 0x7F]), MidiMessage::Pitchbend { channel: 0, pitch: 8191 });
}

#[test]
fn decodes_system_messages() {
    assert_eq!(get_midi_message(&[0xF2, 0x10, 0x01]), MidiMessage::SongPos { position: 144 });
    assert_eq!(get_midi_message(&[0xF8]), MidiMessage::TimingClock);
    assert_eq!(get_midi_message(&[0xFA]), MidiMessage::Start);
    assert_eq!(get_midi_message(&[0xFB]), MidiMessage::Continue);
    assert_eq!(get_midi_message(&[0xFC]), MidiMessage::Stop);
    assert_eq!(get_midi_message(&[0xFE]), MidiMessage::ActiveSensing);
    assert_eq!(get_midi_message(&[0xFF]), MidiMessage::Reset);
}

#[test]
fn missing_data_bytes_read_as_zero() {
    assert_eq!(get_midi_message(&[0x92]), MidiMessage::NoteOn { channel: 2, key: 0, velocity: 0 });
    assert_eq!(get_midi_message(&[0x92, 5]), MidiMessage::NoteOn { channel: 2, key: 5, velocity: 0 });
}

#[test]
fn channel_setting_maps_to_filter() {
    assert_eq!(channel_filter(0), 16);
    assert_eq!(channel_filter(1), 0);
    assert_eq!(channel_filter(16), 15);
    assert_eq!(channel_filter(17), 16);
}

#[test]
fn channel_filter_accepts() {
    assert!(accepts_channel(16, 0x93));
    assert!(accepts_channel(3, 0x93));
    assert!(!accepts_channel(2, 0x93));
    assert!(accepts_channel(200, 0x80));
}

#[test]
fn routes_messages() {
    assert_eq!(route(MidiMessage::ControlChg { channel: 0, controller: 1, value: 2 }), MidiRoute::Ui);
    assert_eq!(route(MidiMessage::ProgramChg { channel: 0, program: 1 }), MidiRoute::Ui);
    assert_eq!(route(MidiMessage::TimingClock), MidiRoute::Clock);
    assert_eq!(route(MidiMessage::NoteOn { channel: 0, key: 1, velocity: 2 }), MidiRoute::Synth);
    assert_eq!(route(MidiMessage::Stop), MidiRoute::Synth);
}

#[test]
fn channel_setting_selects_received_messages() {
    // Setting 3 receives channel 2 only.
    assert!(accepts_channel(channel_filter(3), 0x92));
    assert!(!accepts_channel(channel_filter(3), 0x93));
    // Settings outside 1 - 16 receive every channel.
    for status in [0x80u8, 0x9F, 0xB5] {
        assert!(accepts_channel(channel_filter(0), status));
        assert!(accepts_channel(channel_filter(99), status));
    }
}

#[test]
fn channel_setting_zero_receives_every_channel() {
    assert!(receives_message(0, 0x91));
    assert!(receives_message(0, 0x90));
    assert!(receives_message(0, 0xBF));
    assert!(receives_message(2, 0x91));
    assert!(!receives_message(1, 0x91));
    assert!(receives_message(16, 0x9F));
    assert!(!receives_message(16, 0x90));
    assert!(receives_message(17, 0x95));
}
