use yazz::filter::FilterType as BasicFilterType;
use yazz::sound::SyncValue;
use yazz::synth::delay::{sync_sixteenths, wrap_add, wrap_diff, BUFF_LEN};
use yazz::synth::envelope::{initial_state, is_running, next_state, release_changes_state, EnvState};
use yazz::synth::lfo::{get_waveform, select_wave, LfoWaveform};
use yazz::synth::oscillator::OscType;
use yazz::synth::synth::{
    controller_event, mark_playing, note_off, param_change_effect, ui_change_effect, playing_bitmap, push_key, select_voice,
    select_voice_poly, ControllerEvent, FilterRouting, NoteOffAction, ParamChangeEffect, PlayMode, VoiceStatus,
};
use yazz::parameter::Parameter;
use yazz::synth::filter::{filter_model, ladder_mix, FilterCircuit, FilterType};
use yazz::synth::oscillator::{voice_num, OscRouting, MAX_VOICES};

fn voice(running: bool, trigger_seq: u64) -> VoiceStatus {
    VoiceStatus { running, triggered: running, trigger_seq, key: 0 }
}

#[test]
fn enum_round_trips() {
    for i in 0..2 {
        assert_eq!(OscType::from_int(i).to_int(), i);
        assert_eq!(FilterRouting::from_int(i).to_int(), i);
    }
    for i in 0..3 {
        assert_eq!(PlayMode::from_int(i).to_int(), i);
    }
    for i in 0..7 {
        assert_eq!(get_waveform(select_wave(i)), i);
    }
    assert_eq!(OscType::from_int(1), OscType::Noise);
    assert_eq!(PlayMode::from_int(2), PlayMode::Legato);
    assert_eq!(FilterRouting::from_int(1), FilterRouting::Serial);
    assert_eq!(select_wave(5), LfoWaveform::SnH);
    assert_eq!(SyncValue::from_int(0), SyncValue::Off);
    assert_eq!(SyncValue::from_int(8), SyncValue::Sixteenth);
    assert_eq!(SyncValue::from_int(4) as usize, 4);
}

#[test]
fn defaults() {
    assert_eq!(PlayMode::default(), PlayMode::Poly);
    assert_eq!(FilterRouting::default(), FilterRouting::Parallel);
    assert_eq!(OscType::default(), OscType::Wavetable);
    assert_eq!(LfoWaveform::default(), LfoWaveform::Sine);
    assert_eq!(SyncValue::default(), SyncValue::Off);
    assert_eq!(BasicFilterType::default(), BasicFilterType::Default);
}

#[test]
fn poly_takes_first_idle_voice() {
    let voices = [voice(true, 3), voice(false, 9), voice(false, 1)];
    assert_eq!(select_voice_poly(&voices), 1);
}

#[test]
fn poly_steals_oldest_voice() {
    let voices = [voice(true, 3), voice(true, 1), voice(true, 1), voice(true, 2)];
    assert_eq!(select_voice_poly(&voices), 1);
    let all_max = [voice(true, u64::MAX), voice(true, u64::MAX)];
    assert_eq!(select_voice_poly(&all_max), 0);
    assert_eq!(select_voice_poly(&[]), 0);
}

#[test]
fn mono_modes_use_voice_zero() {
    let voices = [voice(true, 3), voice(false, 9)];
    assert_eq!(select_voice(PlayMode::Mono, &voices), 0);
    assert_eq!(select_voice(PlayMode::Legato, &voices), 0);
    assert_eq!(select_voice(PlayMode::Poly, &voices), 1);
}

#[test]
fn bitmap_of_running_voices() {
    let voices = [voice(true, 0), voice(false, 0), voice(true, 0)];
    assert_eq!(playing_bitmap(&voices), 0b101);
    assert_eq!(mark_playing(0b101, 1), 0b111);
    assert_eq!(mark_playing(0, 31), 1 << 31);
    let all: Vec<VoiceStatus> = (0..32).map(|_| voice(true, 0)).collect();
    assert_eq!(playing_bitmap(&all), u32::MAX);
}

#[test]
fn key_stack_entries() {
    let mut stack = Vec::new();
    push_key(&mut stack, 60, 100);
    assert_eq!(stack, vec![(100u16 << 8) | 60]);
}

#[test]
fn note_off_in_poly_mode_releases_voice() {
    let mut stack = Vec::new();
    push_key(&mut stack, 60, 100);
    push_key(&mut stack, 64, 90);
    let voices = [
        VoiceStatus { running: true, triggered: true, trigger_seq: 0, key: 60 },
        VoiceStatus { running: true, triggered: true, trigger_seq: 1, key: 64 },
    ];
    assert_eq!(note_off(&mut stack, &voices, 64, PlayMode::Poly), NoteOffAction::Release(1));
    assert_eq!(stack.len(), 1);
}

#[test]
fn note_off_in_mono_mode_plays_held_key() {
    let mut stack = Vec::new();
    push_key(&mut stack, 60, 100);
    push_key(&mut stack, 64, 90);
    let voices = [VoiceStatus { running: true, triggered: true, trigger_seq: 1, key: 64 }];
    assert_eq!(note_off(&mut stack, &voices, 64, PlayMode::Mono), NoteOffAction::Retrigger { key: 60, velocity: 100 });
    assert!(stack.is_empty());
}

#[test]
fn note_off_of_last_key_releases_in_mono_mode() {
    let mut stack = Vec::new();
    push_key(&mut stack, 60, 100);
    let voices = [VoiceStatus { running: true, triggered: true, trigger_seq: 1, key: 60 }];
    assert_eq!(note_off(&mut stack, &voices, 60, PlayMode::Legato), NoteOffAction::Release(0));
    assert!(stack.is_empty());
}

#[test]
fn note_off_without_voice_is_ignored() {
    let mut stack = Vec::new();
    push_key(&mut stack, 60, 100);
    let voices = [VoiceStatus { running: true, triggered: false, trigger_seq: 1, key: 60 }];
    assert_eq!(note_off(&mut stack, &voices, 60, PlayMode::Poly), NoteOffAction::Ignore);
    assert!(stack.is_empty());
}

#[test]
fn special_controllers() {
    assert_eq!(controller_event(1, 77), ControllerEvent::ModWheel(77));
    assert_eq!(controller_event(64, 64), ControllerEvent::SustainOn);
    assert_eq!(controller_event(64, 63), ControllerEvent::SustainOff);
    assert_eq!(controller_event(7, 100), ControllerEvent::Ignored);
}

#[test]
fn envelope_runs_through_its_phases() {
    // Delay, attack, decay, sustain, then release after the key goes up.
    let mut s = initial_state(true);
    assert_eq!(s, EnvState::Delay);
    assert_eq!(next_state(s, false, false, true, true), EnvState::Delay);
    s = next_state(s, true, false, true, true);
    assert_eq!(s, EnvState::Attack);
    s = next_state(s, true, false, true, true);
    assert_eq!(s, EnvState::Decay);
    s = next_state(s, true, false, true, true);
    assert_eq!(s, EnvState::Sustain);
    s = next_state(s, true, false, true, true);
    assert_eq!(s, EnvState::Sustain);
    assert!(release_changes_state(s));
    s = EnvState::Release;
    assert!(!release_changes_state(s));
    s = next_state(s, true, false, false, true);
    assert_eq!(s, EnvState::Idle);
    assert!(!is_running(s));
    assert_eq!(initial_state(false), EnvState::Attack);
}

#[test]
fn looping_envelope_restarts_while_held() {
    assert_eq!(next_state(EnvState::Decay, true, true, true, false), EnvState::Release);
    assert_eq!(next_state(EnvState::Release, true, true, true, false), EnvState::Attack);
    assert_eq!(next_state(EnvState::Release, true, true, true, true), EnvState::Delay);
    assert_eq!(next_state(EnvState::Release, true, true, false, true), EnvState::Idle);
    assert!(is_running(EnvState::Sustain));
}

#[test]
fn delay_positions_wrap() {
    assert_eq!(wrap_add(0, 1), 1);
    assert_eq!(wrap_add(BUFF_LEN - 1, 1), 0);
    assert_eq!(wrap_add(BUFF_LEN - 1, 2 * BUFF_LEN + 3), 2);
    assert_eq!(wrap_diff(10, 4), 6);
    assert_eq!(wrap_diff(4, 10), BUFF_LEN - 6);
    assert_eq!(wrap_diff(5, 5), BUFF_LEN);
}

#[test]
fn synced_delay_lengths() {
    assert_eq!(sync_sixteenths(SyncValue::Off), None);
    assert_eq!(sync_sixteenths(SyncValue::Whole), Some(16));
    assert_eq!(sync_sixteenths(SyncValue::DottedQuarter), Some(6));
    assert_eq!(sync_sixteenths(SyncValue::Sixteenth), Some(1));
}

#[test]
fn parameter_changes_that_need_updates() {
    assert_eq!(param_change_effect(Parameter::Oscillator, 2, Parameter::Wavetable), ParamChangeEffect::UpdateWavetable(1));
    assert_eq!(param_change_effect(Parameter::Oscillator, 3, Parameter::Routing), ParamChangeEffect::UpdateRouting(2));
    assert_eq!(param_change_effect(Parameter::Oscillator, 1, Parameter::Level), ParamChangeEffect::NoEffect);
    assert_eq!(param_change_effect(Parameter::Delay, 1, Parameter::Tone), ParamChangeEffect::UpdateDelayTone);
    assert_eq!(param_change_effect(Parameter::Delay, 1, Parameter::Sync), ParamChangeEffect::UpdateDelayBpm);
    assert_eq!(param_change_effect(Parameter::Delay, 1, Parameter::Time), ParamChangeEffect::NoEffect);
    assert_eq!(param_change_effect(Parameter::Patch, 1, Parameter::Bpm), ParamChangeEffect::UpdateDelayBpm);
    assert_eq!(param_change_effect(Parameter::Envelope, 1, Parameter::Attack), ParamChangeEffect::NoEffect);
}

#[test]
fn wavetable_shift_rotates_and_repeats_first_sample() {
    let mut t = [0, 1, 2, 3, 0, 9];
    yazz::synth::wavetable::shift(&mut t, 4, 1);
    assert_eq!(t, [3, 0, 1, 2, 3, 9]);
    let mut t = [5, 6, 7, 0];
    yazz::synth::wavetable::shift(&mut t, 3, 0);
    assert_eq!(t, [5, 6, 7, 5]);
    let mut t = [4, 3];
    yazz::synth::wavetable::shift(&mut t, 0, 7);
    assert_eq!(t, [4, 3]);
}

#[test]
fn osc_routing_positions() {
    for i in 0..3 {
        assert_eq!(OscRouting::from_int(i).to_int(), i);
    }
    assert_eq!(OscRouting::from_int(0), OscRouting::Filter1);
    assert_eq!(OscRouting::from_int(2), OscRouting::Direct);
    assert_eq!(OscRouting::Filter2.outputs(), (false, true, false));
    assert_eq!(OscRouting::Direct.outputs(), (false, false, true));
}

#[test]
fn filter_models_of_the_type_list() {
    assert_eq!(filter_model(0), None);
    assert_eq!(filter_model(1), Some((FilterCircuit::Sem, FilterType::LPF2)));
    assert_eq!(filter_model(4), Some((FilterCircuit::Sem, FilterType::BSF2)));
    assert_eq!(filter_model(6), Some((FilterCircuit::K35, FilterType::HPF2)));
    assert_eq!(filter_model(9), Some((FilterCircuit::OberMoog, FilterType::HPF4)));
}

#[test]
fn ladder_mixes() {
    assert_eq!(ladder_mix(FilterType::LPF4), (0, 0, 0, 0, 1));
    assert_eq!(ladder_mix(FilterType::BPF4), (0, 0, 4, -8, 4));
    assert_eq!(ladder_mix(FilterType::HPF4), (1, -4, 6, -4, 1));
    assert_eq!(ladder_mix(FilterType::HPF2), (1, -2, 1, 0, 0));
}

#[test]
fn press_then_release_restores_key_stack() {
    let mut stack = Vec::new();
    push_key(&mut stack, 60, 100);
    push_key(&mut stack, 62, 80);
    let before = stack.clone();
    push_key(&mut stack, 64, 90);
    let voices = [VoiceStatus { running: true, triggered: true, trigger_seq: 2, key: 64 }];
    assert_eq!(note_off(&mut stack, &voices, 64, PlayMode::Poly), NoteOffAction::Release(0));
    assert_eq!(stack, before);
}

#[test]
fn voice_count_is_capped() {
    assert_eq!(voice_num(3), 3);
    assert_eq!(voice_num(7), 7);
    assert_eq!(voice_num(9), 7);
    assert_eq!(MAX_VOICES, 7);
}

#[test]
fn ui_messages_for_instance_zero_are_refused() {
    assert_eq!(ui_change_effect(Parameter::Oscillator, 0, Parameter::Wavetable), None);
    assert_eq!(ui_change_effect(Parameter::Delay, 0, Parameter::Tone), None);
    assert_eq!(
        ui_change_effect(Parameter::Oscillator, 2, Parameter::Wavetable),
        Some(ParamChangeEffect::UpdateWavetable(1))
    );
    assert_eq!(ui_change_effect(Parameter::Patch, 1, Parameter::Bpm), Some(ParamChangeEffect::UpdateDelayBpm));
}
