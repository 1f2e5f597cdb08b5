use yazz::parameter::{menu_items, MenuList, Parameter, ValueRange};
use yazz::sound::{instance_index, sound_index, sound_kind, value_kind, SyncValue, ValueKind};
use yazz::synth::lfo::{get_waveform, LfoWaveform};
use yazz::synth::oscillator::{OscRouting, OscType};
use yazz::synth::synth::{FilterRouting, PlayMode};

#[test]
fn sound_holds_oscillator_parameters() {
    assert_eq!(sound_kind(Parameter::Oscillator, Parameter::Level), Some(ValueKind::Float));
    assert_eq!(sound_kind(Parameter::Oscillator, Parameter::Tune), Some(ValueKind::Int));
    assert_eq!(sound_kind(Parameter::Oscillator, Parameter::Routing), Some(ValueKind::Choice));
    assert_eq!(sound_kind(Parameter::Oscillator, Parameter::Wavetable), Some(ValueKind::Dynamic));
    assert_eq!(sound_kind(Parameter::Oscillator, Parameter::Attack), None);
}

#[test]
fn sound_holds_modulation_and_system() {
    assert_eq!(sound_kind(Parameter::Modulation, Parameter::Source), Some(ValueKind::Function));
    assert_eq!(sound_kind(Parameter::Modulation, Parameter::Target), Some(ValueKind::Param));
    assert_eq!(sound_kind(Parameter::Modulation, Parameter::Active), Some(ValueKind::Int));
    assert_eq!(sound_kind(Parameter::System, Parameter::Level), Some(ValueKind::NoValue));
    assert_eq!(sound_kind(Parameter::Amp, Parameter::Level), None);
    assert_eq!(sound_kind(Parameter::Filter, Parameter::EnvDepth), None);
}

#[test]
fn value_kinds_of_ranges() {
    assert_eq!(value_kind(ValueRange::Int(0, 1)), ValueKind::Int);
    assert_eq!(value_kind(ValueRange::Float(0, 1000, 10)), ValueKind::Float);
    assert_eq!(value_kind(ValueRange::Choice(MenuList::OscTypes)), ValueKind::Choice);
    assert_eq!(value_kind(ValueRange::Dynamic(Parameter::Wavetable)), ValueKind::Dynamic);
    assert_eq!(value_kind(ValueRange::Func(MenuList::ModSources)), ValueKind::Function);
    assert_eq!(value_kind(ValueRange::Param(MenuList::ModTargets)), ValueKind::Param);
    assert_eq!(value_kind(ValueRange::NoRange), ValueKind::NoValue);
}

#[test]
fn menu_parameters_match_the_sound() {
    let funcs = menu_items(MenuList::Functions);
    for f in funcs.iter() {
        for p in menu_items(f.next).iter() {
            let menu_only = (f.item == Parameter::Filter && p.item == Parameter::EnvDepth)
                || (f.item == Parameter::Patch
                    && matches!(p.item, Parameter::Voices | Parameter::Spread | Parameter::Allocation | Parameter::PanOrigin));
            if menu_only {
                assert_eq!(sound_kind(f.item, p.item), None);
            } else {
                assert_eq!(sound_kind(f.item, p.item), Some(value_kind(p.val_range)));
            }
        }
    }
}

#[test]
fn instance_indices() {
    assert_eq!(instance_index(Parameter::Oscillator, 1), Some(0));
    assert_eq!(instance_index(Parameter::Oscillator, 3), Some(2));
    assert_eq!(instance_index(Parameter::Oscillator, 4), None);
    assert_eq!(instance_index(Parameter::Oscillator, 0), None);
    assert_eq!(instance_index(Parameter::Modulation, 16), Some(15));
    assert_eq!(instance_index(Parameter::Delay, 1), Some(0));
    assert_eq!(instance_index(Parameter::Delay, 2), None);
    assert_eq!(instance_index(Parameter::System, 1), None);
    for f in menu_items(MenuList::Functions).iter() {
        if let ValueRange::Int(min, max) = f.val_range {
            assert_eq!(min, 1);
            assert!(instance_index(f.item, max as usize).is_some());
            assert!(instance_index(f.item, max as usize + 1).is_none());
        }
    }
}

#[test]
fn choice_lists_name_their_options() {
    let routing = menu_items(MenuList::OscRouting);
    assert_eq!(routing.len(), 3);
    assert_eq!(routing[OscRouting::Direct.to_int()].item, Parameter::Direct);
    assert_eq!(routing[OscRouting::Filter2.to_int()].item, Parameter::Filter2);
    let types = menu_items(MenuList::OscTypes);
    assert_eq!(types.len(), 2);
    assert_eq!(types[OscType::Noise.to_int()].item, Parameter::Noise);
    let waves = menu_items(MenuList::LfoWaveforms);
    assert_eq!(waves.len(), 7);
    assert_eq!(waves[get_waveform(LfoWaveform::SnH)].item, Parameter::SampleHold);
    let sync = menu_items(MenuList::SyncOptions);
    assert_eq!(sync.len(), 9);
    assert_eq!(sync[7].item, Parameter::Eigth);
    assert_eq!(SyncValue::from_int(7), SyncValue::Eigth);
    let modes = menu_items(MenuList::PlayModes);
    assert_eq!(modes.len(), 3);
    assert_eq!(modes[PlayMode::Legato.to_int()].item, Parameter::Legato);
    let routings = menu_items(MenuList::FilterRoutings);
    assert_eq!(routings.len(), 2);
    assert_eq!(routings[FilterRouting::Serial.to_int()].item, Parameter::Serial);
}

#[test]
fn sound_positions_of_parameter_messages() {
    assert_eq!(sound_index(Parameter::Oscillator, 0), None);
    assert_eq!(sound_index(Parameter::Oscillator, 3), Some(2));
    assert_eq!(sound_index(Parameter::Oscillator, 4), None);
    assert_eq!(sound_index(Parameter::Delay, 1), Some(0));
    assert_eq!(sound_index(Parameter::Patch, 2), Some(0));
    assert_eq!(sound_index(Parameter::System, 1), Some(0));
    assert_eq!(sound_index(Parameter::Delay, 0), None);
}
