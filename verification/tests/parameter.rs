use yazz::parameter::{menu_items, MenuItem, MenuList, ParamId, Parameter, ValueRange};

#[test]
fn val_range_of_oscillator_level() {
    assert_eq!(
        MenuItem::get_val_range(Parameter::Oscillator, Parameter::Level),
        ValueRange::Float(0, 100000, 1000)
    );
}

#[test]
fn val_ranges_of_several_parameters() {
    assert_eq!(MenuItem::get_val_range(Parameter::Oscillator, Parameter::Tune), ValueRange::Int(-24, 24));
    assert_eq!(
        MenuItem::get_val_range(Parameter::Oscillator, Parameter::Routing),
        ValueRange::Choice(MenuList::OscRouting)
    );
    assert_eq!(
        MenuItem::get_val_range(Parameter::Oscillator, Parameter::Wavetable),
        ValueRange::Dynamic(Parameter::Wavetable)
    );
    assert_eq!(MenuItem::get_val_range(Parameter::Envelope, Parameter::Sustain), ValueRange::Float(0, 1000, 1));
    assert_eq!(MenuItem::get_val_range(Parameter::Lfo, Parameter::Frequency), ValueRange::Float(0, 44100, 100));
    assert_eq!(MenuItem::get_val_range(Parameter::GlobalLfo, Parameter::Sync), ValueRange::Choice(MenuList::SyncOptions));
    assert_eq!(MenuItem::get_val_range(Parameter::Filter, Parameter::Cutoff), ValueRange::Float(1000, 8000000, 20000));
    assert_eq!(MenuItem::get_val_range(Parameter::Delay, Parameter::Time), ValueRange::Float(10, 1000, 10));
    assert_eq!(MenuItem::get_val_range(Parameter::Modulation, Parameter::Source), ValueRange::Func(MenuList::ModSources));
    assert_eq!(MenuItem::get_val_range(Parameter::Modulation, Parameter::Target), ValueRange::Param(MenuList::ModTargets));
    assert_eq!(MenuItem::get_val_range(Parameter::Patch, Parameter::Voices), ValueRange::Int(1, 32));
    assert_eq!(MenuItem::get_val_range(Parameter::Patch, Parameter::PlayMode), ValueRange::Choice(MenuList::PlayModes));
}

#[test]
fn item_index_finds_first_match() {
    let list = menu_items(MenuList::FilterParams);
    assert_eq!(MenuItem::get_item_index(Parameter::Type, &list), 0);
    assert_eq!(MenuItem::get_item_index(Parameter::KeyFollow, &list), 6);
    let funcs = menu_items(MenuList::Functions);
    assert_eq!(MenuItem::get_item_index(Parameter::Patch, &funcs), 7);
}

#[test]
fn menu_item_lookup() {
    let funcs = menu_items(MenuList::Functions);
    let item = MenuItem::get_menu_item(Parameter::Modulation, &funcs);
    assert_eq!(item.key, 'm');
    assert_eq!(item.val_range, ValueRange::Int(1, 16));
    assert_eq!(item.next, MenuList::ModParams);
}

#[test]
fn menu_list_sizes() {
    assert_eq!(menu_items(MenuList::Functions).len(), 8);
    assert_eq!(menu_items(MenuList::OscParams).len(), 11);
    assert_eq!(menu_items(MenuList::FilterTypes).len(), 10);
    assert_eq!(menu_items(MenuList::PatchParams).len(), 12);
    assert_eq!(menu_items(MenuList::SyncOptions).len(), 9);
    assert_eq!(menu_items(MenuList::Empty).len(), 0);
}

#[test]
fn param_id_new_and_set() {
    let mut id = ParamId::new(Parameter::Oscillator, 1, Parameter::Level);
    assert_eq!(id, ParamId { function: Parameter::Oscillator, function_id: 1, parameter: Parameter::Level });
    id.set(Parameter::Filter, 2, Parameter::Cutoff);
    assert_eq!(id, ParamId { function: Parameter::Filter, function_id: 2, parameter: Parameter::Cutoff });
}

#[test]
fn parameter_default_is_oscillator() {
    assert_eq!(Parameter::default(), Parameter::Oscillator);
    assert_eq!(ValueRange::default(), ValueRange::NoRange);
}

#[test]
fn every_menu_range_holds_a_value() {
    let lists = [
        MenuList::Functions,
        MenuList::OscParams,
        MenuList::OscRouting,
        MenuList::OscTypes,
        MenuList::LfoParams,
        MenuList::FilterParams,
        MenuList::FilterTypes,
        MenuList::EnvParams,
        MenuList::LfoWaveforms,
        MenuList::SyncOptions,
        MenuList::DelayParams,
        MenuList::DelayTypes,
        MenuList::ModParams,
        MenuList::PatchParams,
        MenuList::ModSources,
        MenuList::ModTargets,
        MenuList::ModTargetParams,
        MenuList::PlayModes,
        MenuList::FilterRoutings,
        MenuList::VoiceAllocations,
        MenuList::PanOrigins,
    ];
    for list in lists {
        for it in menu_items(list).iter() {
            match it.val_range {
                ValueRange::Int(min, max) => assert!(min <= max),
                ValueRange::Float(min, max, step) => assert!(min <= max && step > 0),
                ValueRange::Choice(l) | ValueRange::Func(l) | ValueRange::Param(l) => assert!(!menu_items(l).is_empty()),
                _ => {}
            }
        }
    }
}

#[test]
fn controller_positions_are_scaled_into_ranges() {
    let level = ValueRange::Float(0, 100000, 1000);
    assert_eq!(level.translate_value(0), Some(0));
    assert_eq!(level.translate_value(127), Some(100000));
    assert_eq!(level.translate_value(200), Some(100000));
    // 100000 * 64 / 127 = 50393.7, rounded to the nearest thousandth.
    assert_eq!(level.translate_value(64), Some(50394));
    let tune = ValueRange::Int(-24, 24);
    assert_eq!(tune.translate_value(0), Some(-24));
    assert_eq!(tune.translate_value(64), Some(0));
    assert_eq!(tune.translate_value(127), Some(24));
    // Three routing choices: positions up to 31 pick the first, 127 the last.
    let routing = ValueRange::Choice(MenuList::OscRouting);
    assert_eq!(routing.translate_value(31), Some(0));
    assert_eq!(routing.translate_value(32), Some(1));
    assert_eq!(routing.translate_value(127), Some(2));
    assert_eq!(ValueRange::NoRange.translate_value(10), None);
    assert_eq!(ValueRange::Int(3, 1).translate_value(10), None);
}

#[test]
fn steps_stay_inside_ranges() {
    let level = ValueRange::Float(0, 100000, 1000);
    assert_eq!(level.add_value(50000, 1), Some(51000));
    assert_eq!(level.add_value(51000, -1), Some(50000));
    assert_eq!(level.add_value(99500, 1), Some(100000));
    assert_eq!(level.add_value(500, -1), Some(0));
    let voices = ValueRange::Int(1, 7);
    assert_eq!(voices.add_value(7, 1), Some(7));
    assert_eq!(voices.add_value(3, -1), Some(2));
    assert_eq!(ValueRange::Dynamic(Parameter::Wavetable).add_value(1, 1), None);
}
