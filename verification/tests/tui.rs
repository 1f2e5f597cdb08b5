use yazz::param_selection::{self, SelectionOutcome, SelectionState};
use yazz::parameter::{menu_items, FunctionId, MenuList, Parameter, ValueRange};
use yazz::tui::{
    change_state, choice_input, clamp_choice, clamp_int, control_change_state, current_function_index, display_layout,
    float_input, int_input, key_outcome, next, previous, select_item, source_function, start_value, ChoiceInput, DisplayPart,
    FloatEdit, FloatInput, InputKey, IntInput, KeyAction, KeyOutcome, ReturnCode, StartValue, StateEffect, TuiState,
};

#[test]
fn next_and_previous_states() {
    assert_eq!(next(TuiState::Function), TuiState::FunctionIndex);
    assert_eq!(next(TuiState::Value), TuiState::Param);
    assert_eq!(next(TuiState::ValueSubParam), TuiState::ValueSubFunction);
    assert_eq!(previous(TuiState::Function), TuiState::Function);
    assert_eq!(previous(TuiState::ValueSubFunction), TuiState::Param);
    assert_eq!(param_selection::next(SelectionState::Value), SelectionState::Param);
    assert_eq!(param_selection::previous(SelectionState::FunctionIndex), SelectionState::Function);
}

#[test]
fn selecting_a_function_and_its_instance() {
    let o = key_outcome(TuiState::Function, ReturnCode::ValueComplete, Parameter::Level);
    assert_eq!(o, KeyOutcome { state: TuiState::FunctionIndex, action: KeyAction::NoAction, retry: false });
    let o = key_outcome(TuiState::FunctionIndex, ReturnCode::ValueComplete, Parameter::Level);
    assert_eq!(o, KeyOutcome { state: TuiState::Param, action: KeyAction::EnterParams, retry: false });
    let o = key_outcome(TuiState::Function, ReturnCode::Cancel, Parameter::Level);
    assert_eq!(o.state, TuiState::Function);
}

#[test]
fn unused_key_in_value_state_is_retried() {
    let o = key_outcome(TuiState::Value, ReturnCode::KeyMissmatch, Parameter::Level);
    assert_eq!(o, KeyOutcome { state: TuiState::Param, action: KeyAction::NoAction, retry: true });
    let o2 = key_outcome(o.state, ReturnCode::KeyMissmatch, Parameter::Level);
    assert!(!o2.retry);
}

#[test]
fn value_updates_are_sent() {
    let o = key_outcome(TuiState::Value, ReturnCode::ValueUpdated, Parameter::Level);
    assert_eq!(o, KeyOutcome { state: TuiState::Value, action: KeyAction::SendValue, retry: false });
    let o = key_outcome(TuiState::Value, ReturnCode::ValueComplete, Parameter::Level);
    assert_eq!(o.state, TuiState::Param);
}

#[test]
fn modulation_sub_states() {
    let o = key_outcome(TuiState::ValueSubFunctionIndex, ReturnCode::ValueComplete, Parameter::Source);
    assert_eq!(o, KeyOutcome { state: TuiState::ValueSubFunction, action: KeyAction::SendSource, retry: false });
    let o = key_outcome(TuiState::ValueSubFunctionIndex, ReturnCode::ValueComplete, Parameter::Target);
    assert_eq!(o, KeyOutcome { state: TuiState::ValueSubParam, action: KeyAction::EnterSubParams, retry: false });
    let o = key_outcome(TuiState::ValueSubParam, ReturnCode::ValueComplete, Parameter::Target);
    assert_eq!(o, KeyOutcome { state: TuiState::ValueSubFunction, action: KeyAction::SendTarget, retry: false });
}

#[test]
fn entering_modulation_value_selects_sub_function() {
    let r = change_state(TuiState::Param, TuiState::Value, Parameter::Modulation, Parameter::Source, Parameter::Oscillator, Parameter::Level);
    assert_eq!(r, (TuiState::ValueSubFunction, StateEffect::EnterSubFunction(MenuList::ModSources)));
    let r = change_state(TuiState::Param, TuiState::Value, Parameter::Modulation, Parameter::Target, Parameter::Oscillator, Parameter::Level);
    assert_eq!(r, (TuiState::ValueSubFunction, StateEffect::EnterSubFunction(MenuList::ModTargets)));
    let r = change_state(TuiState::Param, TuiState::Value, Parameter::Oscillator, Parameter::Level, Parameter::Oscillator, Parameter::Level);
    assert_eq!(r, (TuiState::Value, StateEffect::NoEffect));
    let r = change_state(TuiState::FunctionIndex, TuiState::Function, Parameter::Oscillator, Parameter::Level, Parameter::Oscillator, Parameter::Level);
    assert_eq!(r, (TuiState::Function, StateEffect::ResetParamIndex));
    let r = change_state(TuiState::Function, TuiState::Function, Parameter::Oscillator, Parameter::Level, Parameter::Oscillator, Parameter::Level);
    assert_eq!(r, (TuiState::Function, StateEffect::NoEffect));
}

#[test]
fn param_selection_outcomes() {
    let o = param_selection::key_outcome(SelectionState::Param, ReturnCode::ValueComplete);
    assert_eq!(o, SelectionOutcome { state: SelectionState::Value, action: KeyAction::SelectParam, retry: false });
    let o = param_selection::key_outcome(SelectionState::Value, ReturnCode::KeyMissmatch);
    assert_eq!(o, SelectionOutcome { state: SelectionState::Param, action: KeyAction::NoAction, retry: true });
    assert_eq!(param_selection::change_state(SelectionState::Param, SelectionState::Function), (SelectionState::Function, true));
    assert_eq!(param_selection::change_state(SelectionState::Function, SelectionState::Function), (SelectionState::Function, false));
}

#[test]
fn select_item_moves_inside_the_list() {
    let items = menu_items(MenuList::Functions);
    let mut index: usize = 0;
    assert_eq!(select_item(&mut index, &items, InputKey::Down), ReturnCode::ValueUpdated);
    assert_eq!(index, 0);
    assert_eq!(select_item(&mut index, &items, InputKey::Up), ReturnCode::ValueUpdated);
    assert_eq!(index, 1);
    let last = items.len() - 1;
    index = last;
    assert_eq!(select_item(&mut index, &items, InputKey::Up), ReturnCode::ValueUpdated);
    assert_eq!(index, last);
    assert_eq!(select_item(&mut index, &items, InputKey::Left), ReturnCode::Cancel);
    assert_eq!(select_item(&mut index, &items, InputKey::Backspace), ReturnCode::Cancel);
    assert_eq!(select_item(&mut index, &items, InputKey::Right), ReturnCode::ValueComplete);
    assert_eq!(select_item(&mut index, &items, InputKey::Char('\n')), ReturnCode::ValueComplete);
    assert_eq!(select_item(&mut index, &items, InputKey::Other), ReturnCode::KeyConsumed);
    assert_eq!(index, last);
}

#[test]
fn select_item_by_key() {
    let items = menu_items(MenuList::Functions);
    let mut index: usize = 0;
    assert_eq!(select_item(&mut index, &items, InputKey::Char('f')), ReturnCode::ValueComplete);
    assert_eq!(items[index].item, Parameter::Filter);
    assert_eq!(select_item(&mut index, &items, InputKey::Char('l')), ReturnCode::ValueComplete);
    assert_eq!(items[index].item, Parameter::Lfo);
    let before = index;
    assert_eq!(select_item(&mut index, &items, InputKey::Char('z')), ReturnCode::KeyConsumed);
    assert_eq!(index, before);
}

#[test]
fn clamping_values() {
    assert_eq!(clamp_int(5, 0, 3), 3);
    assert_eq!(clamp_int(-5, 0, 3), 0);
    assert_eq!(clamp_int(2, 0, 3), 2);
    assert_eq!(clamp_choice(7, 3), 2);
    assert_eq!(clamp_choice(1, 3), 1);
}

#[test]
fn typing_an_integer_value() {
    // Range 1..=16: '1' can be followed by another digit, then the value is complete.
    let r = int_input(0, 1, 16, InputKey::Char('1'));
    assert_eq!(r, IntInput { code: ReturnCode::KeyConsumed, value: 1 });
    let r = int_input(r.value, 1, 16, InputKey::Char('2'));
    assert_eq!(r, IntInput { code: ReturnCode::ValueComplete, value: 12 });
    // A digit that does not fit replaces the value.
    let r = int_input(12, 1, 16, InputKey::Char('7'));
    assert_eq!(r, IntInput { code: ReturnCode::ValueComplete, value: 7 });
    // Range -24..=24: '3' completes at once since 30 > 24.
    let r = int_input(0, -24, 24, InputKey::Char('3'));
    assert_eq!(r, IntInput { code: ReturnCode::ValueComplete, value: 3 });
}

#[test]
fn integer_value_keys() {
    assert_eq!(int_input(3, 1, 3, InputKey::Up), IntInput { code: ReturnCode::ValueUpdated, value: 3 });
    assert_eq!(int_input(2, 1, 3, InputKey::Up), IntInput { code: ReturnCode::ValueUpdated, value: 3 });
    assert_eq!(int_input(2, 1, 3, InputKey::Down), IntInput { code: ReturnCode::ValueUpdated, value: 1 });
    assert_eq!(int_input(1, 1, 3, InputKey::Down), IntInput { code: ReturnCode::KeyConsumed, value: 1 });
    assert_eq!(int_input(2, 1, 3, InputKey::Left), IntInput { code: ReturnCode::Cancel, value: 2 });
    assert_eq!(int_input(2, 1, 3, InputKey::Backspace), IntInput { code: ReturnCode::Cancel, value: 2 });
    assert_eq!(int_input(9, 1, 3, InputKey::Right), IntInput { code: ReturnCode::ValueComplete, value: 3 });
    assert_eq!(int_input(9, 1, 3, InputKey::Char('\n')), IntInput { code: ReturnCode::ValueComplete, value: 3 });
    assert_eq!(int_input(2, 1, 3, InputKey::Char('x')), IntInput { code: ReturnCode::KeyMissmatch, value: 2 });
    assert_eq!(int_input(2, 1, 3, InputKey::Other), IntInput { code: ReturnCode::ValueComplete, value: 2 });
}

#[test]
fn choice_value_keys() {
    assert_eq!(choice_input(0, 3, InputKey::Up), ChoiceInput { code: ReturnCode::ValueUpdated, value: 1 });
    assert_eq!(choice_input(2, 3, InputKey::Up), ChoiceInput { code: ReturnCode::ValueUpdated, value: 2 });
    assert_eq!(choice_input(2, 3, InputKey::Down), ChoiceInput { code: ReturnCode::ValueUpdated, value: 1 });
    assert_eq!(choice_input(0, 3, InputKey::Down), ChoiceInput { code: ReturnCode::KeyConsumed, value: 0 });
    assert_eq!(choice_input(1, 3, InputKey::Left), ChoiceInput { code: ReturnCode::Cancel, value: 1 });
    assert_eq!(choice_input(1, 3, InputKey::Right), ChoiceInput { code: ReturnCode::ValueComplete, value: 1 });
    assert_eq!(choice_input(1, 3, InputKey::Char('\n')), ChoiceInput { code: ReturnCode::ValueComplete, value: 1 });
    assert_eq!(choice_input(1, 3, InputKey::Char('q')), ChoiceInput { code: ReturnCode::KeyMissmatch, value: 1 });
    assert_eq!(choice_input(1, 3, InputKey::Other), ChoiceInput { code: ReturnCode::KeyMissmatch, value: 1 });
}

#[test]
fn control_change_moves_to_value_entry() {
    assert_eq!(control_change_state(TuiState::Function), TuiState::FunctionIndex);
    assert_eq!(control_change_state(TuiState::FunctionIndex), TuiState::FunctionIndex);
    assert_eq!(control_change_state(TuiState::Param), TuiState::Value);
    assert_eq!(control_change_state(TuiState::Value), TuiState::Value);
    assert_eq!(control_change_state(TuiState::ValueSubFunction), TuiState::ValueSubFunctionIndex);
    assert_eq!(control_change_state(TuiState::ValueSubParam), TuiState::ValueSubParam);
    assert_eq!(param_selection::control_change_state(SelectionState::Function), SelectionState::FunctionIndex);
    assert_eq!(param_selection::control_change_state(SelectionState::Param), SelectionState::Value);
    assert_eq!(param_selection::control_change_state(SelectionState::Value), SelectionState::Value);
}

#[test]
fn status_line_layout() {
    let l = display_layout(TuiState::Function);
    assert_eq!(l.parts, vec![(DisplayPart::Function, true)]);
    assert_eq!(l.options_x, 1);
    let l = display_layout(TuiState::Param);
    assert_eq!(
        l.parts,
        vec![(DisplayPart::Function, false), (DisplayPart::FunctionIndex, false), (DisplayPart::Param, true)]
    );
    assert_eq!(l.options_x, 14);
    let l = display_layout(TuiState::Value);
    assert_eq!(l.parts.len(), 4);
    assert_eq!(l.parts[3], (DisplayPart::Value, true));
    assert_eq!(l.options_x, 23);
    let l = display_layout(TuiState::ValueSubParam);
    assert_eq!(
        l.parts,
        vec![
            (DisplayPart::Function, false),
            (DisplayPart::FunctionIndex, false),
            (DisplayPart::Param, false),
            (DisplayPart::SubFunction, true),
            (DisplayPart::SubFunctionIndex, true),
            (DisplayPart::SubParam, true),
        ]
    );
    assert_eq!(l.options_x, 32);
    assert_eq!(display_layout(TuiState::ValueSubFunction).options_x, 30);
    assert_eq!(display_layout(TuiState::FunctionIndex).options_x, 12);
}

#[test]
fn start_values_of_ranges() {
    assert_eq!(start_value(ValueRange::Int(-24, 24)), StartValue::Int(-24));
    assert_eq!(start_value(ValueRange::Float(1000, 240000, 1000)), StartValue::Float(1000));
    assert_eq!(start_value(ValueRange::Choice(MenuList::OscTypes)), StartValue::Choice(0));
    assert_eq!(start_value(ValueRange::Func(MenuList::ModSources)), StartValue::Function);
    assert_eq!(start_value(ValueRange::Param(MenuList::ModTargets)), StartValue::Param);
    assert_eq!(start_value(ValueRange::Dynamic(Parameter::Wavetable)), StartValue::NoValue);
    assert_eq!(start_value(ValueRange::NoRange), StartValue::NoValue);
}

#[test]
fn every_menu_item_is_selected_by_its_key() {
    let lists = [
        MenuList::Functions,
        MenuList::OscParams,
        MenuList::OscRouting,
        MenuList::OscTypes,
        MenuList::LfoParams,
        MenuList::FilterParams,
        MenuList::FilterTypes,
        MenuList::EnvParams,
        MenuList::LfoWaveforms,
        MenuList::SyncOptions,
        MenuList::DelayParams,
        MenuList::DelayTypes,
        MenuList::ModParams,
        MenuList::PatchParams,
        MenuList::ModSources,
        MenuList::ModTargets,
        MenuList::ModTargetParams,
        MenuList::PlayModes,
        MenuList::FilterRoutings,
        MenuList::VoiceAllocations,
        MenuList::PanOrigins,
    ];
    for list in lists {
        let items = menu_items(list);
        for (i, it) in items.iter().enumerate() {
            let mut index: usize = 0;
            assert_eq!(select_item(&mut index, &items, InputKey::Char(it.key)), ReturnCode::ValueComplete);
            assert_eq!(index, i);
        }
    }
}

#[test]
fn fractional_value_entry_keys() {
    let typed = FloatInput { edit: FloatEdit::Append('7'), code: ReturnCode::KeyConsumed, store: false };
    assert_eq!(float_input(InputKey::Char('7')), typed);
    assert_eq!(float_input(InputKey::Char('.')).edit, FloatEdit::Append('.'));
    assert_eq!(
        float_input(InputKey::Char('\n')),
        FloatInput { edit: FloatEdit::Keep, code: ReturnCode::ValueComplete, store: true }
    );
    assert_eq!(
        float_input(InputKey::Char('x')),
        FloatInput { edit: FloatEdit::Keep, code: ReturnCode::KeyMissmatch, store: false }
    );
    assert_eq!(
        float_input(InputKey::Up),
        FloatInput { edit: FloatEdit::StepUp, code: ReturnCode::ValueUpdated, store: true }
    );
    assert_eq!(
        float_input(InputKey::Down),
        FloatInput { edit: FloatEdit::StepDown, code: ReturnCode::ValueUpdated, store: true }
    );
    assert_eq!(float_input(InputKey::Left), FloatInput { edit: FloatEdit::Keep, code: ReturnCode::Cancel, store: false });
    assert_eq!(
        float_input(InputKey::Right),
        FloatInput { edit: FloatEdit::Keep, code: ReturnCode::ValueComplete, store: true }
    );
    assert_eq!(
        float_input(InputKey::Backspace),
        FloatInput { edit: FloatEdit::RemoveLast, code: ReturnCode::KeyConsumed, store: false }
    );
    assert_eq!(float_input(InputKey::Other).code, ReturnCode::KeyMissmatch);
}

#[test]
fn modulation_source_instance_starts_at_one() {
    assert_eq!(source_function(Parameter::Velocity, 0), FunctionId { function: Parameter::Velocity, function_id: 1 });
    assert_eq!(source_function(Parameter::Lfo, 2), FunctionId { function: Parameter::Lfo, function_id: 2 });
}

#[test]
fn sub_function_selection_starts_at_current_function() {
    let sources = menu_items(MenuList::ModSources);
    assert_eq!(current_function_index(Some(Parameter::Lfo), &sources, 0), 2);
    assert_eq!(current_function_index(Some(Parameter::Oscillator), &sources, 3), 0);
    assert_eq!(current_function_index(Some(Parameter::Delay), &sources, 3), 3);
    assert_eq!(current_function_index(None, &sources, 4), 4);
}

#[test]
fn consumed_key_keeps_every_state() {
    let states = [
        TuiState::Function,
        TuiState::FunctionIndex,
        TuiState::Param,
        TuiState::Value,
        TuiState::ValueSubFunction,
        TuiState::ValueSubFunctionIndex,
        TuiState::ValueSubParam,
    ];
    for s in states {
        assert_eq!(
            key_outcome(s, ReturnCode::KeyConsumed, Parameter::Level),
            KeyOutcome { state: s, action: KeyAction::NoAction, retry: false }
        );
    }
}
