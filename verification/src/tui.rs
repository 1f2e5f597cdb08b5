//! The input state machine of the text user interface.
//!
//! A parameter is edited by selecting a function (oscillator, envelope,
//! ...), the function's instance, the parameter and finally its value.
//! Modulation sources and targets are themselves functions and parameters
//! and are selected in sub states. Each key is first handled by the item
//! selection of the current state, which reports a `ReturnCode`; the
//! functions here decide what follows from it.
use vstd::prelude::*;
use crate::parameter::{has_item, item_index, menu, FunctionId, MenuItem, MenuList, Parameter, ValueRange};

verus! {

#[derive(Clone, Copy, Debug, PartialEq, Eq, Structural)]
pub enum TuiState {
    Function,
    FunctionIndex,
    Param,
    Value,
    ValueSubFunction,
    ValueSubFunctionIndex,
    ValueSubParam,
}

/// Result of handling a key in an item selection.
#[derive(Clone, Copy, Debug, PartialEq, Eq, Structural)]
pub enum ReturnCode {
    /// Key has been used, but value is not updated yet.
    KeyConsumed,
    /// Key has been used and value has changed to a valid value.
    ValueUpdated,
    /// Value has changed and will not be updated again.
    ValueComplete,
    /// Key has not been used.
    KeyMissmatch,
    /// Cancel current operation and go to previous state.
    Cancel,
}

pub open spec fn spec_next(current: TuiState) -> TuiState {
    match current {
        TuiState::Function => TuiState::FunctionIndex,
        TuiState::FunctionIndex => TuiState::Param,
        TuiState::Param => TuiState::Value,
        TuiState::Value => TuiState::Param,
        TuiState::ValueSubFunction => TuiState::ValueSubFunctionIndex,
        TuiState::ValueSubFunctionIndex => TuiState::ValueSubParam,
        TuiState::ValueSubParam => TuiState::ValueSubFunction,
    }
}

pub open spec fn spec_previous(current: TuiState) -> TuiState {
    match current {
        TuiState::Function => TuiState::Function,
        TuiState::FunctionIndex => TuiState::Function,
        TuiState::Param => TuiState::FunctionIndex,
        TuiState::Value => TuiState::Param,
        TuiState::ValueSubFunction => TuiState::Param,
        TuiState::ValueSubFunctionIndex => TuiState::ValueSubFunction,
        TuiState::ValueSubParam => TuiState::ValueSubFunctionIndex,
    }
}

/// The state that follows when a selection is complete.
pub fn next(current: TuiState) -> (s: TuiState)
    ensures
        s == spec_next(current),
{
    match current {
        TuiState::Function => TuiState::FunctionIndex,
        TuiState::FunctionIndex => TuiState::Param,
        TuiState::Param => TuiState::Value,
        TuiState::Value => TuiState::Param,
        TuiState::ValueSubFunction => TuiState::ValueSubFunctionIndex,
        TuiState::ValueSubFunctionIndex => TuiState::ValueSubParam,
        TuiState::ValueSubParam => TuiState::ValueSubFunction,
    }
}

/// The state to go back to when a selection is cancelled.
pub fn previous(current: TuiState) -> (s: TuiState)
    ensures
        s == spec_previous(current),
{
    match current {
        TuiState::Function => TuiState::Function,
        TuiState::FunctionIndex => TuiState::Function,
        TuiState::Param => TuiState::FunctionIndex,
        TuiState::Value => TuiState::Param,
        TuiState::ValueSubFunction => TuiState::Param,
        TuiState::ValueSubFunctionIndex => TuiState::ValueSubFunction,
        TuiState::ValueSubParam => TuiState::ValueSubFunctionIndex,
    }
}

/// Going forward and then back returns to the same state, except from the
/// value state (which goes forward to the parameter state) and from the
/// modulation parameter state (which goes forward to the modulation
/// function state).
pub proof fn lemma_previous_next(s: TuiState)
    requires
        s != TuiState::Value,
        s != TuiState::ValueSubParam,
    ensures
        spec_previous(spec_next(s)) == s,
{
}

/// Going back repeatedly always ends in the function state: no state is
/// more than five steps away from it.
pub proof fn lemma_previous_reaches_function(s: TuiState)
    ensures
        spec_previous(spec_previous(spec_previous(spec_previous(spec_previous(s))))) == TuiState::Function,
{
}

/// What the user interface does after a key was handled.
#[derive(Clone, Copy, Debug, PartialEq, Eq, Structural)]
pub enum KeyAction {
    /// Nothing besides the state change.
    NoAction,
    /// The function instance is chosen: switch the parameter list to the
    /// function's parameters, select the current parameter and query its
    /// value.
    EnterParams,
    /// Select the current parameter and query its value.
    SelectParam,
    /// Send the updated value to the synth engine.
    SendValue,
    /// The modulation source is chosen: store it as the value and send it.
    SendSource,
    /// The target function is chosen: switch the target parameter list to
    /// the function's parameters, select the current one and query its
    /// value.
    EnterSubParams,
    /// Select the current target parameter and query its value.
    SelectSubParam,
    /// The modulation target is chosen: store it as the value and send it.
    SendTarget,
}

/// Outcome of handling a key.
#[derive(Clone, Copy, Debug, PartialEq, Eq, Structural)]
pub struct KeyOutcome {
    pub state: TuiState,
    pub action: KeyAction,
    /// The key was not used and is handled again in the new state.
    pub retry: bool,
}

/// True if the current parameter is one that the modulation sub states
/// know how to complete.
pub open spec fn is_mod_param(p: Parameter) -> bool {
    p == Parameter::Source || p == Parameter::Target || p == Parameter::Amount
}

pub open spec fn outcome(state: TuiState, action: KeyAction, retry: bool) -> KeyOutcome {
    KeyOutcome { state, action, retry }
}

/// What follows when the item selection of `state` returned `code`.
/// `param` is the currently selected parameter.
pub open spec fn spec_key_outcome(state: TuiState, code: ReturnCode, param: Parameter) -> KeyOutcome {
    let stay = outcome(state, KeyAction::NoAction, false);
    let back = outcome(spec_previous(state), KeyAction::NoAction, false);
    match state {
        TuiState::Function => match code {
            ReturnCode::ValueComplete => outcome(spec_next(state), KeyAction::NoAction, false),
            _ => stay,
        },
        TuiState::FunctionIndex => match code {
            ReturnCode::ValueComplete => outcome(spec_next(state), KeyAction::EnterParams, false),
            ReturnCode::Cancel => back,
            _ => stay,
        },
        TuiState::Param => match code {
            ReturnCode::ValueUpdated => outcome(state, KeyAction::SelectParam, false),
            ReturnCode::ValueComplete => outcome(spec_next(state), KeyAction::SelectParam, false),
            ReturnCode::Cancel => back,
            _ => stay,
        },
        TuiState::Value => match code {
            ReturnCode::KeyConsumed => stay,
            ReturnCode::ValueUpdated => outcome(state, KeyAction::SendValue, false),
            ReturnCode::KeyMissmatch => outcome(spec_previous(state), KeyAction::NoAction, true),
            _ => back,
        },
        TuiState::ValueSubFunction => match code {
            ReturnCode::ValueComplete => outcome(spec_next(state), KeyAction::NoAction, false),
            ReturnCode::Cancel => back,
            _ => stay,
        },
        TuiState::ValueSubFunctionIndex => match code {
            ReturnCode::ValueComplete => if param == Parameter::Source {
                outcome(spec_previous(state), KeyAction::SendSource, false)
            } else if param == Parameter::Target {
                outcome(spec_next(state), KeyAction::EnterSubParams, false)
            } else {
                back
            },
            ReturnCode::Cancel => back,
            _ => stay,
        },
        TuiState::ValueSubParam => match code {
            ReturnCode::ValueUpdated => outcome(state, KeyAction::SelectSubParam, false),
            ReturnCode::ValueComplete => outcome(spec_next(state), KeyAction::SendTarget, false),
            ReturnCode::Cancel => back,
            _ => stay,
        },
    }
}

/// Decides the new state and the action after the item selection of
/// `state` handled a key and returned `code`.
pub fn key_outcome(state: TuiState, code: ReturnCode, param: Parameter) -> (r: KeyOutcome)
    requires
        state == TuiState::ValueSubFunctionIndex && code == ReturnCode::ValueComplete ==> is_mod_param(param),
    ensures
        r == spec_key_outcome(state, code, param),
{
    let stay = KeyOutcome { state, action: KeyAction::NoAction, retry: false };
    let back = KeyOutcome { state: previous(state), action: KeyAction::NoAction, retry: false };
    match state {
        TuiState::Function => match code {
            ReturnCode::ValueComplete => KeyOutcome { state: next(state), action: KeyAction::NoAction, retry: false },
            _ => stay,
        },
        TuiState::FunctionIndex => match code {
            ReturnCode::ValueComplete => KeyOutcome { state: next(state), action: KeyAction::EnterParams, retry: false },
            ReturnCode::Cancel => back,
            _ => stay,
        },
        TuiState::Param => match code {
            ReturnCode::ValueUpdated => KeyOutcome { state, action: KeyAction::SelectParam, retry: false },
            ReturnCode::ValueComplete => KeyOutcome { state: next(state), action: KeyAction::SelectParam, retry: false },
            ReturnCode::Cancel => back,
            _ => stay,
        },
        TuiState::Value => match code {
            ReturnCode::KeyConsumed => stay,
            ReturnCode::ValueUpdated => KeyOutcome { state, action: KeyAction::SendValue, retry: false },
            ReturnCode::KeyMissmatch => KeyOutcome { state: previous(state), action: KeyAction::NoAction, retry: true },
            _ => back,
        },
        TuiState::ValueSubFunction => match code {
            ReturnCode::ValueComplete => KeyOutcome { state: next(state), action: KeyAction::NoAction, retry: false },
            ReturnCode::Cancel => back,
            _ => stay,
        },
        TuiState::ValueSubFunctionIndex => match code {
            ReturnCode::ValueComplete => {
                if param == Parameter::Source {
                    KeyOutcome { state: previous(state), action: KeyAction::SendSource, retry: false }
                } else if param == Parameter::Target {
                    KeyOutcome { state: next(state), action: KeyAction::EnterSubParams, retry: false }
                } else {
                    back
                }
            },
            ReturnCode::Cancel => back,
            _ => stay,
        },
        TuiState::ValueSubParam => match code {
            ReturnCode::ValueUpdated => KeyOutcome { state, action: KeyAction::SelectSubParam, retry: false },
            ReturnCode::ValueComplete => KeyOutcome { state: next(state), action: KeyAction::SendTarget, retry: false },
            ReturnCode::Cancel => back,
            _ => stay,
        },
    }
}

/// Side effect of entering a new state.
#[derive(Clone, Copy, Debug, PartialEq, Eq, Structural)]
pub enum StateEffect {
    NoEffect,
    /// Start the parameter list at its beginning again, since a different
    /// function may be selected next.
    ResetParamIndex,
    /// Editing a modulation source or target: select its function from
    /// this list, starting at the instance of the current value.
    EnterSubFunction(MenuList),
    /// Editing a modulation amount: keep the value state, starting the
    /// function selection at the instance of the current value.
    ModulationAmount,
}

/// The state that is entered when `new_state` is requested in `current`,
/// and the side effect of entering it. `function` and `param` are the
/// selected function and parameter, `sub_function` and `sub_param` the
/// selected modulation function and parameter.
pub open spec fn spec_change_state(
    current: TuiState,
    new_state: TuiState,
    function: Parameter,
    param: Parameter,
    sub_function: Parameter,
    sub_param: Parameter,
) -> (TuiState, StateEffect) {
    if new_state == current {
        (current, StateEffect::NoEffect)
    } else {
        match new_state {
            TuiState::Function => (new_state, StateEffect::ResetParamIndex),
            TuiState::Value => if function == Parameter::Modulation {
                if param == Parameter::Source {
                    (TuiState::ValueSubFunction, StateEffect::EnterSubFunction(MenuList::ModSources))
                } else if param == Parameter::Target {
                    (TuiState::ValueSubFunction, StateEffect::EnterSubFunction(MenuList::ModTargets))
                } else {
                    (new_state, StateEffect::ModulationAmount)
                }
            } else {
                (new_state, StateEffect::NoEffect)
            },
            TuiState::ValueSubFunctionIndex => if sub_function == Parameter::Modulation {
                if sub_param == Parameter::Source {
                    (TuiState::ValueSubFunction, StateEffect::NoEffect)
                } else if sub_param == Parameter::Target {
                    (TuiState::ValueSubParam, StateEffect::NoEffect)
                } else {
                    (new_state, StateEffect::NoEffect)
                }
            } else {
                (new_state, StateEffect::NoEffect)
            },
            _ => (new_state, StateEffect::NoEffect),
        }
    }
}

/// Decides which state is entered when `new_state` is requested, and what
/// has to be set up for it.
pub fn change_state(
    current: TuiState,
    new_state: TuiState,
    function: Parameter,
    param: Parameter,
    sub_function: Parameter,
    sub_param: Parameter,
) -> (r: (TuiState, StateEffect))
    requires
        new_state != current && new_state == TuiState::Value && function == Parameter::Modulation
            ==> is_mod_param(param),
        new_state != current && new_state == TuiState::ValueSubFunctionIndex && sub_function
            == Parameter::Modulation ==> is_mod_param(sub_param),
    ensures
        r == spec_change_state(current, new_state, function, param, sub_function, sub_param),
{
    if new_state == current {
        return (current, StateEffect::NoEffect);
    }
    match new_state {
        TuiState::Function => (new_state, StateEffect::ResetParamIndex),
        TuiState::Value => {
            if function == Parameter::Modulation {
                if param == Parameter::Source {
                    (TuiState::ValueSubFunction, StateEffect::EnterSubFunction(MenuList::ModSources))
                } else if param == Parameter::Target {
                    (TuiState::ValueSubFunction, StateEffect::EnterSubFunction(MenuList::ModTargets))
                } else {
                    (new_state, StateEffect::ModulationAmount)
                }
            } else {
                (new_state, StateEffect::NoEffect)
            }
        },
        TuiState::ValueSubFunctionIndex => {
            if sub_function == Parameter::Modulation {
                if sub_param == Parameter::Source {
                    (TuiState::ValueSubFunction, StateEffect::NoEffect)
                } else if sub_param == Parameter::Target {
                    (TuiState::ValueSubParam, StateEffect::NoEffect)
                } else {
                    (new_state, StateEffect::NoEffect)
                }
            } else {
                (new_state, StateEffect::NoEffect)
            }
        },
        _ => (new_state, StateEffect::NoEffect),
    }
}

/// A key pressed by the user, as far as the item and value selection
/// distinguish keys.
#[derive(Clone, Copy, Debug, PartialEq, Eq, Structural)]
pub enum InputKey {
    Up,
    Down,
    Left,
    Right,
    Backspace,
    Char(char),
    /// Any other key.
    Other,
}

/// Index of the first item of `items` selected by key `c` (the length of
/// `items` if none is).
pub open spec fn key_index(items: Seq<MenuItem>, c: char) -> int
    decreases items.len(),
{
    if items.len() == 0 {
        0
    } else if items[0].key == c {
        0
    } else {
        1 + key_index(items.drop_first(), c)
    }
}

proof fn lemma_key_index(items: Seq<MenuItem>, c: char, i: int)
    requires
        0 <= i <= items.len(),
        i < items.len() ==> items[i].key == c,
        forall|j: int| 0 <= j < i ==> items[j].key != c,
    ensures
        key_index(items, c) == i,
    decreases i,
{
    if i > 0 {
        lemma_key_index(items.drop_first(), c, i - 1);
    }
}

/// Selects one of the items of a function or parameter list with a key.
///
/// Up and down move the selection (staying inside the list), left and
/// backspace cancel, right and return complete the selection, and a
/// character selects (and completes) the first item with that key.
pub fn select_item(item_index: &mut usize, items: &[MenuItem], key: InputKey) -> (r: ReturnCode)
    requires
        *old(item_index) < items@.len(),
    ensures
        *final(item_index) < items@.len(),
        match key {
            InputKey::Up => r == ReturnCode::ValueUpdated && *final(item_index) == (if *old(item_index) + 1
                < items@.len() {
                *old(item_index) + 1
            } else {
                *old(item_index) as int
            }),
            InputKey::Down => r == ReturnCode::ValueUpdated && *final(item_index) == (if *old(item_index) > 0 {
                *old(item_index) - 1
            } else {
                0
            }),
            InputKey::Left | InputKey::Backspace => r == ReturnCode::Cancel && *final(item_index) == *old(item_index),
            InputKey::Right => r == ReturnCode::ValueComplete && *final(item_index) == *old(item_index),
            InputKey::Char(c) => if c == '\n' {
                r == ReturnCode::ValueComplete && *final(item_index) == *old(item_index)
            } else if key_index(items@, c) < items@.len() {
                r == ReturnCode::ValueComplete && *final(item_index) == key_index(items@, c)
            } else {
                r == ReturnCode::KeyConsumed && *final(item_index) == *old(item_index)
            },
            InputKey::Other => r == ReturnCode::KeyConsumed && *final(item_index) == *old(item_index),
        },
{
    match key {
        InputKey::Up => {
            if *item_index < items.len() - 1 {
                *item_index = *item_index + 1;
            }
            ReturnCode::ValueUpdated
        },
        InputKey::Down => {
            if *item_index > 0 {
                *item_index = *item_index - 1;
            }
            ReturnCode::ValueUpdated
        },
        InputKey::Left | InputKey::Backspace => ReturnCode::Cancel,
        InputKey::Right => ReturnCode::ValueComplete,
        InputKey::Char(c) => {
            if c == '\n' {
                return ReturnCode::ValueComplete;
            }
            let mut count: usize = 0;
            while count < items.len()
                invariant
                    key == InputKey::Char(c),
                    c != '\n',
                    count <= items@.len(),
                    *item_index == *old(item_index),
                    *old(item_index) < items@.len(),
                    forall|j: int| 0 <= j < count ==> items@[j].key != c,
                decreases items@.len() - count,
            {
                if items[count].key == c {
                    proof {
                        lemma_key_index(items@, c, count as int);
                    }
                    *item_index = count;
                    return ReturnCode::ValueComplete;
                }
                count += 1;
            }
            proof {
                lemma_key_index(items@, c, count as int);
            }
            ReturnCode::KeyConsumed
        },
        InputKey::Other => ReturnCode::KeyConsumed,
    }
}

/// Every item of every menu list is selected by the key shown next to it:
/// the keys within a list are distinct, so the first item with an item's
/// key is that item.
pub proof fn lemma_menu_keys_select(list: MenuList, i: int)
    requires
        0 <= i < menu(list).len(),
    ensures
        key_index(menu(list), menu(list)[i].key) == i,
{
    reveal_with_fuel(key_index, 13);
    crate::parameter::lemma_small_index(i);
}

/// An integer value limited to `min..=max` (to `min` if the range is
/// empty).
pub open spec fn spec_clamp_int(val: i64, min: i64, max: i64) -> i64 {
    let v = if val > max {
        max
    } else {
        val
    };
    if v < min {
        min
    } else {
        v
    }
}

/// Limits an integer value to its range before it is stored.
pub fn clamp_int(val: i64, min: i64, max: i64) -> (r: i64)
    ensures
        r == spec_clamp_int(val, min, max),
{
    let mut val = val;
    if val > max {
        val = max;
    }
    if val < min {
        val = min;
    }
    val
}

/// Limits a choice to the entries of a list of `len` choices before it is
/// stored.
pub fn clamp_choice(val: usize, len: usize) -> (r: usize)
    requires
        len > 0,
    ensures
        r == (if val >= len {
            (len - 1) as usize
        } else {
            val
        }),
{
    if val >= len {
        len - 1
    } else {
        val
    }
}

/// Result of entering a value: the return code and the value stored
/// afterwards.
#[derive(Clone, Copy, Debug, PartialEq, Eq, Structural)]
pub struct IntInput {
    pub code: ReturnCode,
    pub value: i64,
}

/// True if `c` is one of the characters '0' to '9'.
pub open spec fn is_digit(c: char) -> bool {
    '0' <= c <= '9'
}

/// The value a digit key appends: the digit appended to `current`, or the
/// digit alone if appending it would exceed `max`.
pub open spec fn digit_value(current: i64, digit: int, max: i64) -> int {
    if current * 10 + digit > max {
        digit
    } else {
        current * 10 + digit
    }
}

/// True if entering `key` cannot overflow for this current value.
pub open spec fn int_input_fits(current: i64, max: i64, key: InputKey) -> bool {
    match key {
        InputKey::Up => current < i64::MAX,
        InputKey::Char(c) => is_digit(c) ==> {
            let v = digit_value(current, c as int - '0' as int, max);
            &&& i64::MIN <= current * 10
            &&& current * 10 + (c as int - '0' as int) <= i64::MAX
            &&& i64::MIN <= v * 10 <= i64::MAX
        },
        _ => true,
    }
}

/// Tells whether entering `key` into `current` stays inside the integer
/// type.
pub fn check_int_input(current: i64, max: i64, key: InputKey) -> (r: bool)
    ensures
        r == int_input_fits(current, max, key),
{
    match key {
        InputKey::Up => current < i64::MAX,
        InputKey::Char(c) => {
            if '0' <= c && c <= '9' {
                let digit: i128 = (c as u32 - '0' as u32) as i128;
                assert(digit == c as int - '0' as int);
                let times_ten: i128 = current as i128 * 10;
                let appended: i128 = times_ten + digit;
                let v: i128 = if appended > max as i128 {
                    digit
                } else {
                    appended
                };
                i64::MIN as i128 <= times_ten && appended <= i64::MAX as i128 && i64::MIN as i128 <= v * 10 && v * 10
                    <= i64::MAX as i128
            } else {
                true
            }
        },
        _ => true,
    }
}

/// Handles a key while an integer value in `min..=max` is entered.
///
/// Digits are appended to the value; once no further digit fits below
/// `max` the value is complete. Up and down change the value by one (down
/// only above `min`), left and backspace cancel, right, return and any
/// other non-character key complete the value. Values reported as updated
/// or complete are limited to the range; a value still being typed is
/// stored as typed.
pub fn int_input(current: i64, min: i64, max: i64, key: InputKey) -> (r: IntInput)
    requires
        int_input_fits(current, max, key),
    ensures
        match key {
            InputKey::Char(c) => if is_digit(c) {
                let v = digit_value(current, c as int - '0' as int, max);
                if v * 10 > max {
                    r == IntInput { code: ReturnCode::ValueComplete, value: spec_clamp_int(v as i64, min, max) }
                } else {
                    r == IntInput { code: ReturnCode::KeyConsumed, value: v as i64 }
                }
            } else if c == '\n' {
                r == IntInput { code: ReturnCode::ValueComplete, value: spec_clamp_int(current, min, max) }
            } else {
                r == IntInput { code: ReturnCode::KeyMissmatch, value: current }
            },
            InputKey::Up => r == IntInput {
                code: ReturnCode::ValueUpdated,
                value: spec_clamp_int((current + 1) as i64, min, max),
            },
            InputKey::Down => if current > min {
                r == IntInput { code: ReturnCode::ValueUpdated, value: spec_clamp_int((current - 1) as i64, min, max) }
            } else {
                r == IntInput { code: ReturnCode::KeyConsumed, value: current }
            },
            InputKey::Left | InputKey::Backspace => r == IntInput { code: ReturnCode::Cancel, value: current },
            _ => r == IntInput { code: ReturnCode::ValueComplete, value: spec_clamp_int(current, min, max) },
        },
{
    let mut current = current;
    let code = match key {
        InputKey::Char(x) => {
            if '0' <= x && x <= '9' {
                let y: i64 = (x as u32 - '0' as u32) as i64;
                assert(y == x as int - '0' as int);
                let val_digit_added = current * 10 + y;
                if val_digit_added > max {
                    current = y;
                } else {
                    current = val_digit_added;
                }
                if current * 10 > max {
                    ReturnCode::ValueComplete
                } else {
                    return IntInput { code: ReturnCode::KeyConsumed, value: current };
                }
            } else if x == '\n' {
                ReturnCode::ValueComplete
            } else {
                ReturnCode::KeyMissmatch
            }
        },
        InputKey::Up => {
            current = current + 1;
            ReturnCode::ValueUpdated
        },
        InputKey::Down => {
            if current > min {
                current = current - 1;
                ReturnCode::ValueUpdated
            } else {
                ReturnCode::KeyConsumed
            }
        },
        InputKey::Left => ReturnCode::Cancel,
        InputKey::Right => ReturnCode::ValueComplete,
        InputKey::Backspace => ReturnCode::Cancel,
        InputKey::Other => ReturnCode::ValueComplete,
    };
    match code {
        ReturnCode::ValueUpdated | ReturnCode::ValueComplete => IntInput { code, value: clamp_int(current, min, max) },
        _ => IntInput { code, value: current },
    }
}

/// Result of choosing an entry of a list.
#[derive(Clone, Copy, Debug, PartialEq, Eq, Structural)]
pub struct ChoiceInput {
    pub code: ReturnCode,
    pub value: usize,
}

/// Handles a key while one of `len` choices is selected.
///
/// Up and down move through the choices (down only above the first),
/// left and backspace cancel, right and return complete the choice, other
/// keys are not used. Choices reported as updated or complete are limited
/// to the list.
pub fn choice_input(current: usize, len: usize, key: InputKey) -> (r: ChoiceInput)
    requires
        len > 0,
        key == InputKey::Up ==> current < usize::MAX,
    ensures
        match key {
            InputKey::Up => r == ChoiceInput {
                code: ReturnCode::ValueUpdated,
                value: if current + 1 >= len {
                    (len - 1) as usize
                } else {
                    (current + 1) as usize
                },
            },
            InputKey::Down => if current > 0 {
                r == ChoiceInput {
                    code: ReturnCode::ValueUpdated,
                    value: if current - 1 >= len {
                        (len - 1) as usize
                    } else {
                        (current - 1) as usize
                    },
                }
            } else {
                r == ChoiceInput { code: ReturnCode::KeyConsumed, value: current }
            },
            InputKey::Left | InputKey::Backspace => r == ChoiceInput { code: ReturnCode::Cancel, value: current },
            InputKey::Right => r == ChoiceInput {
                code: ReturnCode::ValueComplete,
                value: if current >= len {
                    (len - 1) as usize
                } else {
                    current
                },
            },
            InputKey::Char(c) => if c == '\n' {
                r == ChoiceInput {
                    code: ReturnCode::ValueComplete,
                    value: if current >= len {
                        (len - 1) as usize
                    } else {
                        current
                    },
                }
            } else {
                r == ChoiceInput { code: ReturnCode::KeyMissmatch, value: current }
            },
            InputKey::Other => r == ChoiceInput { code: ReturnCode::KeyMissmatch, value: current },
        },
{
    let mut current = current;
    let code = match key {
        InputKey::Up => {
            current = current + 1;
            ReturnCode::ValueUpdated
        },
        InputKey::Down => {
            if current > 0 {
                current = current - 1;
                ReturnCode::ValueUpdated
            } else {
                ReturnCode::KeyConsumed
            }
        },
        InputKey::Left | InputKey::Backspace => ReturnCode::Cancel,
        InputKey::Right => ReturnCode::ValueComplete,
        InputKey::Char(c) => {
            if c == '\n' {
                ReturnCode::ValueComplete
            } else {
                ReturnCode::KeyMissmatch
            }
        },
        InputKey::Other => ReturnCode::KeyMissmatch,
    };
    match code {
        ReturnCode::ValueUpdated | ReturnCode::ValueComplete => ChoiceInput { code, value: clamp_choice(current, len) },
        _ => ChoiceInput { code, value: current },
    }
}

/// A value entered with the keys never leaves its range once it is
/// reported as updated or complete.
pub proof fn lemma_int_input_in_range(val: i64, min: i64, max: i64)
    requires
        min <= max,
    ensures
        min <= spec_clamp_int(val, min, max) <= max,
        min <= val <= max ==> spec_clamp_int(val, min, max) == val,
{
}

/// The value a parameter starts with when it is selected for editing,
/// before its current value arrives from the synth engine.
#[derive(Clone, Copy, Debug, PartialEq, Eq, Structural)]
pub enum StartValue {
    Int(i64),
    /// A fractional value, in thousandths.
    Float(i64),
    Choice(usize),
    /// A modulation source: the default function.
    Function,
    /// A modulation target: the default parameter.
    Param,
    NoValue,
}

/// The start value for a parameter with range `r`: the minimum of a
/// numeric range, the first entry of a list of choices, the default
/// function or parameter for a modulation source or target, and no value
/// otherwise.
pub fn start_value(r: ValueRange) -> (v: StartValue)
    ensures
        v == (match r {
            ValueRange::Int(min, _) => StartValue::Int(min),
            ValueRange::Float(min, _, _) => StartValue::Float(min),
            ValueRange::Choice(_) => StartValue::Choice(0),
            ValueRange::Func(_) => StartValue::Function,
            ValueRange::Param(_) => StartValue::Param,
            _ => StartValue::NoValue,
        }),
{
    match r {
        ValueRange::Int(min, _) => StartValue::Int(min),
        ValueRange::Float(min, _, _) => StartValue::Float(min),
        ValueRange::Choice(_) => StartValue::Choice(0),
        ValueRange::Func(_) => StartValue::Function,
        ValueRange::Param(_) => StartValue::Param,
        ValueRange::Dynamic(_) => StartValue::NoValue,
        ValueRange::NoRange => StartValue::NoValue,
    }
}

/// The state requested when the modulation wheel moves: a chosen function
/// goes on to its instance, a chosen parameter to its value, and a chosen
/// modulation function to its instance; in the other states the wheel only
/// changes the value.
pub open spec fn spec_control_change_state(state: TuiState) -> TuiState {
    match state {
        TuiState::Function => TuiState::FunctionIndex,
        TuiState::Param => TuiState::Value,
        TuiState::ValueSubFunction => TuiState::ValueSubFunctionIndex,
        _ => state,
    }
}

/// The state to request when a control change (modulation wheel) arrives.
pub fn control_change_state(state: TuiState) -> (s: TuiState)
    ensures
        s == spec_control_change_state(state),
{
    match state {
        TuiState::Function => TuiState::FunctionIndex,
        TuiState::FunctionIndex => state,
        TuiState::Param => TuiState::Value,
        TuiState::Value => state,
        TuiState::ValueSubFunction => TuiState::ValueSubFunctionIndex,
        TuiState::ValueSubFunctionIndex => state,
        TuiState::ValueSubParam => state,
    }
}

/// One part of the status line.
#[derive(Clone, Copy, Debug, PartialEq, Eq, Structural)]
pub enum DisplayPart {
    Function,
    FunctionIndex,
    Param,
    Value,
    SubFunction,
    SubFunctionIndex,
    SubParam,
}

/// What the status line shows: its parts from left to right, each with a
/// flag that says whether it is highlighted, and the column where the
/// list of options starts.
#[derive(Clone, Debug)]
pub struct DisplayLayout {
    pub parts: Vec<(DisplayPart, bool)>,
    pub options_x: u16,
}

/// The parts shown in a state: the selection made so far, up to the part
/// being edited. The parts of the main selection are highlighted while
/// they are edited, the parts of a modulation sub selection always.
pub open spec fn spec_display_parts(state: TuiState) -> Seq<(DisplayPart, bool)> {
    let chosen = seq![
        (DisplayPart::Function, false),
        (DisplayPart::FunctionIndex, false),
        (DisplayPart::Param, false),
    ];
    match state {
        TuiState::Function => seq![(DisplayPart::Function, true)],
        TuiState::FunctionIndex => seq![(DisplayPart::Function, false), (DisplayPart::FunctionIndex, true)],
        TuiState::Param => seq![
            (DisplayPart::Function, false),
            (DisplayPart::FunctionIndex, false),
            (DisplayPart::Param, true),
        ],
        TuiState::Value => chosen.push((DisplayPart::Value, true)),
        TuiState::ValueSubFunction => chosen.push((DisplayPart::SubFunction, true)),
        TuiState::ValueSubFunctionIndex => chosen.push((DisplayPart::SubFunction, true)).push(
            (DisplayPart::SubFunctionIndex, true),
        ),
        TuiState::ValueSubParam => chosen.push((DisplayPart::SubFunction, true)).push(
            (DisplayPart::SubFunctionIndex, true),
        ).push((DisplayPart::SubParam, true)),
    }
}

/// The column where the options of a state are listed, right of the
/// status line.
pub open spec fn spec_options_x(state: TuiState) -> u16 {
    match state {
        TuiState::Function => 1,
        TuiState::FunctionIndex => 12,
        TuiState::Param => 14,
        TuiState::Value => 23,
        TuiState::ValueSubFunction => 30,
        TuiState::ValueSubFunctionIndex => 32,
        TuiState::ValueSubParam => 32,
    }
}

/// Lays out the status line for a state.
pub fn display_layout(state: TuiState) -> (l: DisplayLayout)
    ensures
        l.parts@ == spec_display_parts(state),
        l.options_x == spec_options_x(state),
{
    let mut parts: Vec<(DisplayPart, bool)> = Vec::new();
    let mut x: u16 = 1;
    parts.push((DisplayPart::Function, state == TuiState::Function));
    if state != TuiState::Function {
        parts.push((DisplayPart::FunctionIndex, state == TuiState::FunctionIndex));
        x = 12;
        if state != TuiState::FunctionIndex {
            parts.push((DisplayPart::Param, state == TuiState::Param));
            x = 14;
        }
    }
    match state {
        TuiState::Value => {
            parts.push((DisplayPart::Value, true));
            x = 23;
        },
        TuiState::ValueSubFunction | TuiState::ValueSubFunctionIndex | TuiState::ValueSubParam => {
            parts.push((DisplayPart::SubFunction, true));
            x = 30;
            if state != TuiState::ValueSubFunction {
                parts.push((DisplayPart::SubFunctionIndex, true));
                x = 32;
                if state == TuiState::ValueSubParam {
                    parts.push((DisplayPart::SubParam, true));
                }
            }
        },
        _ => {},
    }
    proof {
        assert(parts@ =~= spec_display_parts(state));
    }
    DisplayLayout { parts, options_x: x }
}

/// A key is handled at most twice: only a key that the value state cannot
/// use is handled again, in the parameter state, and the parameter state
/// never hands a key on.
pub proof fn lemma_retry_once(
    state: TuiState,
    code: ReturnCode,
    param: Parameter,
    function: Parameter,
    sub_function: Parameter,
    sub_param: Parameter,
    code2: ReturnCode,
)
    ensures
        ({
            let first = spec_key_outcome(state, code, param);
            let entered = spec_change_state(state, first.state, function, param, sub_function, sub_param).0;
            first.retry ==> {
                &&& state == TuiState::Value
                &&& entered == TuiState::Param
                &&& !spec_key_outcome(entered, code2, param).retry
            }
        }),
{
}

/// Cancelling goes back to the previous state, from every state.
pub proof fn lemma_cancel_goes_back(state: TuiState, param: Parameter)
    ensures
        spec_key_outcome(state, ReturnCode::Cancel, param) == outcome(
            spec_previous(state),
            KeyAction::NoAction,
            false,
        ),
{
}

/// In any state, a key that the item selection consumed without a result
/// leaves the state as it is, with no action and no retry.
pub proof fn lemma_key_consumed_stays(state: TuiState, param: Parameter)
    ensures
        spec_key_outcome(state, ReturnCode::KeyConsumed, param) == outcome(state, KeyAction::NoAction, false),
{
}

/// What a key does to the text of a fractional value being typed.
#[derive(Clone, Copy, Debug, PartialEq, Eq, Structural)]
pub enum FloatEdit {
    /// Leave the value as it is.
    Keep,
    /// Append the character to the typed text and take the value it reads
    /// as, if it reads as a number.
    Append(char),
    /// Remove the last typed character, if any, and take the value the
    /// rest reads as, if it reads as a number.
    RemoveLast,
    /// Add one to the value.
    StepUp,
    /// Subtract one from the value.
    StepDown,
}

/// Result of a key in the entry of a fractional value: how the value
/// changes, the return code, and whether the value is stored afterwards.
#[derive(Clone, Copy, Debug, PartialEq, Eq, Structural)]
pub struct FloatInput {
    pub edit: FloatEdit,
    pub code: ReturnCode,
    pub store: bool,
}

/// The decision table of fractional value entry: digits and the period
/// are typed, Enter and Right complete the value, Up and Down step it by
/// one, Left cancels, Backspace removes the last typed character; other
/// keys are not used. The value is stored when it was updated or
/// completed.
pub open spec fn spec_float_input(key: InputKey) -> FloatInput {
    let (edit, code) = match key {
        InputKey::Char(c) => if is_digit(c) || c == '.' {
            (FloatEdit::Append(c), ReturnCode::KeyConsumed)
        } else if c == '\n' {
            (FloatEdit::Keep, ReturnCode::ValueComplete)
        } else {
            (FloatEdit::Keep, ReturnCode::KeyMissmatch)
        },
        InputKey::Up => (FloatEdit::StepUp, ReturnCode::ValueUpdated),
        InputKey::Down => (FloatEdit::StepDown, ReturnCode::ValueUpdated),
        InputKey::Left => (FloatEdit::Keep, ReturnCode::Cancel),
        InputKey::Right => (FloatEdit::Keep, ReturnCode::ValueComplete),
        InputKey::Backspace => (FloatEdit::RemoveLast, ReturnCode::KeyConsumed),
        InputKey::Other => (FloatEdit::Keep, ReturnCode::KeyMissmatch),
    };
    FloatInput { edit, code, store: code == ReturnCode::ValueUpdated || code == ReturnCode::ValueComplete }
}

/// Decides what a key does in the entry of a fractional value.
pub fn float_input(key: InputKey) -> (r: FloatInput)
    ensures
        r == spec_float_input(key),
{
    let (edit, code) = match key {
        InputKey::Char(c) => if ('0' <= c && c <= '9') || c == '.' {
            (FloatEdit::Append(c), ReturnCode::KeyConsumed)
        } else if c == '\n' {
            (FloatEdit::Keep, ReturnCode::ValueComplete)
        } else {
            (FloatEdit::Keep, ReturnCode::KeyMissmatch)
        },
        InputKey::Up => (FloatEdit::StepUp, ReturnCode::ValueUpdated),
        InputKey::Down => (FloatEdit::StepDown, ReturnCode::ValueUpdated),
        InputKey::Left => (FloatEdit::Keep, ReturnCode::Cancel),
        InputKey::Right => (FloatEdit::Keep, ReturnCode::ValueComplete),
        InputKey::Backspace => (FloatEdit::RemoveLast, ReturnCode::KeyConsumed),
        InputKey::Other => (FloatEdit::Keep, ReturnCode::KeyMissmatch),
    };
    let store = match code {
        ReturnCode::ValueUpdated | ReturnCode::ValueComplete => true,
        _ => false,
    };
    FloatInput { edit, code, store }
}

/// The modulation source chosen in the sub function selection: the
/// selected function with its instance, where instance 0 (a function that
/// exists once) counts as instance 1.
pub fn source_function(function: Parameter, function_id: usize) -> (r: FunctionId)
    ensures
        r == (FunctionId {
            function,
            function_id: if function_id == 0 {
                1
            } else {
                function_id
            },
        }),
{
    let id = if function_id == 0 {
        1
    } else {
        function_id
    };
    FunctionId { function, function_id: id }
}

/// Where the sub function selection starts: at the function of the current
/// modulation source or target if it has one and the list holds it, else
/// at `index`.
pub fn current_function_index(current: Option<Parameter>, list: &[MenuItem], index: usize) -> (r: usize)
    ensures
        r == (match current {
            Some(f) => if has_item(list@, f) {
                item_index(list@, f) as usize
            } else {
                index
            },
            None => index,
        }),
{
    match current {
        None => index,
        Some(f) => {
            let mut i: usize = 0;
            while i < list.len()
                invariant
                    current == Some(f),
                    i <= list@.len(),
                    forall|j: int| 0 <= j < i ==> list@[j].item != f,
                decreases list@.len() - i,
            {
                if list[i].item == f {
                    proof {
                        crate::parameter::lemma_item_index(list@, f, i as int);
                        assert(list@[i as int].item == f);
                    }
                    return i;
                }
                i += 1;
            }
            index
        },
    }
}

/// Completing the selection of a list moves on along the editing path:
/// the function list leads to the instance, the instance to the parameter
/// list (whose items are then set up), the parameter list to entering the
/// parameter's value; in the modulation sub states the function leads to
/// its instance. None of these keys is handled a second time.
pub proof fn lemma_complete_moves_on(p: Parameter)
    ensures
        spec_key_outcome(TuiState::Function, ReturnCode::ValueComplete, p).state == TuiState::FunctionIndex,
        spec_key_outcome(TuiState::FunctionIndex, ReturnCode::ValueComplete, p) == (KeyOutcome {
            state: TuiState::Param,
            action: KeyAction::EnterParams,
            retry: false,
        }),
        spec_key_outcome(TuiState::Param, ReturnCode::ValueComplete, p) == (KeyOutcome {
            state: TuiState::Value,
            action: KeyAction::SelectParam,
            retry: false,
        }),
        spec_key_outcome(TuiState::ValueSubFunction, ReturnCode::ValueComplete, p).state
            == TuiState::ValueSubFunctionIndex,
        !spec_key_outcome(TuiState::Function, ReturnCode::ValueComplete, p).retry,
        !spec_key_outcome(TuiState::ValueSubFunction, ReturnCode::ValueComplete, p).retry,
{
}

/// Completing a selection in the function, instance or parameter list
/// leaves that list, and cancelling right afterwards comes back to it.
pub proof fn lemma_complete_then_cancel(state: TuiState, p: Parameter)
    requires
        state == TuiState::Function || state == TuiState::FunctionIndex || state == TuiState::Param,
    ensures
        spec_key_outcome(state, ReturnCode::ValueComplete, p).state != state,
        spec_key_outcome(spec_key_outcome(state, ReturnCode::ValueComplete, p).state, ReturnCode::Cancel, p).state
            == state,
{
}

/// A changed selection or value keeps the state: in the parameter lists
/// the newly chosen parameter is selected (and its value queried), and in
/// the value state the new value is sent; the key is not handled again.
pub proof fn lemma_update_keeps_state(p: Parameter)
    ensures
        spec_key_outcome(TuiState::Param, ReturnCode::ValueUpdated, p) == (KeyOutcome {
            state: TuiState::Param,
            action: KeyAction::SelectParam,
            retry: false,
        }),
        spec_key_outcome(TuiState::Value, ReturnCode::ValueUpdated, p) == (KeyOutcome {
            state: TuiState::Value,
            action: KeyAction::SendValue,
            retry: false,
        }),
        spec_key_outcome(TuiState::ValueSubParam, ReturnCode::ValueUpdated, p) == (KeyOutcome {
            state: TuiState::ValueSubParam,
            action: KeyAction::SelectSubParam,
            retry: false,
        }),
{
}

} // verus!
