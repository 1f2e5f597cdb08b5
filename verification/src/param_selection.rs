//! The parameter selection state machine: function, function instance,
//! parameter, value.
use vstd::prelude::*;
use crate::tui::{KeyAction, ReturnCode};

verus! {

#[derive(Clone, Copy, Debug, PartialEq, Eq, Structural)]
pub enum SelectionState {
    Function,
    FunctionIndex,
    Param,
    Value,
}

pub open spec fn spec_next(current: SelectionState) -> SelectionState {
    match current {
        SelectionState::Function => SelectionState::FunctionIndex,
        SelectionState::FunctionIndex => SelectionState::Param,
        SelectionState::Param => SelectionState::Value,
        SelectionState::Value => SelectionState::Param,
    }
}

pub open spec fn spec_previous(current: SelectionState) -> SelectionState {
    match current {
        SelectionState::Function => SelectionState::Function,
        SelectionState::FunctionIndex => SelectionState::Function,
        SelectionState::Param => SelectionState::FunctionIndex,
        SelectionState::Value => SelectionState::Param,
    }
}

/// The state that follows when a selection is complete.
pub fn next(current: SelectionState) -> (s: SelectionState)
    ensures
        s == spec_next(current),
{
    match current {
        SelectionState::Function => SelectionState::FunctionIndex,
        SelectionState::FunctionIndex => SelectionState::Param,
        SelectionState::Param => SelectionState::Value,
        SelectionState::Value => SelectionState::Param,
    }
}

/// The state to go back to when a selection is cancelled.
pub fn previous(current: SelectionState) -> (s: SelectionState)
    ensures
        s == spec_previous(current),
{
    match current {
        SelectionState::Function => SelectionState::Function,
        SelectionState::FunctionIndex => SelectionState::Function,
        SelectionState::Param => SelectionState::FunctionIndex,
        SelectionState::Value => SelectionState::Param,
    }
}

/// Once a parameter is chosen, selection alternates between the parameter
/// and its value; going forward and back again returns to the same state
/// everywhere else.
pub proof fn lemma_next_previous(s: SelectionState)
    ensures
        s != SelectionState::Value ==> spec_previous(spec_next(s)) == s,
        spec_next(spec_next(SelectionState::Param)) == SelectionState::Param,
        spec_previous(spec_previous(spec_previous(s))) == SelectionState::Function,
{
}

/// Outcome of handling a key.
#[derive(Clone, Copy, Debug, PartialEq, Eq, Structural)]
pub struct SelectionOutcome {
    pub state: SelectionState,
    pub action: KeyAction,
    /// The key was not used and is handled again in the new state.
    pub retry: bool,
}

pub open spec fn outcome(state: SelectionState, action: KeyAction, retry: bool) -> SelectionOutcome {
    SelectionOutcome { state, action, retry }
}

/// What follows when the item selection of `state` returned `code`.
pub open spec fn spec_key_outcome(state: SelectionState, code: ReturnCode) -> SelectionOutcome {
    let stay = outcome(state, KeyAction::NoAction, false);
    let back = outcome(spec_previous(state), KeyAction::NoAction, false);
    match state {
        SelectionState::Function => match code {
            ReturnCode::ValueComplete => outcome(spec_next(state), KeyAction::NoAction, false),
            _ => stay,
        },
        SelectionState::FunctionIndex => match code {
            ReturnCode::ValueComplete => outcome(spec_next(state), KeyAction::EnterParams, false),
            ReturnCode::Cancel => back,
            _ => stay,
        },
        SelectionState::Param => match code {
            ReturnCode::ValueUpdated => outcome(state, KeyAction::SelectParam, false),
            ReturnCode::ValueComplete => outcome(spec_next(state), KeyAction::SelectParam, false),
            ReturnCode::Cancel => back,
            _ => stay,
        },
        SelectionState::Value => match code {
            ReturnCode::KeyConsumed => stay,
            ReturnCode::ValueUpdated => outcome(state, KeyAction::SendValue, false),
            ReturnCode::KeyMissmatch => outcome(spec_previous(state), KeyAction::NoAction, true),
            _ => back,
        },
    }
}

/// Decides the new state and the action after the item selection of
/// `state` handled a key and returned `code`.
pub fn key_outcome(state: SelectionState, code: ReturnCode) -> (r: SelectionOutcome)
    ensures
        r == spec_key_outcome(state, code),
{
    let stay = SelectionOutcome { state, action: KeyAction::NoAction, retry: false };
    let back = SelectionOutcome { state: previous(state), action: KeyAction::NoAction, retry: false };
    match state {
        SelectionState::Function => match code {
            ReturnCode::ValueComplete => SelectionOutcome { state: next(state), action: KeyAction::NoAction, retry: false },
            _ => stay,
        },
        SelectionState::FunctionIndex => match code {
            ReturnCode::ValueComplete => SelectionOutcome { state: next(state), action: KeyAction::EnterParams, retry: false },
            ReturnCode::Cancel => back,
            _ => stay,
        },
        SelectionState::Param => match code {
            ReturnCode::ValueUpdated => SelectionOutcome { state, action: KeyAction::SelectParam, retry: false },
            ReturnCode::ValueComplete => SelectionOutcome { state: next(state), action: KeyAction::SelectParam, retry: false },
            ReturnCode::Cancel => back,
            _ => stay,
        },
        SelectionState::Value => match code {
            ReturnCode::KeyConsumed => stay,
            ReturnCode::ValueUpdated => SelectionOutcome { state, action: KeyAction::SendValue, retry: false },
            ReturnCode::KeyMissmatch => SelectionOutcome { state: previous(state), action: KeyAction::NoAction, retry: true },
            _ => back,
        },
    }
}

/// Entering a new state resets the parameter list to its beginning when
/// the new state is the function selection (a different function may be
/// chosen); the returned flag says so. Re-entering the current state does
/// nothing.
pub fn change_state(current: SelectionState, new_state: SelectionState) -> (r: (SelectionState, bool))
    ensures
        r == (new_state, new_state != current && new_state == SelectionState::Function),
{
    if new_state != current {
        match new_state {
            SelectionState::Function => (new_state, true),
            _ => (new_state, false),
        }
    } else {
        (new_state, false)
    }
}

/// The state to request when a control change (modulation wheel) arrives:
/// a chosen function goes on to its instance and a chosen parameter to its
/// value; in the other states the wheel only changes the value.
pub fn control_change_state(state: SelectionState) -> (s: SelectionState)
    ensures
        s == (match state {
            SelectionState::Function => SelectionState::FunctionIndex,
            SelectionState::Param => SelectionState::Value,
            _ => state,
        }),
{
    match state {
        SelectionState::Function => SelectionState::FunctionIndex,
        SelectionState::FunctionIndex => state,
        SelectionState::Param => SelectionState::Value,
        SelectionState::Value => state,
    }
}

/// A key is handled at most twice: only the value state hands a key on,
/// to the parameter state, which never does.
pub proof fn lemma_retry_once(state: SelectionState, code: ReturnCode, code2: ReturnCode)
    ensures
        spec_key_outcome(state, code).retry ==> {
            &&& state == SelectionState::Value
            &&& spec_key_outcome(state, code).state == SelectionState::Param
            &&& !spec_key_outcome(SelectionState::Param, code2).retry
        },
{
}

} // verus!
