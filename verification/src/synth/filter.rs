//! Filter characteristics, the filter models a voice's filter can run, and
//! how the four-pole model mixes its stages.
use vstd::prelude::*;
use crate::parameter::{lemma_small_index, menu, MenuList, Parameter};

verus! {

#[derive(Clone, Copy, Debug, PartialEq, Eq, Structural)]
pub enum FilterType {
    /// 1-pole low pass filter
    LPF1,
    /// 2-pole low pass filter
    LPF2,
    /// 4-pole low pass filter
    LPF4,
    /// 2-pole band pass filter
    BPF2,
    /// 4-pole band pass filter
    BPF4,
    /// 2-pole band stop filter
    BSF2,
    /// 1-pole high pass filter
    HPF1,
    /// 2-pole high pass filter
    HPF2,
    /// 4-pole high pass filter
    HPF4,
}

/// The circuit model a filter emulates.
#[derive(Clone, Copy, Debug, PartialEq, Eq, Structural)]
pub enum FilterCircuit {
    /// State variable filter (Oberheim SEM).
    Sem,
    /// Korg 35.
    K35,
    /// Four-pole ladder with the Oberheim variations of the Moog filter.
    OberMoog,
}

/// The filter selected by position `index` of the filter type list: `None`
/// for the bypass at position 0, else the circuit and its characteristic.
pub open spec fn spec_filter_model(index: usize) -> Option<(FilterCircuit, FilterType)> {
    if index == 0 {
        None
    } else if index == 1 {
        Some((FilterCircuit::Sem, FilterType::LPF2))
    } else if index == 2 {
        Some((FilterCircuit::Sem, FilterType::BPF2))
    } else if index == 3 {
        Some((FilterCircuit::Sem, FilterType::HPF2))
    } else if index == 4 {
        Some((FilterCircuit::Sem, FilterType::BSF2))
    } else if index == 5 {
        Some((FilterCircuit::K35, FilterType::LPF2))
    } else if index == 6 {
        Some((FilterCircuit::K35, FilterType::HPF2))
    } else if index == 7 {
        Some((FilterCircuit::OberMoog, FilterType::LPF4))
    } else if index == 8 {
        Some((FilterCircuit::OberMoog, FilterType::BPF4))
    } else {
        Some((FilterCircuit::OberMoog, FilterType::HPF4))
    }
}

/// Looks up the filter selected by a position of the filter type list.
pub fn filter_model(index: usize) -> (m: Option<(FilterCircuit, FilterType)>)
    requires
        index < 10,
    ensures
        m == spec_filter_model(index),
{
    match index {
        0 => None,
        1 => Some((FilterCircuit::Sem, FilterType::LPF2)),
        2 => Some((FilterCircuit::Sem, FilterType::BPF2)),
        3 => Some((FilterCircuit::Sem, FilterType::HPF2)),
        4 => Some((FilterCircuit::Sem, FilterType::BSF2)),
        5 => Some((FilterCircuit::K35, FilterType::LPF2)),
        6 => Some((FilterCircuit::K35, FilterType::HPF2)),
        7 => Some((FilterCircuit::OberMoog, FilterType::LPF4)),
        8 => Some((FilterCircuit::OberMoog, FilterType::BPF4)),
        _ => Some((FilterCircuit::OberMoog, FilterType::HPF4)),
    }
}

/// The names of the filter type list name the filter that each position
/// selects.
pub proof fn lemma_filter_model_names(index: usize)
    requires
        index < menu(MenuList::FilterTypes).len(),
    ensures
        ({
            let name = menu(MenuList::FilterTypes)[index as int].item;
            match spec_filter_model(index) {
                None => name == Parameter::NoParam,
                Some((c, t)) => name == (match (c, t) {
                    (FilterCircuit::Sem, FilterType::LPF2) => Parameter::SEM_LPF,
                    (FilterCircuit::Sem, FilterType::BPF2) => Parameter::SEM_BPF,
                    (FilterCircuit::Sem, FilterType::HPF2) => Parameter::SEM_HPF,
                    (FilterCircuit::Sem, _) => Parameter::SEM_BSF,
                    (FilterCircuit::K35, FilterType::LPF2) => Parameter::K35_LPF,
                    (FilterCircuit::K35, _) => Parameter::K35_HPF,
                    (FilterCircuit::OberMoog, FilterType::LPF4) => Parameter::OM_LPF,
                    (FilterCircuit::OberMoog, FilterType::BPF4) => Parameter::OM_BPF,
                    (FilterCircuit::OberMoog, _) => Parameter::OM_HPF,
                }),
            }
        }),
{
    lemma_small_index(index as int);
}

/// True for the characteristics the four-pole ladder can produce.
pub open spec fn is_ladder_type(t: FilterType) -> bool {
    t == FilterType::LPF4 || t == FilterType::LPF2 || t == FilterType::BPF4 || t == FilterType::BPF2
        || t == FilterType::HPF4 || t == FilterType::HPF2
}

/// How the four-pole ladder mixes its input and the outputs of its four
/// stages (in that order) to produce a characteristic.
pub open spec fn spec_ladder_mix(t: FilterType) -> (i8, i8, i8, i8, i8) {
    match t {
        FilterType::LPF4 => (0, 0, 0, 0, 1),
        FilterType::LPF2 => (0, 0, 1, 0, 0),
        FilterType::BPF4 => (0, 0, 4, -8i8, 4),
        FilterType::BPF2 => (0, 2, -2i8, 0, 0),
        FilterType::HPF4 => (1, -4i8, 6, -4i8, 1),
        _ => (1, -2i8, 1, 0, 0),
    }
}

/// The mixing coefficients of the four-pole ladder for a characteristic.
pub fn ladder_mix(t: FilterType) -> (c: (i8, i8, i8, i8, i8))
    requires
        is_ladder_type(t),
    ensures
        c == spec_ladder_mix(t),
{
    match t {
        FilterType::LPF4 => (0, 0, 0, 0, 1),
        FilterType::LPF2 => (0, 0, 1, 0, 0),
        FilterType::BPF4 => (0, 0, 4, -8, 4),
        FilterType::BPF2 => (0, 2, -2, 0, 0),
        FilterType::HPF4 => (1, -4, 6, -4, 1),
        _ => (1, -2, 1, 0, 0),
    }
}

/// The mixes are those of the binomial stage responses: the high pass
/// mixes sum to zero (no response at DC) and the low passes take a single
/// stage.
pub proof fn lemma_ladder_mix_sums(t: FilterType)
    requires
        is_ladder_type(t),
    ensures
        ({
            let (a, b, c, d, e) = spec_ladder_mix(t);
            (t == FilterType::HPF4 || t == FilterType::HPF2 || t == FilterType::BPF4 || t == FilterType::BPF2)
                ==> a + b + c + d + e == 0
        }),
        ({
            let (a, b, c, d, e) = spec_ladder_mix(t);
            (t == FilterType::LPF4 || t == FilterType::LPF2) ==> a + b + c + d + e == 1
        }),
{
}

} // verus!
