//! Sources of modulation data.
use vstd::prelude::*;
use crate::parameter::{has_val_range, lemma_item_index, lemma_small_index, menu, MenuList, Parameter, ValueRange};
use crate::synth::synth::NUM_GLOBAL_LFOS;

verus! {

/// Defines a source of modulation data and its value range.
#[derive(Clone, Copy, Debug)]
pub struct ModSource {
    pub function: Parameter,
    /// Lowest and highest instance number of the source function.
    pub index_range: (usize, usize),
    pub val_range: ValueRange,
    pub is_global: bool,
}

/// The available modulation data sources.
pub open spec fn mod_sources() -> Seq<ModSource> {
    seq![
        ModSource { function: Parameter::GlobalLfo, index_range: (1, 2), val_range: ValueRange::Float(-1000i64, 1000, 100), is_global: true },
        ModSource { function: Parameter::Aftertouch, index_range: (1, 1), val_range: ValueRange::Float(0, 1000, 100), is_global: true },
        ModSource { function: Parameter::Pitchbend, index_range: (1, 1), val_range: ValueRange::Float(-1000i64, 1000, 10), is_global: true },
        ModSource { function: Parameter::ModWheel, index_range: (1, 1), val_range: ValueRange::Float(0, 127000, 100), is_global: true },
        ModSource { function: Parameter::Envelope, index_range: (1, 3), val_range: ValueRange::Float(0, 1000, 10), is_global: false },
        ModSource { function: Parameter::Lfo, index_range: (1, 2), val_range: ValueRange::Float(-1000i64, 1000, 10), is_global: false },
        ModSource { function: Parameter::Oscillator, index_range: (1, 3), val_range: ValueRange::Float(-1000i64, 1000, 10), is_global: false },
        ModSource { function: Parameter::Velocity, index_range: (1, 1), val_range: ValueRange::Float(0, 1000, 100), is_global: false },
    ]
}

fn mod_source_list() -> (v: Vec<ModSource>)
    ensures
        v@ == mod_sources(),
{
    let mut v: Vec<ModSource> = Vec::new();
    v.push(ModSource { function: Parameter::GlobalLfo, index_range: (1, NUM_GLOBAL_LFOS), val_range: ValueRange::Float(-1000i64, 1000, 100), is_global: true });
    v.push(ModSource { function: Parameter::Aftertouch, index_range: (1, 1), val_range: ValueRange::Float(0, 1000, 100), is_global: true });
    v.push(ModSource { function: Parameter::Pitchbend, index_range: (1, 1), val_range: ValueRange::Float(-1000i64, 1000, 10), is_global: true });
    v.push(ModSource { function: Parameter::ModWheel, index_range: (1, 1), val_range: ValueRange::Float(0, 127000, 100), is_global: true });
    v.push(ModSource { function: Parameter::Envelope, index_range: (1, 3), val_range: ValueRange::Float(0, 1000, 10), is_global: false });
    v.push(ModSource { function: Parameter::Lfo, index_range: (1, 2), val_range: ValueRange::Float(-1000i64, 1000, 10), is_global: false });
    v.push(ModSource { function: Parameter::Oscillator, index_range: (1, 3), val_range: ValueRange::Float(-1000i64, 1000, 10), is_global: false });
    v.push(ModSource { function: Parameter::Velocity, index_range: (1, 1), val_range: ValueRange::Float(0, 1000, 100), is_global: false });
    v
}

/// True if `function` is a modulation source.
pub open spec fn is_mod_source(function: Parameter) -> bool {
    exists|i: int| 0 <= i < mod_sources().len() && mod_sources()[i].function == function
}

/// Looks up the description of a modulation source.
pub fn get_mod_source(function: Parameter) -> (s: ModSource)
    requires
        is_mod_source(function),
    ensures
        s.function == function,
        mod_sources().contains(s),
{
    let list = mod_source_list();
    let mut i: usize = 0;
    while i < list.len()
        invariant
            list@ == mod_sources(),
            i <= list@.len(),
            forall|j: int| 0 <= j < i ==> list@[j].function != function,
        decreases list@.len() - i,
    {
        if list[i].function == function {
            return list[i];
        }
        i += 1;
    }
    proof {
        let w = choose|w: int| 0 <= w < mod_sources().len() && mod_sources()[w].function == function;
        assert(list@[w].function == function);
    }
    list[0]
}

/// No two modulation sources share a function, so the lookup is exact.
pub proof fn lemma_mod_sources_distinct(i: int, j: int)
    requires
        0 <= i < mod_sources().len(),
        0 <= j < mod_sources().len(),
        mod_sources()[i].function == mod_sources()[j].function,
    ensures
        i == j,
{
}

/// Every source that the modulation menu offers is a modulation source,
/// except the sustain pedal, which the menu lists but the table of sources
/// does not hold.
pub proof fn lemma_menu_sources(i: int)
    requires
        0 <= i < menu(MenuList::ModSources).len(),
        menu(MenuList::ModSources)[i].item != Parameter::SustainPedal,
    ensures
        is_mod_source(menu(MenuList::ModSources)[i].item),
{
    if i == 0 {
        assert(mod_sources()[6].function == Parameter::Oscillator);
    } else if i == 1 {
        assert(mod_sources()[4].function == Parameter::Envelope);
    } else if i == 2 {
        assert(mod_sources()[5].function == Parameter::Lfo);
    } else if i == 3 {
        assert(mod_sources()[7].function == Parameter::Velocity);
    } else if i == 4 {
        assert(mod_sources()[0].function == Parameter::GlobalLfo);
    } else if i == 5 {
        assert(mod_sources()[1].function == Parameter::Aftertouch);
    } else if i == 6 {
        assert(mod_sources()[2].function == Parameter::Pitchbend);
    } else if i == 7 {
        assert(mod_sources()[3].function == Parameter::ModWheel);
    }
}

/// Every target that the modulation menu offers, a function with one of
/// its parameters, has a value range in the menu tables, which scales the
/// modulation.
pub proof fn lemma_menu_targets(i: int, j: int)
    requires
        0 <= i < menu(MenuList::ModTargets).len(),
        0 <= j < menu(menu(MenuList::ModTargets)[i].next).len(),
    ensures
        has_val_range(menu(MenuList::ModTargets)[i].item, menu(menu(MenuList::ModTargets)[i].next)[j].item),
{
    let funcs = menu(MenuList::Functions);
    lemma_small_index(i);
    lemma_small_index(j);
    assert forall|k: int| 0 <= k < i implies funcs[k].item != funcs[i].item by {
        lemma_small_index(k);
    }
    lemma_item_index(funcs, funcs[i].item, i);
    // the two targets of a modulation slot are its amount and its switch
    assert(menu(MenuList::ModParams)[2].item == Parameter::Amount);
    assert(menu(MenuList::ModParams)[3].item == Parameter::Active);
}

} // verus!
