//! Maps MIDI controllers to synth parameters.
//!
//! There are 36 sets of controller mappings (selected with the keys 0-9 and
//! a-z). Within a set, each controller number maps to at most one
//! parameter.
use vstd::prelude::*;
use std::collections::HashMap;
use vstd::std_specs::hash::spec_hash_map_iter;
use vstd::std_specs::iter::IteratorSpec;
use crate::parameter::{has_val_range, val_range_of, MenuItem, ParamId, ValueRange};

verus! {

broadcast use vstd::std_specs::hash::group_hash_axioms;

/// Number of controller mapping sets.
pub const NUM_SETS: usize = 36;

/// How a controller value changes the parameter.
#[derive(Clone, Copy, Debug, PartialEq, Eq, Structural)]
pub enum MappingType {
    NoMapping,
    /// The controller value is translated into the parameter's range.
    Absolute,
    /// Controller values below 64 increase the parameter by one step,
    /// values from 64 up decrease it.
    Relative,
}

/// A controller mapping.
#[derive(Clone, Copy, Debug, PartialEq, Eq, Structural)]
pub struct CtrlMapEntry {
    pub id: ParamId,
    pub map_type: MappingType,
    pub val_range: ValueRange,
}

/// A controller mapping without its value range, as it is stored on disk;
/// the value range is looked up again when the mapping is loaded.
#[derive(Clone, Copy, Debug, PartialEq, Eq, Structural)]
pub struct CtrlMapStorageEntry {
    pub id: ParamId,
    pub map_type: MappingType,
}

/// The change of a parameter that a controller value asks for.
#[derive(Clone, Copy, Debug, PartialEq, Eq, Structural)]
pub enum ValueChange {
    /// Set the parameter to the controller value translated into its range.
    Absolute(u64),
    /// Move the parameter by this many steps.
    Relative(i64),
}

/// The parameter update that a controller value causes.
#[derive(Clone, Copy, Debug, PartialEq, Eq, Structural)]
pub struct CtrlValue {
    pub id: ParamId,
    pub val_range: ValueRange,
    pub change: ValueChange,
}

pub struct CtrlMap {
    map: Vec<HashMap<u64, CtrlMapEntry>>,
}

/// True if the mapping of `controller` in `m` changes `parameter`.
pub open spec fn maps_to(m: Map<u64, CtrlMapEntry>, controller: u64, parameter: ParamId) -> bool {
    m.contains_key(controller) && m[controller].id == parameter
}

/// The update a controller value causes under a mapping.
pub open spec fn value_for(e: CtrlMapEntry, value: u64) -> CtrlValue {
    CtrlValue {
        id: e.id,
        val_range: e.val_range,
        change: if e.map_type == MappingType::Absolute {
            ValueChange::Absolute(value)
        } else {
            ValueChange::Relative(
                if value >= 64 {
                    -1i64
                } else {
                    1i64
                },
            )
        },
    }
}

/// The mappings that a list of stored entries gives: each entry maps its
/// controller to its parameter with the parameter's value range; a later
/// entry for the same controller replaces an earlier one.
pub open spec fn stored_map(entries: Seq<(u64, CtrlMapStorageEntry)>) -> Map<u64, CtrlMapEntry>
    decreases entries.len(),
{
    if entries.len() == 0 {
        Map::empty()
    } else {
        let (key, e) = entries.last();
        stored_map(entries.drop_last()).insert(
            key,
            CtrlMapEntry {
                id: e.id,
                map_type: e.map_type,
                val_range: val_range_of(e.id.function, e.id.parameter),
            },
        )
    }
}

/// A set of mappings with every mapping of `parameter` removed; the
/// mappings of other parameters stay as they are.
pub open spec fn without_parameter(m: Map<u64, CtrlMapEntry>, parameter: ParamId) -> Map<u64, CtrlMapEntry> {
    Map::new(|k: u64| m.contains_key(k) && m[k].id != parameter, |k: u64| m[k])
}

/// After deleting the mappings of a parameter no controller maps to it,
/// every mapping of another parameter is kept, and deleting a parameter
/// that no controller maps to changes nothing.
pub proof fn lemma_delete_all(m: Map<u64, CtrlMapEntry>, parameter: ParamId)
    ensures
        forall|k: u64| !#[trigger] maps_to(without_parameter(m, parameter), k, parameter),
        forall|k: u64|
            m.contains_key(k) && m[k].id != parameter ==> #[trigger] without_parameter(m, parameter).contains_key(k)
                && without_parameter(m, parameter)[k] == m[k],
        (forall|k: u64| !#[trigger] maps_to(m, k, parameter)) ==> without_parameter(m, parameter) == m,
{
    if forall|k: u64| !#[trigger] maps_to(m, k, parameter) {
        assert forall|k: u64| #[trigger] m.contains_key(k) implies m[k].id != parameter by {
            assert(!maps_to(m, k, parameter));
        }
        assert(without_parameter(m, parameter) =~= m);
    }
}

/// After adding a mapping, looking up its controller finds exactly that
/// mapping, and the other controllers and sets keep theirs.
pub proof fn lemma_add_then_lookup(
    before: Seq<Map<u64, CtrlMapEntry>>,
    set: int,
    controller: u64,
    e: CtrlMapEntry,
    other_set: int,
    other_controller: u64,
)
    requires
        0 <= set < before.len(),
        0 <= other_set < before.len(),
    ensures
        ({
            let after = before.update(set, before[set].insert(controller, e));
            &&& after[set].contains_key(controller)
            &&& after[set][controller] == e
            &&& (other_set != set || other_controller != controller) ==> (after[other_set].contains_key(
                other_controller,
            ) == before[other_set].contains_key(other_controller) && after[other_set][other_controller]
                == before[other_set][other_controller])
        }),
{
}

/// A mapping without its value range.
pub open spec fn storage_of(e: CtrlMapEntry) -> CtrlMapStorageEntry {
    CtrlMapStorageEntry { id: e.id, map_type: e.map_type }
}

/// True if `entries` lists each mapping of `m` exactly once, without its
/// value range.
pub open spec fn entries_match(entries: Seq<(u64, CtrlMapStorageEntry)>, m: Map<u64, CtrlMapEntry>) -> bool {
    &&& forall|j: int|
        0 <= j < entries.len() ==> m.contains_key((#[trigger] entries[j]).0) && entries[j].1 == storage_of(
            m[entries[j].0],
        )
    &&& forall|k: u64| #[trigger] m.contains_key(k) ==> exists|j: int| 0 <= j < entries.len() && entries[j].0 == k
    &&& forall|j1: int, j2: int|
        0 <= j1 < entries.len() && 0 <= j2 < entries.len() && j1 != j2 ==> (#[trigger] entries[j1]).0
            != (#[trigger] entries[j2]).0
}

/// True if every mapping of `m` carries the value range that the menu
/// tables give for its parameter (as every mapping made from the tables
/// does).
pub open spec fn ranges_from_tables(m: Map<u64, CtrlMapEntry>) -> bool {
    forall|k: u64| #[trigger] m.contains_key(k) ==> m[k].val_range == val_range_of(m[k].id.function, m[k].id.parameter)
}

/// Loading what was saved gives back the same mappings: the stored entries
/// of a set, read back with their value ranges looked up in the menu
/// tables, are the set's mappings again.
pub proof fn lemma_save_then_load(entries: Seq<(u64, CtrlMapStorageEntry)>, m: Map<u64, CtrlMapEntry>)
    requires
        entries_match(entries, m),
        ranges_from_tables(m),
    ensures
        stored_map(entries) == m,
    decreases entries.len(),
{
    if entries.len() == 0 {
        assert(m =~= Map::<u64, CtrlMapEntry>::empty()) by {
            assert forall|k: u64| !m.contains_key(k) by {
                if m.contains_key(k) {
                    let j = choose|j: int| 0 <= j < entries.len() && entries[j].0 == k;
                }
            }
        }
    } else {
        let last = entries.len() - 1;
        let (k, e) = entries[last];
        let rest = entries.drop_last();
        let m2 = m.remove(k);
        assert(m.contains_key(entries[last].0));
        assert forall|j: int| 0 <= j < rest.len() implies m2.contains_key((#[trigger] rest[j]).0)
            && rest[j].1 == storage_of(m2[rest[j].0]) by {
            assert(entries[j] == rest[j]);
            assert(entries[j].0 != entries[last].0);
        }
        assert forall|k2: u64| #[trigger] m2.contains_key(k2) implies exists|j: int|
            0 <= j < rest.len() && rest[j].0 == k2 by {
            assert(m.contains_key(k2));
            let j = choose|j: int| 0 <= j < entries.len() && entries[j].0 == k2;
            assert(j != last);
            assert(rest[j] == entries[j]);
        }
        assert forall|j1: int, j2: int|
            0 <= j1 < rest.len() && 0 <= j2 < rest.len() && j1 != j2 implies (#[trigger] rest[j1]).0
            != (#[trigger] rest[j2]).0 by {
            assert(rest[j1] == entries[j1]);
            assert(rest[j2] == entries[j2]);
        }
        lemma_save_then_load(rest, m2);
        assert(stored_map(entries) =~= m);
    }
}

impl CtrlMap {
    /// The mapping sets, each a map from controller number to mapping.
    pub closed spec fn sets(&self) -> Seq<Map<u64, CtrlMapEntry>> {
        self.map@.map_values(|m: HashMap<u64, CtrlMapEntry>| m@)
    }

    pub fn new() -> (c: CtrlMap)
        ensures
            c.sets() == Seq::new(NUM_SETS as nat, |i: int| Map::<u64, CtrlMapEntry>::empty()),
    {
        let mut map: Vec<HashMap<u64, CtrlMapEntry>> = Vec::new();
        let mut i: usize = 0;
        while i < NUM_SETS
            invariant
                i <= NUM_SETS,
                map@.len() == i,
                forall|j: int| 0 <= j < i ==> (#[trigger] map@[j])@ == Map::<u64, CtrlMapEntry>::empty(),
            decreases NUM_SETS - i,
        {
            map.push(HashMap::new());
            i += 1;
        }
        let c = CtrlMap { map };
        assert(c.sets() =~= Seq::new(NUM_SETS as nat, |i: int| Map::<u64, CtrlMapEntry>::empty()));
        c
    }

    /// Removes all controller assignments.
    pub fn reset(&mut self)
        ensures
            final(self).sets() == Seq::new(old(self).sets().len(), |i: int| Map::<u64, CtrlMapEntry>::empty()),
    {
        let n = self.map.len();
        let mut i: usize = 0;
        while i < n
            invariant
                n == self.map@.len(),
                n == old(self).map@.len(),
                i <= n,
                forall|j: int| 0 <= j < i ==> (#[trigger] self.map@[j])@ == Map::<u64, CtrlMapEntry>::empty(),
            decreases n - i,
        {
            self.map[i].clear();
            i += 1;
        }
        assert(self.sets() =~= Seq::new(old(self).sets().len(), |i: int| Map::<u64, CtrlMapEntry>::empty()));
    }

    /// Adds a mapping for a controller, replacing any earlier mapping of
    /// that controller in the same set.
    pub fn add_mapping(
        &mut self,
        set: usize,
        controller: u64,
        map_type: MappingType,
        parameter: ParamId,
        val_range: ValueRange,
    )
        requires
            set < old(self).sets().len(),
        ensures
            final(self).sets() == old(self).sets().update(
                set as int,
                old(self).sets()[set as int].insert(
                    controller,
                    CtrlMapEntry { id: parameter, map_type, val_range },
                ),
            ),
    {
        self.map[set].insert(controller, CtrlMapEntry { id: parameter, map_type: map_type, val_range: val_range });
        assert(self.sets() =~= old(self).sets().update(
            set as int,
            old(self).sets()[set as int].insert(
                controller,
                CtrlMapEntry { id: parameter, map_type, val_range },
            ),
        ));
    }

    /// The last controller, in the map's iteration order, that is mapped to
    /// `parameter`, or `None` if there is none.
    fn last_mapped(m: &HashMap<u64, CtrlMapEntry>, parameter: ParamId) -> (controller: Option<u64>)
        ensures
            controller matches Some(k) ==> maps_to(m@, k, parameter),
            controller is None <==> forall|k: u64| !#[trigger] maps_to(m@, k, parameter),
    {
        let mut controller: Option<u64> = None;
        let ghost pairs = spec_hash_map_iter(m).remaining();
        for (key, val) in it: m.iter()
            invariant
                pairs == spec_hash_map_iter(m).remaining(),
                it.seq() == pairs,
                controller matches Some(k) ==> maps_to(m@, k, parameter),
                controller is None <==> forall|j: int| 0 <= j < it.index() ==> (#[trigger] pairs[j]).1.id != parameter,
        {
            if val.id == parameter {
                proof {
                    assert(pairs.contains((key, val)));
                }
                controller = Some(*key);
            }
        }
        proof {
            if controller is None {
                assert forall|k: u64| !#[trigger] maps_to(m@, k, parameter) by {
                    if maps_to(m@, k, parameter) {
                        assert(pairs.contains((&k, &m@[k])));
                        let j = choose|j: int| 0 <= j < pairs.len() && pairs[j] == (&k, &m@[k]);
                        assert(pairs[j].1.id == parameter);
                    }
                }
            }
        }
        controller
    }

    /// Deletes all mappings of a parameter in a set. Returns true if one or
    /// more mappings were deleted.
    pub fn delete_mapping(&mut self, set: usize, parameter: ParamId) -> (found: bool)
        requires
            set < old(self).sets().len(),
        ensures
            final(self).sets().len() == old(self).sets().len(),
            forall|s: int| 0 <= s < old(self).sets().len() && s != set ==> #[trigger] final(self).sets()[s] == old(self).sets()[s],
            final(self).sets()[set as int] == without_parameter(old(self).sets()[set as int], parameter),
            found == exists|k: u64| #[trigger] maps_to(old(self).sets()[set as int], k, parameter),
    {
        let ghost before = self.map@[set as int]@;
        let mut found = false;
        loop
            invariant
                set < self.map@.len(),
                self.map@.len() == old(self).map@.len(),
                forall|s: int| 0 <= s < old(self).map@.len() && s != set ==> #[trigger] self.map@[s] == old(self).map@[s],
                before == old(self).map@[set as int]@,
                forall|k: u64| #[trigger] self.map@[set as int]@.contains_key(k) ==> before.contains_key(k) && self.map@[set as int]@[k] == before[k],
                forall|k: u64| #[trigger] before.contains_key(k) && !self.map@[set as int]@.contains_key(k) ==> maps_to(before, k, parameter),
                found <==> exists|k: u64| before.contains_key(k) && !#[trigger] self.map@[set as int]@.contains_key(k),
            ensures
                set < self.map@.len(),
                self.map@.len() == old(self).map@.len(),
                forall|s: int| 0 <= s < old(self).map@.len() && s != set ==> #[trigger] self.map@[s] == old(self).map@[s],
                forall|k: u64| #[trigger] self.map@[set as int]@.contains_key(k) ==> before.contains_key(k) && self.map@[set as int]@[k] == before[k],
                forall|k: u64| #[trigger] before.contains_key(k) && !self.map@[set as int]@.contains_key(k) ==> maps_to(before, k, parameter),
                found <==> exists|k: u64| before.contains_key(k) && !#[trigger] self.map@[set as int]@.contains_key(k),
                forall|k: u64| !#[trigger] maps_to(self.map@[set as int]@, k, parameter),
            decreases self.map@[set as int]@.len(),
        {
            match CtrlMap::last_mapped(&self.map[set], parameter) {
                Some(controller) => {
                    let ghost prev = self.map@[set as int]@;
                    self.map[set].remove(&controller);
                    proof {
                        assert(prev.dom().finite());
                        assert(self.map@[set as int]@ == prev.remove(controller));
                        assert(before.contains_key(controller) && !self.map@[set as int]@.contains_key(controller));
                        assert forall|k: u64| #[trigger] before.contains_key(k) && !self.map@[set as int]@.contains_key(k)
                            implies maps_to(before, k, parameter) by {
                            if k != controller {
                                assert(!prev.contains_key(k));
                            }
                        }
                    }
                    found = true;
                },
                None => {
                    break;
                },
            }
        }
        let ghost after = self.map@[set as int]@;
        proof {
            assert(after =~= without_parameter(before, parameter)) by {
                assert forall|k: u64| #[trigger] after.contains_key(k) implies before.contains_key(k) && before[k].id != parameter by {
                    assert(!maps_to(after, k, parameter));
                }
                assert forall|k: u64| before.contains_key(k) && before[k].id != parameter implies #[trigger] after.contains_key(k) by {
                    if !after.contains_key(k) {
                        assert(maps_to(before, k, parameter));
                    }
                }
            }
            if exists|k: u64| #[trigger] maps_to(before, k, parameter) {
                let k = choose|k: u64| #[trigger] maps_to(before, k, parameter);
                if after.contains_key(k) {
                    assert(maps_to(after, k, parameter));
                }
                assert(before.contains_key(k) && !after.contains_key(k));
            }
        }
        assert(self.sets()[set as int] == self.map@[set as int]@);
        assert(old(self).sets()[set as int] == before);
        assert forall|s: int| 0 <= s < old(self).sets().len() && s != set implies #[trigger] self.sets()[s] == old(self).sets()[s] by {
            assert(self.map@[s] == old(self).map@[s]);
        }
        found
    }

    /// Replaces all mappings by stored ones: set `i` gets the entries
    /// `storage[i]` (a later entry for the same controller replaces an
    /// earlier one), with the value range of each parameter looked up in
    /// the menu tables; sets without stored entries are emptied.
    pub fn load_entries(&mut self, storage: &[Vec<(u64, CtrlMapStorageEntry)>])
        requires
            storage@.len() <= old(self).sets().len(),
            forall|i: int, j: int|
                0 <= i < storage@.len() && 0 <= j < storage@[i]@.len() ==> has_val_range(
                    (#[trigger] storage@[i]@[j]).1.id.function,
                    storage@[i]@[j].1.id.parameter,
                ),
        ensures
            final(self).sets().len() == old(self).sets().len(),
            forall|i: int|
                0 <= i < storage@.len() ==> #[trigger] final(self).sets()[i] == stored_map(storage@[i]@),
            forall|i: int|
                storage@.len() <= i < old(self).sets().len() ==> #[trigger] final(self).sets()[i] == Map::<
                    u64,
                    CtrlMapEntry,
                >::empty(),
    {
        self.reset();
        let n = storage.len();
        let mut i: usize = 0;
        while i < n
            invariant
                n == storage@.len(),
                i <= n,
                n <= self.sets().len(),
                self.sets().len() == old(self).sets().len(),
                forall|a: int, b: int|
                    0 <= a < storage@.len() && 0 <= b < storage@[a]@.len() ==> has_val_range(
                        (#[trigger] storage@[a]@[b]).1.id.function,
                        storage@[a]@[b].1.id.parameter,
                    ),
                forall|a: int| 0 <= a < i ==> #[trigger] self.sets()[a] == stored_map(storage@[a]@),
                forall|a: int|
                    i <= a < self.sets().len() ==> #[trigger] self.sets()[a] == Map::<u64, CtrlMapEntry>::empty(),
            decreases n - i,
        {
            let entries = &storage[i];
            let mut j: usize = 0;
            proof {
                assert(entries@.take(0) =~= Seq::<(u64, CtrlMapStorageEntry)>::empty());
            }
            while j < entries.len()
                invariant
                    n == storage@.len(),
                    i < n,
                    n <= self.sets().len(),
                    self.sets().len() == old(self).sets().len(),
                    entries@ == storage@[i as int]@,
                    j <= entries@.len(),
                    forall|a: int, b: int|
                        0 <= a < storage@.len() && 0 <= b < storage@[a]@.len() ==> has_val_range(
                            (#[trigger] storage@[a]@[b]).1.id.function,
                            storage@[a]@[b].1.id.parameter,
                        ),
                    forall|a: int| 0 <= a < i ==> #[trigger] self.sets()[a] == stored_map(storage@[a]@),
                    forall|a: int|
                        i < a < self.sets().len() ==> #[trigger] self.sets()[a] == Map::<u64, CtrlMapEntry>::empty(),
                    self.sets()[i as int] == stored_map(entries@.take(j as int)),
                decreases entries@.len() - j,
            {
                let (key, value) = entries[j];
                assert(has_val_range(storage@[i as int]@[j as int].1.id.function, storage@[i as int]@[j as int].1.id.parameter));
                let val_range = MenuItem::get_val_range(value.id.function, value.id.parameter);
                self.add_mapping(i, key, value.map_type, value.id, val_range);
                proof {
                    assert(entries@.take(j + 1).drop_last() =~= entries@.take(j as int));
                }
                j += 1;
            }
            proof {
                assert(entries@.take(entries@.len() as int) =~= entries@);
            }
            i += 1;
        }
    }

    /// The mappings of every set as lists of stored entries, one entry per
    /// mapped controller, in the map's iteration order.
    pub fn storage_entries(&self) -> (r: Vec<Vec<(u64, CtrlMapStorageEntry)>>)
        ensures
            r@.len() == self.sets().len(),
            forall|i: int| 0 <= i < r@.len() ==> #[trigger] entries_match(r@[i]@, self.sets()[i]),
    {
        let mut r: Vec<Vec<(u64, CtrlMapStorageEntry)>> = Vec::new();
        let mut i: usize = 0;
        while i < self.map.len()
            invariant
                i <= self.map@.len(),
                r@.len() == i,
                forall|a: int| 0 <= a < i ==> #[trigger] entries_match(r@[a]@, self.sets()[a]),
            decreases self.map@.len() - i,
        {
            let m = &self.map[i];
            let mut entries: Vec<(u64, CtrlMapStorageEntry)> = Vec::new();
            let ghost pairs = spec_hash_map_iter(m).remaining();
            for (key, val) in it: m.iter()
                invariant
                    pairs == spec_hash_map_iter(m).remaining(),
                    it.seq() == pairs,
                    entries@.len() == it.index(),
                    forall|j: int|
                        0 <= j < it.index() ==> #[trigger] entries@[j] == (
                            *pairs[j].0,
                            storage_of(*pairs[j].1),
                        ),
            {
                entries.push((*key, CtrlMapStorageEntry { id: val.id, map_type: val.map_type }));
            }
            proof {
                let mm = m@;
                assert(pairs.no_duplicates());
                assert forall|j: int| 0 <= j < entries@.len() implies mm.contains_key(
                    (#[trigger] entries@[j]).0,
                ) && entries@[j].1 == storage_of(mm[entries@[j].0]) by {
                    assert(mm.contains_key(*pairs[j].0) && mm[*pairs[j].0] == *pairs[j].1);
                }
                assert forall|k: u64| #[trigger] mm.contains_key(k) implies exists|j: int|
                    0 <= j < entries@.len() && entries@[j].0 == k by {
                    assert(pairs.contains((&k, &mm[k])));
                    let j = choose|j: int| 0 <= j < pairs.len() && pairs[j] == (&k, &mm[k]);
                    assert(entries@[j].0 == k);
                }
                assert forall|j1: int, j2: int|
                    0 <= j1 < entries@.len() && 0 <= j2 < entries@.len() && j1 != j2 implies (#[trigger] entries@[j1]).0
                    != (#[trigger] entries@[j2]).0 by {
                    if entries@[j1].0 == entries@[j2].0 {
                        assert(mm[*pairs[j1].0] == *pairs[j1].1);
                        assert(mm[*pairs[j2].0] == *pairs[j2].1);
                        assert(pairs[j1] == pairs[j2]);
                    }
                }
                assert(self.sets()[i as int] == mm);
            }
            r.push(entries);
            i += 1;
        }
        r
    }

    /// Looks up the mapping of a controller and the parameter update that
    /// `value` causes; `Err` if the controller is not mapped in the set.
    pub fn get_value(&self, set: usize, controller: u64, value: u64) -> (r: Result<CtrlValue, ()>)
        requires
            set < self.sets().len(),
            self.sets()[set as int].contains_key(controller) ==> self.sets()[set as int][controller].map_type
                != MappingType::NoMapping,
        ensures
            !self.sets()[set as int].contains_key(controller) ==> r == Err::<CtrlValue, ()>(()),
            self.sets()[set as int].contains_key(controller) ==> r == Ok::<CtrlValue, ()>(
                value_for(self.sets()[set as int][controller], value),
            ),
    {
        match self.map[set].get(&controller) {
            None => Err(()),
            Some(mapping) => {
                let change = match mapping.map_type {
                    MappingType::Absolute => ValueChange::Absolute(value),
                    _ => {
                        let delta: i64 = if value >= 64 {
                            -1
                        } else {
                            1
                        };
                        ValueChange::Relative(delta)
                    },
                };
                Ok(CtrlValue { id: mapping.id, val_range: mapping.val_range, change })
            },
        }
    }
}

} // verus!
