use yazz::modulation::get_mod_source;
use yazz::parameter::{menu_items, MenuItem, MenuList, Parameter, ValueRange};

#[test]
fn mod_source_lookup() {
    let s = get_mod_source(Parameter::ModWheel);
    assert_eq!(s.function, Parameter::ModWheel);
    assert_eq!(s.index_range, (1, 1));
    assert_eq!(s.val_range, ValueRange::Float(0, 127000, 100));
    assert!(s.is_global);
    let e = get_mod_source(Parameter::Envelope);
    assert_eq!(e.index_range, (1, 3));
    assert!(!e.is_global);
    assert_eq!(get_mod_source(Parameter::GlobalLfo).index_range, (1, 2));
}

#[test]
fn menu_sources_are_modulation_sources() {
    for it in menu_items(MenuList::ModSources).iter() {
        if it.item != Parameter::SustainPedal {
            assert_eq!(get_mod_source(it.item).function, it.item);
        }
    }
}

#[test]
fn menu_targets_have_value_ranges() {
    let funcs = menu_items(MenuList::Functions);
    for t in menu_items(MenuList::ModTargets).iter() {
        let f = funcs.iter().find(|f| f.item == t.item).unwrap();
        for p in menu_items(t.next).iter() {
            let expected = menu_items(f.next).iter().find(|q| q.item == p.item).unwrap().val_range;
            assert_eq!(MenuItem::get_val_range(t.item, p.item), expected);
        }
    }
}
