use yazz::ctrl_map::{CtrlMap, CtrlMapStorageEntry, CtrlValue, MappingType, ValueChange};
use yazz::parameter::{MenuItem, ParamId, Parameter, ValueRange};

struct TestContext {
    map: CtrlMap,
    param_id: ParamId,
}

impl TestContext {
    fn new() -> TestContext {
        let map = CtrlMap::new();
        let param_id = ParamId::new(Parameter::Oscillator, 1, Parameter::Level);
        TestContext { map, param_id }
    }

    fn add_controller(&mut self, ctrl_no: u64, ctrl_type: MappingType) {
        let val_range = MenuItem::get_val_range(self.param_id.function, self.param_id.parameter);
        self.map.add_mapping(1, ctrl_no, ctrl_type, self.param_id, val_range);
    }

    fn handle_controller(&mut self, ctrl_no: u64, value: u64) -> Result<CtrlValue, ()> {
        self.map.get_value(1, ctrl_no, value)
    }

    fn delete_controller(&mut self) -> bool {
        self.map.delete_mapping(1, self.param_id)
    }
}

#[test]
fn controller_without_mapping_returns_no_value() {
    let mut context = TestContext::new();
    assert_eq!(context.handle_controller(1, 50).is_ok(), false);
}

#[test]
fn absolute_controller_can_be_added() {
    let mut context = TestContext::new();
    context.add_controller(1, MappingType::Absolute);
    assert_eq!(context.handle_controller(1, 50).is_ok(), true);
}

#[test]
fn value_can_be_changed_absolute() {
    let mut context = TestContext::new();
    context.add_controller(1, MappingType::Absolute);
    let result = context.handle_controller(1, 0).unwrap();
    assert_eq!(result.id, context.param_id);
    assert_eq!(result.val_range, ValueRange::Float(0, 100000, 1000));
    assert_eq!(result.change, ValueChange::Absolute(0));
    // Position 0 selects 0.0, kept in thousandths.
    assert_eq!(result.val_range.translate_value(0), Some(0));
}

#[test]
fn relative_controller_can_be_added() {
    let mut context = TestContext::new();
    context.add_controller(1, MappingType::Relative);
    assert_eq!(context.handle_controller(1, 50).is_ok(), true);
}

#[test]
fn value_can_be_changed_relative() {
    let mut context = TestContext::new();
    context.add_controller(1, MappingType::Relative);

    // The level starts at 50.0, kept in thousandths.
    let mut level: i64 = 50000;

    // Increase value
    let up = context.handle_controller(1, 0).unwrap();
    assert_eq!(up.change, ValueChange::Relative(1));
    level = up.val_range.add_value(level, 1).unwrap();
    assert_eq!(level, 51000);

    // Decrease value
    let down = context.handle_controller(1, 127).unwrap();
    assert_eq!(down.change, ValueChange::Relative(-1));
    level = down.val_range.add_value(level, -1).unwrap();
    assert_eq!(level, 50000);
}

#[test]
fn mapping_can_be_deleted() {
    let mut context = TestContext::new();
    context.add_controller(1, MappingType::Relative);
    assert_eq!(context.handle_controller(1, 127).is_ok(), true);
    assert_eq!(context.delete_controller(), true);
    assert_eq!(context.handle_controller(1, 127).is_ok(), false);
}

#[test]
fn nonexisting_mapping_isnt_deleted() {
    let mut context = TestContext::new();
    assert_eq!(context.delete_controller(), false);
}

#[test]
fn relative_threshold_is_64() {
    let mut context = TestContext::new();
    context.add_controller(7, MappingType::Relative);
    assert_eq!(context.handle_controller(7, 63).unwrap().change, ValueChange::Relative(1));
    assert_eq!(context.handle_controller(7, 64).unwrap().change, ValueChange::Relative(-1));
}

#[test]
fn delete_removes_all_controllers_of_a_parameter() {
    let mut context = TestContext::new();
    context.add_controller(3, MappingType::Absolute);
    context.add_controller(4, MappingType::Relative);
    context.add_controller(5, MappingType::Absolute);
    let other = ParamId::new(Parameter::Filter, 1, Parameter::Cutoff);
    let range = MenuItem::get_val_range(Parameter::Filter, Parameter::Cutoff);
    context.map.add_mapping(1, 6, MappingType::Absolute, other, range);
    assert!(context.delete_controller());
    assert!(context.handle_controller(3, 1).is_err());
    assert!(context.handle_controller(4, 1).is_err());
    assert!(context.handle_controller(5, 1).is_err());
    assert_eq!(context.handle_controller(6, 1).unwrap().id, other);
}

#[test]
fn controller_zero_mapping_is_deleted() {
    let mut context = TestContext::new();
    context.add_controller(0, MappingType::Absolute);
    context.add_controller(3, MappingType::Relative);
    assert_eq!(context.delete_controller(), true);
    assert!(context.handle_controller(0, 1).is_err());
    assert!(context.handle_controller(3, 1).is_err());
    assert_eq!(context.delete_controller(), false);
}

#[test]
fn sets_are_independent() {
    let mut context = TestContext::new();
    context.add_controller(1, MappingType::Absolute);
    assert!(context.map.get_value(2, 1, 10).is_err());
    assert!(!context.map.delete_mapping(2, context.param_id));
    assert!(context.map.get_value(1, 1, 10).is_ok());
}

#[test]
fn reset_removes_everything() {
    let mut context = TestContext::new();
    context.add_controller(1, MappingType::Absolute);
    context.map.add_mapping(35, 9, MappingType::Relative, context.param_id, ValueRange::Int(0, 1));
    context.map.reset();
    assert!(context.map.get_value(1, 1, 0).is_err());
    assert!(context.map.get_value(35, 9, 0).is_err());
}

#[test]
fn later_mapping_replaces_earlier_one() {
    let mut context = TestContext::new();
    context.add_controller(1, MappingType::Absolute);
    context.add_controller(1, MappingType::Relative);
    assert_eq!(context.handle_controller(1, 0).unwrap().change, ValueChange::Relative(1));
}

#[test]
fn save_then_load_gives_same_mappings() {
    let mut context = TestContext::new();
    context.add_controller(1, MappingType::Absolute);
    context.add_controller(2, MappingType::Relative);
    let entries = context.map.storage_entries();
    assert_eq!(entries.len(), 36);
    assert_eq!(entries[1].len(), 2);
    assert!(entries[0].is_empty());
    let mut loaded = CtrlMap::new();
    loaded.load_entries(&entries);
    for ctrl in 0..4u64 {
        assert_eq!(loaded.get_value(1, ctrl, 5), context.map.get_value(1, ctrl, 5));
    }
}

#[test]
fn load_looks_up_value_ranges() {
    let mut map = CtrlMap::new();
    map.add_mapping(0, 99, MappingType::Absolute, ParamId::new(Parameter::Delay, 1, Parameter::Time), ValueRange::NoRange);
    let entries = vec![
        vec![],
        vec![
            (10u64, CtrlMapStorageEntry { id: ParamId::new(Parameter::Envelope, 2, Parameter::Attack), map_type: MappingType::Absolute }),
        ],
    ];
    map.load_entries(&entries);
    assert!(map.get_value(0, 99, 0).is_err());
    let v = map.get_value(1, 10, 3).unwrap();
    assert_eq!(v.val_range, ValueRange::Float(1000, 4000000, 1000));
    assert_eq!(v.change, ValueChange::Absolute(3));
}
