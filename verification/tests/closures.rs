use mujs::Registry;
use mujs::State;
use mujs::StateFlags;

#[test]
fn newfunction_registers_a_protected_slot() {
    let mut state = State::new(StateFlags::strict());
    let key = state.newfunction("myfunc", 0).unwrap();
    assert_eq!(state.gettop(), 1);
    assert_eq!(state.isobject(0), true);
    let slot = state.function_slot(key).unwrap();
    assert_eq!(slot.name, "myfunc");
    assert_eq!(slot.length, 0);
    // read-only, non-enumerable, non-configurable
    assert_eq!(slot.attrs.bits, 7);
}

#[test]
fn newfunction_hands_out_distinct_keys() {
    let mut state = State::new(StateFlags::strict());
    let first = state.newfunction("a", 0).unwrap();
    let second = state.newfunction("b", 2).unwrap();
    assert_ne!(first, second);
    assert_eq!(state.function_slot(first).unwrap().name, "a");
    assert_eq!(state.function_slot(second).unwrap().name, "b");
    assert_eq!(state.function_slot(second).unwrap().length, 2);
}

#[test]
fn newfunction_with_nul_in_name_fails_before_the_boundary() {
    let mut state = State::new(StateFlags::strict());
    assert!(state.newfunction("my\0func", 0).is_err());
    assert_eq!(state.gettop(), 0);
}

#[test]
fn registered_slot_survives_collection_passes() {
    let mut state = State::new(StateFlags::strict());
    let key = state.newfunction("func", 0).unwrap();
    state.gc(false);
    state.gc(true);
    let slot = state.function_slot(key).unwrap();
    assert_eq!(slot.name, "func");
}

#[test]
fn finalizing_one_slot_leaves_the_others() {
    let mut state = State::new(StateFlags::strict());
    let first = state.newfunction("a", 0).unwrap();
    let second = state.newfunction("b", 1).unwrap();
    assert!(state.finalize_function(first));
    assert!(state.function_slot(first).is_none());
    assert_eq!(state.function_slot(second).unwrap().name, "b");
}

#[test]
fn finalizing_twice_reports_nothing_present() {
    let mut state = State::new(StateFlags::strict());
    let key = state.newfunction("a", 0).unwrap();
    assert!(state.finalize_function(key));
    assert!(!state.finalize_function(key));
}

#[test]
fn registry_hands_back_what_was_stored() {
    let mut table: Registry<String> = Registry::new();
    let key = table.insert(String::from("payload"));
    assert_eq!(*table.get(key).unwrap(), "payload");
}

#[test]
fn registry_keys_are_never_reused() {
    let mut table: Registry<u64> = Registry::new();
    let first = table.insert(10);
    table.finalize(first);
    let second = table.insert(20);
    assert_ne!(first, second);
    assert!(table.get(first).is_none());
    assert_eq!(*table.get(second).unwrap(), 20);
}

#[test]
fn registry_finalize_reports_presence() {
    let mut table: Registry<u64> = Registry::new();
    let key = table.insert(1);
    assert!(table.finalize(key));
    assert!(!table.finalize(key));
    assert!(!table.finalize(999));
}

#[test]
fn registry_owns_entries_until_finalized() {
    let mut table: Registry<Box<dyn Fn() -> u64>> = Registry::new();
    let key = table.insert(Box::new(|| 42));
    assert_eq!(table.get(key).unwrap()(), 42);
    table.finalize(key);
    assert!(table.get(key).is_none());
}
