use mujs::State;
use mujs::StateFlags;

#[test]
fn create_new_state() {
    let _ = State::new(StateFlags { bits: 0 });
}

#[test]
fn call_garbage_collector() {
    let mut state = State::new(StateFlags { bits: 0 });
    state.gc(false);
}

#[test]
fn gettop_with_empty_stack() {
    let state = State::new(StateFlags::strict());
    assert_eq!(state.gettop(), 0);
}

#[test]
fn gettop_with_one_item_on_stack() {
    let mut state = State::new(StateFlags::strict());
    state.pushundefined();
    assert_eq!(state.gettop(), 1);
}

#[test]
fn gettop_with_five_items_on_stack() {
    let mut state = State::new(StateFlags::strict());
    state.pushnumber(1.0f64.to_bits());
    state.pushnumber(2.0f64.to_bits());
    state.pushnumber(3.0f64.to_bits());
    state.pushnumber(4.0f64.to_bits());
    state.pushnumber(5.0f64.to_bits());
    assert_eq!(state.gettop(), 5);
}

#[test]
fn pop_with_empty_stack() {
    let mut state = State::new(StateFlags::strict());
    state.pop(0).unwrap();
    assert_eq!(state.gettop(), 0);
}

#[test]
fn pop_one_and_only_item_on_stack() {
    let mut state = State::new(StateFlags::strict());
    state.pushnumber(1.0f64.to_bits());
    state.pop(1).unwrap();
    assert_eq!(state.gettop(), 0);
}

#[test]
fn pop_one_of_two_items_on_stack() {
    let mut state = State::new(StateFlags::strict());
    state.pushnumber(1.0f64.to_bits());
    state.pushnumber(2.0f64.to_bits());
    state.pop(1).unwrap();
    assert_eq!(state.gettop(), 1);
}

#[test]
fn pop_beyond_depth_is_stack_error() {
    let mut state = State::new(StateFlags::strict());
    state.pushnumber(1.0f64.to_bits());
    let fault = state.pop(2).unwrap_err();
    assert_eq!(fault.message().unwrap(), "Error: stack error!");
}

#[test]
fn rot_of_one_item_on_stack() {
    let mut state = State::new(StateFlags::strict());
    state.pushnumber(1.2345f64.to_bits());
    state.rot(1).unwrap();
    assert_eq!(state.tonumber(0).unwrap(), 1.2345f64.to_bits());
}

#[test]
fn rot_of_two_items_on_stack() {
    let mut state = State::new(StateFlags::strict());
    state.pushnumber(1.2345f64.to_bits());
    state.pushnumber(5.4321f64.to_bits());
    state.rot(2).unwrap();
    assert_eq!(state.tonumber(0).unwrap(), 5.4321f64.to_bits());
    assert_eq!(state.tonumber(1).unwrap(), 1.2345f64.to_bits());
}

#[test]
fn rot_of_item_of_two_items_on_stack() {
    let mut state = State::new(StateFlags::strict());
    state.pushnumber(1.2345f64.to_bits());
    state.pushnumber(5.4321f64.to_bits());
    state.rot(1).unwrap();
    assert_eq!(state.tonumber(0).unwrap(), 1.2345f64.to_bits());
    assert_eq!(state.tonumber(1).unwrap(), 5.4321f64.to_bits());
}

#[test]
fn rot_of_three_items_moves_top_to_window_start() {
    let mut state = State::new(StateFlags::strict());
    state.pushnumber(1.0f64.to_bits());
    state.pushnumber(2.0f64.to_bits());
    state.pushnumber(3.0f64.to_bits());
    state.rot(3).unwrap();
    assert_eq!(state.tonumber(0).unwrap(), 3.0f64.to_bits());
    assert_eq!(state.tonumber(1).unwrap(), 1.0f64.to_bits());
    assert_eq!(state.tonumber(2).unwrap(), 2.0f64.to_bits());
}

#[test]
fn rot_of_three_items_three_times_restores_order() {
    let mut state = State::new(StateFlags::strict());
    state.pushnumber(1.0f64.to_bits());
    state.pushnumber(2.0f64.to_bits());
    state.pushnumber(3.0f64.to_bits());
    state.rot(3).unwrap();
    state.rot(3).unwrap();
    state.rot(3).unwrap();
    assert_eq!(state.tonumber(0).unwrap(), 1.0f64.to_bits());
    assert_eq!(state.tonumber(1).unwrap(), 2.0f64.to_bits());
    assert_eq!(state.tonumber(2).unwrap(), 3.0f64.to_bits());
}

#[test]
fn rot_of_two_items_twice_restores_order() {
    let mut state = State::new(StateFlags::strict());
    state.pushnumber(1.2345f64.to_bits());
    state.pushnumber(5.4321f64.to_bits());
    state.rot(2).unwrap();
    state.rot(2).unwrap();
    assert_eq!(state.tonumber(0).unwrap(), 1.2345f64.to_bits());
    assert_eq!(state.tonumber(1).unwrap(), 5.4321f64.to_bits());
}

#[test]
fn copy_one_item_on_stack() {
    let mut state = State::new(StateFlags::strict());
    state.pushnumber(1.2345f64.to_bits());
    state.copy(0).unwrap();
    assert_eq!(state.tonumber(0).unwrap(), 1.2345f64.to_bits());
    assert_eq!(state.tonumber(1).unwrap(), 1.2345f64.to_bits());
}

#[test]
fn copy_of_item_copies_on_stack() {
    let mut state = State::new(StateFlags::strict());
    state.pushnumber(1.2345f64.to_bits());
    state.copy(0).unwrap();
    state.copy(1).unwrap();
    state.copy(2).unwrap();
    assert_eq!(state.tonumber(0).unwrap(), 1.2345f64.to_bits());
    assert_eq!(state.tonumber(1).unwrap(), 1.2345f64.to_bits());
    assert_eq!(state.tonumber(2).unwrap(), 1.2345f64.to_bits());
    assert_eq!(state.tonumber(3).unwrap(), 1.2345f64.to_bits());
}

#[test]
fn copy_increases_depth_by_one() {
    let mut state = State::new(StateFlags::strict());
    state.pushboolean(true);
    state.pushnumber(7.5f64.to_bits());
    let before = state.gettop();
    state.copy(0).unwrap();
    assert_eq!(state.gettop(), before + 1);
    assert_eq!(state.toboolean(-1).unwrap(), true);
}

#[test]
fn remove_one_item_with_empty_stack_raises_stack_error() {
    let mut state = State::new(StateFlags::strict());
    let fault = state.remove(-1).unwrap_err();
    assert_eq!(fault.message().unwrap(), "Error: stack error!");
}

#[test]
fn remove_top_item_with_two_items_on_stack() {
    let mut state = State::new(StateFlags::strict());
    state.pushnumber(0.0f64.to_bits());
    state.pushnumber(1.0f64.to_bits());
    state.remove(1).unwrap();
    assert_eq!(state.tonumber(0).unwrap(), 0.0f64.to_bits());
}

#[test]
fn remove_bottom_item_with_two_items_on_stack() {
    let mut state = State::new(StateFlags::strict());
    state.pushnumber(0.0f64.to_bits());
    state.pushnumber(1.0f64.to_bits());
    state.remove(0).unwrap();
    assert_eq!(state.tonumber(0).unwrap(), 1.0f64.to_bits());
}

#[test]
fn pushes_then_pop_restore_depth() {
    let mut state = State::new(StateFlags::strict());
    state.pushboolean(false);
    let before = state.gettop();
    state.pushnumber(1.0f64.to_bits());
    state.pushnull();
    state.pushundefined();
    state.pushstring("x").unwrap();
    state.pop(4).unwrap();
    assert_eq!(state.gettop(), before);
    assert_eq!(state.toboolean(0).unwrap(), false);
}
