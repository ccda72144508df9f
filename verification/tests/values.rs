use mujs::State;
use mujs::StateFlags;

#[test]
fn isdefined_on_undefined_is_false() {
    let mut state = State::new(StateFlags { bits: 0 });
    state.pushundefined();
    assert_eq!(state.isdefined(0), false);
}

#[test]
fn isdefined_on_number_is_true() {
    let mut state = State::new(StateFlags { bits: 0 });
    state.pushnumber(1.234f64.to_bits());
    assert_eq!(state.isdefined(0), true);
}

#[test]
fn isundefined_on_undefined_is_true() {
    let mut state = State::new(StateFlags { bits: 0 });
    state.pushundefined();
    assert_eq!(state.isundefined(0), true);
}

#[test]
fn isundefined_on_number_is_false() {
    let mut state = State::new(StateFlags { bits: 0 });
    state.pushnumber(1.234f64.to_bits());
    assert_eq!(state.isundefined(0), false);
}

#[test]
fn isundefined_on_out_of_range_index_is_true() {
    let state = State::new(StateFlags { bits: 0 });
    assert_eq!(state.isundefined(3), true);
    assert_eq!(state.isundefined(-1), true);
}

#[test]
fn isnull_on_null_is_true() {
    let mut state = State::new(StateFlags::strict());
    state.pushnull();
    assert_eq!(state.isnull(0), true);
}

#[test]
fn isnull_on_undefined_is_false() {
    let mut state = State::new(StateFlags::strict());
    state.pushundefined();
    assert_eq!(state.isnull(0), false);
}

#[test]
fn isboolean_on_boolean_is_true() {
    let mut state = State::new(StateFlags::strict());
    state.pushboolean(false);
    assert_eq!(state.isboolean(0), true);
}

#[test]
fn isboolean_on_number_is_false() {
    let mut state = State::new(StateFlags::strict());
    state.pushnumber(1.234f64.to_bits());
    assert_eq!(state.isboolean(0), false);
}

#[test]
fn isnumber_on_number_is_true() {
    let mut state = State::new(StateFlags::strict());
    state.pushnumber(1.2345f64.to_bits());
    assert_eq!(state.isnumber(0), true);
}

#[test]
fn isnumber_on_boolean_is_false() {
    let mut state = State::new(StateFlags::strict());
    state.pushboolean(true);
    assert_eq!(state.isnumber(0), false);
}

#[test]
fn isstring_on_string_is_true() {
    let mut state = State::new(StateFlags::strict());
    state.pushstring("Hello world!").unwrap();
    assert_eq!(state.isstring(0), true);
}

#[test]
fn isstring_on_boolean_is_false() {
    let mut state = State::new(StateFlags::strict());
    state.pushboolean(true);
    assert_eq!(state.isstring(0), false);
}

#[test]
fn isprimitive_on_undefined_is_true() {
    let mut state = State::new(StateFlags::strict());
    state.pushundefined();
    assert_eq!(state.isprimitive(0), true);
}

#[test]
fn isprimitive_on_object_is_false() {
    let mut state = State::new(StateFlags::strict());
    state.newobject();
    assert_eq!(state.isprimitive(0), false);
}

#[test]
fn isobject_on_object_is_true() {
    let mut state = State::new(StateFlags { bits: 0 });
    state.newobject();
    assert_eq!(state.isobject(0), true);
}

#[test]
fn isobject_on_number_is_false() {
    let mut state = State::new(StateFlags { bits: 0 });
    state.pushnumber(1.234f64.to_bits());
    assert_eq!(state.isobject(0), false);
}

#[test]
fn pushundefined_verify_as_string() {
    let mut state = State::new(StateFlags { bits: 0 });
    state.pushundefined();
    assert_eq!(state.tostring(0).ok().unwrap(), "undefined");
}

#[test]
fn pushnull_verify_as_string() {
    let mut state = State::new(StateFlags { bits: 0 });
    state.pushnull();
    assert_eq!(state.tostring(0).ok().unwrap(), "null");
}

#[test]
fn pushboolean_verify_as_string() {
    let mut state = State::new(StateFlags { bits: 0 });
    state.pushboolean(true);
    assert_eq!(state.tostring(0).ok().unwrap(), "true");
}

#[test]
fn pushstring_ascii() {
    let mut state = State::new(StateFlags { bits: 0 });
    state.pushstring("Hello World!").unwrap();
    assert_eq!(state.tostring(0).ok().unwrap(), "Hello World!");
}

#[test]
fn pushstring_utf8() {
    let mut state = State::new(StateFlags { bits: 0 });
    state.pushstring("Hello B\u{cc45}sse!").unwrap();
    assert_eq!(state.tostring(0).ok().unwrap(), "Hello B\u{cc45}sse!");
}

#[test]
fn newboolean_validate_as_string() {
    let mut state = State::new(StateFlags::strict());
    state.newboolean(false);
    assert_eq!(state.tostring(0).unwrap(), "false");
}

#[test]
fn newstring_validate_as_string() {
    let mut state = State::new(StateFlags::strict());
    state.newstring("Hello World!").unwrap();
    assert_eq!(state.tostring(0).unwrap(), "Hello World!");
}

#[test]
fn newboolean_is_an_object_and_truthy() {
    let mut state = State::new(StateFlags::strict());
    state.newboolean(false);
    assert_eq!(state.isobject(0), true);
    assert_eq!(state.isboolean(0), false);
    // every object coerces to true, even a wrapper around false
    assert_eq!(state.toboolean(0).unwrap(), true);
}

#[test]
fn newregexp_pushes_an_object() {
    let mut state = State::new(StateFlags::strict());
    state
        .newregexp("^Hello (.*)!$", mujs::RegExpFlags::global())
        .unwrap();
    assert_eq!(state.isobject(0), true);
    assert_eq!(state.isprimitive(0), false);
}

#[test]
fn pushglobal_pushes_an_object() {
    let mut state = State::new(StateFlags::strict());
    state.pushglobal();
    assert_eq!(state.isobject(0), true);
}

#[test]
fn tonumber_round_trips_number_bits() {
    for value in [0.0f64, -1.53278, 1.53278, f64::MAX, f64::MIN, 5e-324, -5e-324] {
        let mut state = State::new(StateFlags { bits: 0 });
        state.pushnumber(value.to_bits());
        assert_eq!(state.tonumber(0).unwrap(), value.to_bits());
    }
}

#[test]
fn tonumber_on_non_numeric_string_is_nan() {
    let mut state = State::new(StateFlags { bits: 0 });
    state.pushstring("hello world").unwrap();
    let bits = state.tonumber(0).unwrap();
    assert!(f64::from_bits(bits).is_nan());
}

#[test]
fn tonumber_on_whitespace_string_is_zero() {
    let mut state = State::new(StateFlags { bits: 0 });
    state.pushstring("  \t\n").unwrap();
    assert_eq!(state.tonumber(0).unwrap(), 0u64);
}

#[test]
fn tonumber_on_possibly_numeric_string_defers_to_evaluator() {
    let mut state = State::new(StateFlags { bits: 0 });
    state.pushstring("1.53278").unwrap();
    assert!(state.tonumber(0).is_err());
}

#[test]
fn tonumber_on_undefined_is_nan() {
    let mut state = State::new(StateFlags { bits: 0 });
    state.pushundefined();
    assert!(f64::from_bits(state.tonumber(0).unwrap()).is_nan());
}

#[test]
fn tonumber_on_null_is_zero() {
    let mut state = State::new(StateFlags { bits: 0 });
    state.pushnull();
    assert_eq!(state.tonumber(0).unwrap(), 0.0f64.to_bits());
}

#[test]
fn tonumber_on_booleans_is_zero_or_one() {
    let mut state = State::new(StateFlags { bits: 0 });
    state.pushboolean(false);
    state.pushboolean(true);
    assert_eq!(state.tonumber(0).unwrap(), 0.0f64.to_bits());
    assert_eq!(state.tonumber(1).unwrap(), 1.0f64.to_bits());
}

#[test]
fn toboolean_coercions_follow_the_value_tag() {
    let mut state = State::new(StateFlags { bits: 0 });
    state.pushundefined();
    state.pushnull();
    state.pushboolean(false);
    state.pushboolean(true);
    state.pushnumber(0.0f64.to_bits());
    state.pushnumber((-0.0f64).to_bits());
    state.pushnumber(f64::NAN.to_bits());
    state.pushnumber(2.5f64.to_bits());
    state.pushstring("").unwrap();
    state.pushstring("x").unwrap();
    state.newobject();
    let expected = [
        false, false, false, true, false, false, false, true, false, true, true,
    ];
    for (idx, want) in expected.iter().enumerate() {
        assert_eq!(state.toboolean(idx as i32).unwrap(), *want, "slot {}", idx);
    }
}

#[test]
fn tostring_of_number_defers_to_evaluator() {
    let mut state = State::new(StateFlags { bits: 0 });
    state.pushnumber(1.234f64.to_bits());
    assert!(state.tostring(0).is_err());
}

#[test]
fn tostring_of_out_of_range_index_is_undefined() {
    let state = State::new(StateFlags { bits: 0 });
    assert_eq!(state.tostring(5).unwrap(), "undefined");
}
