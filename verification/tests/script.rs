use mujs::CallOutcome;
use mujs::CompileOutcome;
use mujs::ErrorKind;
use mujs::EvalOutcome;
use mujs::State;
use mujs::StateFlags;
use mujs::Value;

#[test]
fn loadstring_compiled_pushes_one_callable() {
    let mut state = State::new(StateFlags { bits: 0 });
    state
        .loadstring("myscript", "Math.sin(3.2);", CompileOutcome::Compiled)
        .unwrap();
    assert_eq!(state.gettop(), 1);
    assert_eq!(state.isobject(0), true);
}

#[test]
fn loadstring_rejection_reports_rendered_message() {
    let mut state = State::new(StateFlags { bits: 0 });
    let err = state
        .loadstring(
            "myscript",
            "func broken() {",
            CompileOutcome::Rejected(ErrorKind::Syntax, String::from("unexpected end of file")),
        )
        .unwrap_err();
    assert_eq!(err, "SyntaxError: unexpected end of file");
    assert!(!err.is_empty());
    // the failure leaves the error value, not a callable, on top
    assert_eq!(state.gettop(), 1);
    assert_eq!(state.tostring(-1).unwrap(), "SyntaxError: unexpected end of file");
}

#[test]
fn loadstring_rejection_message_is_never_empty() {
    let mut state = State::new(StateFlags { bits: 0 });
    let err = state
        .loadstring(
            "myscript",
            "func broken() {",
            CompileOutcome::Rejected(ErrorKind::Syntax, String::new()),
        )
        .unwrap_err();
    assert_eq!(err, "SyntaxError");
    assert!(!err.is_empty());
}

#[test]
fn loadstring_with_nul_in_source_fails_before_the_boundary() {
    let mut state = State::new(StateFlags { bits: 0 });
    let err = state
        .loadstring("myscript", "var a\0= 1;", CompileOutcome::Compiled)
        .unwrap_err();
    assert!(!err.is_empty());
    assert_eq!(state.gettop(), 0);
}

#[test]
fn call_with_success_replaces_the_frame_with_the_result() {
    let mut state = State::new(StateFlags { bits: 0 });
    state
        .loadstring("myscript", "1.5+1", CompileOutcome::Compiled)
        .unwrap();
    state.newobject();
    state
        .call(0, CallOutcome::Returned(Value::Number(2.5f64.to_bits())))
        .unwrap();
    assert_eq!(state.gettop(), 1);
    assert_eq!(state.tonumber(0).unwrap(), 2.5f64.to_bits());
}

#[test]
fn literal_expression_stringifies_as_the_engine_rendered_it() {
    // single-shot path for a string-valued literal expression: the value the
    // evaluator hands back is rendered exactly, with nothing added
    let mut state = State::new(StateFlags { bits: 0 });
    state
        .loadstring("myscript", "'a'+'b'", CompileOutcome::Compiled)
        .unwrap();
    state.newobject();
    state
        .call(0, CallOutcome::Returned(Value::Str(String::from("ab"))))
        .unwrap();
    assert_eq!(state.tostring(0).unwrap(), "ab");
}

#[test]
fn call_with_runtime_error_is_recoverable() {
    let mut state = State::new(StateFlags { bits: 0 });
    state
        .loadstring("myscript", "mystic.func();", CompileOutcome::Compiled)
        .unwrap();
    state.newobject();
    let err = state
        .call(
            0,
            CallOutcome::Threw(ErrorKind::Reference, String::from("'mystic' is not defined")),
        )
        .unwrap_err();
    assert_eq!(err, "ReferenceError: 'mystic' is not defined");
    // the handle stays usable: the thrown error was caught at the boundary
    assert_eq!(state.gettop(), 1);
    state.pushnumber(1.0f64.to_bits());
    assert_eq!(state.gettop(), 2);
}

#[test]
fn call_passes_arguments_by_popping_them() {
    let mut state = State::new(StateFlags { bits: 0 });
    state.pushnumber(9.0f64.to_bits()); // a bystander below the frame
    state
        .loadstring("myscript", "function f(a, b) { return a + b; } f", CompileOutcome::Compiled)
        .unwrap();
    state.pushundefined();
    state.pushnumber(1.0f64.to_bits());
    state.pushnumber(2.0f64.to_bits());
    state
        .call(2, CallOutcome::Returned(Value::Number(3.0f64.to_bits())))
        .unwrap();
    assert_eq!(state.gettop(), 2);
    assert_eq!(state.tonumber(0).unwrap(), 9.0f64.to_bits());
    assert_eq!(state.tonumber(1).unwrap(), 3.0f64.to_bits());
}

#[test]
fn construct_with_success() {
    let mut state = State::new(StateFlags { bits: 0 });
    state
        .dostring("function func(a) { this.a = a; }", EvalOutcome::Completed(Value::Undefined))
        .unwrap();
    state
        .loadstring("myscript", "func", CompileOutcome::Compiled)
        .unwrap();
    state.pushnumber(1.1234f64.to_bits());
    state
        .construct(1, CallOutcome::Returned(Value::Object))
        .unwrap();
    assert_eq!(state.gettop(), 1);
    assert_eq!(state.isobject(0), true);
}

#[test]
fn construct_failure_is_recoverable() {
    let mut state = State::new(StateFlags { bits: 0 });
    state
        .loadstring("myscript", "func", CompileOutcome::Compiled)
        .unwrap();
    let err = state
        .construct(0, CallOutcome::Threw(ErrorKind::Type, String::from("not a constructor")))
        .unwrap_err();
    assert_eq!(err, "TypeError: not a constructor");
    assert_eq!(state.gettop(), 1);
}

#[test]
fn dostring_with_success_leaves_the_stack_as_it_was() {
    let mut state = State::new(StateFlags { bits: 0 });
    state
        .dostring("Math.sin(3.2);", EvalOutcome::Completed(Value::Number(0.0f64.to_bits())))
        .unwrap();
    assert_eq!(state.gettop(), 0);
}

#[test]
fn dostring_with_broken_script_reports_the_compile_error() {
    let mut state = State::new(StateFlags { bits: 0 });
    let err = state
        .dostring(
            "func broken() {",
            EvalOutcome::Rejected(ErrorKind::Syntax, String::from("unexpected end of file")),
        )
        .unwrap_err();
    assert_eq!(err, "SyntaxError: unexpected end of file");
    assert_eq!(state.gettop(), 1);
}

#[test]
fn dostring_with_runtime_error_reports_the_thrown_error() {
    let mut state = State::new(StateFlags { bits: 0 });
    let err = state
        .dostring(
            "mystic.func();",
            EvalOutcome::Threw(ErrorKind::Reference, String::from("'mystic' is not defined")),
        )
        .unwrap_err();
    assert_eq!(err, "ReferenceError: 'mystic' is not defined");
    assert_eq!(state.gettop(), 1);
    assert_eq!(state.tostring(0).unwrap(), "ReferenceError: 'mystic' is not defined");
}
