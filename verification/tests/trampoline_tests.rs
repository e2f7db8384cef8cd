use pyroxide::trampoline::{call_result, panic_message, MojoError, MojoResult};

#[test]
fn ok_result_unwraps_to_value() {
    let r = MojoResult::ok(42i32);
    assert!(r.is_ok());
    assert_eq!(r.error, MojoError::Success);
    assert_eq!(r.unwrap(), 42);
}

#[test]
fn err_result_is_not_ok() {
    let r: MojoResult<i32> = MojoResult::err(MojoError::ShapeMismatch);
    assert!(!r.is_ok());
    assert_eq!(r.error.code(), 3);
    assert!(r.value.is_none());
}

#[test]
fn error_codes() {
    assert_eq!(MojoError::Success.code(), 0);
    assert_eq!(MojoError::Panic.code(), 1);
    assert_eq!(MojoError::InvalidArg.code(), 2);
    assert_eq!(MojoError::OutOfMemory.code(), 4);
    assert_eq!(MojoError::Other.code(), 255);
}

#[test]
fn call_result_of_returned_value() {
    let r = call_result(Some(7u8));
    assert!(r.is_ok());
    assert_eq!(r.unwrap(), 7);
}

#[test]
fn call_result_of_panic() {
    let r: MojoResult<u8> = call_result(None);
    assert!(!r.is_ok());
    assert_eq!(r.error, MojoError::Panic);
}

#[test]
fn panic_message_prefers_str_payload() {
    assert_eq!(panic_message(Some("boom"), Some("other")), "boom");
    assert_eq!(panic_message(None, Some("owned")), "owned");
    assert_eq!(panic_message(None, None), "unknown panic");
}

#[test]
fn call_value_of_returned_value_and_panic() {
    assert_eq!(pyroxide::trampoline::call_value(Some(3.5f64)), 3.5);
    assert_eq!(pyroxide::trampoline::call_value::<f64>(None), 0.0);
    assert!(!pyroxide::trampoline::call_value::<bool>(None));
}
