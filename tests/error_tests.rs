use rhino::error::{call_failed, library_load_failed, symbol_missing};
use rhino::text::{c_compatible, joined, push_decimal, push_signed_decimal, same_text};
use rhino::{PvStatus, RhinoError, RhinoErrorStatus};

#[test]
fn error_without_messages_prints_its_kind() {
    let e = RhinoError::new(RhinoErrorStatus::ArgumentError, "bad key".to_string());
    assert_eq!(e.to_string(), "bad key with status 'ArgumentError'");
    assert!(e.message_stack.is_empty());
}

#[test]
fn error_with_messages_prints_one_line_each() {
    let e = RhinoError::new_with_stack(
        RhinoErrorStatus::LibraryError(PvStatus::INVALID_ARGUMENT),
        "'pv_rhino_init' failed".to_string(),
        vec!["first".to_string(), "second".to_string()],
    );
    assert_eq!(
        e.to_string(),
        "'pv_rhino_init' failed with status 'LibraryError(INVALID_ARGUMENT)':  [0] first\n  [1] second\n"
    );
}

#[test]
fn every_kind_prints_its_name() {
    let cases = [
        (RhinoErrorStatus::LibraryLoadError, "m with status 'LibraryLoadError'"),
        (RhinoErrorStatus::FrameLengthError, "m with status 'FrameLengthError'"),
        (RhinoErrorStatus::LibraryError(PvStatus::ACTIVATION_THROTTLED), "m with status 'LibraryError(ACTIVATION_THROTTLED)'"),
    ];
    for (status, text) in cases {
        assert_eq!(RhinoError::new(status, "m".to_string()).to_string(), text);
    }
}

#[test]
fn native_codes_map_to_statuses_and_back() {
    let all = [
        PvStatus::SUCCESS,
        PvStatus::OUT_OF_MEMORY,
        PvStatus::IO_ERROR,
        PvStatus::INVALID_ARGUMENT,
        PvStatus::STOP_ITERATION,
        PvStatus::KEY_ERROR,
        PvStatus::INVALID_STATE,
        PvStatus::RUNTIME_ERROR,
        PvStatus::ACTIVATION_ERROR,
        PvStatus::ACTIVATION_LIMIT_REACHED,
        PvStatus::ACTIVATION_THROTTLED,
        PvStatus::ACTIVATION_REFUSED,
    ];
    for (code, status) in all.iter().enumerate() {
        assert_eq!(PvStatus::from_native(code as i32), *status);
        assert_eq!(status.code(), code as i32);
        assert_eq!(status.is_success(), code == 0);
    }
    assert_eq!(PvStatus::from_native(12), PvStatus::RUNTIME_ERROR);
    assert_eq!(PvStatus::from_native(-1), PvStatus::RUNTIME_ERROR);
    assert_eq!(PvStatus::KEY_ERROR.name(), "KEY_ERROR");
}

#[test]
fn failed_call_carries_status_name_and_messages() {
    let e = call_failed(PvStatus::IO_ERROR, "pv_rhino_process", Ok(vec!["disk".to_string()]));
    assert_eq!(e.status, RhinoErrorStatus::LibraryError(PvStatus::IO_ERROR));
    assert_eq!(e.message, "'pv_rhino_process' failed");
    assert_eq!(e.message_stack, vec!["disk".to_string()]);
    let e = call_failed(PvStatus::IO_ERROR, "pv_rhino_process", Err(PvStatus::KEY_ERROR));
    assert_eq!(e.status, RhinoErrorStatus::LibraryError(PvStatus::KEY_ERROR));
    assert_eq!(e.message, "Unable to get Rhino error state");
    assert!(e.message_stack.is_empty());
}

#[test]
fn load_errors_carry_the_loader_diagnostic() {
    let e = library_load_failed("cannot open");
    assert_eq!(e.status, RhinoErrorStatus::LibraryLoadError);
    assert_eq!(e.message, "Failed to load rhino dynamic library: cannot open");
    let e = symbol_missing("pv_set_sdk", "undefined");
    assert_eq!(e.message, "Failed to load function symbol 'pv_set_sdk' from rhino library: undefined");
}

#[test]
fn decimal_rendering() {
    let mut s = String::from("n=");
    push_decimal(&mut s, 0);
    push_decimal(&mut s, 1907);
    assert_eq!(s, "n=01907");
    let mut s = String::new();
    push_decimal(&mut s, u64::MAX);
    assert_eq!(s, u64::MAX.to_string());
    let mut s = String::new();
    push_signed_decimal(&mut s, -42);
    push_signed_decimal(&mut s, i64::MIN);
    assert_eq!(s, format!("-42{}", i64::MIN));
}

#[test]
fn text_helpers() {
    assert!(c_compatible("plain"));
    assert!(!c_compatible("a\0b"));
    assert_eq!(joined("ab", "cd"), "abcd");
    assert!(same_text("héllo", "héllo"));
    assert!(!same_text("hello", "hell"));
    assert!(!same_text("hello", "hellO"));
}
