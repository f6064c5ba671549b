use ipabuyer_core::ffi::{
    catch, check_arguments, invalid_arg, is_blank, panic_message, read_cstr, read_opt_cstr,
    replace_nul, set_last_error, ArgCheck, CStrError, LastError, PanicPayload,
    FFI_ERR_FAILED, FFI_ERR_INVALID_ARG, FFI_ERR_PANIC, FFI_OK,
};

#[test]
fn status_codes_are_stable() {
    assert_eq!(FFI_OK, 0);
    assert_eq!(FFI_ERR_INVALID_ARG, 1);
    assert_eq!(FFI_ERR_FAILED, 2);
    assert_eq!(FFI_ERR_PANIC, 3);
}

#[test]
fn last_error_is_read_once() {
    let mut slot = LastError::new();
    assert_eq!(slot.take(), "");
    set_last_error(&mut slot, "canceled");
    assert_eq!(slot.take(), "canceled");
    assert_eq!(slot.take(), "");
}

#[test]
fn last_error_keeps_only_the_latest_message() {
    let mut slot = LastError::new();
    set_last_error(&mut slot, "first");
    set_last_error(&mut slot, "second");
    assert_eq!(slot.take(), "second");
}

#[test]
fn last_error_replaces_nul_with_space() {
    let mut slot = LastError::new();
    set_last_error(&mut slot, "a\0b\0");
    assert_eq!(slot.take(), "a b ");
}

#[test]
fn replace_nul_changes_only_nul() {
    assert_eq!(replace_nul("plain"), "plain");
    assert_eq!(replace_nul("\0x\0"), " x ");
    assert_eq!(replace_nul(""), "");
    assert_eq!(replace_nul("数据\0库"), "数据 库");
}

#[test]
fn invalid_arg_names_the_argument() {
    let mut slot = LastError::new();
    assert_eq!(invalid_arg(&mut slot, "path"), FFI_ERR_INVALID_ARG);
    let text = slot.take();
    assert_eq!(text, "invalid argument: path");
    assert!(text.contains("path"));
}

#[test]
fn panic_message_of_each_payload() {
    assert_eq!(panic_message(&PanicPayload::Borrowed("boom".to_string())), "boom");
    assert_eq!(panic_message(&PanicPayload::Owned("index 3".to_string())), "index 3");
    assert_eq!(panic_message(&PanicPayload::Opaque), "unknown panic");
}

#[test]
fn catch_passes_values_through() {
    let mut slot = LastError::new();
    assert_eq!(catch(&mut slot, FFI_ERR_PANIC, Ok(FFI_OK)), FFI_OK);
    assert_eq!(slot.take(), "");
}

#[test]
fn catch_turns_a_panic_into_the_fallback() {
    let mut slot = LastError::new();
    let code = catch(&mut slot, FFI_ERR_PANIC, Err(PanicPayload::Owned("bad state".to_string())));
    assert_eq!(code, FFI_ERR_PANIC);
    assert_eq!(slot.take(), "panic: bad state");
    let code = catch(&mut slot, FFI_ERR_PANIC, Err::<i32, PanicPayload>(PanicPayload::Opaque));
    assert_eq!(code, FFI_ERR_PANIC);
    assert_eq!(slot.take(), "panic: unknown panic");
}

#[test]
fn read_cstr_reports_null_and_bad_utf8() {
    assert_eq!(read_cstr(None), Err(CStrError::NullPointer));
    assert_eq!(read_cstr(Some(&[0xff, 0x41])), Err(CStrError::InvalidUtf8));
    assert_eq!(read_cstr(Some("账户".as_bytes())), Ok("账户".to_string()));
    assert_eq!(read_cstr(Some(b"")), Ok(String::new()));
    assert_eq!(CStrError::NullPointer.text(), "null pointer");
    assert_eq!(CStrError::InvalidUtf8.text(), "invalid utf-8");
}

#[test]
fn read_opt_cstr_maps_null_to_none() {
    assert_eq!(read_opt_cstr(None), Ok(None));
    assert_eq!(read_opt_cstr(Some(b"x")), Ok(Some("x".to_string())));
    assert_eq!(read_opt_cstr(Some(&[0xc3])), Err(CStrError::InvalidUtf8));
}

#[test]
fn check_arguments_reports_the_first_failure() {
    let mut slot = LastError::new();
    let checks = vec![
        ArgCheck { name: "app_id", passed: true },
        ArgCheck { name: "account", passed: false },
        ArgCheck { name: "handle", passed: false },
    ];
    assert_eq!(check_arguments(&mut slot, &checks), Err(FFI_ERR_INVALID_ARG));
    assert_eq!(slot.take(), "invalid argument: account");
}

#[test]
fn check_arguments_leaves_the_slot_when_all_pass() {
    let mut slot = LastError::new();
    set_last_error(&mut slot, "earlier");
    let checks = vec![ArgCheck { name: "handle", passed: true }];
    assert_eq!(check_arguments(&mut slot, &checks), Ok(()));
    assert_eq!(slot.take(), "earlier");
}

#[test]
fn blank_texts() {
    assert!(is_blank(""));
    assert!(is_blank(" \t\r\n"));
    assert!(is_blank("\u{3000}\u{a0}"));
    assert!(!is_blank("  {} "));
    assert!(is_blank("\u{85}\u{1680}\u{2000}\u{200a}\u{2028}\u{2029}\u{202f}\u{205f}\u{b}\u{c}"));
    assert!(!is_blank("\u{200b}"));
    assert!(!is_blank("\u{feff}"));
}
