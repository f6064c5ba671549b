use ipabuyer_core::auth::login::{LoginResult, LoginStatus, Message};
use ipabuyer_core::ffi::auth::{
    auth_info_arguments, auth_info_result, login_arguments, login_result_json, login_status_name,
    logout_arguments, logout_document, mock_account_arguments, mock_account_document,
    read_login_arguments, AuthInfoReport,
};
use ipabuyer_core::ffi::document::JsonValue;
use ipabuyer_core::ffi::{LastError, FFI_ERR_FAILED, FFI_ERR_INVALID_ARG};
use ipabuyer_core::ipatool::client::ClientError;
use ipabuyer_core::purchases::sync_service::{LogLevel, LogMessage};

fn render(value: &JsonValue) -> String {
    match value {
        JsonValue::Null => "null".to_string(),
        JsonValue::Bool(b) => b.to_string(),
        JsonValue::Int(n) => n.to_string(),
        JsonValue::Text(t) => format!("{:?}", t),
        JsonValue::List(items) => {
            let parts: Vec<String> = items.iter().map(render).collect();
            format!("[{}]", parts.join(","))
        }
        JsonValue::Object(keys, values) => {
            let parts: Vec<String> = keys
                .iter()
                .zip(values.iter())
                .map(|(k, v)| format!("{:?}:{}", k, render(v)))
                .collect();
            format!("{{{}}}", parts.join(","))
        }
    }
}

#[test]
fn login_status_names_match_the_contract() {
    assert_eq!(login_status_name(LoginStatus::Success), "Success");
    assert_eq!(login_status_name(LoginStatus::RequiresTwoFactor), "RequiresTwoFactor");
    assert_eq!(login_status_name(LoginStatus::InvalidCredential), "InvalidCredential");
    assert_eq!(login_status_name(LoginStatus::AuthCodeInvalid), "AuthCodeInvalid");
    assert_eq!(login_status_name(LoginStatus::NetworkError), "NetworkError");
    assert_eq!(login_status_name(LoginStatus::Timeout), "Timeout");
    assert_eq!(login_status_name(LoginStatus::UnknownError), "UnknownError");
}

#[test]
fn login_result_document_with_key_message() {
    let result = LoginResult {
        status: LoginStatus::Success,
        message: Message::Key { key: "LoginService/Status/Success", args: vec![] },
        raw_payload: None,
    };
    assert_eq!(
        render(&login_result_json(&result, &Vec::new())),
        r#"{"status":"Success","message":{"kind":"key","key":"LoginService/Status/Success","args":[]},"raw_payload":null,"logs":[]}"#
    );
}

#[test]
fn login_result_document_with_raw_message() {
    let result = LoginResult {
        status: LoginStatus::RequiresTwoFactor,
        message: Message::Raw("enter the code".to_string()),
        raw_payload: Some("{\"success\":false}".to_string()),
    };
    assert_eq!(
        render(&login_result_json(&result, &Vec::new())),
        r#"{"status":"RequiresTwoFactor","message":{"kind":"raw","text":"enter the code"},"raw_payload":"{\"success\":false}","logs":[]}"#
    );
}

#[test]
fn login_result_document_carries_reported_logs() {
    let result = LoginResult {
        status: LoginStatus::InvalidCredential,
        message: Message::Key { key: "LoginService/Status/InvalidCredential", args: vec!["x".to_string()] },
        raw_payload: Some("bad".to_string()),
    };
    let logs = vec![
        LogMessage::raw(LogLevel::Ipatool, "ipatool auth login --password \"***\"".to_string()),
        LogMessage::raw(LogLevel::Ipatool, "bad".to_string()),
    ];
    assert_eq!(
        render(&login_result_json(&result, &logs)),
        r#"{"status":"InvalidCredential","message":{"kind":"key","key":"LoginService/Status/InvalidCredential","args":["x"]},"raw_payload":"bad","logs":[{"level":"ipatool","message":{"kind":"raw","text":"ipatool auth login --password \"***\""}},{"level":"ipatool","message":{"kind":"raw","text":"bad"}}]}"#
    );
}

#[test]
fn login_arguments_check_cancel_first() {
    let mut slot = LastError::new();
    let res = read_login_arguments(&mut slot, None, None, None, None, None, 0, false);
    assert_eq!(res.err(), Some(FFI_ERR_INVALID_ARG));
    assert_eq!(slot.take(), "invalid argument: cancel");
}

#[test]
fn login_arguments_check_strings_in_order() {
    let mut slot = LastError::new();
    let res = read_login_arguments(
        &mut slot,
        Some(b"ipatool.exe"),
        Some(b"user@test.com"),
        Some(b"secret"),
        None,
        Some(&[0xff]),
        1,
        true,
    );
    assert_eq!(res.err(), Some(FFI_ERR_INVALID_ARG));
    assert_eq!(slot.take(), "invalid argument: auth_code");
}

#[test]
fn login_arguments_read_all_fields() {
    let mut slot = LastError::new();
    let args = login_arguments(
        &mut slot,
        Some(b"ipatool.exe"),
        Some(b"test"),
        Some(b"test"),
        Some(b"000000"),
        Some(b"passphrase"),
        0,
        true,
        true,
    )
    .ok()
    .unwrap();
    assert_eq!(args.exe_path, "ipatool.exe");
    assert_eq!(args.account, "test");
    assert_eq!(args.password, "test");
    assert_eq!(args.auth_code, "000000");
    assert_eq!(args.passphrase, "passphrase");
    assert!(!args.detailed_log);
    assert_eq!(slot.take(), "");
    let args = login_arguments(
        &mut slot,
        Some(b"ipatool.exe"),
        Some(b"user@test.com"),
        Some(b"secret"),
        Some(b"123456"),
        Some(b"passphrase"),
        -1,
        true,
        true,
    )
    .ok()
    .unwrap();
    assert_eq!(args.auth_code, "123456");
    assert!(args.detailed_log);
}

#[test]
fn login_arguments_need_an_output() {
    let mut slot = LastError::new();
    let res = login_arguments(
        &mut slot,
        Some(b"ipatool.exe"),
        Some(b"test"),
        Some(b"test"),
        Some(b"000000"),
        Some(b"passphrase"),
        0,
        true,
        false,
    );
    assert_eq!(res.err(), Some(FFI_ERR_INVALID_ARG));
    assert_eq!(slot.take(), "invalid argument: out_json");
}

#[test]
fn mock_account_arguments_accept_nulls() {
    let mut slot = LastError::new();
    let (username, password) = mock_account_arguments(&mut slot, Some(b"TEST"), None, true).ok().unwrap();
    assert_eq!(username, Some("TEST".to_string()));
    assert_eq!(password, None);
    let res = mock_account_arguments(&mut slot, Some(b"TEST"), Some(&[0xfe]), true);
    assert_eq!(res.err(), Some(FFI_ERR_INVALID_ARG));
    assert_eq!(slot.take(), "invalid argument: password");
    assert_eq!(render(&mock_account_document(true)), "true");
    assert_eq!(render(&mock_account_document(false)), "false");
}

#[test]
fn logout_document_success_only_when_revoked() {
    assert_eq!(render(&logout_document(Ok(true))), r#"{"success":true}"#);
    assert_eq!(render(&logout_document(Ok(false))), r#"{"success":false}"#);
    assert_eq!(render(&logout_document(Err(ClientError::Canceled))), r#"{"success":false}"#);
}

#[test]
fn logout_arguments_in_order() {
    let mut slot = LastError::new();
    assert_eq!(logout_arguments(&mut slot, Some(b"x"), false, false).err(), Some(FFI_ERR_INVALID_ARG));
    assert_eq!(slot.take(), "invalid argument: cancel");
    assert_eq!(logout_arguments(&mut slot, Some(b"x"), true, true).ok(), Some("x".to_string()));
}

#[test]
fn auth_info_arguments_passphrase_optional() {
    let mut slot = LastError::new();
    let (path, passphrase) = auth_info_arguments(&mut slot, Some(b"ipatool"), None, true, true).ok().unwrap();
    assert_eq!(path, "ipatool");
    assert_eq!(passphrase, None);
    assert_eq!(auth_info_arguments(&mut slot, None, None, true, true).err(), Some(FFI_ERR_INVALID_ARG));
    assert_eq!(slot.take(), "invalid argument: exe_path");
}

#[test]
fn auth_info_document_and_cancellation() {
    let mut slot = LastError::new();
    let report = AuthInfoReport {
        payload: "{\"success\":true}".to_string(),
        is_success: true,
        has_explicit_failure: false,
        email: Some("user@example.com".to_string()),
        is_account_missing: false,
    };
    let doc = auth_info_result(&mut slot, Ok(report)).ok().unwrap();
    assert_eq!(
        render(&doc),
        r#"{"payload":"{\"success\":true}","is_success":true,"has_explicit_failure":false,"email":"user@example.com","is_account_missing":false}"#
    );
    let report = AuthInfoReport {
        payload: "no account".to_string(),
        is_success: false,
        has_explicit_failure: true,
        email: None,
        is_account_missing: true,
    };
    let doc = auth_info_result(&mut slot, Ok(report)).ok().unwrap();
    assert_eq!(
        render(&doc),
        r#"{"payload":"no account","is_success":false,"has_explicit_failure":true,"email":null,"is_account_missing":true}"#
    );
    let res = auth_info_result(&mut slot, Err(ClientError::Canceled));
    assert_eq!(res.err(), Some(FFI_ERR_FAILED));
    assert_eq!(slot.take(), "canceled");
}
