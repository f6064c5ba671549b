use ipabuyer_core::appcatalog::search_parser::SearchResult;
use ipabuyer_core::ffi::catalog::{
    catalog_items_result, catalog_search_arguments, check_catalog_response, PurchasedAppJson,
    PurchasedLookup,
};
use ipabuyer_core::ffi::db::{
    account_query_arguments, app_status_arguments, bulk_mark_arguments, clear_apps_arguments,
    db_document_outcome, db_outcome, open_arguments, optional_text_document,
    purchased_apps_document, remove_app_arguments, save_app_arguments, sync_attempt_arguments,
    total_count_arguments,
};
use ipabuyer_core::ffi::document::JsonValue;
use ipabuyer_core::ffi::purchase::{
    interpretable_payload, purchase_arguments, purchase_document, purchase_outcome_name,
    purchase_payload, reported_logs,
};
use ipabuyer_core::ffi::{LastError, FFI_ERR_FAILED, FFI_ERR_INVALID_ARG, FFI_OK};
use ipabuyer_core::ipatool::client::ClientError;
use ipabuyer_core::purchases::response_interpreter::PurchaseOutcome;
use ipabuyer_core::purchases::sync_service::{LogLevel, LogMessage};

fn render(value: &JsonValue) -> String {
    match value {
        JsonValue::Null => "null".to_string(),
        JsonValue::Bool(b) => b.to_string(),
        JsonValue::Int(n) => n.to_string(),
        JsonValue::Text(t) => format!("{:?}", t),
        JsonValue::List(items) => {
            let parts: Vec<String> = items.iter().map(render).collect();
            format!("[{}]", parts.join(","))
        }
        JsonValue::Object(keys, values) => {
            let parts: Vec<String> = keys
                .iter()
                .zip(values.iter())
                .map(|(k, v)| format!("{:?}:{}", k, render(v)))
                .collect();
            format!("{{{}}}", parts.join(","))
        }
    }
}

fn record(app_id: &str, status: &str) -> PurchasedAppJson {
    PurchasedAppJson { app_id: app_id.to_string(), status: status.to_string() }
}

#[test]
fn purchase_outcome_names() {
    assert_eq!(purchase_outcome_name(PurchaseOutcome::Skipped), "Skipped");
    assert_eq!(purchase_outcome_name(PurchaseOutcome::Purchased), "Purchased");
    assert_eq!(purchase_outcome_name(PurchaseOutcome::AlreadyOwned), "AlreadyOwned");
    assert_eq!(
        purchase_outcome_name(PurchaseOutcome::NeedsOwnedConfirmation),
        "NeedsOwnedConfirmation"
    );
    assert_eq!(purchase_outcome_name(PurchaseOutcome::Failed), "Failed");
}

#[test]
fn purchase_arguments_in_order() {
    let mut slot = LastError::new();
    let res = purchase_arguments(&mut slot, Some(b"exe"), Some(b"com.e2e.purchase"), Some(b"p"), 1, false, true);
    assert_eq!(res.err(), Some(FFI_ERR_INVALID_ARG));
    assert_eq!(slot.take(), "invalid argument: cancel");
    let request = purchase_arguments(&mut slot, Some(b"exe"), Some(b"com.e2e.purchase"), Some(b"p"), 1, true, true)
        .ok()
        .unwrap();
    assert_eq!(request.bundle_id, "com.e2e.purchase");
    assert!(request.detailed_log);
}

#[test]
fn purchase_cancellation_fails_with_canceled() {
    let mut slot = LastError::new();
    assert_eq!(purchase_payload(&mut slot, Err(ClientError::Canceled)).err(), Some(FFI_ERR_FAILED));
    assert_eq!(slot.take(), "canceled");
    assert_eq!(purchase_payload(&mut slot, Ok("x".to_string())).ok(), Some("x".to_string()));
}

#[test]
fn blank_payload_is_not_interpreted() {
    assert_eq!(interpretable_payload("  \r\n"), None);
    assert_eq!(interpretable_payload(""), None);
    assert_eq!(
        interpretable_payload(" {\"success\":true} "),
        Some(" {\"success\":true} ".to_string())
    );
}

#[test]
fn purchase_document_with_logs() {
    let logs = reported_logs(true, vec![LogMessage::raw(LogLevel::Ipatool, "ipatool purchase".to_string())]);
    let doc = purchase_document(PurchaseOutcome::Purchased, "{\"success\":true}", &logs);
    assert_eq!(
        render(&doc),
        r#"{"outcome":"Purchased","raw_payload":"{\"success\":true}","logs":[{"level":"ipatool","message":{"kind":"raw","text":"ipatool purchase"}}]}"#
    );
    let silent = reported_logs(false, vec![LogMessage::raw(LogLevel::Ipatool, "x".to_string())]);
    assert!(silent.is_empty());
    let doc = purchase_document(PurchaseOutcome::Failed, "", &silent);
    assert_eq!(render(&doc), r#"{"outcome":"Failed","raw_payload":"","logs":[]}"#);
}

#[test]
fn purchased_lookup_later_records_win() {
    let lookup = PurchasedLookup::from_entries(Some(vec![
        record("com.a", "purchased"),
        record("com.b", "not_purchased"),
        record("com.a", "not_purchased"),
    ]));
    assert_eq!(lookup.status_of(&"com.a".to_string()), Some("not_purchased".to_string()));
    assert_eq!(lookup.status_of(&"com.b".to_string()), Some("not_purchased".to_string()));
    assert_eq!(lookup.status_of(&"com.c".to_string()), None);
    let empty = PurchasedLookup::from_entries(None);
    assert_eq!(empty.status_of(&"com.a".to_string()), None);
}

#[test]
fn unreadable_purchase_list_is_ignored() {
    // Text such as "oops" or "{}" reads as no list, as a NULL list does.
    let unreadable = PurchasedLookup::from_entries(None);
    let missing = PurchasedLookup::from_entries(None);
    for app_id in ["com.a", "", "com.e2e"] {
        assert_eq!(unreadable.status_of(&app_id.to_string()), None);
        assert_eq!(missing.status_of(&app_id.to_string()), None);
    }
}

#[test]
fn catalog_arguments_default_country() {
    let mut slot = LastError::new();
    let query = catalog_search_arguments(&mut slot, Some(b"wechat"), None, None, true).ok().unwrap();
    assert_eq!(query.name, "wechat");
    assert_eq!(query.country, "");
    assert_eq!(query.purchased_apps_json, None);
    let query = catalog_search_arguments(&mut slot, Some(b"wechat"), Some(b"cn"), Some(b"[]"), true).ok().unwrap();
    assert_eq!(query.country, "cn");
    assert_eq!(query.purchased_apps_json, Some("[]".to_string()));
    assert_eq!(catalog_search_arguments(&mut slot, None, None, None, true).err(), Some(FFI_ERR_INVALID_ARG));
    assert_eq!(slot.take(), "invalid argument: name");
}

#[test]
fn catalog_response_checks() {
    let mut slot = LastError::new();
    assert_eq!(check_catalog_response(&mut slot, true, "{}"), Err(FFI_ERR_FAILED));
    assert_eq!(slot.take(), "catalog search timed out");
    assert_eq!(check_catalog_response(&mut slot, false, " \n"), Err(FFI_ERR_FAILED));
    assert_eq!(slot.take(), "empty catalog response");
    assert_eq!(check_catalog_response(&mut slot, false, "{}"), Ok(()));
    assert_eq!(catalog_items_result(&mut slot, None).err(), Some(FFI_ERR_FAILED));
    assert_eq!(slot.take(), "invalid catalog response");
}

#[test]
fn catalog_items_document() {
    let mut slot = LastError::new();
    let result = SearchResult {
        bundle_id: "com.a".to_string(),
        id: Some("1".to_string()),
        name: Some("A".to_string()),
        developer: None,
        artwork_url: Some("https://x/a.png".to_string()),
        price: "free".to_string(),
        version: Some("1.0".to_string()),
        purchased: "purchased".to_string(),
    };
    let doc = catalog_items_result(&mut slot, Some(vec![result])).ok().unwrap();
    assert_eq!(
        render(&doc),
        r#"[{"bundle_id":"com.a","id":"1","name":"A","developer":null,"artwork_url":"https://x/a.png","price":"free","version":"1.0","purchased":"purchased"}]"#
    );
}

#[test]
fn db_outcomes() {
    let mut slot = LastError::new();
    assert_eq!(db_outcome(&mut slot, Ok(())), FFI_OK);
    assert_eq!(db_outcome(&mut slot, Err("database is locked".to_string())), FFI_ERR_FAILED);
    assert_eq!(slot.take(), "database is locked");
    assert_eq!(
        db_document_outcome(&mut slot, Err("disk I/O error".to_string())).err(),
        Some(FFI_ERR_FAILED)
    );
    assert_eq!(slot.take(), "disk I/O error");
    let doc = db_document_outcome(&mut slot, Ok(JsonValue::Null)).ok().unwrap();
    assert_eq!(render(&doc), "null");
}

#[test]
fn db_documents() {
    let apps = vec![
        ("com.e2e".to_string(), "purchased".to_string()),
        ("com.other".to_string(), "purchased".to_string()),
    ];
    assert_eq!(
        render(&purchased_apps_document(&apps)),
        r#"[{"app_id":"com.e2e","status":"purchased"},{"app_id":"com.other","status":"purchased"}]"#
    );
    assert_eq!(render(&optional_text_document(&None)), "null");
    assert_eq!(
        render(&optional_text_document(&Some("2025-01-01T00:00:00Z".to_string()))),
        r#""2025-01-01T00:00:00Z""#
    );
}

#[test]
fn invalid_open_path_is_reported() {
    let mut slot = LastError::new();
    assert_eq!(open_arguments(&mut slot, None, true).err(), Some(FFI_ERR_INVALID_ARG));
    let text = slot.take();
    assert!(text.contains("path"), "last error should mention the argument: {text}");
    assert_eq!(open_arguments(&mut slot, Some(b"/tmp/a.db"), true).ok(), Some("/tmp/a.db".to_string()));
}

#[test]
fn db_arguments_check_the_handle_last() {
    let mut slot = LastError::new();
    let args = save_app_arguments(&mut slot, Some(b"com.e2e"), Some(b"user@test.com"), None, true).ok().unwrap();
    assert_eq!(args.app_id, "com.e2e");
    assert_eq!(args.account, "user@test.com");
    assert_eq!(args.status, None);
    assert_eq!(save_app_arguments(&mut slot, Some(b"com.e2e"), None, None, false).err(), Some(FFI_ERR_INVALID_ARG));
    assert_eq!(slot.take(), "invalid argument: account");
    assert_eq!(save_app_arguments(&mut slot, Some(b"com.e2e"), Some(b"u"), Some(b"x"), false).err(), Some(FFI_ERR_INVALID_ARG));
    assert_eq!(slot.take(), "invalid argument: handle");
    assert_eq!(account_query_arguments(&mut slot, Some(b"u"), false, false).err(), Some(FFI_ERR_INVALID_ARG));
    assert_eq!(slot.take(), "invalid argument: out_json");
    assert_eq!(app_status_arguments(&mut slot, Some(b"a"), Some(b"u"), true, true).ok(), Some(("a".to_string(), "u".to_string())));
    assert_eq!(remove_app_arguments(&mut slot, None, Some(b"u"), true).err(), Some(FFI_ERR_INVALID_ARG));
    assert_eq!(slot.take(), "invalid argument: app_id");
    assert_eq!(clear_apps_arguments(&mut slot, None, true).ok(), Some(None));
    assert_eq!(total_count_arguments(&mut slot, None, false, true).err(), Some(FFI_ERR_INVALID_ARG));
    assert_eq!(slot.take(), "invalid argument: out_count");
    let attempt = sync_attempt_arguments(&mut slot, Some(b"u"), -1, true).ok().unwrap();
    assert!(attempt.succeeded);
    let attempt = sync_attempt_arguments(&mut slot, Some(b"u"), 0, true).ok().unwrap();
    assert!(!attempt.succeeded);
}

#[test]
fn bulk_mark_parses_a_string_array() {
    let mut slot = LastError::new();
    let args = bulk_mark_arguments(&mut slot, Some(br#"["com.e2e", "com.other"]"#), Some(b"user@test.com"), true)
        .ok()
        .unwrap();
    assert_eq!(args.bundle_ids, vec!["com.e2e".to_string(), "com.other".to_string()]);
    assert_eq!(args.account, "user@test.com");
    assert_eq!(
        bulk_mark_arguments(&mut slot, Some(br#"{"a":1}"#), Some(b"u"), true).err(),
        Some(FFI_ERR_INVALID_ARG)
    );
    assert_eq!(slot.take(), "invalid argument: bundle_ids_json is not a JSON string array");
    assert_eq!(
        bulk_mark_arguments(&mut slot, Some(br#"["a"]"#), Some(b"u"), false).err(),
        Some(FFI_ERR_INVALID_ARG)
    );
    assert_eq!(slot.take(), "invalid argument: handle");
    assert_eq!(
        bulk_mark_arguments(&mut slot, Some(b"not json"), Some(b"u"), false).err(),
        Some(FFI_ERR_INVALID_ARG)
    );
    assert_eq!(slot.take(), "invalid argument: bundle_ids_json is not a JSON string array");
}
