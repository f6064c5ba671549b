use ipabuyer_core::appcatalog::search_parser::SearchResult;
use ipabuyer_core::downloads::queue::AddQueueResult;
use ipabuyer_core::downloads::{DownloadQueueItem, DownloadQueueStatus};
use ipabuyer_core::ffi::document::JsonValue;
use ipabuyer_core::ffi::downloads::{
    add_result_code, bundle_id_matches, queue_add_arguments, queue_create_arguments, queue_item,
    queue_remove_arguments, queue_remove_outcome, status_name, QueueItemJson, QueueState,
};
use ipabuyer_core::ffi::sync::{
    log_message_json, sync_create_arguments, sync_outcome_json, SyncState, SyncWorkerEnd,
};
use ipabuyer_core::ffi::{
    handle_argument, status_arguments, LastError, FFI_ERR_FAILED, FFI_ERR_INVALID_ARG, FFI_OK,
};
use ipabuyer_core::ipatool::response_parser::NormalizedText;
use ipabuyer_core::purchases::sync_service::{LogLevel, LogMessage, SyncOutcome};

fn render(value: &JsonValue) -> String {
    match value {
        JsonValue::Null => "null".to_string(),
        JsonValue::Bool(b) => b.to_string(),
        JsonValue::Int(n) => n.to_string(),
        JsonValue::Text(t) => format!("{:?}", t),
        JsonValue::List(items) => {
            let parts: Vec<String> = items.iter().map(render).collect();
            format!("[{}]", parts.join(","))
        }
        JsonValue::Object(keys, values) => {
            let parts: Vec<String> = keys
                .iter()
                .zip(values.iter())
                .map(|(k, v)| format!("{:?}:{}", k, render(v)))
                .collect();
            format!("{{{}}}", parts.join(","))
        }
    }
}

#[test]
fn normalized_text_is_exhaustively_shaped() {
    // 确认 FFI 日志契约的两种形态可被稳定区分。
    let keyed = NormalizedText::Keyed {
        key: "PurchaseSync/Log/Start",
        args: vec!["user".to_string()],
    };
    let raw = LogMessage::raw(LogLevel::Info, "plain".to_string()).message;

    assert!(matches!(keyed, NormalizedText::Keyed { .. }));
    assert!(matches!(raw, NormalizedText::Raw(_)));
}

#[test]
fn log_message_documents() {
    let keyed = LogMessage {
        level: LogLevel::Info,
        message: NormalizedText::Keyed {
            key: "PurchaseSync/Log/Completed",
            args: vec!["100".to_string(), "1753".to_string()],
        },
    };
    assert_eq!(
        render(&log_message_json(&keyed)),
        r#"{"level":"info","message":{"kind":"key","key":"PurchaseSync/Log/Completed","args":["100","1753"]}}"#
    );
    for (level, name) in [
        (LogLevel::Tip, "tip"),
        (LogLevel::Success, "success"),
        (LogLevel::Error, "error"),
        (LogLevel::Ipatool, "ipatool"),
    ] {
        let raw = LogMessage::raw(level, "line".to_string());
        assert_eq!(
            render(&log_message_json(&raw)),
            format!(r#"{{"level":"{}","message":{{"kind":"raw","text":"line"}}}}"#, name)
        );
    }
}

#[test]
fn sync_outcome_documents() {
    assert_eq!(
        render(&sync_outcome_json(&SyncOutcome::Completed { synced: 1, total: 1 })),
        r#"{"kind":"completed","synced":1,"total":1}"#
    );
    assert_eq!(render(&sync_outcome_json(&SyncOutcome::AlreadyRunning)), r#"{"kind":"already_running"}"#);
    assert_eq!(render(&sync_outcome_json(&SyncOutcome::Canceled)), r#"{"kind":"canceled"}"#);
    assert_eq!(render(&sync_outcome_json(&SyncOutcome::InvalidAccount)), r#"{"kind":"invalid_account"}"#);
    assert_eq!(
        render(&sync_outcome_json(&SyncOutcome::Failed { message: "db locked".to_string() })),
        r#"{"kind":"failed","message":"db locked"}"#
    );
}

#[test]
fn sync_state_runs_to_completion() {
    let mut state = SyncState::started();
    assert_eq!(
        render(&state.status_json()),
        r#"{"running":true,"progress":{"synced":0,"total":0},"outcome":null,"logs":[]}"#
    );
    state.record_progress(1, 1);
    state.record_log(&LogMessage::raw(LogLevel::Info, "start".to_string()));
    state.record_log(&LogMessage::raw(LogLevel::Success, "done".to_string()));
    state.end_worker(&SyncWorkerEnd::Done(SyncOutcome::Completed { synced: 1, total: 1 }));
    assert_eq!(
        render(&state.status_json()),
        r#"{"running":false,"progress":{"synced":1,"total":1},"outcome":{"kind":"completed","synced":1,"total":1},"logs":[{"level":"info","message":{"kind":"raw","text":"start"}},{"level":"success","message":{"kind":"raw","text":"done"}}]}"#
    );
}

#[test]
fn sync_state_reports_database_failure_and_panic() {
    let mut state = SyncState::started();
    state.end_worker(&SyncWorkerEnd::DatabaseUnavailable("unable to open database file".to_string()));
    assert_eq!(
        render(&state.status_json()),
        r#"{"running":false,"progress":{"synced":0,"total":0},"outcome":{"kind":"failed","message":"unable to open database file"},"logs":[]}"#
    );
    let mut state = SyncState::started();
    state.record_progress(3, 10);
    state.end_worker(&SyncWorkerEnd::Panicked);
    assert_eq!(
        render(&state.status_json()),
        r#"{"running":false,"progress":{"synced":3,"total":10},"outcome":{"kind":"failed","message":"panic in sync worker"},"logs":[]}"#
    );
}

#[test]
fn sync_state_settles_in_one_step() {
    let mut state = SyncState::started();
    state.record_log(&LogMessage::raw(LogLevel::Error, "canceled".to_string()));
    assert!(render(&state.status_json()).starts_with(r#"{"running":true"#));
    assert!(render(&state.status_json()).contains(r#""outcome":null"#));
    state.end_worker(&SyncWorkerEnd::Done(SyncOutcome::Canceled));
    assert_eq!(
        render(&state.status_json()),
        r#"{"running":false,"progress":{"synced":0,"total":0},"outcome":{"kind":"canceled"},"logs":[{"level":"error","message":{"kind":"raw","text":"canceled"}}]}"#
    );
}

#[test]
fn sync_create_arguments_in_order() {
    let mut slot = LastError::new();
    let res = sync_create_arguments(&mut slot, Some(b"db"), Some(b"exe"), None, None, 0, false);
    assert_eq!(res.err(), Some(FFI_ERR_INVALID_ARG));
    assert_eq!(slot.take(), "invalid argument: passphrase");
    let res = sync_create_arguments(&mut slot, Some(b"db"), Some(b"exe"), Some(b"p"), Some(b"a"), 0, false);
    assert_eq!(res.err(), Some(FFI_ERR_INVALID_ARG));
    assert_eq!(slot.take(), "invalid argument: out_handle");
    let request = sync_create_arguments(&mut slot, Some(b"db"), Some(b"exe"), Some(b"p"), Some(b"user@test.com"), 7, true)
        .ok()
        .unwrap();
    assert_eq!(request.db_path, "db");
    assert_eq!(request.exe_path, "exe");
    assert_eq!(request.passphrase, "p");
    assert_eq!(request.account, "user@test.com");
    assert!(request.detailed_log);
}

#[test]
fn handle_and_status_checks() {
    let mut slot = LastError::new();
    assert_eq!(handle_argument(&mut slot, false), Err(FFI_ERR_INVALID_ARG));
    assert_eq!(slot.take(), "invalid argument: handle");
    assert_eq!(handle_argument(&mut slot, true), Ok(()));
    assert_eq!(status_arguments(&mut slot, true, false), Err(FFI_ERR_INVALID_ARG));
    assert_eq!(slot.take(), "invalid argument: out_json");
    assert_eq!(status_arguments(&mut slot, false, false), Err(FFI_ERR_INVALID_ARG));
    assert_eq!(slot.take(), "invalid argument: handle");
}

#[test]
fn queue_status_names_and_add_codes() {
    assert_eq!(status_name(DownloadQueueStatus::Pending), "Pending");
    assert_eq!(status_name(DownloadQueueStatus::Downloading), "Downloading");
    assert_eq!(status_name(DownloadQueueStatus::Success), "Success");
    assert_eq!(status_name(DownloadQueueStatus::Failed), "Failed");
    assert_eq!(status_name(DownloadQueueStatus::Canceled), "Canceled");
    assert_eq!(add_result_code(AddQueueResult::Added), 0);
    assert_eq!(add_result_code(AddQueueResult::Updated), 1);
    assert_eq!(add_result_code(AddQueueResult::Requeued), 2);
    assert_eq!(add_result_code(AddQueueResult::Ignored), 3);
}

#[test]
fn queue_item_becomes_a_search_result() {
    let item = QueueItemJson {
        bundle_id: "com.e2e.queue".to_string(),
        id: Some("42".to_string()),
        name: Some("E2E App".to_string()),
        developer: Some("Dev".to_string()),
        artwork_url: None,
        price: "free".to_string(),
        version: Some("1.0".to_string()),
    };
    let result: SearchResult = item.into_search_result();
    assert_eq!(result.bundle_id, "com.e2e.queue");
    assert_eq!(result.id.as_deref(), Some("42"));
    assert_eq!(result.name.as_deref(), Some("E2E App"));
    assert_eq!(result.developer.as_deref(), Some("Dev"));
    assert_eq!(result.artwork_url, None);
    assert_eq!(result.price, "free");
    assert_eq!(result.version.as_deref(), Some("1.0"));
    assert_eq!(result.purchased, "");
}

#[test]
fn queue_item_that_did_not_parse_is_refused() {
    let mut slot = LastError::new();
    assert_eq!(queue_item(&mut slot, None).err(), Some(FFI_ERR_INVALID_ARG));
    assert_eq!(slot.take(), "invalid argument: item_json does not match the contract");
}

#[test]
fn queue_arguments_in_order() {
    let mut slot = LastError::new();
    assert_eq!(queue_add_arguments(&mut slot, false, None, false).err(), Some(FFI_ERR_INVALID_ARG));
    assert_eq!(slot.take(), "invalid argument: handle");
    assert_eq!(queue_add_arguments(&mut slot, true, Some(b"{}"), false).err(), Some(FFI_ERR_INVALID_ARG));
    assert_eq!(slot.take(), "invalid argument: out_result");
    assert_eq!(queue_add_arguments(&mut slot, true, Some(b"{}"), true).ok(), Some("{}".to_string()));
    assert_eq!(queue_remove_arguments(&mut slot, None, false).err(), Some(FFI_ERR_INVALID_ARG));
    assert_eq!(slot.take(), "invalid argument: bundle_id");
    let config = queue_create_arguments(&mut slot, Some(b"exe"), Some(b"out"), Some(b"p"), 0, 1, true).ok().unwrap();
    assert_eq!(config.exe_path, "exe");
    assert_eq!(config.output_directory, "out");
    assert_eq!(config.passphrase, "p");
    assert!(!config.is_mock);
    assert!(config.detailed_log);
    assert_eq!(
        queue_create_arguments(&mut slot, Some(b"exe"), None, None, 0, 0, true).err(),
        Some(FFI_ERR_INVALID_ARG)
    );
    assert_eq!(slot.take(), "invalid argument: output_directory");
}

#[test]
fn queue_remove_matches_ignoring_ascii_case() {
    let item = DownloadQueueItem {
        bundle_id: "com.Example.App".to_string(),
        status: DownloadQueueStatus::Pending,
        last_message: String::new(),
    };
    assert!(bundle_id_matches(&item, "COM.example.app"));
    assert!(!bundle_id_matches(&item, "com.example.ap"));
    assert!(!bundle_id_matches(&item, "com.example.apq"));
    let item = DownloadQueueItem {
        bundle_id: "com.Ärger.App".to_string(),
        status: DownloadQueueStatus::Pending,
        last_message: String::new(),
    };
    assert!(bundle_id_matches(&item, "COM.Ärger.app"));
    assert!(!bundle_id_matches(&item, "com.ärger.app"));
    let mut slot = LastError::new();
    assert_eq!(queue_remove_outcome(&mut slot, 1), FFI_OK);
    assert_eq!(queue_remove_outcome(&mut slot, 0), FFI_ERR_FAILED);
    assert_eq!(slot.take(), "no matching item removed");
}

#[test]
fn queue_start_refuses_a_second_start() {
    let mut slot = LastError::new();
    let mut state = QueueState::new();
    assert!(!state.is_started(false));
    assert!(state.is_started(true));
    assert_eq!(state.start(&mut slot, false), FFI_OK);
    assert!(state.is_started(false));
    assert!(render(&state.status_json(&Vec::new())).starts_with(r#"{"running":true,"completed":null"#));
    assert_eq!(state.start(&mut slot, false), FFI_ERR_FAILED);
    assert_eq!(slot.take(), "queue is already started");
    state.finish(1);
    assert!(render(&state.status_json(&Vec::new())).starts_with(r#"{"running":false,"completed":1"#));
    assert_eq!(state.start(&mut slot, true), FFI_ERR_FAILED);
    assert_eq!(state.start(&mut slot, false), FFI_OK);
}

#[test]
fn queue_status_document() {
    let mut state = QueueState::new();
    let items = vec![DownloadQueueItem {
        bundle_id: "com.e2e.queue".to_string(),
        status: DownloadQueueStatus::Success,
        last_message: "Download/Status/Success".to_string(),
    }];
    assert_eq!(
        render(&state.status_json(&Vec::new())),
        r#"{"running":false,"completed":null,"items":[],"logs":[]}"#
    );
    state.record_logs(&vec![
        LogMessage::raw(LogLevel::Ipatool, "ipatool download".to_string()),
        LogMessage::raw(LogLevel::Success, "ok".to_string()),
    ]);
    let mut slot = LastError::new();
    assert_eq!(state.start(&mut slot, false), FFI_OK);
    state.push_log(&LogMessage::raw(LogLevel::Info, "next".to_string()));
    state.finish(1);
    assert_eq!(
        render(&state.status_json(&items)),
        r#"{"running":false,"completed":1,"items":[{"bundle_id":"com.e2e.queue","status":"Success","last_message":"Download/Status/Success"}],"logs":[{"level":"ipatool","message":{"kind":"raw","text":"ipatool download"}},{"level":"success","message":{"kind":"raw","text":"ok"}},{"level":"info","message":{"kind":"raw","text":"next"}}]}"#
    );
}
