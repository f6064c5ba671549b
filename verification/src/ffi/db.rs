//! Purchased-apps database calls: the arguments of each call, how a
//! database result becomes a status code, and the documents the host
//! receives.
//!
//! Documents: the purchased apps are `[{"app_id":..,"status":..}, ..]`, an
//! app's status is a status text or `null`, the last successful
//! synchronisation is an RFC 3339 time or `null`. `bulk_mark_purchased`
//! takes its bundle ids as a JSON array of strings. A failed database
//! operation is reported with the database's own description.

use vstd::prelude::*;

use crate::ffi::document::{
    distinct_keys, has_member, is_list_of, lemma_object_member, object, optional_text_json,
    string_views, views, Json, JsonValue, ObjectBuilder,
};
use crate::ffi::{
    arg, check_arguments, checked, first_failure, invalid_arg, invalid_argument_text,
    lemma_first_failure_none, opt_view, optional_readable, optional_text_of, read_cstr,
    read_opt_cstr, readable, set_last_error, text_of, without_nul, ArgCheck, LastError,
    FFI_ERR_FAILED, FFI_ERR_INVALID_ARG, FFI_OK,
};

verus! {

// ---------------------------------------------------------------------------
// Database results
// ---------------------------------------------------------------------------

/// The status code of a database operation that hands nothing back:
/// success, or a failure whose description becomes the last error.
pub fn db_outcome(slot: &mut LastError, outcome: Result<(), String>) -> (code: i32)
    ensures
        outcome is Ok ==> code == FFI_OK && final(slot)@ == old(slot)@,
        outcome matches Err(message) ==> code == FFI_ERR_FAILED && final(slot)@ == Some(
            without_nul(message@),
        ),
{
    match outcome {
        Ok(()) => FFI_OK,
        Err(message) => {
            set_last_error(slot, message.as_str());
            FFI_ERR_FAILED
        },
    }
}

/// The result of a database operation that hands back a document: the
/// document, or a failure whose description becomes the last error.
pub fn db_document_outcome(slot: &mut LastError, outcome: Result<JsonValue, String>) -> (res:
    Result<JsonValue, i32>)
    ensures
        outcome matches Ok(doc) ==> res == Ok::<JsonValue, i32>(doc) && final(slot)@ == old(
            slot,
        )@,
        outcome matches Err(message) ==> res == Err::<JsonValue, i32>(FFI_ERR_FAILED)
            && final(slot)@ == Some(without_nul(message@)),
{
    match outcome {
        Ok(doc) => Ok(doc),
        Err(message) => {
            set_last_error(slot, message.as_str());
            Err(FFI_ERR_FAILED)
        },
    }
}

// ---------------------------------------------------------------------------
// Documents
// ---------------------------------------------------------------------------

/// One purchased app as JSON.
pub open spec fn purchased_app_doc(app: (String, String)) -> Json {
    object(seq![("app_id"@, Json::Text(app.0@)), ("status"@, Json::Text(app.1@))])
}

/// The purchased apps of an account, as a JSON list in the order given.
pub open spec fn purchased_apps_doc(apps: Seq<(String, String)>) -> Json {
    Json::List(apps.map_values(|app: (String, String)| purchased_app_doc(app)))
}

/// The purchased-apps document lists every app once, in the order given,
/// each with its own app id and status.
pub proof fn law_purchased_apps_members(apps: Seq<(String, String)>, app: (String, String))
    ensures
        is_list_of(
            purchased_apps_doc(apps),
            Seq::new(apps.len(), |i: int| purchased_app_doc(apps[i])),
        ),
        has_member(purchased_app_doc(app), "app_id"@, Json::Text(app.0@)),
        has_member(purchased_app_doc(app), "status"@, Json::Text(app.1@)),
{
    reveal_strlit("app_id");
    reveal_strlit("status");
    let m = seq![("app_id"@, Json::Text(app.0@)), ("status"@, Json::Text(app.1@))];
    assert(m[0].0[0] == 'a' && m[1].0[0] == 's');
    assert(distinct_keys(m));
    lemma_object_member(m, 0);
    lemma_object_member(m, 1);
}

/// The purchased apps (app id, status) as a JSON document.
pub fn purchased_apps_document(apps: &Vec<(String, String)>) -> (res: JsonValue)
    ensures
        res@ == purchased_apps_doc(apps@),
{
    let mut docs: Vec<JsonValue> = Vec::new();
    for i in 0..apps.len()
        invariant
            docs@.len() == i,
            forall|j: int| 0 <= j < i ==> #[trigger] docs@[j]@ == purchased_app_doc(apps@[j]),
    {
        let mut doc = ObjectBuilder::new();
        doc.field("app_id", JsonValue::text(apps[i].0.as_str()));
        doc.field("status", JsonValue::text(apps[i].1.as_str()));
        let ghost members = doc@;
        assert(members =~= seq![
            ("app_id"@, Json::Text(apps@[i as int].0@)),
            ("status"@, Json::Text(apps@[i as int].1@)),
        ]);
        docs.push(doc.build());
    }
    assert(views(docs@) =~= apps@.map_values(|app: (String, String)| purchased_app_doc(app)));
    JsonValue::list(docs)
}

/// An optional text as a document: the text, or `null`. This is the
/// document of an app's status as the database returns it and of the last
/// successful synchronisation time.
pub fn optional_text_document(value: &Option<String>) -> (res: JsonValue)
    ensures
        res@ == optional_text_json(opt_view(*value)),
{
    JsonValue::optional_text(value)
}

// ---------------------------------------------------------------------------
// Parsing the bundle ids of bulk_mark_purchased
// ---------------------------------------------------------------------------

/// The strings of a JSON array of strings, or `None` when the text is not
/// one; as serde_json reads it.
pub uninterp spec fn json_string_array(text: Seq<char>) -> Option<Seq<Seq<char>>>;

/// The error type of serde_json.
#[verifier::external_type_specification]
#[verifier::external_body]
pub struct ExJsonError(serde_json::Error);

/// Parses a JSON array of strings.
/// Trusted: `serde_json::from_str::<Vec<String>>`, a function of the text
/// alone; its result is the name `json_string_array`, which is not spelled
/// out here.
#[verifier::external_body]
fn parse_string_array(text: &str) -> (res: Result<Vec<String>, serde_json::Error>)
    ensures
        res is Ok <==> json_string_array(text@) is Some,
        res matches Ok(values) ==> json_string_array(text@) == Some(string_views(values@)),
{
    serde_json::from_str::<Vec<String>>(text)
}

// ---------------------------------------------------------------------------
// Arguments
// ---------------------------------------------------------------------------

/// The checks of `db_open`, in call order.
pub open spec fn open_checks(path: Option<&[u8]>, out_handle_present: bool) -> Seq<ArgCheck> {
    seq![arg("path", readable(path)), arg("out_handle", out_handle_present)]
}

/// Reads the arguments of `db_open`: the database path.
pub fn open_arguments(slot: &mut LastError, path: Option<&[u8]>, out_handle_present: bool) -> (res:
    Result<String, i32>)
    ensures
        checked(res, old(slot)@, final(slot)@, first_failure(open_checks(path, out_handle_present))),
        res matches Ok(text) ==> text@ == text_of(path),
{
    let path_text = read_cstr(path);
    let checks = vec![
        ArgCheck { name: "path", passed: path_text.is_ok() },
        ArgCheck { name: "out_handle", passed: out_handle_present },
    ];
    assert(checks@ =~= open_checks(path, out_handle_present));
    match check_arguments(slot, &checks) {
        Err(code) => Err(code),
        Ok(()) => {
            proof {
                lemma_first_failure_none(checks@);
                assert(checks@[0].passed);
            }
            Ok(path_text.unwrap())
        },
    }
}

/// A record to save: app id, account and the status (purchased when none).
pub struct SaveAppArguments {
    pub app_id: String,
    pub account: String,
    pub status: Option<String>,
}

/// The checks of `db_save_purchased_app`, in call order: the handle last.
pub open spec fn save_app_checks(
    app_id: Option<&[u8]>,
    account: Option<&[u8]>,
    status: Option<&[u8]>,
    handle_present: bool,
) -> Seq<ArgCheck> {
    seq![
        arg("app_id", readable(app_id)),
        arg("account", readable(account)),
        arg("status", optional_readable(status)),
        arg("handle", handle_present),
    ]
}

/// Reads the arguments of `db_save_purchased_app`.
pub fn save_app_arguments(
    slot: &mut LastError,
    app_id: Option<&[u8]>,
    account: Option<&[u8]>,
    status: Option<&[u8]>,
    handle_present: bool,
) -> (res: Result<SaveAppArguments, i32>)
    ensures
        checked(
            res,
            old(slot)@,
            final(slot)@,
            first_failure(save_app_checks(app_id, account, status, handle_present)),
        ),
        res matches Ok(args) ==> {
            &&& args.app_id@ == text_of(app_id)
            &&& args.account@ == text_of(account)
            &&& opt_view(args.status) == optional_text_of(status)
        },
{
    let app_id_text = read_cstr(app_id);
    let account_text = read_cstr(account);
    let status_text = read_opt_cstr(status);
    let checks = vec![
        ArgCheck { name: "app_id", passed: app_id_text.is_ok() },
        ArgCheck { name: "account", passed: account_text.is_ok() },
        ArgCheck { name: "status", passed: status_text.is_ok() },
        ArgCheck { name: "handle", passed: handle_present },
    ];
    assert(checks@ =~= save_app_checks(app_id, account, status, handle_present));
    match check_arguments(slot, &checks) {
        Err(code) => Err(code),
        Ok(()) => {
            proof {
                lemma_first_failure_none(checks@);
                assert(checks@[0].passed && checks@[1].passed && checks@[2].passed);
            }
            Ok(
                SaveAppArguments {
                    app_id: app_id_text.unwrap(),
                    account: account_text.unwrap(),
                    status: status_text.unwrap(),
                },
            )
        },
    }
}

/// The checks of a call that reads an account's data into a document
/// (`db_get_purchased_apps`, `db_get_last_sync_utc`), in call order.
pub open spec fn account_query_checks(
    account: Option<&[u8]>,
    out_json_present: bool,
    handle_present: bool,
) -> Seq<ArgCheck> {
    seq![
        arg("account", readable(account)),
        arg("out_json", out_json_present),
        arg("handle", handle_present),
    ]
}

/// Reads the arguments of `db_get_purchased_apps` and
/// `db_get_last_sync_utc`: the account.
pub fn account_query_arguments(
    slot: &mut LastError,
    account: Option<&[u8]>,
    out_json_present: bool,
    handle_present: bool,
) -> (res: Result<String, i32>)
    ensures
        checked(
            res,
            old(slot)@,
            final(slot)@,
            first_failure(account_query_checks(account, out_json_present, handle_present)),
        ),
        res matches Ok(text) ==> text@ == text_of(account),
{
    let account_text = read_cstr(account);
    let checks = vec![
        ArgCheck { name: "account", passed: account_text.is_ok() },
        ArgCheck { name: "out_json", passed: out_json_present },
        ArgCheck { name: "handle", passed: handle_present },
    ];
    assert(checks@ =~= account_query_checks(account, out_json_present, handle_present));
    match check_arguments(slot, &checks) {
        Err(code) => Err(code),
        Ok(()) => {
            proof {
                lemma_first_failure_none(checks@);
                assert(checks@[0].passed);
            }
            Ok(account_text.unwrap())
        },
    }
}

/// The checks of `db_get_app_status`, in call order.
pub open spec fn app_status_checks(
    app_id: Option<&[u8]>,
    account: Option<&[u8]>,
    out_json_present: bool,
    handle_present: bool,
) -> Seq<ArgCheck> {
    seq![
        arg("app_id", readable(app_id)),
        arg("account", readable(account)),
        arg("out_json", out_json_present),
        arg("handle", handle_present),
    ]
}

/// Reads the arguments of `db_get_app_status`: app id and account.
pub fn app_status_arguments(
    slot: &mut LastError,
    app_id: Option<&[u8]>,
    account: Option<&[u8]>,
    out_json_present: bool,
    handle_present: bool,
) -> (res: Result<(String, String), i32>)
    ensures
        checked(
            res,
            old(slot)@,
            final(slot)@,
            first_failure(app_status_checks(app_id, account, out_json_present, handle_present)),
        ),
        res matches Ok(args) ==> args.0@ == text_of(app_id) && args.1@ == text_of(account),
{
    let app_id_text = read_cstr(app_id);
    let account_text = read_cstr(account);
    let checks = vec![
        ArgCheck { name: "app_id", passed: app_id_text.is_ok() },
        ArgCheck { name: "account", passed: account_text.is_ok() },
        ArgCheck { name: "out_json", passed: out_json_present },
        ArgCheck { name: "handle", passed: handle_present },
    ];
    assert(checks@ =~= app_status_checks(app_id, account, out_json_present, handle_present));
    match check_arguments(slot, &checks) {
        Err(code) => Err(code),
        Ok(()) => {
            proof {
                lemma_first_failure_none(checks@);
                assert(checks@[0].passed && checks@[1].passed);
            }
            Ok((app_id_text.unwrap(), account_text.unwrap()))
        },
    }
}

/// The checks of `db_remove_purchased_app`, in call order.
pub open spec fn remove_app_checks(
    app_id: Option<&[u8]>,
    account: Option<&[u8]>,
    handle_present: bool,
) -> Seq<ArgCheck> {
    seq![
        arg("app_id", readable(app_id)),
        arg("account", readable(account)),
        arg("handle", handle_present),
    ]
}

/// Reads the arguments of `db_remove_purchased_app`: app id and account.
pub fn remove_app_arguments(
    slot: &mut LastError,
    app_id: Option<&[u8]>,
    account: Option<&[u8]>,
    handle_present: bool,
) -> (res: Result<(String, String), i32>)
    ensures
        checked(
            res,
            old(slot)@,
            final(slot)@,
            first_failure(remove_app_checks(app_id, account, handle_present)),
        ),
        res matches Ok(args) ==> args.0@ == text_of(app_id) && args.1@ == text_of(account),
{
    let app_id_text = read_cstr(app_id);
    let account_text = read_cstr(account);
    let checks = vec![
        ArgCheck { name: "app_id", passed: app_id_text.is_ok() },
        ArgCheck { name: "account", passed: account_text.is_ok() },
        ArgCheck { name: "handle", passed: handle_present },
    ];
    assert(checks@ =~= remove_app_checks(app_id, account, handle_present));
    match check_arguments(slot, &checks) {
        Err(code) => Err(code),
        Ok(()) => {
            proof {
                lemma_first_failure_none(checks@);
                assert(checks@[0].passed && checks@[1].passed);
            }
            Ok((app_id_text.unwrap(), account_text.unwrap()))
        },
    }
}

/// The checks of `db_clear_purchased_apps`: the account is optional (none
/// clears every account).
pub open spec fn clear_apps_checks(account: Option<&[u8]>, handle_present: bool) -> Seq<ArgCheck> {
    seq![arg("account", optional_readable(account)), arg("handle", handle_present)]
}

/// Reads the arguments of `db_clear_purchased_apps`: the optional account.
pub fn clear_apps_arguments(slot: &mut LastError, account: Option<&[u8]>, handle_present: bool) -> (res:
    Result<Option<String>, i32>)
    ensures
        checked(
            res,
            old(slot)@,
            final(slot)@,
            first_failure(clear_apps_checks(account, handle_present)),
        ),
        res matches Ok(value) ==> opt_view(value) == optional_text_of(account),
{
    let account_text = read_opt_cstr(account);
    let checks = vec![
        ArgCheck { name: "account", passed: account_text.is_ok() },
        ArgCheck { name: "handle", passed: handle_present },
    ];
    assert(checks@ =~= clear_apps_checks(account, handle_present));
    match check_arguments(slot, &checks) {
        Err(code) => Err(code),
        Ok(()) => {
            proof {
                lemma_first_failure_none(checks@);
                assert(checks@[0].passed);
            }
            Ok(account_text.unwrap())
        },
    }
}

/// The checks of `db_get_total_count`: the account is optional (none counts
/// every account).
pub open spec fn total_count_checks(
    account: Option<&[u8]>,
    out_count_present: bool,
    handle_present: bool,
) -> Seq<ArgCheck> {
    seq![
        arg("account", optional_readable(account)),
        arg("out_count", out_count_present),
        arg("handle", handle_present),
    ]
}

/// Reads the arguments of `db_get_total_count`: the optional account.
pub fn total_count_arguments(
    slot: &mut LastError,
    account: Option<&[u8]>,
    out_count_present: bool,
    handle_present: bool,
) -> (res: Result<Option<String>, i32>)
    ensures
        checked(
            res,
            old(slot)@,
            final(slot)@,
            first_failure(total_count_checks(account, out_count_present, handle_present)),
        ),
        res matches Ok(value) ==> opt_view(value) == optional_text_of(account),
{
    let account_text = read_opt_cstr(account);
    let checks = vec![
        ArgCheck { name: "account", passed: account_text.is_ok() },
        ArgCheck { name: "out_count", passed: out_count_present },
        ArgCheck { name: "handle", passed: handle_present },
    ];
    assert(checks@ =~= total_count_checks(account, out_count_present, handle_present));
    match check_arguments(slot, &checks) {
        Err(code) => Err(code),
        Ok(()) => {
            proof {
                lemma_first_failure_none(checks@);
                assert(checks@[0].passed);
            }
            Ok(account_text.unwrap())
        },
    }
}

/// The bundle ids to mark as purchased for an account.
pub struct BulkMarkArguments {
    pub bundle_ids: Vec<String>,
    pub account: String,
}

/// The message with which bundle ids that are no JSON array of strings are
/// refused.
pub open spec fn bundle_ids_mismatch_text() -> Seq<char> {
    invalid_argument_text("bundle_ids_json is not a JSON string array"@)
}

/// The checks of `db_bulk_mark_purchased` that come before its bundle ids
/// are parsed.
pub open spec fn bulk_mark_checks(bundle_ids_json: Option<&[u8]>, account: Option<&[u8]>) -> Seq<
    ArgCheck,
> {
    seq![arg("bundle_ids_json", readable(bundle_ids_json)), arg("account", readable(account))]
}

/// Reads the arguments of `db_bulk_mark_purchased`: the two strings are
/// read, then the bundle ids are parsed as a JSON array of strings, then the
/// handle is checked.
pub fn bulk_mark_arguments(
    slot: &mut LastError,
    bundle_ids_json: Option<&[u8]>,
    account: Option<&[u8]>,
    handle_present: bool,
) -> (res: Result<BulkMarkArguments, i32>)
    ensures
        first_failure(bulk_mark_checks(bundle_ids_json, account)) is Some ==> checked(
            res,
            old(slot)@,
            final(slot)@,
            first_failure(bulk_mark_checks(bundle_ids_json, account)),
        ),
        first_failure(bulk_mark_checks(bundle_ids_json, account)) is None && json_string_array(
            text_of(bundle_ids_json),
        ) is None ==> res == Err::<BulkMarkArguments, i32>(FFI_ERR_INVALID_ARG) && final(slot)@
            == Some(without_nul(bundle_ids_mismatch_text())),
        first_failure(bulk_mark_checks(bundle_ids_json, account)) is None && json_string_array(
            text_of(bundle_ids_json),
        ) is Some ==> checked(
            res,
            old(slot)@,
            final(slot)@,
            first_failure(seq![arg("handle", handle_present)]),
        ),
        res matches Ok(args) ==> {
            &&& json_string_array(text_of(bundle_ids_json)) == Some(string_views(args.bundle_ids@))
            &&& args.account@ == text_of(account)
        },
{
    let ids_text = read_cstr(bundle_ids_json);
    let account_text = read_cstr(account);
    let checks = vec![
        ArgCheck { name: "bundle_ids_json", passed: ids_text.is_ok() },
        ArgCheck { name: "account", passed: account_text.is_ok() },
    ];
    assert(checks@ =~= bulk_mark_checks(bundle_ids_json, account));
    if let Err(code) = check_arguments(slot, &checks) {
        return Err(code);
    }
    proof {
        lemma_first_failure_none(checks@);
        assert(checks@[0].passed && checks@[1].passed);
    }
    let ids_text = ids_text.unwrap();
    let bundle_ids = match parse_string_array(ids_text.as_str()) {
        Ok(ids) => ids,
        Err(_) => {
            return Err(invalid_arg(slot, "bundle_ids_json is not a JSON string array"));
        },
    };
    let handle_check = vec![ArgCheck { name: "handle", passed: handle_present }];
    assert(handle_check@ =~= seq![arg("handle", handle_present)]);
    match check_arguments(slot, &handle_check) {
        Err(code) => Err(code),
        Ok(()) => Ok(BulkMarkArguments { bundle_ids, account: account_text.unwrap() }),
    }
}

/// An account's synchronisation attempt to record.
pub struct SyncAttemptArguments {
    pub account: String,
    pub succeeded: bool,
}

/// The checks of `db_record_sync_attempt`, in call order.
pub open spec fn sync_attempt_checks(account: Option<&[u8]>, handle_present: bool) -> Seq<ArgCheck> {
    seq![arg("account", readable(account)), arg("handle", handle_present)]
}

/// Reads the arguments of `db_record_sync_attempt`; any non-zero
/// `succeeded` counts as a success.
pub fn sync_attempt_arguments(
    slot: &mut LastError,
    account: Option<&[u8]>,
    succeeded: i32,
    handle_present: bool,
) -> (res: Result<SyncAttemptArguments, i32>)
    ensures
        checked(
            res,
            old(slot)@,
            final(slot)@,
            first_failure(sync_attempt_checks(account, handle_present)),
        ),
        res matches Ok(args) ==> args.account@ == text_of(account) && args.succeeded == (succeeded
            != 0),
{
    let account_text = read_cstr(account);
    let checks = vec![
        ArgCheck { name: "account", passed: account_text.is_ok() },
        ArgCheck { name: "handle", passed: handle_present },
    ];
    assert(checks@ =~= sync_attempt_checks(account, handle_present));
    match check_arguments(slot, &checks) {
        Err(code) => Err(code),
        Ok(()) => {
            proof {
                lemma_first_failure_none(checks@);
                assert(checks@[0].passed);
            }
            Ok(SyncAttemptArguments { account: account_text.unwrap(), succeeded: succeeded != 0 })
        },
    }
}

} // verus!
