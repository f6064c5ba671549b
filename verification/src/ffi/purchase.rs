//! Purchasing an app: the arguments of `purchase`, what its ipatool result
//! comes to, and the document the host receives:
//! `{"outcome":..,"raw_payload":..,"logs":[..]}`, with `outcome` one of
//! `Purchased`, `AlreadyOwned`, `NeedsOwnedConfirmation`, `Failed`
//! (`Skipped` is the host's own pre-purchase policy). A canceled purchase
//! fails with the last error `canceled`. The log entries (command line and
//! output) are collected only when detailed logging is asked for.

use vstd::prelude::*;

use crate::ffi::document::{
    distinct_keys, has_member, is_list_of, lemma_object_member, object, Json, JsonValue,
    ObjectBuilder,
};
use crate::ffi::downloads::{log_docs, log_list_json};
use crate::ffi::sync::log_message_doc;
use crate::ffi::{
    arg, blank, check_arguments, checked, first_failure, is_blank, lemma_first_failure_none,
    owned, read_cstr, readable, set_last_error, text_of, without_nul, ArgCheck, LastError,
    FFI_ERR_FAILED,
};
use crate::ipatool::client::ClientError;
use crate::purchases::response_interpreter::PurchaseOutcome;
use crate::purchases::sync_service::LogMessage;

verus! {

/// The name of a purchase outcome in the host's documents.
pub open spec fn purchase_outcome_text(outcome: PurchaseOutcome) -> Seq<char> {
    match outcome {
        PurchaseOutcome::Skipped => "Skipped"@,
        PurchaseOutcome::Purchased => "Purchased"@,
        PurchaseOutcome::AlreadyOwned => "AlreadyOwned"@,
        PurchaseOutcome::NeedsOwnedConfirmation => "NeedsOwnedConfirmation"@,
        PurchaseOutcome::Failed => "Failed"@,
    }
}

/// The name of a purchase outcome.
pub fn purchase_outcome_name(outcome: PurchaseOutcome) -> (res: &'static str)
    ensures
        res@ == purchase_outcome_text(outcome),
{
    match outcome {
        PurchaseOutcome::Skipped => "Skipped",
        PurchaseOutcome::Purchased => "Purchased",
        PurchaseOutcome::AlreadyOwned => "AlreadyOwned",
        PurchaseOutcome::NeedsOwnedConfirmation => "NeedsOwnedConfirmation",
        PurchaseOutcome::Failed => "Failed",
    }
}

/// What a purchase is made with.
pub struct PurchaseRequest {
    pub exe_path: String,
    pub bundle_id: String,
    pub passphrase: String,
    /// Whether the command line and output are collected as log entries.
    pub detailed_log: bool,
}

/// The checks of `purchase`, in call order.
pub open spec fn purchase_checks(
    exe_path: Option<&[u8]>,
    bundle_id: Option<&[u8]>,
    passphrase: Option<&[u8]>,
    cancel_present: bool,
    out_json_present: bool,
) -> Seq<ArgCheck> {
    seq![
        arg("exe_path", readable(exe_path)),
        arg("bundle_id", readable(bundle_id)),
        arg("passphrase", readable(passphrase)),
        arg("cancel", cancel_present),
        arg("out_json", out_json_present),
    ]
}

/// Reads the arguments of `purchase`.
pub fn purchase_arguments(
    slot: &mut LastError,
    exe_path: Option<&[u8]>,
    bundle_id: Option<&[u8]>,
    passphrase: Option<&[u8]>,
    detailed_log: i32,
    cancel_present: bool,
    out_json_present: bool,
) -> (res: Result<PurchaseRequest, i32>)
    ensures
        checked(
            res,
            old(slot)@,
            final(slot)@,
            first_failure(
                purchase_checks(exe_path, bundle_id, passphrase, cancel_present, out_json_present),
            ),
        ),
        res matches Ok(request) ==> {
            &&& request.exe_path@ == text_of(exe_path)
            &&& request.bundle_id@ == text_of(bundle_id)
            &&& request.passphrase@ == text_of(passphrase)
            &&& request.detailed_log == (detailed_log != 0)
        },
{
    let exe_path_text = read_cstr(exe_path);
    let bundle_id_text = read_cstr(bundle_id);
    let passphrase_text = read_cstr(passphrase);
    let checks = vec![
        ArgCheck { name: "exe_path", passed: exe_path_text.is_ok() },
        ArgCheck { name: "bundle_id", passed: bundle_id_text.is_ok() },
        ArgCheck { name: "passphrase", passed: passphrase_text.is_ok() },
        ArgCheck { name: "cancel", passed: cancel_present },
        ArgCheck { name: "out_json", passed: out_json_present },
    ];
    assert(checks@ =~= purchase_checks(
        exe_path,
        bundle_id,
        passphrase,
        cancel_present,
        out_json_present,
    ));
    match check_arguments(slot, &checks) {
        Err(code) => Err(code),
        Ok(()) => {
            proof {
                lemma_first_failure_none(checks@);
                assert(checks@[0].passed && checks@[1].passed && checks@[2].passed);
            }
            Ok(
                PurchaseRequest {
                    exe_path: exe_path_text.unwrap(),
                    bundle_id: bundle_id_text.unwrap(),
                    passphrase: passphrase_text.unwrap(),
                    detailed_log: detailed_log != 0,
                },
            )
        },
    }
}

/// The payload of a finished purchase command; a canceled command fails the
/// call with the last error `canceled`.
pub fn purchase_payload(slot: &mut LastError, call: Result<String, ClientError>) -> (res: Result<
    String,
    i32,
>)
    ensures
        call is Err ==> res == Err::<String, i32>(FFI_ERR_FAILED) && final(slot)@ == Some(
            without_nul("canceled"@),
        ),
        call matches Ok(payload) ==> res == Ok::<String, i32>(payload) && final(slot)@ == old(
            slot,
        )@,
{
    match call {
        Ok(payload) => Ok(payload),
        Err(ClientError::Canceled) => {
            set_last_error(slot, "canceled");
            Err(FFI_ERR_FAILED)
        },
    }
}

/// What the purchase response interpreter is given: nothing for a blank
/// payload, otherwise the payload.
pub fn interpretable_payload(payload: &str) -> (res: Option<String>)
    ensures
        blank(payload@) ==> res is None,
        !blank(payload@) ==> (res matches Some(text) && text@ == payload@),
{
    if is_blank(payload) {
        None
    } else {
        Some(owned(payload))
    }
}

/// The purchase document.
pub open spec fn purchase_doc(
    outcome: PurchaseOutcome,
    payload: Seq<char>,
    logs: Seq<LogMessage>,
) -> Json {
    object(
        seq![
            ("outcome"@, Json::Text(purchase_outcome_text(outcome))),
            ("raw_payload"@, Json::Text(payload)),
            ("logs"@, Json::List(log_docs(logs))),
        ],
    )
}

/// The purchase document for an outcome, the raw payload it was read from
/// and the collected log entries.
pub fn purchase_document(outcome: PurchaseOutcome, payload: &str, logs: &Vec<LogMessage>) -> (res:
    JsonValue)
    ensures
        res@ == purchase_doc(outcome, payload@, logs@),
{
    let mut doc = ObjectBuilder::new();
    doc.field("outcome", JsonValue::text(purchase_outcome_name(outcome)));
    doc.field("raw_payload", JsonValue::text(payload));
    doc.field("logs", log_list_json(logs));
    let ghost members = doc@;
    assert(members =~= seq![
        ("outcome"@, Json::Text(purchase_outcome_text(outcome))),
        ("raw_payload"@, Json::Text(payload@)),
        ("logs"@, Json::List(log_docs(logs@))),
    ]);
    doc.build()
}

/// The log entries a purchase reports: those collected when detailed logging
/// is on, none otherwise.
pub fn reported_logs(detailed_log: bool, collected: Vec<LogMessage>) -> (res: Vec<LogMessage>)
    ensures
        detailed_log ==> res@ == collected@,
        !detailed_log ==> res@ == Seq::<LogMessage>::empty(),
{
    if detailed_log {
        collected
    } else {
        Vec::new()
    }
}

/// The purchase document carries the name of the given outcome, the raw
/// payload and the log entries in order; each outcome is shown under its own
/// name, so distinct outcomes give distinct `outcome` members.
pub proof fn law_purchase_document_members(
    outcome: PurchaseOutcome,
    payload: Seq<char>,
    logs: Seq<LogMessage>,
    other: PurchaseOutcome,
)
    ensures
        has_member(
            purchase_doc(outcome, payload, logs),
            "outcome"@,
            Json::Text(purchase_outcome_text(outcome)),
        ),
        has_member(purchase_doc(outcome, payload, logs), "raw_payload"@, Json::Text(payload)),
        exists|list: Json|
            has_member(purchase_doc(outcome, payload, logs), "logs"@, list) && is_list_of(
                list,
                Seq::new(logs.len(), |i: int| log_message_doc(logs[i])),
            ),
        outcome is Skipped ==> has_member(
            purchase_doc(outcome, payload, logs),
            "outcome"@,
            Json::Text("Skipped"@),
        ),
        outcome is Purchased ==> has_member(
            purchase_doc(outcome, payload, logs),
            "outcome"@,
            Json::Text("Purchased"@),
        ),
        outcome is AlreadyOwned ==> has_member(
            purchase_doc(outcome, payload, logs),
            "outcome"@,
            Json::Text("AlreadyOwned"@),
        ),
        outcome is NeedsOwnedConfirmation ==> has_member(
            purchase_doc(outcome, payload, logs),
            "outcome"@,
            Json::Text("NeedsOwnedConfirmation"@),
        ),
        outcome is Failed ==> has_member(
            purchase_doc(outcome, payload, logs),
            "outcome"@,
            Json::Text("Failed"@),
        ),
        outcome != other ==> purchase_outcome_text(outcome) != purchase_outcome_text(other),
{
    reveal_strlit("outcome");
    reveal_strlit("raw_payload");
    reveal_strlit("logs");
    let list = Json::List(log_docs(logs));
    let m = seq![
        ("outcome"@, Json::Text(purchase_outcome_text(outcome))),
        ("raw_payload"@, Json::Text(payload)),
        ("logs"@, list),
    ];
    assert(m[0].0.len() == 7 && m[1].0.len() == 11 && m[2].0.len() == 4);
    assert(distinct_keys(m));
    lemma_object_member(m, 0);
    lemma_object_member(m, 1);
    lemma_object_member(m, 2);
    assert(is_list_of(list, Seq::new(logs.len(), |i: int| log_message_doc(logs[i]))));
    law_purchase_outcome_names_distinct(outcome, other);
}

/// Each purchase outcome has its own name.
pub proof fn law_purchase_outcome_names_distinct(a: PurchaseOutcome, b: PurchaseOutcome)
    ensures
        purchase_outcome_text(a) == purchase_outcome_text(b) ==> a == b,
{
    reveal_strlit("Skipped");
    reveal_strlit("Purchased");
    reveal_strlit("AlreadyOwned");
    reveal_strlit("NeedsOwnedConfirmation");
    reveal_strlit("Failed");
    if purchase_outcome_text(a) == purchase_outcome_text(b) {
        assert(purchase_outcome_text(a)[0] == purchase_outcome_text(b)[0]);
    }
}

} // verus!
