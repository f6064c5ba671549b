//! The download queue as a polled task: the arguments of each queue call,
//! the state that the worker updates and the host polls, and the documents
//! and codes the host receives.
//!
//! `queue_add` reports 0 = Added, 1 = Updated, 2 = Requeued, 3 = Ignored.
//! The status document is
//! `{"running":..,"completed":null|n,"items":[{"bundle_id":..,"status":..,"last_message":..}],"logs":[..]}`,
//! with `status` one of `Pending`, `Downloading`, `Success`, `Failed`, `Canceled`.

use vstd::prelude::*;

use crate::appcatalog::search_parser::SearchResult;
use crate::downloads::queue::AddQueueResult;
use crate::downloads::{DownloadQueueItem, DownloadQueueStatus};
use crate::ffi::document::{
    distinct_keys, has_member, is_list_of, lemma_object_member, object, views, Json, JsonValue,
    ObjectBuilder,
};
use crate::ffi::sync::{log_message_doc, log_message_json};
use crate::ffi::{
    arg, check_arguments, checked, first_failure, invalid_arg, invalid_argument_text,
    lemma_first_failure_none, read_cstr, readable, set_last_error, text_of, without_nul, ArgCheck,
    LastError, FFI_ERR_FAILED, FFI_ERR_INVALID_ARG, FFI_OK,
};
use crate::purchases::sync_service::LogMessage;

verus! {

// ---------------------------------------------------------------------------
// Names and codes
// ---------------------------------------------------------------------------

/// The name of a queue item's status in the status document.
pub open spec fn status_text(status: DownloadQueueStatus) -> Seq<char> {
    match status {
        DownloadQueueStatus::Pending => "Pending"@,
        DownloadQueueStatus::Downloading => "Downloading"@,
        DownloadQueueStatus::Success => "Success"@,
        DownloadQueueStatus::Failed => "Failed"@,
        DownloadQueueStatus::Canceled => "Canceled"@,
    }
}

/// The name of a queue item's status.
pub fn status_name(status: DownloadQueueStatus) -> (res: &'static str)
    ensures
        res@ == status_text(status),
{
    match status {
        DownloadQueueStatus::Pending => "Pending",
        DownloadQueueStatus::Downloading => "Downloading",
        DownloadQueueStatus::Success => "Success",
        DownloadQueueStatus::Failed => "Failed",
        DownloadQueueStatus::Canceled => "Canceled",
    }
}

/// The code that `queue_add` reports for what adding did.
pub open spec fn add_result_number(result: AddQueueResult) -> i32 {
    match result {
        AddQueueResult::Added => 0,
        AddQueueResult::Updated => 1,
        AddQueueResult::Requeued => 2,
        AddQueueResult::Ignored => 3,
    }
}

/// The code that `queue_add` reports for what adding did.
pub fn add_result_code(result: AddQueueResult) -> (code: i32)
    ensures
        code == add_result_number(result),
{
    match result {
        AddQueueResult::Added => 0,
        AddQueueResult::Updated => 1,
        AddQueueResult::Requeued => 2,
        AddQueueResult::Ignored => 3,
    }
}

// ---------------------------------------------------------------------------
// The item a host adds
// ---------------------------------------------------------------------------

/// The item that the host adds to the queue: a search result's fields, with
/// `bundle_id` and `price` required.
pub struct QueueItemJson {
    pub bundle_id: String,
    pub id: Option<String>,
    pub name: Option<String>,
    pub developer: Option<String>,
    pub artwork_url: Option<String>,
    pub price: String,
    pub version: Option<String>,
}

impl QueueItemJson {
    /// The search result that the item stands for; its purchase status is
    /// empty.
    pub fn into_search_result(self) -> (res: SearchResult)
        ensures
            res.bundle_id == self.bundle_id,
            res.id == self.id,
            res.name == self.name,
            res.developer == self.developer,
            res.artwork_url == self.artwork_url,
            res.price == self.price,
            res.version == self.version,
            res.purchased@ == Seq::<char>::empty(),
    {
        SearchResult {
            bundle_id: self.bundle_id,
            id: self.id,
            name: self.name,
            developer: self.developer,
            artwork_url: self.artwork_url,
            price: self.price,
            version: self.version,
            purchased: String::new(),
        }
    }
}

// ---------------------------------------------------------------------------
// Matching items by bundle id
// ---------------------------------------------------------------------------

/// `c` with an ASCII upper-case letter turned to lower case.
pub open spec fn ascii_lower(c: char) -> char {
    if 'A' <= c && c <= 'Z' {
        ((c as int) + 32) as char
    } else {
        c
    }
}

/// The two texts are equal when ASCII letters are compared without case.
pub open spec fn same_ignoring_ascii_case(a: Seq<char>, b: Seq<char>) -> bool {
    &&& a.len() == b.len()
    &&& forall|i: int| 0 <= i < a.len() ==> ascii_lower(#[trigger] a[i]) == ascii_lower(b[i])
}

/// The code of `c` with an ASCII upper-case letter turned to lower case.
fn ascii_lower_code(c: char) -> (res: u32)
    ensures
        res == ascii_lower(c) as u32,
{
    let n = c as u32;
    if 0x41 <= n && n <= 0x5A {
        n + 32
    } else {
        n
    }
}

/// The characters of a text, in order.
fn chars_of(text: &str) -> (res: Vec<char>)
    ensures
        res@ == text@,
{
    broadcast use vstd::string::group_string_axioms;

    let mut res: Vec<char> = Vec::new();
    for c in it: text.chars()
        invariant
            it.seq() == text@,
            res@ == it.seq().take(it.index()),
    {
        assert(it.seq().take(it.index() + 1) == it.seq().take(it.index()).push(c));
        res.push(c);
    }
    assert(text@.take(text@.len() as int) =~= text@);
    res
}

/// Compares two texts ignoring ASCII case, character by character.
fn eq_ignore_ascii_case(a: &str, b: &str) -> (res: bool)
    ensures
        res == same_ignoring_ascii_case(a@, b@),
{
    let left = chars_of(a);
    let right = chars_of(b);
    if left.len() != right.len() {
        return false;
    }
    let mut i: usize = 0;
    while i < left.len()
        invariant
            left@ == a@,
            right@ == b@,
            left.len() == right.len(),
            i <= left.len(),
            forall|j: int| 0 <= j < i ==> ascii_lower(#[trigger] a@[j]) == ascii_lower(b@[j]),
        decreases left.len() - i,
    {
        if ascii_lower_code(left[i]) != ascii_lower_code(right[i]) {
            assert(ascii_lower(a@[i as int]) != ascii_lower(b@[i as int]));
            return false;
        }
        i = i + 1;
    }
    true
}

/// Whether a queue item is the one that `queue_remove` names: bundle ids are
/// compared ignoring ASCII case.
pub fn bundle_id_matches(item: &DownloadQueueItem, bundle_id: &str) -> (res: bool)
    ensures
        res == same_ignoring_ascii_case(item.bundle_id@, bundle_id@),
{
    eq_ignore_ascii_case(item.bundle_id.as_str(), bundle_id)
}

// ---------------------------------------------------------------------------
// The polled state
// ---------------------------------------------------------------------------

/// What the host can see of the queue's own state.
pub struct QueueSnapshot {
    pub running: bool,
    pub completed: Option<int>,
    pub logs: Seq<Json>,
}

/// The run state of a download queue and the log entries it produced.
pub struct QueueState {
    running: bool,
    completed: Option<i32>,
    logs: Vec<JsonValue>,
}

impl View for QueueState {
    type V = QueueSnapshot;

    closed spec fn view(&self) -> QueueSnapshot {
        QueueSnapshot {
            running: self.running,
            completed: match self.completed {
                Some(n) => Some(n as int),
                None => None,
            },
            logs: views(self.logs@),
        }
    }
}

/// The log documents of a list of entries.
pub open spec fn log_docs(logs: Seq<LogMessage>) -> Seq<Json> {
    logs.map_values(|log: LogMessage| log_message_doc(log))
}

/// A list of log entries as a JSON list, in their order.
pub fn log_list_json(logs: &Vec<LogMessage>) -> (res: JsonValue)
    ensures
        res@ == Json::List(log_docs(logs@)),
{
    let mut entries: Vec<JsonValue> = Vec::new();
    for i in 0..logs.len()
        invariant
            entries@.len() == i,
            forall|j: int| 0 <= j < i ==> #[trigger] entries@[j]@ == log_docs(logs@)[j],
    {
        entries.push(log_message_json(&logs[i]));
    }
    assert(views(entries@) =~= log_docs(logs@));
    JsonValue::list(entries)
}

/// An item of the queue in the status document.
pub open spec fn queue_item_doc(item: DownloadQueueItem) -> Json {
    object(
        seq![
            ("bundle_id"@, Json::Text(item.bundle_id@)),
            ("status"@, Json::Text(status_text(item.status))),
            ("last_message"@, Json::Text(item.last_message@)),
        ],
    )
}

/// The status document of a queue with the given items.
pub open spec fn queue_status_doc(s: QueueSnapshot, items: Seq<DownloadQueueItem>) -> Json {
    object(
        seq![
            ("running"@, Json::Bool(s.running)),
            (
                "completed"@,
                match s.completed {
                    Some(n) => Json::Int(n),
                    None => Json::Null,
                },
            ),
            ("items"@, Json::List(items.map_values(|item: DownloadQueueItem| queue_item_doc(item)))),
            ("logs"@, Json::List(s.logs)),
        ],
    )
}

/// An item of the queue as a JSON document.
pub fn queue_item_json(item: &DownloadQueueItem) -> (res: JsonValue)
    ensures
        res@ == queue_item_doc(*item),
{
    let mut doc = ObjectBuilder::new();
    doc.field("bundle_id", JsonValue::text(item.bundle_id.as_str()));
    doc.field("status", JsonValue::text(status_name(item.status)));
    doc.field("last_message", JsonValue::text(item.last_message.as_str()));
    let ghost members = doc@;
    assert(members =~= seq![
        ("bundle_id"@, Json::Text(item.bundle_id@)),
        ("status"@, Json::Text(status_text(item.status))),
        ("last_message"@, Json::Text(item.last_message@)),
    ]);
    doc.build()
}

/// A start is accepted exactly when the queue is not started: its service
/// reports no run and no worker is running.
pub open spec fn start_accepted(s: QueueSnapshot, queue_running: bool) -> bool {
    !(queue_running || s.running)
}

/// The state once a run has been started.
pub open spec fn after_start(s: QueueSnapshot) -> QueueSnapshot {
    QueueSnapshot { running: true, ..s }
}

/// The state once a run has finished after `completed` downloads.
pub open spec fn after_finish(s: QueueSnapshot, completed: int) -> QueueSnapshot {
    QueueSnapshot { running: false, completed: Some(completed), ..s }
}

/// The state once log entries have been appended.
pub open spec fn with_logs(s: QueueSnapshot, entries: Seq<Json>) -> QueueSnapshot {
    QueueSnapshot { logs: s.logs + entries, ..s }
}

/// A queue that has been started accounts for its run: it is running, or
/// the count of a finished run is reported.
pub open spec fn queue_accounted(s: QueueSnapshot) -> bool {
    s.running || s.completed is Some
}

impl QueueState {
    /// A queue that has not been started.
    pub fn new() -> (res: QueueState)
        ensures
            !res@.running,
            res@.completed is None,
            res@.logs == Seq::<Json>::empty(),
    {
        let res = QueueState { running: false, completed: None, logs: Vec::new() };
        assert(res@.logs =~= Seq::<Json>::empty());
        res
    }

    /// Whether the queue counts as started: its service reports a run, or a
    /// worker was started and has not finished.
    pub fn is_started(&self, queue_running: bool) -> (res: bool)
        ensures
            res == (queue_running || self@.running),
    {
        queue_running || self.running
    }

    /// Appends one log entry.
    pub fn push_log(&mut self, log: &LogMessage)
        ensures
            final(self)@.running == old(self)@.running,
            final(self)@.completed == old(self)@.completed,
            final(self)@.logs == old(self)@.logs.push(log_message_doc(*log)),
    {
        self.logs.push(log_message_json(log));
        assert(views(self.logs@) =~= views(old(self).logs@).push(log_message_doc(*log)));
    }

    /// Appends the log entries, in order.
    pub fn record_logs(&mut self, logs: &Vec<LogMessage>)
        ensures
            final(self)@.running == old(self)@.running,
            final(self)@.completed == old(self)@.completed,
            final(self)@.logs == old(self)@.logs + log_docs(logs@),
            final(self)@ == with_logs(old(self)@, log_docs(logs@)),
    {
        for i in 0..logs.len()
            invariant
                self@.running == old(self)@.running,
                self@.completed == old(self)@.completed,
                self@.logs == old(self)@.logs + log_docs(logs@.take(i as int)),
        {
            self.push_log(&logs[i]);
            assert(log_docs(logs@.take(i + 1)) =~= log_docs(logs@.take(i as int)).push(
                log_message_doc(logs@[i as int]),
            ));
            assert(self@.logs =~= old(self)@.logs + log_docs(logs@.take(i + 1)));
        }
        assert(logs@.take(logs@.len() as int) =~= logs@);
    }

    /// Starts a run unless the queue is already started; a refusal leaves the
    /// state unchanged and is reported as `queue is already started`.
    pub fn start(&mut self, slot: &mut LastError, queue_running: bool) -> (code: i32)
        ensures
            !start_accepted(old(self)@, queue_running) ==> {
                &&& code == FFI_ERR_FAILED
                &&& final(self)@ == old(self)@
                &&& final(slot)@ == Some(without_nul("queue is already started"@))
            },
            start_accepted(old(self)@, queue_running) ==> {
                &&& code == FFI_OK
                &&& final(self)@ == after_start(old(self)@)
                &&& final(slot)@ == old(slot)@
            },
    {
        if self.is_started(queue_running) {
            set_last_error(slot, "queue is already started");
            return FFI_ERR_FAILED;
        }
        self.running = true;
        FFI_OK
    }

    /// Records that a run finished after completing `completed` downloads.
    pub fn finish(&mut self, completed: i32)
        ensures
            final(self)@ == after_finish(old(self)@, completed as int),
    {
        self.running = false;
        self.completed = Some(completed);
    }

    /// The status document that a poll returns, listing `items` in order.
    pub fn status_json(&self, items: &Vec<DownloadQueueItem>) -> (res: JsonValue)
        ensures
            res@ == queue_status_doc(self@, items@),
    {
        let mut item_docs: Vec<JsonValue> = Vec::new();
        for i in 0..items.len()
            invariant
                item_docs@.len() == i,
                forall|j: int| 0 <= j < i ==> #[trigger] item_docs@[j]@ == queue_item_doc(items@[j]),
        {
            item_docs.push(queue_item_json(&items[i]));
        }
        assert(views(item_docs@) =~= items@.map_values(|item: DownloadQueueItem| queue_item_doc(item)));
        let mut logs: Vec<JsonValue> = Vec::new();
        for i in 0..self.logs.len()
            invariant
                logs@.len() == i,
                forall|j: int| 0 <= j < i ==> #[trigger] logs@[j]@ == self.logs@[j]@,
        {
            logs.push(self.logs[i].duplicate());
        }
        assert(views(logs@) =~= views(self.logs@));
        let completed = match self.completed {
            Some(n) => JsonValue::Int(n as i64),
            None => JsonValue::Null,
        };
        let mut doc = ObjectBuilder::new();
        doc.field("running", JsonValue::Bool(self.running));
        doc.field("completed", completed);
        doc.field("items", JsonValue::list(item_docs));
        doc.field("logs", JsonValue::list(logs));
        let ghost members = doc@;
        let ghost snap = self@;
        assert(members =~= seq![
            ("running"@, Json::Bool(snap.running)),
            (
                "completed"@,
                match snap.completed {
                    Some(n) => Json::Int(n),
                    None => Json::Null,
                },
            ),
            ("items"@, Json::List(items@.map_values(|item: DownloadQueueItem| queue_item_doc(item)))),
            ("logs"@, Json::List(snap.logs)),
        ]);
        doc.build()
    }
}

// ---------------------------------------------------------------------------
// Arguments
// ---------------------------------------------------------------------------

/// What a queue is created with.
pub struct QueueConfig {
    pub exe_path: String,
    pub output_directory: String,
    pub passphrase: String,
    pub is_mock: bool,
    pub detailed_log: bool,
}

/// The checks of `queue_create`, in call order.
pub open spec fn queue_create_checks(
    exe_path: Option<&[u8]>,
    output_directory: Option<&[u8]>,
    passphrase: Option<&[u8]>,
    out_handle_present: bool,
) -> Seq<ArgCheck> {
    seq![
        arg("exe_path", readable(exe_path)),
        arg("output_directory", readable(output_directory)),
        arg("passphrase", readable(passphrase)),
        arg("out_handle", out_handle_present),
    ]
}

/// Reads the arguments of `queue_create`; the flags count as set when non-zero.
pub fn queue_create_arguments(
    slot: &mut LastError,
    exe_path: Option<&[u8]>,
    output_directory: Option<&[u8]>,
    passphrase: Option<&[u8]>,
    is_mock: i32,
    detailed_log: i32,
    out_handle_present: bool,
) -> (res: Result<QueueConfig, i32>)
    ensures
        checked(
            res,
            old(slot)@,
            final(slot)@,
            first_failure(
                queue_create_checks(exe_path, output_directory, passphrase, out_handle_present),
            ),
        ),
        res matches Ok(config) ==> {
            &&& config.exe_path@ == text_of(exe_path)
            &&& config.output_directory@ == text_of(output_directory)
            &&& config.passphrase@ == text_of(passphrase)
            &&& config.is_mock == (is_mock != 0)
            &&& config.detailed_log == (detailed_log != 0)
        },
{
    let exe_path_text = read_cstr(exe_path);
    let output_directory_text = read_cstr(output_directory);
    let passphrase_text = read_cstr(passphrase);
    let checks = vec![
        ArgCheck { name: "exe_path", passed: exe_path_text.is_ok() },
        ArgCheck { name: "output_directory", passed: output_directory_text.is_ok() },
        ArgCheck { name: "passphrase", passed: passphrase_text.is_ok() },
        ArgCheck { name: "out_handle", passed: out_handle_present },
    ];
    assert(checks@ =~= queue_create_checks(
        exe_path,
        output_directory,
        passphrase,
        out_handle_present,
    ));
    match check_arguments(slot, &checks) {
        Err(code) => Err(code),
        Ok(()) => {
            proof {
                lemma_first_failure_none(checks@);
                assert(checks@[0].passed && checks@[1].passed && checks@[2].passed);
            }
            Ok(
                QueueConfig {
                    exe_path: exe_path_text.unwrap(),
                    output_directory: output_directory_text.unwrap(),
                    passphrase: passphrase_text.unwrap(),
                    is_mock: is_mock != 0,
                    detailed_log: detailed_log != 0,
                },
            )
        },
    }
}

/// The checks of `queue_add`, in call order: the handle comes first.
pub open spec fn queue_add_checks(
    handle_present: bool,
    item_json: Option<&[u8]>,
    out_result_present: bool,
) -> Seq<ArgCheck> {
    seq![
        arg("handle", handle_present),
        arg("item_json", readable(item_json)),
        arg("out_result", out_result_present),
    ]
}

/// Reads the arguments of `queue_add`: the item's JSON text.
pub fn queue_add_arguments(
    slot: &mut LastError,
    handle_present: bool,
    item_json: Option<&[u8]>,
    out_result_present: bool,
) -> (res: Result<String, i32>)
    ensures
        checked(
            res,
            old(slot)@,
            final(slot)@,
            first_failure(queue_add_checks(handle_present, item_json, out_result_present)),
        ),
        res matches Ok(text) ==> text@ == text_of(item_json),
{
    let item_text = read_cstr(item_json);
    let checks = vec![
        ArgCheck { name: "handle", passed: handle_present },
        ArgCheck { name: "item_json", passed: item_text.is_ok() },
        ArgCheck { name: "out_result", passed: out_result_present },
    ];
    assert(checks@ =~= queue_add_checks(handle_present, item_json, out_result_present));
    match check_arguments(slot, &checks) {
        Err(code) => Err(code),
        Ok(()) => {
            proof {
                lemma_first_failure_none(checks@);
                assert(checks@[1].passed);
            }
            Ok(item_text.unwrap())
        },
    }
}

/// The message with which an item that does not match the contract is refused.
pub open spec fn item_mismatch_text() -> Seq<char> {
    invalid_argument_text("item_json does not match the contract"@)
}

/// The search result to add, from the parsed item; an item that did not parse
/// is refused as an invalid argument.
pub fn queue_item(slot: &mut LastError, parsed: Option<QueueItemJson>) -> (res: Result<
    SearchResult,
    i32,
>)
    ensures
        parsed is None ==> res == Err::<SearchResult, i32>(FFI_ERR_INVALID_ARG) && final(slot)@
            == Some(without_nul(item_mismatch_text())),
        parsed matches Some(item) ==> final(slot)@ == old(slot)@ && (res matches Ok(result) && {
            &&& result.bundle_id == item.bundle_id
            &&& result.id == item.id
            &&& result.name == item.name
            &&& result.developer == item.developer
            &&& result.artwork_url == item.artwork_url
            &&& result.price == item.price
            &&& result.version == item.version
            &&& result.purchased@ == Seq::<char>::empty()
        }),
{
    match parsed {
        Some(item) => Ok(item.into_search_result()),
        None => Err(invalid_arg(slot, "item_json does not match the contract")),
    }
}

/// The checks of `queue_remove`, in call order: the bundle id comes first.
pub open spec fn queue_remove_checks(bundle_id: Option<&[u8]>, handle_present: bool) -> Seq<
    ArgCheck,
> {
    seq![arg("bundle_id", readable(bundle_id)), arg("handle", handle_present)]
}

/// Reads the arguments of `queue_remove`: the bundle id to remove.
pub fn queue_remove_arguments(
    slot: &mut LastError,
    bundle_id: Option<&[u8]>,
    handle_present: bool,
) -> (res: Result<String, i32>)
    ensures
        checked(
            res,
            old(slot)@,
            final(slot)@,
            first_failure(queue_remove_checks(bundle_id, handle_present)),
        ),
        res matches Ok(text) ==> text@ == text_of(bundle_id),
{
    let bundle_text = read_cstr(bundle_id);
    let checks = vec![
        ArgCheck { name: "bundle_id", passed: bundle_text.is_ok() },
        ArgCheck { name: "handle", passed: handle_present },
    ];
    assert(checks@ =~= queue_remove_checks(bundle_id, handle_present));
    match check_arguments(slot, &checks) {
        Err(code) => Err(code),
        Ok(()) => {
            proof {
                lemma_first_failure_none(checks@);
                assert(checks@[0].passed);
            }
            Ok(bundle_text.unwrap())
        },
    }
}

/// The status of `queue_remove` after `removed` items were removed: success
/// when at least one was, otherwise a failure reported as
/// `no matching item removed`.
pub fn queue_remove_outcome(slot: &mut LastError, removed: usize) -> (code: i32)
    ensures
        removed > 0 ==> code == FFI_OK && final(slot)@ == old(slot)@,
        removed == 0 ==> code == FFI_ERR_FAILED && final(slot)@ == Some(
            without_nul("no matching item removed"@),
        ),
{
    if removed > 0 {
        FFI_OK
    } else {
        set_last_error(slot, "no matching item removed");
        FFI_ERR_FAILED
    }
}

// ---------------------------------------------------------------------------
// Laws
// ---------------------------------------------------------------------------

/// A started queue refuses a second start until its run has finished, and
/// once the run has finished (and the service is idle) a start is accepted
/// again, with the count of the finished run still reported.
pub proof fn law_queue_start_until_finish(s: QueueSnapshot, queue_running: bool, completed: int)
    ensures
        start_accepted(s, queue_running) ==> !start_accepted(after_start(s), queue_running),
        start_accepted(after_finish(after_start(s), completed), false),
        after_finish(after_start(s), completed).completed == Some(completed),
        after_finish(after_start(s), completed).logs == s.logs,
{
}

/// Once a start has been accepted, every later state is running or reports
/// the count of a finished run: the start sets `running`, and `running` is
/// cleared only together with recording the count; refused starts and log
/// entries change neither.
pub proof fn law_queue_started_stays_accounted(
    s: QueueSnapshot,
    completed: int,
    entries: Seq<Json>,
)
    ensures
        queue_accounted(after_start(s)),
        queue_accounted(after_finish(s, completed)),
        queue_accounted(s) ==> queue_accounted(after_start(s)),
        queue_accounted(s) ==> queue_accounted(with_logs(s, entries)),
{
}

/// A queue item's document carries its bundle id, the name of its own
/// status and its last message; each status is shown under its own name.
pub proof fn law_queue_item_members(item: DownloadQueueItem)
    ensures
        has_member(queue_item_doc(item), "bundle_id"@, Json::Text(item.bundle_id@)),
        has_member(queue_item_doc(item), "status"@, Json::Text(status_text(item.status))),
        has_member(queue_item_doc(item), "last_message"@, Json::Text(item.last_message@)),
        item.status is Pending ==> has_member(queue_item_doc(item), "status"@, Json::Text("Pending"@)),
        item.status is Downloading ==> has_member(
            queue_item_doc(item),
            "status"@,
            Json::Text("Downloading"@),
        ),
        item.status is Success ==> has_member(queue_item_doc(item), "status"@, Json::Text("Success"@)),
        item.status is Failed ==> has_member(queue_item_doc(item), "status"@, Json::Text("Failed"@)),
        item.status is Canceled ==> has_member(
            queue_item_doc(item),
            "status"@,
            Json::Text("Canceled"@),
        ),
{
    reveal_strlit("bundle_id");
    reveal_strlit("status");
    reveal_strlit("last_message");
    let m = seq![
        ("bundle_id"@, Json::Text(item.bundle_id@)),
        ("status"@, Json::Text(status_text(item.status))),
        ("last_message"@, Json::Text(item.last_message@)),
    ];
    assert(m[0].0.len() == 9 && m[1].0.len() == 6 && m[2].0.len() == 12);
    assert(distinct_keys(m));
    lemma_object_member(m, 0);
    lemma_object_member(m, 1);
    lemma_object_member(m, 2);
}

/// The status document shows whether the queue runs, the completed count
/// (`null` before a run finished), every item once and in order, and the
/// log entries in order.
pub proof fn law_queue_status_members(s: QueueSnapshot, items: Seq<DownloadQueueItem>)
    ensures
        has_member(queue_status_doc(s, items), "running"@, Json::Bool(s.running)),
        s.completed matches Some(n) ==> has_member(
            queue_status_doc(s, items),
            "completed"@,
            Json::Int(n),
        ),
        s.completed is None ==> has_member(queue_status_doc(s, items), "completed"@, Json::Null),
        exists|list: Json|
            has_member(queue_status_doc(s, items), "items"@, list) && is_list_of(
                list,
                Seq::new(items.len(), |i: int| queue_item_doc(items[i])),
            ),
        has_member(queue_status_doc(s, items), "logs"@, Json::List(s.logs)),
{
    reveal_strlit("running");
    reveal_strlit("completed");
    reveal_strlit("items");
    reveal_strlit("logs");
    let list = Json::List(items.map_values(|item: DownloadQueueItem| queue_item_doc(item)));
    let m = seq![
        ("running"@, Json::Bool(s.running)),
        (
            "completed"@,
            match s.completed {
                Some(n) => Json::Int(n),
                None => Json::Null,
            },
        ),
        ("items"@, list),
        ("logs"@, Json::List(s.logs)),
    ];
    assert(m[0].0.len() == 7 && m[1].0.len() == 9 && m[2].0.len() == 5 && m[3].0.len() == 4);
    assert(distinct_keys(m));
    lemma_object_member(m, 0);
    lemma_object_member(m, 1);
    lemma_object_member(m, 2);
    lemma_object_member(m, 3);
    assert(is_list_of(list, Seq::new(items.len(), |i: int| queue_item_doc(items[i]))));
}

/// `queue_add` reports 0 for an added item, 1 for an updated one, 2 for a
/// requeued one and 3 for an ignored one.
pub proof fn law_add_result_code_values(result: AddQueueResult)
    ensures
        result is Added ==> add_result_number(result) == 0,
        result is Updated ==> add_result_number(result) == 1,
        result is Requeued ==> add_result_number(result) == 2,
        result is Ignored ==> add_result_number(result) == 3,
{
}

/// Each effect of adding an item has its own code, from 0 to 3.
pub proof fn law_add_result_codes_distinct(a: AddQueueResult, b: AddQueueResult)
    ensures
        0 <= add_result_number(a) <= 3,
        add_result_number(a) == add_result_number(b) ==> a == b,
{
}

/// Each item status has its own name.
pub proof fn law_status_names_distinct(a: DownloadQueueStatus, b: DownloadQueueStatus)
    ensures
        status_text(a) == status_text(b) ==> a == b,
{
    reveal_strlit("Pending");
    reveal_strlit("Downloading");
    reveal_strlit("Success");
    reveal_strlit("Failed");
    reveal_strlit("Canceled");
    if status_text(a) == status_text(b) {
        assert(status_text(a)[0] == status_text(b)[0]);
    }
}

/// Matching bundle ids ignores ASCII case in both directions: it is
/// reflexive and symmetric.
pub proof fn law_bundle_id_match_symmetric(a: Seq<char>, b: Seq<char>)
    ensures
        same_ignoring_ascii_case(a, a),
        same_ignoring_ascii_case(a, b) == same_ignoring_ascii_case(b, a),
{
}

} // verus!
