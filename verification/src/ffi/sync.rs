//! Purchased-apps synchronisation as a polled task: the arguments of
//! `sync_create`, the state that the worker updates and the host polls, and
//! the JSON documents of its log entries, outcome and status.
//!
//! Life cycle: create (the worker starts, `running` is set) → poll status /
//! cancel → destroy. The worker reports progress and log entries while it
//! runs; when it stops, how it ended is recorded and `running` cleared in one
//! step, so a poll sees `running` false exactly when an outcome is present.

use vstd::prelude::*;

use crate::ffi::document::{
    distinct_keys, has_member, is_list_of, lemma_object_member, object, string_views, texts_json, views, Json,
    JsonValue, ObjectBuilder,
};
use crate::ffi::{
    arg, check_arguments, checked, first_failure, lemma_first_failure_none, read_cstr, readable,
    text_of, ArgCheck, LastError,
};
use crate::ipatool::response_parser::NormalizedText;
use crate::purchases::sync_service::{LogLevel, LogMessage, SyncOutcome};

verus! {

// ---------------------------------------------------------------------------
// Log entries
// ---------------------------------------------------------------------------

/// The name of a log level in the host's log documents.
pub open spec fn log_level_name(level: LogLevel) -> Seq<char> {
    match level {
        LogLevel::Info => "info"@,
        LogLevel::Tip => "tip"@,
        LogLevel::Success => "success"@,
        LogLevel::Error => "error"@,
        LogLevel::Ipatool => "ipatool"@,
    }
}

/// A host message as JSON: `{"kind":"key","key":..,"args":[..]}` or
/// `{"kind":"raw","text":..}`.
pub open spec fn normalized_text_doc(text: NormalizedText) -> Json {
    match text {
        NormalizedText::Keyed { key, args } => object(
            seq![
                ("kind"@, Json::Text("key"@)),
                ("key"@, Json::Text(key@)),
                ("args"@, texts_json(string_views(args@))),
            ],
        ),
        NormalizedText::Raw(text) => object(
            seq![("kind"@, Json::Text("raw"@)), ("text"@, Json::Text(text@))],
        ),
    }
}

/// A log entry as JSON: `{"level":..,"message":..}`.
pub open spec fn log_message_doc(log: LogMessage) -> Json {
    object(
        seq![
            ("level"@, Json::Text(log_level_name(log.level))),
            ("message"@, normalized_text_doc(log.message)),
        ],
    )
}

fn log_level_text(level: &LogLevel) -> (res: &'static str)
    ensures
        res@ == log_level_name(*level),
{
    match level {
        LogLevel::Info => "info",
        LogLevel::Tip => "tip",
        LogLevel::Success => "success",
        LogLevel::Error => "error",
        LogLevel::Ipatool => "ipatool",
    }
}

/// A host message as a JSON document.
pub fn normalized_text_json(text: &NormalizedText) -> (res: JsonValue)
    ensures
        res@ == normalized_text_doc(*text),
{
    let mut message = ObjectBuilder::new();
    match text {
        NormalizedText::Keyed { key, args } => {
            message.field("kind", JsonValue::text("key"));
            message.field("key", JsonValue::text(key));
            message.field("args", JsonValue::texts(args));
            assert(message@ == seq![
                ("kind"@, Json::Text("key"@)),
                ("key"@, Json::Text(key@)),
                ("args"@, texts_json(string_views(args@))),
            ]);
        },
        NormalizedText::Raw(raw) => {
            message.field("kind", JsonValue::text("raw"));
            message.field("text", JsonValue::text(raw.as_str()));
            assert(message@ == seq![("kind"@, Json::Text("raw"@)), ("text"@, Json::Text(raw@))]);
        },
    }
    message.build()
}

/// A log entry as a JSON document; shared by the synchronisation and the
/// download queue.
pub fn log_message_json(log: &LogMessage) -> (res: JsonValue)
    ensures
        res@ == log_message_doc(*log),
{
    let mut entry = ObjectBuilder::new();
    entry.field("level", JsonValue::text(log_level_text(&log.level)));
    entry.field("message", normalized_text_json(&log.message));
    assert(entry@ == seq![
        ("level"@, Json::Text(log_level_name(log.level))),
        ("message"@, normalized_text_doc(log.message)),
    ]);
    entry.build()
}

// ---------------------------------------------------------------------------
// Outcomes
// ---------------------------------------------------------------------------

/// The outcome document of a failed synchronisation.
pub open spec fn failed_doc(message: Seq<char>) -> Json {
    object(seq![("kind"@, Json::Text("failed"@)), ("message"@, Json::Text(message))])
}

/// How a synchronisation ended, as JSON.
pub open spec fn sync_outcome_doc(outcome: SyncOutcome) -> Json {
    match outcome {
        SyncOutcome::Completed { synced, total } => object(
            seq![
                ("kind"@, Json::Text("completed"@)),
                ("synced"@, Json::Int(synced as int)),
                ("total"@, Json::Int(total as int)),
            ],
        ),
        SyncOutcome::AlreadyRunning => object(seq![("kind"@, Json::Text("already_running"@))]),
        SyncOutcome::Canceled => object(seq![("kind"@, Json::Text("canceled"@))]),
        SyncOutcome::InvalidAccount => object(seq![("kind"@, Json::Text("invalid_account"@))]),
        SyncOutcome::Failed { message } => failed_doc(message@),
    }
}

fn failed_json(message: &str) -> (res: JsonValue)
    ensures
        res@ == failed_doc(message@),
{
    let mut doc = ObjectBuilder::new();
    doc.field("kind", JsonValue::text("failed"));
    doc.field("message", JsonValue::text(message));
    assert(doc@ == seq![("kind"@, Json::Text("failed"@)), ("message"@, Json::Text(message@))]);
    doc.build()
}

/// How a synchronisation ended, as a JSON document.
pub fn sync_outcome_json(outcome: &SyncOutcome) -> (res: JsonValue)
    ensures
        res@ == sync_outcome_doc(*outcome),
{
    let mut doc = ObjectBuilder::new();
    match outcome {
        SyncOutcome::Completed { synced, total } => {
            doc.field("kind", JsonValue::text("completed"));
            doc.field("synced", JsonValue::Int(*synced));
            doc.field("total", JsonValue::Int(*total));
            assert(doc@ == seq![
                ("kind"@, Json::Text("completed"@)),
                ("synced"@, Json::Int(*synced as int)),
                ("total"@, Json::Int(*total as int)),
            ]);
        },
        SyncOutcome::AlreadyRunning => {
            doc.field("kind", JsonValue::text("already_running"));
            assert(doc@ == seq![("kind"@, Json::Text("already_running"@))]);
        },
        SyncOutcome::Canceled => {
            doc.field("kind", JsonValue::text("canceled"));
            assert(doc@ == seq![("kind"@, Json::Text("canceled"@))]);
        },
        SyncOutcome::InvalidAccount => {
            doc.field("kind", JsonValue::text("invalid_account"));
            assert(doc@ == seq![("kind"@, Json::Text("invalid_account"@))]);
        },
        SyncOutcome::Failed { message } => {
            return failed_json(message.as_str());
        },
    }
    doc.build()
}

// ---------------------------------------------------------------------------
// The polled state
// ---------------------------------------------------------------------------

/// What the host can see of a synchronisation.
pub struct SyncSnapshot {
    pub running: bool,
    pub synced: int,
    pub total: int,
    pub outcome: Option<Json>,
    pub logs: Seq<Json>,
}

/// One thing that happens to a synchronisation's state.
pub enum SyncEvent {
    /// The worker reported how many of how many apps are synchronised.
    Progress { synced: int, total: int },
    /// The worker emitted a log entry.
    Log(Json),
    /// The worker stopped; the given outcome document says how its run ended.
    Ended(Json),
}

/// The state after `event`.
pub open spec fn sync_step(s: SyncSnapshot, event: SyncEvent) -> SyncSnapshot {
    match event {
        SyncEvent::Progress { synced, total } => SyncSnapshot { synced, total, ..s },
        SyncEvent::Log(entry) => SyncSnapshot { logs: s.logs.push(entry), ..s },
        SyncEvent::Ended(outcome) => SyncSnapshot { running: false, outcome: Some(outcome), ..s },
    }
}

/// A snapshot is settled consistently: the task has stopped running exactly
/// when an outcome is present, and a recorded outcome is a JSON object.
pub open spec fn sync_consistent(s: SyncSnapshot) -> bool {
    &&& !s.running <==> s.outcome is Some
    &&& s.outcome matches Some(doc) ==> doc is Object
}

/// The `outcome` member of the status document: the outcome, or `null`.
pub open spec fn outcome_member(s: SyncSnapshot) -> Json {
    match s.outcome {
        Some(doc) => doc,
        None => Json::Null,
    }
}

/// How the worker's run ended.
pub enum SyncWorkerEnd {
    /// The database could not be opened; the message describes why.
    DatabaseUnavailable(String),
    /// The synchronisation ran to an outcome.
    Done(SyncOutcome),
    /// The synchronisation panicked.
    Panicked,
}

/// The outcome document of a run that ended as `end`: a database that could
/// not be opened and a panic are reported as failures.
pub open spec fn end_outcome(end: SyncWorkerEnd) -> Json {
    match end {
        SyncWorkerEnd::DatabaseUnavailable(message) => failed_doc(message@),
        SyncWorkerEnd::Done(outcome) => sync_outcome_doc(outcome),
        SyncWorkerEnd::Panicked => failed_doc("panic in sync worker"@),
    }
}

/// The event that records how the worker's run ended.
pub open spec fn end_event(end: SyncWorkerEnd) -> SyncEvent {
    SyncEvent::Ended(end_outcome(end))
}

/// The state of a synchronisation, shared by its worker and the host.
pub struct SyncState {
    running: bool,
    synced: i64,
    total: i64,
    outcome: Option<JsonValue>,
    logs: Vec<JsonValue>,
}

impl View for SyncState {
    type V = SyncSnapshot;

    closed spec fn view(&self) -> SyncSnapshot {
        SyncSnapshot {
            running: self.running,
            synced: self.synced as int,
            total: self.total as int,
            outcome: match self.outcome {
                Some(doc) => Some(doc@),
                None => None,
            },
            logs: views(self.logs@),
        }
    }
}

/// The status document of a synchronisation:
/// `{"running":..,"progress":{"synced":..,"total":..},"outcome":..,"logs":[..]}`.
pub open spec fn sync_status_doc(s: SyncSnapshot) -> Json {
    object(
        seq![
            ("running"@, Json::Bool(s.running)),
            (
                "progress"@,
                object(seq![("synced"@, Json::Int(s.synced)), ("total"@, Json::Int(s.total))]),
            ),
            ("outcome"@, outcome_member(s)),
            ("logs"@, Json::List(s.logs)),
        ],
    )
}

impl SyncState {
    /// The state runs exactly as long as no outcome has been recorded, and a
    /// recorded outcome is an object.
    #[verifier::type_invariant]
    spec fn settled_consistently(&self) -> bool {
        &&& self.running == self.outcome is None
        &&& self.outcome matches Some(doc) ==> doc@ is Object
    }

    /// The state of a synchronisation whose worker has just been started.
    pub fn started() -> (res: SyncState)
        ensures
            res@.running,
            res@.synced == 0,
            res@.total == 0,
            res@.outcome is None,
            res@.logs == Seq::<Json>::empty(),
    {
        let res = SyncState { running: true, synced: 0, total: 0, outcome: None, logs: Vec::new() };
        assert(res@.logs =~= Seq::<Json>::empty());
        res
    }

    /// Records the worker's progress.
    pub fn record_progress(&mut self, synced: i64, total: i64)
        ensures
            final(self)@ == sync_step(
                old(self)@,
                SyncEvent::Progress { synced: synced as int, total: total as int },
            ),
    {
        proof {
            use_type_invariant(&*self);
        }
        self.synced = synced;
        self.total = total;
    }

    /// Appends a log entry.
    pub fn record_log(&mut self, log: &LogMessage)
        ensures
            final(self)@ == sync_step(old(self)@, SyncEvent::Log(log_message_doc(*log))),
    {
        proof {
            use_type_invariant(&*self);
        }
        let entry = log_message_json(log);
        let mut logs: Vec<JsonValue> = Vec::new();
        std::mem::swap(&mut logs, &mut self.logs);
        logs.push(entry);
        self.logs = logs;
        assert(views(self.logs@) =~= views(old(self).logs@).push(log_message_doc(*log)));
    }

    /// Records that the worker has stopped and how its run ended, both in one
    /// step.
    pub fn end_worker(&mut self, end: &SyncWorkerEnd)
        ensures
            final(self)@ == sync_step(old(self)@, end_event(*end)),
    {
        proof {
            use_type_invariant(&*self);
        }
        let outcome = match end {
            SyncWorkerEnd::DatabaseUnavailable(message) => failed_json(message.as_str()),
            SyncWorkerEnd::Done(outcome) => sync_outcome_json(outcome),
            SyncWorkerEnd::Panicked => failed_json("panic in sync worker"),
        };
        let mut logs: Vec<JsonValue> = Vec::new();
        std::mem::swap(&mut logs, &mut self.logs);
        *self = SyncState {
            running: false,
            synced: self.synced,
            total: self.total,
            outcome: Some(outcome),
            logs,
        };
    }

    /// The status document that a poll returns; every state it is taken of
    /// is settled consistently.
    pub fn status_json(&self) -> (res: JsonValue)
        ensures
            res@ == sync_status_doc(self@),
            sync_consistent(self@),
            outcome_member(self@) == Json::Null <==> self@.running,
    {
        proof {
            use_type_invariant(self);
        }
        let mut progress = ObjectBuilder::new();
        progress.field("synced", JsonValue::Int(self.synced));
        progress.field("total", JsonValue::Int(self.total));
        let ghost progress_members = progress@;
        let outcome = match &self.outcome {
            Some(doc) => doc.duplicate(),
            None => JsonValue::Null,
        };
        let mut logs: Vec<JsonValue> = Vec::new();
        for i in 0..self.logs.len()
            invariant
                logs@.len() == i,
                forall|j: int| 0 <= j < i ==> #[trigger] logs@[j]@ == self.logs@[j]@,
        {
            logs.push(self.logs[i].duplicate());
        }
        assert(views(logs@) =~= views(self.logs@));
        let mut doc = ObjectBuilder::new();
        doc.field("running", JsonValue::Bool(self.running));
        doc.field("progress", progress.build());
        doc.field("outcome", outcome);
        doc.field("logs", JsonValue::list(logs));
        let ghost members = doc@;
        let res = doc.build();
        assert(res@ == object(members));
        let ghost snap = self@;
        assert(progress_members =~= seq![
            ("synced"@, Json::Int(snap.synced)),
            ("total"@, Json::Int(snap.total)),
        ]);
        let ghost l2 = seq![
            ("running"@, Json::Bool(snap.running)),
            (
                "progress"@,
                object(seq![("synced"@, Json::Int(snap.synced)), ("total"@, Json::Int(snap.total))]),
            ),
            ("outcome"@, outcome_member(snap)),
            ("logs"@, Json::List(snap.logs)),
        ];
        assert(members =~= l2);
        res
    }
}

// ---------------------------------------------------------------------------
// Arguments of sync_create
// ---------------------------------------------------------------------------

/// What a synchronisation is started with.
pub struct SyncRequest {
    pub db_path: String,
    pub exe_path: String,
    pub passphrase: String,
    pub account: String,
    pub detailed_log: bool,
}

/// The checks of `sync_create`, in call order.
pub open spec fn sync_create_checks(
    db_path: Option<&[u8]>,
    exe_path: Option<&[u8]>,
    passphrase: Option<&[u8]>,
    account: Option<&[u8]>,
    out_handle_present: bool,
) -> Seq<ArgCheck> {
    seq![
        arg("db_path", readable(db_path)),
        arg("exe_path", readable(exe_path)),
        arg("passphrase", readable(passphrase)),
        arg("account", readable(account)),
        arg("out_handle", out_handle_present),
    ]
}

/// Reads the arguments of `sync_create`: all four strings are required and
/// the output handle must be writable; the strings are copied, so the worker
/// never reads the host's memory.
pub fn sync_create_arguments(
    slot: &mut LastError,
    db_path: Option<&[u8]>,
    exe_path: Option<&[u8]>,
    passphrase: Option<&[u8]>,
    account: Option<&[u8]>,
    detailed_log: i32,
    out_handle_present: bool,
) -> (res: Result<SyncRequest, i32>)
    ensures
        checked(
            res,
            old(slot)@,
            final(slot)@,
            first_failure(
                sync_create_checks(db_path, exe_path, passphrase, account, out_handle_present),
            ),
        ),
        res matches Ok(request) ==> {
            &&& request.db_path@ == text_of(db_path)
            &&& request.exe_path@ == text_of(exe_path)
            &&& request.passphrase@ == text_of(passphrase)
            &&& request.account@ == text_of(account)
            &&& request.detailed_log == (detailed_log != 0)
        },
{
    let db_path_text = read_cstr(db_path);
    let exe_path_text = read_cstr(exe_path);
    let passphrase_text = read_cstr(passphrase);
    let account_text = read_cstr(account);
    let checks = vec![
        ArgCheck { name: "db_path", passed: db_path_text.is_ok() },
        ArgCheck { name: "exe_path", passed: exe_path_text.is_ok() },
        ArgCheck { name: "passphrase", passed: passphrase_text.is_ok() },
        ArgCheck { name: "account", passed: account_text.is_ok() },
        ArgCheck { name: "out_handle", passed: out_handle_present },
    ];
    assert(checks@ =~= sync_create_checks(db_path, exe_path, passphrase, account, out_handle_present));
    match check_arguments(slot, &checks) {
        Err(code) => Err(code),
        Ok(()) => {
            proof {
                lemma_first_failure_none(checks@);
                assert(checks@[0].passed && checks@[1].passed && checks@[2].passed
                    && checks@[3].passed);
            }
            Ok(
                SyncRequest {
                    db_path: db_path_text.unwrap(),
                    exe_path: exe_path_text.unwrap(),
                    passphrase: passphrase_text.unwrap(),
                    account: account_text.unwrap(),
                    detailed_log: detailed_log != 0,
                },
            )
        },
    }
}


// ---------------------------------------------------------------------------
// Laws of the polled state
// ---------------------------------------------------------------------------

/// Log entries are only ever appended: after anything that happens to a
/// synchronisation, the entries already logged are still there, in order,
/// at the front.
pub proof fn law_sync_logs_only_grow(s: SyncSnapshot, event: SyncEvent)
    ensures
        s.logs.len() <= sync_step(s, event).logs.len(),
        sync_step(s, event).logs.take(s.logs.len() as int) == s.logs,
{
    assert(sync_step(s, event).logs.take(s.logs.len() as int) =~= s.logs);
}

/// A synchronisation that has stopped running never runs again, and an
/// outcome once recorded is never cleared.
pub proof fn law_sync_settling_is_permanent(s: SyncSnapshot, event: SyncEvent)
    ensures
        !s.running ==> !sync_step(s, event).running,
        s.outcome is Some ==> sync_step(s, event).outcome is Some,
{
}

/// However the worker's run ends (database unavailable, an outcome, or a
/// panic), afterwards the task no longer runs and has an outcome; a panic is
/// reported as a failure.
pub proof fn law_sync_end_settles(s: SyncSnapshot, end: SyncWorkerEnd)
    ensures
        !sync_step(s, end_event(end)).running,
        sync_step(s, end_event(end)).outcome is Some,
        end is Panicked ==> sync_step(s, end_event(end)).outcome == Some(
            failed_doc("panic in sync worker"@),
        ),
        end matches SyncWorkerEnd::DatabaseUnavailable(message) ==> sync_step(
            s,
            end_event(end),
        ).outcome == Some(failed_doc(message@)),
        end matches SyncWorkerEnd::Done(outcome) ==> sync_step(s, end_event(end)).outcome == Some(
            sync_outcome_doc(outcome),
        ),
        sync_step(s, end_event(end)).logs == s.logs,
        sync_step(s, end_event(end)).synced == s.synced,
        sync_step(s, end_event(end)).total == s.total,
{
}

/// Every way a run ends is recorded as an object.
pub proof fn law_sync_outcomes_are_objects(end: SyncWorkerEnd)
    ensures
        end_outcome(end) is Object,
{
}

/// A synchronisation is not running exactly when it has an outcome, which
/// is an object: in the status document `outcome` is `null` exactly while the
/// task runs. A freshly started one runs without an outcome, and every step
/// that records an end with an object keeps this.
pub proof fn law_sync_running_until_outcome(s: SyncSnapshot, event: SyncEvent)
    requires
        sync_consistent(s),
        event matches SyncEvent::Ended(doc) ==> doc is Object,
    ensures
        sync_consistent(sync_step(s, event)),
        outcome_member(s) == Json::Null <==> s.running,
        sync_consistent(
            SyncSnapshot {
                running: true,
                synced: 0,
                total: 0,
                outcome: None,
                logs: Seq::<Json>::empty(),
            },
        ),
{
}

/// Progress reports change the counts and nothing else.
pub proof fn law_sync_progress_only_counts(s: SyncSnapshot, synced: int, total: int)
    ensures
        sync_step(s, SyncEvent::Progress { synced, total }).running == s.running,
        sync_step(s, SyncEvent::Progress { synced, total }).outcome == s.outcome,
        sync_step(s, SyncEvent::Progress { synced, total }).logs == s.logs,
        sync_step(s, SyncEvent::Progress { synced, total }).synced == synced,
        sync_step(s, SyncEvent::Progress { synced, total }).total == total,
{
}

/// A completed synchronisation reports, under `synced` and `total`, the
/// outcome's own counts, in that order, with the kind `completed`.
pub proof fn law_completed_outcome_counts(synced: i64, total: i64)
    ensures
        has_member(
            sync_outcome_doc(SyncOutcome::Completed { synced, total }),
            "kind"@,
            Json::Text("completed"@),
        ),
        has_member(
            sync_outcome_doc(SyncOutcome::Completed { synced, total }),
            "synced"@,
            Json::Int(synced as int),
        ),
        has_member(
            sync_outcome_doc(SyncOutcome::Completed { synced, total }),
            "total"@,
            Json::Int(total as int),
        ),
{
    reveal_strlit("kind");
    reveal_strlit("synced");
    reveal_strlit("total");
    let m = seq![
        ("kind"@, Json::Text("completed"@)),
        ("synced"@, Json::Int(synced as int)),
        ("total"@, Json::Int(total as int)),
    ];
    assert(m[0].0.len() == 4 && m[1].0.len() == 6 && m[2].0.len() == 5);
    assert(distinct_keys(m));
    lemma_object_member(m, 0);
    lemma_object_member(m, 1);
    lemma_object_member(m, 2);
}

/// The other ways a synchronisation can end are reported under their own
/// kinds, and a failure with its own message.
pub proof fn law_outcome_kinds(message: Seq<char>)
    ensures
        has_member(sync_outcome_doc(SyncOutcome::AlreadyRunning), "kind"@, Json::Text("already_running"@)),
        has_member(sync_outcome_doc(SyncOutcome::Canceled), "kind"@, Json::Text("canceled"@)),
        has_member(
            sync_outcome_doc(SyncOutcome::InvalidAccount),
            "kind"@,
            Json::Text("invalid_account"@),
        ),
        has_member(failed_doc(message), "kind"@, Json::Text("failed"@)),
        has_member(failed_doc(message), "message"@, Json::Text(message)),
{
    reveal_strlit("kind");
    reveal_strlit("message");
    let single = |v: Json| seq![("kind"@, v)];
    assert(distinct_keys(single(Json::Text("already_running"@))));
    lemma_object_member(single(Json::Text("already_running"@)), 0);
    assert(distinct_keys(single(Json::Text("canceled"@))));
    lemma_object_member(single(Json::Text("canceled"@)), 0);
    assert(distinct_keys(single(Json::Text("invalid_account"@))));
    lemma_object_member(single(Json::Text("invalid_account"@)), 0);
    let m = seq![("kind"@, Json::Text("failed"@)), ("message"@, Json::Text(message))];
    assert(m[0].0.len() == 4 && m[1].0.len() == 7);
    assert(distinct_keys(m));
    lemma_object_member(m, 0);
    lemma_object_member(m, 1);
}

/// A log entry carries the name of its own level and its message.
pub proof fn law_log_message_members(log: LogMessage)
    ensures
        has_member(log_message_doc(log), "level"@, Json::Text(log_level_name(log.level))),
        has_member(log_message_doc(log), "message"@, normalized_text_doc(log.message)),
        log.message matches NormalizedText::Raw(text) ==> has_member(
            normalized_text_doc(log.message),
            "text"@,
            Json::Text(text@),
        ) && has_member(normalized_text_doc(log.message), "kind"@, Json::Text("raw"@)),
        log.message matches NormalizedText::Keyed { key, args } ==> has_member(
            normalized_text_doc(log.message),
            "key"@,
            Json::Text(key@),
        ) && has_member(normalized_text_doc(log.message), "args"@, texts_json(string_views(args@)))
            && has_member(normalized_text_doc(log.message), "kind"@, Json::Text("key"@)),
{
    reveal_strlit("level");
    reveal_strlit("message");
    reveal_strlit("kind");
    reveal_strlit("key");
    reveal_strlit("args");
    reveal_strlit("text");
    let m = seq![
        ("level"@, Json::Text(log_level_name(log.level))),
        ("message"@, normalized_text_doc(log.message)),
    ];
    assert(m[0].0.len() == 5 && m[1].0.len() == 7);
    assert(distinct_keys(m));
    lemma_object_member(m, 0);
    lemma_object_member(m, 1);
    match log.message {
        NormalizedText::Keyed { key, args } => {
            let k = seq![
                ("kind"@, Json::Text("key"@)),
                ("key"@, Json::Text(key@)),
                ("args"@, texts_json(string_views(args@))),
            ];
            assert(k[0].0.len() == 4 && k[1].0.len() == 3 && k[2].0.len() == 4);
            assert(k[0].0[0] == 'k' && k[2].0[0] == 'a');
            assert(distinct_keys(k));
            lemma_object_member(k, 0);
            lemma_object_member(k, 1);
            lemma_object_member(k, 2);
        },
        NormalizedText::Raw(text) => {
            let r = seq![("kind"@, Json::Text("raw"@)), ("text"@, Json::Text(text@))];
            assert(r[0].0[0] == 'k' && r[1].0[0] == 't');
            assert(distinct_keys(r));
            lemma_object_member(r, 0);
            lemma_object_member(r, 1);
        },
    }
}

/// The status document shows whether the task runs, its progress counts,
/// its outcome (`null` while there is none) and its log entries in order.
pub proof fn law_sync_status_members(s: SyncSnapshot)
    ensures
        has_member(sync_status_doc(s), "running"@, Json::Bool(s.running)),
        has_member(sync_status_doc(s), "outcome"@, outcome_member(s)),
        has_member(sync_status_doc(s), "logs"@, Json::List(s.logs)),
        exists|progress: Json|
            has_member(sync_status_doc(s), "progress"@, progress) && has_member(
                progress,
                "synced"@,
                Json::Int(s.synced),
            ) && has_member(progress, "total"@, Json::Int(s.total)),
{
    reveal_strlit("running");
    reveal_strlit("progress");
    reveal_strlit("outcome");
    reveal_strlit("logs");
    reveal_strlit("synced");
    reveal_strlit("total");
    let p = seq![("synced"@, Json::Int(s.synced)), ("total"@, Json::Int(s.total))];
    assert(p[0].0.len() == 6 && p[1].0.len() == 5);
    assert(distinct_keys(p));
    lemma_object_member(p, 0);
    lemma_object_member(p, 1);
    let m = seq![
        ("running"@, Json::Bool(s.running)),
        ("progress"@, object(p)),
        ("outcome"@, outcome_member(s)),
        ("logs"@, Json::List(s.logs)),
    ];
    assert(m[0].0.len() == 7 && m[1].0.len() == 8 && m[2].0.len() == 7 && m[3].0.len() == 4);
    assert(m[0].0[0] == 'r' && m[2].0[0] == 'o');
    assert(distinct_keys(m));
    lemma_object_member(m, 0);
    lemma_object_member(m, 1);
    lemma_object_member(m, 2);
    lemma_object_member(m, 3);
}

/// The log levels are named `info`, `tip`, `success`, `error` and `ipatool`.
pub proof fn law_log_level_name_values(level: LogLevel)
    ensures
        level is Info ==> log_level_name(level) == "info"@,
        level is Tip ==> log_level_name(level) == "tip"@,
        level is Success ==> log_level_name(level) == "success"@,
        level is Error ==> log_level_name(level) == "error"@,
        level is Ipatool ==> log_level_name(level) == "ipatool"@,
{
}

/// Each log level has its own name.
pub proof fn law_log_level_names_distinct(a: LogLevel, b: LogLevel)
    ensures
        log_level_name(a) == log_level_name(b) ==> a == b,
{
    reveal_strlit("info");
    reveal_strlit("tip");
    reveal_strlit("success");
    reveal_strlit("error");
    reveal_strlit("ipatool");
    if log_level_name(a) == log_level_name(b) {
        assert(log_level_name(a)[0] == log_level_name(b)[0]);
        assert(log_level_name(a).len() == log_level_name(b).len());
    }
}

} // verus!
