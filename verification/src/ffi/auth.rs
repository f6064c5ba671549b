//! Authentication calls: login, two-factor verification, logout, the login
//! status query and the mock-account check.
//!
//! Documents: a login or verification result is
//! `{"status":..,"message":{"kind":"key","key":..,"args":[..]},"raw_payload":..,"logs":[..]}`
//! (or a message `{"kind":"raw","text":..}`), with `status` one of
//! `Success`, `RequiresTwoFactor`, `InvalidCredential`, `AuthCodeInvalid`,
//! `NetworkError`, `Timeout`, `UnknownError`; `logs` holds the command line
//! and output entries (masked by the ipatool client) when the call's
//! `detailed_log` switch is on, and nothing otherwise. The status query gives
//! `{"payload":..,"is_success":..,"has_explicit_failure":..,"email":..,"is_account_missing":..}`;
//! logout gives `{"success":..}`; the mock-account check gives a boolean.

use vstd::prelude::*;

use crate::auth::login::{LoginResult, LoginStatus, Message};
use crate::ffi::document::{
    distinct_keys, has_member, is_list_of, lemma_object_member, object, optional_text_json,
    string_views, texts_json, Json, JsonValue, ObjectBuilder,
};
use crate::ffi::downloads::{log_docs, log_list_json};
use crate::ffi::sync::log_message_doc;
use crate::ffi::{
    arg, check_arguments, checked, first_failure, lemma_first_failure_none, lemma_first_failure_prefix, opt_view,
    optional_readable, optional_text_of, read_cstr, read_opt_cstr, readable, set_last_error,
    text_of, without_nul, ArgCheck, LastError, FFI_ERR_FAILED,
};
use crate::ipatool::client::ClientError;
use crate::purchases::sync_service::LogMessage;

verus! {

// ---------------------------------------------------------------------------
// Login results
// ---------------------------------------------------------------------------

/// The name of a login status in the host's documents.
pub open spec fn login_status_text(status: LoginStatus) -> Seq<char> {
    match status {
        LoginStatus::Success => "Success"@,
        LoginStatus::RequiresTwoFactor => "RequiresTwoFactor"@,
        LoginStatus::InvalidCredential => "InvalidCredential"@,
        LoginStatus::AuthCodeInvalid => "AuthCodeInvalid"@,
        LoginStatus::NetworkError => "NetworkError"@,
        LoginStatus::Timeout => "Timeout"@,
        LoginStatus::UnknownError => "UnknownError"@,
    }
}

/// The name of a login status.
pub fn login_status_name(status: LoginStatus) -> (res: &'static str)
    ensures
        res@ == login_status_text(status),
{
    match status {
        LoginStatus::Success => "Success",
        LoginStatus::RequiresTwoFactor => "RequiresTwoFactor",
        LoginStatus::InvalidCredential => "InvalidCredential",
        LoginStatus::AuthCodeInvalid => "AuthCodeInvalid",
        LoginStatus::NetworkError => "NetworkError",
        LoginStatus::Timeout => "Timeout",
        LoginStatus::UnknownError => "UnknownError",
    }
}

/// A login message as JSON.
pub open spec fn message_doc(message: Message) -> Json {
    match message {
        Message::Key { key, args } => object(
            seq![
                ("kind"@, Json::Text("key"@)),
                ("key"@, Json::Text(key@)),
                ("args"@, texts_json(string_views(args@))),
            ],
        ),
        Message::Raw(text) => object(
            seq![("kind"@, Json::Text("raw"@)), ("text"@, Json::Text(text@))],
        ),
    }
}

/// A login result as JSON, with the log entries the call reports.
pub open spec fn login_result_doc(result: LoginResult, logs: Seq<LogMessage>) -> Json {
    object(
        seq![
            ("status"@, Json::Text(login_status_text(result.status))),
            ("message"@, message_doc(result.message)),
            ("raw_payload"@, optional_text_json(opt_view(result.raw_payload))),
            ("logs"@, Json::List(log_docs(logs))),
        ],
    )
}

fn message_json(message: &Message) -> (res: JsonValue)
    ensures
        res@ == message_doc(*message),
{
    let mut doc = ObjectBuilder::new();
    match message {
        Message::Key { key, args } => {
            doc.field("kind", JsonValue::text("key"));
            doc.field("key", JsonValue::text(key));
            doc.field("args", JsonValue::texts(args));
            let ghost members = doc@;
            assert(members =~= seq![
                ("kind"@, Json::Text("key"@)),
                ("key"@, Json::Text(key@)),
                ("args"@, texts_json(string_views(args@))),
            ]);
        },
        Message::Raw(text) => {
            doc.field("kind", JsonValue::text("raw"));
            doc.field("text", JsonValue::text(text.as_str()));
            let ghost members = doc@;
            assert(members =~= seq![("kind"@, Json::Text("raw"@)), ("text"@, Json::Text(text@))]);
        },
    }
    doc.build()
}

/// The document of a login or verification result and the log entries the
/// call reports (see `purchase::reported_logs`: none unless detailed logging
/// was asked for).
pub fn login_result_json(result: &LoginResult, logs: &Vec<LogMessage>) -> (res: JsonValue)
    ensures
        res@ == login_result_doc(*result, logs@),
{
    let mut doc = ObjectBuilder::new();
    doc.field("status", JsonValue::text(login_status_name(result.status)));
    doc.field("message", message_json(&result.message));
    doc.field("raw_payload", JsonValue::optional_text(&result.raw_payload));
    doc.field("logs", log_list_json(logs));
    let ghost members = doc@;
    assert(members =~= seq![
        ("status"@, Json::Text(login_status_text(result.status))),
        ("message"@, message_doc(result.message)),
        ("raw_payload"@, optional_text_json(opt_view(result.raw_payload))),
        ("logs"@, Json::List(log_docs(logs@))),
    ]);
    doc.build()
}

// ---------------------------------------------------------------------------
// Login and verification arguments
// ---------------------------------------------------------------------------

/// What a login or a verification is made with.
pub struct LoginArguments {
    pub exe_path: String,
    pub account: String,
    pub password: String,
    pub auth_code: String,
    pub passphrase: String,
    /// Whether the command lines and output are reported as log entries.
    pub detailed_log: bool,
}

/// The checks of `read_login_arguments`, in call order: the cancel flag
/// first, then the five strings.
pub open spec fn login_argument_checks(
    exe_path: Option<&[u8]>,
    account: Option<&[u8]>,
    password: Option<&[u8]>,
    auth_code: Option<&[u8]>,
    passphrase: Option<&[u8]>,
    cancel_present: bool,
) -> Seq<ArgCheck> {
    seq![
        arg("cancel", cancel_present),
        arg("exe_path", readable(exe_path)),
        arg("account", readable(account)),
        arg("password", readable(password)),
        arg("auth_code", readable(auth_code)),
        arg("passphrase", readable(passphrase)),
    ]
}

/// Reads the arguments shared by login and verification; all five strings
/// are required, and the `detailed_log` switch counts as on when non-zero.
pub fn read_login_arguments(
    slot: &mut LastError,
    exe_path: Option<&[u8]>,
    account: Option<&[u8]>,
    password: Option<&[u8]>,
    auth_code: Option<&[u8]>,
    passphrase: Option<&[u8]>,
    detailed_log: i32,
    cancel_present: bool,
) -> (res: Result<LoginArguments, i32>)
    ensures
        checked(
            res,
            old(slot)@,
            final(slot)@,
            first_failure(
                login_argument_checks(
                    exe_path,
                    account,
                    password,
                    auth_code,
                    passphrase,
                    cancel_present,
                ),
            ),
        ),
        res matches Ok(args) ==> {
            &&& args.exe_path@ == text_of(exe_path)
            &&& args.account@ == text_of(account)
            &&& args.password@ == text_of(password)
            &&& args.auth_code@ == text_of(auth_code)
            &&& args.passphrase@ == text_of(passphrase)
            &&& args.detailed_log == (detailed_log != 0)
        },
{
    let exe_path_text = read_cstr(exe_path);
    let account_text = read_cstr(account);
    let password_text = read_cstr(password);
    let auth_code_text = read_cstr(auth_code);
    let passphrase_text = read_cstr(passphrase);
    let checks = vec![
        ArgCheck { name: "cancel", passed: cancel_present },
        ArgCheck { name: "exe_path", passed: exe_path_text.is_ok() },
        ArgCheck { name: "account", passed: account_text.is_ok() },
        ArgCheck { name: "password", passed: password_text.is_ok() },
        ArgCheck { name: "auth_code", passed: auth_code_text.is_ok() },
        ArgCheck { name: "passphrase", passed: passphrase_text.is_ok() },
    ];
    assert(checks@ =~= login_argument_checks(
        exe_path,
        account,
        password,
        auth_code,
        passphrase,
        cancel_present,
    ));
    match check_arguments(slot, &checks) {
        Err(code) => Err(code),
        Ok(()) => {
            proof {
                lemma_first_failure_none(checks@);
                assert(checks@[1].passed && checks@[2].passed && checks@[3].passed
                    && checks@[4].passed && checks@[5].passed);
            }
            Ok(
                LoginArguments {
                    exe_path: exe_path_text.unwrap(),
                    account: account_text.unwrap(),
                    password: password_text.unwrap(),
                    auth_code: auth_code_text.unwrap(),
                    passphrase: passphrase_text.unwrap(),
                    detailed_log: detailed_log != 0,
                },
            )
        },
    }
}

/// The checks of `auth_login` and `auth_verify_code`: those of
/// [`read_login_arguments`], then the output pointer.
pub open spec fn login_checks(
    exe_path: Option<&[u8]>,
    account: Option<&[u8]>,
    password: Option<&[u8]>,
    auth_code: Option<&[u8]>,
    passphrase: Option<&[u8]>,
    cancel_present: bool,
    out_json_present: bool,
) -> Seq<ArgCheck> {
    login_argument_checks(exe_path, account, password, auth_code, passphrase, cancel_present).push(
        arg("out_json", out_json_present),
    )
}

/// Reads the arguments of `auth_login` and `auth_verify_code`.
pub fn login_arguments(
    slot: &mut LastError,
    exe_path: Option<&[u8]>,
    account: Option<&[u8]>,
    password: Option<&[u8]>,
    auth_code: Option<&[u8]>,
    passphrase: Option<&[u8]>,
    detailed_log: i32,
    cancel_present: bool,
    out_json_present: bool,
) -> (res: Result<LoginArguments, i32>)
    ensures
        checked(
            res,
            old(slot)@,
            final(slot)@,
            first_failure(
                login_checks(
                    exe_path,
                    account,
                    password,
                    auth_code,
                    passphrase,
                    cancel_present,
                    out_json_present,
                ),
            ),
        ),
        res matches Ok(args) ==> {
            &&& args.exe_path@ == text_of(exe_path)
            &&& args.account@ == text_of(account)
            &&& args.password@ == text_of(password)
            &&& args.auth_code@ == text_of(auth_code)
            &&& args.passphrase@ == text_of(passphrase)
            &&& args.detailed_log == (detailed_log != 0)
        },
{
    let ghost first = login_argument_checks(
        exe_path,
        account,
        password,
        auth_code,
        passphrase,
        cancel_present,
    );
    let args = match read_login_arguments(
        slot,
        exe_path,
        account,
        password,
        auth_code,
        passphrase,
        detailed_log,
        cancel_present,
    ) {
        Err(code) => {
            proof {
                lemma_first_failure_prefix(first, arg("out_json", out_json_present));
            }
            return Err(code);
        },
        Ok(args) => args,
    };
    proof {
        lemma_first_failure_prefix(first, arg("out_json", out_json_present));
    }
    let checks = vec![ArgCheck { name: "out_json", passed: out_json_present }];
    assert(checks@ =~= seq![arg("out_json", out_json_present)]);
    match check_arguments(slot, &checks) {
        Err(code) => Err(code),
        Ok(()) => Ok(args),
    }
}

// ---------------------------------------------------------------------------
// Mock account, logout and status query
// ---------------------------------------------------------------------------

/// The checks of `is_mock_account`: both strings are optional.
pub open spec fn mock_account_checks(
    username: Option<&[u8]>,
    password: Option<&[u8]>,
    out_json_present: bool,
) -> Seq<ArgCheck> {
    seq![
        arg("username", optional_readable(username)),
        arg("password", optional_readable(password)),
        arg("out_json", out_json_present),
    ]
}

/// Reads the arguments of `is_mock_account`: the optional user name and
/// password.
pub fn mock_account_arguments(
    slot: &mut LastError,
    username: Option<&[u8]>,
    password: Option<&[u8]>,
    out_json_present: bool,
) -> (res: Result<(Option<String>, Option<String>), i32>)
    ensures
        checked(
            res,
            old(slot)@,
            final(slot)@,
            first_failure(mock_account_checks(username, password, out_json_present)),
        ),
        res matches Ok(args) ==> opt_view(args.0) == optional_text_of(username) && opt_view(args.1)
            == optional_text_of(password),
{
    let username_text = read_opt_cstr(username);
    let password_text = read_opt_cstr(password);
    let checks = vec![
        ArgCheck { name: "username", passed: username_text.is_ok() },
        ArgCheck { name: "password", passed: password_text.is_ok() },
        ArgCheck { name: "out_json", passed: out_json_present },
    ];
    assert(checks@ =~= mock_account_checks(username, password, out_json_present));
    match check_arguments(slot, &checks) {
        Err(code) => Err(code),
        Ok(()) => {
            proof {
                lemma_first_failure_none(checks@);
                assert(checks@[0].passed && checks@[1].passed);
            }
            Ok((username_text.unwrap(), password_text.unwrap()))
        },
    }
}

/// The document of the mock-account check: the boolean itself.
pub fn mock_account_document(is_mock: bool) -> (res: JsonValue)
    ensures
        res@ == Json::Bool(is_mock),
{
    JsonValue::Bool(is_mock)
}

/// The checks of `auth_logout`, in call order.
pub open spec fn logout_checks(exe_path: Option<&[u8]>, cancel_present: bool, out_json_present: bool) -> Seq<
    ArgCheck,
> {
    seq![
        arg("exe_path", readable(exe_path)),
        arg("cancel", cancel_present),
        arg("out_json", out_json_present),
    ]
}

/// Reads the arguments of `auth_logout`: the ipatool path.
pub fn logout_arguments(
    slot: &mut LastError,
    exe_path: Option<&[u8]>,
    cancel_present: bool,
    out_json_present: bool,
) -> (res: Result<String, i32>)
    ensures
        checked(
            res,
            old(slot)@,
            final(slot)@,
            first_failure(logout_checks(exe_path, cancel_present, out_json_present)),
        ),
        res matches Ok(path) ==> path@ == text_of(exe_path),
{
    let exe_path_text = read_cstr(exe_path);
    let checks = vec![
        ArgCheck { name: "exe_path", passed: exe_path_text.is_ok() },
        ArgCheck { name: "cancel", passed: cancel_present },
        ArgCheck { name: "out_json", passed: out_json_present },
    ];
    assert(checks@ =~= logout_checks(exe_path, cancel_present, out_json_present));
    match check_arguments(slot, &checks) {
        Err(code) => Err(code),
        Ok(()) => {
            proof {
                lemma_first_failure_none(checks@);
                assert(checks@[0].passed);
            }
            Ok(exe_path_text.unwrap())
        },
    }
}

/// Whether a logout succeeded: the revoke command finished and its response
/// reads as a success (`Ok(true)`).
pub open spec fn logout_succeeded(call: Result<bool, ClientError>) -> bool {
    call matches Ok(success) && success
}

/// The logout document `{"success":..}`; a canceled revoke is no success.
pub fn logout_document(call: Result<bool, ClientError>) -> (res: JsonValue)
    ensures
        res@ == object(seq![("success"@, Json::Bool(logout_succeeded(call)))]),
{
    let success = match call {
        Ok(result) => result,
        Err(_) => false,
    };
    let mut doc = ObjectBuilder::new();
    doc.field("success", JsonValue::Bool(success));
    let ghost members = doc@;
    assert(members =~= seq![("success"@, Json::Bool(logout_succeeded(call)))]);
    doc.build()
}

/// The checks of `auth_info`: the passphrase is optional.
pub open spec fn auth_info_checks(
    exe_path: Option<&[u8]>,
    passphrase: Option<&[u8]>,
    cancel_present: bool,
    out_json_present: bool,
) -> Seq<ArgCheck> {
    seq![
        arg("exe_path", readable(exe_path)),
        arg("passphrase", optional_readable(passphrase)),
        arg("cancel", cancel_present),
        arg("out_json", out_json_present),
    ]
}

/// Reads the arguments of `auth_info`: the ipatool path and the optional
/// passphrase.
pub fn auth_info_arguments(
    slot: &mut LastError,
    exe_path: Option<&[u8]>,
    passphrase: Option<&[u8]>,
    cancel_present: bool,
    out_json_present: bool,
) -> (res: Result<(String, Option<String>), i32>)
    ensures
        checked(
            res,
            old(slot)@,
            final(slot)@,
            first_failure(auth_info_checks(exe_path, passphrase, cancel_present, out_json_present)),
        ),
        res matches Ok(args) ==> args.0@ == text_of(exe_path) && opt_view(args.1)
            == optional_text_of(passphrase),
{
    let exe_path_text = read_cstr(exe_path);
    let passphrase_text = read_opt_cstr(passphrase);
    let checks = vec![
        ArgCheck { name: "exe_path", passed: exe_path_text.is_ok() },
        ArgCheck { name: "passphrase", passed: passphrase_text.is_ok() },
        ArgCheck { name: "cancel", passed: cancel_present },
        ArgCheck { name: "out_json", passed: out_json_present },
    ];
    assert(checks@ =~= auth_info_checks(exe_path, passphrase, cancel_present, out_json_present));
    match check_arguments(slot, &checks) {
        Err(code) => Err(code),
        Ok(()) => {
            proof {
                lemma_first_failure_none(checks@);
                assert(checks@[0].passed && checks@[1].passed);
            }
            Ok((exe_path_text.unwrap(), passphrase_text.unwrap()))
        },
    }
}

/// What the login status query read from ipatool's answer: the raw payload
/// and what the response parser made of it.
pub struct AuthInfoReport {
    pub payload: String,
    pub is_success: bool,
    pub has_explicit_failure: bool,
    pub email: Option<String>,
    /// Whether the answer says that no account is signed in.
    pub is_account_missing: bool,
}

/// The status query document.
pub open spec fn auth_info_doc(report: AuthInfoReport) -> Json {
    object(
        seq![
            ("payload"@, Json::Text(report.payload@)),
            ("is_success"@, Json::Bool(report.is_success)),
            ("has_explicit_failure"@, Json::Bool(report.has_explicit_failure)),
            ("email"@, optional_text_json(opt_view(report.email))),
            ("is_account_missing"@, Json::Bool(report.is_account_missing)),
        ],
    )
}

/// The result of `auth_info`: the document for a finished query; a canceled
/// query fails the call with the last error `canceled`.
pub fn auth_info_result(slot: &mut LastError, call: Result<AuthInfoReport, ClientError>) -> (res:
    Result<JsonValue, i32>)
    ensures
        call is Err ==> res is Err && res->Err_0 == FFI_ERR_FAILED && final(slot)@ == Some(
            without_nul("canceled"@),
        ),
        call matches Ok(report) ==> (res matches Ok(doc) && doc@ == auth_info_doc(report))
            && final(slot)@ == old(slot)@,
{
    match call {
        Err(_) => {
            set_last_error(slot, "canceled");
            Err(FFI_ERR_FAILED)
        },
        Ok(report) => {
            let mut doc = ObjectBuilder::new();
            doc.field("payload", JsonValue::text(report.payload.as_str()));
            doc.field("is_success", JsonValue::Bool(report.is_success));
            doc.field("has_explicit_failure", JsonValue::Bool(report.has_explicit_failure));
            doc.field("email", JsonValue::optional_text(&report.email));
            doc.field("is_account_missing", JsonValue::Bool(report.is_account_missing));
            let ghost members = doc@;
            assert(members =~= seq![
                ("payload"@, Json::Text(report.payload@)),
                ("is_success"@, Json::Bool(report.is_success)),
                ("has_explicit_failure"@, Json::Bool(report.has_explicit_failure)),
                ("email"@, optional_text_json(opt_view(report.email))),
                ("is_account_missing"@, Json::Bool(report.is_account_missing)),
            ]);
            Ok(doc.build())
        },
    }
}

// ---------------------------------------------------------------------------
// Laws
// ---------------------------------------------------------------------------

/// A login or verification result's document carries the name of the
/// result's own status, its message, its raw payload and the reported log
/// entries in order; each status is shown under its own name, so distinct
/// statuses give distinct `status` members.
pub proof fn law_login_result_members(result: LoginResult, logs: Seq<LogMessage>, other: LoginResult)
    ensures
        has_member(
            login_result_doc(result, logs),
            "status"@,
            Json::Text(login_status_text(result.status)),
        ),
        has_member(login_result_doc(result, logs), "message"@, message_doc(result.message)),
        has_member(
            login_result_doc(result, logs),
            "raw_payload"@,
            optional_text_json(opt_view(result.raw_payload)),
        ),
        exists|list: Json|
            has_member(login_result_doc(result, logs), "logs"@, list) && is_list_of(
                list,
                Seq::new(logs.len(), |i: int| log_message_doc(logs[i])),
            ),
        result.status is Success ==> has_member(
            login_result_doc(result, logs),
            "status"@,
            Json::Text("Success"@),
        ),
        result.status is RequiresTwoFactor ==> has_member(
            login_result_doc(result, logs),
            "status"@,
            Json::Text("RequiresTwoFactor"@),
        ),
        result.status is InvalidCredential ==> has_member(
            login_result_doc(result, logs),
            "status"@,
            Json::Text("InvalidCredential"@),
        ),
        result.status is AuthCodeInvalid ==> has_member(
            login_result_doc(result, logs),
            "status"@,
            Json::Text("AuthCodeInvalid"@),
        ),
        result.status is NetworkError ==> has_member(
            login_result_doc(result, logs),
            "status"@,
            Json::Text("NetworkError"@),
        ),
        result.status is Timeout ==> has_member(
            login_result_doc(result, logs),
            "status"@,
            Json::Text("Timeout"@),
        ),
        result.status is UnknownError ==> has_member(
            login_result_doc(result, logs),
            "status"@,
            Json::Text("UnknownError"@),
        ),
        result.status != other.status ==> login_status_text(result.status) != login_status_text(
            other.status,
        ),
{
    reveal_strlit("status");
    reveal_strlit("message");
    reveal_strlit("raw_payload");
    reveal_strlit("logs");
    let list = Json::List(log_docs(logs));
    let m = seq![
        ("status"@, Json::Text(login_status_text(result.status))),
        ("message"@, message_doc(result.message)),
        ("raw_payload"@, optional_text_json(opt_view(result.raw_payload))),
        ("logs"@, list),
    ];
    assert(m[0].0.len() == 6 && m[1].0.len() == 7 && m[2].0.len() == 11 && m[3].0.len() == 4);
    assert(distinct_keys(m));
    lemma_object_member(m, 0);
    lemma_object_member(m, 1);
    lemma_object_member(m, 2);
    lemma_object_member(m, 3);
    assert(is_list_of(list, Seq::new(logs.len(), |i: int| log_message_doc(logs[i]))));
    law_login_status_names_distinct(result.status, other.status);
}

/// A login message is shown as its resource key with its arguments in
/// order, or as its raw text.
pub proof fn law_message_members(message: Message)
    ensures
        message matches Message::Key { key, args } ==> {
            &&& has_member(message_doc(message), "kind"@, Json::Text("key"@))
            &&& has_member(message_doc(message), "key"@, Json::Text(key@))
            &&& has_member(message_doc(message), "args"@, texts_json(string_views(args@)))
        },
        message matches Message::Raw(text) ==> {
            &&& has_member(message_doc(message), "kind"@, Json::Text("raw"@))
            &&& has_member(message_doc(message), "text"@, Json::Text(text@))
        },
{
    reveal_strlit("kind");
    reveal_strlit("key");
    reveal_strlit("args");
    reveal_strlit("text");
    match message {
        Message::Key { key, args } => {
            let m = seq![
                ("kind"@, Json::Text("key"@)),
                ("key"@, Json::Text(key@)),
                ("args"@, texts_json(string_views(args@))),
            ];
            assert(m[0].0.len() == 4 && m[1].0.len() == 3 && m[2].0.len() == 4);
            assert(m[0].0[0] == 'k' && m[2].0[0] == 'a');
            assert(distinct_keys(m));
            lemma_object_member(m, 0);
            lemma_object_member(m, 1);
            lemma_object_member(m, 2);
        },
        Message::Raw(text) => {
            let m = seq![("kind"@, Json::Text("raw"@)), ("text"@, Json::Text(text@))];
            assert(m[0].0[0] == 'k' && m[1].0[0] == 't');
            assert(distinct_keys(m));
            lemma_object_member(m, 0);
            lemma_object_member(m, 1);
        },
    }
}

/// The status query document carries the payload and each thing read from
/// it under its own name.
pub proof fn law_auth_info_members(report: AuthInfoReport)
    ensures
        has_member(auth_info_doc(report), "payload"@, Json::Text(report.payload@)),
        has_member(auth_info_doc(report), "is_success"@, Json::Bool(report.is_success)),
        has_member(
            auth_info_doc(report),
            "has_explicit_failure"@,
            Json::Bool(report.has_explicit_failure),
        ),
        has_member(auth_info_doc(report), "email"@, optional_text_json(opt_view(report.email))),
        has_member(
            auth_info_doc(report),
            "is_account_missing"@,
            Json::Bool(report.is_account_missing),
        ),
{
    reveal_strlit("payload");
    reveal_strlit("is_success");
    reveal_strlit("has_explicit_failure");
    reveal_strlit("email");
    reveal_strlit("is_account_missing");
    let m = seq![
        ("payload"@, Json::Text(report.payload@)),
        ("is_success"@, Json::Bool(report.is_success)),
        ("has_explicit_failure"@, Json::Bool(report.has_explicit_failure)),
        ("email"@, optional_text_json(opt_view(report.email))),
        ("is_account_missing"@, Json::Bool(report.is_account_missing)),
    ];
    assert(m[0].0.len() == 7 && m[1].0.len() == 10 && m[2].0.len() == 20 && m[3].0.len() == 5
        && m[4].0.len() == 18);
    assert(distinct_keys(m));
    lemma_object_member(m, 0);
    lemma_object_member(m, 1);
    lemma_object_member(m, 2);
    lemma_object_member(m, 3);
    lemma_object_member(m, 4);
}

/// A logout succeeded exactly when the revoke command finished and its
/// answer reads as a success.
pub proof fn law_logout_success(call: Result<bool, ClientError>)
    ensures
        logout_succeeded(call) <==> call == Ok::<bool, ClientError>(true),
{
}

/// Each login status has its own name, so the host can tell them apart.
pub proof fn law_login_status_names_distinct(a: LoginStatus, b: LoginStatus)
    ensures
        login_status_text(a) == login_status_text(b) ==> a == b,
{
    reveal_strlit("Success");
    reveal_strlit("RequiresTwoFactor");
    reveal_strlit("InvalidCredential");
    reveal_strlit("AuthCodeInvalid");
    reveal_strlit("NetworkError");
    reveal_strlit("Timeout");
    reveal_strlit("UnknownError");
    if login_status_text(a) == login_status_text(b) {
        assert(login_status_text(a)[0] == login_status_text(b)[0]);
        assert(login_status_text(a).len() == login_status_text(b).len());
    }
}

} // verus!
