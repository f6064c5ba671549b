//! Status codes, the per-thread last-error slot and the argument readers
//! shared by every exported call.
//!
//! Every exported call returns one of the four status codes below. Data-type
//! calls hand their result back as a JSON document (see [`document`]); on a
//! failure the host reads a description from the last-error slot, which a
//! read empties.

pub mod auth;
pub mod catalog;
pub mod db;
pub mod document;
pub mod downloads;
pub mod purchase;
pub mod sync;

use vstd::prelude::*;
use vstd::std_specs::iter::IteratorSpec;
use vstd::string::StringExecFns;
use vstd::utf8::{decode_utf8, valid_utf8};

verus! {

/// The call succeeded.
pub const FFI_OK: i32 = 0;

/// An argument was missing or malformed; the last error names it.
pub const FFI_ERR_INVALID_ARG: i32 = 1;

/// The operation itself failed; the last error describes why.
pub const FFI_ERR_FAILED: i32 = 2;

/// The operation panicked; the last error carries the panic message.
pub const FFI_ERR_PANIC: i32 = 3;

// ---------------------------------------------------------------------------
// Text that crosses the boundary
// ---------------------------------------------------------------------------

/// `text` with every NUL character replaced by a space, so that it can travel
/// as a NUL-terminated C string.
pub open spec fn without_nul(text: Seq<char>) -> Seq<char> {
    text.map_values(|c: char| if c == '\0' { ' ' } else { c })
}

/// Appends one character to a string.
/// Trusted: `String::push`, which std documents as appending the character
/// to the end of the string.
#[verifier::external_body]
pub(crate) fn push_char(text: &mut String, c: char)
    ensures
        final(text)@ == old(text)@.push(c),
{
    text.push(c);
}

/// Replaces every NUL character of `text` by a space: the form in which any
/// string the core allocates for the host is handed out.
pub fn replace_nul(text: &str) -> (res: String)
    ensures
        res@ == without_nul(text@),
{
    let mut res = String::new();
    broadcast use vstd::string::group_string_axioms;

    for c in it: text.chars()
        invariant
            it.seq() == text@,
            res@ == without_nul(it.seq().take(it.index())),
    {
        assert(it.seq().take(it.index() + 1) == it.seq().take(it.index()).push(c));
        push_char(&mut res, if c == '\0' { ' ' } else { c });
    }
    res
}

/// Copies a string slice into an owned string.
pub fn owned(text: &str) -> (res: String)
    ensures
        res@ == text@,
{
    text.to_owned()
}

/// `prefix` followed by `rest`.
pub fn joined(prefix: &str, rest: &str) -> (res: String)
    ensures
        res@ == prefix@ + rest@,
{
    let mut res = String::from_str(prefix);
    res.append(rest);
    res
}

/// Whether `c` has the Unicode White_Space property: the tab, line feed,
/// vertical tab, form feed and carriage return controls, the space, NEL,
/// NO-BREAK SPACE, OGHAM SPACE MARK, the spaces U+2000 to U+200A, the line and
/// paragraph separators, NARROW NO-BREAK SPACE, MEDIUM MATHEMATICAL SPACE and
/// IDEOGRAPHIC SPACE.
pub open spec fn white_space(c: char) -> bool {
    let n = c as u32;
    ||| 0x09 <= n <= 0x0D
    ||| n == 0x20
    ||| n == 0x85
    ||| n == 0xA0
    ||| n == 0x1680
    ||| 0x2000 <= n <= 0x200A
    ||| n == 0x2028
    ||| n == 0x2029
    ||| n == 0x202F
    ||| n == 0x205F
    ||| n == 0x3000
}

/// Tells whether a character has the Unicode White_Space property, as
/// `char::is_whitespace` does.
fn is_whitespace(c: char) -> (res: bool)
    ensures
        res == white_space(c),
{
    let n = c as u32;
    (0x09 <= n && n <= 0x0D) || n == 0x20 || n == 0x85 || n == 0xA0 || n == 0x1680 || (0x2000
        <= n && n <= 0x200A) || n == 0x2028 || n == 0x2029 || n == 0x202F || n == 0x205F || n
        == 0x3000
}

/// A text is blank when every character of it is whitespace (the empty text
/// included): exactly the texts that trimming leaves empty.
pub open spec fn blank(text: Seq<char>) -> bool {
    forall|i: int| 0 <= i < text.len() ==> white_space(#[trigger] text[i])
}

/// Whether `text` is blank.
pub fn is_blank(text: &str) -> (res: bool)
    ensures
        res == blank(text@),
{
    broadcast use vstd::string::group_string_axioms;

    for c in it: text.chars()
        invariant
            it.seq() == text@,
            forall|j: int| 0 <= j < it.index() ==> white_space(#[trigger] text@[j]),
    {
        if !is_whitespace(c) {
            assert(!white_space(text@[it.index()]));
            return false;
        }
    }
    true
}

// ---------------------------------------------------------------------------
// The last-error slot
// ---------------------------------------------------------------------------

/// The description of the most recent failure on one thread, if any.
pub struct LastError {
    slot: Option<String>,
}

impl View for LastError {
    type V = Option<Seq<char>>;

    closed spec fn view(&self) -> Option<Seq<char>> {
        match self.slot {
            Some(text) => Some(text@),
            None => None,
        }
    }
}

/// What a read of the slot hands out: the stored text, or the empty text when
/// nothing is stored.
pub open spec fn taken_text(slot: Option<Seq<char>>) -> Seq<char> {
    match slot {
        Some(text) => text,
        None => Seq::empty(),
    }
}

/// The message stored when the argument `name` is refused.
pub open spec fn invalid_argument_text(name: Seq<char>) -> Seq<char> {
    "invalid argument: "@ + name
}

/// The message stored when an exported call panicked with `message`.
pub open spec fn panic_text(message: Seq<char>) -> Seq<char> {
    "panic: "@ + message
}

impl LastError {
    /// An empty slot.
    pub fn new() -> (res: LastError)
        ensures
            res@ == None::<Seq<char>>,
    {
        LastError { slot: None }
    }

    /// Stores `message` (NULs replaced by spaces), replacing what was stored.
    pub fn set(&mut self, message: &str)
        ensures
            final(self)@ == Some(without_nul(message@)),
    {
        self.slot = Some(replace_nul(message));
    }

    /// Reads the slot and empties it: the stored text, or an empty text.
    pub fn take(&mut self) -> (text: String)
        ensures
            text@ == taken_text(old(self)@),
            final(self)@ == None::<Seq<char>>,
    {
        match self.slot.take() {
            Some(text) => text,
            None => String::new(),
        }
    }
}

/// Records `message` as the last error.
pub fn set_last_error(slot: &mut LastError, message: &str)
    ensures
        final(slot)@ == Some(without_nul(message@)),
{
    slot.set(message);
}

/// Records that the argument `name` was refused and returns the matching
/// status code.
pub fn invalid_arg(slot: &mut LastError, name: &str) -> (code: i32)
    ensures
        code == FFI_ERR_INVALID_ARG,
        final(slot)@ == Some(without_nul(invalid_argument_text(name@))),
{
    let message = joined("invalid argument: ", name);
    slot.set(message.as_str());
    FFI_ERR_INVALID_ARG
}

// ---------------------------------------------------------------------------
// Panics
// ---------------------------------------------------------------------------

/// What a caught panic carried, as far as the message goes.
pub enum PanicPayload {
    /// The panic was raised with a string literal.
    Borrowed(String),
    /// The panic was raised with a formatted, owned string.
    Owned(String),
    /// The panic carried some other value.
    Opaque,
}

/// The message that a panic payload is reported with.
pub open spec fn panic_message_text(payload: PanicPayload) -> Seq<char> {
    match payload {
        PanicPayload::Borrowed(text) => text@,
        PanicPayload::Owned(text) => text@,
        PanicPayload::Opaque => "unknown panic"@,
    }
}

/// The message of a panic payload: its text, or `unknown panic`.
pub fn panic_message(payload: &PanicPayload) -> (message: String)
    ensures
        message@ == panic_message_text(*payload),
{
    match payload {
        PanicPayload::Borrowed(text) => text.clone(),
        PanicPayload::Owned(text) => text.clone(),
        PanicPayload::Opaque => owned("unknown panic"),
    }
}

/// Settles a guarded call: its value when it returned, otherwise `fallback`,
/// with the panic recorded as the last error.
pub fn catch<T>(slot: &mut LastError, fallback: T, run: Result<T, PanicPayload>) -> (res: T)
    ensures
        run is Ok ==> res == run->Ok_0 && final(slot)@ == old(slot)@,
        run is Err ==> res == fallback && final(slot)@ == Some(
            without_nul(panic_text(panic_message_text(run->Err_0))),
        ),
{
    match run {
        Ok(value) => value,
        Err(payload) => {
            let message = panic_message(&payload);
            let text = joined("panic: ", message.as_str());
            slot.set(text.as_str());
            fallback
        },
    }
}

// ---------------------------------------------------------------------------
// Arguments
// ---------------------------------------------------------------------------

/// Why a C string argument could not be read.
#[derive(Debug, PartialEq, Eq, Structural)]
pub enum CStrError {
    /// The pointer was null.
    NullPointer,
    /// The bytes were not UTF-8.
    InvalidUtf8,
}

impl CStrError {
    /// The description of the error.
    pub fn text(&self) -> (text: String)
        ensures
            text@ == match *self {
                CStrError::NullPointer => "null pointer"@,
                CStrError::InvalidUtf8 => "invalid utf-8"@,
            },
    {
        match self {
            CStrError::NullPointer => owned("null pointer"),
            CStrError::InvalidUtf8 => owned("invalid utf-8"),
        }
    }
}

/// A string argument, as the bytes before its NUL terminator, or `None` for a
/// null pointer, reads as text.
pub open spec fn readable(raw: Option<&[u8]>) -> bool {
    raw matches Some(bytes) && valid_utf8(bytes@)
}

/// The text of a readable string argument.
pub open spec fn text_of(raw: Option<&[u8]>) -> Seq<char> {
    decode_utf8(raw->Some_0@)
}

/// An optional string argument is acceptable: null or readable.
pub open spec fn optional_readable(raw: Option<&[u8]>) -> bool {
    raw is None || readable(raw)
}

/// The value of an acceptable optional string argument.
pub open spec fn optional_text_of(raw: Option<&[u8]>) -> Option<Seq<char>> {
    match raw {
        Some(_) => Some(text_of(raw)),
        None => None,
    }
}

/// The view of an optional string.
pub open spec fn opt_view(value: Option<String>) -> Option<Seq<char>> {
    match value {
        Some(text) => Some(text@),
        None => None,
    }
}

/// Decodes bytes as UTF-8.
/// Trusted: `std::str::from_utf8`, which std documents as succeeding exactly
/// when the bytes are valid UTF-8, and then viewing them as that text.
#[verifier::external_body]
fn utf8_text(bytes: &[u8]) -> (res: Option<&str>)
    ensures
        res is Some <==> valid_utf8(bytes@),
        res matches Some(text) ==> text@ == decode_utf8(bytes@),
{
    std::str::from_utf8(bytes).ok()
}

/// Reads a required string argument.
pub fn read_cstr(raw: Option<&[u8]>) -> (res: Result<String, CStrError>)
    ensures
        raw is None ==> res == Err::<String, CStrError>(CStrError::NullPointer),
        raw is Some && !readable(raw) ==> res == Err::<String, CStrError>(
            CStrError::InvalidUtf8,
        ),
        readable(raw) <==> res is Ok,
        res matches Ok(text) ==> text@ == text_of(raw),
{
    match raw {
        None => Err(CStrError::NullPointer),
        Some(bytes) => match utf8_text(bytes) {
            Some(text) => Ok(owned(text)),
            None => Err(CStrError::InvalidUtf8),
        },
    }
}

/// Reads an optional string argument: a null pointer gives `None`.
pub fn read_opt_cstr(raw: Option<&[u8]>) -> (res: Result<Option<String>, CStrError>)
    ensures
        optional_readable(raw) <==> res is Ok,
        res is Err ==> res == Err::<Option<String>, CStrError>(CStrError::InvalidUtf8),
        res matches Ok(value) ==> opt_view(value) == optional_text_of(raw),
{
    match raw {
        None => Ok(None),
        Some(_) => match read_cstr(raw) {
            Ok(text) => Ok(Some(text)),
            Err(error) => Err(error),
        },
    }
}

/// One check that an exported call makes on its arguments, in call order:
/// the argument's name and whether it passed.
pub struct ArgCheck {
    pub name: &'static str,
    pub passed: bool,
}

/// The check on the argument `name`, passed or not.
pub open spec fn arg(name: &'static str, passed: bool) -> ArgCheck {
    ArgCheck { name, passed }
}

/// The name of the first argument in `checks` that did not pass, if any.
pub open spec fn first_failure(checks: Seq<ArgCheck>) -> Option<Seq<char>>
    decreases checks.len(),
{
    if checks.len() == 0 {
        None
    } else if !checks[0].passed {
        Some(checks[0].name@)
    } else {
        first_failure(checks.drop_first())
    }
}

/// No check fails exactly when every check passed.
pub proof fn lemma_first_failure_none(checks: Seq<ArgCheck>)
    ensures
        first_failure(checks) is None <==> forall|i: int|
            0 <= i < checks.len() ==> #[trigger] checks[i].passed,
    decreases checks.len(),
{
    if checks.len() > 0 {
        lemma_first_failure_none(checks.drop_first());
        if first_failure(checks) is None {
            assert forall|i: int| 0 <= i < checks.len() implies #[trigger] checks[i].passed by {
                if i > 0 {
                    assert(checks.drop_first()[i - 1] == checks[i]);
                }
            }
        }
        if forall|i: int| 0 <= i < checks.len() ==> #[trigger] checks[i].passed {
            assert(checks[0].passed);
            assert forall|i: int| 0 <= i < checks.drop_first().len() implies #[trigger] checks.drop_first()[i].passed by {
                assert(checks.drop_first()[i] == checks[i + 1]);
            }
        }
    }
}

/// Adding a check after others changes the first failure only when none of
/// the others failed.
pub proof fn lemma_first_failure_prefix(checks: Seq<ArgCheck>, last: ArgCheck)
    ensures
        first_failure(checks.push(last)) == match first_failure(checks) {
            Some(name) => Some(name),
            None => first_failure(seq![last]),
        },
    decreases checks.len(),
{
    if checks.len() > 0 {
        assert(checks.push(last).drop_first() =~= checks.drop_first().push(last));
        lemma_first_failure_prefix(checks.drop_first(), last);
    } else {
        assert(checks.push(last) =~= seq![last]);
    }
}

/// How an argument check leaves the result and the slot: refused with the
/// first failing argument named, or accepted with the slot untouched.
pub open spec fn checked<T>(
    res: Result<T, i32>,
    before: Option<Seq<char>>,
    after: Option<Seq<char>>,
    failure: Option<Seq<char>>,
) -> bool {
    match failure {
        Some(name) => res == Err::<T, i32>(FFI_ERR_INVALID_ARG) && after == Some(
            without_nul(invalid_argument_text(name)),
        ),
        None => res is Ok && after == before,
    }
}

/// Runs the checks in order and refuses the call at the first failing one.
pub fn check_arguments(slot: &mut LastError, checks: &Vec<ArgCheck>) -> (res: Result<(), i32>)
    ensures
        checked(res, old(slot)@, final(slot)@, first_failure(checks@)),
{
    let mut i: usize = 0;
    assert(checks@.skip(0) == checks@);
    while i < checks.len()
        invariant
            0 <= i <= checks@.len(),
            first_failure(checks@) == first_failure(checks@.skip(i as int)),
            slot@ == old(slot)@,
        decreases checks@.len() - i,
    {
        assert(checks@.skip(i as int).drop_first() == checks@.skip(i + 1));
        if !checks[i].passed {
            let code = invalid_arg(slot, checks[i].name);
            return Err(code);
        }
        i = i + 1;
    }
    Ok(())
}

// ---------------------------------------------------------------------------
// Laws
// ---------------------------------------------------------------------------

/// A read of the last error empties it: right after a message is stored, a
/// read hands out that message (NULs turned to spaces) and a second read an
/// empty text.
pub proof fn law_last_error_read_clears(message: Seq<char>)
    ensures
        taken_text(Some(without_nul(message))) == without_nul(message),
        taken_text(None) == Seq::<char>::empty(),
{
}

/// No text that the core hands to the host holds a NUL: replacing NULs keeps
/// the length, changes nothing else, and doing it twice is doing it once.
pub proof fn law_no_nul_reaches_host(text: Seq<char>)
    ensures
        !without_nul(text).contains('\0'),
        without_nul(text).len() == text.len(),
        forall|i: int|
            0 <= i < text.len() && text[i] != '\0' ==> #[trigger] without_nul(text)[i] == text[i],
        without_nul(without_nul(text)) == without_nul(text),
        !text.contains('\0') ==> without_nul(text) == text,
{
    assert(without_nul(without_nul(text)) =~= without_nul(text));
    if !text.contains('\0') {
        assert forall|i: int| 0 <= i < text.len() implies without_nul(text)[i] == text[i] by {
            if text[i] == '\0' {
                assert(text.contains('\0'));
            }
        }
        assert(without_nul(text) =~= text);
    }
}

/// A refused call names an argument that failed its check, and every
/// argument checked before it passed; a call is refused exactly when some
/// check failed.
pub proof fn law_refusal_names_first_failing_argument(checks: Seq<ArgCheck>)
    ensures
        first_failure(checks) is None <==> forall|i: int|
            0 <= i < checks.len() ==> #[trigger] checks[i].passed,
        first_failure(checks) matches Some(name) ==> exists|k: int|
            0 <= k < checks.len() && !(#[trigger] checks[k]).passed && checks[k].name@ == name
                && forall|j: int| 0 <= j < k ==> #[trigger] checks[j].passed,
    decreases checks.len(),
{
    lemma_first_failure_none(checks);
    if checks.len() > 0 && checks[0].passed {
        law_refusal_names_first_failing_argument(checks.drop_first());
        if first_failure(checks) is Some {
            let k = choose|k: int|
                0 <= k < checks.drop_first().len() && !(#[trigger] checks.drop_first()[k]).passed
                    && checks.drop_first()[k].name@ == first_failure(checks)->Some_0 && forall|j: int|
                    0 <= j < k ==> #[trigger] checks.drop_first()[j].passed;
            assert(checks[k + 1] == checks.drop_first()[k]);
            assert forall|j: int| 0 <= j < k + 1 implies #[trigger] checks[j].passed by {
                if j > 0 {
                    assert(checks[j] == checks.drop_first()[j - 1]);
                }
            }
        }
    }
}

/// The check of a call that takes only a handle.
pub fn handle_argument(slot: &mut LastError, handle_present: bool) -> (res: Result<(), i32>)
    ensures
        checked(res, old(slot)@, final(slot)@, first_failure(seq![arg("handle", handle_present)])),
{
    let checks = vec![ArgCheck { name: "handle", passed: handle_present }];
    assert(checks@ =~= seq![arg("handle", handle_present)]);
    check_arguments(slot, &checks)
}

/// The checks of a status poll: the handle, then the output pointer.
pub fn status_arguments(slot: &mut LastError, handle_present: bool, out_json_present: bool) -> (res:
    Result<(), i32>)
    ensures
        checked(
            res,
            old(slot)@,
            final(slot)@,
            first_failure(seq![arg("handle", handle_present), arg("out_json", out_json_present)]),
        ),
{
    let checks = vec![
        ArgCheck { name: "handle", passed: handle_present },
        ArgCheck { name: "out_json", passed: out_json_present },
    ];
    assert(checks@ =~= seq![arg("handle", handle_present), arg("out_json", out_json_present)]);
    check_arguments(slot, &checks)
}

} // verus!
