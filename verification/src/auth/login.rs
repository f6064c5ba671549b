//! The classified result of a login attempt.

use vstd::prelude::*;

verus! {

/// How a login attempt ended.
#[derive(Clone, Copy, Debug, PartialEq, Eq, Structural)]
pub enum LoginStatus {
    Success,
    RequiresTwoFactor,
    InvalidCredential,
    AuthCodeInvalid,
    NetworkError,
    Timeout,
    UnknownError,
}

/// The message shown for a login result: a resource key with arguments, or
/// raw text.
pub enum Message {
    Key { key: &'static str, args: Vec<String> },
    Raw(String),
}

/// A classified login result, with the ipatool output it came from.
pub struct LoginResult {
    pub status: LoginStatus,
    pub message: Message,
    pub raw_payload: Option<String>,
}

} // verus!
