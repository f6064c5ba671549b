//! How an ipatool invocation can end without a result.

use vstd::prelude::*;

verus! {

/// An ipatool invocation that produced no result.
#[derive(Clone, Copy, Debug, PartialEq, Eq, Structural)]
pub enum ClientError {
    /// The caller's cancel flag stopped the invocation.
    Canceled,
}

} // verus!
