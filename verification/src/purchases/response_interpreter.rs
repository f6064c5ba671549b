//! The verdict on a purchase response.

use vstd::prelude::*;

verus! {

/// What a purchase came to.
#[derive(Clone, Copy, Debug, PartialEq, Eq, Structural)]
pub enum PurchaseOutcome {
    Skipped,
    Purchased,
    AlreadyOwned,
    NeedsOwnedConfirmation,
    Failed,
}

} // verus!
