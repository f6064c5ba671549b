//! What adding a search result to the download queue did.

use vstd::prelude::*;

verus! {

/// The effect of adding an item to the queue.
#[derive(Clone, Copy, Debug, PartialEq, Eq, Structural)]
pub enum AddQueueResult {
    Added,
    Updated,
    Requeued,
    Ignored,
}

} // verus!
