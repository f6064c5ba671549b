//! Download queue items as the host sees them.

pub mod queue;

use vstd::prelude::*;

verus! {

/// Where a queue item stands.
#[derive(Clone, Copy, Debug, PartialEq, Eq, Structural)]
pub enum DownloadQueueStatus {
    Pending,
    Downloading,
    Success,
    Failed,
    Canceled,
}

/// The part of a queue item that the host polls: its bundle id, where it
/// stands, and the last message about it (a resource key or error text).
pub struct DownloadQueueItem {
    pub bundle_id: String,
    pub status: DownloadQueueStatus,
    pub last_message: String,
}

} // verus!
