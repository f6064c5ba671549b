//! Text that the host renders: a resource key with arguments, or raw text.

use vstd::prelude::*;

verus! {

/// A message for the host: either a key of the host's string resources
/// with its arguments, or text to show as it is.
pub enum NormalizedText {
    Keyed { key: &'static str, args: Vec<String> },
    Raw(String),
}

} // verus!
