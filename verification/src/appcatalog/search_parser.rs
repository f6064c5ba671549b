//! One App Store search result.

use vstd::prelude::*;

verus! {

/// A search result, with the purchase status recorded for it.
pub struct SearchResult {
    pub bundle_id: String,
    pub id: Option<String>,
    pub name: Option<String>,
    pub developer: Option<String>,
    pub artwork_url: Option<String>,
    pub price: String,
    pub version: Option<String>,
    pub purchased: String,
}

} // verus!
