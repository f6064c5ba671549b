//! App Store search results as the host sees them.

pub mod search_parser;
