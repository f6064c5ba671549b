//! The values that the ipatool integration hands to the host bridge.

pub mod client;
pub mod response_parser;
