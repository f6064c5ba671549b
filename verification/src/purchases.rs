//! The values that the purchase services hand to the host bridge.

pub mod response_interpreter;
pub mod sync_service;
