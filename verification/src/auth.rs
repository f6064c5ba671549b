//! The values that the login service hands to the host bridge.

pub mod login;
