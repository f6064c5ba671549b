//! Core of the IPAbuyer host bridge: the decisions that the C ABI layer makes
//! around each exported call (which argument is refused, what is reported,
//! which JSON document the host receives, how a long-running task's state
//! evolves), stated and proved.

pub mod appcatalog;
pub mod auth;
pub mod downloads;
pub mod ffi;
pub mod ipatool;
pub mod purchases;
