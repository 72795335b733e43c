//! A detection-agent library: a structured view of one ledger transaction
//! (inputs, commands, objects touched, events, call trace) together with a
//! self-describing value encoding for handing derived findings to a
//! monitoring host.
//!
//! The host boundary itself (reporting, parameter lookup, raw-transaction
//! retrieval, key-value sessions) is not part of this library: callers make
//! those calls and hand the plain values to and from the functions here.

pub mod mamoru;
pub mod mamoru_serialize;
pub mod mamoru_storage;
pub mod sui_ctx;
