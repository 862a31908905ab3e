//! A transparent TCP failover proxy, as a library of decisions.
//!
//! The proxy forwards raw bytes between clients and one of several candidate
//! hosts, the primary, and selects another when the primary stops answering.
//! Nothing in this crate touches a socket, a process or a clock: each
//! component is a state machine that is told what happened and answers with
//! what to do next. The program around it performs the requests.

pub mod args;
pub mod backoff;
pub mod bufcopy;
pub mod proxy;
pub mod splice;
pub mod stream_util;
pub mod triggers;
