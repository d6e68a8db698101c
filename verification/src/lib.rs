//! Typed requests and the correlation runtime of a JSON messaging client.
//!
//! Requests leave as JSON documents that carry a fresh correlation
//! identifier; what comes back is either the reply to one pending request or
//! an unsolicited update. This crate holds the rules of that exchange, each
//! with a contract that Verus proves.

pub mod client;
pub mod guarantees;
pub mod ident;
pub mod json;
pub mod methods;
pub mod types;
