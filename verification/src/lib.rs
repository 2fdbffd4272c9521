//! A request-inspection policy engine.
//!
//! Given a request's headers and (optionally) a parsed JSON body, the engine
//! decides `Allow` or `Deny` against two configured rule sets: a suppression
//! set (deny-listed header names and body field paths) and an allow set
//! (when non-empty, an exhaustive allow-list of permitted body field paths).
//! The JSON body is flattened into dotted field paths before it is checked.

pub mod config;
pub mod inspector;
pub mod json;
pub mod policy;
pub mod trusted;
