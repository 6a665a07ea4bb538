//! A verified client core for a game platform's economy web service.
//!
//! The library holds everything the client decides and computes: building
//! request URLs and JSON bodies, classifying raw HTTP responses into a typed
//! error taxonomy (including the overloaded 403 status), deciding when a
//! stale anti-forgery token warrants a single retry, and decoding paginated
//! JSON payloads into domain structs. The surrounding application performs
//! the network calls and hands the results back as plain values.

use vstd::prelude::*;

pub mod classify;
pub mod digits;
pub mod economy;
pub mod error;
pub mod laws;
pub mod ops;
pub mod raw;
pub mod retry;
pub mod session;
pub mod types;
pub mod urls;
