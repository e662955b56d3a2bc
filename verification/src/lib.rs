//! A client library for the Acosmi model gateway: tokens and their authority, requests and answers
//! in the OpenAI dialect, and streams that are told in events.
pub mod auth;
pub mod client;
pub mod models;
pub mod shared;

use vstd::prelude::*;

verus! {

/// The version of the library.
pub const VERSION: &'static str = "2.8.0";

} // verus!
