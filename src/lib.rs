//! Admission, routing and response logic for a server that exposes one
//! exclusive language-model session over HTTP to one caller at a time.

pub mod auth;
pub mod config;
pub mod error;
pub mod reply;
pub mod responses;
pub mod router;
pub mod submit;

use vstd::prelude::*;

verus! {

/// The version announced by the server.
pub const APP_VERSION: &'static str = "0.1.0";

} // verus!
