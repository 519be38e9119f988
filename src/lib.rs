//! Aggregation of a developer dashboard from independent data providers: a
//! code-hosting profile, a coding-time tracker and a quote source.
//!
//! The library builds each provider's request, decodes each provider's reply
//! and assembles the composite result; the caller performs the requests
//! concurrently and hands back what came in.
use vstd::prelude::*;

pub mod dashboard;
pub mod error;
pub mod github;
pub mod json;
pub mod wakatime_client;

verus! {

} // verus!
