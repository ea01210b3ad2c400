//! A typed access layer for the Rumpus CE game-statistics API.
//!
//! Search queries for players and levels are built with validating builders
//! and encoded into the API's query-string dialect; responses are decoded from
//! JSON into typed records. Everything in this crate is pure computation: the
//! HTTP transport lives with the caller.

use vstd::prelude::*;

pub mod decode;
pub mod endpoints;
pub mod json;
pub mod query;

pub mod text;
pub mod types;

verus! {

/// The URL of the API.
pub const API_URL: &'static str = "https://www.bscotch.net/api/";

/// The URL of the beta API.
pub const BETA_URL: &'static str = "https://beta.bscotch.net/api/";

} // verus!
