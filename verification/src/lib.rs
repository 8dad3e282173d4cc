//! A Twitch and Discord chat bot's dashboard and message handling: the
//! decisions of its web endpoints and of its Discord handler, the keys under
//! which it keeps its data, and the data it exchanges with outside services.
use vstd::prelude::*;

pub mod text;
pub mod types;
pub mod keys;
pub mod secret;
pub mod header;
pub mod store;
pub mod util;
pub mod auth;
pub mod web;
pub mod pattern;
pub mod discord;
pub mod laws;

verus! {
} // verus!
