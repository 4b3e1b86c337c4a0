//! A typed client library for the Roblox REST endpoints.
//!
//! The heart of the crate is the authenticated request pipeline: a shared
//! session store (cookies plus a cached anti-forgery token), a request
//! builder and token-learning retry state machine, a structured error
//! taxonomy for failure bodies, and cursor-driven pagination. Endpoint
//! modules supply URLs, query parameters and request bodies to that core.
//!
//! All protocol decisions live here and carry contracts; the surrounding
//! transport (HTTP, TLS, async plumbing) is driven by a thin unverified
//! shell that feeds responses back into the state machines of this crate.

pub mod apis;
pub mod clients;
pub mod json;
pub mod utils;
