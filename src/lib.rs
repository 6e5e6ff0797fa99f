//! Steam Guard mobile-authenticator credentials: a versioned store of account
//! secrets that is upgraded in memory to one canonical shape, and the decisions
//! of the client that logs in to Steam and enrolls an authenticator.

pub mod account;
pub mod migrate;
pub mod outside;
pub mod prompt;
pub mod steamapi;
pub mod text;
