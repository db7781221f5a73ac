//! Core of a terminal dashboard for browsing the issues of a Backlog project:
//! the selection cursor, the request construction of the API client, the
//! lazily filled comment cache and the mapping from key presses to actions.
//!
//! Nothing in this crate touches the terminal or the network. The caller
//! sends the requests that the library builds and hands the responses back.

pub mod app;
pub mod client;
pub mod config;
pub mod error;
pub mod issue;
pub mod selection;
pub mod ui;
