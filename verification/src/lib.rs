//! Core logic of a small HTTP file-exchange tool: path-name indexing,
//! request routing, upload admission with a bounded budget, and the
//! text formats (shell-quoted and JSON listings, log lines) it emits.

pub mod cli;
pub mod index;
pub mod listing;
pub mod resolve;
pub mod routes;
pub mod text;
pub mod upload;
