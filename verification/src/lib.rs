//! # lore-vm
//!
//! A view-model core over the Lore version-control engine: the typed
//! arguments and results of every operation, the engine arguments they
//! convert to, the rules that read an operation's result off the engine's
//! event stream, the command-line adapter's argument lists and text parsers,
//! the in-process adapter's result mappings, and the operation routing table.
pub mod api;
pub mod base64;
pub mod cli_backend;
pub mod client_backend;
pub mod dispatch;
pub mod error;
pub mod events;
pub mod global;
pub mod model;
pub mod ops;
pub mod paths;
pub mod text;
