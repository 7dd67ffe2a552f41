//! The operations over one repository: for each, its arguments, the engine
//! arguments they convert to, its typed result, and the rule that reads that
//! result off the operation's event stream.
pub mod auth;
pub mod branch;
pub mod dependency;
pub mod file;
pub mod layer;
pub mod link;
