//! Per-machine tool-version manager: release discovery, asset selection,
//! the version ledger and the install/replace decisions, all verified.
//! Network, archive and disk work is done by the caller.

pub mod cli;
pub mod install;
pub mod ledger;
pub mod pipeline;
pub mod release;
pub mod selector;
pub mod text;
