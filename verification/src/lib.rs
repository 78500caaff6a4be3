//! Verified core of an RFNoC streaming tool: CHDR packet framing, stream
//! buffering, configuration rules and the command grammar of the REPL.

pub mod hardware;
pub mod interface;
pub mod logging;
pub mod processing;
pub mod config;
pub mod data_manager;
pub mod error;

pub use error::{Error, Result};
pub mod text;
