//! Workspace resolution and topology-change reconciliation for a monitor
//! manager.
//!
//! A configuration lists workspaces: named layouts of a primary monitor and
//! its secondary monitors. The library loads a configuration from a JSON
//! document, reads the connected monitors from a report of the display tool,
//! resolves the detected topology against the catalog, and decides, poll by
//! poll, whether the display is to be laid out again and with which
//! arguments of the display tool.

pub mod config;
pub mod display;
pub mod error;
pub mod json;
pub mod load;
pub mod poll;
pub mod resolve;
pub mod text;
