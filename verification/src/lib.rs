//! Update orchestration for a self-updating application launcher.
//!
//! The crate holds the decisions of an update: which release is the newest,
//! whether it has to be installed, how a download, an extraction and the
//! swap of an executable proceed from one outcome to the next, and how a
//! list of steps is run. Reading from the network and writing to disk are
//! left to the caller, who reports each outcome back as a plain value.

pub mod error;
pub mod progress;
pub mod text;
pub mod version;
pub mod provider;
pub mod download;
pub mod window;
pub mod updater;
pub mod procedure;
pub mod extract;
pub mod replace;
pub mod locker;
pub mod procedures;
pub mod update;
pub mod config;
pub mod launcher;
