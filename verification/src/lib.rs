//! A local version manager for command-line tools: it resolves a tool and a
//! semantic version to a download URL, classifies the HTTP response, unwraps
//! zip-packaged artifacts, computes deterministic on-disk paths, and swaps a
//! stable launcher symlink to the selected versioned binary.

pub mod archive;
pub mod cli;
pub mod disk;
pub mod error;
pub mod fetch;
pub mod orchestrator;
pub mod platform;
pub mod resolver;
pub mod status;
pub mod store;
mod strutil;
pub mod tool;
pub mod version;

pub use error::Error;
pub use tool::Tool;
pub use version::Version;
