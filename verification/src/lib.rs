//! Generator of reverse-proxy server-block configuration files.
//!
//! A declarative document maps host names to host definitions (a domain,
//! an upstream address, and a list of services).  The library loads such
//! a document, and renders one configuration file per host plus a shared
//! location file, all as plain text values.  Reading and writing the
//! file system is left to the surrounding program.

pub mod cli;
pub mod loader;
pub mod model;
pub mod render;
pub mod toml_api;

pub use cli::{Cli, CliArgs, MainCommand};
pub use model::{HostInfo, ServiceInfo};
