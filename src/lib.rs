//! Standard per-application directories (configuration, data, cache, state,
//! runtime and home) under the Xdg, Windows and Apple conventions.
//!
//! A [`Directories`] value is built once from an application identity, the
//! convention of the host and a snapshot of the host environment; each
//! accessor then derives its path from those values alone, without touching
//! the file system.
pub mod path;
pub mod identity;
pub mod environment;
pub mod directories;
pub mod laws;

pub use directories::{Directories, DirectoryError};
pub use environment::{Convention, HostEnvironment};
pub use identity::AppIdentity;
