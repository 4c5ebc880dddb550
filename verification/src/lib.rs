//! Where a browser looks for the manifest of a native messaging host.
//!
//! A browser extension talks to a companion process, its native messaging
//! host, which the browser finds through a manifest file. The directory in
//! which that file has to lie depends on the browser and on the operating
//! system; on Windows the browser is additionally pointed to it through a
//! registry key. This crate holds the two lookup tables and proves what they
//! return.
//!
//! - [`browser`]: the browsers.
//! - [`platform`]: the operating systems and their families.
//! - [`manifest`]: the manifest directory of a browser on a system, relative
//!   to the home directory and joined onto it.
//! - [`registry`]: the registry key of a browser.
//! - [`laws`]: which combinations are supported, which directories and keys
//!   are shared, and what the messages of the others mention.
//! - [`path`]: paths, as the standard library has them.
//!
//! Three things are taken on trust, each where it is declared: the home
//! directory that `dirs` reports, the system that `platforms` reports, and
//! the way the standard library joins two paths. Everything else is
//! verified.

pub mod browser;
pub mod laws;
pub mod manifest;
pub mod path;
pub mod platform;
pub mod registry;

pub use browser::Browser;
pub use manifest::{get_manifest_path, manifest_dir_from_home, resolve_manifest_path};
pub use platform::{OperatingSystem, OsFamily};
pub use registry::get_regkey_path;
