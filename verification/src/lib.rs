//! Tells a command-line program whether a registry holds a release newer than
//! the one that is running, asking the registry at most once per interval.
//!
//! The library decides and computes; it neither opens a file nor sends a
//! request. An informer is made with [`new`], and a check of it is driven
//! through [`UpdateInformer::begin`] and [`UpdateInformer::advance`]: each
//! names the next piece of outside work as an [`check::Action`], and takes
//! what that work brought as a [`check::Event`]. Between two checks the
//! latest known version is kept in a small file, whose age says when the
//! registry is due to be asked again.
//!
//! - [`package`]: the owner and the name of a package.
//! - [`version`], [`precedence`], [`relations`]: versions and their order.
//! - [`registry`], [`http_client`]: what to ask a registry, and how to read
//!   its answer.
//! - [`version_file`], [`check`], [`informer`]: the cache file and the steps
//!   of a check.
//! - [`trace`]: what holds of every check.
//! - [`time`], [`text`], [`error`]: spans of time, characters, failures.

pub mod check;
pub mod error;
pub mod http_client;
pub mod informer;
pub mod package;
pub mod precedence;
pub mod registry;
pub mod relations;
pub mod text;
pub mod time;
pub mod trace;
pub mod version;
pub mod version_file;

pub use informer::{fake, new, Check, FakeUpdateInformer, UpdateInformer};
pub use package::Package;
pub use registry::Registry;
pub use version::Version;
