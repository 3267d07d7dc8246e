//! Verified decision logic for an idempotent bind-mount tool.
//!
//! The library never touches the system itself: it parses the mount table,
//! derives the paths involved, and drives the mount / unmount flow as a state
//! machine whose operations are carried out by the caller.
use vstd::prelude::*;

pub mod args;
pub mod command;
pub mod entry;
pub mod error;
pub mod mount_table;
pub mod orchestrator;
pub mod paths;
pub mod text;

pub use args::Arguments;
pub use command::Command;
pub use error::{Error, IoError, IoErrorKind, OsError};

verus! {

} // verus!
