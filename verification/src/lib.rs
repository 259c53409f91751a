//! Validation and command-planning core for a desktop backup browser that
//! drives the external `restic` tool.
//!
//! The library checks every user-supplied string (repository locators,
//! snapshot identifiers, restore targets, include paths, repository ids,
//! passwords) before it may reach a subprocess invocation, plans the argument
//! vector of each operation, classifies the outcome of a finished subprocess
//! under a strict or a lenient policy, and parses the tool's JSON responses.
//! Spawning the subprocess itself, and all file, database and GUI work, live
//! outside the library.

pub mod config;
pub mod errors;
pub mod exec;
pub mod json;
pub mod locate;
pub mod models;
pub mod ops;
pub mod text;
pub mod validate;
