//! Sampling of one plausible line of code from a local corpus of source files.
//!
//! A language names where its files are looked for and which of their lines
//! look like code. One file is chosen at random among those found, then one
//! line among those that its filter keeps. The library takes every decision on
//! that way and touches neither the environment nor the file system: its
//! caller reads, and reports what was read.

pub mod error;
pub mod filter;
pub mod folder;
pub mod language;
pub mod paths;
pub mod sampler;
pub mod select;
pub mod text;

pub use crate::error::{ErrorKind, LinesError};
pub use crate::folder::Environment;
pub use crate::language::Language;
pub use crate::sampler::{next_action, Action, Event, LineConfig};
pub use crate::select::get_random_string;
