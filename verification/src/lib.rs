//! Verified core of a status-bar configuration switcher.
//!
//! The library holds the logic of the tool: composing the active stylesheet
//! from a style name and an existing sheet, deriving the filesystem paths of
//! the bar library and the persisted records, resolving which bar and style a
//! switch applies (explicit argument first, cached fallback second), and the
//! decision table of the switch itself. All file, process and terminal work
//! stays outside, in the surrounding binary, which hands the library plain
//! values and carries out the writes the library asks for.

pub mod config;
pub mod errors;
pub mod init;
pub mod style;
pub mod switch;
